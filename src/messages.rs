//! The vocabulary shared by the simulation and its collaborators: ship
//! subsystems, actions, directives and the events that flow between them.

use vstd::prelude::*;
use crate::time::Duration;

verus! {

/// One controllable ship subsystem.
#[derive(Clone, Copy, Debug, PartialEq, Eq, Structural)]
pub enum Interface {
    Eigenthrottle,
    GelatinousDarkbucket,
    VentControl,
}

/// A setting of a subsystem.
#[derive(Clone, Copy, Debug, PartialEq, Eq, Structural)]
pub enum Value {
    Enable,
    Disable,
}

/// Setting one subsystem to one value.
#[derive(Clone, Copy, Debug, PartialEq, Eq, Structural)]
pub struct Action {
    pub interface: Interface,
    pub value: Value,
}

/// An action the player must perform within a time limit.
#[derive(Clone, Copy, Debug, PartialEq, Eq, Structural)]
pub struct Directive {
    pub action: Action,
    pub time_limit: Duration,
}

/// The events of the simulation, inbound and outbound.
#[derive(Clone, Copy, Debug, PartialEq, Eq, Structural)]
pub enum Event {
    /// The player asked to start a game (inbound).
    StartGame,
    /// Time has advanced (inbound); the time travels with the dispatch.
    Tick,
    /// The player performed an action (inbound).
    ActionPerformed(Action),
    /// The controls finished their setup (inbound).
    ControlInitFinished,
    /// Requests setup of the controls.
    InitializeGame,
    GameStarted,
    NewDirective(Directive),
    DirectiveCompleted,
    /// The hull health changed by `delta`.
    UpdateHullHealth { delta: i32 },
    /// The ship has travelled `distance` in total.
    ShipDistanceUpdated { distance: u32 },
}

/// The number of subsystems.
pub const NUM_INTERFACES: usize = 3;

/// The position of a subsystem in the ship's table.
pub open spec fn interface_index(i: Interface) -> int {
    match i {
        Interface::Eigenthrottle => 0,
        Interface::GelatinousDarkbucket => 1,
        Interface::VentControl => 2,
    }
}

pub fn index_of_interface(i: Interface) -> (r: usize)
    ensures
        r == interface_index(i),
        r < NUM_INTERFACES,
{
    match i {
        Interface::Eigenthrottle => 0,
        Interface::GelatinousDarkbucket => 1,
        Interface::VentControl => 2,
    }
}

/// The subsystem at position `n` of the ship's table.
pub fn interface_at(n: usize) -> (r: Interface)
    requires
        n < NUM_INTERFACES,
    ensures
        interface_index(r) == n,
{
    if n == 0 {
        Interface::Eigenthrottle
    } else if n == 1 {
        Interface::GelatinousDarkbucket
    } else {
        Interface::VentControl
    }
}

pub open spec fn opposite(v: Value) -> Value {
    match v {
        Value::Enable => Value::Disable,
        Value::Disable => Value::Enable,
    }
}

/// The other setting of a two-way subsystem.
pub fn flip(v: Value) -> (r: Value)
    ensures
        r == opposite(v),
{
    match v {
        Value::Enable => Value::Disable,
        Value::Disable => Value::Enable,
    }
}

} // verus!
