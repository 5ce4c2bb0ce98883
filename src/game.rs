//! A self-contained game loop on a millisecond counter: one fixed directive,
//! a hull-health score and a distance counter, driven by `update`.

use vstd::prelude::*;
use crate::messages::{Action, Directive, Interface, Value};
use crate::time::Duration;

verus! {

/// The pause between directives, in milliseconds.
pub const TIME_BETWEEN_DIRECTIVES: u32 = 2_000;

/// The time between distance steps, in milliseconds.
pub const SHIP_DISTANCE_UPDATE: u32 = 2_000;

/// The distance added at each step.
pub const SHIP_DISTANCE_PER_UPDATE: u32 = 297;

/// The time limit of the directive this loop issues, in milliseconds.
pub const DIRECTIVE_TIME_MS: u32 = 10_000;

/// The hull health at the start.
pub const INITIAL_HULL_HEALTH: u8 = 100;

/// The hull-health loss when a directive expires.
pub const HULL_TIMEOUT_DAMAGE: u8 = 4;

/// What the loop reports to the display.
#[derive(Clone, Copy, Debug, PartialEq, Eq, Structural)]
pub enum Messages {
    NewDirective(Directive),
    /// The new hull health.
    UpdateHullHealth(u8),
    /// The new total distance.
    UpdateDistance(u32),
}

#[derive(Clone, Copy, Debug, PartialEq, Eq, Structural)]
pub enum DirectiveStatus {
    AwaitingDirective { wait_until: u32 },
    HasDirective { expiration: u32, directive: Directive },
}

/// The one directive this loop issues.
pub open spec fn fixed_directive() -> Directive {
    Directive {
        action: Action { interface: Interface::Eigenthrottle, value: Value::Enable },
        time_limit: Duration { millis: DIRECTIVE_TIME_MS as u64 },
    }
}

pub struct Game {
    hull_health: u8,
    ship_distance: u32,
    next_ship_distance_update: u32,
    directive_status: DirectiveStatus,
}

impl Game {
    pub closed spec fn hull(&self) -> u8 {
        self.hull_health
    }

    pub closed spec fn distance(&self) -> u32 {
        self.ship_distance
    }

    pub closed spec fn next_distance_update(&self) -> u32 {
        self.next_ship_distance_update
    }

    pub closed spec fn status(&self) -> DirectiveStatus {
        self.directive_status
    }

    /// Whether an update at `ms` keeps every counter in range.
    pub open spec fn update_fits(&self, ms: u32) -> bool {
        &&& match self.status() {
            DirectiveStatus::AwaitingDirective { wait_until } => ms > wait_until ==> ms
                + DIRECTIVE_TIME_MS <= u32::MAX,
            DirectiveStatus::HasDirective { expiration, .. } => ms > expiration ==> ms
                + TIME_BETWEEN_DIRECTIVES <= u32::MAX && self.hull() >= HULL_TIMEOUT_DAMAGE,
        }
        &&& ms > self.next_distance_update() ==> self.distance() + SHIP_DISTANCE_PER_UPDATE
            <= u32::MAX && self.next_distance_update() + SHIP_DISTANCE_UPDATE <= u32::MAX
    }

    /// Full hull, no distance, the first directive due after 2000 ms.
    pub fn new() -> (r: Game)
        ensures
            r.hull() == INITIAL_HULL_HEALTH,
            r.distance() == 0,
            r.next_distance_update() == 0,
            r.status() == (DirectiveStatus::AwaitingDirective {
                wait_until: TIME_BETWEEN_DIRECTIVES,
            }),
    {
        Game {
            hull_health: INITIAL_HULL_HEALTH,
            ship_distance: 0,
            next_ship_distance_update: 0,
            directive_status: DirectiveStatus::AwaitingDirective {
                wait_until: 0 + TIME_BETWEEN_DIRECTIVES,
            },
        }
    }

    pub fn can_update(&self, ms: u32) -> (r: bool)
        ensures
            r == self.update_fits(ms),
    {
        let directive_ok = match self.directive_status {
            DirectiveStatus::AwaitingDirective { wait_until } => ms <= wait_until || ms
                <= u32::MAX - DIRECTIVE_TIME_MS,
            DirectiveStatus::HasDirective { expiration, .. } => ms <= expiration || (ms
                <= u32::MAX - TIME_BETWEEN_DIRECTIVES && self.hull_health >= HULL_TIMEOUT_DAMAGE),
        };
        let distance_ok = ms <= self.next_ship_distance_update || (self.ship_distance
            <= u32::MAX - SHIP_DISTANCE_PER_UPDATE && self.next_ship_distance_update
            <= u32::MAX - SHIP_DISTANCE_UPDATE);
        directive_ok && distance_ok
    }

    /// Advances the loop to time `ms` and returns what it reports, in order:
    /// a new directive once the wait is over, or the hull damage once the
    /// directive expired; then the new distance once the next distance
    /// boundary is passed.
    pub fn update(&mut self, ms: u32) -> (r: Vec<Messages>)
        requires
            old(self).update_fits(ms),
        ensures
            ({
                let s0 = *old(self);
                let s1 = *final(self);
                let directive_msgs = match s0.status() {
                    DirectiveStatus::AwaitingDirective { wait_until } => if ms > wait_until {
                        seq![Messages::NewDirective(fixed_directive())]
                    } else {
                        Seq::empty()
                    },
                    DirectiveStatus::HasDirective { expiration, .. } => if ms > expiration {
                        seq![Messages::UpdateHullHealth(s1.hull())]
                    } else {
                        Seq::empty()
                    },
                };
                let distance_msgs = if ms > s0.next_distance_update() {
                    seq![Messages::UpdateDistance(s1.distance())]
                } else {
                    Seq::empty()
                };
                &&& r@ == directive_msgs + distance_msgs
                &&& match s0.status() {
                    DirectiveStatus::AwaitingDirective { wait_until } => if ms > wait_until {
                        s1.status() == DirectiveStatus::HasDirective {
                            directive: fixed_directive(),
                            expiration: (ms + DIRECTIVE_TIME_MS) as u32,
                        } && s1.hull() == s0.hull()
                    } else {
                        s1.status() == s0.status() && s1.hull() == s0.hull()
                    },
                    DirectiveStatus::HasDirective { expiration, .. } => if ms > expiration {
                        s1.status() == DirectiveStatus::AwaitingDirective {
                            wait_until: (ms + TIME_BETWEEN_DIRECTIVES) as u32,
                        } && s1.hull() == s0.hull() - HULL_TIMEOUT_DAMAGE
                    } else {
                        s1.status() == s0.status() && s1.hull() == s0.hull()
                    },
                }
                &&& if ms > s0.next_distance_update() {
                    s1.distance() == s0.distance() + SHIP_DISTANCE_PER_UPDATE
                        && s1.next_distance_update() == s0.next_distance_update()
                        + SHIP_DISTANCE_UPDATE
                } else {
                    s1.distance() == s0.distance() && s1.next_distance_update()
                        == s0.next_distance_update()
                }
            }),
    {
        let mut msgs: Vec<Messages> = Vec::new();
        match self.directive_status {
            DirectiveStatus::AwaitingDirective { wait_until } => {
                if ms > wait_until {
                    let directive = self.generate_directive();
                    self.directive_status = DirectiveStatus::HasDirective {
                        directive,
                        expiration: ms + DIRECTIVE_TIME_MS,
                    };
                    msgs.push(Messages::NewDirective(directive));
                }
            },
            DirectiveStatus::HasDirective { expiration, .. } => {
                if ms > expiration {
                    self.directive_status = DirectiveStatus::AwaitingDirective {
                        wait_until: ms + TIME_BETWEEN_DIRECTIVES,
                    };
                    self.hull_health = self.hull_health - HULL_TIMEOUT_DAMAGE;
                    msgs.push(Messages::UpdateHullHealth(self.hull_health));
                }
            },
        }
        if ms > self.next_ship_distance_update {
            self.ship_distance = self.ship_distance + SHIP_DISTANCE_PER_UPDATE;
            msgs.push(Messages::UpdateDistance(self.ship_distance));
            self.next_ship_distance_update = self.next_ship_distance_update + SHIP_DISTANCE_UPDATE;
        }
        msgs
    }

    fn generate_directive(&self) -> (r: Directive)
        ensures
            r == fixed_directive(),
    {
        Directive {
            action: Action { interface: Interface::Eigenthrottle, value: Value::Enable },
            time_limit: Duration::from_millis(DIRECTIVE_TIME_MS as u64),
        }
    }

    pub fn hull_health(&self) -> (r: u8)
        ensures
            r == self.hull(),
    {
        self.hull_health
    }

    pub fn ship_distance(&self) -> (r: u32)
        ensures
            r == self.distance(),
    {
        self.ship_distance
    }

    pub fn directive_status(&self) -> (r: DirectiveStatus)
        ensures
            r == self.status(),
    {
        self.directive_status
    }
}

} // verus!
