//! The coarse phase of a game: waiting for the player, setting up the
//! controls, playing.

use vstd::prelude::*;
use crate::messages::Event;

verus! {

#[derive(Clone, Copy, Debug, PartialEq, Eq, Structural)]
pub enum GamePhase {
    /// Waiting for the player to press a control to start.
    AwaitingInput,
    /// Waiting for the controls to finish their setup.
    Initializing,
    Playing,
}

/// How far along the phase order `p` stands.
pub open spec fn phase_rank(p: GamePhase) -> int {
    match p {
        GamePhase::AwaitingInput => 0,
        GamePhase::Initializing => 1,
        GamePhase::Playing => 2,
    }
}

pub struct GameStateActor {
    state: GamePhase,
}

impl GameStateActor {
    pub closed spec fn phase(&self) -> GamePhase {
        self.state
    }

    pub fn new() -> (r: GameStateActor)
        ensures
            r.phase() == GamePhase::AwaitingInput,
    {
        GameStateActor { state: GamePhase::AwaitingInput }
    }

    pub fn current_phase(&self) -> (r: GamePhase)
        ensures
            r == self.phase(),
    {
        self.state
    }

    /// A player action while awaiting input starts the setup; otherwise it
    /// is ignored here.
    pub fn action_performed(&mut self) -> (r: Vec<Event>)
        ensures
            old(self).phase() == GamePhase::AwaitingInput ==> final(self).phase()
                == GamePhase::Initializing && r@ == seq![Event::InitializeGame],
            old(self).phase() != GamePhase::AwaitingInput ==> final(self).phase() == old(
                self,
            ).phase() && r@.len() == 0,
            phase_rank(old(self).phase()) <= phase_rank(final(self).phase()),
    {
        let mut r: Vec<Event> = Vec::new();
        if self.state == GamePhase::AwaitingInput {
            self.state = GamePhase::Initializing;
            r.push(Event::InitializeGame);
        }
        r
    }

    /// The end of the setup starts play; at any other phase it is ignored.
    pub fn control_init_finished(&mut self) -> (r: Vec<Event>)
        ensures
            old(self).phase() == GamePhase::Initializing ==> final(self).phase()
                == GamePhase::Playing && r@ == seq![Event::GameStarted],
            old(self).phase() != GamePhase::Initializing ==> final(self).phase() == old(
                self,
            ).phase() && r@.len() == 0,
            phase_rank(old(self).phase()) <= phase_rank(final(self).phase()),
    {
        let mut r: Vec<Event> = Vec::new();
        if self.state == GamePhase::Initializing {
            self.state = GamePhase::Playing;
            r.push(Event::GameStarted);
        }
        r
    }
}

impl Default for GameStateActor {
    fn default() -> (r: GameStateActor)
        ensures
            r.phase() == GamePhase::AwaitingInput,
    {
        GameStateActor::new()
    }
}

} // verus!
