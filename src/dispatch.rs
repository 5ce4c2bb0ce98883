//! Routes events between the game's components: each inbound event goes to
//! the actors that handle it, and what they produce is queued and drained
//! before the call returns; outbound events are handed to the caller for the
//! output collaborators.

use vstd::prelude::*;
use crate::game_logic::{
    action_events, completes, directive_events, distance_events, tick_directive_step,
    GameLogicActor, CurrentDirective, DIRECTIVE_TIME_LIMIT_MS, DIRECTIVE_WAIT_MS,
};
use crate::game_state::{GamePhase, GameStateActor};
use crate::messages::Event;
use crate::ship_state::perform_spec;
use crate::time::Instant;

verus! {

/// The most queue entries one dispatch handles; further entries are left
/// unhandled rather than looping without end.
pub const MAX_DRAIN_STEPS: usize = 64;

/// Whether `e` is addressed to the game rather than to the outputs.
pub open spec fn is_inbound(e: Event) -> bool {
    match e {
        Event::StartGame | Event::Tick | Event::ActionPerformed(_)
        | Event::ControlInitFinished => true,
        _ => false,
    }
}

pub fn inbound(e: Event) -> (r: bool)
    ensures
        r == is_inbound(e),
{
    match e {
        Event::StartGame | Event::Tick | Event::ActionPerformed(_)
        | Event::ControlInitFinished => true,
        _ => false,
    }
}

/// The events the phase machine emits for `e` in phase `p`.
pub open spec fn phase_events(p: GamePhase, e: Event) -> Seq<Event> {
    match e {
        Event::ActionPerformed(_) => if p == GamePhase::AwaitingInput {
            seq![Event::InitializeGame]
        } else {
            seq![]
        },
        Event::ControlInitFinished => if p == GamePhase::Initializing {
            seq![Event::GameStarted]
        } else {
            seq![]
        },
        _ => seq![],
    }
}

/// The events the directive game emits for `e` at `now`, going from `g0` to
/// `g1`.
pub open spec fn logic_events(g0: GameLogicActor, g1: GameLogicActor, now: u64, e: Event) -> Seq<
    Event,
> {
    match e {
        Event::StartGame => seq![Event::ShipDistanceUpdated { distance: 0 }],
        Event::Tick => directive_events(g0.directive(), g1.directive()) + distance_events(
            g0.distance(),
            now,
        ),
        Event::ActionPerformed(a) => action_events(g0.directive(), a),
        _ => seq![],
    }
}

proof fn lemma_outbound_only(g0: GameLogicActor, g1: GameLogicActor, now: u64, p: GamePhase, e: Event)
    ensures
        forall|k: int|
            0 <= k < (phase_events(p, e) + logic_events(g0, g1, now, e)).len() ==> !is_inbound(
                #[trigger] (phase_events(p, e) + logic_events(g0, g1, now, e))[k],
            ),
        (phase_events(p, e) + logic_events(g0, g1, now, e)).len() <= 2,
{
    let s = phase_events(p, e) + logic_events(g0, g1, now, e);
    assert forall|k: int| 0 <= k < s.len() implies !is_inbound(#[trigger] s[k]) by {
        if k >= phase_events(p, e).len() {
            assert(s[k] == logic_events(g0, g1, now, e)[k - phase_events(p, e).len()]);
        }
    }
}

pub struct Dispatcher {
    logic: GameLogicActor,
    phase: GameStateActor,
}

impl Dispatcher {
    pub closed spec fn logic(&self) -> GameLogicActor {
        self.logic
    }

    pub closed spec fn phase(&self) -> GamePhase {
        self.phase.phase()
    }

    pub open spec fn wf(&self) -> bool {
        self.logic().wf()
    }

    /// Whether the counters leave room for handling an event at `now`.
    pub open spec fn fits(&self, now: u64) -> bool {
        &&& self.logic().distance().can_step()
        &&& now + DIRECTIVE_TIME_LIMIT_MS <= u64::MAX
    }

    pub fn new(seed: u64) -> (r: Dispatcher)
        ensures
            r.wf(),
            r.phase() == GamePhase::AwaitingInput,
            r.logic().directive() == (CurrentDirective::WaitingForDirective {
                wait_until: Instant { millis: DIRECTIVE_WAIT_MS },
            }),
            r.logic().distance().distance() == 0,
    {
        Dispatcher { logic: GameLogicActor::new(seed), phase: GameStateActor::new() }
    }

    pub fn can_handle(&self, now: Instant) -> (r: bool)
        ensures
            r == self.fits(now.millis),
    {
        self.logic.distance_can_step() && now.millis <= u64::MAX - DIRECTIVE_TIME_LIMIT_MS
    }

    /// Hands the inbound event `e` to its handlers: first the phase machine,
    /// then the directive game.
    fn route(&mut self, now: Instant, e: Event) -> (r: Vec<Event>)
        requires
            old(self).wf(),
            old(self).fits(now.millis),
        ensures
            final(self).wf(),
            final(self).step_ok(*old(self), now.millis, e),
            r@ == phase_events(old(self).phase(), e) + logic_events(
                old(self).logic(),
                final(self).logic(),
                now.millis,
                e,
            ),
    {
        let mut out: Vec<Event> = Vec::new();
        match e {
            Event::StartGame => {
                let mut produced = self.logic.start();
                out.append(&mut produced);
            },
            Event::Tick => {
                let mut produced = self.logic.tick(now);
                out.append(&mut produced);
            },
            Event::ActionPerformed(a) => {
                let mut first = self.phase.action_performed();
                out.append(&mut first);
                let mut second = self.logic.action_performed(now, a);
                out.append(&mut second);
            },
            Event::ControlInitFinished => {
                let mut produced = self.phase.control_init_finished();
                out.append(&mut produced);
            },
            _ => {},
        }
        proof {
            assert(out@ =~= phase_events(old(self).phase(), e) + logic_events(
                old(self).logic(),
                self.logic(),
                now.millis,
                e,
            ));
        }
        out
    }

    /// How the state moved when `e` was handled at `now`, starting from `d0`.
    pub open spec fn step_ok(&self, d0: Dispatcher, now: u64, e: Event) -> bool {
        let g0 = d0.logic();
        let g1 = self.logic();
        &&& match e {
            Event::Tick => {
                &&& tick_directive_step(g0.directive(), g0.ship(), now, g1.directive(), g1.ship())
                &&& (g1.distance().distance(), g1.distance().next_update_at())
                    == crate::ship_distance::distance_step(
                    g0.distance().distance(),
                    g0.distance().next_update_at(),
                    now,
                )
            },
            Event::ActionPerformed(a) => {
                &&& g1.ship() == perform_spec(g0.ship(), a)
                &&& g1.distance() == g0.distance()
                &&& g1.directive() == (if completes(g0.directive(), a) {
                    CurrentDirective::WaitingForDirective {
                        wait_until: Instant { millis: (now + DIRECTIVE_WAIT_MS) as u64 },
                    }
                } else {
                    g0.directive()
                })
            },
            _ => g1 == g0,
        }
        &&& match e {
            Event::ActionPerformed(_) => if d0.phase() == GamePhase::AwaitingInput {
                self.phase() == GamePhase::Initializing
            } else {
                self.phase() == d0.phase()
            },
            Event::ControlInitFinished => if d0.phase() == GamePhase::Initializing {
                self.phase() == GamePhase::Playing
            } else {
                self.phase() == d0.phase()
            },
            _ => self.phase() == d0.phase(),
        }
    }

    /// Handles the event `e` at `now` and everything it sets off, breadth
    /// first, and returns the events for the outputs in the order they were
    /// produced. An outbound event is passed straight through.
    pub fn dispatch(&mut self, now: Instant, e: Event) -> (r: Vec<Event>)
        requires
            old(self).wf(),
            old(self).fits(now.millis),
        ensures
            final(self).wf(),
            is_inbound(e) ==> final(self).step_ok(*old(self), now.millis, e) && r@ == phase_events(
                old(self).phase(),
                e,
            ) + logic_events(old(self).logic(), final(self).logic(), now.millis, e),
            !is_inbound(e) ==> *final(self) == *old(self) && r@ == seq![e],
    {
        let mut queue: Vec<Event> = Vec::new();
        queue.push(e);
        let mut out: Vec<Event> = Vec::new();
        let mut i: usize = 0;
        while i < queue.len() && i < MAX_DRAIN_STEPS
            invariant
                self.wf(),
                old(self).wf(),
                old(self).fits(now.millis),
                queue@.len() >= 1,
                queue@[0] == e,
                queue@.len() <= 3,
                i <= queue@.len(),
                i == 0 ==> *self == *old(self) && out@.len() == 0 && queue@.len() == 1,
                forall|k: int| 1 <= k < queue@.len() ==> !is_inbound(#[trigger] queue@[k]),
                is_inbound(e) && i > 0 ==> self.step_ok(*old(self), now.millis, e) && queue@.subrange(
                    1,
                    queue@.len() as int,
                ) == phase_events(old(self).phase(), e) + logic_events(
                    old(self).logic(),
                    self.logic(),
                    now.millis,
                    e,
                ) && out@ == queue@.subrange(1, i as int),
                !is_inbound(e) ==> *self == *old(self) && queue@.len() == 1 && out@
                    == queue@.subrange(0, i as int),
            decreases 3 - i,
        {
            let ev = queue[i];
            if inbound(ev) {
                proof {
                    if i > 0 {
                        assert(!is_inbound(queue@[i as int]));
                    }
                }
                let ghost before = *self;
                let produced = self.route(now, ev);
                proof {
                    lemma_outbound_only(
                        before.logic(),
                        self.logic(),
                        now.millis,
                        before.phase(),
                        ev,
                    );
                }
                let ghost q0 = queue@;
                let mut k: usize = 0;
                while k < produced.len()
                    invariant
                        k <= produced@.len(),
                        produced@.len() <= 2,
                        queue@ == q0 + produced@.subrange(0, k as int),
                        forall|j: int| 0 <= j < produced@.len() ==> !is_inbound(#[trigger] produced@[j]),
                    decreases produced@.len() - k,
                {
                    queue.push(produced[k]);
                    k = k + 1;
                    proof {
                        assert(queue@ =~= q0 + produced@.subrange(0, k as int));
                    }
                }
                proof {
                    assert(produced@.subrange(0, k as int) =~= produced@);
                    assert(queue@.subrange(1, queue@.len() as int) =~= produced@);
                    assert forall|j: int| 1 <= j < queue@.len() implies !is_inbound(
                        #[trigger] queue@[j],
                    ) by {
                        assert(queue@[j] == produced@[j - 1]);
                    }
                }
            } else {
                out.push(ev);
            }
            i = i + 1;
            proof {
                assert(out@ =~= queue@.subrange(if is_inbound(e) { 1 } else { 0 }, i as int));
            }
        }
        proof {
            assert(i == queue@.len());
            if is_inbound(e) {
                assert(out@ =~= queue@.subrange(1, queue@.len() as int));
            } else {
                assert(out@ =~= queue@);
            }
        }
        out
    }

    pub fn phase_now(&self) -> (r: GamePhase)
        ensures
            r == self.phase(),
    {
        self.phase.current_phase()
    }

    pub fn directive_now(&self) -> (r: CurrentDirective)
        ensures
            r == self.logic().directive(),
    {
        self.logic.current_directive()
    }
}

} // verus!
