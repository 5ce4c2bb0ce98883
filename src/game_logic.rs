//! The directive game: issues timed directives against the ship's subsystems,
//! penalises the hull for timeouts and wrong actions, and advances the
//! ship's distance.

use vstd::prelude::*;
use rand::rngs::SmallRng;
use crate::messages::{interface_index, Action, Directive, Event, Value, NUM_INTERFACES};
use crate::rng::seeded_rng;
use crate::ship_distance::{ShipDistance, ShipDistanceResult, DISTANCE_PER_UPDATE};
use crate::ship_state::{
    clear_spec, has_candidate, is_candidate, perform_spec, require_spec, GenerateFailReason,
    ShipState, Subsystem,
};
use crate::time::{Duration, Instant};

verus! {

/// The pause between one directive's end and the next one, in milliseconds.
pub const DIRECTIVE_WAIT_MS: u64 = 500;

/// The time the player has to perform a directive, in milliseconds.
pub const DIRECTIVE_TIME_LIMIT_MS: u64 = 7_000;

/// The hull-health change when a directive times out.
pub const TIMEOUT_PENALTY: i32 = -4;

/// The hull-health change for an action that completes no directive.
pub const WRONG_ACTION_PENALTY: i32 = -2;

/// The seed of the generator when none is given.
pub const DEFAULT_SEED: u64 = 0x1234_5678;

/// Whether a directive is pending, and until when.
#[derive(Clone, Copy, Debug, PartialEq, Eq, Structural)]
pub enum CurrentDirective {
    WaitingForDirective { wait_until: Instant },
    OutstandingDirective { expires_at: Instant, action: Action },
}

pub open spec fn time_limit() -> Duration {
    Duration { millis: DIRECTIVE_TIME_LIMIT_MS }
}

/// The events of a tick's directive step that went from `before` to `after`.
pub open spec fn directive_events(before: CurrentDirective, after: CurrentDirective) -> Seq<Event> {
    match (before, after) {
        (
            CurrentDirective::WaitingForDirective { .. },
            CurrentDirective::OutstandingDirective { action, .. },
        ) => seq![Event::NewDirective(Directive { action, time_limit: time_limit() })],
        (
            CurrentDirective::OutstandingDirective { .. },
            CurrentDirective::WaitingForDirective { .. },
        ) => seq![Event::UpdateHullHealth { delta: TIMEOUT_PENALTY }],
        _ => seq![],
    }
}

/// The events of a tick's distance step at time `now`.
pub open spec fn distance_events(d: ShipDistance, now: u64) -> Seq<Event> {
    if now > d.next_update_at() {
        seq![Event::ShipDistanceUpdated { distance: (d.distance() + DISTANCE_PER_UPDATE) as u32 }]
    } else {
        seq![]
    }
}

/// Whether `a` completes the directive pending in `d`.
pub open spec fn completes(d: CurrentDirective, a: Action) -> bool {
    d matches CurrentDirective::OutstandingDirective { action, .. } && action == a
}

/// The events when the player performs `a` while `d` stands.
pub open spec fn action_events(d: CurrentDirective, a: Action) -> Seq<Event> {
    if completes(d, a) {
        seq![Event::DirectiveCompleted]
    } else {
        seq![Event::UpdateHullHealth { delta: WRONG_ACTION_PENALTY }]
    }
}

pub struct GameLogicActor {
    rng: SmallRng,
    ship_state: ShipState,
    ship_distance: ShipDistance,
    directive: CurrentDirective,
}

/// The directive step of a tick at `now`, from the directive and ship table
/// `d0`, `s0` to `d1`, `s1`. Generation picks at random among candidates.
pub open spec fn tick_directive_step(
    d0: CurrentDirective,
    s0: Seq<Subsystem>,
    now: u64,
    d1: CurrentDirective,
    s1: Seq<Subsystem>,
) -> bool {
    match d0 {
        CurrentDirective::WaitingForDirective { wait_until } => {
            if now >= wait_until.millis && has_candidate(s0) {
                &&& d1 is OutstandingDirective
                &&& d1->expires_at.millis == now + DIRECTIVE_TIME_LIMIT_MS
                &&& is_candidate(s0, d1->action)
                &&& s1 == require_spec(s0, d1->action)
            } else {
                d1 == d0 && s1 == s0
            }
        },
        CurrentDirective::OutstandingDirective { expires_at, action } => {
            if now >= expires_at.millis {
                &&& d1 == CurrentDirective::WaitingForDirective {
                    wait_until: Instant { millis: (now + DIRECTIVE_WAIT_MS) as u64 },
                }
                &&& s1 == clear_spec(s0, action)
            } else {
                d1 == d0 && s1 == s0
            }
        },
    }
}

/// At most one requirement is pending in the ship table, and exactly when a
/// directive is outstanding, for that directive's action.
pub open spec fn directive_matches_ship(d: CurrentDirective, s: Seq<Subsystem>) -> bool {
    match d {
        CurrentDirective::WaitingForDirective { .. } => forall|j: int|
            0 <= j < s.len() ==> (#[trigger] s[j]).required is None,
        CurrentDirective::OutstandingDirective { action, .. } => {
            &&& s[interface_index(action.interface)].required == Some(action.value)
            &&& forall|j: int|
                0 <= j < s.len() && j != interface_index(action.interface) ==> (
                #[trigger] s[j]).required is None
        },
    }
}

impl GameLogicActor {
    pub closed spec fn directive(&self) -> CurrentDirective {
        self.directive
    }

    pub closed spec fn ship(&self) -> Seq<Subsystem> {
        self.ship_state@
    }

    pub closed spec fn distance(&self) -> ShipDistance {
        self.ship_distance
    }

    pub closed spec fn wf(&self) -> bool {
        &&& self.ship_state.wf()
        &&& directive_matches_ship(self.directive, self.ship_state@)
    }

    /// The spec-visible part of well-formedness.
    pub proof fn lemma_wf(&self)
        requires
            self.wf(),
        ensures
            self.ship().len() == NUM_INTERFACES,
            directive_matches_ship(self.directive(), self.ship()),
    {
    }

    /// A game whose generator is seeded with `seed`: every subsystem
    /// disabled, the first directive due at 500 ms, no distance.
    pub fn new(seed: u64) -> (r: GameLogicActor)
        ensures
            r.wf(),
            r.directive() == (CurrentDirective::WaitingForDirective {
                wait_until: Instant { millis: DIRECTIVE_WAIT_MS },
            }),
            forall|j: int|
                0 <= j < NUM_INTERFACES ==> (#[trigger] r.ship()[j]).current == Value::Disable
                    && r.ship()[j].required is None,
            r.distance().distance() == 0,
            r.distance().next_update_at() == 0,
    {
        GameLogicActor {
            rng: seeded_rng(seed),
            ship_state: ShipState::new(),
            ship_distance: ShipDistance::new(),
            directive: CurrentDirective::WaitingForDirective {
                wait_until: Instant::from_millis(0).plus(Duration::from_millis(DIRECTIVE_WAIT_MS)),
            },
        }
    }

    /// Asks the ship for an action and, if one is available, makes it the
    /// outstanding directive, expiring `DIRECTIVE_TIME_LIMIT_MS` after `now`.
    fn generate_directive(&mut self, now: Instant) -> (r: Result<Directive, GenerateFailReason>)
        requires
            old(self).wf(),
            old(self).directive() is WaitingForDirective,
            now.millis + DIRECTIVE_TIME_LIMIT_MS <= u64::MAX,
        ensures
            final(self).wf(),
            final(self).distance() == old(self).distance(),
            r is Err <==> !has_candidate(old(self).ship()),
            r is Err ==> final(self).directive() == old(self).directive() && final(self).ship()
                == old(self).ship(),
            r matches Ok(d) ==> {
                &&& d.time_limit == time_limit()
                &&& final(self).directive() == (CurrentDirective::OutstandingDirective {
                    action: d.action,
                    expires_at: Instant { millis: (now.millis + DIRECTIVE_TIME_LIMIT_MS) as u64 },
                })
                &&& is_candidate(old(self).ship(), d.action)
                &&& final(self).ship() == require_spec(old(self).ship(), d.action)
            },
    {
        match self.ship_state.generate_action(&mut self.rng) {
            Ok(action) => {
                let directive = Directive {
                    action,
                    time_limit: Duration::from_millis(DIRECTIVE_TIME_LIMIT_MS),
                };
                self.directive = CurrentDirective::OutstandingDirective {
                    action,
                    expires_at: now.plus(directive.time_limit),
                };
                proof {
                    let s = self.ship_state@;
                    let j = interface_index(action.interface);
                    assert forall|k: int| 0 <= k < s.len() && k != j implies (
                    #[trigger] s[k]).required is None by {
                        assert(s[k] == old(self).ship_state@[k]);
                    }
                }
                Ok(directive)
            },
            Err(e) => Err(e),
        }
    }

    /// The events that open a game: the distance so far, zero.
    pub fn start(&self) -> (r: Vec<Event>)
        ensures
            r@ == seq![Event::ShipDistanceUpdated { distance: 0 }],
    {
        let mut r: Vec<Event> = Vec::new();
        r.push(Event::ShipDistanceUpdated { distance: 0 });
        r
    }

    /// One tick at `now`: the directive step, then the distance step.
    pub fn tick(&mut self, now: Instant) -> (r: Vec<Event>)
        requires
            old(self).wf(),
            old(self).distance().can_step(),
            now.millis + DIRECTIVE_TIME_LIMIT_MS <= u64::MAX,
        ensures
            final(self).wf(),
            tick_directive_step(
                old(self).directive(),
                old(self).ship(),
                now.millis,
                final(self).directive(),
                final(self).ship(),
            ),
            (final(self).distance().distance(), final(self).distance().next_update_at())
                == crate::ship_distance::distance_step(
                old(self).distance().distance(),
                old(self).distance().next_update_at(),
                now.millis,
            ),
            r@ == directive_events(old(self).directive(), final(self).directive())
                + distance_events(old(self).distance(), now.millis),
    {
        let mut events: Vec<Event> = Vec::new();
        match self.directive {
            CurrentDirective::WaitingForDirective { wait_until } => {
                if now.at_or_after(wait_until) {
                    if let Ok(directive) = self.generate_directive(now) {
                        events.push(Event::NewDirective(directive));
                    }
                }
            },
            CurrentDirective::OutstandingDirective { expires_at, action } => {
                if now.at_or_after(expires_at) {
                    self.ship_state.clear(action);
                    self.directive = CurrentDirective::WaitingForDirective {
                        wait_until: now.plus(Duration::from_millis(DIRECTIVE_WAIT_MS)),
                    };
                    events.push(Event::UpdateHullHealth { delta: TIMEOUT_PENALTY });
                    proof {
                        let s = self.ship_state@;
                        assert forall|k: int| 0 <= k < s.len() implies (
                        #[trigger] s[k]).required is None by {
                            if k != interface_index(action.interface) {
                                assert(s[k] == old(self).ship_state@[k]);
                            }
                        }
                    }
                }
            },
        }
        let ghost mid = events@;
        if let ShipDistanceResult::DistanceUpdated(distance) = self.ship_distance.update(now) {
            events.push(Event::ShipDistanceUpdated { distance });
        }
        proof {
            assert(mid =~= directive_events(old(self).directive(), self.directive()));
            assert(events@ =~= mid + distance_events(old(self).distance(), now.millis));
        }
        events
    }

    /// The player performed `action` at `now`. The ship records it; if it
    /// is the outstanding directive's action the directive is completed,
    /// otherwise the hull is penalised and any outstanding directive stays.
    pub fn action_performed(&mut self, now: Instant, action: Action) -> (r: Vec<Event>)
        requires
            old(self).wf(),
            now.millis + DIRECTIVE_WAIT_MS <= u64::MAX,
        ensures
            final(self).wf(),
            final(self).ship() == perform_spec(old(self).ship(), action),
            final(self).distance() == old(self).distance(),
            final(self).directive() == (if completes(old(self).directive(), action) {
                CurrentDirective::WaitingForDirective {
                    wait_until: Instant { millis: (now.millis + DIRECTIVE_WAIT_MS) as u64 },
                }
            } else {
                old(self).directive()
            }),
            r@ == action_events(old(self).directive(), action),
    {
        self.ship_state.perform(action);
        let mut events: Vec<Event> = Vec::new();
        let mut valid = false;
        if let CurrentDirective::OutstandingDirective { action: expected, .. } = self.directive {
            if expected == action {
                valid = true;
                events.push(Event::DirectiveCompleted);
                self.directive = CurrentDirective::WaitingForDirective {
                    wait_until: now.plus(Duration::from_millis(DIRECTIVE_WAIT_MS)),
                };
            }
        }
        if !valid {
            events.push(Event::UpdateHullHealth { delta: WRONG_ACTION_PENALTY });
        }
        proof {
            let s = self.ship_state@;
            let s0 = old(self).ship_state@;
            let j = interface_index(action.interface);
            assert forall|k: int| 0 <= k < s.len() && k != j implies (#[trigger] s[k]) == s0[k] by {
            }
            assert(events@ =~= action_events(old(self).directive(), action));
        }
        events
    }

    /// The current directive state.
    pub fn current_directive(&self) -> (r: CurrentDirective)
        ensures
            r == self.directive(),
    {
        self.directive
    }

    /// The distance travelled so far.
    pub fn ship_distance(&self) -> (r: u32)
        ensures
            r == self.distance().distance(),
    {
        self.ship_distance.get_distance()
    }

    /// Whether one more distance step fits the counters.
    pub fn distance_can_step(&self) -> (r: bool)
        ensures
            r == self.distance().can_step(),
    {
        self.ship_distance.can_step_exec()
    }
}

impl Default for GameLogicActor {
    fn default() -> (r: GameLogicActor)
        ensures
            r.wf(),
            r.directive() == (CurrentDirective::WaitingForDirective {
                wait_until: Instant { millis: DIRECTIVE_WAIT_MS },
            }),
            r.distance().distance() == 0,
    {
        GameLogicActor::new(DEFAULT_SEED)
    }
}

/// In every well-formed game at most one subsystem has a pending
/// requirement, and one has exactly when a directive is outstanding: the
/// directive state is either waiting or one outstanding directive.
pub proof fn lemma_single_outstanding_directive(g: GameLogicActor)
    requires
        g.wf(),
    ensures
        forall|j: int, k: int|
            0 <= j < g.ship().len() && 0 <= k < g.ship().len() && (#[trigger] g.ship()[j]).required
                is Some && (#[trigger] g.ship()[k]).required is Some ==> j == k,
        (exists|j: int| 0 <= j < g.ship().len() && (#[trigger] g.ship()[j]).required is Some)
            <==> g.directive() is OutstandingDirective,
        g.directive() is OutstandingDirective <==> !(g.directive() is WaitingForDirective),
{
    g.lemma_wf();
    if let CurrentDirective::OutstandingDirective { action, .. } = g.directive() {
        let i = interface_index(action.interface);
        assert(g.ship()[i].required is Some);
    }
}

/// Hull health only falls: a tick's events change it only by the timeout
/// penalty, and only when an outstanding directive ended; an action's
/// events change it only by the wrong-action penalty, and never when the
/// action completes the directive.
pub proof fn lemma_hull_health_only_falls(
    d0: CurrentDirective,
    d1: CurrentDirective,
    dist: ShipDistance,
    now: u64,
    a: Action,
)
    ensures
        forall|i: int|
            0 <= i < (directive_events(d0, d1) + distance_events(dist, now)).len() ==> (
            #[trigger] (directive_events(d0, d1) + distance_events(dist, now))[i] matches Event::UpdateHullHealth { delta }
                ==> delta == TIMEOUT_PENALTY && d0 is OutstandingDirective
                && d1 is WaitingForDirective),
        forall|i: int|
            0 <= i < action_events(d0, a).len() ==> (#[trigger] action_events(d0, a)[i] matches Event::UpdateHullHealth { delta }
                ==> delta == WRONG_ACTION_PENALTY && !completes(d0, a)),
        TIMEOUT_PENALTY < 0 && WRONG_ACTION_PENALTY < 0,
{
    let e = directive_events(d0, d1) + distance_events(dist, now);
    assert forall|i: int| 0 <= i < e.len() implies (#[trigger] e[i] matches Event::UpdateHullHealth { delta }
        ==> delta == TIMEOUT_PENALTY && d0 is OutstandingDirective
        && d1 is WaitingForDirective) by {
        if i >= directive_events(d0, d1).len() {
            assert(e[i] == distance_events(dist, now)[i - directive_events(d0, d1).len()]);
        }
    }
}

/// A directive issued by a tick at `t0` expires at the first later tick
/// whose time is at least `t0` plus the time limit, and at no earlier tick:
/// from the issuing tick (`g0` to `g1`), a tick at `now` (`g1` to `g2`) ends
/// it, with the timeout penalty, exactly when `now >= t0 + limit`; an earlier
/// tick leaves the directive, and its deadline, as they were.
pub proof fn lemma_directive_expires_at_limit(
    g0: GameLogicActor,
    g1: GameLogicActor,
    g2: GameLogicActor,
    t0: u64,
    now: u64,
)
    requires
        g0.directive() is WaitingForDirective,
        tick_directive_step(g0.directive(), g0.ship(), t0, g1.directive(), g1.ship()),
        g1.directive() is OutstandingDirective,
        tick_directive_step(g1.directive(), g1.ship(), now, g2.directive(), g2.ship()),
    ensures
        g1.directive()->expires_at.millis == t0 + DIRECTIVE_TIME_LIMIT_MS,
        g2.directive() is WaitingForDirective <==> now >= t0 + DIRECTIVE_TIME_LIMIT_MS,
        now < t0 + DIRECTIVE_TIME_LIMIT_MS ==> g2.directive() == g1.directive(),
        directive_events(g1.directive(), g2.directive()) == (if now >= t0
            + DIRECTIVE_TIME_LIMIT_MS {
            seq![Event::UpdateHullHealth { delta: TIMEOUT_PENALTY }]
        } else {
            Seq::<Event>::empty()
        }),
{
}

} // verus!
