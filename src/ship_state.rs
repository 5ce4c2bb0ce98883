//! The ship's subsystems: what each is set to and what a directive requires
//! of it.

use vstd::prelude::*;
use rand::rngs::SmallRng;
use crate::messages::{
    flip, index_of_interface, interface_at, interface_index, opposite, Action, Interface, Value,
    NUM_INTERFACES,
};
use crate::rng::random_below;

verus! {

/// Why no directive could be generated.
#[derive(Clone, Copy, Debug, PartialEq, Eq, Structural)]
pub enum GenerateFailReason {
    NoActionsAvailable,
}

/// One subsystem's setting and, if a directive is pending on it, the setting
/// it requires.
#[derive(Clone, Copy, Debug)]
pub struct Subsystem {
    pub current: Value,
    pub required: Option<Value>,
}

/// A pending requirement never asks for the setting already in place.
pub open spec fn subsystems_wf(s: Seq<Subsystem>) -> bool {
    &&& s.len() == NUM_INTERFACES
    &&& forall|j: int| 0 <= j < s.len() ==> (#[trigger] s[j]).required != Some(s[j].current)
}

/// Whether `a` may be issued: its subsystem has no pending requirement and
/// `a` changes its setting.
pub open spec fn is_candidate(s: Seq<Subsystem>, a: Action) -> bool {
    let j = interface_index(a.interface);
    &&& s[j].required is None
    &&& a.value == opposite(s[j].current)
}

/// Whether some subsystem is free of requirements.
pub open spec fn has_candidate(s: Seq<Subsystem>) -> bool {
    exists|j: int| 0 <= j < s.len() && (#[trigger] s[j]).required is None
}

/// The table after `a` was issued as a requirement.
pub open spec fn require_spec(s: Seq<Subsystem>, a: Action) -> Seq<Subsystem> {
    let j = interface_index(a.interface);
    s.update(j, Subsystem { current: s[j].current, required: Some(a.value) })
}

/// The table after the player performed `a`: the setting changes, and a
/// requirement that is now met is dropped.
pub open spec fn perform_spec(s: Seq<Subsystem>, a: Action) -> Seq<Subsystem> {
    let j = interface_index(a.interface);
    let req = if s[j].required == Some(a.value) {
        None
    } else {
        s[j].required
    };
    s.update(j, Subsystem { current: a.value, required: req })
}

/// The table after the requirement on `a`'s subsystem was dropped.
pub open spec fn clear_spec(s: Seq<Subsystem>, a: Action) -> Seq<Subsystem> {
    let j = interface_index(a.interface);
    s.update(j, Subsystem { current: s[j].current, required: None })
}

pub struct ShipState {
    subsystems: Vec<Subsystem>,
}

impl View for ShipState {
    type V = Seq<Subsystem>;

    closed spec fn view(&self) -> Seq<Subsystem> {
        self.subsystems@
    }
}

impl ShipState {
    pub open spec fn wf(&self) -> bool {
        subsystems_wf(self@)
    }

    /// Every subsystem disabled, nothing required.
    pub fn new() -> (r: ShipState)
        ensures
            r.wf(),
            forall|j: int|
                0 <= j < NUM_INTERFACES ==> (#[trigger] r@[j]).current == Value::Disable
                    && r@[j].required is None,
    {
        let mut subsystems: Vec<Subsystem> = Vec::new();
        let mut n: usize = 0;
        while n < NUM_INTERFACES
            invariant
                n <= NUM_INTERFACES,
                subsystems@.len() == n,
                forall|j: int|
                    0 <= j < n ==> (#[trigger] subsystems@[j]).current == Value::Disable
                        && subsystems@[j].required is None,
            decreases NUM_INTERFACES - n,
        {
            subsystems.push(Subsystem { current: Value::Disable, required: None });
            n = n + 1;
        }
        ShipState { subsystems }
    }

    /// Picks at random a subsystem without a pending requirement and requires
    /// it to change its setting; fails when every subsystem has one.
    pub fn generate_action(&mut self, rng: &mut SmallRng) -> (r: Result<Action, GenerateFailReason>)
        requires
            old(self).wf(),
        ensures
            final(self).wf(),
            r is Err <==> !has_candidate(old(self)@),
            r is Err ==> final(self)@ == old(self)@ && r == Err::<Action, _>(
                GenerateFailReason::NoActionsAvailable,
            ),
            r matches Ok(a) ==> is_candidate(old(self)@, a) && final(self)@ == require_spec(
                old(self)@,
                a,
            ),
    {
        let mut candidates: Vec<usize> = Vec::new();
        let mut n: usize = 0;
        while n < NUM_INTERFACES
            invariant
                self.wf(),
                n <= NUM_INTERFACES,
                forall|k: int|
                    0 <= k < candidates@.len() ==> #[trigger] candidates@[k] < n
                        && self@[candidates@[k] as int].required is None,
                forall|j: int|
                    0 <= j < n && (#[trigger] self@[j]).required is None ==> candidates@.contains(
                        j as usize,
                    ),
            decreases NUM_INTERFACES - n,
        {
            let ghost prev = candidates@;
            if self.subsystems[n].required.is_none() {
                candidates.push(n);
            }
            proof {
                assert forall|j: int|
                    0 <= j < n + 1 && (#[trigger] self@[j]).required is None implies candidates@.contains(
                    j as usize,
                ) by {
                    if j < n {
                        let k = choose|k: int| 0 <= k < prev.len() && prev[k] == j as usize;
                        assert(candidates@[k] == j as usize);
                    } else {
                        assert(candidates@[candidates@.len() - 1] == n);
                    }
                }
            }
            n = n + 1;
        }
        if candidates.len() == 0 {
            proof {
                assert forall|j: int| 0 <= j < self@.len() implies (#[trigger] self@[j]).required
                    is Some by {
                    if self@[j].required is None {
                        assert(candidates@.contains(j as usize));
                    }
                }
            }
            return Err(GenerateFailReason::NoActionsAvailable);
        }
        let pick = random_below(rng, candidates.len());
        let j = candidates[pick];
        let sub = self.subsystems[j];
        proof {
            assert(candidates@[pick as int] == j);
            assert(self@[j as int].required is None);
        }
        let action = Action { interface: interface_at(j), value: flip(sub.current) };
        self.subsystems.set(j, Subsystem { current: sub.current, required: Some(action.value) });
        proof {
            assert(old(self)@[j as int].required is None);
            assert(has_candidate(old(self)@));
            assert(self@ =~= require_spec(old(self)@, action));
        }
        Ok(action)
    }

    /// Records that the player set `action`'s subsystem to its value.
    pub fn perform(&mut self, action: Action)
        requires
            old(self).wf(),
        ensures
            final(self).wf(),
            final(self)@ == perform_spec(old(self)@, action),
    {
        let j = index_of_interface(action.interface);
        let sub = self.subsystems[j];
        let req = match sub.required {
            Some(v) => if v == action.value {
                None
            } else {
                Some(v)
            },
            None => None,
        };
        self.subsystems.set(j, Subsystem { current: action.value, required: req });
        proof {
            assert forall|k: int| 0 <= k < self@.len() implies (#[trigger] self@[k]).required
                != Some(self@[k].current) by {
                if k != j {
                    assert(self@[k] == old(self)@[k]);
                }
            }
        }
    }

    /// Drops the requirement on `action`'s subsystem; its setting stays.
    pub fn clear(&mut self, action: Action)
        requires
            old(self).wf(),
        ensures
            final(self).wf(),
            final(self)@ == clear_spec(old(self)@, action),
    {
        let j = index_of_interface(action.interface);
        let sub = self.subsystems[j];
        self.subsystems.set(j, Subsystem { current: sub.current, required: None });
        proof {
            assert forall|k: int| 0 <= k < self@.len() implies (#[trigger] self@[k]).required
                != Some(self@[k].current) by {
                if k != j {
                    assert(self@[k] == old(self)@[k]);
                }
            }
        }
    }

    /// The current setting of subsystem `i`.
    pub fn current(&self, i: Interface) -> (r: Value)
        requires
            self.wf(),
        ensures
            r == self@[interface_index(i)].current,
    {
        self.subsystems[index_of_interface(i)].current
    }

    /// The setting that a pending directive requires of subsystem `i`.
    pub fn required(&self, i: Interface) -> (r: Option<Value>)
        requires
            self.wf(),
        ensures
            r == self@[interface_index(i)].required,
    {
        self.subsystems[index_of_interface(i)].required
    }
}

} // verus!
