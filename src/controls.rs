//! Physical inputs: a raw-read capability and the decorators that turn its
//! readings into change events (edge detection and timed debouncing).

use vstd::prelude::*;

verus! {

/// What an update of a decorated control reports.
#[derive(Clone, Copy, Debug, PartialEq, Eq)]
pub enum UpdateResult<T> {
    NoChange,
    Change(T),
}

/// A value that a control can report.
pub trait ControlValue: Sized + Copy {
    /// The value assumed before the first reading.
    spec fn spec_initial() -> Self;

    fn initial() -> (r: Self)
        ensures
            r == Self::spec_initial(),
    ;

    fn same_as(&self, other: &Self) -> (r: bool)
        ensures
            r == (*self == *other),
    ;
}

/// A physical input whose current raw value can be polled.
pub trait Control: Sized {
    type Value: ControlValue;

    fn read(&self) -> Self::Value;
}

/// Wraps a control; reports each reading that differs from the last one
/// reported.
pub struct StatefulControl<T: Control> {
    control: T,
    current_value: T::Value,
}

impl<T: Control> StatefulControl<T> {
    /// The last value reported (the initial value before any report).
    pub closed spec fn current(&self) -> T::Value {
        self.current_value
    }

    pub closed spec fn inner(&self) -> T {
        self.control
    }

    pub fn new(control: T) -> (r: StatefulControl<T>)
        ensures
            r.inner() == control,
            r.current() == T::Value::spec_initial(),
    {
        StatefulControl { control, current_value: T::Value::initial() }
    }

    /// Reports `v` as a change exactly when it differs from the last value
    /// reported.
    pub fn update_with(&mut self, v: T::Value) -> (r: UpdateResult<T::Value>)
        ensures
            final(self).inner() == old(self).inner(),
            final(self).current() == v,
            r == (if v == old(self).current() {
                UpdateResult::NoChange
            } else {
                UpdateResult::Change(v)
            }),
    {
        if v.same_as(&self.current_value) {
            UpdateResult::NoChange
        } else {
            self.current_value = v;
            UpdateResult::Change(v)
        }
    }

    /// The last value reported.
    pub fn current_value(&self) -> (r: T::Value)
        ensures
            r == self.current(),
    {
        self.current_value
    }

    /// Polls the control once and reports the reading as in `update_with`.
    pub fn update(&mut self, _ms: u32) -> (r: UpdateResult<T::Value>)
        ensures
            final(self).inner() == old(self).inner(),
            r == (if final(self).current() == old(self).current() {
                UpdateResult::NoChange
            } else {
                UpdateResult::Change(final(self).current())
            }),
    {
        let value = self.control.read();
        self.update_with(value)
    }
}

/// Where a debounced control stands between committed values.
#[derive(Clone, Copy, Debug, PartialEq, Eq)]
pub enum DebounceStatus<V> {
    Neutral,
    Debouncing { ends_at: u32, de_value: V },
}

/// One debounce step: from the committed value `stable` and `status`, a
/// reading `v` at time `ms` gives the new committed value, the new status and
/// the report.
pub open spec fn debounce_next<V>(
    stable: V,
    status: DebounceStatus<V>,
    window: u32,
    ms: u32,
    v: V,
) -> (V, DebounceStatus<V>, UpdateResult<V>) {
    match status {
        DebounceStatus::Neutral => {
            if v == stable {
                (stable, status, UpdateResult::NoChange)
            } else {
                (
                    stable,
                    DebounceStatus::Debouncing { ends_at: (ms + window) as u32, de_value: v },
                    UpdateResult::NoChange,
                )
            }
        },
        DebounceStatus::Debouncing { ends_at, de_value } => {
            if v == stable {
                (stable, DebounceStatus::Neutral, UpdateResult::NoChange)
            } else if v != de_value {
                (
                    stable,
                    DebounceStatus::Debouncing { ends_at: (ms + window) as u32, de_value: v },
                    UpdateResult::NoChange,
                )
            } else if ms > ends_at {
                (de_value, DebounceStatus::Neutral, UpdateResult::Change(de_value))
            } else {
                (stable, status, UpdateResult::NoChange)
            }
        },
    }
}

/// Wraps a control; reports a new value only after it has been read
/// continuously for longer than the debounce window.
pub struct DebounceControl<T: Control> {
    control: T,
    debounce_time: u32,
    current_value: T::Value,
    debounce_status: DebounceStatus<T::Value>,
}

impl<T: Control> DebounceControl<T> {
    /// The last committed value.
    pub closed spec fn stable(&self) -> T::Value {
        self.current_value
    }

    pub closed spec fn status(&self) -> DebounceStatus<T::Value> {
        self.debounce_status
    }

    /// The debounce window, in milliseconds.
    pub closed spec fn window(&self) -> u32 {
        self.debounce_time
    }

    pub closed spec fn inner(&self) -> T {
        self.control
    }

    /// While debouncing, the candidate differs from the committed value.
    pub open spec fn wf(&self) -> bool {
        match self.status() {
            DebounceStatus::Neutral => true,
            DebounceStatus::Debouncing { de_value, .. } => de_value != self.stable(),
        }
    }

    pub fn new(control: T, debounce_time: u32) -> (r: DebounceControl<T>)
        ensures
            r.wf(),
            r.inner() == control,
            r.window() == debounce_time,
            r.stable() == T::Value::spec_initial(),
            r.status() == DebounceStatus::<T::Value>::Neutral,
    {
        DebounceControl {
            control,
            debounce_time,
            current_value: T::Value::initial(),
            debounce_status: DebounceStatus::Neutral,
        }
    }

    /// Feeds one reading `v` taken at time `ms` through the debounce table.
    pub fn update_with(&mut self, ms: u32, v: T::Value) -> (r: UpdateResult<T::Value>)
        requires
            old(self).wf(),
            ms + old(self).window() <= u32::MAX,
        ensures
            final(self).wf(),
            final(self).inner() == old(self).inner(),
            final(self).window() == old(self).window(),
            (final(self).stable(), final(self).status(), r) == debounce_next(
                old(self).stable(),
                old(self).status(),
                old(self).window(),
                ms,
                v,
            ),
    {
        let status = self.debounce_status;
        let same = self.current_value.same_as(&v);
        match status {
            DebounceStatus::Neutral => {
                if same {
                    UpdateResult::NoChange
                } else {
                    self.start_debounce(ms, v);
                    UpdateResult::NoChange
                }
            },
            DebounceStatus::Debouncing { de_value, ends_at } => {
                if same {
                    self.stop_debouncing();
                    UpdateResult::NoChange
                } else if !de_value.same_as(&v) {
                    self.start_debounce(ms, v);
                    UpdateResult::NoChange
                } else if ms > ends_at {
                    self.current_value = de_value;
                    self.stop_debouncing();
                    UpdateResult::Change(de_value)
                } else {
                    UpdateResult::NoChange
                }
            },
        }
    }

    /// Polls the control once and feeds the reading through the debounce
    /// table.
    pub fn update(&mut self, ms: u32) -> (r: UpdateResult<T::Value>)
        requires
            old(self).wf(),
            ms + old(self).window() <= u32::MAX,
        ensures
            final(self).wf(),
            final(self).inner() == old(self).inner(),
            final(self).window() == old(self).window(),
            exists|v: T::Value|
                (final(self).stable(), final(self).status(), r) == #[trigger] debounce_next(
                    old(self).stable(),
                    old(self).status(),
                    old(self).window(),
                    ms,
                    v,
                ),
    {
        let new_value = self.control.read();
        let r = self.update_with(ms, new_value);
        assert((final(self).stable(), final(self).status(), r) == debounce_next(
            old(self).stable(),
            old(self).status(),
            old(self).window(),
            ms,
            new_value,
        ));
        r
    }

    /// The last committed value.
    pub fn stable_value(&self) -> (r: T::Value)
        ensures
            r == self.stable(),
    {
        self.current_value
    }

    pub fn debounce_status(&self) -> (r: DebounceStatus<T::Value>)
        ensures
            r == self.status(),
    {
        self.debounce_status
    }

    fn start_debounce(&mut self, ms: u32, value: T::Value)
        requires
            ms + old(self).window() <= u32::MAX,
        ensures
            final(self).inner() == old(self).inner(),
            final(self).window() == old(self).window(),
            final(self).stable() == old(self).stable(),
            final(self).status() == (DebounceStatus::Debouncing {
                ends_at: (ms + old(self).window()) as u32,
                de_value: value,
            }),
    {
        self.debounce_status = DebounceStatus::Debouncing {
            de_value: value,
            ends_at: ms + self.debounce_time,
        };
    }

    fn stop_debouncing(&mut self)
        ensures
            final(self).inner() == old(self).inner(),
            final(self).window() == old(self).window(),
            final(self).stable() == old(self).stable(),
            final(self).status() == DebounceStatus::<T::Value>::Neutral,
    {
        self.debounce_status = DebounceStatus::Neutral;
    }
}

/// The reports of a debounced control that starts from `stable` and `status`
/// and is fed the readings `vals` at the times `times`, one by one.
pub open spec fn debounce_reports<V>(
    stable: V,
    status: DebounceStatus<V>,
    window: u32,
    times: Seq<u32>,
    vals: Seq<V>,
) -> Seq<UpdateResult<V>>
    decreases times.len(),
{
    if times.len() == 0 || vals.len() == 0 {
        Seq::empty()
    } else {
        let (s2, st2, out) = debounce_next(stable, status, window, times[0], vals[0]);
        seq![out] + debounce_reports(s2, st2, window, times.drop_first(), vals.drop_first())
    }
}

/// The committed value and status after the readings `vals` at `times`.
pub open spec fn debounce_after<V>(
    stable: V,
    status: DebounceStatus<V>,
    window: u32,
    times: Seq<u32>,
    vals: Seq<V>,
) -> (V, DebounceStatus<V>)
    decreases times.len(),
{
    if times.len() == 0 || vals.len() == 0 {
        (stable, status)
    } else {
        let (s2, st2, out) = debounce_next(stable, status, window, times[0], vals[0]);
        debounce_after(s2, st2, window, times.drop_first(), vals.drop_first())
    }
}

proof fn lemma_reports_len<V>(
    stable: V,
    status: DebounceStatus<V>,
    window: u32,
    times: Seq<u32>,
    vals: Seq<V>,
)
    requires
        times.len() == vals.len(),
    ensures
        debounce_reports(stable, status, window, times, vals).len() == times.len(),
    decreases times.len(),
{
    if times.len() > 0 {
        let (s2, st2, out) = debounce_next(stable, status, window, times[0], vals[0]);
        lemma_reports_len(s2, st2, window, times.drop_first(), vals.drop_first());
    }
}

proof fn lemma_no_change_before<V>(
    stable: V,
    status: DebounceStatus<V>,
    window: u32,
    bound: int,
    times: Seq<u32>,
    vals: Seq<V>,
)
    requires
        times.len() == vals.len(),
        forall|i: int| 0 <= i < times.len() ==> times[i] <= bound,
        forall|i: int| 0 <= i < times.len() ==> times[i] + window >= bound,
        forall|i: int| 0 <= i < times.len() ==> times[i] + window <= u32::MAX,
        status matches DebounceStatus::Debouncing { ends_at, .. } ==> ends_at >= bound,
    ensures
        forall|i: int|
            0 <= i < times.len() ==> debounce_reports(stable, status, window, times, vals)[i]
                == UpdateResult::<V>::NoChange,
    decreases times.len(),
{
    lemma_reports_len(stable, status, window, times, vals);
    if times.len() > 0 {
        let (s2, st2, out) = debounce_next(stable, status, window, times[0], vals[0]);
        lemma_no_change_before(s2, st2, window, bound, times.drop_first(), vals.drop_first());
        let rest = debounce_reports(s2, st2, window, times.drop_first(), vals.drop_first());
        assert forall|i: int| 0 <= i < times.len() implies debounce_reports(
            stable,
            status,
            window,
            times,
            vals,
        )[i] == UpdateResult::<V>::NoChange by {
            if i > 0 {
                assert(times.drop_first()[i - 1] == times[i]);
            }
        }
    }
}

/// A deviation from the committed value that is read only within the debounce
/// window after it first appeared is never reported: from a neutral control,
/// readings of any values at times from `t0` to `t0 + window` give no change.
pub proof fn lemma_glitch_never_reported<V>(
    stable: V,
    window: u32,
    t0: u32,
    times: Seq<u32>,
    vals: Seq<V>,
)
    requires
        times.len() == vals.len(),
        t0 + window <= u32::MAX,
        forall|i: int| 0 <= i < times.len() ==> t0 <= #[trigger] times[i] <= t0 + window,
        forall|i: int| 0 <= i < times.len() ==> #[trigger] times[i] + window <= u32::MAX,
    ensures
        debounce_reports(stable, DebounceStatus::Neutral, window, times, vals).len()
            == times.len(),
        forall|i: int|
            0 <= i < times.len() ==> debounce_reports(
                stable,
                DebounceStatus::Neutral,
                window,
                times,
                vals,
            )[i] == UpdateResult::<V>::NoChange,
{
    lemma_reports_len(stable, DebounceStatus::Neutral, window, times, vals);
    lemma_no_change_before(stable, DebounceStatus::Neutral, window, t0 + window, times, vals);
}

proof fn lemma_settled_stays<V>(v: V, window: u32, times: Seq<u32>, vals: Seq<V>)
    requires
        times.len() == vals.len(),
        forall|i: int| 0 <= i < vals.len() ==> vals[i] == v,
    ensures
        forall|i: int|
            0 <= i < times.len() ==> debounce_reports(
                v,
                DebounceStatus::Neutral,
                window,
                times,
                vals,
            )[i] == UpdateResult::<V>::NoChange,
        debounce_after(v, DebounceStatus::Neutral, window, times, vals) == (
            v,
            DebounceStatus::<V>::Neutral,
        ),
    decreases times.len(),
{
    lemma_reports_len(v, DebounceStatus::Neutral, window, times, vals);
    if times.len() > 0 {
        lemma_settled_stays(v, window, times.drop_first(), vals.drop_first());
        assert forall|i: int| 0 <= i < times.len() implies debounce_reports(
            v,
            DebounceStatus::Neutral,
            window,
            times,
            vals,
        )[i] == UpdateResult::<V>::NoChange by {
            if i > 0 {
                assert(vals.drop_first()[i - 1] == vals[i]);
            }
        }
    }
}

proof fn lemma_commit_once<V>(
    stable: V,
    v: V,
    ends_at: u32,
    window: u32,
    k: int,
    times: Seq<u32>,
    vals: Seq<V>,
)
    requires
        times.len() == vals.len(),
        v != stable,
        0 <= k < times.len(),
        forall|i: int| 0 <= i < vals.len() ==> vals[i] == v,
        forall|i: int| 0 <= i < k ==> times[i] <= ends_at,
        times[k] > ends_at,
    ensures
        forall|i: int|
            0 <= i < times.len() ==> debounce_reports(
                stable,
                DebounceStatus::Debouncing { ends_at, de_value: v },
                window,
                times,
                vals,
            )[i] == (if i == k {
                UpdateResult::Change(v)
            } else {
                UpdateResult::<V>::NoChange
            }),
        debounce_after(
            stable,
            DebounceStatus::Debouncing { ends_at, de_value: v },
            window,
            times,
            vals,
        ) == (v, DebounceStatus::<V>::Neutral),
        debounce_after(
            stable,
            DebounceStatus::Debouncing { ends_at, de_value: v },
            window,
            times.take(k + 1),
            vals.take(k + 1),
        ) == (v, DebounceStatus::<V>::Neutral),
    decreases times.len(),
{
    let st = DebounceStatus::Debouncing { ends_at, de_value: v };
    lemma_reports_len(stable, st, window, times, vals);
    let (s2, st2, out) = debounce_next(stable, st, window, times[0], vals[0]);
    let tt = times.drop_first();
    let vv = vals.drop_first();
    assert(times.take(k + 1).drop_first() =~= tt.take(k));
    assert(vals.take(k + 1).drop_first() =~= vv.take(k));
    assert(times.take(k + 1)[0] == times[0]);
    assert(vals.take(k + 1)[0] == vals[0]);
    if k == 0 {
        lemma_settled_stays(v, window, tt, vv);
        assert(tt.take(0).len() == 0);
        assert(debounce_after(s2, st2, window, tt.take(0), vv.take(0)) == (s2, st2));
    } else {
        lemma_commit_once(stable, v, ends_at, window, k - 1, tt, vv);
        assert(s2 == stable && st2 == st);
    }
    assert(debounce_after(stable, st, window, times.take(k + 1), vals.take(k + 1))
        == debounce_after(s2, st2, window, tt.take(k), vv.take(k)));
    assert forall|i: int| 0 <= i < times.len() implies debounce_reports(
        stable,
        st,
        window,
        times,
        vals,
    )[i] == (if i == k {
        UpdateResult::Change(v)
    } else {
        UpdateResult::<V>::NoChange
    }) by {
        if i > 0 {
            assert(vv[i - 1] == vals[i]);
            assert(tt[i - 1] == times[i]);
        }
    }
}

/// A new value read continuously for longer than the debounce window is
/// reported exactly once: a neutral control with committed value `stable`
/// that reads `v != stable` at every time of `times`, starting at `times[0]`,
/// reports `Change(v)` at the first reading `k` later than
/// `times[0] + window` and nothing at any other reading; right after reading
/// `k` it is neutral again with `v` committed.
pub proof fn lemma_held_value_reported_once<V>(
    stable: V,
    v: V,
    window: u32,
    k: int,
    times: Seq<u32>,
    vals: Seq<V>,
)
    requires
        times.len() == vals.len(),
        v != stable,
        0 < k < times.len(),
        times[0] + window <= u32::MAX,
        forall|i: int| 0 <= i < vals.len() ==> vals[i] == v,
        forall|i: int| 0 <= i < k ==> #[trigger] times[i] <= times[0] + window,
        times[k] > times[0] + window,
    ensures
        debounce_reports(stable, DebounceStatus::Neutral, window, times, vals).len()
            == times.len(),
        forall|i: int|
            0 <= i < times.len() ==> debounce_reports(
                stable,
                DebounceStatus::Neutral,
                window,
                times,
                vals,
            )[i] == (if i == k {
                UpdateResult::Change(v)
            } else {
                UpdateResult::<V>::NoChange
            }),
        debounce_after(
            stable,
            DebounceStatus::Neutral,
            window,
            times.take(k + 1),
            vals.take(k + 1),
        ) == (v, DebounceStatus::<V>::Neutral),
{
    let st = DebounceStatus::Neutral;
    lemma_reports_len(stable, st, window, times, vals);
    let ends_at = (times[0] + window) as u32;
    let tt = times.drop_first();
    let vv = vals.drop_first();
    lemma_commit_once(stable, v, ends_at, window, k - 1, tt, vv);
    assert(times.take(k + 1).drop_first() =~= tt.take(k));
    assert(vals.take(k + 1).drop_first() =~= vv.take(k));
    assert(times.take(k + 1)[0] == times[0]);
    assert(vals.take(k + 1)[0] == vals[0]);
    assert forall|i: int| 0 <= i < times.len() implies debounce_reports(
        stable,
        st,
        window,
        times,
        vals,
    )[i] == (if i == k {
        UpdateResult::Change(v)
    } else {
        UpdateResult::<V>::NoChange
    }) by {
        if i > 0 {
            assert(vv[i - 1] == vals[i]);
            assert(tt[i - 1] == times[i]);
        }
    }
}

} // verus!
