//! The timer engine: owns the ordered timer sequence and the composed
//! policy chain, and advances both by one run-to-completion step per idle
//! reading.
//!
//! Each tick consumes the current idle duration and yields the commands
//! the caller must spawn plus a status. The engine consults the policy
//! chain before and after every timer transition and honours its
//! `Progress` decisions; a disabled timer is skipped entirely, with no
//! policy hook invoked for it.

use vstd::prelude::*;

use crate::Error;
use crate::TimerInfo;
use crate::modules::Module;
use crate::modules::Progress;
use crate::modules::views_of;
use crate::timer::CmdTimer;
use crate::timer::TimerState;
use crate::timer::TimerView;
use crate::timer::abort_model;
use crate::timer::activate_model;
use crate::timer::deactivate_model;
use crate::timer::time_left_model;

verus! {

/// Status of one engine tick.
#[derive(Clone, Copy, PartialEq, Eq, Structural, Debug)]
pub enum TickStatus {
    /// The engine is still running; tick again at the next idle reading.
    Running,
    /// The policy chain ceased the whole timer chain: clean completion.
    Stopped,
    /// A policy hook failed: fatal to the run.
    Failed(Error),
}

/// What one tick asks of the caller: the commands to spawn, in order, and
/// the resulting status.
#[derive(Debug)]
pub struct TickOutcome {
    /// Argv of each command to spawn, in emission order.
    pub commands: Vec<Vec<String>>,
    /// Whether to keep ticking.
    pub status: TickStatus,
}

/// Mathematical abstraction of a tick outcome.
#[verifier::ext_equal]
pub struct TickView {
    /// The commands to spawn, as argv sequences.
    pub commands: Seq<Seq<Seq<char>>>,
    /// Whether to keep ticking.
    pub status: TickStatus,
}

impl View for TickOutcome {
    type V = TickView;

    open spec fn view(&self) -> TickView {
        TickView { commands: self.commands.deep_view(), status: self.status }
    }
}

/// Mathematical abstraction of the engine, over the policy chain's own
/// abstraction `MV`.
#[verifier::ext_equal]
pub struct EngineView<MV> {
    /// The timers, in sequence order.
    pub timers: Seq<TimerView>,
    /// The composed policy chain's state.
    pub module: MV,
    /// Positions of activated timers whose unwind is still owed, in
    /// activation order; the last entry is the current one.
    pub armed: Seq<usize>,
    /// First position not yet considered during this idle stretch.
    pub next_index: usize,
    /// The idle reading of the previous tick.
    pub last_idle: u64,
    /// Whether the chain has ceased.
    pub stopped: bool,
}

/// Whether the armed list holds position `i`.
pub open spec fn armed_has(armed: Seq<usize>, i: int) -> bool {
    exists|k: int| 0 <= k < armed.len() && armed[k] == i
}

/// Well-formedness of the engine: armed positions are valid, strictly
/// increasing, all already considered, and exactly the timers that are
/// `Active`.
pub open spec fn engine_wf<MV>(v: EngineView<MV>) -> bool {
    &&& v.next_index <= v.timers.len()
    &&& forall|j: int| 0 <= j < v.armed.len() ==> (#[trigger] v.armed[j]) < v.timers.len()
    &&& forall|j1: int, j2: int|
        0 <= j1 < j2 < v.armed.len() ==> #[trigger] v.armed[j1] < #[trigger] v.armed[j2]
    &&& v.armed.len() > 0 ==> v.armed[v.armed.len() - 1] < v.next_index
    &&& forall|i: int|
        0 <= i < v.timers.len() ==> ((#[trigger] v.timers[i].state) == TimerState::Active
            <==> armed_has(v.armed, i))
}

/// The first enabled timer at or after position `from`, or `None` when
/// every remaining timer is disabled.
pub open spec fn first_enabled(ts: Seq<TimerView>, from: int) -> Option<int>
    decreases ts.len() - from,
{
    if from < 0 || from >= ts.len() {
        Option::None
    } else if !ts[from].disabled {
        Option::Some(from)
    } else {
        first_enabled(ts, from + 1)
    }
}

/// A disabled timer is never selected as the candidate of a tick, so no
/// policy hook is ever invoked for it while the flag is set.
pub proof fn first_enabled_skips_disabled(ts: Seq<TimerView>, from: int)
    ensures
        first_enabled(ts, from) matches Option::Some(c) ==> from <= c < ts.len()
            && !ts[c].disabled,
    decreases ts.len() - from,
{
    if 0 <= from < ts.len() && ts[from].disabled {
        first_enabled_skips_disabled(ts, from + 1);
    }
}

/// An optional command as the sequence of commands it contributes.
pub open spec fn cmd_seq(c: Option<Seq<Seq<char>>>) -> Seq<Seq<Seq<char>>> {
    match c {
        Option::Some(cmd) => seq![cmd],
        Option::None => Seq::empty(),
    }
}

/// Model of the unwind performed when the idle counter resets: every
/// superseded activation takes its normal unwind (deactivation), the
/// current one its interrupted unwind (abortion), in activation order.
pub open spec fn unwind_model(ts: Seq<TimerView>, armed: Seq<usize>) -> (Seq<TimerView>, Seq<
    Seq<Seq<char>>,
>)
    decreases armed.len(),
{
    if armed.len() == 0 {
        (ts, Seq::empty())
    } else {
        let i = armed[0] as int;
        if armed.len() == 1 {
            let (t2, cmd) = abort_model(ts[i]);
            (ts.update(i, t2), cmd_seq(cmd))
        } else {
            let (t2, cmd) = deactivate_model(ts[i]);
            let (ts2, cmds) = unwind_model(ts.update(i, t2), armed.skip(1));
            (ts2, cmd_seq(cmd) + cmds)
        }
    }
}

/// Model of firing the due candidate at position `c`: ask the chain
/// before the transition, honour short-circuits, arm the timer, ask the
/// chain after, and reverse the arming if told to.
pub open spec fn fire_model<M: Module>(v: EngineView<M::V>, c: int) -> (EngineView<M::V>, TickView) {
    let info = TimerInfo { index: c as usize, length: v.timers.len() as usize };
    let (m1, pre) = M::pre_model(v.module, info);
    match pre {
        Result::Err(e) => (
            EngineView { module: m1, stopped: true, ..v },
            TickView { commands: Seq::empty(), status: TickStatus::Failed(e) },
        ),
        Result::Ok(p) => if p == Progress::Stop {
            (
                EngineView { module: m1, stopped: true, ..v },
                TickView { commands: Seq::empty(), status: TickStatus::Stopped },
            )
        } else if p == Progress::Abort {
            (
                EngineView { module: m1, next_index: (c + 1) as usize, ..v },
                TickView { commands: Seq::empty(), status: TickStatus::Running },
            )
        } else {
            let (t2, cmd) = activate_model(v.timers[c]);
            let va = EngineView {
                module: m1,
                timers: v.timers.update(c, t2),
                armed: v.armed.push(c as usize),
                next_index: (c + 1) as usize,
                ..v
            };
            let (m2, post) = M::post_model(m1, info);
            let vb = EngineView { module: m2, ..va };
            match post {
                Result::Err(e) => (
                    EngineView { stopped: true, ..vb },
                    TickView { commands: cmd_seq(cmd), status: TickStatus::Failed(e) },
                ),
                Result::Ok(q) => if q == Progress::Stop {
                    (
                        EngineView { stopped: true, ..vb },
                        TickView { commands: cmd_seq(cmd), status: TickStatus::Stopped },
                    )
                } else if q == Progress::Abort {
                    let (t3, cmd2) = abort_model(vb.timers[c]);
                    (
                        EngineView { timers: vb.timers.update(c, t3), armed: v.armed, ..vb },
                        TickView {
                            commands: cmd_seq(cmd) + cmd_seq(cmd2),
                            status: TickStatus::Running,
                        },
                    )
                } else {
                    (vb, TickView { commands: cmd_seq(cmd), status: TickStatus::Running })
                },
            }
        },
    }
}

/// Model of one engine tick at the given idle reading.
pub open spec fn tick_model<M: Module>(v: EngineView<M::V>, idle_millis: u64) -> (EngineView<M::V>, TickView) {
    if v.stopped {
        (v, TickView { commands: Seq::empty(), status: TickStatus::Stopped })
    } else if idle_millis < v.last_idle {
        let (ts2, cmds) = unwind_model(v.timers, v.armed);
        let (m2, rr) = M::reset_model(v.module);
        let v2 = EngineView {
            timers: ts2,
            module: m2,
            armed: Seq::empty(),
            next_index: 0,
            last_idle: idle_millis,
            stopped: false,
        };
        match rr {
            Result::Err(e) => (
                EngineView { stopped: true, ..v2 },
                TickView { commands: cmds, status: TickStatus::Failed(e) },
            ),
            Result::Ok(u) => (v2, TickView { commands: cmds, status: TickStatus::Running }),
        }
    } else {
        let v1 = EngineView { last_idle: idle_millis, ..v };
        match first_enabled(v.timers, v.next_index as int) {
            Option::None => (v1, TickView { commands: Seq::empty(), status: TickStatus::Running }),
            Option::Some(c) => if time_left_model(v.timers[c], idle_millis) == Option::Some(0u64) {
                fire_model::<M>(v1, c)
            } else {
                (v1, TickView { commands: Seq::empty(), status: TickStatus::Running })
            },
        }
    }
}

/// A timer activates at most once per idle stretch: firing the candidate
/// either advances the engine strictly past it or ceases the chain, and
/// later ticks of the stretch only consider positions from `next_index`
/// on; only an idle reset returns the engine to position zero.
pub proof fn fired_candidate_never_reconsidered<M: Module>(v: EngineView<M::V>, c: int)
    requires
        0 <= c < v.timers.len(),
        v.timers.len() <= usize::MAX,
    ensures
        fire_model::<M>(v, c).0.next_index > c || fire_model::<M>(v, c).0.stopped,
{
}

/// A ceased engine stays ceased: every further tick changes nothing,
/// spawns nothing, and reports the clean completion again.
pub proof fn stopped_engine_stays_stopped<M: Module>(v: EngineView<M::V>, idle_millis: u64)
    requires
        v.stopped,
    ensures
        tick_model::<M>(v, idle_millis).0 == v,
        tick_model::<M>(v, idle_millis).1.commands == Seq::<Seq<Seq<char>>>::empty(),
        tick_model::<M>(v, idle_millis).1.status == TickStatus::Stopped,
{
}

/// After the unwind, a timer is `Idle` wherever it was armed and
/// untouched everywhere else.
proof fn unwind_model_effect(ts: Seq<TimerView>, armed: Seq<usize>)
    requires
        forall|j: int| 0 <= j < armed.len() ==> (#[trigger] armed[j]) < ts.len(),
        forall|j1: int, j2: int|
            0 <= j1 < j2 < armed.len() ==> #[trigger] armed[j1] < #[trigger] armed[j2],
    ensures
        unwind_model(ts, armed).0.len() == ts.len(),
        forall|i: int|
            0 <= i < ts.len() ==> #[trigger] unwind_model(ts, armed).0[i] == (if armed_has(armed, i) {
                TimerView { state: TimerState::Idle, ..ts[i] }
            } else {
                ts[i]
            }),
    decreases armed.len(),
{
    if armed.len() == 0 {
    } else if armed.len() == 1 {
        let i0 = armed[0] as int;
        assert forall|i: int|
            0 <= i < ts.len() implies #[trigger] unwind_model(ts, armed).0[i] == (
        if armed_has(armed, i) {
            TimerView { state: TimerState::Idle, ..ts[i] }
        } else {
            ts[i]
        }) by {
            if i == i0 {
                assert(armed[0] == i);
                assert(armed_has(armed, i));
            } else {
                if armed_has(armed, i) {
                    let k = choose|k: int| 0 <= k < armed.len() && armed[k] == i;
                    assert(k == 0);
                    assert(armed[0] == i);
                    assert(i == armed[0] as int);
                    assert(false);
                }
                assert(!armed_has(armed, i));
            }
        }
    } else {
        let i0 = armed[0] as int;
        let t2 = deactivate_model(ts[i0]).0;
        let ts1 = ts.update(i0, t2);
        assert forall|j1: int, j2: int|
            0 <= j1 < j2 < armed.skip(1).len() implies #[trigger] armed.skip(1)[j1]
            < #[trigger] armed.skip(1)[j2] by {
            assert(armed.skip(1)[j1] == armed[j1 + 1]);
            assert(armed.skip(1)[j2] == armed[j2 + 1]);
        }
        assert forall|j: int|
            0 <= j < armed.skip(1).len() implies (#[trigger] armed.skip(1)[j]) < ts1.len() by {
            assert(armed.skip(1)[j] == armed[j + 1]);
        }
        unwind_model_effect(ts1, armed.skip(1));
        assert forall|i: int|
            0 <= i < ts.len() implies #[trigger] unwind_model(ts, armed).0[i] == (
        if armed_has(armed, i) {
            TimerView { state: TimerState::Idle, ..ts[i] }
        } else {
            ts[i]
        }) by {
            assert(unwind_model(ts, armed).0 == unwind_model(ts1, armed.skip(1)).0);
            if armed_has(armed.skip(1), i) {
                let k = choose|k: int|
                    0 <= k < armed.skip(1).len() && armed.skip(1)[k] == i;
                assert(armed[k + 1] == i);
                assert(armed_has(armed, i));
                assert(armed[0] < armed[k + 1]);
                assert(i != i0);
                assert(ts1[i] == ts[i]);
            } else if i == i0 {
                assert(armed[0] == i);
                assert(armed_has(armed, i));
                assert(unwind_model(ts, armed).0[i] == ts1[i]);
                assert(ts1[i] == (TimerView { state: TimerState::Idle, ..ts[i] }));
            } else {
                if armed_has(armed, i) {
                    let k = choose|k: int| 0 <= k < armed.len() && armed[k] == i;
                    if k == 0 {
                        assert(armed[0] == i);
                        assert(i == armed[0] as int);
                        assert(false);
                    }
                    assert(armed.skip(1)[k - 1] == i);
                    assert(armed_has(armed.skip(1), i));
                    assert(false);
                }
                assert(!armed_has(armed, i));
            }
        }
    }
}

/// Arming the candidate preserves well-formedness.
proof fn wf_after_arm<MV>(v: EngineView<MV>, w: EngineView<MV>, c: usize)
    requires
        engine_wf(v),
        c < v.timers.len(),
        v.next_index <= c,
        w.timers == v.timers.update(c as int, (TimerView { state: TimerState::Active, ..v.timers[c as int] })),
        w.armed == v.armed.push(c),
        w.next_index == c + 1,
    ensures
        engine_wf(w),
{
    assert forall|j1: int, j2: int|
        0 <= j1 < j2 < w.armed.len() implies #[trigger] w.armed[j1] < #[trigger] w.armed[j2] by {
        if j2 == w.armed.len() - 1 {
            assert(w.armed[j2] == c);
            assert(w.armed[j1] == v.armed[j1]);
            if j1 < v.armed.len() - 1 {
                assert(v.armed[j1] < v.armed[v.armed.len() - 1]);
            }
            assert(v.armed[j1] < v.next_index);
        } else {
            assert(w.armed[j1] == v.armed[j1]);
            assert(w.armed[j2] == v.armed[j2]);
        }
    }
    assert forall|i: int|
        0 <= i < w.timers.len() implies ((#[trigger] w.timers[i].state) == TimerState::Active
        <==> armed_has(w.armed, i)) by {
        if i == c {
            assert(w.armed[w.armed.len() - 1] == c);
            assert(armed_has(w.armed, c as int));
        } else {
            assert(w.timers[i] == v.timers[i]);
            if armed_has(w.armed, i) {
                let k = choose|k: int| 0 <= k < w.armed.len() && w.armed[k] == i;
                if k == v.armed.len() {
                    assert(w.armed[k] == c);
                    assert(i == c as int);
                    assert(false);
                }
                assert(v.armed[k] == i);
                assert(armed_has(v.armed, i));
            }
            if armed_has(v.armed, i) {
                let k = choose|k: int| 0 <= k < v.armed.len() && v.armed[k] == i;
                assert(w.armed[k] == i);
                assert(armed_has(w.armed, i));
            }
        }
    }
}

/// Reversing the arming just performed preserves well-formedness.
proof fn wf_after_reversal<MV>(v: EngineView<MV>, w: EngineView<MV>, c: usize)
    requires
        engine_wf(v),
        c < v.timers.len(),
        v.next_index <= c,
        !armed_has(v.armed, c as int),
        w.timers.len() == v.timers.len(),
        forall|i: int| 0 <= i < v.timers.len() && i != c ==> #[trigger] w.timers[i] == v.timers[i],
        w.timers[c as int].state == TimerState::Idle,
        w.armed == v.armed,
        w.next_index == c + 1,
    ensures
        engine_wf(w),
{
    assert forall|i: int|
        0 <= i < w.timers.len() implies ((#[trigger] w.timers[i].state) == TimerState::Active
        <==> armed_has(w.armed, i)) by {
        if i != c {
            assert(w.timers[i] == v.timers[i]);
        }
    }
}

/// Runs the owed unwinds for `armed[k..]`: deactivation for each
/// superseded activation, abortion for the final (current) one, appending
/// the commands to spawn onto `out`.
fn unwind_from(
    timers: &mut Vec<CmdTimer>,
    armed: &Vec<usize>,
    k: usize,
    out: &mut Vec<Vec<String>>,
)
    requires
        k <= armed@.len(),
        forall|j: int| k <= j < armed@.len() ==> (#[trigger] armed@[j]) < old(timers)@.len(),
        forall|j1: int, j2: int|
            k <= j1 < j2 < armed@.len() ==> #[trigger] armed@[j1] < #[trigger] armed@[j2],
        forall|j: int|
            k <= j < armed@.len() ==> views_of(old(timers)@)[#[trigger] armed@[j] as int].state
                == TimerState::Active,
    ensures
        final(timers)@.len() == old(timers)@.len(),
        views_of(final(timers)@) == unwind_model(views_of(old(timers)@), armed@.skip(k as int)).0,
        final(out).deep_view() == old(out).deep_view() + unwind_model(
            views_of(old(timers)@),
            armed@.skip(k as int),
        ).1,
    decreases armed@.len() - k,
{
    let ghost ts0 = views_of(timers@);
    let ghost out0 = out.deep_view();
    let ghost rest = armed@.skip(k as int);
    if k == armed.len() {
        assert(out.deep_view() =~= out0 + unwind_model(ts0, rest).1);
        return ;
    }
    let i = armed[k];
    assert(rest[0] == armed@[k as int]);
    if k + 1 == armed.len() {
        assert(rest.len() == 1);
        let cmd = timers[i].abort();
        proof {
            assert(views_of(timers@) =~= ts0.update(i as int, abort_model(ts0[i as int]).0));
            assert(views_of(timers@) =~= unwind_model(ts0, rest).0);
        }
        match cmd {
            Option::Some(c) => {
                out.push(c);
                assert(out.deep_view() =~= out0 + unwind_model(ts0, rest).1);
            },
            Option::None => {
                assert(out.deep_view() =~= out0 + unwind_model(ts0, rest).1);
            },
        }
    } else {
        let cmd = timers[i].deactivate();
        proof {
            assert(views_of(timers@) =~= ts0.update(i as int, deactivate_model(ts0[i as int]).0));
            assert forall|j: int|
                k + 1 <= j < armed@.len() implies views_of(
                timers@,
            )[#[trigger] armed@[j] as int].state == TimerState::Active by {
                assert(armed@[k as int] < armed@[j]);
            }
        }
        match cmd {
            Option::Some(c) => {
                out.push(c);
            },
            Option::None => {
            },
        }
        proof {
            assert(out.deep_view() =~= out0 + cmd_seq(deactivate_model(ts0[i as int]).1));
        }
        let ghost ts1 = views_of(timers@);
        let ghost out1 = out.deep_view();
        unwind_from(timers, armed, k + 1, out);
        proof {
            assert(armed@.skip(k as int + 1) =~= rest.skip(1));
            assert(unwind_model(ts0, rest).0 == unwind_model(ts1, rest.skip(1)).0);
            assert(out.deep_view() =~= out0 + unwind_model(ts0, rest).1);
        }
    }
}

/// The first enabled timer at or after position `from`, as an executable
/// scan.
fn find_candidate(timers: &Vec<CmdTimer>, from: usize) -> (r: Option<usize>)
    ensures
        first_enabled(views_of(timers@), from as int) == (match r {
            Option::Some(c) => Option::Some(c as int),
            Option::None => Option::<int>::None,
        }),
        r matches Option::Some(c) ==> from <= c < timers@.len(),
{
    let mut i: usize = from;
    if i >= timers.len() {
        return Option::None;
    }
    while i < timers.len()
        invariant
            from <= i <= timers@.len(),
            first_enabled(views_of(timers@), from as int) == first_enabled(
                views_of(timers@),
                i as int,
            ),
        decreases timers@.len() - i,
    {
        let disabled = timers[i].disabled();
        proof {
            assert(views_of(timers@)[i as int] == timers@[i as int]@);
        }
        if !disabled {
            return Option::Some(i);
        }
        i = i + 1;
    }
    Option::None
}

/// The timer engine: the ordered timer sequence, the composed policy
/// chain, and the bookkeeping of the current idle stretch.
#[derive(Debug)]
pub struct Engine<M> {
    /// The timers, in sequence order.
    pub timers: Vec<CmdTimer>,
    /// The composed policy chain.
    pub module: M,
    /// Positions of activated timers whose unwind is still owed.
    pub armed: Vec<usize>,
    /// First position not yet considered during this idle stretch.
    pub next_index: usize,
    /// The idle reading of the previous tick.
    pub last_idle: u64,
    /// Whether the chain has ceased.
    pub stopped: bool,
}

impl<M: View> View for Engine<M> {
    type V = EngineView<M::V>;

    open spec fn view(&self) -> EngineView<M::V> {
        EngineView {
            timers: views_of(self.timers@),
            module: self.module@,
            armed: self.armed@,
            next_index: self.next_index,
            last_idle: self.last_idle,
            stopped: self.stopped,
        }
    }
}

impl<M: Module> Engine<M> {
    /// Builds an engine over freshly constructed timers and a policy
    /// chain.
    pub fn new(timers: Vec<CmdTimer>, module: M) -> (r: Self)
        requires
            forall|i: int|
                0 <= i < timers@.len() ==> (#[trigger] timers@[i]@).state == TimerState::Idle,
        ensures
            r@ == (EngineView {
                timers: views_of(timers@),
                module: module@,
                armed: Seq::<usize>::empty(),
                next_index: 0usize,
                last_idle: 0u64,
                stopped: false,
            }),
            engine_wf(r@),
    {
        let r = Engine {
            timers,
            module,
            armed: Vec::new(),
            next_index: 0,
            last_idle: 0,
            stopped: false,
        };
        proof {
            assert(r@.armed =~= Seq::<usize>::empty());
            assert(r@ =~= (EngineView {
                timers: views_of(r.timers@),
                module: r.module@,
                armed: Seq::<usize>::empty(),
                next_index: 0usize,
                last_idle: 0u64,
                stopped: false,
            }));
            assert forall|i: int|
                0 <= i < r@.timers.len() implies ((#[trigger] r@.timers[i].state)
                == TimerState::Active <==> armed_has(r@.armed, i)) by {
                assert(r@.timers[i] == r.timers@[i]@);
            }
        }
        r
    }

    /// How many timers the sequence holds.
    pub fn timer_count(&self) -> (r: usize)
        ensures
            r == self@.timers.len(),
    {
        self.timers.len()
    }

    /// Whether the chain has ceased.
    pub fn stopped(&self) -> (r: bool)
        ensures
            r == self@.stopped,
    {
        self.stopped
    }

    /// Flips one timer's disabled flag; reports whether the position was
    /// valid. The only engine state a control command may touch.
    pub fn set_disabled(&mut self, index: usize, val: bool) -> (r: bool)
        ensures
            r == (index < old(self)@.timers.len()),
            r ==> final(self)@ == (EngineView {
                timers: old(self)@.timers.update(
                    index as int,
                    (TimerView { disabled: val, ..old(self)@.timers[index as int] }),
                ),
                ..old(self)@
            }),
            !r ==> final(self)@ == old(self)@,
            engine_wf(old(self)@) ==> engine_wf(final(self)@),
    {
        if index < self.timers.len() {
            self.timers[index].set_disabled(val);
            proof {
                assert(self@.timers =~= old(self)@.timers.update(
                    index as int,
                    (TimerView { disabled: val, ..old(self)@.timers[index as int] }),
                ));
                assert(self@ =~= (EngineView { timers: self@.timers, ..old(self)@ }));
                if engine_wf(old(self)@) {
                    assert forall|i: int|
                        0 <= i < self@.timers.len() implies ((#[trigger] self@.timers[i].state)
                        == TimerState::Active <==> armed_has(self@.armed, i)) by {
                        assert(self@.timers[i].state == old(self)@.timers[i].state);
                    }
                }
            }
            true
        } else {
            proof {
                assert(self@ =~= old(self)@);
            }
            false
        }
    }

    /// Forwards a recoverable error (for example a spawn failure reported
    /// by the caller) to the policy chain, which may escalate it.
    pub fn report_warning(&mut self, error: &Error) -> (r: Result<(), Error>)
        ensures
            final(self)@ == (EngineView {
                module: M::warn_model(old(self)@.module, *error).0,
                ..old(self)@
            }),
            r == M::warn_model(old(self)@.module, *error).1,
            engine_wf(old(self)@) ==> engine_wf(final(self)@),
    {
        let r = self.module.warning(error);
        proof {
            assert(self@ =~= (EngineView {
                module: M::warn_model(old(self)@.module, *error).0,
                ..old(self)@
            }));
        }
        r
    }

    /// Fires the due candidate at position `c`.
    fn fire(&mut self, c: usize) -> (r: TickOutcome)
        requires
            engine_wf(old(self)@),
            !old(self)@.stopped,
            c < old(self)@.timers.len(),
            old(self)@.next_index <= c,
        ensures
            final(self)@ == fire_model::<M>(old(self)@, c as int).0,
            r@ == fire_model::<M>(old(self)@, c as int).1,
            engine_wf(final(self)@),
    {
        let ghost v0 = old(self)@;
        proof {
            if armed_has(v0.armed, c as int) {
                let k = choose|k: int| 0 <= k < v0.armed.len() && v0.armed[k] == c as int;
                if k < v0.armed.len() - 1 {
                    assert(v0.armed[k] < v0.armed[v0.armed.len() - 1]);
                }
                assert(v0.armed[v0.armed.len() - 1] < v0.next_index);
                assert(false);
            }
            assert(v0.timers[c as int].state == TimerState::Idle);
        }
        let info = TimerInfo { index: c, length: self.timers.len() };
        let pre = self.module.pre_timer(info);
        match pre {
            Result::Err(e) => {
                self.stopped = true;
                let r = TickOutcome { commands: Vec::new(), status: TickStatus::Failed(e) };
                proof {
                    assert(self@ =~= fire_model::<M>(v0, c as int).0);
                    assert(r@ =~= fire_model::<M>(v0, c as int).1);
                }
                r
            },
            Result::Ok(p) => {
                if p == Progress::Stop {
                    self.stopped = true;
                    let r = TickOutcome { commands: Vec::new(), status: TickStatus::Stopped };
                    proof {
                        assert(self@ =~= fire_model::<M>(v0, c as int).0);
                        assert(r@ =~= fire_model::<M>(v0, c as int).1);
                    }
                    r
                } else if p == Progress::Abort {
                    self.next_index = c + 1;
                    let r = TickOutcome { commands: Vec::new(), status: TickStatus::Running };
                    proof {
                        assert(self@ =~= fire_model::<M>(v0, c as int).0);
                        assert(r@ =~= fire_model::<M>(v0, c as int).1);
                    }
                    r
                } else {
                    let ghost m1 = M::pre_model(v0.module, info).0;
                    let mut cmds: Vec<Vec<String>> = Vec::new();
                    let cmd = self.timers[c].activate();
                    match cmd {
                        Option::Some(x) => {
                            cmds.push(x);
                        },
                        Option::None => {
                        },
                    }
                    proof {
                        assert(cmds.deep_view() =~= cmd_seq(activate_model(v0.timers[c as int]).1));
                    }
                    self.armed.push(c);
                    self.next_index = c + 1;
                    let ghost va = EngineView {
                        module: m1,
                        timers: v0.timers.update(c as int, activate_model(v0.timers[c as int]).0),
                        armed: v0.armed.push(c),
                        next_index: (c + 1) as usize,
                        ..v0
                    };
                    proof {
                        assert(self@.timers =~= v0.timers.update(
                            c as int,
                            activate_model(v0.timers[c as int]).0,
                        ));
                        assert(self@ =~= va);
                        wf_after_arm(v0, va, c);
                    }
                    let ghost cmds1 = cmds.deep_view();
                    let post = self.module.post_timer(info);
                    match post {
                        Result::Err(e) => {
                            self.stopped = true;
                            let r = TickOutcome { commands: cmds, status: TickStatus::Failed(e) };
                            proof {
                                assert(self@ =~= fire_model::<M>(v0, c as int).0);
                                assert(r@ =~= fire_model::<M>(v0, c as int).1);
                            }
                            r
                        },
                        Result::Ok(q) => {
                            if q == Progress::Stop {
                                self.stopped = true;
                                let r = TickOutcome { commands: cmds, status: TickStatus::Stopped };
                                proof {
                                    assert(self@ =~= fire_model::<M>(v0, c as int).0);
                                    assert(r@ =~= fire_model::<M>(v0, c as int).1);
                                }
                                r
                            } else if q == Progress::Abort {
                                let ghost vmid = self@;
                                let cmd2 = self.timers[c].abort();
                                match cmd2 {
                                    Option::Some(x) => {
                                        cmds.push(x);
                                    },
                                    Option::None => {
                                    },
                                }
                                proof {
                                    assert(cmds.deep_view() =~= cmds1 + cmd_seq(
                                        abort_model(vmid.timers[c as int]).1,
                                    ));
                                }
                                let _ = self.armed.pop();
                                let r = TickOutcome { commands: cmds, status: TickStatus::Running };
                                proof {
                                    assert(self@.armed =~= v0.armed);
                                    assert(self@.timers =~= vmid.timers.update(
                                        c as int,
                                        abort_model(vmid.timers[c as int]).0,
                                    ));
                                    assert(self@ =~= fire_model::<M>(v0, c as int).0);
                                    assert(r@ =~= fire_model::<M>(v0, c as int).1);
                                    assert forall|i: int|
                                        0 <= i < v0.timers.len() && i != c implies #[trigger] self@.timers[i]
                                        == v0.timers[i] by {
                                        assert(self@.timers[i] == vmid.timers[i]);
                                        assert(vmid.timers[i] == v0.timers[i]);
                                    }
                                    wf_after_reversal(v0, self@, c);
                                }
                                r
                            } else {
                                let r = TickOutcome { commands: cmds, status: TickStatus::Running };
                                proof {
                                    assert(self@ =~= fire_model::<M>(v0, c as int).0);
                                    assert(r@ =~= fire_model::<M>(v0, c as int).1);
                                }
                                r
                            }
                        },
                    }
                }
            },
        }
    }

    /// Advances the engine by one step at the given idle reading.
    ///
    /// When the idle counter restarted, the owed unwinds run and the
    /// policy chain is told to reset. Otherwise the first enabled,
    /// not-yet-considered timer is checked for dueness and fired through
    /// the policy chain. The caller spawns the returned commands.
    pub fn tick(&mut self, idle_millis: u64) -> (r: TickOutcome)
        requires
            engine_wf(old(self)@),
        ensures
            final(self)@ == tick_model::<M>(old(self)@, idle_millis).0,
            r@ == tick_model::<M>(old(self)@, idle_millis).1,
            engine_wf(final(self)@),
    {
        let ghost v0 = old(self)@;
        if self.stopped {
            let r = TickOutcome { commands: Vec::new(), status: TickStatus::Stopped };
            proof {
                assert(self@ =~= tick_model::<M>(v0, idle_millis).0);
                assert(r@ =~= tick_model::<M>(v0, idle_millis).1);
            }
            return r;
        }
        if idle_millis < self.last_idle {
            let mut cmds: Vec<Vec<String>> = Vec::new();
            proof {
                assert(v0.armed.skip(0) =~= v0.armed);
            }
            unwind_from(&mut self.timers, &self.armed, 0, &mut cmds);
            proof {
                unwind_model_effect(v0.timers, v0.armed);
            }
            self.armed = Vec::new();
            self.next_index = 0;
            self.last_idle = idle_millis;
            let rr = self.module.reset();
            let ghost ts2 = unwind_model(v0.timers, v0.armed).0;
            proof {
                assert(self@.armed =~= Seq::<usize>::empty());
                assert forall|i: int|
                    0 <= i < self@.timers.len() implies ((#[trigger] self@.timers[i].state)
                    == TimerState::Active <==> armed_has(self@.armed, i)) by {
                    assert(self@.timers[i] == ts2[i]);
                    if armed_has(v0.armed, i) {
                        assert(ts2[i].state == TimerState::Idle);
                    } else {
                        assert(ts2[i] == v0.timers[i]);
                        assert(v0.timers[i].state != TimerState::Active);
                    }
                }
            }
            match rr {
                Result::Err(e) => {
                    self.stopped = true;
                    let r = TickOutcome { commands: cmds, status: TickStatus::Failed(e) };
                    proof {
                        assert(self@ =~= tick_model::<M>(v0, idle_millis).0);
                        assert(r@ =~= tick_model::<M>(v0, idle_millis).1);
                    }
                    r
                },
                Result::Ok(_) => {
                    let r = TickOutcome { commands: cmds, status: TickStatus::Running };
                    proof {
                        assert(self@ =~= tick_model::<M>(v0, idle_millis).0);
                        assert(r@ =~= tick_model::<M>(v0, idle_millis).1);
                    }
                    r
                },
            }
        } else {
            self.last_idle = idle_millis;
            proof {
                assert(self@ =~= (EngineView { last_idle: idle_millis, ..v0 }));
            }
            let cand = find_candidate(&self.timers, self.next_index);
            match cand {
                Option::None => {
                    let r = TickOutcome { commands: Vec::new(), status: TickStatus::Running };
                    proof {
                        assert(self@ =~= tick_model::<M>(v0, idle_millis).0);
                        assert(r@ =~= tick_model::<M>(v0, idle_millis).1);
                    }
                    r
                },
                Option::Some(c) => {
                    let left = self.timers[c].time_left(idle_millis);
                    let due = match left {
                        Option::Some(x) => x == 0,
                        Option::None => false,
                    };
                    if due {
                        self.fire(c)
                    } else {
                        let r = TickOutcome { commands: Vec::new(), status: TickStatus::Running };
                        proof {
                            assert(self@ =~= tick_model::<M>(v0, idle_millis).0);
                            assert(r@ =~= tick_model::<M>(v0, idle_millis).1);
                        }
                        r
                    }
                },
            }
        }
    }
}

} // verus!
