//! The policy-composition primitive: a three-valued decision, a capability
//! trait that independent policies implement, and combinators that join
//! zero, one or many policies into one composite policy.

use vstd::prelude::*;

use crate::Error;
use crate::TimerInfo;

verus! {

/// A decision each policy takes before or after a timer transition.
///
/// `Abort` and `Stop` short-circuit a composite: only `Continue` lets the
/// chain proceed to the next policy or timer.
#[derive(Clone, Copy, PartialEq, Eq, Hash, Structural, Debug)]
pub enum Progress {
    /// No objection; ask the next policy, or allow the transition if this
    /// was the last one.
    Continue,
    /// Reverse the in-progress transition immediately.
    Abort,
    /// Cease evaluating the whole timer chain.
    Stop,
}

/// A policy that controls whether timers may execute.
///
/// Every implementation is a deterministic state machine over its view:
/// the four spec functions below give, for each hook, the state after the
/// call and the value returned, and each executable hook is pinned to its
/// model. A policy is pure decision logic: it never runs timer commands.
pub trait Module: View + Sized {
    /// Model of `pre_timer`: next state and returned value.
    spec fn pre_model(v: Self::V, timer: TimerInfo) -> (Self::V, Result<Progress, Error>);

    /// Model of `post_timer`: next state and returned value.
    spec fn post_model(v: Self::V, timer: TimerInfo) -> (Self::V, Result<Progress, Error>);

    /// Model of `warning`: next state and returned value.
    spec fn warn_model(v: Self::V, error: Error) -> (Self::V, Result<(), Error>);

    /// Model of `reset`: next state and returned value.
    spec fn reset_model(v: Self::V) -> (Self::V, Result<(), Error>);

    /// Decides whether a timer should be allowed to execute.
    fn pre_timer(&mut self, timer: TimerInfo) -> (r: Result<Progress, Error>)
        ensures
            Self::pre_model(old(self)@, timer).0 == final(self)@,
            Self::pre_model(old(self)@, timer).1 == r,
    ;

    /// Decides what happens after a timer has executed.
    fn post_timer(&mut self, timer: TimerInfo) -> (r: Result<Progress, Error>)
        ensures
            Self::post_model(old(self)@, timer).0 == final(self)@,
            Self::post_model(old(self)@, timer).1 == r,
    ;

    /// Receives a potentially recoverable error; may re-throw it as an
    /// unrecoverable one.
    fn warning(&mut self, error: &Error) -> (r: Result<(), Error>)
        ensures
            Self::warn_model(old(self)@, *error).0 == final(self)@,
            Self::warn_model(old(self)@, *error).1 == r,
    ;

    /// Called when the idle counting was reset: clear any cached state.
    fn reset(&mut self) -> (r: Result<(), Error>)
        ensures
            Self::reset_model(old(self)@).0 == final(self)@,
            Self::reset_model(old(self)@).1 == r,
    ;
}

/// The default policy: always `Continue`, swallow every warning.
#[derive(Clone, Copy, PartialEq, Eq, Structural, Debug)]
pub struct NullModule;

impl View for NullModule {
    type V = NullModule;

    open spec fn view(&self) -> NullModule {
        NullModule
    }
}

impl Module for NullModule {
    open spec fn pre_model(v: NullModule, timer: TimerInfo) -> (NullModule, Result<Progress, Error>) {
        (v, Result::Ok(Progress::Continue))
    }

    open spec fn post_model(v: NullModule, timer: TimerInfo) -> (NullModule, Result<Progress, Error>) {
        (v, Result::Ok(Progress::Continue))
    }

    open spec fn warn_model(v: NullModule, error: Error) -> (NullModule, Result<(), Error>) {
        (v, Result::Ok(()))
    }

    open spec fn reset_model(v: NullModule) -> (NullModule, Result<(), Error>) {
        (v, Result::Ok(()))
    }

    fn pre_timer(&mut self, timer: TimerInfo) -> (r: Result<Progress, Error>) {
        Result::Ok(Progress::Continue)
    }

    fn post_timer(&mut self, timer: TimerInfo) -> (r: Result<Progress, Error>) {
        Result::Ok(Progress::Continue)
    }

    fn warning(&mut self, error: &Error) -> (r: Result<(), Error>) {
        Result::Ok(())
    }

    fn reset(&mut self) -> (r: Result<(), Error>) {
        Result::Ok(())
    }
}

/// Combines two policies using the type system; nest it for any fixed
/// number of policies.
///
/// `pre_timer` and `post_timer` ask the first policy and short-circuit on
/// any outcome other than `Continue`; `warning` and `reset` always reach
/// both policies and return the first failure seen.
#[derive(Clone, Copy, PartialEq, Eq, Debug)]
pub struct Chain<A, B> {
    /// The policy consulted first.
    pub first: A,
    /// The policy consulted second.
    pub second: B,
}

impl<A: View, B: View> View for Chain<A, B> {
    type V = (A::V, B::V);

    open spec fn view(&self) -> (A::V, B::V) {
        (self.first@, self.second@)
    }
}

impl<A: Module, B: Module> Module for Chain<A, B> {
    open spec fn pre_model(v: (A::V, B::V), timer: TimerInfo) -> ((A::V, B::V), Result<Progress, Error>) {
        let (va, ra) = A::pre_model(v.0, timer);
        match ra {
            Result::Err(e) => ((va, v.1), Result::Err(e)),
            Result::Ok(p) => if p == Progress::Continue {
                let (vb, rb) = B::pre_model(v.1, timer);
                ((va, vb), rb)
            } else {
                ((va, v.1), Result::Ok(p))
            },
        }
    }

    open spec fn post_model(v: (A::V, B::V), timer: TimerInfo) -> ((A::V, B::V), Result<Progress, Error>) {
        let (va, ra) = A::post_model(v.0, timer);
        match ra {
            Result::Err(e) => ((va, v.1), Result::Err(e)),
            Result::Ok(p) => if p == Progress::Continue {
                let (vb, rb) = B::post_model(v.1, timer);
                ((va, vb), rb)
            } else {
                ((va, v.1), Result::Ok(p))
            },
        }
    }

    open spec fn warn_model(v: (A::V, B::V), error: Error) -> ((A::V, B::V), Result<(), Error>) {
        let (va, ra) = A::warn_model(v.0, error);
        let (vb, rb) = B::warn_model(v.1, error);
        ((va, vb), if ra is Err { ra } else { rb })
    }

    open spec fn reset_model(v: (A::V, B::V)) -> ((A::V, B::V), Result<(), Error>) {
        let (va, ra) = A::reset_model(v.0);
        let (vb, rb) = B::reset_model(v.1);
        ((va, vb), if ra is Err { ra } else { rb })
    }

    fn pre_timer(&mut self, timer: TimerInfo) -> (r: Result<Progress, Error>)
        ensures
            // The second policy is untouched whenever the first one
            // short-circuits the chain.
            A::pre_model(old(self)@.0, timer).1 != Result::<Progress, Error>::Ok(Progress::Continue)
                ==> final(self).second == old(self).second,
    {
        let status = self.first.pre_timer(timer)?;
        if status != Progress::Continue {
            return Result::Ok(status);
        }
        self.second.pre_timer(timer)
    }

    fn post_timer(&mut self, timer: TimerInfo) -> (r: Result<Progress, Error>)
        ensures
            A::post_model(old(self)@.0, timer).1 != Result::<Progress, Error>::Ok(Progress::Continue)
                ==> final(self).second == old(self).second,
    {
        let status = self.first.post_timer(timer)?;
        if status != Progress::Continue {
            return Result::Ok(status);
        }
        self.second.post_timer(timer)
    }

    fn warning(&mut self, error: &Error) -> (r: Result<(), Error>) {
        let ra = self.first.warning(error);
        let rb = self.second.warning(error);
        if ra.is_err() {
            ra
        } else {
            rb
        }
    }

    fn reset(&mut self) -> (r: Result<(), Error>) {
        let ra = self.first.reset();
        let rb = self.second.reset();
        if ra.is_err() {
            ra
        } else {
            rb
        }
    }
}

/// A boxed policy forwards all four operations unchanged: it is a
/// transparent indirection, not a decision point.
impl<M: Module> Module for Box<M> {
    open spec fn pre_model(v: M::V, timer: TimerInfo) -> (M::V, Result<Progress, Error>) {
        M::pre_model(v, timer)
    }

    open spec fn post_model(v: M::V, timer: TimerInfo) -> (M::V, Result<Progress, Error>) {
        M::post_model(v, timer)
    }

    open spec fn warn_model(v: M::V, error: Error) -> (M::V, Result<(), Error>) {
        M::warn_model(v, error)
    }

    open spec fn reset_model(v: M::V) -> (M::V, Result<(), Error>) {
        M::reset_model(v)
    }

    fn pre_timer(&mut self, timer: TimerInfo) -> (r: Result<Progress, Error>) {
        (&mut **self).pre_timer(timer)
    }

    fn post_timer(&mut self, timer: TimerInfo) -> (r: Result<Progress, Error>) {
        (&mut **self).post_timer(timer)
    }

    fn warning(&mut self, error: &Error) -> (r: Result<(), Error>) {
        (&mut **self).warning(error)
    }

    fn reset(&mut self) -> (r: Result<(), Error>) {
        (&mut **self).reset()
    }
}

/// The views of a sequence of policies, member by member.
pub open spec fn views_of<M: View>(s: Seq<M>) -> Seq<M::V> {
    Seq::new(s.len(), |i: int| s[i]@)
}

/// Model of `pre_timer` over a sequence of policies: ask each member in
/// order and short-circuit on the first outcome other than `Continue`;
/// members past that point keep their state.
pub open spec fn run_pre_models<M: Module>(v: Seq<M::V>, timer: TimerInfo) -> (Seq<M::V>, Result<
    Progress,
    Error,
>)
    decreases v.len(),
{
    if v.len() == 0 {
        (v, Result::Ok(Progress::Continue))
    } else {
        let (h, rh) = M::pre_model(v[0], timer);
        match rh {
            Result::Err(e) => (seq![h] + v.skip(1), Result::Err(e)),
            Result::Ok(p) => if p == Progress::Continue {
                let (t, rt) = run_pre_models::<M>(v.skip(1), timer);
                (seq![h] + t, rt)
            } else {
                (seq![h] + v.skip(1), Result::Ok(p))
            },
        }
    }
}

/// Model of `post_timer` over a sequence of policies; same shape as
/// `run_pre_models`.
pub open spec fn run_post_models<M: Module>(v: Seq<M::V>, timer: TimerInfo) -> (Seq<M::V>, Result<
    Progress,
    Error,
>)
    decreases v.len(),
{
    if v.len() == 0 {
        (v, Result::Ok(Progress::Continue))
    } else {
        let (h, rh) = M::post_model(v[0], timer);
        match rh {
            Result::Err(e) => (seq![h] + v.skip(1), Result::Err(e)),
            Result::Ok(p) => if p == Progress::Continue {
                let (t, rt) = run_post_models::<M>(v.skip(1), timer);
                (seq![h] + t, rt)
            } else {
                (seq![h] + v.skip(1), Result::Ok(p))
            },
        }
    }
}

/// Model of `warning` over a sequence of policies: every member receives
/// the call; the first failure, in sequence order, is the result.
pub open spec fn run_warn_models<M: Module>(v: Seq<M::V>, error: Error) -> (Seq<M::V>, Result<
    (),
    Error,
>)
    decreases v.len(),
{
    if v.len() == 0 {
        (v, Result::Ok(()))
    } else {
        let (h, rh) = M::warn_model(v[0], error);
        let (t, rt) = run_warn_models::<M>(v.skip(1), error);
        (seq![h] + t, if rh is Err { rh } else { rt })
    }
}

/// Model of `reset` over a sequence of policies: every member receives the
/// call, so none misses the state-reset signal; the first failure is the
/// result.
pub open spec fn run_reset_models<M: Module>(v: Seq<M::V>) -> (Seq<M::V>, Result<(), Error>)
    decreases v.len(),
{
    if v.len() == 0 {
        (v, Result::Ok(()))
    } else {
        let (h, rh) = M::reset_model(v[0]);
        let (t, rt) = run_reset_models::<M>(v.skip(1));
        (seq![h] + t, if rh is Err { rh } else { rt })
    }
}

/// Combines a runtime-length collection of policies, with the same
/// semantics as nested `Chain`s: short-circuited timer hooks, warnings and
/// resets delivered to every member.
#[derive(Debug)]
pub struct Dynamic<M> {
    /// The member policies, in evaluation order.
    pub modules: Vec<M>,
}

impl<M: View> View for Dynamic<M> {
    type V = Seq<M::V>;

    open spec fn view(&self) -> Seq<M::V> {
        views_of(self.modules@)
    }
}

/// Runs `pre_timer` over the members of `mods` from position `i` on,
/// short-circuiting on the first outcome other than `Continue`.
fn pre_from<M: Module>(mods: &mut Vec<M>, i: usize, timer: TimerInfo) -> (r: Result<
    Progress,
    Error,
>)
    requires
        i <= old(mods)@.len(),
    ensures
        final(mods)@.len() == old(mods)@.len(),
        forall|j: int| 0 <= j < i ==> final(mods)@[j] == old(mods)@[j],
        views_of(final(mods)@).skip(i as int) == run_pre_models::<M>(
            views_of(old(mods)@).skip(i as int),
            timer,
        ).0,
        r == run_pre_models::<M>(views_of(old(mods)@).skip(i as int), timer).1,
    decreases old(mods)@.len() - i,
{
    let ghost pre = views_of(mods@).skip(i as int);
    if i == mods.len() {
        assert(views_of(mods@).skip(i as int) =~= pre);
        return Result::Ok(Progress::Continue);
    }
    assert(pre[0] == mods@[i as int]@);
    let status_or = mods[i].pre_timer(timer);
    match status_or {
        Result::Err(e) => {
            assert(views_of(mods@).skip(i as int) =~= seq![M::pre_model(pre[0], timer).0]
                + pre.skip(1));
            Result::Err(e)
        },
        Result::Ok(status) => {
            if status != Progress::Continue {
                assert(views_of(mods@).skip(i as int) =~= seq![M::pre_model(pre[0], timer).0]
                    + pre.skip(1));
                return Result::Ok(status);
            }
            let ghost mid = views_of(mods@);
            let r = pre_from(mods, i + 1, timer);
            proof {
                assert(mid.skip(i as int + 1) =~= pre.skip(1));
                assert(views_of(mods@).skip(i as int) =~= seq![M::pre_model(pre[0], timer).0]
                    + views_of(mods@).skip(i as int + 1));
            }
            r
        },
    }
}

/// Runs `post_timer` over the members of `mods` from position `i` on.
fn post_from<M: Module>(mods: &mut Vec<M>, i: usize, timer: TimerInfo) -> (r: Result<
    Progress,
    Error,
>)
    requires
        i <= old(mods)@.len(),
    ensures
        final(mods)@.len() == old(mods)@.len(),
        forall|j: int| 0 <= j < i ==> final(mods)@[j] == old(mods)@[j],
        views_of(final(mods)@).skip(i as int) == run_post_models::<M>(
            views_of(old(mods)@).skip(i as int),
            timer,
        ).0,
        r == run_post_models::<M>(views_of(old(mods)@).skip(i as int), timer).1,
    decreases old(mods)@.len() - i,
{
    let ghost pre = views_of(mods@).skip(i as int);
    if i == mods.len() {
        assert(views_of(mods@).skip(i as int) =~= pre);
        return Result::Ok(Progress::Continue);
    }
    assert(pre[0] == mods@[i as int]@);
    let status_or = mods[i].post_timer(timer);
    match status_or {
        Result::Err(e) => {
            assert(views_of(mods@).skip(i as int) =~= seq![M::post_model(pre[0], timer).0]
                + pre.skip(1));
            Result::Err(e)
        },
        Result::Ok(status) => {
            if status != Progress::Continue {
                assert(views_of(mods@).skip(i as int) =~= seq![M::post_model(pre[0], timer).0]
                    + pre.skip(1));
                return Result::Ok(status);
            }
            let ghost mid = views_of(mods@);
            let r = post_from(mods, i + 1, timer);
            proof {
                assert(mid.skip(i as int + 1) =~= pre.skip(1));
                assert(views_of(mods@).skip(i as int) =~= seq![M::post_model(pre[0], timer).0]
                    + views_of(mods@).skip(i as int + 1));
            }
            r
        },
    }
}

/// Delivers `warning` to every member of `mods` from position `i` on and
/// returns the first failure.
fn warn_from<M: Module>(mods: &mut Vec<M>, i: usize, error: &Error) -> (r: Result<(), Error>)
    requires
        i <= old(mods)@.len(),
    ensures
        final(mods)@.len() == old(mods)@.len(),
        forall|j: int| 0 <= j < i ==> final(mods)@[j] == old(mods)@[j],
        views_of(final(mods)@).skip(i as int) == run_warn_models::<M>(
            views_of(old(mods)@).skip(i as int),
            *error,
        ).0,
        r == run_warn_models::<M>(views_of(old(mods)@).skip(i as int), *error).1,
    decreases old(mods)@.len() - i,
{
    let ghost pre = views_of(mods@).skip(i as int);
    if i == mods.len() {
        assert(views_of(mods@).skip(i as int) =~= pre);
        return Result::Ok(());
    }
    assert(pre[0] == mods@[i as int]@);
    let rh = mods[i].warning(error);
    let ghost mid = views_of(mods@);
    let rt = warn_from(mods, i + 1, error);
    proof {
        assert(mid.skip(i as int + 1) =~= pre.skip(1));
        assert(views_of(mods@).skip(i as int) =~= seq![M::warn_model(pre[0], *error).0]
            + views_of(mods@).skip(i as int + 1));
    }
    if rh.is_err() {
        rh
    } else {
        rt
    }
}

/// Delivers `reset` to every member of `mods` from position `i` on and
/// returns the first failure.
fn reset_from<M: Module>(mods: &mut Vec<M>, i: usize) -> (r: Result<(), Error>)
    requires
        i <= old(mods)@.len(),
    ensures
        final(mods)@.len() == old(mods)@.len(),
        forall|j: int| 0 <= j < i ==> final(mods)@[j] == old(mods)@[j],
        views_of(final(mods)@).skip(i as int) == run_reset_models::<M>(
            views_of(old(mods)@).skip(i as int),
        ).0,
        r == run_reset_models::<M>(views_of(old(mods)@).skip(i as int)).1,
    decreases old(mods)@.len() - i,
{
    let ghost pre = views_of(mods@).skip(i as int);
    if i == mods.len() {
        assert(views_of(mods@).skip(i as int) =~= pre);
        return Result::Ok(());
    }
    assert(pre[0] == mods@[i as int]@);
    let rh = mods[i].reset();
    let ghost mid = views_of(mods@);
    let rt = reset_from(mods, i + 1);
    proof {
        assert(mid.skip(i as int + 1) =~= pre.skip(1));
        assert(views_of(mods@).skip(i as int) =~= seq![M::reset_model(pre[0]).0]
            + views_of(mods@).skip(i as int + 1));
    }
    if rh.is_err() {
        rh
    } else {
        rt
    }
}

impl<M: Module> Module for Dynamic<M> {
    open spec fn pre_model(v: Seq<M::V>, timer: TimerInfo) -> (Seq<M::V>, Result<Progress, Error>) {
        run_pre_models::<M>(v, timer)
    }

    open spec fn post_model(v: Seq<M::V>, timer: TimerInfo) -> (Seq<M::V>, Result<Progress, Error>) {
        run_post_models::<M>(v, timer)
    }

    open spec fn warn_model(v: Seq<M::V>, error: Error) -> (Seq<M::V>, Result<(), Error>) {
        run_warn_models::<M>(v, error)
    }

    open spec fn reset_model(v: Seq<M::V>) -> (Seq<M::V>, Result<(), Error>) {
        run_reset_models::<M>(v)
    }

    fn pre_timer(&mut self, timer: TimerInfo) -> (r: Result<Progress, Error>) {
        let r = pre_from(&mut self.modules, 0, timer);
        proof {
            assert(views_of(old(self).modules@).skip(0) =~= old(self)@);
            assert(views_of(self.modules@).skip(0) =~= self@);
        }
        r
    }

    fn post_timer(&mut self, timer: TimerInfo) -> (r: Result<Progress, Error>) {
        let r = post_from(&mut self.modules, 0, timer);
        proof {
            assert(views_of(old(self).modules@).skip(0) =~= old(self)@);
            assert(views_of(self.modules@).skip(0) =~= self@);
        }
        r
    }

    fn warning(&mut self, error: &Error) -> (r: Result<(), Error>) {
        let r = warn_from(&mut self.modules, 0, error);
        proof {
            assert(views_of(old(self).modules@).skip(0) =~= old(self)@);
            assert(views_of(self.modules@).skip(0) =~= self@);
        }
        r
    }

    fn reset(&mut self) -> (r: Result<(), Error>) {
        let r = reset_from(&mut self.modules, 0);
        proof {
            assert(views_of(old(self).modules@).skip(0) =~= old(self)@);
            assert(views_of(self.modules@).skip(0) =~= self@);
        }
        r
    }
}

/// A policy that stops the timer chain once a chosen point of the
/// sequence has run: after one given timer, or after the whole chain has
/// been invoked once.
#[derive(Clone, Copy, Debug)]
pub struct StopAt {
    /// Stop once the final timer of the sequence has run.
    pub at_completion: bool,
    /// Otherwise, stop once the timer at this position has run.
    pub index: usize,
}

impl StopAt {
    /// The policy behind a run-once mode: stop after the whole chain of
    /// timers has been invoked once.
    pub fn completion() -> (r: Self)
        ensures
            r.at_completion,
    {
        StopAt { at_completion: true, index: 0 }
    }

    /// Stop once the timer at `index` has run.
    pub fn index(index: usize) -> (r: Self)
        ensures
            !r.at_completion,
            r.index == index,
    {
        StopAt { at_completion: false, index }
    }

    /// Whether a timer transition identified by `timer` is the stop point.
    pub open spec fn hits(&self, timer: TimerInfo) -> bool {
        if self.at_completion {
            timer.index + 1 >= timer.length
        } else {
            timer.index >= self.index
        }
    }
}

impl View for StopAt {
    type V = StopAt;

    open spec fn view(&self) -> StopAt {
        *self
    }
}

impl Module for StopAt {
    open spec fn pre_model(v: StopAt, timer: TimerInfo) -> (StopAt, Result<Progress, Error>) {
        (v, Result::Ok(Progress::Continue))
    }

    open spec fn post_model(v: StopAt, timer: TimerInfo) -> (StopAt, Result<Progress, Error>) {
        (
            v,
            Result::Ok(
                if v.hits(timer) {
                    Progress::Stop
                } else {
                    Progress::Continue
                },
            ),
        )
    }

    open spec fn warn_model(v: StopAt, error: Error) -> (StopAt, Result<(), Error>) {
        (v, Result::Ok(()))
    }

    open spec fn reset_model(v: StopAt) -> (StopAt, Result<(), Error>) {
        (v, Result::Ok(()))
    }

    fn pre_timer(&mut self, timer: TimerInfo) -> (r: Result<Progress, Error>) {
        Result::Ok(Progress::Continue)
    }

    fn post_timer(&mut self, timer: TimerInfo) -> (r: Result<Progress, Error>) {
        let hit = if self.at_completion {
            timer.index >= timer.length || timer.length - timer.index == 1
        } else {
            timer.index >= self.index
        };
        if hit {
            Result::Ok(Progress::Stop)
        } else {
            Result::Ok(Progress::Continue)
        }
    }

    fn warning(&mut self, error: &Error) -> (r: Result<(), Error>) {
        Result::Ok(())
    }

    fn reset(&mut self) -> (r: Result<(), Error>) {
        Result::Ok(())
    }
}

/// A policy that escalates every recoverable error: its `warning` hook
/// re-throws the error it was handed, making any warning fatal to the run.
#[derive(Clone, Copy, PartialEq, Eq, Structural, Debug)]
pub struct Escalate;

impl View for Escalate {
    type V = Escalate;

    open spec fn view(&self) -> Escalate {
        Escalate
    }
}

impl Module for Escalate {
    open spec fn pre_model(v: Escalate, timer: TimerInfo) -> (Escalate, Result<Progress, Error>) {
        (v, Result::Ok(Progress::Continue))
    }

    open spec fn post_model(v: Escalate, timer: TimerInfo) -> (Escalate, Result<Progress, Error>) {
        (v, Result::Ok(Progress::Continue))
    }

    open spec fn warn_model(v: Escalate, error: Error) -> (Escalate, Result<(), Error>) {
        (v, Result::Err(error))
    }

    open spec fn reset_model(v: Escalate) -> (Escalate, Result<(), Error>) {
        (v, Result::Ok(()))
    }

    fn pre_timer(&mut self, timer: TimerInfo) -> (r: Result<Progress, Error>) {
        Result::Ok(Progress::Continue)
    }

    fn post_timer(&mut self, timer: TimerInfo) -> (r: Result<Progress, Error>) {
        Result::Ok(Progress::Continue)
    }

    fn warning(&mut self, error: &Error) -> (r: Result<(), Error>) {
        Result::Err(*error)
    }

    fn reset(&mut self) -> (r: Result<(), Error>) {
        Result::Ok(())
    }
}

/// The first failure that a sequence of policies reports for a warning,
/// in sequence order; success when none fails.
pub open spec fn first_warn_failure<M: Module>(v: Seq<M::V>, error: Error) -> Result<(), Error>
    decreases v.len(),
{
    if v.len() == 0 {
        Result::Ok(())
    } else if M::warn_model(v[0], error).1 is Err {
        M::warn_model(v[0], error).1
    } else {
        first_warn_failure::<M>(v.skip(1), error)
    }
}

/// The dynamic-arity warning law: a warning over a collection of policies
/// is delivered to every member, whatever the earlier members answered,
/// and the composite reports the first failure seen, in sequence order.
pub proof fn dynamic_warning_reaches_all<M: Module>(v: Seq<M::V>, error: Error)
    ensures
        run_warn_models::<M>(v, error).0.len() == v.len(),
        forall|j: int|
            0 <= j < v.len() ==> run_warn_models::<M>(v, error).0[j] == M::warn_model(
                v[j],
                error,
            ).0,
        run_warn_models::<M>(v, error).1 == first_warn_failure::<M>(v, error),
    decreases v.len(),
{
    if v.len() > 0 {
        dynamic_warning_reaches_all::<M>(v.skip(1), error);
        assert forall|j: int| 0 <= j < v.len() implies run_warn_models::<M>(v, error).0[j]
            == M::warn_model(v[j], error).0 by {
            if j > 0 {
                assert(v.skip(1)[j - 1] == v[j]);
                assert(run_warn_models::<M>(v, error).0[j] == run_warn_models::<M>(
                    v.skip(1),
                    error,
                ).0[j - 1]);
            }
        }
    }
}

/// The dynamic-arity short-circuit law: if the first `k` policies of a
/// collection all answer `Continue` to `pre_timer` and policy `k` does
/// not, the composite returns policy `k`'s answer unchanged and no policy
/// after position `k` is consulted.
pub proof fn dynamic_pre_timer_short_circuits<M: Module>(v: Seq<M::V>, timer: TimerInfo, k: int)
    requires
        0 <= k < v.len(),
        forall|j: int|
            0 <= j < k ==> M::pre_model(v[j], timer).1 == Result::<Progress, Error>::Ok(
                Progress::Continue,
            ),
        M::pre_model(v[k], timer).1 != Result::<Progress, Error>::Ok(Progress::Continue),
    ensures
        run_pre_models::<M>(v, timer).1 == M::pre_model(v[k], timer).1,
        run_pre_models::<M>(v, timer).0.len() == v.len(),
        forall|j: int|
            k < j < v.len() ==> run_pre_models::<M>(v, timer).0[j] == v[j],
    decreases k,
{
    if k == 0 {
        assert(run_pre_models::<M>(v, timer).0 == seq![M::pre_model(v[0], timer).0] + v.skip(1));
        assert forall|j: int| 0 < j < v.len() implies run_pre_models::<M>(v, timer).0[j] == v[j] by {
            assert(v.skip(1)[j - 1] == v[j]);
        }
    } else {
        assert(v.skip(1)[k - 1] == v[k]);
        assert forall|j: int|
            0 <= j < k - 1 implies M::pre_model(v.skip(1)[j], timer).1
            == Result::<Progress, Error>::Ok(Progress::Continue) by {
            assert(v.skip(1)[j] == v[j + 1]);
        }
        dynamic_pre_timer_short_circuits::<M>(v.skip(1), timer, k - 1);
        assert(run_pre_models::<M>(v, timer).0 == seq![M::pre_model(v[0], timer).0]
            + run_pre_models::<M>(v.skip(1), timer).0);
        assert forall|j: int| k < j < v.len() implies run_pre_models::<M>(v, timer).0[j]
            == v[j] by {
            assert(run_pre_models::<M>(v, timer).0[j] == run_pre_models::<M>(
                v.skip(1),
                timer,
            ).0[j - 1]);
            assert(v.skip(1)[j - 1] == v[j]);
        }
    }
}

/// Fixed-arity composition is associative for the timer hooks: nesting a
/// pair to the left or to the right yields the same decision and the same
/// three member states, so any compile-time-fixed number of policies can
/// be combined in either shape.
pub proof fn chain_pre_timer_associative<A: Module, B: Module, C: Module>(
    va: A::V,
    vb: B::V,
    vc: C::V,
    timer: TimerInfo,
)
    ensures
        <Chain<Chain<A, B>, C> as Module>::pre_model(((va, vb), vc), timer).1 == <Chain<
            A,
            Chain<B, C>,
        > as Module>::pre_model((va, (vb, vc)), timer).1,
        <Chain<Chain<A, B>, C> as Module>::pre_model(((va, vb), vc), timer).0.0.0 == <Chain<
            A,
            Chain<B, C>,
        > as Module>::pre_model((va, (vb, vc)), timer).0.0,
        <Chain<Chain<A, B>, C> as Module>::pre_model(((va, vb), vc), timer).0.0.1 == <Chain<
            A,
            Chain<B, C>,
        > as Module>::pre_model((va, (vb, vc)), timer).0.1.0,
        <Chain<Chain<A, B>, C> as Module>::pre_model(((va, vb), vc), timer).0.1 == <Chain<
            A,
            Chain<B, C>,
        > as Module>::pre_model((va, (vb, vc)), timer).0.1.1,
{
}

/// Fixed-arity composition is associative for the warning hook as well:
/// either nesting delivers the warning to all three policies and returns
/// the first failure, in order.
pub proof fn chain_warning_associative<A: Module, B: Module, C: Module>(
    va: A::V,
    vb: B::V,
    vc: C::V,
    error: Error,
)
    ensures
        <Chain<Chain<A, B>, C> as Module>::warn_model(((va, vb), vc), error).1 == <Chain<
            A,
            Chain<B, C>,
        > as Module>::warn_model((va, (vb, vc)), error).1,
        <Chain<Chain<A, B>, C> as Module>::warn_model(((va, vb), vc), error).0.0.0 == <Chain<
            A,
            Chain<B, C>,
        > as Module>::warn_model((va, (vb, vc)), error).0.0,
        <Chain<Chain<A, B>, C> as Module>::warn_model(((va, vb), vc), error).0.0.1 == <Chain<
            A,
            Chain<B, C>,
        > as Module>::warn_model((va, (vb, vc)), error).0.1.0,
        <Chain<Chain<A, B>, C> as Module>::warn_model(((va, vb), vc), error).0.1 == <Chain<
            A,
            Chain<B, C>,
        > as Module>::warn_model((va, (vb, vc)), error).0.1.1,
{
}

/// The short-circuiting of a chained timer hook, stated once: if the first
/// policy of a pair answers anything but `Continue`, the composite returns
/// that answer unchanged and the second policy's state is not consulted.
pub proof fn chain_pre_timer_short_circuits<A: Module, B: Module>(va: A::V, vb: B::V, timer: TimerInfo)
    requires
        A::pre_model(va, timer).1 != Result::<Progress, Error>::Ok(Progress::Continue),
    ensures
        <Chain<A, B> as Module>::pre_model((va, vb), timer).1 == A::pre_model(va, timer).1,
        <Chain<A, B> as Module>::pre_model((va, vb), timer).0.1 == vb,
        <Chain<A, B> as Module>::pre_model((va, vb), timer).0.0 == A::pre_model(va, timer).0,
{
}

/// The same short-circuiting law for the hook that runs after a timer.
pub proof fn chain_post_timer_short_circuits<A: Module, B: Module>(va: A::V, vb: B::V, timer: TimerInfo)
    requires
        A::post_model(va, timer).1 != Result::<Progress, Error>::Ok(Progress::Continue),
    ensures
        <Chain<A, B> as Module>::post_model((va, vb), timer).1 == A::post_model(va, timer).1,
        <Chain<A, B> as Module>::post_model((va, vb), timer).0.1 == vb,
{
}

/// A chained warning always reaches both policies, whatever the first one
/// answers, and the composite returns the first failure.
pub proof fn chain_warning_reaches_both<A: Module, B: Module>(va: A::V, vb: B::V, error: Error)
    ensures
        <Chain<A, B> as Module>::warn_model((va, vb), error).0.0 == A::warn_model(va, error).0,
        <Chain<A, B> as Module>::warn_model((va, vb), error).0.1 == B::warn_model(vb, error).0,
        <Chain<A, B> as Module>::warn_model((va, vb), error).1 == (if A::warn_model(va, error).1 is Err {
            A::warn_model(va, error).1
        } else {
            B::warn_model(vb, error).1
        }),
{
}

} // verus!
