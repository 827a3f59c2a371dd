//! The orchestrator: the decision core of the main loop that multiplexes
//! the engine against two control channels (signal delivery and a control
//! socket).
//!
//! The surrounding binary waits on the channels and the idle probe, and
//! hands each decoded event to one of the methods here; the methods apply
//! the event's effect, decide whether the loop keeps running, and say
//! what must be sent or spawned. A closed channel permanently disables
//! its branch, and the shutdown actions are owed exactly once.

use vstd::prelude::*;

use crate::Error;
use crate::engine::Engine;
use crate::engine::EngineView;
use crate::engine::TickOutcome;
use crate::engine::TickStatus;
use crate::engine::engine_wf;
use crate::engine::tick_model;
use crate::modules::Module;
use crate::timer::TimerView;

verus! {

/// A decoded control-socket command; the minimal set the core supports.
#[derive(Clone, Copy, PartialEq, Eq, Structural, Debug)]
pub enum Message {
    /// Flip the disabled flag of the timer at a position.
    SetDisabled {
        /// Position of the timer in the ordered sequence.
        timer: usize,
        /// The new value of the flag.
        disabled: bool,
    },
    /// Ask for the current idle duration.
    GetIdleTime,
    /// Ask the whole process to shut down cleanly.
    Quit,
}

/// The reply owed to a control-socket command before the next one is
/// read.
#[derive(Clone, Copy, PartialEq, Eq, Structural, Debug)]
pub enum Reply {
    /// The command was applied.
    Empty,
    /// The current idle duration, in milliseconds.
    IdleTime(u64),
    /// The command was malformed for the current state (for example a
    /// timer position out of range); contained to this connection.
    Invalid,
}

/// The mutable state of the main loop: the engine, the two channel
/// branches, and the shutdown bookkeeping.
#[derive(Debug)]
pub struct Orchestrator<M> {
    /// The timer engine being run to completion.
    pub engine: Engine<M>,
    /// Whether the socket branch may still be selected; cleared for good
    /// once the socket channel closes.
    pub socket_open: bool,
    /// Whether the signal branch may still be selected; cleared for good
    /// once the signal channel closes.
    pub signal_open: bool,
    /// Whether the loop keeps running.
    pub running: bool,
    /// Whether the shutdown actions (waking and joining the signal
    /// thread, removing the socket file) have been claimed.
    pub shutdown_done: bool,
    /// The fatal error to exit with, if any.
    pub exit_error: Option<Error>,
}

/// Model of claiming the shutdown actions: afterwards they are always
/// claimed, and the caller performs them only when this claim was the
/// first.
pub open spec fn shutdown_claim_model(done: bool) -> (bool, bool) {
    (true, !done)
}

impl<M: Module> Orchestrator<M> {
    /// Well-formedness: the engine is well-formed.
    pub open spec fn wf(&self) -> bool {
        engine_wf(self.engine@)
    }

    /// Builds the loop state around an engine; `has_socket` says whether
    /// a control socket was configured at all.
    pub fn new(engine: Engine<M>, has_socket: bool) -> (r: Self)
        requires
            engine_wf(engine@),
        ensures
            r.engine@ == engine@,
            r.socket_open == has_socket,
            r.signal_open,
            r.running,
            !r.shutdown_done,
            r.exit_error is None,
            r.wf(),
    {
        Orchestrator {
            engine,
            socket_open: has_socket,
            signal_open: true,
            running: true,
            shutdown_done: false,
            exit_error: Option::None,
        }
    }

    /// Applies one receive on the socket channel: `None` means the
    /// sending half was dropped and disables this branch for good;
    /// otherwise the command's effect is applied and the reply to send is
    /// returned, except for `Quit`, which ends the loop with no reply.
    pub fn on_socket(&mut self, item: Option<Message>, idle_millis: u64) -> (r: Option<Reply>)
        requires
            old(self).wf(),
        ensures
            final(self).wf(),
            final(self).signal_open == old(self).signal_open,
            final(self).shutdown_done == old(self).shutdown_done,
            final(self).exit_error == old(self).exit_error,
            item is None ==> !final(self).socket_open && final(self).engine@ == old(self).engine@
                && final(self).running == old(self).running && r is None,
            item is Some ==> final(self).socket_open == old(self).socket_open,
            item == Option::Some(Message::Quit) ==> !final(self).running && final(self).engine@
                == old(self).engine@ && r is None,
            item == Option::Some(Message::GetIdleTime) ==> final(self).running == old(self).running && final(self).engine@ == old(self).engine@ && r == Option::Some(
                Reply::IdleTime(idle_millis),
            ),
            item matches Option::Some(Message::SetDisabled { timer, disabled }) ==> final(self).running == old(self).running && (if timer < old(self).engine@.timers.len() {
                final(self).engine@ == (EngineView {
                    timers: old(self).engine@.timers.update(
                        timer as int,
                        (TimerView {
                            disabled,
                            ..old(self).engine@.timers[timer as int]
                        }),
                    ),
                    ..old(self).engine@
                }) && r == Option::Some(Reply::Empty)
            } else {
                final(self).engine@ == old(self).engine@ && r == Option::Some(Reply::Invalid)
            }),
    {
        match item {
            Option::None => {
                self.socket_open = false;
                Option::None
            },
            Option::Some(Message::Quit) => {
                self.running = false;
                Option::None
            },
            Option::Some(Message::GetIdleTime) => {
                Option::Some(Reply::IdleTime(idle_millis))
            },
            Option::Some(Message::SetDisabled { timer, disabled }) => {
                if self.engine.set_disabled(timer, disabled) {
                    Option::Some(Reply::Empty)
                } else {
                    Option::Some(Reply::Invalid)
                }
            },
        }
    }

    /// Applies one receive on the signal channel: any delivered signal
    /// ends the loop; a closed channel (`None`, the handler thread is
    /// gone) disables this branch for good and the loop carries on.
    pub fn on_signal(&mut self, item: Option<i32>)
        requires
            old(self).wf(),
        ensures
            final(self).wf(),
            final(self).engine@ == old(self).engine@,
            final(self).socket_open == old(self).socket_open,
            final(self).shutdown_done == old(self).shutdown_done,
            final(self).exit_error == old(self).exit_error,
            item is None ==> !final(self).signal_open && final(self).running == old(self).running,
            item is Some ==> final(self).signal_open == old(self).signal_open && !final(self).running,
    {
        match item {
            Option::None => {
                self.signal_open = false;
            },
            Option::Some(_) => {
                self.running = false;
            },
        }
    }

    /// Lets the engine take one step at the given idle reading. A
    /// `Stopped` engine ends the loop cleanly; a `Failed` engine ends it
    /// with that error recorded for the exit; `Running` leaves the loop
    /// going. The caller spawns the returned commands.
    pub fn tick_engine(&mut self, idle_millis: u64) -> (r: TickOutcome)
        requires
            old(self).wf(),
        ensures
            final(self).wf(),
            final(self).engine@ == tick_model::<M>(old(self).engine@, idle_millis).0,
            r@ == tick_model::<M>(old(self).engine@, idle_millis).1,
            final(self).socket_open == old(self).socket_open,
            final(self).signal_open == old(self).signal_open,
            final(self).shutdown_done == old(self).shutdown_done,
            r@.status == TickStatus::Running ==> final(self).running == old(self).running && final(self).exit_error == old(self).exit_error,
            r@.status == TickStatus::Stopped ==> !final(self).running && final(self).exit_error
                == old(self).exit_error,
            forall|e: Error|
                r@.status == TickStatus::Failed(e) ==> !final(self).running && final(self).exit_error == Option::Some(e),
    {
        let r = self.engine.tick(idle_millis);
        match r.status {
            TickStatus::Running => {
            },
            TickStatus::Stopped => {
                self.running = false;
            },
            TickStatus::Failed(e) => {
                self.running = false;
                self.exit_error = Option::Some(e);
            },
        }
        r
    }

    /// Reports a recoverable error (such as a spawn failure) to the
    /// policy chain; if the chain escalates it, the loop ends with that
    /// error recorded for the exit.
    pub fn report_warning(&mut self, error: &Error) -> (r: Result<(), Error>)
        requires
            old(self).wf(),
        ensures
            final(self).wf(),
            final(self).engine@ == (EngineView {
                module: M::warn_model(old(self).engine@.module, *error).0,
                ..old(self).engine@
            }),
            r == M::warn_model(old(self).engine@.module, *error).1,
            final(self).socket_open == old(self).socket_open,
            final(self).signal_open == old(self).signal_open,
            final(self).shutdown_done == old(self).shutdown_done,
            r is Ok ==> final(self).running == old(self).running && final(self).exit_error == old(self).exit_error,
            forall|e: Error|
                r == Result::<(), Error>::Err(e) ==> !final(self).running && final(self).exit_error
                    == Option::Some(e),
    {
        let r = self.engine.report_warning(error);
        match r {
            Result::Ok(_) => {
            },
            Result::Err(e) => {
                self.running = false;
                self.exit_error = Option::Some(e);
                return Result::Err(e);
            },
        }
        r
    }

    /// Claims the shutdown actions: waking and joining the signal thread
    /// and removing the socket file are performed by the caller exactly
    /// when this returns `true`, which happens on the first claim only,
    /// whichever branches race into it.
    pub fn claim_shutdown(&mut self) -> (r: bool)
        ensures
            final(self).shutdown_done == shutdown_claim_model(old(self).shutdown_done).0,
            r == shutdown_claim_model(old(self).shutdown_done).1,
            final(self).engine@ == old(self).engine@,
            final(self).socket_open == old(self).socket_open,
            final(self).signal_open == old(self).signal_open,
            final(self).running == old(self).running,
            final(self).exit_error == old(self).exit_error,
            old(self).wf() ==> final(self).wf(),
    {
        let first = !self.shutdown_done;
        self.shutdown_done = true;
        first
    }
}

/// The shutdown-idempotence law: however many times the shutdown is
/// claimed, only the very first claim performs the actions; any later
/// claim, from whichever racing branch, performs nothing.
pub proof fn shutdown_claimed_exactly_once(done: bool)
    ensures
        !done ==> shutdown_claim_model(done).1,
        shutdown_claim_model(done).0,
        !shutdown_claim_model(shutdown_claim_model(done).0).1,
{
}

} // verus!
