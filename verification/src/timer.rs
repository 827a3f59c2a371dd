//! The state machine of a single command-backed timer: an idle threshold,
//! three optional commands (activation, abortion, deactivation), a
//! disabled flag, and the `Idle`/`Active` lifecycle.
//!
//! The timer never spawns a process itself: each transition returns the
//! argv of the command its caller must spawn, or `None` when the hook has
//! no command and the transition is a pure state change.

use vstd::prelude::*;

verus! {

/// How many milliseconds of slack a caller is allowed between detecting
/// renewed activity and actually running the abortion command.
pub const ABORT_URGENCY_MILLIS: u64 = 1000;

/// Lifecycle position of a timer: below its threshold, or activated and
/// awaiting its unwind (abortion or deactivation).
#[derive(Clone, Copy, PartialEq, Eq, Structural, Debug)]
pub enum TimerState {
    /// The idle duration has not yet carried this timer past activation.
    Idle,
    /// The activation has run; exactly one unwind path is still owed.
    Active,
}

/// Mathematical abstraction of a timer: durations in milliseconds,
/// commands as optional argv sequences.
pub struct TimerView {
    /// Idle milliseconds after which the timer is eligible to activate.
    pub time: u64,
    /// Command run on activation; `None` makes this a pure marker timer.
    pub activation: Option<Seq<Seq<char>>>,
    /// Command run when the activation is interrupted by renewed activity.
    pub abortion: Option<Seq<Seq<char>>>,
    /// Command run for the normal unwind after the timer fully completed.
    pub deactivation: Option<Seq<Seq<char>>>,
    /// A disabled timer is skipped entirely but keeps its position.
    pub disabled: bool,
    /// Lifecycle position.
    pub state: TimerState,
}

/// What `time_left` answers: `None` for a disabled timer (never due),
/// `Some(0)` when already due, otherwise the remaining milliseconds.
pub open spec fn time_left_model(t: TimerView, idle_millis: u64) -> Option<u64> {
    if t.disabled {
        Option::None
    } else if idle_millis >= t.time {
        Option::Some(0u64)
    } else {
        Option::Some((t.time - idle_millis) as u64)
    }
}

/// The argv a shell-command string is wrapped into; an empty string means
/// "no command for this hook".
pub open spec fn shell_command(s: Seq<char>) -> Option<Seq<Seq<char>>> {
    if s.len() == 0 {
        Option::None
    } else {
        Option::Some(seq!["/bin/sh"@, "-c"@, s])
    }
}

/// An argv given directly; an empty vector means "no command".
pub open spec fn parts_command(s: Seq<Seq<char>>) -> Option<Seq<Seq<char>>> {
    if s.len() == 0 {
        Option::None
    } else {
        Option::Some(s)
    }
}

/// Model of `activate`: the timer arms, and its activation command (if
/// any) is handed to the caller to spawn.
pub open spec fn activate_model(t: TimerView) -> (TimerView, Option<Seq<Seq<char>>>) {
    (TimerView { state: TimerState::Active, ..t }, t.activation)
}

/// Model of `abort`: the interrupted unwind; the abortion command (never
/// the deactivation command) is handed to the caller.
pub open spec fn abort_model(t: TimerView) -> (TimerView, Option<Seq<Seq<char>>>) {
    (TimerView { state: TimerState::Idle, ..t }, t.abortion)
}

/// Model of `deactivate`: the normal unwind; the deactivation command
/// (never the abortion command) is handed to the caller.
pub open spec fn deactivate_model(t: TimerView) -> (TimerView, Option<Seq<Seq<char>>>) {
    (TimerView { state: TimerState::Idle, ..t }, t.deactivation)
}

/// One scheduled action: fires after `time` idle milliseconds, runs an
/// optional command per lifecycle hook, and can be disabled in place.
#[derive(Debug)]
pub struct CmdTimer {
    /// Idle milliseconds after which this timer is eligible to activate.
    pub time: u64,
    /// Argv of the activation command, absent for a marker timer.
    pub activation: Option<Vec<String>>,
    /// Argv of the abortion command.
    pub abortion: Option<Vec<String>>,
    /// Argv of the deactivation command.
    pub deactivation: Option<Vec<String>>,
    /// Skipped by the engine while set, but keeps its sequence position.
    pub disabled: bool,
    /// Lifecycle position.
    pub state: TimerState,
}

impl View for CmdTimer {
    type V = TimerView;

    open spec fn view(&self) -> TimerView {
        TimerView {
            time: self.time,
            activation: self.activation.deep_view(),
            abortion: self.abortion.deep_view(),
            deactivation: self.deactivation.deep_view(),
            disabled: self.disabled,
            state: self.state,
        }
    }
}

/// Drops an empty argv, as "no command for this hook".
fn filter_argv(parts: Vec<String>) -> (r: Option<Vec<String>>)
    ensures
        r.deep_view() == parts_command(parts.deep_view()),
{
    if parts.is_empty() {
        Option::None
    } else {
        Option::Some(parts)
    }
}

/// Wraps a shell-command string as `/bin/sh -c <string>`, or drops an
/// empty string as "no command for this hook".
fn shell_argv(command: String) -> (r: Option<Vec<String>>)
    ensures
        r.deep_view() == shell_command(command@),
{
    if command.as_str().is_empty() {
        Option::None
    } else {
        let mut argv: Vec<String> = Vec::new();
        argv.push("/bin/sh".to_owned());
        argv.push("-c".to_owned());
        argv.push(command);
        proof {
            assert(argv.deep_view() =~= shell_command(command@).unwrap());
        }
        Option::Some(argv)
    }
}

/// Clones an optional argv, so a transition can both update the timer and
/// hand the command out.
fn clone_command(command: &Option<Vec<String>>) -> (r: Option<Vec<String>>)
    ensures
        r.deep_view() == command.deep_view(),
{
    match command {
        Option::None => Option::None,
        Option::Some(argv) => {
            let mut out: Vec<String> = Vec::new();
            let mut i: usize = 0;
            while i < argv.len()
                invariant
                    i <= argv@.len(),
                    out@.len() == i,
                    forall|j: int| 0 <= j < i ==> out@[j]@ == argv@[j]@,
                decreases argv@.len() - i,
            {
                out.push(argv[i].clone());
                i = i + 1;
            }
            proof {
                assert(out.deep_view() =~= argv.deep_view());
            }
            Option::Some(out)
        },
    }
}

impl CmdTimer {
    /// Builds a timer from a pre-split argv per hook; an empty vector
    /// means "no command" and that transition stays a pure state change.
    pub fn from_parts(
        time: u64,
        activation: Vec<String>,
        abortion: Vec<String>,
        deactivation: Vec<String>,
    ) -> (r: Self)
        ensures
            r@ == (TimerView {
                time,
                activation: parts_command(activation.deep_view()),
                abortion: parts_command(abortion.deep_view()),
                deactivation: parts_command(deactivation.deep_view()),
                disabled: false,
                state: TimerState::Idle,
            }),
    {
        CmdTimer {
            time,
            activation: filter_argv(activation),
            abortion: filter_argv(abortion),
            deactivation: filter_argv(deactivation),
            disabled: false,
            state: TimerState::Idle,
        }
    }

    /// Builds a timer from shell-command strings, each wrapped as
    /// `/bin/sh -c <string>`; an empty string means "no command".
    pub fn from_shell(
        time: u64,
        activation: String,
        abortion: String,
        deactivation: String,
    ) -> (r: Self)
        ensures
            r@ == (TimerView {
                time,
                activation: shell_command(activation@),
                abortion: shell_command(abortion@),
                deactivation: shell_command(deactivation@),
                disabled: false,
                state: TimerState::Idle,
            }),
    {
        CmdTimer {
            time,
            activation: shell_argv(activation),
            abortion: shell_argv(abortion),
            deactivation: shell_argv(deactivation),
            disabled: false,
            state: TimerState::Idle,
        }
    }

    /// Sets the disabled flag; the only field mutated at runtime from the
    /// control socket.
    pub fn set_disabled(&mut self, val: bool)
        ensures
            final(self)@ == (TimerView { disabled: val, ..old(self)@ }),
    {
        self.disabled = val;
    }

    /// Reads the disabled flag.
    pub fn get_disabled(&self) -> (r: bool)
        ensures
            r == self@.disabled,
    {
        self.disabled
    }

    /// The activation argv, if this timer has one.
    pub fn activation(&self) -> (r: &Option<Vec<String>>)
        ensures
            r.deep_view() == self@.activation,
    {
        &self.activation
    }

    /// The abortion argv, if this timer has one.
    pub fn abortion(&self) -> (r: &Option<Vec<String>>)
        ensures
            r.deep_view() == self@.abortion,
    {
        &self.abortion
    }

    /// The deactivation argv, if this timer has one.
    pub fn deactivation(&self) -> (r: &Option<Vec<String>>)
        ensures
            r.deep_view() == self@.deactivation,
    {
        &self.deactivation
    }

    /// How long until this timer is due at the given idle duration:
    /// `None` for a disabled timer (never due, whatever the idle
    /// duration), `Some(0)` when already due, otherwise the remainder.
    pub fn time_left(&self, idle_millis: u64) -> (r: Option<u64>)
        ensures
            r == time_left_model(self@, idle_millis),
    {
        if self.disabled {
            Option::None
        } else if idle_millis >= self.time {
            Option::Some(0)
        } else {
            Option::Some(self.time - idle_millis)
        }
    }

    /// The grace window for running the abortion command after renewed
    /// activity; `None` (no abortion command) means "abort immediately".
    pub fn abort_urgency(&self) -> (r: Option<u64>)
        ensures
            r == (if self@.abortion is Some {
                Option::Some(ABORT_URGENCY_MILLIS)
            } else {
                Option::<u64>::None
            }),
    {
        if self.abortion.is_some() {
            Option::Some(ABORT_URGENCY_MILLIS)
        } else {
            Option::None
        }
    }

    /// Arms the timer and hands back the activation command to spawn, or
    /// `None` for a pure state change.
    pub fn activate(&mut self) -> (r: Option<Vec<String>>)
        requires
            old(self)@.state == TimerState::Idle,
        ensures
            final(self)@ == activate_model(old(self)@).0,
            r.deep_view() == activate_model(old(self)@).1,
    {
        self.state = TimerState::Active;
        clone_command(&self.activation)
    }

    /// The interrupted unwind: returns to `Idle` and hands back the
    /// abortion command (never the deactivation command). Only valid from
    /// `Active`.
    pub fn abort(&mut self) -> (r: Option<Vec<String>>)
        requires
            old(self)@.state == TimerState::Active,
        ensures
            final(self)@ == abort_model(old(self)@).0,
            r.deep_view() == abort_model(old(self)@).1,
    {
        self.state = TimerState::Idle;
        clone_command(&self.abortion)
    }

    /// The normal unwind after full completion: returns to `Idle` and
    /// hands back the deactivation command (never the abortion command).
    /// Only valid from `Active`.
    pub fn deactivate(&mut self) -> (r: Option<Vec<String>>)
        requires
            old(self)@.state == TimerState::Active,
        ensures
            final(self)@ == deactivate_model(old(self)@).0,
            r.deep_view() == deactivate_model(old(self)@).1,
    {
        self.state = TimerState::Idle;
        clone_command(&self.deactivation)
    }

    /// Whether the engine must skip this timer entirely on this pass.
    pub fn disabled(&self) -> (r: bool)
        ensures
            r == self@.disabled,
    {
        self.disabled
    }
}

/// A disabled timer always reports "never due", whatever idle duration is
/// supplied; with the flag cleared, the very same query is answered from
/// the threshold again.
pub proof fn disabled_governs_due(t: TimerView, idle_millis: u64)
    ensures
        t.disabled ==> time_left_model(t, idle_millis) is None,
        !t.disabled ==> time_left_model(t, idle_millis) == (if idle_millis >= t.time {
            Option::Some(0u64)
        } else {
            Option::Some((t.time - idle_millis) as u64)
        }),
        time_left_model(TimerView { disabled: false, ..t }, idle_millis) is Some,
{
}

/// A hook built from an empty command string never yields a command to
/// spawn, while the transitions around it remain ordinary state changes.
pub proof fn empty_hook_spawns_nothing(s: Seq<char>, t: TimerView)
    requires
        s.len() == 0,
        t.activation == shell_command(s),
        t.state == TimerState::Idle,
    ensures
        activate_model(t).1 is None,
        activate_model(t).0.state == TimerState::Active,
{
}

/// One activation cycle owes exactly one unwind: from `Active`, `abort`
/// hands back the abortion command and `deactivate` the deactivation
/// command, and either path lands in `Idle`, where neither may run again
/// until the next activation.
pub proof fn activation_cycle_unwinds_once(t: TimerView)
    requires
        t.state == TimerState::Idle,
    ensures
        activate_model(t).1 == t.activation,
        abort_model(activate_model(t).0).1 == t.abortion,
        deactivate_model(activate_model(t).0).1 == t.deactivation,
        abort_model(activate_model(t).0).0.state == TimerState::Idle,
        deactivate_model(activate_model(t).0).0.state == TimerState::Idle,
{
}

} // verus!
