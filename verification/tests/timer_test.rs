use xidlehook::timer::ABORT_URGENCY_MILLIS;
use xidlehook::timer::CmdTimer;
use xidlehook::timer::TimerState;

fn sh(cmd: &str) -> Vec<String> {
    vec!["/bin/sh".to_string(), "-c".to_string(), cmd.to_string()]
}

#[test]
fn from_shell_wraps_commands() {
    let t = CmdTimer::from_shell(
        5000,
        "echo on".to_string(),
        "echo off".to_string(),
        String::new(),
    );
    assert_eq!(t.activation(), &Some(sh("echo on")));
    assert_eq!(t.abortion(), &Some(sh("echo off")));
    assert_eq!(t.deactivation(), &None);
    assert!(!t.get_disabled());
    assert_eq!(t.state, TimerState::Idle);
}

#[test]
fn from_parts_drops_empty_argv() {
    let t = CmdTimer::from_parts(
        100,
        vec!["notify-send".to_string(), "idle".to_string()],
        Vec::new(),
        vec!["true".to_string()],
    );
    assert_eq!(
        t.activation(),
        &Some(vec!["notify-send".to_string(), "idle".to_string()])
    );
    assert_eq!(t.abortion(), &None);
    assert_eq!(t.deactivation(), &Some(vec!["true".to_string()]));
}

#[test]
fn disabled_timer_is_never_due() {
    let mut t = CmdTimer::from_shell(2000, "echo on".to_string(), String::new(), String::new());
    t.set_disabled(true);
    assert!(t.get_disabled());
    assert!(t.disabled());
    assert_eq!(t.time_left(0), None);
    assert_eq!(t.time_left(2000), None);
    assert_eq!(t.time_left(u64::MAX), None);
    // Toggling the flag off makes the very next query answer from the
    // threshold again.
    t.set_disabled(false);
    assert_eq!(t.time_left(500), Some(1500));
    assert_eq!(t.time_left(2000), Some(0));
    assert_eq!(t.time_left(9999), Some(0));
}

#[test]
fn empty_command_hook_spawns_nothing_but_transitions() {
    let mut t = CmdTimer::from_shell(1000, String::new(), String::new(), String::new());
    // No hook ever yields a command to spawn...
    assert_eq!(t.activate(), None);
    // ...yet the state machine transitioned normally.
    assert_eq!(t.state, TimerState::Active);
    assert_eq!(t.abort(), None);
    assert_eq!(t.state, TimerState::Idle);
}

#[test]
fn abort_runs_abortion_not_deactivation() {
    let mut t = CmdTimer::from_shell(
        1000,
        "echo on".to_string(),
        "echo abort".to_string(),
        "echo deact".to_string(),
    );
    assert_eq!(t.activate(), Some(sh("echo on")));
    assert_eq!(t.abort(), Some(sh("echo abort")));
    assert_eq!(t.state, TimerState::Idle);
}

#[test]
fn deactivate_runs_deactivation_not_abortion() {
    let mut t = CmdTimer::from_shell(
        1000,
        "echo on".to_string(),
        "echo abort".to_string(),
        "echo deact".to_string(),
    );
    assert_eq!(t.activate(), Some(sh("echo on")));
    assert_eq!(t.deactivate(), Some(sh("echo deact")));
    assert_eq!(t.state, TimerState::Idle);
}

#[test]
fn abort_urgency_present_only_with_abortion_command() {
    let with = CmdTimer::from_shell(10, "a".to_string(), "b".to_string(), String::new());
    assert_eq!(with.abort_urgency(), Some(ABORT_URGENCY_MILLIS));
    let without = CmdTimer::from_shell(10, "a".to_string(), String::new(), String::new());
    assert_eq!(without.abort_urgency(), None);
}
