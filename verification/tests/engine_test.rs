use xidlehook::Error;
use xidlehook::engine::Engine;
use xidlehook::engine::TickStatus;
use xidlehook::modules::Chain;
use xidlehook::modules::Escalate;
use xidlehook::modules::NullModule;
use xidlehook::modules::StopAt;
use xidlehook::timer::CmdTimer;

fn sh(cmd: &str) -> Vec<String> {
    vec!["/bin/sh".to_string(), "-c".to_string(), cmd.to_string()]
}

fn single_timer_engine() -> Engine<NullModule> {
    let timers = vec![CmdTimer::from_shell(
        5000,
        "echo on".to_string(),
        "echo off".to_string(),
        String::new(),
    )];
    Engine::new(timers, NullModule)
}

#[test]
fn activation_fires_exactly_once_per_idle_stretch() {
    let mut e = single_timer_engine();

    // Below the threshold nothing happens.
    let r = e.tick(0);
    assert_eq!(r.status, TickStatus::Running);
    assert!(r.commands.is_empty());
    let r = e.tick(4999);
    assert!(r.commands.is_empty());

    // At the threshold the activation command runs exactly once.
    let r = e.tick(5000);
    assert_eq!(r.status, TickStatus::Running);
    assert_eq!(r.commands, vec![sh("echo on")]);

    // Further idle growth does not run it again.
    let r = e.tick(6000);
    assert!(r.commands.is_empty());
    let r = e.tick(60000);
    assert!(r.commands.is_empty());
}

#[test]
fn renewed_activity_runs_abortion_once_and_rearms() {
    let mut e = single_timer_engine();
    assert_eq!(e.tick(5000).commands, vec![sh("echo on")]);

    // The user came back: the abortion command runs exactly once.
    let r = e.tick(100);
    assert_eq!(r.status, TickStatus::Running);
    assert_eq!(r.commands, vec![sh("echo off")]);

    // Nothing more happens below the threshold...
    assert!(e.tick(200).commands.is_empty());
    // ...and after a fresh idle stretch the activation runs again.
    assert_eq!(e.tick(5000).commands, vec![sh("echo on")]);
}

#[test]
fn superseded_timer_deactivates_on_reset() {
    let timers = vec![
        CmdTimer::from_parts(
            1000,
            vec!["dim".to_string()],
            Vec::new(),
            vec!["undim".to_string()],
        ),
        CmdTimer::from_parts(2000, vec!["lock".to_string()], Vec::new(), Vec::new()),
    ];
    let mut e = Engine::new(timers, NullModule);
    assert_eq!(e.tick(1000).commands, vec![vec!["dim".to_string()]]);
    assert_eq!(e.tick(2000).commands, vec![vec!["lock".to_string()]]);
    // On renewed activity the superseded timer takes its normal unwind;
    // the current one has no abortion command.
    let r = e.tick(0);
    assert_eq!(r.commands, vec![vec!["undim".to_string()]]);
}

#[test]
fn disabled_timer_is_skipped_entirely() {
    let timers = vec![
        CmdTimer::from_shell(1000, "first".to_string(), String::new(), String::new()),
        CmdTimer::from_shell(2000, "second".to_string(), String::new(), String::new()),
    ];
    let mut e = Engine::new(timers, NullModule);
    assert!(e.set_disabled(0, true));

    // Timer 0 is due but disabled: skipped with no transition; timer 1
    // fires at its own threshold.
    assert!(e.tick(1000).commands.is_empty());
    assert!(e.tick(1500).commands.is_empty());
    assert_eq!(e.tick(2000).commands, vec![sh("second")]);

    // Re-enabled after a reset, timer 0 fires again.
    assert!(e.tick(0).commands.is_empty());
    assert!(e.set_disabled(0, false));
    assert_eq!(e.tick(1000).commands, vec![sh("first")]);
}

#[test]
fn stop_at_completion_stops_engine_after_last_timer() {
    let timers = vec![CmdTimer::from_shell(
        500,
        "echo once".to_string(),
        String::new(),
        String::new(),
    )];
    let mut e = Engine::new(timers, Chain { first: NullModule, second: StopAt::completion() });
    let r = e.tick(500);
    // The activation ran, then the run-once policy ceased the chain.
    assert_eq!(r.commands, vec![sh("echo once")]);
    assert_eq!(r.status, TickStatus::Stopped);
    assert!(e.stopped());
    // A stopped engine stays stopped and runs nothing further.
    let r = e.tick(9000);
    assert!(r.commands.is_empty());
    assert_eq!(r.status, TickStatus::Stopped);
}

#[test]
fn escalated_warning_fails_the_run() {
    let timers = vec![CmdTimer::from_shell(
        500,
        "echo on".to_string(),
        String::new(),
        String::new(),
    )];
    let mut e = Engine::new(timers, Escalate);
    assert_eq!(e.report_warning(&Error::Spawn), Err(Error::Spawn));
    let mut quiet = single_timer_engine();
    assert_eq!(quiet.report_warning(&Error::Spawn), Ok(()));
}

#[test]
fn out_of_range_disable_is_rejected() {
    let mut e = single_timer_engine();
    assert!(!e.set_disabled(7, true));
    assert_eq!(e.timer_count(), 1);
}
