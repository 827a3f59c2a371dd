use xidlehook::Error;
use xidlehook::engine::Engine;
use xidlehook::engine::TickStatus;
use xidlehook::modules::Chain;
use xidlehook::modules::Escalate;
use xidlehook::modules::NullModule;
use xidlehook::modules::StopAt;
use xidlehook::orchestrator::Message;
use xidlehook::orchestrator::Orchestrator;
use xidlehook::orchestrator::Reply;
use xidlehook::timer::CmdTimer;

fn sh(cmd: &str) -> Vec<String> {
    vec!["/bin/sh".to_string(), "-c".to_string(), cmd.to_string()]
}

fn orchestrator() -> Orchestrator<NullModule> {
    let timers = vec![
        CmdTimer::from_shell(1000, "first".to_string(), String::new(), String::new()),
        CmdTimer::from_shell(2000, "second".to_string(), String::new(), String::new()),
    ];
    Orchestrator::new(Engine::new(timers, NullModule), true)
}

#[test]
fn socket_disable_skips_timer_until_reenabled() {
    let mut o = orchestrator();

    // {"set_disabled": [0, true]} arrives over the socket.
    let reply = o.on_socket(Some(Message::SetDisabled { timer: 0, disabled: true }), 0);
    assert_eq!(reply, Some(Reply::Empty));

    // Subsequent engine ticks skip timer 0 entirely.
    assert!(o.tick_engine(1000).commands.is_empty());
    assert!(o.tick_engine(1500).commands.is_empty());
    assert_eq!(o.tick_engine(2000).commands, vec![sh("second")]);

    // {"set_disabled": [0, false]} re-enables it.
    assert!(o.tick_engine(0).commands.is_empty());
    let reply = o.on_socket(Some(Message::SetDisabled { timer: 0, disabled: false }), 0);
    assert_eq!(reply, Some(Reply::Empty));
    assert_eq!(o.tick_engine(1000).commands, vec![sh("first")]);
}

#[test]
fn out_of_range_disable_gets_error_reply() {
    let mut o = orchestrator();
    let reply = o.on_socket(Some(Message::SetDisabled { timer: 9, disabled: true }), 0);
    assert_eq!(reply, Some(Reply::Invalid));
    // The loop carries on; the protocol error stayed at that connection.
    assert!(o.running);
}

#[test]
fn get_idle_time_is_answered() {
    let mut o = orchestrator();
    let reply = o.on_socket(Some(Message::GetIdleTime), 1234);
    assert_eq!(reply, Some(Reply::IdleTime(1234)));
    assert!(o.running);
}

#[test]
fn quit_command_ends_loop_without_reply() {
    let mut o = orchestrator();
    let reply = o.on_socket(Some(Message::Quit), 0);
    assert_eq!(reply, None);
    assert!(!o.running);
}

#[test]
fn closed_socket_channel_disables_branch_only() {
    let mut o = orchestrator();
    assert_eq!(o.on_socket(None, 0), None);
    assert!(!o.socket_open);
    // The loop and the other branches carry on.
    assert!(o.running);
    assert!(o.signal_open);
    assert_eq!(o.tick_engine(1000).commands, vec![sh("first")]);
}

#[test]
fn signal_ends_the_loop() {
    let mut o = orchestrator();
    o.on_signal(Some(2));
    assert!(!o.running);
    assert!(o.exit_error.is_none());
}

#[test]
fn closed_signal_channel_then_real_signal_does_not_reach_loop() {
    let mut o = orchestrator();

    // The handler thread exited: the channel closed. The branch is
    // permanently disabled, the loop carries on.
    o.on_signal(None);
    assert!(!o.signal_open);
    assert!(o.running);

    // A real signal delivered afterwards is never selected, because the
    // binary only polls the branch while `signal_open` holds. The socket
    // and engine branches keep operating until one completes.
    assert_eq!(o.tick_engine(1000).commands, vec![sh("first")]);
    assert!(o.running);
    let reply = o.on_socket(Some(Message::Quit), 0);
    assert_eq!(reply, None);
    assert!(!o.running);
}

#[test]
fn shutdown_actions_claimed_exactly_once() {
    let mut o = orchestrator();

    // Both the signal branch and the engine-completion branch race into
    // the shutdown sequence; only the first claim performs it.
    o.on_signal(Some(15));
    assert!(o.claim_shutdown());
    assert!(!o.claim_shutdown());
    assert!(!o.claim_shutdown());
}

#[test]
fn engine_failure_is_recorded_for_exit() {
    let timers = vec![CmdTimer::from_shell(
        1000,
        "first".to_string(),
        String::new(),
        String::new(),
    )];
    let mut o = Orchestrator::new(Engine::new(timers, Escalate), false);
    // A spawn failure reported into an escalating chain is fatal.
    assert_eq!(o.report_warning(&Error::Spawn), Err(Error::Spawn));
    assert!(!o.running);
    assert_eq!(o.exit_error, Some(Error::Spawn));
}

#[test]
fn clean_engine_completion_ends_loop_without_error() {
    let timers = vec![CmdTimer::from_shell(
        500,
        "echo once".to_string(),
        String::new(),
        String::new(),
    )];
    let module = Chain { first: NullModule, second: StopAt::completion() };
    let mut o = Orchestrator::new(Engine::new(timers, module), false);
    let r = o.tick_engine(500);
    assert_eq!(r.status, TickStatus::Stopped);
    assert!(!o.running);
    assert!(o.exit_error.is_none());
}
