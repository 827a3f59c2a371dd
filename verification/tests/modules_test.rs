use xidlehook::Error;
use xidlehook::TimerInfo;
use xidlehook::modules::Chain;
use xidlehook::modules::Dynamic;
use xidlehook::modules::Escalate;
use xidlehook::modules::Module;
use xidlehook::modules::NullModule;
use xidlehook::modules::Progress;
use xidlehook::modules::StopAt;

fn info(index: usize, length: usize) -> TimerInfo {
    TimerInfo { index, length }
}

#[test]
fn null_module_always_continues() {
    let mut m = NullModule;
    assert_eq!(m.pre_timer(info(0, 3)), Ok(Progress::Continue));
    assert_eq!(m.post_timer(info(2, 3)), Ok(Progress::Continue));
    assert_eq!(m.warning(&Error::Spawn), Ok(()));
    assert_eq!(m.reset(), Ok(()));
}

#[test]
fn boxed_module_is_transparent() {
    let mut m: Box<NullModule> = Box::new(NullModule);
    assert_eq!(m.pre_timer(info(0, 1)), Ok(Progress::Continue));
    assert_eq!(m.post_timer(info(0, 1)), Ok(Progress::Continue));
    assert_eq!(m.warning(&Error::Io), Ok(()));
    assert_eq!(m.reset(), Ok(()));
}

#[test]
fn chain_short_circuits_post_timer() {
    // The first policy answers Stop for timer 0; the composite returns
    // that answer unchanged.
    let mut m = Chain { first: StopAt::index(0), second: NullModule };
    assert_eq!(m.post_timer(info(0, 3)), Ok(Progress::Stop));
    // Below the stop point the chain continues to the second policy.
    let mut m2 = Chain { first: StopAt::index(2), second: NullModule };
    assert_eq!(m2.post_timer(info(0, 3)), Ok(Progress::Continue));
}

#[test]
fn chain_warning_returns_first_failure() {
    // Both members receive the warning; the first failure is returned.
    let mut m = Chain { first: Escalate, second: NullModule };
    assert_eq!(m.warning(&Error::Spawn), Err(Error::Spawn));
    let mut m2 = Chain { first: NullModule, second: Escalate };
    assert_eq!(m2.warning(&Error::Io), Err(Error::Io));
    let mut m3 = Chain { first: NullModule, second: NullModule };
    assert_eq!(m3.warning(&Error::Io), Ok(()));
}

#[test]
fn chain_is_nestable() {
    let mut m = Chain {
        first: NullModule,
        second: Chain { first: StopAt::index(1), second: NullModule },
    };
    assert_eq!(m.pre_timer(info(1, 4)), Ok(Progress::Continue));
    assert_eq!(m.post_timer(info(1, 4)), Ok(Progress::Stop));
    assert_eq!(m.reset(), Ok(()));
}

#[test]
fn dynamic_collection_continues_when_all_continue() {
    let mut m = Dynamic { modules: vec![NullModule, NullModule, NullModule] };
    assert_eq!(m.pre_timer(info(0, 1)), Ok(Progress::Continue));
    assert_eq!(m.post_timer(info(0, 1)), Ok(Progress::Continue));
    assert_eq!(m.reset(), Ok(()));
}

#[test]
fn dynamic_collection_short_circuits_on_stop() {
    let mut m = Dynamic { modules: vec![StopAt::index(5), StopAt::index(1), StopAt::index(7)] };
    // Timer 3 is at or past the stop point of the second member only.
    assert_eq!(m.post_timer(info(3, 9)), Ok(Progress::Stop));
    assert_eq!(m.pre_timer(info(3, 9)), Ok(Progress::Continue));
}

#[test]
fn dynamic_warning_returns_first_failure() {
    // The warning reaches every member even though the first one fails,
    // and the first failure in sequence order is the composite's answer.
    let mut m = Dynamic { modules: vec![Escalate, Escalate] };
    assert_eq!(m.warning(&Error::Protocol), Err(Error::Protocol));
    let mut ok = Dynamic { modules: vec![NullModule, NullModule] };
    assert_eq!(ok.warning(&Error::Protocol), Ok(()));
}

#[test]
fn empty_dynamic_collection_continues() {
    let mut m: Dynamic<NullModule> = Dynamic { modules: vec![] };
    assert_eq!(m.pre_timer(info(0, 0)), Ok(Progress::Continue));
    assert_eq!(m.warning(&Error::Policy), Ok(()));
}

#[test]
fn stop_at_completion_stops_after_last_timer() {
    let mut m = StopAt::completion();
    assert_eq!(m.pre_timer(info(2, 3)), Ok(Progress::Continue));
    assert_eq!(m.post_timer(info(1, 3)), Ok(Progress::Continue));
    assert_eq!(m.post_timer(info(2, 3)), Ok(Progress::Stop));
}
