use klyhostservice::libvirt_setup::{
    setup_begin, setup_next, SetupAction, SetupPhase, SetupStep, KEEP_ALIVE_COUNT,
    KEEP_ALIVE_INTERVAL,
};

#[test]
fn phases_begin_with_their_first_call() {
    assert_eq!(setup_begin(SetupPhase::Open), SetupAction::Call(SetupStep::Initialize));
    assert_eq!(setup_begin(SetupPhase::Start), SetupAction::Call(SetupStep::RegisterCloseCallback));
}

#[test]
fn open_sequence_on_success() {
    assert_eq!(setup_next(SetupStep::Initialize, 0), SetupAction::Call(SetupStep::RegisterEventImpl));
    assert_eq!(setup_next(SetupStep::RegisterEventImpl, 0), SetupAction::Call(SetupStep::OpenReadOnly));
    assert_eq!(setup_next(SetupStep::OpenReadOnly, 0), SetupAction::Connected);
}

#[test]
fn start_sequence_on_success() {
    assert_eq!(setup_next(SetupStep::RegisterCloseCallback, 0), SetupAction::Call(SetupStep::RegisterDomainEvent));
    assert_eq!(setup_next(SetupStep::RegisterDomainEvent, 3), SetupAction::Call(SetupStep::SetKeepAlive));
    assert_eq!(setup_next(SetupStep::SetKeepAlive, 0), SetupAction::Call(SetupStep::RegisterRebootEvent));
    assert_eq!(setup_next(SetupStep::RegisterRebootEvent, 4), SetupAction::SpawnEventLoop(4));
}

#[test]
fn negative_codes_exit() {
    for step in [
        SetupStep::Initialize,
        SetupStep::RegisterEventImpl,
        SetupStep::OpenReadOnly,
        SetupStep::RegisterCloseCallback,
        SetupStep::RegisterDomainEvent,
        SetupStep::SetKeepAlive,
        SetupStep::RunEventLoop,
    ] {
        assert_eq!(setup_next(step, -1), SetupAction::Exit(step));
    }
}

#[test]
fn reboot_registration_is_not_checked() {
    assert_eq!(setup_next(SetupStep::RegisterRebootEvent, -1), SetupAction::SpawnEventLoop(-1));
}

#[test]
fn event_loop_repeats_until_failure() {
    assert_eq!(setup_next(SetupStep::RunEventLoop, 0), SetupAction::Call(SetupStep::RunEventLoop));
    assert_eq!(setup_next(SetupStep::RunEventLoop, -2), SetupAction::Exit(SetupStep::RunEventLoop));
}

#[test]
fn keep_alive_parameters() {
    assert_eq!(KEEP_ALIVE_INTERVAL, 5);
    assert_eq!(KEEP_ALIVE_COUNT, 3);
}
