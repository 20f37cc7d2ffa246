use vstd::prelude::*;

verus! {

/// Seconds between keep-alive messages on the libvirt connection.
pub const KEEP_ALIVE_INTERVAL: i32 = 5;

/// Keep-alive messages that may go unanswered before the connection is
/// considered dead.
pub const KEEP_ALIVE_COUNT: u32 = 3;

/// The libvirt calls that set up the read-only connection and its event
/// handling, in the order in which they are made.
#[derive(Debug, Clone, Copy, PartialEq, Eq)]
pub enum SetupStep {
    /// `virInitialize`.
    Initialize,
    /// `virEventRegisterDefaultImpl`.
    RegisterEventImpl,
    /// `virConnectOpenReadOnly`; its code is 0 for a connection and negative
    /// for a null pointer.
    OpenReadOnly,
    /// `virConnectRegisterCloseCallback`.
    RegisterCloseCallback,
    /// `virConnectDomainEventRegister`.
    RegisterDomainEvent,
    /// `virConnectSetKeepAlive` with `KEEP_ALIVE_INTERVAL` and `KEEP_ALIVE_COUNT`.
    SetKeepAlive,
    /// `virConnectDomainEventRegisterAny` for reboot events.
    RegisterRebootEvent,
    /// One round of `virEventRunDefaultImpl`.
    RunEventLoop,
}

/// The two phases of the setup: opening the connection, then starting the
/// event handling on it.
#[derive(Debug, Clone, Copy, PartialEq, Eq)]
pub enum SetupPhase {
    Open,
    Start,
}

/// What follows a libvirt call.
#[derive(Debug, Clone, Copy, PartialEq, Eq)]
pub enum SetupAction {
    /// Make this call next.
    Call(SetupStep),
    /// The connection is open; the opening phase is done.
    Connected,
    /// Event handling is registered; keep the id that the reboot
    /// registration returned and run the event loop on a thread of its own.
    SpawnEventLoop(i32),
    /// This call failed: report it and end the process with status 1.
    Exit(SetupStep),
}

/// The first call of a phase.
pub open spec fn phase_first_call(phase: SetupPhase) -> SetupStep {
    match phase {
        SetupPhase::Open => SetupStep::Initialize,
        SetupPhase::Start => SetupStep::RegisterCloseCallback,
    }
}

/// What follows `step` when it succeeded with the (non-negative) code `code`.
pub open spec fn on_success(step: SetupStep, code: i32) -> SetupAction {
    match step {
        SetupStep::Initialize => SetupAction::Call(SetupStep::RegisterEventImpl),
        SetupStep::RegisterEventImpl => SetupAction::Call(SetupStep::OpenReadOnly),
        SetupStep::OpenReadOnly => SetupAction::Connected,
        SetupStep::RegisterCloseCallback => SetupAction::Call(SetupStep::RegisterDomainEvent),
        SetupStep::RegisterDomainEvent => SetupAction::Call(SetupStep::SetKeepAlive),
        SetupStep::SetKeepAlive => SetupAction::Call(SetupStep::RegisterRebootEvent),
        SetupStep::RegisterRebootEvent => SetupAction::SpawnEventLoop(code),
        SetupStep::RunEventLoop => SetupAction::Call(SetupStep::RunEventLoop),
    }
}

/// Whether a negative code of `step` ends the process. The reboot
/// registration is the one call whose code is kept, not checked.
pub open spec fn is_checked(step: SetupStep) -> bool {
    step != SetupStep::RegisterRebootEvent
}

/// What follows `step` after it returned `code`.
pub open spec fn setup_next_spec(step: SetupStep, code: i32) -> SetupAction {
    if is_checked(step) && code < 0 {
        SetupAction::Exit(step)
    } else {
        on_success(step, code)
    }
}

/// The first call of `phase`.
pub fn setup_begin(phase: SetupPhase) -> (a: SetupAction)
    ensures
        a == SetupAction::Call(phase_first_call(phase)),
{
    match phase {
        SetupPhase::Open => SetupAction::Call(SetupStep::Initialize),
        SetupPhase::Start => SetupAction::Call(SetupStep::RegisterCloseCallback),
    }
}

/// Decides what follows the libvirt call `step` that returned `code`.
pub fn setup_next(step: SetupStep, code: i32) -> (a: SetupAction)
    ensures
        a == setup_next_spec(step, code),
{
    let checked = match step {
        SetupStep::RegisterRebootEvent => false,
        _ => true,
    };
    if checked && code < 0 {
        return SetupAction::Exit(step);
    }
    match step {
        SetupStep::Initialize => SetupAction::Call(SetupStep::RegisterEventImpl),
        SetupStep::RegisterEventImpl => SetupAction::Call(SetupStep::OpenReadOnly),
        SetupStep::OpenReadOnly => SetupAction::Connected,
        SetupStep::RegisterCloseCallback => SetupAction::Call(SetupStep::RegisterDomainEvent),
        SetupStep::RegisterDomainEvent => SetupAction::Call(SetupStep::SetKeepAlive),
        SetupStep::SetKeepAlive => SetupAction::Call(SetupStep::RegisterRebootEvent),
        SetupStep::RegisterRebootEvent => SetupAction::SpawnEventLoop(code),
        SetupStep::RunEventLoop => SetupAction::Call(SetupStep::RunEventLoop),
    }
}

/// A negative code from any call but the reboot registration ends the
/// process, naming the call that failed.
pub proof fn lemma_failure_exits(step: SetupStep, code: i32)
    requires
        step != SetupStep::RegisterRebootEvent,
        code < 0,
    ensures
        setup_next_spec(step, code) == SetupAction::Exit(step),
{
}

/// When every call succeeds, the connection is opened by `virInitialize`,
/// `virEventRegisterDefaultImpl` and `virConnectOpenReadOnly` in this order,
/// and the event handling is started by the close callback, the domain
/// event callback, the keep-alive and the reboot registration in this order,
/// after which the event loop is spawned with the reboot registration's id.
pub proof fn lemma_order_on_success(c1: i32, c2: i32, c3: i32, c4: i32, c5: i32, c6: i32, c7: i32)
    requires
        c1 >= 0,
        c2 >= 0,
        c3 >= 0,
        c4 >= 0,
        c5 >= 0,
        c6 >= 0,
    ensures
        phase_first_call(SetupPhase::Open) == SetupStep::Initialize,
        setup_next_spec(SetupStep::Initialize, c1) == SetupAction::Call(SetupStep::RegisterEventImpl),
        setup_next_spec(SetupStep::RegisterEventImpl, c2) == SetupAction::Call(SetupStep::OpenReadOnly),
        setup_next_spec(SetupStep::OpenReadOnly, c3) == SetupAction::Connected,
        phase_first_call(SetupPhase::Start) == SetupStep::RegisterCloseCallback,
        setup_next_spec(SetupStep::RegisterCloseCallback, c4) == SetupAction::Call(SetupStep::RegisterDomainEvent),
        setup_next_spec(SetupStep::RegisterDomainEvent, c5) == SetupAction::Call(SetupStep::SetKeepAlive),
        setup_next_spec(SetupStep::SetKeepAlive, c6) == SetupAction::Call(SetupStep::RegisterRebootEvent),
        setup_next_spec(SetupStep::RegisterRebootEvent, c7) == SetupAction::SpawnEventLoop(c7),
{
}

/// The event loop runs round after round for as long as each round
/// succeeds, and ends the process at the first failing round.
pub proof fn lemma_event_loop(code: i32)
    ensures
        code >= 0 ==> setup_next_spec(SetupStep::RunEventLoop, code) == SetupAction::Call(SetupStep::RunEventLoop),
        code < 0 ==> setup_next_spec(SetupStep::RunEventLoop, code) == SetupAction::Exit(SetupStep::RunEventLoop),
{
}

} // verus!
