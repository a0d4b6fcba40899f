use vstd::prelude::*;
use crate::error::Error;
use crate::key_code::{KeyCode, key_of_native};

verus! {

/// Message id that the service handle posts to the hook thread's queue to
/// ask it to stop.
pub const EXIT_MESSAGE: u32 = 0x400;

/// Native message id of a key press.
pub const KEY_DOWN_MESSAGE: u32 = 0x0100;

/// Where the thread that owns the keyboard hook stands.
#[derive(Debug, Clone, Copy, PartialEq, Eq, Structural)]
pub enum HookPhase {
    /// The hook is being installed.
    Starting,
    /// The hook is installed and the message queue is pumped.
    Installed,
    /// The hook is being removed: because shutdown was asked for
    /// (`error` is `None`), or because the message loop failed with `error`.
    Unhooking { error: Option<Error> },
    /// The thread is done.
    Terminated,
    /// The operating system refused the hook; the thread is done.
    Failed,
}

/// What the hook thread learns from the operating system.
#[derive(Debug, Clone, Copy, PartialEq, Eq, Structural)]
pub enum HookEvent {
    /// The hook was installed on the thread with this id.
    InstallSucceeded { thread_id: u32 },
    /// The hook could not be installed.
    InstallRefused,
    /// The blocking retrieval call returned `status` with a message of this id.
    Message { id: u32, status: i32 },
    /// The startup report could not be delivered: the constructor is gone.
    ReportUndelivered,
    /// The hook was removed.
    Unhooked,
}

/// What the hook thread does next.
#[derive(Debug, Clone, Copy, PartialEq, Eq, Structural)]
pub enum HookAction {
    /// Tell the constructor that the hook runs on the thread with this id,
    /// then pump the queue.
    ReportReady { thread_id: u32 },
    /// Tell the constructor that startup failed with `error`, then end the thread.
    ReportFailure { error: Error },
    /// Wait for the next message.
    Pump,
    /// Remove the hook.
    Unhook,
    /// End the thread.
    Exit,
    /// End the thread with `error`; the hook is already removed.
    Abort { error: Error },
    /// The event does not belong to this phase: nothing to do.
    Ignore,
}

/// The hook thread's next phase and action on `event` in `phase`.
pub open spec fn hook_step(phase: HookPhase, event: HookEvent) -> (HookPhase, HookAction) {
    match (phase, event) {
        (HookPhase::Starting, HookEvent::InstallSucceeded { thread_id }) => (
            HookPhase::Installed,
            HookAction::ReportReady { thread_id },
        ),
        (HookPhase::Starting, HookEvent::InstallRefused) => (
            HookPhase::Failed,
            HookAction::ReportFailure { error: Error::WindowsHook },
        ),
        (HookPhase::Installed, HookEvent::Message { id, status }) => {
            if id == EXIT_MESSAGE {
                (HookPhase::Unhooking { error: None }, HookAction::Unhook)
            } else if status < 0 {
                (HookPhase::Unhooking { error: Some(Error::MessageLoop) }, HookAction::Unhook)
            } else {
                (HookPhase::Installed, HookAction::Pump)
            }
        },
        (HookPhase::Installed, HookEvent::ReportUndelivered) => (
            HookPhase::Unhooking { error: Some(Error::ThreadStopped) },
            HookAction::Unhook,
        ),
        (HookPhase::Unhooking { error }, HookEvent::Unhooked) => (
            HookPhase::Terminated,
            match error {
                Some(error) => HookAction::Abort { error },
                None => HookAction::Exit,
            },
        ),
        (HookPhase::Terminated, _) => (HookPhase::Terminated, HookAction::Exit),
        (HookPhase::Failed, _) => (HookPhase::Failed, HookAction::Exit),
        _ => (phase, HookAction::Ignore),
    }
}

/// The phase reached from `phase` after `events`, in order.
pub open spec fn phase_after(phase: HookPhase, events: Seq<HookEvent>) -> HookPhase
    decreases events.len(),
{
    if events.len() == 0 {
        phase
    } else {
        hook_step(phase_after(phase, events.drop_last()), events.last()).0
    }
}

/// The key that a keyboard event seen by the hook in `phase` sends on to the
/// dispatcher: only a key press of a catalogued key while the hook is
/// installed, and only where the hook chain hands it over (`hook_code >= 0`).
pub open spec fn forwarded_key(phase: HookPhase, hook_code: i32, message: u32, vk_code: u32) -> Option<
    KeyCode,
> {
    if phase == HookPhase::Installed && hook_code >= 0 && message == KEY_DOWN_MESSAGE {
        key_of_native(vk_code)
    } else {
        None
    }
}

/// The hook thread's next phase and action on `event` in `phase`.
pub fn step(phase: HookPhase, event: HookEvent) -> (r: (HookPhase, HookAction))
    ensures
        r == hook_step(phase, event),
{
    match (phase, event) {
        (HookPhase::Starting, HookEvent::InstallSucceeded { thread_id }) => (
            HookPhase::Installed,
            HookAction::ReportReady { thread_id },
        ),
        (HookPhase::Starting, HookEvent::InstallRefused) => (
            HookPhase::Failed,
            HookAction::ReportFailure { error: Error::WindowsHook },
        ),
        (HookPhase::Installed, HookEvent::Message { id, status }) => {
            if id == EXIT_MESSAGE {
                (HookPhase::Unhooking { error: None }, HookAction::Unhook)
            } else if status < 0 {
                (HookPhase::Unhooking { error: Some(Error::MessageLoop) }, HookAction::Unhook)
            } else {
                (HookPhase::Installed, HookAction::Pump)
            }
        },
        (HookPhase::Installed, HookEvent::ReportUndelivered) => (
            HookPhase::Unhooking { error: Some(Error::ThreadStopped) },
            HookAction::Unhook,
        ),
        (HookPhase::Unhooking { error }, HookEvent::Unhooked) => (
            HookPhase::Terminated,
            match error {
                Some(error) => HookAction::Abort { error },
                None => HookAction::Exit,
            },
        ),
        (HookPhase::Terminated, _) => (HookPhase::Terminated, HookAction::Exit),
        (HookPhase::Failed, _) => (HookPhase::Failed, HookAction::Exit),
        _ => (phase, HookAction::Ignore),
    }
}

/// The key to send on for a keyboard event that reaches the hook in
/// `phase`, if any. Whatever it returns, the event itself goes on down the
/// hook chain.
pub fn forward_key(phase: HookPhase, hook_code: i32, message: u32, vk_code: u32) -> (r: Option<
    KeyCode,
>)
    ensures
        r == forwarded_key(phase, hook_code, message, vk_code),
{
    match phase {
        HookPhase::Installed => {
            if hook_code >= 0 && message == KEY_DOWN_MESSAGE {
                KeyCode::from_native_code(vk_code)
            } else {
                None
            }
        },
        _ => None,
    }
}

/// What the constructor makes of the hook thread's startup report: the
/// thread id where the hook was installed, the reported error, or
/// `ThreadStopped` where the thread ended without reporting.
pub fn startup_result(report: Option<Result<u32, Error>>) -> (r: Result<u32, Error>)
    ensures
        r == match report {
            Some(reported) => reported,
            None => Err(Error::ThreadStopped),
        },
{
    match report {
        Some(reported) => reported,
        None => Err(Error::ThreadStopped),
    }
}

/// Once shutdown was asked for, or the thread has ended, no sequence of
/// events brings the hook back, and no keyboard event is sent on.
pub proof fn lemma_no_keys_after_shutdown(
    phase: HookPhase,
    events: Seq<HookEvent>,
    hook_code: i32,
    message: u32,
    vk_code: u32,
)
    requires
        phase != HookPhase::Starting && phase != HookPhase::Installed,
    ensures
        phase_after(phase, events) != HookPhase::Installed,
        phase_after(phase, events) != HookPhase::Starting,
        forwarded_key(phase_after(phase, events), hook_code, message, vk_code) is None,
    decreases events.len(),
{
    if events.len() > 0 {
        lemma_no_keys_after_shutdown(phase, events.drop_last(), hook_code, message, vk_code);
    }
}

/// Disposal: the exit message moves an installed hook to removal, after
/// which no keyboard event is sent on, whatever follows.
pub proof fn lemma_disposal_stops_forwarding(
    status: i32,
    later: Seq<HookEvent>,
    hook_code: i32,
    message: u32,
    vk_code: u32,
)
    ensures
        hook_step(HookPhase::Installed, HookEvent::Message { id: EXIT_MESSAGE, status }) == (
            HookPhase::Unhooking { error: None },
            HookAction::Unhook,
        ),
        forwarded_key(
            phase_after(HookPhase::Unhooking { error: None }, later),
            hook_code,
            message,
            vk_code,
        ) is None,
{
    lemma_no_keys_after_shutdown(HookPhase::Unhooking { error: None }, later, hook_code, message, vk_code);
}

/// Whatever stops the message loop of an installed hook, the exit message
/// or a failed retrieval, the hook is removed before the thread ends, and the
/// thread ends with the loop's error where there was one. The same holds
/// where the startup report could not be delivered.
pub proof fn lemma_hook_removed_on_every_exit(id: u32, status: i32)
    requires
        id == EXIT_MESSAGE || status < 0,
    ensures
        ({
            let (unhooking, first) = hook_step(HookPhase::Installed, HookEvent::Message { id, status });
            let (last_phase, last) = hook_step(unhooking, HookEvent::Unhooked);
            &&& first == HookAction::Unhook
            &&& last_phase == HookPhase::Terminated
            &&& last == if id == EXIT_MESSAGE {
                HookAction::Exit
            } else {
                HookAction::Abort { error: Error::MessageLoop }
            }
        }),
        ({
            let (unhooking, first) = hook_step(HookPhase::Installed, HookEvent::ReportUndelivered);
            &&& first == HookAction::Unhook
            &&& hook_step(unhooking, HookEvent::Unhooked) == (
                HookPhase::Terminated,
                HookAction::Abort { error: Error::ThreadStopped },
            )
        }),
{
}

/// A refused install ends startup with `WindowsHook`, and the thread does
/// nothing but end from then on.
pub proof fn lemma_install_failure_ends_thread(later: Seq<HookEvent>, event: HookEvent)
    ensures
        hook_step(HookPhase::Starting, HookEvent::InstallRefused) == (
            HookPhase::Failed,
            HookAction::ReportFailure { error: Error::WindowsHook },
        ),
        phase_after(HookPhase::Failed, later) == HookPhase::Failed,
        hook_step(phase_after(HookPhase::Failed, later), event).1 == HookAction::Exit,
    decreases later.len(),
{
    if later.len() > 0 {
        lemma_install_failure_ends_thread(later.drop_last(), event);
    }
}

} // verus!
