use livesplit_hotkey::hook_thread::{
    forward_key, startup_result, step, HookAction, HookEvent, HookPhase, EXIT_MESSAGE,
    KEY_DOWN_MESSAGE,
};
use livesplit_hotkey::{Error, KeyCode};

const KEY_UP_MESSAGE: u32 = 0x0101;

#[test]
fn successful_install_reports_thread_id() {
    assert_eq!(
        step(HookPhase::Starting, HookEvent::InstallSucceeded { thread_id: 42 }),
        (HookPhase::Installed, HookAction::ReportReady { thread_id: 42 })
    );
    assert_eq!(startup_result(Some(Ok(42))), Ok(42));
}

#[test]
fn install_failure_reports_windows_hook_error() {
    assert_eq!(
        step(HookPhase::Starting, HookEvent::InstallRefused),
        (HookPhase::Failed, HookAction::ReportFailure { error: Error::WindowsHook })
    );
    assert_eq!(startup_result(Some(Err(Error::WindowsHook))), Err(Error::WindowsHook));
    assert_eq!(
        step(HookPhase::Failed, HookEvent::Message { id: 0, status: 1 }),
        (HookPhase::Failed, HookAction::Exit)
    );
    assert_eq!(forward_key(HookPhase::Failed, 0, KEY_DOWN_MESSAGE, 0x60), None);
}

#[test]
fn silent_hook_thread_is_thread_stopped() {
    assert_eq!(startup_result(None), Err(Error::ThreadStopped));
}

#[test]
fn ordinary_messages_keep_pumping() {
    assert_eq!(
        step(HookPhase::Installed, HookEvent::Message { id: 0x0012, status: 0 }),
        (HookPhase::Installed, HookAction::Pump)
    );
    assert_eq!(
        step(HookPhase::Installed, HookEvent::Message { id: 0x0100, status: 1 }),
        (HookPhase::Installed, HookAction::Pump)
    );
}

#[test]
fn retrieval_error_unhooks_then_aborts_with_message_loop() {
    let (phase, action) = step(HookPhase::Installed, HookEvent::Message { id: 0, status: -1 });
    assert_eq!(phase, HookPhase::Unhooking { error: Some(Error::MessageLoop) });
    assert_eq!(action, HookAction::Unhook);
    assert_eq!(forward_key(phase, 0, KEY_DOWN_MESSAGE, 0x60), None);
    assert_eq!(
        step(phase, HookEvent::Unhooked),
        (HookPhase::Terminated, HookAction::Abort { error: Error::MessageLoop })
    );
}

#[test]
fn exit_message_unhooks_then_terminates() {
    assert_eq!(
        step(HookPhase::Installed, HookEvent::Message { id: EXIT_MESSAGE, status: 1 }),
        (HookPhase::Unhooking { error: None }, HookAction::Unhook)
    );
    assert_eq!(
        step(HookPhase::Unhooking { error: None }, HookEvent::Unhooked),
        (HookPhase::Terminated, HookAction::Exit)
    );
    assert_eq!(
        step(HookPhase::Terminated, HookEvent::Unhooked),
        (HookPhase::Terminated, HookAction::Exit)
    );
}

#[test]
fn out_of_phase_events_are_ignored() {
    assert_eq!(
        step(HookPhase::Starting, HookEvent::Unhooked),
        (HookPhase::Starting, HookAction::Ignore)
    );
    assert_eq!(
        step(HookPhase::Installed, HookEvent::InstallRefused),
        (HookPhase::Installed, HookAction::Ignore)
    );
}

#[test]
fn installed_hook_forwards_key_presses_only() {
    assert_eq!(forward_key(HookPhase::Installed, 0, KEY_DOWN_MESSAGE, 0x60), Some(KeyCode::Numpad0));
    assert_eq!(forward_key(HookPhase::Installed, 0, KEY_UP_MESSAGE, 0x60), None);
    assert_eq!(forward_key(HookPhase::Installed, -1, KEY_DOWN_MESSAGE, 0x60), None);
    assert_eq!(forward_key(HookPhase::Installed, 0, KEY_DOWN_MESSAGE, 0), None);
    assert_eq!(forward_key(HookPhase::Installed, 0, KEY_DOWN_MESSAGE, 0xFF), None);
    assert_eq!(forward_key(HookPhase::Installed, 0, KEY_DOWN_MESSAGE, 0x1FE), None);
}

#[test]
fn no_keys_forwarded_after_disposal() {
    let (phase, _) = step(HookPhase::Installed, HookEvent::Message { id: EXIT_MESSAGE, status: 1 });
    for code in [0x01u32, 0x41, 0x60, 0xFE] {
        assert_eq!(forward_key(phase, 0, KEY_DOWN_MESSAGE, code), None);
    }
    let (phase, _) = step(phase, HookEvent::Unhooked);
    assert_eq!(forward_key(phase, 0, KEY_DOWN_MESSAGE, 0x60), None);
    assert_eq!(forward_key(HookPhase::Starting, 0, KEY_DOWN_MESSAGE, 0x60), None);
}

#[test]
fn undelivered_report_unhooks_then_aborts_with_thread_stopped() {
    let (phase, action) = step(HookPhase::Installed, HookEvent::ReportUndelivered);
    assert_eq!(phase, HookPhase::Unhooking { error: Some(Error::ThreadStopped) });
    assert_eq!(action, HookAction::Unhook);
    assert_eq!(
        step(phase, HookEvent::Unhooked),
        (HookPhase::Terminated, HookAction::Abort { error: Error::ThreadStopped })
    );
}
