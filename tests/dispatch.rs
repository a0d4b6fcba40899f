use livesplit_hotkey::dispatch::{handle_event, KeyEvent};
use livesplit_hotkey::hook_thread::{step, HookEvent, HookPhase, EXIT_MESSAGE, KEY_DOWN_MESSAGE};
use livesplit_hotkey::{KeyCode, Registry};
use std::cell::RefCell;
use std::rc::Rc;

const KEY_UP_MESSAGE: u32 = 0x0101;

type Callback = Box<dyn FnMut()>;

fn down(vk_code: u32) -> KeyEvent {
    KeyEvent { hook_code: 0, message: KEY_DOWN_MESSAGE, vk_code }
}

fn up(vk_code: u32) -> KeyEvent {
    KeyEvent { hook_code: 0, message: KEY_UP_MESSAGE, vk_code }
}

/// Dispatches each event in order, running the callback it finds.
fn deliver(phase: HookPhase, registry: &mut Registry<Callback>, events: &[KeyEvent]) {
    for e in events {
        if let Some(callback) = handle_event(registry, phase, *e) {
            callback();
        }
    }
}

fn recorder(log: &Rc<RefCell<Vec<&'static str>>>, name: &'static str) -> Callback {
    let log = log.clone();
    Box::new(move || log.borrow_mut().push(name))
}

#[test]
fn register_unregister_scenario() {
    let log = Rc::new(RefCell::new(Vec::new()));
    let mut registry: Registry<Callback> = Registry::new();
    let phase = HookPhase::Installed;

    assert_eq!(registry.register(KeyCode::Numpad0, recorder(&log, "A")), Ok(()));
    deliver(phase, &mut registry, &[down(0x60)]);
    assert_eq!(*log.borrow(), vec!["A"]);

    assert_eq!(registry.unregister(KeyCode::Numpad0), Ok(()));
    deliver(phase, &mut registry, &[down(0x60)]);
    assert_eq!(*log.borrow(), vec!["A"]);

    assert_eq!(registry.register(KeyCode::Numpad1, recorder(&log, "B")), Ok(()));
    deliver(phase, &mut registry, &[down(0x61)]);
    assert_eq!(*log.borrow(), vec!["A", "B"]);
}

#[test]
fn each_press_fires_once_in_event_order() {
    let log = Rc::new(RefCell::new(Vec::new()));
    let mut registry: Registry<Callback> = Registry::new();
    assert_eq!(registry.register(KeyCode::KeyA, recorder(&log, "a")), Ok(()));
    assert_eq!(registry.register(KeyCode::KeyB, recorder(&log, "b")), Ok(()));
    assert_eq!(registry.register(KeyCode::F1, recorder(&log, "f1")), Ok(()));
    let events = [down(0x41), down(0x42), down(0x41), down(0x70), down(0x43), down(0x42)];
    deliver(HookPhase::Installed, &mut registry, &events);
    assert_eq!(*log.borrow(), vec!["a", "b", "a", "f1", "b"]);
}

#[test]
fn releases_and_unregistered_keys_fire_nothing() {
    let log = Rc::new(RefCell::new(Vec::new()));
    let mut registry: Registry<Callback> = Registry::new();
    assert_eq!(registry.register(KeyCode::KeyA, recorder(&log, "a")), Ok(()));
    let events = [
        up(0x41),
        down(0x42),
        KeyEvent { hook_code: -1, message: KEY_DOWN_MESSAGE, vk_code: 0x41 },
        down(0),
        down(0xFF),
    ];
    deliver(HookPhase::Installed, &mut registry, &events);
    assert!(log.borrow().is_empty());
    deliver(HookPhase::Installed, &mut registry, &[up(0x41), down(0x41), up(0x41)]);
    assert_eq!(*log.borrow(), vec!["a"]);
}

#[test]
fn callbacks_complete_in_order() {
    let log = Rc::new(RefCell::new(Vec::new()));
    let mut registry: Registry<Callback> = Registry::new();
    let first = log.clone();
    let second = log.clone();
    let first_cb: Callback = Box::new(move || {
        first.borrow_mut().push("start A");
        first.borrow_mut().push("end A");
    });
    let second_cb: Callback = Box::new(move || {
        second.borrow_mut().push("start B");
        second.borrow_mut().push("end B");
    });
    assert_eq!(registry.register(KeyCode::Return, first_cb), Ok(()));
    assert_eq!(registry.register(KeyCode::Escape, second_cb), Ok(()));
    deliver(HookPhase::Installed, &mut registry, &[down(0x0D), down(0x1B)]);
    assert_eq!(*log.borrow(), vec!["start A", "end A", "start B", "end B"]);
}

#[test]
fn nothing_fires_after_disposal() {
    let log = Rc::new(RefCell::new(Vec::new()));
    let mut registry: Registry<Callback> = Registry::new();
    assert_eq!(registry.register(KeyCode::Numpad0, recorder(&log, "A")), Ok(()));
    let (phase, _) = step(HookPhase::Installed, HookEvent::Message { id: EXIT_MESSAGE, status: 1 });
    deliver(phase, &mut registry, &[down(0x60), down(0x60)]);
    let (phase, _) = step(phase, HookEvent::Unhooked);
    deliver(phase, &mut registry, &[down(0x60)]);
    assert!(log.borrow().is_empty());
}

#[test]
fn handle_event_gives_the_registered_value() {
    let mut registry: Registry<u32> = Registry::new();
    assert_eq!(registry.register(KeyCode::Numpad5, 3), Ok(()));
    if let Some(value) = handle_event(&mut registry, HookPhase::Installed, down(0x65)) {
        *value += 4;
    }
    assert_eq!(registry.callback_for(KeyCode::Numpad5).copied(), Some(7));
    assert_eq!(handle_event(&mut registry, HookPhase::Installed, up(0x65)), None);
    assert_eq!(handle_event(&mut registry, HookPhase::Installed, down(0x66)), None);
    assert_eq!(handle_event(&mut registry, HookPhase::Starting, down(0x65)), None);
}
