use livesplit_hotkey::{Error, KeyCode, Registry};
use std::cell::Cell;
use std::rc::Rc;

type Callback = Box<dyn FnMut()>;

fn counter() -> (Rc<Cell<u32>>, Callback) {
    let count = Rc::new(Cell::new(0));
    let inner = count.clone();
    (count, Box::new(move || inner.set(inner.get() + 1)))
}

fn fire(registry: &mut Registry<Callback>, key: KeyCode) -> bool {
    match registry.callback_for(key) {
        Some(callback) => {
            callback();
            true
        }
        None => false,
    }
}

#[test]
fn new_registry_is_empty() {
    let registry: Registry<u32> = Registry::new();
    assert!(!registry.is_registered(KeyCode::Numpad0));
    assert!(!registry.is_registered(KeyCode::OemClear));
}

#[test]
fn register_twice_keeps_first_callback() {
    let mut registry: Registry<Callback> = Registry::new();
    let (a, cb_a) = counter();
    let (b, cb_b) = counter();
    assert_eq!(registry.register(KeyCode::Numpad0, cb_a), Ok(()));
    assert_eq!(registry.register(KeyCode::Numpad0, cb_b), Err(Error::AlreadyRegistered));
    assert!(fire(&mut registry, KeyCode::Numpad0));
    assert_eq!(a.get(), 1);
    assert_eq!(b.get(), 0);
}

#[test]
fn unregister_absent_key_fails_and_changes_nothing() {
    let mut registry: Registry<u32> = Registry::new();
    assert_eq!(registry.register(KeyCode::KeyA, 1), Ok(()));
    assert_eq!(registry.unregister(KeyCode::KeyB), Err(Error::NotRegistered));
    assert!(registry.is_registered(KeyCode::KeyA));
    assert!(!registry.is_registered(KeyCode::KeyB));
    assert_eq!(registry.callback_for(KeyCode::KeyA).copied(), Some(1));
}

#[test]
fn reregister_after_unregister() {
    let mut registry: Registry<u32> = Registry::new();
    assert_eq!(registry.register(KeyCode::F1, 1), Ok(()));
    assert_eq!(registry.unregister(KeyCode::F1), Ok(()));
    assert!(!registry.is_registered(KeyCode::F1));
    assert_eq!(registry.register(KeyCode::F1, 2), Ok(()));
    assert_eq!(registry.callback_for(KeyCode::F1).copied(), Some(2));
    assert_eq!(registry.unregister(KeyCode::F1), Ok(()));
    assert_eq!(registry.unregister(KeyCode::F1), Err(Error::NotRegistered));
}

#[test]
fn callback_state_changes_persist() {
    let mut registry: Registry<u32> = Registry::new();
    assert_eq!(registry.register(KeyCode::Space, 5), Ok(()));
    if let Some(value) = registry.callback_for(KeyCode::Space) {
        *value += 1;
    }
    assert_eq!(registry.callback_for(KeyCode::Space).copied(), Some(6));
    assert_eq!(registry.callback_for(KeyCode::Tab), None);
}

#[test]
fn keys_are_independent() {
    let mut registry: Registry<u32> = Registry::new();
    assert_eq!(registry.register(KeyCode::LButton, 1), Ok(()));
    assert_eq!(registry.register(KeyCode::OemClear, 2), Ok(()));
    assert_eq!(registry.unregister(KeyCode::LButton), Ok(()));
    assert_eq!(registry.callback_for(KeyCode::OemClear).copied(), Some(2));
    assert_eq!(registry.callback_for(KeyCode::LButton), None);
}

#[test]
fn error_messages_differ() {
    let all = [
        Error::AlreadyRegistered,
        Error::NotRegistered,
        Error::WindowsHook,
        Error::ThreadStopped,
        Error::MessageLoop,
    ];
    for (i, a) in all.iter().enumerate() {
        assert!(!a.message().is_empty());
        for b in &all[i + 1..] {
            assert_ne!(a.message(), b.message());
        }
    }
}

#[test]
fn error_messages_are_fixed_texts() {
    assert_eq!(Error::AlreadyRegistered.message(), "the hotkey is already registered");
    assert_eq!(Error::NotRegistered.message(), "the hotkey is not registered");
    assert_eq!(Error::WindowsHook.message(), "the keyboard hook could not be installed");
    assert_eq!(Error::ThreadStopped.message(), "a hook thread stopped unexpectedly");
    assert_eq!(Error::MessageLoop.message(), "the hook thread's message loop failed");
}
