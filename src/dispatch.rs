use vstd::prelude::*;
use crate::hook_thread::{HookPhase, forwarded_key, forward_key};
use crate::key_code::KeyCode;
use crate::registry::Registry;

verus! {

/// A keyboard event as the operating system hands it to the hook.
#[derive(Debug, Clone, Copy, PartialEq, Eq, Structural)]
pub struct KeyEvent {
    /// The hook chain's code; negative where the event is not for this hook.
    pub hook_code: i32,
    /// The message id: key press, key release, and so on.
    pub message: u32,
    /// The native code of the key.
    pub vk_code: u32,
}

/// The key that an installed hook sends on for `e`, if any.
pub open spec fn sent_key(e: KeyEvent) -> Option<KeyCode> {
    forwarded_key(HookPhase::Installed, e.hook_code, e.message, e.vk_code)
}

/// Whether `e`, seen by an installed hook, runs a callback when the keys in
/// `registered` have callbacks.
pub open spec fn runs_callback(registered: Set<KeyCode>, e: KeyEvent) -> bool {
    callback_key(registered, HookPhase::Installed, e).is_some()
}

/// The key whose callback runs when a hook in `phase` sees `e` and the keys
/// in `registered` have callbacks: the key the hook sends on, where it has a
/// callback.
pub open spec fn callback_key(registered: Set<KeyCode>, phase: HookPhase, e: KeyEvent) -> Option<
    KeyCode,
> {
    match forwarded_key(phase, e.hook_code, e.message, e.vk_code) {
        Some(key) => if registered.contains(key) {
            Some(key)
        } else {
            None
        },
        None => None,
    }
}

/// The keys whose callbacks run, in order, when an installed hook sees
/// `events` and the keys in `registered` have callbacks. Each event adds
/// what `handle_event` finds for it; the running service does the same two
/// steps on two threads (`forward_key` on the hook thread, then
/// `Registry::callback_for` on the dispatch thread, in the order the keys
/// were sent).
pub open spec fn invoked(registered: Set<KeyCode>, events: Seq<KeyEvent>) -> Seq<KeyCode>
    decreases events.len(),
{
    if events.len() == 0 {
        Seq::empty()
    } else {
        let earlier = invoked(registered, events.drop_last());
        match callback_key(registered, HookPhase::Installed, events.last()) {
            Some(key) => earlier.push(key),
            None => earlier,
        }
    }
}

/// One dispatch step: the callback to run for the keyboard event `e` seen by
/// a hook in `phase`, to be invoked in place; `None` where the event runs no
/// callback. Only that callback can change through the reference.
pub fn handle_event<C>(registry: &mut Registry<C>, phase: HookPhase, e: KeyEvent) -> (r: Option<
    &mut C,
>)
    ensures
        r.is_some() == callback_key(old(registry)@.dom(), phase, e).is_some(),
        final(registry)@.dom() == old(registry)@.dom(),
        match r {
            Some(c) => {
                let key = callback_key(old(registry)@.dom(), phase, e).unwrap();
                &&& *c == old(registry)@[key]
                &&& final(registry)@ == old(registry)@.insert(key, *final(c))
            },
            None => final(registry)@ == old(registry)@,
        },
{
    match forward_key(phase, e.hook_code, e.message, e.vk_code) {
        Some(key) => registry.callback_for(key),
        None => None,
    }
}

/// Handling one more event extends the keys whose callbacks ran by exactly
/// the key that `handle_event` finds for it, if any.
pub proof fn lemma_handled_event_extends_invoked(
    registered: Set<KeyCode>,
    events: Seq<KeyEvent>,
    e: KeyEvent,
)
    ensures
        invoked(registered, events.push(e)) == invoked(registered, events) + match callback_key(
            registered,
            HookPhase::Installed,
            e,
        ) {
            Some(key) => seq![key],
            None => Seq::<KeyCode>::empty(),
        },
{
    assert(events.push(e).drop_last() =~= events);
    assert(events.push(e).last() == e);
    if let Some(key) = callback_key(registered, HookPhase::Installed, e) {
        assert(invoked(registered, events).push(key) =~= invoked(registered, events) + seq![key]);
    } else {
        assert(invoked(registered, events) + Seq::<KeyCode>::empty() =~= invoked(registered, events));
    }
}

/// How often `key` occurs in `keys`.
pub open spec fn occurrences(keys: Seq<KeyCode>, key: KeyCode) -> nat
    decreases keys.len(),
{
    if keys.len() == 0 {
        0
    } else {
        occurrences(keys.drop_last(), key) + if keys.last() == key {
            1nat
        } else {
            0nat
        }
    }
}

/// How many of `events` are presses of `key` that the hook sends on.
pub open spec fn presses(events: Seq<KeyEvent>, key: KeyCode) -> nat
    decreases events.len(),
{
    if events.len() == 0 {
        0
    } else {
        presses(events.drop_last(), key) + if sent_key(events.last()) == Some(key) {
            1nat
        } else {
            0nat
        }
    }
}

/// Callbacks run in the order of their events: those of a first stretch of
/// events all come, and complete, before those of a later stretch.
pub proof fn lemma_invoked_in_event_order(
    registered: Set<KeyCode>,
    first: Seq<KeyEvent>,
    second: Seq<KeyEvent>,
)
    ensures
        invoked(registered, first + second) == invoked(registered, first) + invoked(
            registered,
            second,
        ),
    decreases second.len(),
{
    if second.len() == 0 {
        assert(first + second =~= first);
        assert(invoked(registered, first) + invoked(registered, second) =~= invoked(
            registered,
            first,
        ));
    } else {
        assert((first + second).drop_last() =~= first + second.drop_last());
        assert((first + second).last() == second.last());
        lemma_invoked_in_event_order(registered, first, second.drop_last());
        let a = invoked(registered, first);
        let b = invoked(registered, second.drop_last());
        if let Some(key) = callback_key(registered, HookPhase::Installed, second.last()) {
            assert((a + b).push(key) =~= a + b.push(key));
        }
    }
}

/// A registered key's callback runs exactly once for each press of that key
/// that the hook sees; an unregistered key's never runs.
pub proof fn lemma_one_call_per_press(registered: Set<KeyCode>, events: Seq<KeyEvent>, key: KeyCode)
    ensures
        registered.contains(key) ==> occurrences(invoked(registered, events), key) == presses(
            events,
            key,
        ),
        !registered.contains(key) ==> occurrences(invoked(registered, events), key) == 0,
    decreases events.len(),
{
    if events.len() > 0 {
        lemma_one_call_per_press(registered, events.drop_last(), key);
        let earlier = invoked(registered, events.drop_last());
        assert(earlier.push(key).drop_last() =~= earlier);
        if let Some(k) = sent_key(events.last()) {
            assert(earlier.push(k).drop_last() =~= earlier);
        }
    }
}

/// Where every event is a press of a registered key, each event runs its
/// key's callback once, in the order of the events.
pub proof fn lemma_presses_of_registered_keys(registered: Set<KeyCode>, events: Seq<KeyEvent>)
    requires
        forall|i: int| 0 <= i < events.len() ==> #[trigger] runs_callback(registered, events[i]),
    ensures
        invoked(registered, events).len() == events.len(),
        forall|i: int|
            0 <= i < events.len() ==> sent_key(events[i]) == Some(
                #[trigger] invoked(registered, events)[i],
            ),
    decreases events.len(),
{
    if events.len() > 0 {
        let rest = events.drop_last();
        assert forall|i: int| 0 <= i < rest.len() implies #[trigger] runs_callback(registered, rest[i]) by {
            assert(rest[i] == events[i]);
        }
        lemma_presses_of_registered_keys(registered, rest);
        assert(runs_callback(registered, events[events.len() - 1]));
        assert forall|i: int| 0 <= i < events.len() implies sent_key(events[i]) == Some(
            #[trigger] invoked(registered, events)[i],
        ) by {
            if i < events.len() - 1 {
                assert(rest[i] == events[i]);
                assert(invoked(registered, events)[i] == invoked(registered, rest)[i]);
            }
        }
    }
}

/// A key release, an event the hook does not send on, or a press of a key
/// without a callback invokes nothing, wherever it stands among other events.
pub proof fn lemma_ignored_event_invokes_nothing(
    registered: Set<KeyCode>,
    before: Seq<KeyEvent>,
    e: KeyEvent,
    after: Seq<KeyEvent>,
)
    requires
        !runs_callback(registered, e),
    ensures
        invoked(registered, seq![e]) == Seq::<KeyCode>::empty(),
        invoked(registered, before + seq![e] + after) == invoked(registered, before + after),
{
    assert(seq![e].drop_last() =~= Seq::<KeyEvent>::empty());
    assert(seq![e].last() == e);
    assert(invoked(registered, seq![e].drop_last()) == Seq::<KeyCode>::empty());
    assert(invoked(registered, seq![e]) =~= Seq::<KeyCode>::empty());
    lemma_invoked_in_event_order(registered, before, seq![e]);
    lemma_invoked_in_event_order(registered, before + seq![e], after);
    lemma_invoked_in_event_order(registered, before, after);
    assert(invoked(registered, before) + Seq::<KeyCode>::empty() =~= invoked(registered, before));
}

} // verus!
