use vstd::prelude::*;
use std::collections::HashMap;
use std::collections::hash_map::Entry;
use crate::error::Error;
use crate::key_code::{KeyCode, native_code, lemma_native_code_injective};

verus! {

broadcast use vstd::std_specs::hash::group_hash_axioms;

/// The registry after `register(key, callback)` on a registry holding `m`,
/// and what the call returns.
pub open spec fn register_outcome<C>(m: Map<KeyCode, C>, key: KeyCode, callback: C) -> (
    Map<KeyCode, C>,
    Result<(), Error>,
) {
    if m.contains_key(key) {
        (m, Err(Error::AlreadyRegistered))
    } else {
        (m.insert(key, callback), Ok(()))
    }
}

/// The registry after `unregister(key)` on a registry holding `m`, and what
/// the call returns.
pub open spec fn unregister_outcome<C>(m: Map<KeyCode, C>, key: KeyCode) -> (
    Map<KeyCode, C>,
    Result<(), Error>,
) {
    if m.contains_key(key) {
        (m.remove(key), Ok(()))
    } else {
        (m, Err(Error::NotRegistered))
    }
}

/// Callbacks keyed by the key that triggers them, at most one per key.
pub struct Registry<C> {
    entries: HashMap<u8, C>,
}

impl<C> View for Registry<C> {
    type V = Map<KeyCode, C>;

    closed spec fn view(&self) -> Map<KeyCode, C> {
        Map::new(
            |k: KeyCode| self.entries@.contains_key(native_code(k)),
            |k: KeyCode| self.entries@[native_code(k)],
        )
    }
}

impl<C> Registry<C> {
    proof fn lemma_view_insert(old_entries: Map<u8, C>, key: KeyCode, callback: C)
        ensures
            Map::new(
                |k: KeyCode| old_entries.insert(native_code(key), callback).contains_key(native_code(k)),
                |k: KeyCode| old_entries.insert(native_code(key), callback)[native_code(k)],
            ) =~= Map::new(
                |k: KeyCode| old_entries.contains_key(native_code(k)),
                |k: KeyCode| old_entries[native_code(k)],
            ).insert(key, callback),
    {
        assert forall|k: KeyCode| k != key implies native_code(k) != native_code(key) by {
            lemma_native_code_injective(k, key);
        }
    }

    proof fn lemma_view_remove(old_entries: Map<u8, C>, key: KeyCode)
        ensures
            Map::new(
                |k: KeyCode| old_entries.remove(native_code(key)).contains_key(native_code(k)),
                |k: KeyCode| old_entries.remove(native_code(key))[native_code(k)],
            ) =~= Map::new(
                |k: KeyCode| old_entries.contains_key(native_code(k)),
                |k: KeyCode| old_entries[native_code(k)],
            ).remove(key),
    {
        assert forall|k: KeyCode| k != key implies native_code(k) != native_code(key) by {
            lemma_native_code_injective(k, key);
        }
    }

    /// An empty registry.
    pub fn new() -> (r: Registry<C>)
        ensures
            r@ == Map::<KeyCode, C>::empty(),
    {
        let r = Registry { entries: HashMap::new() };
        assert(r@ =~= Map::<KeyCode, C>::empty());
        r
    }

    /// Whether `key` has a callback.
    pub fn is_registered(&self, key: KeyCode) -> (r: bool)
        ensures
            r == self@.contains_key(key),
    {
        let code = key.to_native_code();
        self.entries.contains_key(&code)
    }

    /// Gives `key` the callback `callback`, unless it already has one: then
    /// fails with `AlreadyRegistered` and keeps the callback it had.
    pub fn register(&mut self, key: KeyCode, callback: C) -> (r: Result<(), Error>)
        ensures
            (final(self)@, r) == register_outcome(old(self)@, key, callback),
    {
        let code = key.to_native_code();
        if self.entries.contains_key(&code) {
            Err(Error::AlreadyRegistered)
        } else {
            proof {
                Self::lemma_view_insert(self.entries@, key, callback);
            }
            self.entries.insert(code, callback);
            Ok(())
        }
    }

    /// Removes the callback of `key`, or fails with `NotRegistered` and
    /// changes nothing where it has none.
    pub fn unregister(&mut self, key: KeyCode) -> (r: Result<(), Error>)
        ensures
            (final(self)@, r) == unregister_outcome(old(self)@, key),
    {
        let code = key.to_native_code();
        proof {
            Self::lemma_view_remove(self.entries@, key);
        }
        match self.entries.remove(&code) {
            Some(_) => Ok(()),
            None => Err(Error::NotRegistered),
        }
    }

    /// The callback of `key`, to be invoked in place; `None` where `key` has
    /// none. Only the callback itself can change through the reference.
    pub fn callback_for(&mut self, key: KeyCode) -> (r: Option<&mut C>)
        ensures
            r.is_some() == old(self)@.contains_key(key),
            final(self)@.dom() == old(self)@.dom(),
            match r {
                Some(c) => *c == old(self)@[key] && final(self)@ == old(self)@.insert(key, *final(c)),
                None => final(self)@ == old(self)@,
            },
    {
        let code = key.to_native_code();
        if !self.entries.contains_key(&code) {
            return None;
        }
        match self.entries.entry(code) {
            Entry::Occupied(o) => Some(o.into_mut()),
            Entry::Vacant(_) => None,
        }
    }
}

/// Registering a key a second time fails with `AlreadyRegistered`, leaves
/// the registry as the first call left it, and keeps the callback the key
/// had after the first call.
pub proof fn lemma_register_twice<C>(m: Map<KeyCode, C>, key: KeyCode, first: C, second: C)
    ensures
        ({
            let (m1, r1) = register_outcome(m, key, first);
            let (m2, r2) = register_outcome(m1, key, second);
            &&& r2 == Err::<(), Error>(Error::AlreadyRegistered)
            &&& m2 == m1
            &&& m2.contains_key(key)
            &&& !m.contains_key(key) ==> r1 == Ok::<(), Error>(()) && m2[key] == first
        }),
{
}

/// Unregistering a key without a callback fails with `NotRegistered` and
/// changes nothing.
pub proof fn lemma_unregister_absent<C>(m: Map<KeyCode, C>, key: KeyCode)
    requires
        !m.contains_key(key),
    ensures
        unregister_outcome(m, key) == (m, Err::<(), Error>(Error::NotRegistered)),
{
}

/// A key that was just unregistered can be registered again at once.
pub proof fn lemma_register_after_unregister<C>(m: Map<KeyCode, C>, key: KeyCode, callback: C)
    requires
        m.contains_key(key),
    ensures
        ({
            let (m1, r1) = unregister_outcome(m, key);
            let (m2, r2) = register_outcome(m1, key, callback);
            &&& r1 == Ok::<(), Error>(())
            &&& r2 == Ok::<(), Error>(())
            &&& m2 == m.insert(key, callback)
        }),
{
    let m1 = m.remove(key);
    assert(m1.insert(key, callback) =~= m.insert(key, callback));
}

} // verus!
