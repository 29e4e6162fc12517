//! The persistence capability boundary: a one-method contract for accepting a
//! single piece of secret key material, so that the generation logic never
//! depends on a concrete storage technology. Three equivalent shapes satisfy
//! it: an object that accepts one item, an inline function value, and a keyed
//! store that adapts down by fixing the storage key.

use crate::sampling::{KeyV, SecretKeyMaterial};
use vstd::prelude::*;

verus! {

/// The fixed storage key used when the capability is a keyed store rather
/// than a single-item acceptor.
pub const STORAGE_KEY: &'static str = "secret_key";

/// The storage capability failed. Propagated verbatim to the caller of the
/// generation routine; never retried, never interpreted. Carries text only:
/// key material is never embedded in an error.
#[derive(Debug)]
pub struct PersistError {
    message: String,
}

impl View for PersistError {
    type V = Seq<char>;

    closed spec fn view(&self) -> Seq<char> {
        self.message@
    }
}

impl PersistError {
    /// Wraps a storage failure's reason.
    pub fn new(message: String) -> (r: PersistError)
        ensures
            r@ == message@,
    {
        PersistError { message }
    }

    /// The storage failure's reason, as text.
    pub fn message(&self) -> (r: &String)
        ensures
            r@ == self@,
    {
        &self.message
    }
}

/// The narrowest storage contract the generation routine needs: accept one
/// item of key material, fallibly, reporting failure to the caller rather
/// than silently. `accepted()` is the observable history of the capability:
/// the items it has taken responsibility for, in order. Acceptance must
/// record exactly the item handed over — no extra, no missing invocations —
/// and a failed call must leave the history unchanged.
pub trait PersistenceCapability: Sized {
    /// What a caller must know before handing an item over; concrete
    /// backends that accept anything define this as `true`.
    spec fn wf(&self) -> bool;

    /// The items this capability has accepted so far, in order.
    spec fn accepted(&self) -> Seq<KeyV>;

    /// Whether this capability promises to accept every item.
    spec fn always_accepts(&self) -> bool;

    /// Whether this capability is configured to fail every acceptance.
    spec fn always_fails(&self) -> bool;

    /// The reason a capability configured to fail reports; meaningful only
    /// where `always_fails()` holds.
    spec fn failure_reason(&self) -> Seq<char>;

    /// Accepts one item of key material, or reports why it could not.
    fn accept(&mut self, item: SecretKeyMaterial) -> (r: Result<(), PersistError>)
        requires
            old(self).wf(),
        ensures
            final(self).wf(),
            r is Ok ==> final(self).accepted() == old(self).accepted().push(item@),
            r is Err ==> final(self).accepted() == old(self).accepted(),
            final(self).always_accepts() == old(self).always_accepts(),
            final(self).always_fails() == old(self).always_fails(),
            final(self).failure_reason() == old(self).failure_reason(),
            old(self).always_accepts() ==> r is Ok,
            old(self).always_fails() ==> r is Err && r->Err_0@ == old(self).failure_reason(),
    ;
}

/// The single-accept-object shape: an in-memory sink that takes every item
/// handed to it and keeps them in order of arrival.
pub struct KeySink {
    items: Vec<SecretKeyMaterial>,
}

impl KeySink {
    /// An empty sink.
    pub fn new() -> (r: KeySink)
        ensures
            r.accepted() == Seq::<KeyV>::empty(),
    {
        KeySink { items: Vec::new() }
    }

    /// How many items the sink has accepted.
    pub fn len(&self) -> (r: usize)
        ensures
            r == self.accepted().len(),
    {
        self.items.len()
    }

    /// The item accepted at a position.
    pub fn get(&self, i: usize) -> (r: &SecretKeyMaterial)
        requires
            i < self.accepted().len(),
        ensures
            r@ == self.accepted()[i as int],
    {
        &self.items[i]
    }
}

impl PersistenceCapability for KeySink {
    open spec fn wf(&self) -> bool {
        true
    }

    closed spec fn accepted(&self) -> Seq<KeyV> {
        self.items@.map_values(|k: SecretKeyMaterial| k@)
    }

    open spec fn always_accepts(&self) -> bool {
        true
    }

    open spec fn always_fails(&self) -> bool {
        false
    }

    open spec fn failure_reason(&self) -> Seq<char> {
        Seq::empty()
    }

    fn accept(&mut self, item: SecretKeyMaterial) -> (r: Result<(), PersistError>) {
        let ghost pre = self.items@;
        self.items.push(item);
        proof {
            assert(self.accepted() =~= pre.map_values(|k: SecretKeyMaterial| k@).push(item@));
        }
        Ok(())
    }
}

/// The inline-function shape: a capability built from a caller-supplied
/// function value that decides each acceptance. The adapter records the
/// history of items the function took, so the shape meets the same contract
/// as the object shapes.
pub struct FnCapability<F: Fn(SecretKeyMaterial) -> Result<(), PersistError>> {
    action: F,
    log: Ghost<Seq<KeyV>>,
}

impl<F: Fn(SecretKeyMaterial) -> Result<(), PersistError>> FnCapability<F> {
    /// The outcomes the wrapped function value itself can report for an item.
    pub closed spec fn action_reports(
        &self,
        item: SecretKeyMaterial,
        y: Result<(), PersistError>,
    ) -> bool {
        call_ensures(self.action, (item,), y)
    }

    /// Wraps a function value as a persistence capability. The function must
    /// take any item of key material.
    pub fn new(action: F) -> (r: FnCapability<F>)
        requires
            forall|k: SecretKeyMaterial| call_requires(action, (k,)),
        ensures
            r.wf(),
            r.accepted() == Seq::<KeyV>::empty(),
    {
        FnCapability { action, log: Ghost(Seq::empty()) }
    }
}

impl<F: Fn(SecretKeyMaterial) -> Result<(), PersistError>> PersistenceCapability for FnCapability<
    F,
> {
    closed spec fn wf(&self) -> bool {
        forall|k: SecretKeyMaterial| call_requires(self.action, (k,))
    }

    closed spec fn accepted(&self) -> Seq<KeyV> {
        self.log@
    }

    open spec fn always_accepts(&self) -> bool {
        false
    }

    open spec fn always_fails(&self) -> bool {
        false
    }

    open spec fn failure_reason(&self) -> Seq<char> {
        Seq::empty()
    }

    fn accept(&mut self, item: SecretKeyMaterial) -> (r: Result<(), PersistError>)
        ensures
            old(self).action_reports(item, r),
            forall|k: SecretKeyMaterial, y: Result<(), PersistError>|
                final(self).action_reports(k, y) == old(self).action_reports(k, y),
    {
        let ghost entry = item@;
        let outcome = (self.action)(item);
        if outcome.is_ok() {
            proof {
                self.log@ = self.log@.push(entry);
            }
        }
        outcome
    }
}

/// The contents a sequence of keyed entries denotes: later entries for the
/// same key win, as if each had been written in turn.
pub closed spec fn map_of(entries: Seq<(String, SecretKeyMaterial)>) -> Map<Seq<char>, KeyV>
    decreases entries.len(),
{
    if entries.len() == 0 {
        Map::empty()
    } else {
        map_of(entries.drop_last()).insert(entries.last().0@, entries.last().1@)
    }
}

/// The keyed-store shape: an in-memory map from textual keys to key material,
/// a superset capability that adapts down to the single-accept contract by
/// fixing the key [`STORAGE_KEY`].
pub struct KeyedStore {
    entries: Vec<(String, SecretKeyMaterial)>,
    log: Ghost<Seq<KeyV>>,
}

impl KeyedStore {
    /// The map this store currently holds.
    pub closed spec fn contents(&self) -> Map<Seq<char>, KeyV> {
        map_of(self.entries@)
    }

    /// An empty store.
    pub fn new() -> (r: KeyedStore)
        ensures
            r.accepted() == Seq::<KeyV>::empty(),
            r.contents() == Map::<Seq<char>, KeyV>::empty(),
    {
        KeyedStore { entries: Vec::new(), log: Ghost(Seq::empty()) }
    }

    /// Stores a value under a key, replacing what the key held before.
    pub fn set(&mut self, key: String, value: SecretKeyMaterial) -> (r: Result<(), PersistError>)
        ensures
            r is Ok,
            final(self).contents() == old(self).contents().insert(key@, value@),
            final(self).accepted() == old(self).accepted().push(value@),
    {
        let ghost k = key@;
        let ghost v = value@;
        let ghost pre = self.entries@;
        self.entries.push((key, value));
        proof {
            self.log@ = self.log@.push(v);
            assert(self.entries@.drop_last() =~= pre);
            assert(self.entries@.last().0@ == k && self.entries@.last().1@ == v);
        }
        Ok(())
    }

    /// Looks a key up: the value the key holds, or nothing if the key was
    /// never set.
    pub fn get(&self, key: &String) -> (r: Option<&SecretKeyMaterial>)
        ensures
            match r {
                Some(found) => self.contents().contains_key(key@) && found@ == self.contents()[key@],
                None => !self.contents().contains_key(key@),
            },
    {
        let ghost all = self.entries@;
        let mut i: usize = self.entries.len();
        proof {
            assert(all.take(i as int) =~= all);
        }
        while i > 0
            invariant
                i <= self.entries.len(),
                all == self.entries@,
                map_of(all).contains_key(key@) == map_of(all.take(i as int)).contains_key(key@),
                map_of(all.take(i as int)).contains_key(key@) ==> map_of(all)[key@] == map_of(
                    all.take(i as int),
                )[key@],
            decreases i,
        {
            i = i - 1;
            proof {
                assert(all.take(i + 1).drop_last() =~= all.take(i as int));
                assert(all.take(i + 1).last() == all[i as int]);
                assert(map_of(all.take(i + 1)) == map_of(all.take(i as int)).insert(
                    all[i as int].0@,
                    all[i as int].1@,
                ));
            }
            let entry = &self.entries[i];
            if entry.0.eq(key) {
                proof {
                    assert(map_of(all.take(i + 1)).contains_key(key@));
                    assert(map_of(all.take(i + 1))[key@] == all[i as int].1@);
                }
                return Some(&entry.1);
            }
        }
        proof {
            assert(all.take(0) =~= Seq::<(String, SecretKeyMaterial)>::empty());
        }
        None
    }
}

impl PersistenceCapability for KeyedStore {
    open spec fn wf(&self) -> bool {
        true
    }

    closed spec fn accepted(&self) -> Seq<KeyV> {
        self.log@
    }

    open spec fn always_accepts(&self) -> bool {
        true
    }

    open spec fn always_fails(&self) -> bool {
        false
    }

    open spec fn failure_reason(&self) -> Seq<char> {
        Seq::empty()
    }

    fn accept(&mut self, item: SecretKeyMaterial) -> (r: Result<(), PersistError>)
        ensures
            final(self).contents() == old(self).contents().insert(STORAGE_KEY@, item@),
    {
        self.set(String::from_str(STORAGE_KEY), item)
    }
}

/// A capability configured to fail: every acceptance is refused with the
/// configured reason, and nothing is ever stored.
pub struct FailingCapability {
    message: String,
}

impl FailingCapability {
    /// A capability that refuses every item with the given reason.
    pub fn new(message: String) -> (r: FailingCapability)
        ensures
            r.accepted() == Seq::<KeyV>::empty(),
            r.always_fails(),
            r.failure_reason() == message@,
    {
        FailingCapability { message }
    }
}

impl PersistenceCapability for FailingCapability {
    open spec fn wf(&self) -> bool {
        true
    }

    open spec fn accepted(&self) -> Seq<KeyV> {
        Seq::empty()
    }

    open spec fn always_accepts(&self) -> bool {
        false
    }

    open spec fn always_fails(&self) -> bool {
        true
    }

    closed spec fn failure_reason(&self) -> Seq<char> {
        self.message@
    }

    fn accept(&mut self, item: SecretKeyMaterial) -> (r: Result<(), PersistError>) {
        Err(PersistError::new(self.message.clone()))
    }
}

} // verus!
