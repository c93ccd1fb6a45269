//! The store of what has been built and measured, the keys under which it
//! is found again, and entries on their way into it.

use crate::error::{outcome_view, Error, ErrorView, Failure, FailureView};
use crate::plan::{opt_text, opt_text_clone, opt_text_matches, RunPlan, RunPlanView};
use crate::table::{Key, Table};
use vstd::prelude::*;

verus! {

/// The model of a [`BuildKey`].
pub struct BuildKeyView {
    pub plan: RunPlanView,
}

/// The key under which the hash of the binary of `plan` is stored. It is
/// made of the whole plan: structurally identical plans have the same key,
/// and no others.
pub open spec fn build_key(plan: RunPlanView) -> BuildKeyView {
    BuildKeyView { plan }
}

/// The key under which the hash of a plan's binary is stored.
#[derive(Debug, PartialEq, Eq)]
pub struct BuildKey {
    plan: RunPlan,
}

impl View for BuildKey {
    type V = BuildKeyView;

    closed spec fn view(&self) -> BuildKeyView {
        BuildKeyView { plan: self.plan@ }
    }
}

impl BuildKey {
    /// The key of `plan`.
    pub fn new(plan: &RunPlan) -> (key: BuildKey)
        ensures
            key@ == build_key(plan@),
    {
        BuildKey { plan: plan.clone() }
    }

    /// The plan that the key was made of.
    pub fn plan(&self) -> (plan: &RunPlan)
        ensures
            plan@ == self@.plan,
    {
        &self.plan
    }
}

impl Clone for BuildKey {
    fn clone(&self) -> (copy: Self)
        ensures
            copy@ == self@,
    {
        BuildKey { plan: self.plan.clone() }
    }
}

impl Key for BuildKey {
    fn matches(&self, other: &Self) -> (same: bool) {
        self.plan.matches(&other.plan)
    }
}

/// The model of a [`MeasurementKey`].
pub struct MeasurementKeyView {
    pub binary_hash: Seq<u8>,
    pub runner: Option<Seq<char>>,
    pub shield: Option<Seq<char>>,
}

/// The key under which a binary's measurement is stored: the hash of the
/// binary, and the environment in which it is executed. The toolchain that
/// built the binary is no part of it.
#[derive(Debug, PartialEq, Eq)]
pub struct MeasurementKey {
    binary_hash: Vec<u8>,
    runner: Option<String>,
    shield: Option<String>,
}

impl View for MeasurementKey {
    type V = MeasurementKeyView;

    closed spec fn view(&self) -> MeasurementKeyView {
        MeasurementKeyView {
            binary_hash: self.binary_hash@,
            runner: opt_text(self.runner),
            shield: opt_text(self.shield),
        }
    }
}

/// A copy of a byte string.
pub fn bytes_clone(bytes: &Vec<u8>) -> (copy: Vec<u8>)
    ensures
        copy@ == bytes@,
{
    let mut copy: Vec<u8> = Vec::new();
    let mut i: usize = 0;
    while i < bytes.len()
        invariant
            i <= bytes.len(),
            copy@ == bytes@.take(i as int),
        decreases bytes.len() - i,
    {
        copy.push(bytes[i]);
        i += 1;
    }
    copy
}

/// Whether two byte strings hold the same bytes.
pub fn bytes_match(a: &Vec<u8>, b: &Vec<u8>) -> (same: bool)
    ensures
        same == (a@ == b@),
{
    if a.len() != b.len() {
        return false;
    }
    let mut i: usize = 0;
    while i < a.len()
        invariant
            i <= a.len(),
            a.len() == b.len(),
            a@.take(i as int) == b@.take(i as int),
        decreases a.len() - i,
    {
        if a[i] != b[i] {
            return false;
        }
        i += 1;
    }
    assert(a@.take(a.len() as int) =~= a@);
    assert(b@.take(b.len() as int) =~= b@);
    true
}

impl MeasurementKey {
    /// The key of the measurement of the binary with hash `binary_hash` on
    /// `runner` under `shield`.
    pub fn new(binary_hash: Vec<u8>, runner: Option<String>, shield: Option<String>) -> (key:
        MeasurementKey)
        ensures
            key@ == (MeasurementKeyView {
                binary_hash: binary_hash@,
                runner: opt_text(runner),
                shield: opt_text(shield),
            }),
    {
        MeasurementKey { binary_hash, runner, shield }
    }

    /// The hash of the binary that is measured.
    pub fn binary_hash(&self) -> (hash: &Vec<u8>)
        ensures
            hash@ == self@.binary_hash,
    {
        &self.binary_hash
    }

    /// The runner that executes the binary.
    pub fn runner(&self) -> (runner: &Option<String>)
        ensures
            opt_text(*runner) == self@.runner,
    {
        &self.runner
    }

    /// The shield under which the binary is executed.
    pub fn shield(&self) -> (shield: &Option<String>)
        ensures
            opt_text(*shield) == self@.shield,
    {
        &self.shield
    }
}

impl Clone for MeasurementKey {
    fn clone(&self) -> (copy: Self)
        ensures
            copy@ == self@,
    {
        MeasurementKey {
            binary_hash: bytes_clone(&self.binary_hash),
            runner: opt_text_clone(&self.runner),
            shield: opt_text_clone(&self.shield),
        }
    }
}

impl Key for MeasurementKey {
    fn matches(&self, other: &Self) -> (same: bool) {
        bytes_match(&self.binary_hash, &other.binary_hash) && opt_text_matches(
            &self.runner,
            &other.runner,
        ) && opt_text_matches(&self.shield, &other.shield)
    }
}

/// The model of a [`Store`]: where it is, and the outcome recorded under
/// each key.
#[verifier::reject_recursive_types(K)]
pub struct StoreView<K, V> {
    pub location: Seq<char>,
    pub records: Map<K, Result<V, ErrorView>>,
}

impl<K, V> StoreView<K, V> {
    /// The store at `location` that holds nothing.
    pub open spec fn empty(location: Seq<char>) -> Self {
        StoreView { location, records: Map::empty() }
    }

    /// The outcome recorded under `key`, a value or a failure.
    pub open spec fn found(self, key: K) -> Option<Result<V, ErrorView>> {
        if self.records.contains_key(key) {
            Some(self.records[key])
        } else {
            None
        }
    }

    /// The value recorded under `key`. A recorded failure is no value: what
    /// failed is not done.
    pub open spec fn value(self, key: K) -> Option<V> {
        match self.found(key) {
            Some(Ok(value)) => Some(value),
            _ => None,
        }
    }

    /// The store after `outcome` has been written under `key`.
    pub open spec fn with(self, key: K, outcome: Result<V, ErrorView>) -> Self {
        StoreView { location: self.location, records: self.records.insert(key, outcome) }
    }
}

/// A store of outcomes by key, standing for one directory of persisted
/// records. Reading it changes nothing, and the only way to write to it is
/// [`Entry::ensure_persisted`].
#[derive(Debug)]
pub struct Store<K: Key, V: View> {
    location: String,
    records: Table<K, Result<V, Error>>,
}

impl<K: Key, V: View> View for Store<K, V> {
    type V = StoreView<K::V, V::V>;

    closed spec fn view(&self) -> StoreView<K::V, V::V> {
        StoreView {
            location: self.location@,
            records: self.records@.map_values(|outcome: Result<V, Error>| outcome_view(outcome)),
        }
    }
}

impl<K: Key, V: View> Store<K, V> {
    /// The store at `location` that holds nothing yet.
    pub fn new(location: String) -> (store: Self)
        ensures
            store@ == StoreView::<K::V, V::V>::empty(location@),
    {
        let store = Store { location, records: Table::new() };
        assert(store@.records =~= Map::empty());
        store
    }

    /// Where the store is.
    pub fn location(&self) -> (location: &String)
        ensures
            location@ == self@.location,
    {
        &self.location
    }

    /// The outcome recorded under `key`, if there is one.
    pub fn get(&self, key: &K) -> (found: Option<&Result<V, Error>>)
        ensures
            (match found {
                Some(outcome) => Some(outcome_view(*outcome)),
                None => None,
            }) == self@.found(key@),
    {
        self.records.get(key)
    }

    /// How many records the store holds.
    pub fn len(&self) -> (len: usize)
        ensures
            len == self.spec_len(),
            self@.records.dom().finite(),
            len == self@.records.dom().len(),
    {
        assert(self@.records.dom() =~= self.records@.dom());
        self.records.len()
    }

    /// How many records the store holds.
    pub closed spec fn spec_len(&self) -> nat {
        self.records.spec_len()
    }

    /// The record at position `i`, with its key; `None` where the store has
    /// no such position.
    pub fn record_at(&self, i: usize) -> (record: Option<(&K, &Result<V, Error>)>)
        ensures
            record is Some <==> i < self.spec_len(),
            record matches Some((key, outcome)) ==> self@.found(key@) == Some(
                outcome_view(*outcome),
            ),
    {
        self.records.entry_at(i)
    }

    fn set(&mut self, key: K, outcome: Result<V, Error>)
        ensures
            final(self)@ == old(self)@.with(key@, outcome_view(outcome)),
    {
        self.records.insert(key, outcome);
        assert(self@.records =~= old(self)@.records.insert(key@, outcome_view(outcome)));
    }
}

/// The model of an [`Entry`].
pub enum EntryView<K, V> {
    Existing(V),
    New(K, Result<V, ErrorView>, Seq<char>),
}

impl<K, V> EntryView<K, V> {
    /// The value that the entry holds; none where the entry wraps a failure.
    pub open spec fn value(self) -> Option<V> {
        match self {
            EntryView::Existing(value) => Some(value),
            EntryView::New(_, Ok(value), _) => Some(value),
            EntryView::New(_, Err(_), _) => None,
        }
    }
}

/// Why an entry is not written to a store at another location than its own.
pub open spec fn wrong_location() -> Seq<char> {
    "the entry belongs to another location than the store"@
}

/// What persisting `entry` makes of `store`, and how it ends. An existing
/// entry changes nothing. A new entry is written under its key, whether it
/// holds a value or a failure, and a failure that it holds is handed on. It is
/// written to the store at its own location only.
pub open spec fn persisted<K, V>(store: StoreView<K, V>, entry: EntryView<K, V>) -> (
    StoreView<K, V>,
    Result<(), FailureView>,
) {
    match entry {
        EntryView::Existing(_) => (store, Ok(())),
        EntryView::New(key, outcome, location) => if location != store.location {
            (store, Err(FailureView::Storage(wrong_location())))
        } else {
            (
                store.with(key, outcome),
                match outcome {
                    Ok(_) => Ok(()),
                    Err(error) => Err(FailureView::Measurement(error)),
                },
            )
        },
    }
}

/// A value that is either in the store already, or has just been computed,
/// well or not, and is not stored yet.
#[derive(Debug)]
pub enum Entry<K, V> {
    /// The value was found in the store: there is nothing to persist.
    Existing(V),
    /// The outcome of computing the value, the key to store it under, and the
    /// location of the store it is meant for.
    New(K, Result<V, Error>, String),
}

impl<K: View, V: View> View for Entry<K, V> {
    type V = EntryView<K::V, V::V>;

    open spec fn view(&self) -> EntryView<K::V, V::V> {
        match self {
            Entry::Existing(value) => EntryView::Existing(value@),
            Entry::New(key, outcome, location) => EntryView::New(
                key@,
                outcome_view(*outcome),
                location@,
            ),
        }
    }
}

impl<K: Key, V: View> Entry<K, V> {
    /// The value that the entry holds; none where the entry wraps a failure.
    pub fn value(&self) -> (value: Option<&V>)
        ensures
            (match value {
                Some(v) => Some(v@),
                None => None,
            }) == self@.value(),
    {
        match self {
            Entry::Existing(value) => Some(value),
            Entry::New(_, Ok(value), _) => Some(value),
            Entry::New(_, Err(_), _) => None,
        }
    }

    /// Makes sure that the entry is in `store`: see [`persisted`].
    pub fn ensure_persisted(self, store: &mut Store<K, V>) -> (end: Result<(), Failure>)
        ensures
            (final(store)@, crate::error::end_view(end)) == persisted(old(store)@, self@),
    {
        match self {
            Entry::Existing(_) => Ok(()),
            Entry::New(key, outcome, location) => {
                if location != *store.location() {
                    return Err(
                        Failure::Storage(
                            "the entry belongs to another location than the store".to_owned(),
                        ),
                    );
                }
                let end = match &outcome {
                    Ok(_) => Ok(()),
                    Err(error) => Err(Failure::Measurement(error.clone())),
                };
                store.set(key, outcome);
                end
            },
        }
    }
}

} // verus!
