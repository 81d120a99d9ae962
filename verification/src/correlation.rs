use fnv::FnvHashMap;
use vstd::prelude::*;

verus! {

/// `fnv::FnvHasher`, the hasher of a `FnvHashMap`; nothing is said of it.
#[verifier::external_type_specification]
#[verifier::external_body]
pub struct ExFnvHasher(fnv::FnvHasher);

/// `std::hash::BuildHasherDefault`, which makes the hashers of a
/// `FnvHashMap`; nothing is said of it.
#[verifier::external_type_specification]
#[verifier::external_body]
#[verifier::reject_recursive_types(H)]
pub struct ExBuildHasherDefault<H>(std::hash::BuildHasherDefault<H>);

/// `FnvHashMap::default`: a map without entries. The contents of such a map
/// are what `std` documents for `HashMap`, here stated over the view that
/// vstd gives every `HashMap`.
#[verifier::external_body]
fn table_new<V>() -> (table: FnvHashMap<usize, V>)
    ensures
        table@ == (Map::<usize, V>::empty()),
{
    FnvHashMap::default()
}

/// `insert` of a `FnvHashMap`: the key holds the value afterwards, whatever
/// it held before; no other key changes.
#[verifier::external_body]
fn table_insert<V>(table: &mut FnvHashMap<usize, V>, key: usize, value: V)
    ensures
        final(table)@ == old(table)@.insert(key, value),
{
    table.insert(key, value);
}

/// `remove` of a `FnvHashMap`: the key holds nothing afterwards, and what it
/// held comes back; no other key changes.
#[verifier::external_body]
fn table_remove<V>(table: &mut FnvHashMap<usize, V>, key: usize) -> (removed: Option<V>)
    ensures
        final(table)@ == old(table)@.remove(key),
        removed == if old(table)@.contains_key(key) {
            Some(old(table)@[key])
        } else {
            None
        },
{
    table.remove(&key)
}

/// `clear` of a `FnvHashMap`: no entry is left.
#[verifier::external_body]
fn table_clear<V>(table: &mut FnvHashMap<usize, V>)
    ensures
        final(table)@ == (Map::<usize, V>::empty()),
{
    table.clear();
}

/// The key under which the completion of subscribe number `id` waits: odd.
pub open spec fn subscribe_key(id: u16) -> usize {
    (2 * id + 1) as usize
}

/// The key under which the completion of unsubscribe number `id` waits: even.
pub open spec fn unsubscribe_key(id: u16) -> usize {
    (2 * id) as usize
}

/// The identifier after `id`: one more, and 0 after the largest.
pub open spec fn next_id(id: u16) -> u16 {
    if id < u16::MAX {
        (id + 1) as u16
    } else {
        0
    }
}

/// The completions that wait for an acknowledgement, and the identifiers of
/// the next subscribe and unsubscribe.
pub struct CorrelationTable<C> {
    next_subscribe_id: u16,
    next_unsubscribe_id: u16,
    pending: FnvHashMap<usize, Option<C>>,
}

/// What a `CorrelationTable` stands for.
pub struct CorrelationView<C> {
    pub next_subscribe_id: u16,
    pub next_unsubscribe_id: u16,
    pub pending: Map<usize, Option<C>>,
}

impl<C> CorrelationView<C> {
    /// The table of a new client.
    pub open spec fn empty() -> Self {
        CorrelationView { next_subscribe_id: 0, next_unsubscribe_id: 0, pending: Map::empty() }
    }

    /// The table after a subscribe identifier was taken.
    pub open spec fn reserve_subscribe(self) -> Self {
        CorrelationView { next_subscribe_id: next_id(self.next_subscribe_id), ..self }
    }

    /// The table after an unsubscribe identifier was taken.
    pub open spec fn reserve_unsubscribe(self) -> Self {
        CorrelationView { next_unsubscribe_id: next_id(self.next_unsubscribe_id), ..self }
    }

    /// The table after a completion was stored under a key.
    pub open spec fn store(self, key: usize, callback: Option<C>) -> Self {
        CorrelationView { pending: self.pending.insert(key, callback), ..self }
    }

    /// The table after the completion under a key was taken out.
    pub open spec fn resolve(self, key: usize) -> Self {
        CorrelationView { pending: self.pending.remove(key), ..self }
    }

    /// The callback that waits under a key, if one does.
    pub open spec fn waiting(self, key: usize) -> Option<C> {
        if self.pending.contains_key(key) {
            self.pending[key]
        } else {
            None
        }
    }
}

impl<C> View for CorrelationTable<C> {
    type V = CorrelationView<C>;

    closed spec fn view(&self) -> CorrelationView<C> {
        CorrelationView {
            next_subscribe_id: self.next_subscribe_id,
            next_unsubscribe_id: self.next_unsubscribe_id,
            pending: self.pending@,
        }
    }
}

impl<C> CorrelationTable<C> {
    /// A table with nothing pending and both counters at 0.
    pub fn new() -> (table: Self)
        ensures
            table@ == CorrelationView::<C>::empty(),
    {
        CorrelationTable { next_subscribe_id: 0, next_unsubscribe_id: 0, pending: table_new() }
    }

    /// Takes the next subscribe identifier. Gives the identifier for the wire
    /// and the key for its completion.
    pub fn reserve_subscribe(&mut self) -> (reserved: (u16, usize))
        ensures
            reserved.0 == old(self)@.next_subscribe_id,
            reserved.1 == subscribe_key(reserved.0),
            final(self)@ == old(self)@.reserve_subscribe(),
    {
        let id = self.next_subscribe_id;
        self.next_subscribe_id = if id < u16::MAX { id + 1 } else { 0 };
        (id, 2 * (id as usize) + 1)
    }

    /// Takes the next unsubscribe identifier. Gives the identifier for the
    /// wire and the key for its completion.
    pub fn reserve_unsubscribe(&mut self) -> (reserved: (u16, usize))
        ensures
            reserved.0 == old(self)@.next_unsubscribe_id,
            reserved.1 == unsubscribe_key(reserved.0),
            final(self)@ == old(self)@.reserve_unsubscribe(),
    {
        let id = self.next_unsubscribe_id;
        self.next_unsubscribe_id = if id < u16::MAX { id + 1 } else { 0 };
        (id, 2 * (id as usize))
    }

    /// Stores a completion under a key, in place of what was there.
    pub fn store(&mut self, key: usize, callback: Option<C>)
        ensures
            final(self)@ == old(self)@.store(key, callback),
    {
        table_insert(&mut self.pending, key, callback);
    }

    /// Takes out what waits under a key, and gives the callback, if there is
    /// one. An unknown key changes nothing.
    pub fn resolve(&mut self, key: usize) -> (callback: Option<C>)
        ensures
            callback == old(self)@.waiting(key),
            final(self)@ == old(self)@.resolve(key),
    {
        match table_remove(&mut self.pending, key) {
            Some(callback) => callback,
            None => None,
        }
    }

    /// Forgets everything that waits and sets both counters to 0.
    pub fn clear(&mut self)
        ensures
            final(self)@ == CorrelationView::<C>::empty(),
    {
        self.next_subscribe_id = 0;
        self.next_unsubscribe_id = 0;
        table_clear(&mut self.pending);
    }
}

} // verus!
