//! Tables keyed by text.

use vstd::hash_map::StringHashMap;
use vstd::prelude::*;

verus! {

/// What is kept under each of finitely many texts.
#[verifier::reject_recursive_types(V)]
pub struct Table<V> {
    entries: StringHashMap<V>,
}

impl<V> View for Table<V> {
    type V = Map<Seq<char>, V>;

    closed spec fn view(&self) -> Map<Seq<char>, V> {
        self.entries@
    }
}

impl<V> Table<V> {
    #[verifier::type_invariant]
    spec fn bounded(self) -> bool {
        self@.dom().finite()
    }

    /// A table that keeps nothing.
    pub fn new() -> (table: Table<V>)
        ensures
            table@ == Map::<Seq<char>, V>::empty(),
    {
        Table { entries: StringHashMap::new() }
    }

    /// Keeps `value` under `key`.
    pub fn insert(&mut self, key: &str, value: V)
        ensures
            final(self)@ == old(self)@.insert(key@, value),
            old(self)@.dom().finite(),
    {
        proof {
            use_type_invariant(&*self);
        }
        let ghost before = self@;
        let mut entries: StringHashMap<V> = StringHashMap::new();
        std::mem::swap(&mut entries, &mut self.entries);
        entries.insert(key.to_string(), value);
        assert(entries@.dom() =~= before.dom().insert(key@));
        self.entries = entries;
    }

    /// Keeps nothing under `key` any more.
    pub fn remove(&mut self, key: &str)
        ensures
            final(self)@ == old(self)@.remove(key@),
            old(self)@.dom().finite(),
    {
        proof {
            use_type_invariant(&*self);
        }
        let ghost before = self@;
        let mut entries: StringHashMap<V> = StringHashMap::new();
        std::mem::swap(&mut entries, &mut self.entries);
        entries.remove(key);
        assert(entries@.dom() =~= before.dom().remove(key@));
        self.entries = entries;
    }

    /// Keeps nothing any more.
    pub fn clear(&mut self)
        ensures
            final(self)@ == Map::<Seq<char>, V>::empty(),
    {
        self.entries = StringHashMap::new();
    }

    /// What is kept under `key`.
    pub fn get(&self, key: &str) -> (value: Option<&V>)
        ensures
            match value {
                Some(v) => self@.contains_key(key@) && *v == self@[key@],
                None => !self@.contains_key(key@),
            },
    {
        self.entries.get(key)
    }

    /// Whether something is kept under `key`.
    pub fn contains_key(&self, key: &str) -> (r: bool)
        ensures
            r == self@.contains_key(key@),
    {
        self.entries.contains_key(key)
    }

    /// The number of texts under which something is kept.
    pub fn len(&self) -> (n: usize)
        ensures
            self@.dom().finite(),
            n == self@.len(),
    {
        proof {
            use_type_invariant(self);
        }
        self.entries.len()
    }
}

/// A table gives back what was put in last under a text, until that is taken out; neither touches
/// what it keeps under other texts.
pub proof fn law_tables_give_back_what_they_keep<V>(
    table: &mut Table<V>,
    removing: &mut Table<V>,
    clearing: &mut Table<V>,
    key: &str,
    value: V,
    other: &str,
    found: Option<&V>,
    gone: bool,
    before: bool,
    after: bool,
    none: usize,
)
    requires
        call_ensures(Table::<V>::insert, (table, key, value), ()),
        call_ensures(Table::<V>::get, (&*final(table), key), found),
        *old(removing) == *final(table),
        *old(clearing) == *final(table),
        call_ensures(Table::<V>::remove, (removing, key), ()),
        call_ensures(Table::<V>::contains_key, (&*final(removing), key), gone),
        other@ != key@,
        call_ensures(Table::<V>::contains_key, (&*old(table), other), before),
        call_ensures(Table::<V>::contains_key, (&*final(removing), other), after),
        call_ensures(Table::<V>::clear, (clearing,), ()),
        call_ensures(Table::<V>::len, (&*final(clearing),), none),
    ensures
        found matches Some(kept) && *kept == value,
        !gone,
        before == after,
        none == 0,
{
}

/// Each text is counted once.
pub proof fn law_texts_are_counted<V>(
    table: &mut Table<V>,
    key: &str,
    value: V,
    n: usize,
    m: usize,
    there: bool,
    fresh: Table<V>,
    none: usize,
)
    requires
        call_ensures(Table::<V>::contains_key, (&*old(table), key), there),
        call_ensures(Table::<V>::len, (&*old(table),), n),
        call_ensures(Table::<V>::insert, (table, key, value), ()),
        call_ensures(Table::<V>::len, (&*final(table),), m),
        call_ensures(Table::<V>::new, (), fresh),
        call_ensures(Table::<V>::len, (&fresh,), none),
    ensures
        none == 0,
        m == n + if there {
            0int
        } else {
            1int
        },
{
}

} // verus!
