//! Hashed collections the engine keeps its bookkeeping in.
//!
//! The tables are `hashbrown` containers. Verus cannot look inside them, so
//! each one is held in a struct whose body is hidden from the verifier, its
//! contents are given a mathematical name, and every operation goes through a
//! small trusted function that states what `hashbrown` does to those contents.

use vstd::prelude::*;

verus! {

/// A set of 64-bit identifiers, backed by `hashbrown::HashSet<u64>`.
#[verifier::external_body]
pub struct IdSet {
    inner: hashbrown::HashSet<u64>,
}

/// The identifiers an [`IdSet`] holds.
pub uninterp spec fn id_set_items(s: IdSet) -> Set<u64>;

/// `hashbrown::HashSet::new`: a set without elements.
#[verifier::external_body]
fn id_set_new() -> (s: IdSet)
    ensures
        id_set_items(s) == Set::<u64>::empty(),
{
    IdSet { inner: hashbrown::HashSet::new() }
}

/// `hashbrown::HashSet::contains`: whether `id` is an element.
#[verifier::external_body]
fn id_set_contains(s: &IdSet, id: u64) -> (found: bool)
    ensures
        found == id_set_items(*s).contains(id),
{
    s.inner.contains(&id)
}

/// `hashbrown::HashSet::insert`: adds `id`; the result tells whether it was
/// absent before.
#[verifier::external_body]
fn id_set_insert(s: &mut IdSet, id: u64) -> (fresh: bool)
    ensures
        id_set_items(*final(s)) == id_set_items(*old(s)).insert(id),
        fresh == !id_set_items(*old(s)).contains(id),
{
    s.inner.insert(id)
}

/// `hashbrown::HashSet::remove`: takes `id` out; the result tells whether it
/// was present before.
#[verifier::external_body]
fn id_set_remove(s: &mut IdSet, id: u64) -> (present: bool)
    ensures
        id_set_items(*final(s)) == id_set_items(*old(s)).remove(id),
        present == id_set_items(*old(s)).contains(id),
{
    s.inner.remove(&id)
}

/// `Clone` of `hashbrown::HashSet`: a set with the same elements.
#[verifier::external_body]
fn id_set_clone(s: &IdSet) -> (copy: IdSet)
    ensures
        id_set_items(copy) == id_set_items(*s),
{
    IdSet { inner: s.inner.clone() }
}

impl View for IdSet {
    type V = Set<u64>;

    open spec fn view(&self) -> Set<u64> {
        id_set_items(*self)
    }
}

impl IdSet {
    pub fn new() -> (s: IdSet)
        ensures
            s@ == Set::<u64>::empty(),
    {
        id_set_new()
    }

    pub fn contains(&self, id: u64) -> (found: bool)
        ensures
            found == self@.contains(id),
    {
        id_set_contains(self, id)
    }

    /// Adds `id`. Returns `true` when it was not yet an element.
    pub fn insert(&mut self, id: u64) -> (fresh: bool)
        ensures
            final(self)@ == old(self)@.insert(id),
            fresh == !old(self)@.contains(id),
    {
        id_set_insert(self, id)
    }

    /// Removes `id`. Returns `true` when it was an element.
    pub fn remove(&mut self, id: u64) -> (present: bool)
        ensures
            final(self)@ == old(self)@.remove(id),
            present == old(self)@.contains(id),
    {
        id_set_remove(self, id)
    }

    pub fn duplicate(&self) -> (copy: IdSet)
        ensures
            copy@ == self@,
    {
        id_set_clone(self)
    }
}

/// A string-keyed map of strings, backed by
/// `hashbrown::HashMap<String, String>`.
#[verifier::external_body]
pub struct DataMap {
    inner: hashbrown::HashMap<String, String>,
}

/// The entries a [`DataMap`] holds, keys and values as character sequences.
pub uninterp spec fn data_map_entries(m: DataMap) -> Map<Seq<char>, Seq<char>>;

/// `hashbrown::HashMap::new`: a map without entries.
#[verifier::external_body]
fn data_map_new() -> (m: DataMap)
    ensures
        (data_map_entries(m) == Map::<Seq<char>, Seq<char>>::empty()),
{
    DataMap { inner: hashbrown::HashMap::new() }
}

/// `hashbrown::HashMap::get`: the value stored under `key`, if any.
#[verifier::external_body]
fn data_map_get(m: &DataMap, key: &str) -> (value: Option<String>)
    ensures
        value.is_some() == data_map_entries(*m).contains_key(key@),
        value.is_some() ==> value.unwrap()@ == data_map_entries(*m)[key@],
{
    m.inner.get(key).cloned()
}

/// `hashbrown::HashMap::contains_key`: whether an entry for `key` exists.
#[verifier::external_body]
fn data_map_contains_key(m: &DataMap, key: &str) -> (found: bool)
    ensures
        found == data_map_entries(*m).contains_key(key@),
{
    m.inner.contains_key(key)
}

/// `hashbrown::HashMap::insert`: stores `value` under `key`, replacing what
/// was there.
#[verifier::external_body]
fn data_map_insert(m: &mut DataMap, key: String, value: String)
    ensures
        data_map_entries(*final(m)) == data_map_entries(*old(m)).insert(key@, value@),
{
    m.inner.insert(key, value);
}

/// `hashbrown::HashMap::remove`: drops the entry for `key`, if any.
#[verifier::external_body]
fn data_map_remove(m: &mut DataMap, key: &str)
    ensures
        data_map_entries(*final(m)) == data_map_entries(*old(m)).remove(key@),
{
    m.inner.remove(key);
}

/// `Clone` of `hashbrown::HashMap`: a map with the same entries.
#[verifier::external_body]
fn data_map_clone(m: &DataMap) -> (copy: DataMap)
    ensures
        data_map_entries(copy) == data_map_entries(*m),
{
    DataMap { inner: m.inner.clone() }
}

impl View for DataMap {
    type V = Map<Seq<char>, Seq<char>>;

    open spec fn view(&self) -> Map<Seq<char>, Seq<char>> {
        data_map_entries(*self)
    }
}

impl DataMap {
    pub fn new() -> (m: DataMap)
        ensures
            (m@ == Map::<Seq<char>, Seq<char>>::empty()),
    {
        data_map_new()
    }

    pub fn get(&self, key: &str) -> (value: Option<String>)
        ensures
            value.is_some() == self@.contains_key(key@),
            value.is_some() ==> value.unwrap()@ == self@[key@],
    {
        data_map_get(self, key)
    }

    pub fn contains_key(&self, key: &str) -> (found: bool)
        ensures
            found == self@.contains_key(key@),
    {
        data_map_contains_key(self, key)
    }

    pub fn insert(&mut self, key: String, value: String)
        ensures
            final(self)@ == old(self)@.insert(key@, value@),
    {
        data_map_insert(self, key, value)
    }

    pub fn remove(&mut self, key: &str)
        ensures
            final(self)@ == old(self)@.remove(key@),
    {
        data_map_remove(self, key)
    }

    pub fn duplicate(&self) -> (copy: DataMap)
        ensures
            copy@ == self@,
    {
        data_map_clone(self)
    }
}

/// A table from names to slot numbers, backed by
/// `hashbrown::HashMap<String, usize>`.
#[verifier::external_body]
pub struct NameTable {
    inner: hashbrown::HashMap<String, usize>,
}

/// The entries a [`NameTable`] holds, names as character sequences.
pub uninterp spec fn name_table_entries(t: NameTable) -> Map<Seq<char>, usize>;

/// `hashbrown::HashMap::new`: a table without entries.
#[verifier::external_body]
fn name_table_new() -> (t: NameTable)
    ensures
        (name_table_entries(t) == Map::<Seq<char>, usize>::empty()),
{
    NameTable { inner: hashbrown::HashMap::new() }
}

/// `hashbrown::HashMap::get`: the slot stored under `name`, if any.
#[verifier::external_body]
fn name_table_get(t: &NameTable, name: &str) -> (slot: Option<usize>)
    ensures
        name_table_entries(*t).contains_key(name@) ==> slot == Some(
            name_table_entries(*t)[name@],
        ),
        !name_table_entries(*t).contains_key(name@) ==> slot is None,
{
    t.inner.get(name).copied()
}

/// `hashbrown::HashMap::insert`: stores `slot` under `name`, replacing what
/// was there.
#[verifier::external_body]
fn name_table_insert(t: &mut NameTable, name: String, slot: usize)
    ensures
        name_table_entries(*final(t)) == name_table_entries(*old(t)).insert(name@, slot),
{
    t.inner.insert(name, slot);
}

/// `Clone` of `hashbrown::HashMap`: a table with the same entries.
#[verifier::external_body]
fn name_table_clone(t: &NameTable) -> (copy: NameTable)
    ensures
        name_table_entries(copy) == name_table_entries(*t),
{
    NameTable { inner: t.inner.clone() }
}

impl View for NameTable {
    type V = Map<Seq<char>, usize>;

    open spec fn view(&self) -> Map<Seq<char>, usize> {
        name_table_entries(*self)
    }
}

impl NameTable {
    pub fn new() -> (t: NameTable)
        ensures
            (t@ == Map::<Seq<char>, usize>::empty()),
    {
        name_table_new()
    }

    pub fn get(&self, name: &str) -> (slot: Option<usize>)
        ensures
            self@.contains_key(name@) ==> slot == Some(self@[name@]),
            !self@.contains_key(name@) ==> slot is None,
    {
        name_table_get(self, name)
    }

    pub fn insert(&mut self, name: String, slot: usize)
        ensures
            final(self)@ == old(self)@.insert(name@, slot),
    {
        name_table_insert(self, name, slot)
    }

    pub fn duplicate(&self) -> (copy: NameTable)
        ensures
            copy@ == self@,
    {
        name_table_clone(self)
    }
}

} // verus!
