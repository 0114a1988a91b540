use vstd::prelude::*;

use crate::item::{Item, Path};
use crate::meta::CompileMeta;
use crate::query::IndexedEntry;

verus! {

/// Pending declarations by path.
pub type PendingModel = Map<Path, IndexedEntry>;

/// Resolved descriptors by path.
pub type MetaEntries = Map<Path, CompileMeta>;

/// The names held by a set of field names.
pub uninterp spec fn field_names(s: &FieldSet) -> Set<Seq<char>>;

/// The paths held by a set of reserved names.
pub uninterp spec fn reserved_paths(s: &NameSet) -> Set<Path>;

/// The entries held by a store of pending declarations, by path.
pub uninterp spec fn pending_entries(m: &PendingMap) -> Map<Path, IndexedEntry>;

/// The descriptors held by a store of resolved descriptors, by path.
pub uninterp spec fn meta_entries(m: &MetaMap) -> Map<Path, CompileMeta>;

/// A set of field names, held in a `hashbrown::HashSet`.
#[verifier::external_body]
#[derive(Debug)]
pub struct FieldSet {
    set: hashbrown::HashSet<String>,
}

/// A set of reserved paths, held in a `hashbrown::HashSet` keyed by the path's segments.
#[verifier::external_body]
#[derive(Debug)]
pub struct NameSet {
    set: hashbrown::HashSet<Vec<String>>,
}

/// Pending declarations by path, held in a `hashbrown::HashMap` keyed by the path's segments.
#[verifier::external_body]
#[derive(Debug)]
pub struct PendingMap {
    map: hashbrown::HashMap<Vec<String>, IndexedEntry>,
}

/// Resolved descriptors by path, held in a `hashbrown::HashMap` keyed by the path's segments.
#[verifier::external_body]
#[derive(Debug)]
pub struct MetaMap {
    map: hashbrown::HashMap<Vec<String>, CompileMeta>,
}

impl FieldSet {
    /// Relies on `hashbrown::HashSet::new`: a new set is empty.
    #[verifier::external_body]
    pub(crate) fn empty() -> (r: FieldSet)
        ensures
            field_names(&r) == Set::<Seq<char>>::empty(),
    {
        FieldSet { set: hashbrown::HashSet::new() }
    }

    /// Relies on `hashbrown::HashSet::insert`: afterwards the set holds the name besides what
    /// it held before.
    #[verifier::external_body]
    pub(crate) fn insert_name(&mut self, name: String)
        ensures
            field_names(final(self)) == field_names(old(self)).insert(name@),
    {
        self.set.insert(name);
    }

    /// Relies on `hashbrown::HashSet::contains`: whether an equal string is in the set.
    #[verifier::external_body]
    pub(crate) fn holds(&self, name: &str) -> (r: bool)
        ensures
            r == field_names(self).contains(name@),
    {
        self.set.contains(name)
    }

    /// Relies on `hashbrown::HashSet::len`: the number of names in the set.
    #[verifier::external_body]
    pub(crate) fn count(&self) -> (r: usize)
        ensures
            r == field_names(self).len(),
    {
        self.set.len()
    }

    /// Relies on `Clone` for `hashbrown::HashSet`: the copy holds the same names.
    #[verifier::external_body]
    pub(crate) fn duplicate(&self) -> (r: FieldSet)
        ensures
            field_names(&r) == field_names(self),
    {
        FieldSet { set: self.set.clone() }
    }
}

impl NameSet {
    /// Relies on `hashbrown::HashSet::new`: a new set is empty.
    #[verifier::external_body]
    pub(crate) fn empty() -> (r: NameSet)
        ensures
            reserved_paths(&r) == Set::<Path>::empty(),
    {
        NameSet { set: hashbrown::HashSet::new() }
    }

    /// Relies on `hashbrown::HashSet::insert`: afterwards the set holds the path besides what
    /// it held before.
    #[verifier::external_body]
    pub(crate) fn insert_path(&mut self, item: &Item)
        ensures
            reserved_paths(final(self)) == reserved_paths(old(self)).insert(item@),
    {
        self.set.insert(item.segments.clone());
    }

    /// Relies on `hashbrown::HashSet::contains`: whether an equal path is in the set.
    #[verifier::external_body]
    pub(crate) fn holds(&self, item: &Item) -> (r: bool)
        ensures
            r == reserved_paths(self).contains(item@),
    {
        self.set.contains(&item.segments)
    }
}

impl PendingMap {
    /// Relies on `hashbrown::HashMap::new`: a new map is empty.
    #[verifier::external_body]
    pub(crate) fn empty() -> (r: PendingMap)
        ensures
            pending_entries(&r) == PendingModel::empty(),
    {
        PendingMap { map: hashbrown::HashMap::new() }
    }

    /// Relies on `hashbrown::HashMap::insert`: the path maps to the entry afterwards, and the
    /// entry it had before, if any, is handed back.
    #[verifier::external_body]
    pub(crate) fn insert_entry(&mut self, item: &Item, entry: IndexedEntry) -> (r: Option<
        IndexedEntry,
    >)
        ensures
            pending_entries(final(self)) == pending_entries(old(self)).insert(item@, entry),
            r == (if pending_entries(old(self)).contains_key(item@) {
                Some(pending_entries(old(self))[item@])
            } else {
                None
            }),
    {
        self.map.insert(item.segments.clone(), entry)
    }

    /// Relies on `hashbrown::HashMap::remove`: the path has no entry afterwards, and the one it
    /// had, if any, is handed back.
    #[verifier::external_body]
    pub(crate) fn remove_entry(&mut self, item: &Item) -> (r: Option<IndexedEntry>)
        ensures
            pending_entries(final(self)) == pending_entries(old(self)).remove(item@),
            r == (if pending_entries(old(self)).contains_key(item@) {
                Some(pending_entries(old(self))[item@])
            } else {
                None
            }),
    {
        self.map.remove(&item.segments)
    }

    /// Relies on `hashbrown::HashMap::contains_key`: whether the path has an entry.
    #[verifier::external_body]
    pub(crate) fn holds(&self, item: &Item) -> (r: bool)
        ensures
            r == pending_entries(self).contains_key(item@),
    {
        self.map.contains_key(&item.segments)
    }
}

impl MetaMap {
    /// Relies on `hashbrown::HashMap::new`: a new map is empty.
    #[verifier::external_body]
    pub(crate) fn empty() -> (r: MetaMap)
        ensures
            meta_entries(&r) == MetaEntries::empty(),
    {
        MetaMap { map: hashbrown::HashMap::new() }
    }

    /// Relies on `hashbrown::HashMap::insert`: the path maps to the descriptor afterwards.
    #[verifier::external_body]
    pub(crate) fn insert_meta(&mut self, item: &Item, meta: CompileMeta)
        ensures
            meta_entries(final(self)) == meta_entries(old(self)).insert(item@, meta),
    {
        self.map.insert(item.segments.clone(), meta);
    }

    /// Relies on `hashbrown::HashMap::get`: the descriptor of the path, if it has one.
    #[verifier::external_body]
    pub(crate) fn lookup(&self, item: &Item) -> (r: Option<&CompileMeta>)
        ensures
            r == (if meta_entries(self).contains_key(item@) {
                Some(&meta_entries(self)[item@])
            } else {
                None
            }),
    {
        self.map.get(&item.segments)
    }
}

} // verus!
