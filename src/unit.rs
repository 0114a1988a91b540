use vstd::prelude::*;

use crate::collections::{meta_entries, reserved_paths, MetaMap, NameSet};
use crate::item::{Item, Path};
use crate::meta::{CompileMeta, MetaModel};

verus! {

/// The registry of a compilation pass: the paths that are taken, and the descriptors of the
/// items resolved so far.
pub struct UnitBuilder {
    /// The reserved paths.
    pub names: NameSet,
    /// The resolved descriptors.
    pub metas: MetaMap,
}

impl UnitBuilder {
    /// The reserved paths.
    pub open spec fn names_model(&self) -> Set<Path> {
        reserved_paths(&self.names)
    }

    /// The resolved descriptors, by path.
    pub open spec fn metas_model(&self) -> Map<Path, MetaModel> {
        meta_entries(&self.metas).map_values(|m: CompileMeta| m@)
    }

    /// An empty registry.
    pub fn new() -> (r: UnitBuilder)
        ensures
            r.names_model() == Set::<Path>::empty(),
            r.metas_model() == Map::<Path, MetaModel>::empty(),
    {
        let r = UnitBuilder { names: NameSet::empty(), metas: MetaMap::empty() };
        assert(r.metas_model() =~= Map::<Path, MetaModel>::empty());
        r
    }

    /// Reserve the path of an item.
    pub fn insert_name(&mut self, item: &Item)
        ensures
            final(self).names_model() == old(self).names_model().insert(item@),
            final(self).metas_model() == old(self).metas_model(),
    {
        self.names.insert_path(item);
    }

    /// Whether the path of an item is reserved.
    pub fn contains_name(&self, item: &Item) -> (r: bool)
        ensures
            r == self.names_model().contains(item@),
    {
        self.names.holds(item)
    }

    /// Record the descriptor of a resolved item under the item's path.
    pub fn insert_meta(&mut self, meta: CompileMeta)
        ensures
            final(self).metas_model() == old(self).metas_model().insert(meta@.item(), meta@),
            final(self).names_model() == old(self).names_model(),
    {
        let item = meta.item().copy();
        let ghost m = meta@;
        self.metas.insert_meta(&item, meta);
        assert(final(self).metas_model() =~= old(self).metas_model().insert(m.item(), m));
    }

    /// Whether a descriptor is recorded for the path of an item.
    pub fn contains_meta(&self, item: &Item) -> (r: bool)
        ensures
            r == self.metas_model().contains_key(item@),
    {
        self.metas.lookup(item).is_some()
    }

    /// A copy of the descriptor recorded for the path of an item, if any.
    pub fn lookup_meta(&self, item: &Item) -> (r: Option<CompileMeta>)
        ensures
            match r {
                Some(m) => self.metas_model().contains_key(item@) && m@ == self.metas_model()[item@],
                None => !self.metas_model().contains_key(item@),
            },
    {
        match self.metas.lookup(item) {
            Some(m) => Some(m.copy()),
            None => None,
        }
    }
}

} // verus!
