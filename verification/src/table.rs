//! The table of resources by id, kept in the hash map of `bevy::utils`.
//!
//! Verus does not read that map. What it holds has a name here,
//! [`table_contents`], and every call into the map is one function of this
//! file whose contract is believed, not proved.

use crate::slot::ShaderBufferInfo;
use bevy::utils::HashMap;
use vstd::prelude::*;

verus! {

/// A `bevy::utils::HashMap` from resource ids to resources. The map's type
/// cannot be declared to Verus by its path, since the bound of its allocator
/// parameter is a trait that the map's crate keeps private; so the map is the
/// hidden field of this struct.
#[verifier::external_body]
pub struct SlotTable {
    inner: HashMap<u32, ShaderBufferInfo>,
}

/// The key-value pairs that the map holds.
pub uninterp spec fn table_contents(table: SlotTable) -> Map<u32, ShaderBufferInfo>;

/// The contents of a map that holds nothing.
pub open spec fn no_contents() -> Map<u32, ShaderBufferInfo> {
    Map::empty()
}

impl View for SlotTable {
    type V = Map<u32, ShaderBufferInfo>;

    open spec fn view(&self) -> Map<u32, ShaderBufferInfo> {
        table_contents(*self)
    }
}

impl SlotTable {
    /// `HashMap::default`: a map that holds nothing.
    #[verifier::external_body]
    pub(crate) fn new() -> (table: SlotTable)
        ensures
            table_contents(table) == no_contents(),
    {
        SlotTable { inner: HashMap::default() }
    }

    /// `HashMap::insert`: afterwards the map holds `slot` under `id` and is
    /// otherwise as before. Returns what it held under `id` before, if
    /// anything.
    #[verifier::external_body]
    pub(crate) fn insert(&mut self, id: u32, slot: ShaderBufferInfo) -> (previous: Option<
        ShaderBufferInfo,
    >)
        ensures
            table_contents(*final(self)) == table_contents(*old(self)).insert(id, slot),
            previous == if table_contents(*old(self)).contains_key(id) {
                Some(table_contents(*old(self))[id])
            } else {
                None
            },
    {
        self.inner.insert(id, slot)
    }

    /// `HashMap::remove`: afterwards the map holds nothing under `id` and is
    /// otherwise as before. Returns what it held under `id` before, if
    /// anything.
    #[verifier::external_body]
    pub(crate) fn remove(&mut self, id: u32) -> (removed: Option<ShaderBufferInfo>)
        ensures
            table_contents(*final(self)) == table_contents(*old(self)).remove(id),
            removed == if table_contents(*old(self)).contains_key(id) {
                Some(table_contents(*old(self))[id])
            } else {
                None
            },
    {
        self.inner.remove(&id)
    }

    /// `HashMap::get`, the value copied out: what the map holds under `id`,
    /// if anything.
    #[verifier::external_body]
    pub(crate) fn get(&self, id: u32) -> (found: Option<ShaderBufferInfo>)
        ensures
            found == if table_contents(*self).contains_key(id) {
                Some(table_contents(*self)[id])
            } else {
                None
            },
    {
        self.inner.get(&id).copied()
    }

    /// `HashMap::contains_key`: whether the map holds anything under `id`.
    #[verifier::external_body]
    pub(crate) fn contains_key(&self, id: u32) -> (found: bool)
        ensures
            found == table_contents(*self).contains_key(id),
    {
        self.inner.contains_key(&id)
    }

    /// `HashMap::clone`: a second map that holds the same pairs.
    #[verifier::external_body]
    pub(crate) fn duplicate(&self) -> (copy: SlotTable)
        ensures
            table_contents(copy) == table_contents(*self),
    {
        SlotTable { inner: self.inner.clone() }
    }
}

} // verus!
