//! Staging copies: buffers that the CPU can map, one for each resource whose
//! contents are to be read back.

use crate::gpu::{DeviceAction, ResourceKey, ResourceRole, STAGING_USAGE};
use crate::handle::{ShaderBufferError, ShaderBufferHandle};
use crate::registry::ShaderBufferSet;
use crate::slot::ShaderBufferInfo;
use crate::storage::ShaderBufferStorage;
use crate::table::SlotTable;
use vstd::prelude::*;

verus! {

/// The key of the staging copy of the resource with the id `id`.
pub open spec fn staging_key(id: u32) -> ResourceKey {
    ResourceKey { id, role: ResourceRole::Staging }
}

/// The staging copy of the resource with the id `id`: a storage buffer in
/// no group, which shaders may write.
pub open spec fn staging_copy(id: u32) -> ShaderBufferInfo {
    ShaderBufferInfo::SingleUnbound {
        storage: ShaderBufferStorage::Storage { buffer: staging_key(id), readonly: false },
    }
}

/// The staging copies, by the id of the resource that each is a copy of.
pub struct ShaderBufferRenderSet {
    copy_buffers: SlotTable,
}

impl ShaderBufferRenderSet {
    /// The ids of the resources that have a staging copy.
    pub closed spec fn staged(&self) -> Set<u32> {
        self.copy_buffers@.dom()
    }

    /// The invariant of the set: under an id stands the staging copy of
    /// that id.
    pub closed spec fn wf(&self) -> bool {
        forall|id: u32| #[trigger]
            self.copy_buffers@.contains_key(id) ==> self.copy_buffers@[id] == staging_copy(id)
    }

    /// The making of a staging copy for `handle`. It is refused where the
    /// handle has one, where it names no resource of `buffers`, and where the
    /// resource is anything but a single storage buffer.
    pub open spec fn spec_create_copy_buffer(
        &self,
        handle: ShaderBufferHandle,
        buffers: &ShaderBufferSet,
    ) -> Result<DeviceAction, ShaderBufferError> {
        let id = handle.spec_id();
        if self.staged().contains(id) {
            Err(ShaderBufferError::DuplicateStaging)
        } else if !buffers.slots().contains_key(id) {
            Err(ShaderBufferError::HandleNotFound)
        } else {
            match buffers.slots()[id].spec_single_storage_buffer() {
                Some(source) => Ok(
                    DeviceAction::CreateBufferLike {
                        buffer: staging_key(id),
                        source,
                        usage: STAGING_USAGE,
                    },
                ),
                None => Err(ShaderBufferError::InvalidBufferKind),
            }
        }
    }

    /// The release of the staging copy of `handle`.
    pub open spec fn spec_remove_copy_buffer(&self, handle: ShaderBufferHandle) -> Result<
        DeviceAction,
        ShaderBufferError,
    > {
        if self.staged().contains(handle.spec_id()) {
            Ok(DeviceAction::DestroyBuffer { buffer: staging_key(handle.spec_id()) })
        } else {
            Err(ShaderBufferError::MissingStaging)
        }
    }

    /// The copy of the resource that `handle` names to its staging copy. It
    /// is refused where the handle names no resource of `buffers`, where the
    /// resource is anything but a single storage buffer, and where it has no
    /// staging copy.
    pub open spec fn spec_copy_to_copy_buffer(
        &self,
        handle: ShaderBufferHandle,
        buffers: &ShaderBufferSet,
    ) -> Result<DeviceAction, ShaderBufferError> {
        let id = handle.spec_id();
        if !buffers.slots().contains_key(id) {
            Err(ShaderBufferError::HandleNotFound)
        } else {
            match buffers.slots()[id].spec_single_storage_buffer() {
                None => Err(ShaderBufferError::InvalidBufferKind),
                Some(src) => if self.staged().contains(id) {
                    Ok(DeviceAction::CopyBuffer { src, dst: staging_key(id) })
                } else {
                    Err(ShaderBufferError::MissingStaging)
                },
            }
        }
    }

    /// The reading of the staging copy of `handle`.
    pub open spec fn spec_copy_from_copy_buffer_to_vec(&self, handle: ShaderBufferHandle) -> Result<
        DeviceAction,
        ShaderBufferError,
    > {
        if self.staged().contains(handle.spec_id()) {
            Ok(DeviceAction::ReadBuffer { buffer: staging_key(handle.spec_id()) })
        } else {
            Err(ShaderBufferError::MissingStaging)
        }
    }

    /// A set without staging copies.
    pub fn new() -> (r: ShaderBufferRenderSet)
        ensures
            r.wf(),
            r.staged() == Set::<u32>::empty(),
    {
        let r = ShaderBufferRenderSet { copy_buffers: SlotTable::new() };
        assert(r.staged() =~= Set::<u32>::empty());
        r
    }

    /// Whether `handle` has a staging copy.
    pub fn has_copy_buffer(&self, handle: ShaderBufferHandle) -> (r: bool)
        ensures
            r == self.staged().contains(handle.spec_id()),
    {
        self.copy_buffers.contains_key(handle.id())
    }

    /// Gives the single storage buffer that `handle` names a staging copy
    /// of its size, which can be copied to and mapped for reading.
    pub fn create_copy_buffer(&mut self, handle: ShaderBufferHandle, buffers: &ShaderBufferSet) -> (r:
        Result<DeviceAction, ShaderBufferError>)
        requires
            old(self).wf(),
        ensures
            final(self).wf(),
            r == old(self).spec_create_copy_buffer(handle, buffers),
            final(self).staged() == if r is Ok {
                old(self).staged().insert(handle.spec_id())
            } else {
                old(self).staged()
            },
    {
        let id = handle.id();
        if self.copy_buffers.contains_key(id) {
            return Err(ShaderBufferError::DuplicateStaging);
        }
        let src = match buffers.get_buffer(handle) {
            Some(src) => src,
            None => { return Err(ShaderBufferError::HandleNotFound); },
        };
        let source = match src.single_storage_buffer() {
            Some(source) => source,
            None => { return Err(ShaderBufferError::InvalidBufferKind); },
        };
        let buffer = ResourceKey { id, role: ResourceRole::Staging };
        let dst = ShaderBufferInfo::SingleUnbound {
            storage: ShaderBufferStorage::Storage { buffer, readonly: false },
        };
        self.copy_buffers.insert(id, dst);
        assert(self.staged() =~= old(self).staged().insert(id));
        Ok(DeviceAction::CreateBufferLike { buffer, source, usage: STAGING_USAGE })
    }

    /// Releases the staging copy of `handle`.
    pub fn remove_copy_buffer(&mut self, handle: ShaderBufferHandle) -> (r: Result<
        DeviceAction,
        ShaderBufferError,
    >)
        requires
            old(self).wf(),
        ensures
            final(self).wf(),
            r == old(self).spec_remove_copy_buffer(handle),
            final(self).staged() == old(self).staged().remove(handle.spec_id()),
    {
        let id = handle.id();
        match self.copy_buffers.remove(id) {
            Some(copy) => {
                assert(self.staged() =~= old(self).staged().remove(id));
                Ok(copy.delete()[0])
            },
            None => {
                assert(self.staged() =~= old(self).staged().remove(id));
                Err(ShaderBufferError::MissingStaging)
            },
        }
    }

    /// The action that copies the storage buffer that `handle` names to its
    /// staging copy.
    pub fn copy_to_copy_buffer(&self, handle: ShaderBufferHandle, buffers: &ShaderBufferSet) -> (r:
        Result<DeviceAction, ShaderBufferError>)
        requires
            self.wf(),
        ensures
            r == self.spec_copy_to_copy_buffer(handle, buffers),
    {
        let src = match buffers.get_buffer(handle) {
            Some(src) => src,
            None => { return Err(ShaderBufferError::HandleNotFound); },
        };
        let src = match src.single_storage_buffer() {
            Some(src) => src,
            None => { return Err(ShaderBufferError::InvalidBufferKind); },
        };
        let dst = match self.copy_buffers.get(handle.id()) {
            Some(copy) => copy.single_storage_buffer(),
            None => { return Err(ShaderBufferError::MissingStaging); },
        };
        Ok(DeviceAction::CopyBuffer { src, dst: dst.unwrap() })
    }

    /// The action that reads the staging copy of `handle` into memory. To
    /// perform it blocks the caller until the device has mapped the buffer.
    pub fn copy_from_copy_buffer_to_vec(&self, handle: ShaderBufferHandle) -> (r: Result<
        DeviceAction,
        ShaderBufferError,
    >)
        requires
            self.wf(),
        ensures
            r == self.spec_copy_from_copy_buffer_to_vec(handle),
    {
        match self.copy_buffers.get(handle.id()) {
            Some(copy) => {
                let buffer = copy.single_storage_buffer();
                Ok(DeviceAction::ReadBuffer { buffer: buffer.unwrap() })
            },
            None => Err(ShaderBufferError::MissingStaging),
        }
    }
}

} // verus!
