//! The registry: it owns every resource, gives out handles, keeps the
//! resources of each group in the order of their creation, and makes bind
//! groups and layouts from them on demand.

use crate::gpu::{
    BindGroupEntry, BindGroupLayoutEntry, DeviceAction, GpuImages, ResourceKey,
    StorageTextureAccess,
};
use crate::handle::{Binding, ShaderBufferError, ShaderBufferHandle};
use crate::slot::{seq_result, ShaderBufferInfo, StorageRecipe};
use crate::table::SlotTable;
use vstd::prelude::*;
use wgpu_types::TextureFormat;

verus! {

/// The rows of a `Vec` of `Vec`s, each by its view.
pub open spec fn rows<T>(v: Vec<Vec<T>>) -> Seq<Seq<T>> {
    v@.map_values(|row: Vec<T>| row@)
}

/// A result that holds a `Vec` of `Vec`s, seen as one that holds its rows.
pub open spec fn rows_result<T, E>(r: Result<Vec<Vec<T>>, E>) -> Result<Seq<Seq<T>>, E> {
    match r {
        Ok(v) => Ok(rows(v)),
        Err(e) => Err(e),
    }
}

/// `groups`, with empty groups added at the end until it has `len` groups.
pub open spec fn grown(groups: Seq<Seq<u32>>, len: int) -> Seq<Seq<u32>> {
    if groups.len() >= len {
        groups
    } else {
        groups + Seq::new((len - groups.len()) as nat, |i: int| Seq::<u32>::empty())
    }
}

/// `groups` after a resource with the id `id` was created in `group`: the
/// id is the last member of its group, which is there now if it was not.
pub open spec fn groups_with(groups: Seq<Seq<u32>>, group: Option<u32>, id: u32) -> Seq<Seq<u32>> {
    match group {
        None => groups,
        Some(g) => {
            let all = grown(groups, g + 1);
            all.update(g as int, all[g as int].push(id))
        },
    }
}

/// The test that a member is not `id`.
pub open spec fn other_than(id: u32) -> spec_fn(u32) -> bool {
    |member: u32| member != id
}

/// `groups` after the resource with the id `id`, of `group`, was deleted:
/// the id is no member of its group, and the other members are in their
/// order.
pub open spec fn groups_without(groups: Seq<Seq<u32>>, group: Option<u32>, id: u32) -> Seq<
    Seq<u32>,
> {
    match group {
        Some(g) if g < groups.len() => groups.update(
            g as int,
            groups[g as int].filter(other_than(id)),
        ),
        _ => groups,
    }
}

/// The resources with the ids `members`, in that order.
pub open spec fn gathered(slots: Map<u32, ShaderBufferInfo>, members: Seq<u32>) -> Seq<
    ShaderBufferInfo,
> {
    members.map_values(|id: u32| slots[id])
}

/// The layout entries of `buffers`, one resource after the other.
pub open spec fn layout_of(buffers: Seq<ShaderBufferInfo>) -> Seq<BindGroupLayoutEntry>
    decreases buffers.len(),
{
    if buffers.len() == 0 {
        Seq::empty()
    } else {
        layout_of(buffers.drop_last()) + buffers.last().spec_layout_entries()
    }
}

/// The bind group entries of `buffers`, one resource after the other. They
/// fail where those of one resource do.
pub open spec fn entries_of(buffers: Seq<ShaderBufferInfo>, gpu_images: Set<ResourceKey>) -> Result<
    Seq<BindGroupEntry>,
    ShaderBufferError,
>
    decreases buffers.len(),
{
    if buffers.len() == 0 {
        Ok(Seq::empty())
    } else {
        match (
            entries_of(buffers.drop_last(), gpu_images),
            buffers.last().spec_bind_group_entries(gpu_images),
        ) {
            (Ok(before), Ok(last)) => Ok(before + last),
            (Err(e), _) => Err(e),
            (_, Err(e)) => Err(e),
        }
    }
}

/// The bind group entries of every group, group by group. They fail where
/// those of one group do.
pub open spec fn bind_groups_of(
    slots: Map<u32, ShaderBufferInfo>,
    groups: Seq<Seq<u32>>,
    gpu_images: Set<ResourceKey>,
) -> Result<Seq<Seq<BindGroupEntry>>, ShaderBufferError>
    decreases groups.len(),
{
    if groups.len() == 0 {
        Ok(Seq::empty())
    } else {
        match (
            bind_groups_of(slots, groups.drop_last(), gpu_images),
            entries_of(gathered(slots, groups.last()), gpu_images),
        ) {
            (Ok(before), Ok(last)) => Ok(before.push(last)),
            (Err(e), _) => Err(e),
            (_, Err(e)) => Err(e),
        }
    }
}

/// The layout of every group, group by group.
pub open spec fn layouts_of(slots: Map<u32, ShaderBufferInfo>, groups: Seq<Seq<u32>>) -> Seq<
    Seq<BindGroupLayoutEntry>,
> {
    groups.map_values(|members: Seq<u32>| layout_of(gathered(slots, members)))
}

/// Whether `buffer` is bound in the group `g`.
pub open spec fn in_group(buffer: ShaderBufferInfo, g: int) -> bool {
    match buffer.spec_group() {
        Some(group) => group == g,
        None => false,
    }
}

/// What holds of every registry: ids are given out in rising order, the
/// members of a group are the resources bound in it, each once.
pub open spec fn consistent(
    slots: Map<u32, ShaderBufferInfo>,
    groups: Seq<Seq<u32>>,
    next_id: u32,
) -> bool {
    &&& forall|id: u32| #[trigger] slots.contains_key(id) ==> id < next_id
    &&& forall|g: int, i: int|
        0 <= g < groups.len() && 0 <= i < groups[g].len() ==> {
            &&& slots.contains_key(#[trigger] groups[g][i])
            &&& in_group(slots[groups[g][i]], g)
        }
    &&& forall|g: int| 0 <= g < groups.len() ==> (#[trigger] groups[g]).no_duplicates()
    &&& forall|id: u32|
        #[trigger] slots.contains_key(id) ==> match slots[id].spec_group() {
            Some(g) => g < groups.len() && groups[g as int].contains(id),
            None => true,
        }
}

/// The registry of GPU resources.
pub struct ShaderBufferSet {
    buffers: SlotTable,
    groups: Vec<Vec<u32>>,
    next_id: u32,
}

/// The layout entries of `buffers`, one resource after the other.
pub fn bind_group_layout(buffers: &Vec<ShaderBufferInfo>) -> (r: Vec<BindGroupLayoutEntry>)
    ensures
        r@ == layout_of(buffers@),
{
    let mut layout: Vec<BindGroupLayoutEntry> = Vec::new();
    let mut i: usize = 0;
    assert(buffers@.take(0) =~= Seq::empty());
    while i < buffers.len()
        invariant
            i <= buffers@.len(),
            layout@ == layout_of(buffers@.take(i as int)),
        decreases buffers@.len() - i,
    {
        let mut entries = buffers[i].bind_group_layout_entry();
        layout.append(&mut entries);
        proof {
            let next = buffers@.take(i + 1);
            assert(next.drop_last() =~= buffers@.take(i as int));
            assert(next.last() == buffers@[i as int]);
        }
        i = i + 1;
    }
    assert(buffers@.take(i as int) =~= buffers@);
    layout
}

/// The bind group entries of `buffers`, one resource after the other, given
/// the images that the GPU holds.
pub fn bind_group_entries(buffers: &Vec<ShaderBufferInfo>, gpu_images: &GpuImages) -> (r: Result<
    Vec<BindGroupEntry>,
    ShaderBufferError,
>)
    ensures
        seq_result(r) == entries_of(buffers@, gpu_images@),
{
    let mut all: Vec<BindGroupEntry> = Vec::new();
    let mut i: usize = 0;
    assert(buffers@.take(0) =~= Seq::empty());
    while i < buffers.len()
        invariant
            i <= buffers@.len(),
            entries_of(buffers@.take(i as int), gpu_images@) == Ok::<
                Seq<BindGroupEntry>,
                ShaderBufferError,
            >(all@),
        decreases buffers@.len() - i,
    {
        proof {
            let next = buffers@.take(i + 1);
            assert(next.drop_last() =~= buffers@.take(i as int));
            assert(next.last() == buffers@[i as int]);
        }
        match buffers[i].bind_group_entries(gpu_images) {
            Ok(mut entries) => {
                all.append(&mut entries);
            },
            Err(e) => {
                proof {
                    lemma_entries_fail_on(buffers@, gpu_images@, i + 1);
                }
                return Err(e);
            },
        }
        i = i + 1;
    }
    assert(buffers@.take(i as int) =~= buffers@);
    Ok(all)
}

/// Where the entries of the first `n` resources fail, those of all fail,
/// and in the same way.
pub proof fn lemma_entries_fail_on(
    buffers: Seq<ShaderBufferInfo>,
    gpu_images: Set<ResourceKey>,
    n: int,
)
    requires
        0 <= n <= buffers.len(),
        entries_of(buffers.take(n), gpu_images) is Err,
    ensures
        entries_of(buffers, gpu_images) == entries_of(buffers.take(n), gpu_images),
    decreases buffers.len() - n,
{
    if n == buffers.len() {
        assert(buffers.take(n) =~= buffers);
    } else {
        let next = buffers.take(n + 1);
        assert(next.drop_last() =~= buffers.take(n));
        lemma_entries_fail_on(buffers, gpu_images, n + 1);
    }
}

impl ShaderBufferSet {
    /// The resources, by id.
    pub closed spec fn slots(&self) -> Map<u32, ShaderBufferInfo> {
        self.buffers@
    }

    /// The ids of the members of each group, in the order of their creation.
    pub closed spec fn groups(&self) -> Seq<Seq<u32>> {
        rows(self.groups)
    }

    /// The id that the next resource gets.
    pub closed spec fn next_id(&self) -> u32 {
        self.next_id
    }

    /// The invariant of the registry.
    pub open spec fn wf(&self) -> bool {
        consistent(self.slots(), self.groups(), self.next_id())
    }

    /// Whether two registries hold the same.
    pub open spec fn same_as(&self, other: &ShaderBufferSet) -> bool {
        &&& self.slots() == other.slots()
        &&& self.groups() == other.groups()
        &&& self.next_id() == other.next_id()
    }

    /// Whether the registry can hold `count` more resources, and the machine
    /// a group table that reaches `group`.
    pub open spec fn has_room(&self, count: int, group: Option<u32>) -> bool {
        &&& self.next_id() + count <= u32::MAX
        &&& match group {
            Some(g) => g < usize::MAX,
            None => true,
        }
    }

    /// An empty registry.
    pub fn new() -> (r: ShaderBufferSet)
        ensures
            r.wf(),
            r.slots() == Map::<u32, ShaderBufferInfo>::empty(),
            r.groups() == Seq::<Seq<u32>>::empty(),
            r.next_id() == 0,
    {
        let r = ShaderBufferSet { buffers: SlotTable::new(), groups: Vec::new(), next_id: 0 };
        assert(r.groups() =~= Seq::<Seq<u32>>::empty());
        r
    }

    /// The resource that `handle` names, if there is one.
    pub fn get_buffer(&self, handle: ShaderBufferHandle) -> (r: Option<ShaderBufferInfo>)
        ensures
            r == if self.slots().contains_key(handle.spec_id()) {
                Some(self.slots()[handle.spec_id()])
            } else {
                None
            },
    {
        self.buffers.get(handle.id())
    }

    /// Takes `buffer` into the registry under the next id, as the last
    /// member of the group that `binding` names.
    fn store_buffer(&mut self, binding: Binding, buffer: ShaderBufferInfo) -> (r: ShaderBufferHandle)
        requires
            old(self).wf(),
            old(self).has_room(1, binding.spec_group()),
            buffer.spec_group() == binding.spec_group(),
        ensures
            final(self).wf(),
            r == binding.spec_handle(old(self).next_id()),
            final(self).next_id() == old(self).next_id() + 1,
            final(self).slots() == old(self).slots().insert(old(self).next_id(), buffer),
            final(self).groups() == groups_with(
                old(self).groups(),
                binding.spec_group(),
                old(self).next_id(),
            ),
    {
        let id = self.next_id;
        self.next_id = id + 1;
        self.buffers.insert(id, buffer);
        match binding.group() {
            Some(group) => {
                let index = group as usize;
                while self.groups.len() <= index
                    invariant
                        index == group,
                        index < usize::MAX,
                        self.next_id == id + 1,
                        self.buffers@ == old(self).buffers@.insert(id, buffer),
                        old(self).groups@.len() <= self.groups@.len(),
                        self.groups@.len() <= index + 1 || self.groups@.len() == old(
                            self,
                        ).groups@.len(),
                        rows(self.groups) == grown(old(self).groups(), self.groups@.len() as int),
                    decreases index + 1 - self.groups@.len(),
                {
                    let ghost before = rows(self.groups);
                    self.groups.push(Vec::new());
                    assert(rows(self.groups) =~= before.push(Seq::<u32>::empty()));
                    assert(rows(self.groups) =~= grown(
                        old(self).groups(),
                        self.groups@.len() as int,
                    ));
                }
                assert(rows(self.groups) == grown(old(self).groups(), group + 1));
                let ghost all = rows(self.groups);
                let mut members: Vec<u32> = Vec::new();
                let mut i: usize = 0;
                while i < self.groups[index].len()
                    invariant
                        index < self.groups@.len(),
                        i <= self.groups@[index as int]@.len(),
                        members@ == self.groups@[index as int]@.take(i as int),
                    decreases self.groups@[index as int]@.len() - i,
                {
                    members.push(self.groups[index][i]);
                    assert(members@ =~= self.groups@[index as int]@.take(i + 1));
                    i = i + 1;
                }
                assert(members@ =~= all[index as int]);
                members.push(id);
                self.groups.set(index, members);
                assert(rows(self.groups) =~= all.update(index as int, all[index as int].push(id)));
                proof {
                    lemma_store_keeps_consistent(
                        old(self).slots(),
                        old(self).groups(),
                        old(self).next_id(),
                        Some(group),
                        buffer,
                    );
                }
                ShaderBufferHandle::Bound { group, id }
            },
            None => {
                proof {
                    lemma_store_keeps_consistent(
                        old(self).slots(),
                        old(self).groups(),
                        old(self).next_id(),
                        None,
                        buffer,
                    );
                }
                ShaderBufferHandle::Unbound { id }
            },
        }
    }
}

impl ShaderBufferSet {
    /// What a creation does: where there is room, the new resource gets the
    /// next id, which no resource had before, and is the last member of its
    /// group; the result holds its handle and the actions that create its GPU
    /// objects. Where there is none, the registry stays as it is.
    pub open spec fn creates(
        &self,
        after: &ShaderBufferSet,
        binding: Binding,
        recipe: StorageRecipe,
        r: Result<(ShaderBufferHandle, Vec<DeviceAction>), ShaderBufferError>,
    ) -> bool {
        if self.has_room(1, binding.spec_group()) {
            let id = self.next_id();
            &&& r is Ok
            &&& r->Ok_0.0 == binding.spec_handle(id)
            &&& r->Ok_0.1@ == ShaderBufferInfo::spec_new_actions(binding, id, recipe)
            &&& after.next_id() == id + 1
            &&& after.slots() == self.slots().insert(
                id,
                ShaderBufferInfo::spec_new(binding, id, recipe),
            )
            &&& after.groups() == groups_with(self.groups(), binding.spec_group(), id)
        } else {
            &&& r is Err
            &&& r->Err_0 == ShaderBufferError::CapacityExceeded
            &&& after.same_as(self)
        }
    }

    /// What the creation of a read and write pair of textures does: that of
    /// the readable resource, then that of the writable one, or nothing where
    /// there is no room for both.
    pub open spec fn creates_pair(
        &self,
        after: &ShaderBufferSet,
        read_binding: Binding,
        read_recipe: StorageRecipe,
        write_binding: Binding,
        write_recipe: StorageRecipe,
        r: Result<((ShaderBufferHandle, ShaderBufferHandle), Vec<DeviceAction>), ShaderBufferError>,
    ) -> bool {
        if self.has_room(2, read_binding.spec_group()) && self.has_room(
            2,
            write_binding.spec_group(),
        ) {
            let read_id = self.next_id();
            let write_id = (read_id + 1) as u32;
            &&& r is Ok
            &&& r->Ok_0.0.0 == read_binding.spec_handle(read_id)
            &&& r->Ok_0.0.1 == write_binding.spec_handle(write_id)
            &&& r->Ok_0.1@ == ShaderBufferInfo::spec_new_actions(read_binding, read_id, read_recipe)
                + ShaderBufferInfo::spec_new_actions(write_binding, write_id, write_recipe)
            &&& after.next_id() == read_id + 2
            &&& after.slots() == self.slots().insert(
                read_id,
                ShaderBufferInfo::spec_new(read_binding, read_id, read_recipe),
            ).insert(write_id, ShaderBufferInfo::spec_new(write_binding, write_id, write_recipe))
            &&& after.groups() == groups_with(
                groups_with(self.groups(), read_binding.spec_group(), read_id),
                write_binding.spec_group(),
                write_id,
            )
        } else {
            &&& r is Err
            &&& r->Err_0 == ShaderBufferError::CapacityExceeded
            &&& after.same_as(self)
        }
    }

    /// What a deletion does: the resource leaves the table and its group,
    /// whose other members keep their order, and the result holds the
    /// actions that release its GPU objects. A handle that names nothing is
    /// refused, and the registry stays as it is.
    pub open spec fn deletes(
        &self,
        after: &ShaderBufferSet,
        handle: ShaderBufferHandle,
        r: Result<Vec<DeviceAction>, ShaderBufferError>,
    ) -> bool {
        let id = handle.spec_id();
        if self.slots().contains_key(id) {
            &&& r is Ok
            &&& r->Ok_0@ == self.slots()[id].spec_delete()
            &&& after.slots() == self.slots().remove(id)
            &&& after.groups() == groups_without(self.groups(), self.slots()[id].spec_group(), id)
            &&& after.next_id() == self.next_id()
        } else {
            &&& r is Err
            &&& r->Err_0 == ShaderBufferError::HandleNotFound
            &&& after.same_as(self)
        }
    }

    /// What a swap does: the pair that `handle` names has its other storage
    /// in front, and nothing else changes. A handle that names nothing, or no
    /// pair, is refused, and the registry stays as it is.
    pub open spec fn swaps(
        &self,
        after: &ShaderBufferSet,
        handle: ShaderBufferHandle,
        r: Result<(), ShaderBufferError>,
    ) -> bool {
        let id = handle.spec_id();
        &&& after.groups() == self.groups()
        &&& after.next_id() == self.next_id()
        &&& if !self.slots().contains_key(id) {
            &&& r == Err::<(), ShaderBufferError>(ShaderBufferError::HandleNotFound)
            &&& after.slots() == self.slots()
        } else {
            match self.slots()[id].spec_swap() {
                Ok(swapped) => r is Ok && after.slots() == self.slots().insert(id, swapped),
                Err(e) => r == Err::<(), ShaderBufferError>(e) && after.slots() == self.slots(),
            }
        }
    }

    /// The writes of one value to the resource that `handle` names.
    pub open spec fn spec_set_buffer(&self, handle: ShaderBufferHandle) -> Result<
        Seq<DeviceAction>,
        ShaderBufferError,
    > {
        if self.slots().contains_key(handle.spec_id()) {
            self.slots()[handle.spec_id()].spec_set()
        } else {
            Err(ShaderBufferError::HandleNotFound)
        }
    }

    /// The image to show for `handle`, if it names a resource with one.
    pub open spec fn spec_image_handle(&self, handle: ShaderBufferHandle) -> Option<ResourceKey> {
        if self.slots().contains_key(handle.spec_id()) {
            self.slots()[handle.spec_id()].spec_image_handle()
        } else {
            None
        }
    }

    /// The copy of the image of `src` to that of `dst`. Both must name a
    /// resource, both resources must have an image, and both images must be
    /// on the GPU.
    pub open spec fn spec_copy_texture(
        &self,
        src: ShaderBufferHandle,
        dst: ShaderBufferHandle,
        gpu_images: Set<ResourceKey>,
    ) -> Result<DeviceAction, ShaderBufferError> {
        if !self.slots().contains_key(src.spec_id()) || !self.slots().contains_key(dst.spec_id()) {
            Err(ShaderBufferError::HandleNotFound)
        } else {
            match (
                self.slots()[src.spec_id()].spec_image_handle(),
                self.slots()[dst.spec_id()].spec_image_handle(),
            ) {
                (Some(from), Some(to)) => if gpu_images.contains(from) && gpu_images.contains(to) {
                    Ok(DeviceAction::CopyTexture { src: from, dst: to })
                } else {
                    Err(ShaderBufferError::MissingGpuResource)
                },
                _ => Err(ShaderBufferError::InvalidBufferKind),
            }
        }
    }

    /// Whether there is room for `count` more resources and for `group`.
    fn room_for(&self, count: u32, group: Option<u32>) -> (r: bool)
        ensures
            r == self.has_room(count as int, group),
    {
        if self.next_id > u32::MAX - count {
            return false;
        }
        match group {
            Some(g) => (g as usize) < usize::MAX,
            None => true,
        }
    }

    /// Creates a storage buffer of `size` bytes whose contents are undefined.
    pub fn add_storage_uninit(&mut self, size: u32, usage: u32, binding: Binding, readonly: bool) -> (r:
        Result<(ShaderBufferHandle, Vec<DeviceAction>), ShaderBufferError>)
        requires
            old(self).wf(),
        ensures
            final(self).wf(),
            old(self).creates(
                final(self),
                binding,
                StorageRecipe::StorageUninit { size, usage, readonly },
                r,
            ),
    {
        if !self.room_for(1, binding.group()) {
            return Err(ShaderBufferError::CapacityExceeded);
        }
        let (buffer, actions) = ShaderBufferInfo::new_storage_uninit(
            self.next_id,
            size,
            usage,
            binding,
            readonly,
        );
        let handle = self.store_buffer(binding, buffer);
        Ok((handle, actions))
    }

    /// Creates a storage buffer of `size` zero bytes.
    pub fn add_storage_zeroed(&mut self, size: u32, usage: u32, binding: Binding, readonly: bool) -> (r:
        Result<(ShaderBufferHandle, Vec<DeviceAction>), ShaderBufferError>)
        requires
            old(self).wf(),
        ensures
            final(self).wf(),
            old(self).creates(
                final(self),
                binding,
                StorageRecipe::StorageZeroed { size, usage, readonly },
                r,
            ),
    {
        if !self.room_for(1, binding.group()) {
            return Err(ShaderBufferError::CapacityExceeded);
        }
        let (buffer, actions) = ShaderBufferInfo::new_storage_zeroed(
            self.next_id,
            size,
            usage,
            binding,
            readonly,
        );
        let handle = self.store_buffer(binding, buffer);
        Ok((handle, actions))
    }

    /// Creates a storage buffer that holds the caller's value.
    pub fn add_storage_init(&mut self, usage: u32, binding: Binding, readonly: bool) -> (r: Result<
        (ShaderBufferHandle, Vec<DeviceAction>),
        ShaderBufferError,
    >)
        requires
            old(self).wf(),
        ensures
            final(self).wf(),
            old(self).creates(final(self), binding, StorageRecipe::StorageInit { usage, readonly }, r),
    {
        if !self.room_for(1, binding.group()) {
            return Err(ShaderBufferError::CapacityExceeded);
        }
        let (buffer, actions) = ShaderBufferInfo::new_storage_init(
            self.next_id,
            usage,
            binding,
            readonly,
        );
        let handle = self.store_buffer(binding, buffer);
        Ok((handle, actions))
    }

    /// Creates a uniform buffer that holds the caller's value.
    pub fn add_uniform_init(&mut self, usage: u32, binding: Binding) -> (r: Result<
        (ShaderBufferHandle, Vec<DeviceAction>),
        ShaderBufferError,
    >)
        requires
            old(self).wf(),
        ensures
            final(self).wf(),
            old(self).creates(final(self), binding, StorageRecipe::UniformInit { usage }, r),
    {
        if !self.room_for(1, binding.group()) {
            return Err(ShaderBufferError::CapacityExceeded);
        }
        let (buffer, actions) = ShaderBufferInfo::new_uniform_init(self.next_id, usage, binding);
        let handle = self.store_buffer(binding, buffer);
        Ok((handle, actions))
    }

    /// Creates a texture that a compute stage writes.
    pub fn add_write_texture(
        &mut self,
        width: u32,
        height: u32,
        format: TextureFormat,
        access: StorageTextureAccess,
        binding: Binding,
    ) -> (r: Result<(ShaderBufferHandle, Vec<DeviceAction>), ShaderBufferError>)
        requires
            old(self).wf(),
        ensures
            final(self).wf(),
            old(self).creates(
                final(self),
                binding,
                ShaderBufferInfo::write_texture_recipe(width, height, format, access),
                r,
            ),
    {
        if !self.room_for(1, binding.group()) {
            return Err(ShaderBufferError::CapacityExceeded);
        }
        let (buffer, actions) = ShaderBufferInfo::new_write_texture(
            self.next_id,
            width,
            height,
            format,
            access,
            binding,
        );
        let handle = self.store_buffer(binding, buffer);
        Ok((handle, actions))
    }

    /// Creates a readable and a writable texture of one size and format, and
    /// returns their handles in that order.
    pub fn add_read_write_texture(
        &mut self,
        width: u32,
        height: u32,
        format: TextureFormat,
        read_binding: Binding,
        write_binding: Binding,
    ) -> (r: Result<((ShaderBufferHandle, ShaderBufferHandle), Vec<DeviceAction>), ShaderBufferError>)
        requires
            old(self).wf(),
        ensures
            final(self).wf(),
            old(self).creates_pair(
                final(self),
                read_binding,
                ShaderBufferInfo::pair_read_recipe(width, height, format),
                write_binding,
                ShaderBufferInfo::pair_write_recipe(width, height, format),
                r,
            ),
    {
        if !self.room_for(2, read_binding.group()) || !self.room_for(2, write_binding.group()) {
            return Err(ShaderBufferError::CapacityExceeded);
        }
        let read_id = self.next_id;
        let write_id = read_id + 1;
        let ((read, write), actions) = ShaderBufferInfo::new_read_write_texture(
            read_id,
            write_id,
            width,
            height,
            format,
            read_binding,
            write_binding,
        );
        let read_handle = self.store_buffer(read_binding, read);
        let write_handle = self.store_buffer(write_binding, write);
        Ok(((read_handle, write_handle), actions))
    }

    /// The resources of the group `group`, in the order of its members.
    fn group_buffers(&self, group: usize) -> (r: Vec<ShaderBufferInfo>)
        requires
            self.wf(),
            group < self.groups().len(),
        ensures
            r@ == gathered(self.slots(), self.groups()[group as int]),
    {
        let mut buffers: Vec<ShaderBufferInfo> = Vec::new();
        let mut i: usize = 0;
        assert(self.groups()[group as int] == self.groups@[group as int]@);
        while i < self.groups[group].len()
            invariant
                self.wf(),
                group < self.groups@.len(),
                self.groups()[group as int] == self.groups@[group as int]@,
                i <= self.groups@[group as int]@.len(),
                buffers@ == gathered(self.slots(), self.groups@[group as int]@.take(i as int)),
            decreases self.groups@[group as int]@.len() - i,
        {
            let id = self.groups[group][i];
            assert(id == self.groups()[group as int][i as int]);
            let found = self.buffers.get(id);
            assert(self.slots().contains_key(id));
            buffers.push(found.unwrap());
            assert(buffers@ =~= gathered(
                self.slots(),
                self.groups@[group as int]@.take(i + 1),
            ));
            i = i + 1;
        }
        assert(self.groups@[group as int]@.take(i as int) =~= self.groups@[group as int]@);
        buffers
    }

    /// The entries of one bind group for each group, in the order of the
    /// groups, made from the resources as they are now.
    pub fn bind_groups(&self, gpu_images: &GpuImages) -> (r: Result<
        Vec<Vec<BindGroupEntry>>,
        ShaderBufferError,
    >)
        requires
            self.wf(),
        ensures
            rows_result(r) == bind_groups_of(self.slots(), self.groups(), gpu_images@),
    {
        let mut all: Vec<Vec<BindGroupEntry>> = Vec::new();
        let mut g: usize = 0;
        assert(self.groups().take(0) =~= Seq::empty());
        assert(rows(all) =~= Seq::empty());
        while g < self.groups.len()
            invariant
                self.wf(),
                g <= self.groups@.len(),
                self.groups@.len() == self.groups().len(),
                bind_groups_of(self.slots(), self.groups().take(g as int), gpu_images@) == Ok::<
                    Seq<Seq<BindGroupEntry>>,
                    ShaderBufferError,
                >(rows(all)),
            decreases self.groups@.len() - g,
        {
            proof {
                let next = self.groups().take(g + 1);
                assert(next.drop_last() =~= self.groups().take(g as int));
                assert(next.last() == self.groups()[g as int]);
            }
            let buffers = self.group_buffers(g);
            match bind_group_entries(&buffers, gpu_images) {
                Ok(entries) => {
                    let ghost before = rows(all);
                    all.push(entries);
                    assert(rows(all) =~= before.push(entries@));
                },
                Err(e) => {
                    proof {
                        lemma_bind_groups_fail_on(
                            self.slots(),
                            self.groups(),
                            gpu_images@,
                            g + 1,
                        );
                    }
                    return Err(e);
                },
            }
            g = g + 1;
        }
        assert(self.groups().take(g as int) =~= self.groups());
        Ok(all)
    }

    /// The layout of each group, in the order of the groups.
    pub fn bind_group_layouts(&self) -> (r: Vec<Vec<BindGroupLayoutEntry>>)
        requires
            self.wf(),
        ensures
            rows(r) == layouts_of(self.slots(), self.groups()),
    {
        let mut all: Vec<Vec<BindGroupLayoutEntry>> = Vec::new();
        let mut g: usize = 0;
        while g < self.groups.len()
            invariant
                self.wf(),
                g <= self.groups@.len(),
                self.groups@.len() == self.groups().len(),
                all@.len() == g,
                forall|k: int|
                    0 <= k < g ==> (#[trigger] all@[k])@ == layout_of(
                        gathered(self.slots(), self.groups()[k]),
                    ),
            decreases self.groups@.len() - g,
        {
            let buffers = self.group_buffers(g);
            all.push(bind_group_layout(&buffers));
            g = g + 1;
        }
        assert(rows(all) =~= layouts_of(self.slots(), self.groups()));
        all
    }

    /// Deletes the resource that `handle` names.
    pub fn delete_buffer(&mut self, handle: ShaderBufferHandle) -> (r: Result<
        Vec<DeviceAction>,
        ShaderBufferError,
    >)
        requires
            old(self).wf(),
        ensures
            final(self).wf(),
            old(self).deletes(final(self), handle, r),
    {
        let id = handle.id();
        match self.buffers.remove(id) {
            None => {
                assert(self.buffers@ =~= old(self).buffers@);
                Err(ShaderBufferError::HandleNotFound)
            },
            Some(buffer) => {
                match buffer.group() {
                    Some(group) => {
                        let index = group as usize;
                        let ghost all = rows(self.groups);
                        assert(all[index as int] == self.groups@[index as int]@);
                        let mut kept: Vec<u32> = Vec::new();
                        let mut i: usize = 0;
                        proof {
                            reveal(Seq::filter);
                            assert(self.groups@[index as int]@.take(0) =~= Seq::empty());
                        }
                        while i < self.groups[index].len()
                            invariant
                                index < self.groups@.len(),
                                i <= self.groups@[index as int]@.len(),
                                kept@ == self.groups@[index as int]@.take(i as int).filter(
                                    other_than(id),
                                ),
                            decreases self.groups@[index as int]@.len() - i,
                        {
                            let member = self.groups[index][i];
                            proof {
                                reveal(Seq::filter);
                                let next = self.groups@[index as int]@.take(i + 1);
                                assert(next.drop_last() =~= self.groups@[index as int]@.take(
                                    i as int,
                                ));
                                assert(next.last() == member);
                            }
                            if member != id {
                                kept.push(member);
                            }
                            i = i + 1;
                        }
                        assert(self.groups@[index as int]@.take(i as int)
                            =~= self.groups@[index as int]@);
                        self.groups.set(index, kept);
                        assert(rows(self.groups) =~= all.update(
                            index as int,
                            all[index as int].filter(other_than(id)),
                        ));
                    },
                    None => {},
                }
                proof {
                    lemma_delete_keeps_consistent(
                        old(self).slots(),
                        old(self).groups(),
                        old(self).next_id(),
                        id,
                    );
                }
                Ok(buffer.delete())
            },
        }
    }

    /// The image that a display should show for `handle`; `None` where the
    /// handle names nothing or a resource without an image.
    pub fn image_handle(&self, handle: ShaderBufferHandle) -> (r: Option<ResourceKey>)
        ensures
            r == self.spec_image_handle(handle),
    {
        match self.get_buffer(handle) {
            Some(buffer) => buffer.image_handle(),
            None => None,
        }
    }

    /// Puts the other storage of a double-buffered resource in front.
    pub fn swap_front_buffer(&mut self, handle: ShaderBufferHandle) -> (r: Result<
        (),
        ShaderBufferError,
    >)
        ensures
            old(self).swaps(final(self), handle, r),
            old(self).wf() ==> final(self).wf(),
    {
        let buffer = match self.get_buffer(handle) {
            Some(buffer) => buffer,
            None => { return Err(ShaderBufferError::HandleNotFound); },
        };
        let swapped = match buffer.swap() {
            Ok(swapped) => swapped,
            Err(e) => { return Err(e); },
        };
        self.buffers.insert(handle.id(), swapped);
        proof {
            if old(self).wf() {
                lemma_swap_keeps_consistent(
                    old(self).slots(),
                    old(self).groups(),
                    old(self).next_id(),
                    handle.spec_id(),
                );
            }
        }
        Ok(())
    }

    /// The actions that write one value to the resource that `handle` names.
    pub fn set_buffer(&self, handle: ShaderBufferHandle) -> (r: Result<
        Vec<DeviceAction>,
        ShaderBufferError,
    >)
        ensures
            seq_result(r) == self.spec_set_buffer(handle),
    {
        match self.get_buffer(handle) {
            Some(buffer) => buffer.set(),
            None => Err(ShaderBufferError::HandleNotFound),
        }
    }

    /// The action that copies the image of `src_handle` to that of
    /// `dst_handle`, given the images that the GPU holds.
    pub fn copy_texture(
        &self,
        src_handle: ShaderBufferHandle,
        dst_handle: ShaderBufferHandle,
        gpu_images: &GpuImages,
    ) -> (r: Result<DeviceAction, ShaderBufferError>)
        ensures
            r == self.spec_copy_texture(src_handle, dst_handle, gpu_images@),
    {
        let (src, dst) = match (self.get_buffer(src_handle), self.get_buffer(dst_handle)) {
            (Some(src), Some(dst)) => (src, dst),
            _ => { return Err(ShaderBufferError::HandleNotFound); },
        };
        let (from, to) = match (src.image_handle(), dst.image_handle()) {
            (Some(from), Some(to)) => (from, to),
            _ => { return Err(ShaderBufferError::InvalidBufferKind); },
        };
        if gpu_images.contains(from) && gpu_images.contains(to) {
            Ok(DeviceAction::CopyTexture { src: from, dst: to })
        } else {
            Err(ShaderBufferError::MissingGpuResource)
        }
    }

    /// A second registry that holds the same.
    pub fn duplicate(&self) -> (r: ShaderBufferSet)
        ensures
            r.same_as(self),
    {
        let mut groups: Vec<Vec<u32>> = Vec::new();
        let mut g: usize = 0;
        while g < self.groups.len()
            invariant
                g <= self.groups@.len(),
                groups@.len() == g,
                forall|k: int| 0 <= k < g ==> (#[trigger] groups@[k])@ == self.groups@[k]@,
            decreases self.groups@.len() - g,
        {
            let mut members: Vec<u32> = Vec::new();
            let mut i: usize = 0;
            while i < self.groups[g].len()
                invariant
                    g < self.groups@.len(),
                    i <= self.groups@[g as int]@.len(),
                    members@ == self.groups@[g as int]@.take(i as int),
                decreases self.groups@[g as int]@.len() - i,
            {
                members.push(self.groups[g][i]);
                assert(members@ =~= self.groups@[g as int]@.take(i + 1));
                i = i + 1;
            }
            assert(members@ =~= self.groups@[g as int]@);
            groups.push(members);
            g = g + 1;
        }
        assert(rows(groups) =~= rows(self.groups));
        ShaderBufferSet { buffers: self.buffers.duplicate(), groups, next_id: self.next_id }
    }
}

/// Where the bind groups of the first `n` groups fail, those of all fail,
/// and in the same way.
pub proof fn lemma_bind_groups_fail_on(
    slots: Map<u32, ShaderBufferInfo>,
    groups: Seq<Seq<u32>>,
    gpu_images: Set<ResourceKey>,
    n: int,
)
    requires
        0 <= n <= groups.len(),
        bind_groups_of(slots, groups.take(n), gpu_images) is Err,
    ensures
        bind_groups_of(slots, groups, gpu_images) == bind_groups_of(
            slots,
            groups.take(n),
            gpu_images,
        ),
    decreases groups.len() - n,
{
    if n == groups.len() {
        assert(groups.take(n) =~= groups);
    } else {
        let next = groups.take(n + 1);
        assert(next.drop_last() =~= groups.take(n));
        lemma_bind_groups_fail_on(slots, groups, gpu_images, n + 1);
    }
}

/// What is left of a group when one id is taken out: the other members,
/// each once and in their order.
pub proof fn lemma_members_without(members: Seq<u32>, id: u32)
    requires
        members.no_duplicates(),
    ensures
        members.filter(other_than(id)).no_duplicates(),
        forall|member: u32|
            members.filter(other_than(id)).contains(member) <==> (members.contains(member)
                && member != id),
    decreases members.len(),
{
    reveal(Seq::filter);
    let kept = members.filter(other_than(id));
    if members.len() > 0 {
        let head = members.drop_last();
        let last = members.last();
        lemma_members_without(head, id);
        let kept_head = head.filter(other_than(id));
        assert(!head.contains(last)) by {
            if head.contains(last) {
                let i = choose|i: int| 0 <= i < head.len() && head[i] == last;
                assert(members[i] == members[members.len() - 1]);
            }
        }
        assert forall|member: u32| members.contains(member) <==> (head.contains(member) || member
            == last) by {
            if members.contains(member) {
                let i = choose|i: int| 0 <= i < members.len() && members[i] == member;
                if i < head.len() {
                    assert(head[i] == member);
                }
            }
            if head.contains(member) {
                let i = choose|i: int| 0 <= i < head.len() && head[i] == member;
                assert(members[i] == member);
            }
            if member == last {
                assert(members[members.len() - 1] == member);
            }
        }
        if last != id {
            assert(kept == kept_head.push(last));
            assert forall|member: u32| kept.contains(member) <==> (kept_head.contains(member)
                || member == last) by {
                if kept.contains(member) {
                    let i = choose|i: int| 0 <= i < kept.len() && kept[i] == member;
                    if i < kept_head.len() {
                        assert(kept_head[i] == member);
                    }
                }
                if kept_head.contains(member) {
                    let i = choose|i: int| 0 <= i < kept_head.len() && kept_head[i] == member;
                    assert(kept[i] == member);
                }
                if member == last {
                    assert(kept[kept.len() - 1] == member);
                }
            }
            assert forall|i: int, j: int|
                0 <= i < kept.len() && 0 <= j < kept.len() && i != j implies kept[i]
                != kept[j] by {
                if i < kept_head.len() && j < kept_head.len() {
                    assert(kept[i] == kept_head[i] && kept[j] == kept_head[j]);
                } else if i < kept_head.len() {
                    assert(kept_head.contains(kept_head[i]));
                } else {
                    assert(kept_head.contains(kept_head[j]));
                }
            }
        } else {
            assert(kept == kept_head);
        }
    }
}

/// A registry stays consistent when a resource is deleted.
pub proof fn lemma_delete_keeps_consistent(
    slots: Map<u32, ShaderBufferInfo>,
    groups: Seq<Seq<u32>>,
    next_id: u32,
    id: u32,
)
    requires
        consistent(slots, groups, next_id),
        slots.contains_key(id),
    ensures
        consistent(slots.remove(id), groups_without(groups, slots[id].spec_group(), id), next_id),
{
    let slots2 = slots.remove(id);
    let groups2 = groups_without(groups, slots[id].spec_group(), id);
    assert forall|other: u32| #[trigger] slots2.contains_key(other) implies slots.contains_key(
        other,
    ) && other != id by {}
    match slots[id].spec_group() {
        None => {
            assert forall|g: int, i: int|
                0 <= g < groups2.len() && 0 <= i < groups2[g].len() implies {
                &&& slots2.contains_key(#[trigger] groups2[g][i])
                &&& in_group(slots2[groups2[g][i]], g)
            } by {
                assert(slots.contains_key(groups[g][i]));
            }
        },
        Some(grp) => {
            assert(grp < groups.len() && groups[grp as int].contains(id));
            lemma_members_without(groups[grp as int], id);
            assert forall|g: int, i: int|
                0 <= g < groups2.len() && 0 <= i < groups2[g].len() implies {
                &&& slots2.contains_key(#[trigger] groups2[g][i])
                &&& in_group(slots2[groups2[g][i]], g)
            } by {
                if g == grp {
                    let kept = groups[g].filter(other_than(id));
                    let member = groups2[g][i];
                    assert(kept[i] == member);
                    assert(kept.contains(member));
                    assert(groups[g].contains(member) && member != id);
                    let k = choose|k: int| 0 <= k < groups[g].len() && groups[g][k] == member;
                    assert(slots.contains_key(groups[g][k]));
                    assert(slots2.contains_key(member));
                    assert(in_group(slots2[member], g));
                } else {
                    assert(groups2[g] == groups[g]);
                    assert(slots.contains_key(groups[g][i]));
                    assert(in_group(slots[groups[g][i]], g));
                    assert(groups[g][i] != id);
                }
            }
            assert forall|other: u32| #[trigger] slots2.contains_key(other) implies match slots2[other].spec_group() {
                Some(g) => g < groups2.len() && groups2[g as int].contains(other),
                None => true,
            } by {
                assert(slots.contains_key(other));
            }
        },
    }
}

/// A registry stays consistent when a pair is swapped.
pub proof fn lemma_swap_keeps_consistent(
    slots: Map<u32, ShaderBufferInfo>,
    groups: Seq<Seq<u32>>,
    next_id: u32,
    id: u32,
)
    requires
        consistent(slots, groups, next_id),
        slots.contains_key(id),
        slots[id].spec_swap() is Ok,
    ensures
        consistent(slots.insert(id, slots[id].spec_swap()->Ok_0), groups, next_id),
{
    let slots2 = slots.insert(id, slots[id].spec_swap()->Ok_0);
    assert forall|other: u32| #[trigger] slots2.contains_key(other) implies slots.contains_key(
        other,
    ) && slots2[other].spec_group() == slots[other].spec_group() by {}
    assert forall|g: int, i: int| 0 <= g < groups.len() && 0 <= i < groups[g].len() implies {
        &&& slots2.contains_key(#[trigger] groups[g][i])
        &&& in_group(slots2[groups[g][i]], g)
    } by {
        assert(slots.contains_key(groups[g][i]));
    }
}

/// A registry stays consistent when a resource is stored under the next id.
pub proof fn lemma_store_keeps_consistent(
    slots: Map<u32, ShaderBufferInfo>,
    groups: Seq<Seq<u32>>,
    next_id: u32,
    group: Option<u32>,
    buffer: ShaderBufferInfo,
)
    requires
        consistent(slots, groups, next_id),
        next_id < u32::MAX,
        buffer.spec_group() == group,
    ensures
        consistent(
            slots.insert(next_id, buffer),
            groups_with(groups, group, next_id),
            (next_id + 1) as u32,
        ),
{
    let slots2 = slots.insert(next_id, buffer);
    let groups2 = groups_with(groups, group, next_id);
    assert(!slots.contains_key(next_id));
    match group {
        None => {},
        Some(grp) => {
            let all = grown(groups, grp + 1);
            assert forall|g: int, i: int| 0 <= g < all.len() && 0 <= i < all[g].len() implies g
                < groups.len() && all[g][i] == groups[g][i] && all[g][i] != next_id by {
                if g >= groups.len() {
                    assert(all[g] =~= Seq::<u32>::empty());
                }
                assert(slots.contains_key(groups[g][i]));
            }
            assert forall|g: int| 0 <= g < all.len() implies (#[trigger] all[g]).no_duplicates() by {
                if g >= groups.len() {
                    assert(all[g] =~= Seq::<u32>::empty());
                }
            }
            assert forall|g: int, i: int|
                0 <= g < groups2.len() && 0 <= i < groups2[g].len() implies {
                &&& slots2.contains_key(#[trigger] groups2[g][i])
                &&& in_group(slots2[groups2[g][i]], g)
            } by {
                if g == grp && i == all[g].len() {
                } else {
                    assert(groups2[g][i] == all[g][i]);
                }
            }
            assert forall|g: int| 0 <= g < groups2.len() implies (
            #[trigger] groups2[g]).no_duplicates() by {
                if g == grp {
                    assert(all[g].no_duplicates());
                    assert forall|i: int, j: int|
                        0 <= i < groups2[g].len() && 0 <= j < groups2[g].len() && i
                            != j implies groups2[g][i] != groups2[g][j] by {
                        if i < all[g].len() {
                            assert(groups2[g][i] == all[g][i]);
                        }
                        if j < all[g].len() {
                            assert(groups2[g][j] == all[g][j]);
                        }
                    }
                } else {
                    assert(groups2[g] == all[g]);
                }
            }
            assert forall|id: u32| #[trigger] slots2.contains_key(id) implies match slots2[id].spec_group() {
                Some(g) => g < groups2.len() && groups2[g as int].contains(id),
                None => true,
            } by {
                if id == next_id {
                    assert(groups2[grp as int][all[grp as int].len() as int] == id);
                } else {
                    assert(slots.contains_key(id));
                    match slots[id].spec_group() {
                        Some(g) => {
                            let i = choose|i: int| 0 <= i < groups[g as int].len() && groups[g as int][i] == id;
                            assert(all[g as int] == groups[g as int]);
                            assert(groups2[g as int][i] == id);
                        },
                        None => {},
                    }
                }
            }
        },
    }
}

} // verus!
