//! What holds of the registry across calls, proved from the contracts of
//! its operations.

use crate::gpu::{
    BindGroupEntry, BindingResource, BindingType, DeviceAction, ResourceKey, StorageTextureAccess,
};
use crate::handle::{Binding, ShaderBufferError, ShaderBufferHandle};
use crate::readback::ShaderBufferRenderSet;
use crate::registry::{
    bind_groups_of, in_group, layouts_of, lemma_delete_keeps_consistent, other_than,
    ShaderBufferSet,
};
use crate::slot::{FrontBuffer, ShaderBufferInfo, StorageRecipe};
use crate::storage::ShaderBufferStorage;
use vstd::prelude::*;

verus! {

/// A creation gives out an id that no resource of the registry has, and
/// raises the counter of ids by one.
pub proof fn law_created_id_is_fresh(
    before: ShaderBufferSet,
    after: ShaderBufferSet,
    binding: Binding,
    recipe: StorageRecipe,
    r: Result<(ShaderBufferHandle, Vec<DeviceAction>), ShaderBufferError>,
)
    requires
        before.wf(),
        before.creates(&after, binding, recipe, r),
        r is Ok,
    ensures
        !before.slots().contains_key(r->Ok_0.0.spec_id()),
        after.slots().contains_key(r->Ok_0.0.spec_id()),
        r->Ok_0.0.spec_id() == before.next_id(),
        after.next_id() == before.next_id() + 1,
{
}

/// Whether one operation of the registry leads from `before` to `after`: a
/// creation, the creation of a pair of textures, a deletion or a swap.
pub open spec fn step(before: ShaderBufferSet, after: ShaderBufferSet) -> bool {
    ||| exists|
        binding: Binding,
        recipe: StorageRecipe,
        r: Result<(ShaderBufferHandle, Vec<DeviceAction>), ShaderBufferError>,
    | #[trigger] before.creates(&after, binding, recipe, r)
    ||| exists|
        read_binding: Binding,
        read_recipe: StorageRecipe,
        write_binding: Binding,
        write_recipe: StorageRecipe,
        r: Result<((ShaderBufferHandle, ShaderBufferHandle), Vec<DeviceAction>), ShaderBufferError>,
    | #[trigger]
        before.creates_pair(&after, read_binding, read_recipe, write_binding, write_recipe, r)
    ||| exists|handle: ShaderBufferHandle, r: Result<Vec<DeviceAction>, ShaderBufferError>| #[trigger]
        before.deletes(&after, handle, r)
    ||| exists|handle: ShaderBufferHandle, r: Result<(), ShaderBufferError>| #[trigger]
        before.swaps(&after, handle, r)
}

/// Whether the operation that leads from `before` to `after` is a creation
/// that gives out a handle with the id `id`.
pub open spec fn gives_out(before: ShaderBufferSet, after: ShaderBufferSet, id: u32) -> bool {
    ||| exists|
        binding: Binding,
        recipe: StorageRecipe,
        r: Result<(ShaderBufferHandle, Vec<DeviceAction>), ShaderBufferError>,
    |
        {
            &&& #[trigger] before.creates(&after, binding, recipe, r)
            &&& r is Ok
            &&& r->Ok_0.0.spec_id() == id
        }
    ||| exists|
        read_binding: Binding,
        read_recipe: StorageRecipe,
        write_binding: Binding,
        write_recipe: StorageRecipe,
        r: Result<((ShaderBufferHandle, ShaderBufferHandle), Vec<DeviceAction>), ShaderBufferError>,
    |
        {
            &&& #[trigger] before.creates_pair(
                &after,
                read_binding,
                read_recipe,
                write_binding,
                write_recipe,
                r,
            )
            &&& r is Ok
            &&& (r->Ok_0.0.0.spec_id() == id || r->Ok_0.0.1.spec_id() == id)
        }
}

/// Whether `states` are the states that one registry goes through, each
/// reached from the one before it by one operation.
pub open spec fn is_history(states: Seq<ShaderBufferSet>) -> bool {
    forall|i: int| 0 <= i < states.len() - 1 ==> step(#[trigger] states[i], states[i + 1])
}

/// No operation lowers the counter of ids: a creation raises it where it
/// succeeds, and a deletion or a swap leaves it as it is.
pub proof fn law_counter_never_falls(states: Seq<ShaderBufferSet>, i: int, j: int)
    requires
        is_history(states),
        0 <= i <= j < states.len(),
    ensures
        states[i].next_id() <= states[j].next_id(),
    decreases j - i,
{
    if i < j {
        law_counter_never_falls(states, i, j - 1);
        assert(step(states[j - 1], states[j - 1 + 1]));
    }
}

/// The two handles that the creation of a pair of textures gives out have
/// different ids.
pub proof fn law_pair_gets_two_ids(
    before: ShaderBufferSet,
    after: ShaderBufferSet,
    read_binding: Binding,
    read_recipe: StorageRecipe,
    write_binding: Binding,
    write_recipe: StorageRecipe,
    r: Result<((ShaderBufferHandle, ShaderBufferHandle), Vec<DeviceAction>), ShaderBufferError>,
)
    requires
        before.creates_pair(&after, read_binding, read_recipe, write_binding, write_recipe, r),
        r is Ok,
    ensures
        r->Ok_0.0.0.spec_id() != r->Ok_0.0.1.spec_id(),
        r->Ok_0.0.0 != r->Ok_0.0.1,
{
}

/// Handles are never reused: in the life of one registry, an id that a
/// creation gives out is higher than every id given out before, whatever
/// was created, deleted or swapped in between.
pub proof fn law_handles_are_never_reused(
    states: Seq<ShaderBufferSet>,
    i: int,
    j: int,
    earlier: u32,
    later: u32,
)
    requires
        is_history(states),
        0 <= i < j < states.len() - 1,
        gives_out(states[i], states[i + 1], earlier),
        gives_out(states[j], states[j + 1], later),
    ensures
        earlier < later,
{
    assert(states[i].next_id() <= earlier < states[i + 1].next_id());
    assert(states[j].next_id() <= later);
    law_counter_never_falls(states, i + 1, j);
}

/// A swap exchanges the front and the back of a pair, and a second swap
/// restores the pair.
pub proof fn law_swap_is_an_involution(pair: ShaderBufferInfo)
    requires
        pair is Double,
    ensures
        pair.spec_swap() is Ok,
        pair.spec_swap()->Ok_0.spec_front_storage() == pair.spec_back_storage(),
        pair.spec_swap()->Ok_0.spec_back_storage() == pair.spec_front_storage(),
        pair.spec_swap()->Ok_0.spec_swap() == Ok::<ShaderBufferInfo, ShaderBufferError>(pair),
{
}

/// Swapping a double-buffered handle twice restores the registry: the image
/// to show, the layouts and the bind groups are what they were.
pub proof fn law_swap_twice_restores(
    start: ShaderBufferSet,
    once: ShaderBufferSet,
    twice: ShaderBufferSet,
    handle: ShaderBufferHandle,
    first: Result<(), ShaderBufferError>,
    second: Result<(), ShaderBufferError>,
    gpu_images: Set<ResourceKey>,
)
    requires
        start.swaps(&once, handle, first),
        once.swaps(&twice, handle, second),
        first is Ok,
    ensures
        second is Ok,
        twice.same_as(&start),
        twice.spec_image_handle(handle) == start.spec_image_handle(handle),
        layouts_of(twice.slots(), twice.groups()) == layouts_of(start.slots(), start.groups()),
        bind_groups_of(twice.slots(), twice.groups(), gpu_images) == bind_groups_of(
            start.slots(),
            start.groups(),
            gpu_images,
        ),
{
    let id = handle.spec_id();
    law_swap_is_an_involution(start.slots()[id]);
    assert(twice.slots() =~= start.slots());
}

/// A resource bound in one slot has one layout entry and, where its image is
/// on the GPU or it is a buffer, one bind group entry, both at that slot.
pub proof fn law_single_bound_has_one_entry(
    group: u32,
    slot: u32,
    storage: ShaderBufferStorage,
    gpu_images: Set<ResourceKey>,
)
    ensures
        ({
            let single = ShaderBufferInfo::SingleBound { binding: (group, slot), storage };
            let layout = single.spec_layout_entries();
            &&& layout.len() == 1
            &&& layout[0].binding == slot
            &&& layout[0].ty == storage.spec_binding_type(None)
            &&& match single.spec_bind_group_entries(gpu_images) {
                Ok(entries) => {
                    &&& entries.len() == 1
                    &&& entries[0].binding == slot
                    &&& storage.spec_image_handle() matches Some(image) ==> gpu_images.contains(
                        image,
                    )
                },
                Err(e) => {
                    &&& e == ShaderBufferError::MissingGpuResource
                    &&& storage.spec_image_handle() is Some
                    &&& !gpu_images.contains(storage.spec_image_handle().unwrap())
                },
            }
        }),
{
}

/// The resource that an entry binds `storage` by.
pub open spec fn resource_of(storage: ShaderBufferStorage) -> BindingResource {
    match storage.spec_image_handle() {
        Some(image) => BindingResource::TextureView(image),
        None => BindingResource::Buffer(storage.spec_buffer().unwrap()),
    }
}

/// Whether a binding type is a buffer, a sampled texture, or a storage
/// texture with the access `access`.
pub open spec fn has_access(ty: BindingType, access: StorageTextureAccess) -> bool {
    match ty {
        BindingType::StorageTexture { access: declared, .. } => declared == access,
        _ => true,
    }
}

/// A double-buffered resource has two layout entries and, where its images
/// are on the GPU, two bind group entries, at its two slots in their order.
/// The first slot binds the back storage, read-only; the second the front
/// storage, write-only. Which storage is which follows the selector.
pub proof fn law_double_has_two_entries(
    group: u32,
    slots: (u32, u32),
    front: FrontBuffer,
    storage: (ShaderBufferStorage, ShaderBufferStorage),
    gpu_images: Set<ResourceKey>,
)
    ensures
        ({
            let pair = ShaderBufferInfo::Double { binding: (group, slots), front, storage };
            let layout = pair.spec_layout_entries();
            &&& pair.spec_front_storage() == if front == FrontBuffer::First {
                storage.0
            } else {
                storage.1
            }
            &&& pair.spec_back_storage() == if front == FrontBuffer::First {
                storage.1
            } else {
                storage.0
            }
            &&& layout.len() == 2
            &&& layout[0].binding == slots.0
            &&& layout[1].binding == slots.1
            &&& has_access(layout[0].ty, StorageTextureAccess::ReadOnly)
            &&& has_access(layout[1].ty, StorageTextureAccess::WriteOnly)
            &&& match pair.spec_bind_group_entries(gpu_images) {
                Ok(entries) => {
                    &&& entries.len() == 2
                    &&& entries[0] == BindGroupEntry {
                        binding: slots.0,
                        resource: resource_of(pair.spec_back_storage()),
                    }
                    &&& entries[1] == BindGroupEntry {
                        binding: slots.1,
                        resource: resource_of(pair.spec_front_storage()),
                    }
                },
                Err(e) => e == ShaderBufferError::MissingGpuResource,
            }
        }),
{
}

/// After a deletion no group has the deleted id as a member, the group table
/// is as long as before, the group of the deleted resource holds its other
/// members in their order, and every other group is as it was.
pub proof fn law_deleted_id_leaves_its_group(
    before: ShaderBufferSet,
    after: ShaderBufferSet,
    handle: ShaderBufferHandle,
    r: Result<Vec<DeviceAction>, ShaderBufferError>,
)
    requires
        before.wf(),
        before.deletes(&after, handle, r),
        r is Ok,
    ensures
        !after.slots().contains_key(handle.spec_id()),
        after.groups().len() == before.groups().len(),
        forall|g: int|
            0 <= g < after.groups().len() ==> !(#[trigger] after.groups()[g]).contains(
                handle.spec_id(),
            ),
        forall|g: int|
            0 <= g < after.groups().len() ==> #[trigger] after.groups()[g] == if in_group(
                before.slots()[handle.spec_id()],
                g,
            ) {
                before.groups()[g].filter(other_than(handle.spec_id()))
            } else {
                before.groups()[g]
            },
{
    let id = handle.spec_id();
    lemma_delete_keeps_consistent(before.slots(), before.groups(), before.next_id(), id);
    assert forall|g: int| 0 <= g < after.groups().len() implies !(#[trigger] after.groups()[g])
        .contains(id) by {
        if after.groups()[g].contains(id) {
            let i = choose|i: int| 0 <= i < after.groups()[g].len() && after.groups()[g][i] == id;
            assert(after.slots().contains_key(after.groups()[g][i]));
        }
    }
}

/// A write to a double-buffered pair of buffers writes the same value to
/// both, the first storage first.
pub proof fn law_write_reaches_both_storages(
    binding: (u32, (u32, u32)),
    front: FrontBuffer,
    storage: (ShaderBufferStorage, ShaderBufferStorage),
)
    requires
        storage.0.spec_buffer() is Some,
        storage.1.spec_buffer() is Some,
    ensures
        (ShaderBufferInfo::Double { binding, front, storage }).spec_set() == Ok::<
            Seq<DeviceAction>,
            ShaderBufferError,
        >(
            seq![
                DeviceAction::WriteBuffer { buffer: storage.0.spec_buffer().unwrap() },
                DeviceAction::WriteBuffer { buffer: storage.1.spec_buffer().unwrap() },
            ],
        ),
{
    let pair = ShaderBufferInfo::Double { binding, front, storage };
    let storages = pair.spec_storages();
    assert(storages[0] == storage.0 && storages[1] == storage.1);
    assert(pair.spec_set()->Ok_0 =~= seq![
        DeviceAction::WriteBuffer { buffer: storage.0.spec_buffer().unwrap() },
        DeviceAction::WriteBuffer { buffer: storage.1.spec_buffer().unwrap() },
    ]);
}

/// A handle that was given a staging copy is refused a second one until the
/// first is released, whatever the registry holds by then.
pub proof fn law_second_staging_is_refused(
    before: ShaderBufferRenderSet,
    after: ShaderBufferRenderSet,
    handle: ShaderBufferHandle,
    buffers: ShaderBufferSet,
    later: ShaderBufferSet,
)
    requires
        before.spec_create_copy_buffer(handle, &buffers) is Ok,
        after.staged() == before.staged().insert(handle.spec_id()),
    ensures
        after.spec_create_copy_buffer(handle, &later) == Err::<DeviceAction, ShaderBufferError>(
            ShaderBufferError::DuplicateStaging,
        ),
{
}

} // verus!
