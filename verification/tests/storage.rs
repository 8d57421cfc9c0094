use bevy_compute::gpu::{
    BindGroupEntry, BindGroupLayoutEntry, BindingResource, BindingType, BufferBindingType,
    DeviceAction, GpuImages, ResourceKey, ResourceRole, StorageTextureAccess,
};
use bevy_compute::handle::{Binding, ShaderBufferError, ShaderBufferHandle};
use bevy_compute::registry::{bind_group_entries, bind_group_layout, ShaderBufferSet};
use bevy_compute::slot::{FrontBuffer, ShaderBufferInfo, StorageRecipe};
use bevy_compute::storage::ShaderBufferStorage;
use wgpu_types::TextureFormat;

fn first(id: u32) -> ResourceKey {
    ResourceKey { id, role: ResourceRole::First }
}

fn second(id: u32) -> ResourceKey {
    ResourceKey { id, role: ResourceRole::Second }
}

fn storage_texture(id: u32, access: StorageTextureAccess) -> ShaderBufferStorage {
    ShaderBufferStorage::StorageTexture { format: TextureFormat::Rgba8Unorm, access, image: first(id) }
}

#[test]
fn buffer_binds_whole_and_needs_no_image() {
    let storage = ShaderBufferStorage::Storage { buffer: first(3), readonly: true };
    let uniform = ShaderBufferStorage::Uniform(second(4));
    let none = GpuImages::new(vec![]);
    assert_eq!(
        storage.bind_group_entry(7, &none),
        Ok(BindGroupEntry { binding: 7, resource: BindingResource::Buffer(first(3)) })
    );
    assert_eq!(
        uniform.bind_group_entry(0, &none),
        Ok(BindGroupEntry { binding: 0, resource: BindingResource::Buffer(second(4)) })
    );
}

#[test]
fn texture_binds_by_view_once_on_the_gpu() {
    let sampled = ShaderBufferStorage::Texture { image: first(1) };
    let written = storage_texture(2, StorageTextureAccess::WriteOnly);
    let held = GpuImages::new(vec![first(1)]);
    assert_eq!(
        sampled.bind_group_entry(5, &held),
        Ok(BindGroupEntry { binding: 5, resource: BindingResource::TextureView(first(1)) })
    );
    assert_eq!(written.bind_group_entry(6, &held), Err(ShaderBufferError::MissingGpuResource));
    assert_eq!(sampled.image_handle(), Some(first(1)));
    assert_eq!(written.image_handle(), Some(first(2)));
    assert_eq!(sampled.set(), Err(ShaderBufferError::InvalidBufferKind));
    assert_eq!(written.set(), Err(ShaderBufferError::InvalidBufferKind));
    assert_eq!(sampled.delete(), DeviceAction::RemoveImage { image: first(1) });
    assert_eq!(written.delete(), DeviceAction::RemoveImage { image: first(2) });
}

#[test]
fn only_a_storage_texture_heeds_the_access_override() {
    let forced = Some(StorageTextureAccess::ReadOnly);
    let storage = ShaderBufferStorage::Storage { buffer: first(0), readonly: false };
    let uniform = ShaderBufferStorage::Uniform(first(1));
    let sampled = ShaderBufferStorage::Texture { image: first(2) };
    let written = storage_texture(3, StorageTextureAccess::WriteOnly);
    let buffer = |ty| BindingType::Buffer { ty, has_dynamic_offset: false, has_min_binding_size: false };
    for access_override in [None, forced] {
        assert_eq!(
            storage.bind_group_layout_entry_binding_type(access_override),
            buffer(BufferBindingType::Storage { read_only: false })
        );
        assert_eq!(
            uniform.bind_group_layout_entry_binding_type(access_override),
            buffer(BufferBindingType::Uniform)
        );
        assert_eq!(
            sampled.bind_group_layout_entry_binding_type(access_override),
            BindingType::Texture { filterable: true, multisampled: false }
        );
    }
    assert_eq!(
        written.bind_group_layout_entry_binding_type(None),
        BindingType::StorageTexture {
            access: StorageTextureAccess::WriteOnly,
            format: TextureFormat::Rgba8Unorm
        }
    );
    assert_eq!(
        written.bind_group_layout_entry_binding_type(forced),
        BindingType::StorageTexture {
            access: StorageTextureAccess::ReadOnly,
            format: TextureFormat::Rgba8Unorm
        }
    );
}

#[test]
fn entries_of_several_resources_follow_their_order() {
    let single = ShaderBufferInfo::SingleBound {
        binding: (0, 4),
        storage: ShaderBufferStorage::Uniform(first(0)),
    };
    let unbound = ShaderBufferInfo::SingleUnbound {
        storage: ShaderBufferStorage::Uniform(first(1)),
    };
    let pair = ShaderBufferInfo::Double {
        binding: (0, (1, 2)),
        front: FrontBuffer::Second,
        storage: (
            storage_texture(2, StorageTextureAccess::ReadWrite),
            ShaderBufferStorage::Texture { image: second(2) },
        ),
    };
    let buffers = vec![single, unbound, pair];
    let texture = |binding, access| BindGroupLayoutEntry {
        binding,
        ty: BindingType::StorageTexture { access, format: TextureFormat::Rgba8Unorm },
    };
    assert_eq!(
        bind_group_layout(&buffers),
        vec![
            BindGroupLayoutEntry {
                binding: 4,
                ty: BindingType::Buffer {
                    ty: BufferBindingType::Uniform,
                    has_dynamic_offset: false,
                    has_min_binding_size: false,
                },
            },
            texture(1, StorageTextureAccess::ReadOnly),
            BindGroupLayoutEntry {
                binding: 2,
                ty: BindingType::Texture { filterable: true, multisampled: false },
            },
        ]
    );
    assert_eq!(
        bind_group_entries(&buffers, &GpuImages::new(vec![second(2), first(2)])),
        Ok(vec![
            BindGroupEntry { binding: 4, resource: BindingResource::Buffer(first(0)) },
            BindGroupEntry { binding: 1, resource: BindingResource::TextureView(first(2)) },
            BindGroupEntry { binding: 2, resource: BindingResource::TextureView(second(2)) },
        ])
    );
    assert_eq!(
        bind_group_entries(&buffers, &GpuImages::new(vec![first(2)])),
        Err(ShaderBufferError::MissingGpuResource)
    );
    assert_eq!(pair.image_handle(), Some(second(2)));
    assert_eq!(pair.swap().unwrap().image_handle(), Some(first(2)));
    assert_eq!(pair.set(), Err(ShaderBufferError::InvalidBufferKind));
    assert_eq!(bind_group_layout(&vec![]), vec![]);
    assert_eq!(bind_group_entries(&vec![], &GpuImages::new(vec![])), Ok(vec![]));
}

#[test]
fn recipe_makes_storage_and_creation() {
    let recipe = StorageRecipe::StorageZeroed { size: 12, usage: 128, readonly: true };
    assert_eq!(
        recipe.make(second(9)),
        (
            ShaderBufferStorage::Storage { buffer: second(9), readonly: true },
            DeviceAction::CreateZeroedBuffer { buffer: second(9), size: 12, usage: 128 },
        )
    );
    let (single, actions) = ShaderBufferInfo::new(Binding::SingleBound(1, 2), 9, recipe);
    assert_eq!(
        single,
        ShaderBufferInfo::SingleBound {
            binding: (1, 2),
            storage: ShaderBufferStorage::Storage { buffer: first(9), readonly: true },
        }
    );
    assert_eq!(
        actions,
        vec![DeviceAction::CreateZeroedBuffer { buffer: first(9), size: 12, usage: 128 }]
    );
    assert_eq!(single.single_storage_buffer(), Some(first(9)));
    assert_eq!(single.delete(), vec![DeviceAction::DestroyBuffer { buffer: first(9) }]);
}

#[test]
fn group_table_grows_to_the_named_group() {
    let mut set = ShaderBufferSet::new();
    let (handle, _) = set.add_uniform_init(64, Binding::SingleBound(3, 0)).unwrap();
    assert_eq!(handle, ShaderBufferHandle::Bound { group: 3, id: 0 });
    let layouts = set.bind_group_layouts();
    assert_eq!(layouts.len(), 4);
    assert!(layouts[0].is_empty() && layouts[1].is_empty() && layouts[2].is_empty());
    assert_eq!(layouts[3].len(), 1);
    set.add_uniform_init(64, Binding::SingleBound(1, 0)).unwrap();
    assert_eq!(set.bind_group_layouts().len(), 4);
    set.delete_buffer(handle).unwrap();
    assert_eq!(set.bind_group_layouts().len(), 4);
    assert!(set.bind_group_layouts()[3].is_empty());
}

#[test]
fn many_resources_keep_their_order_through_deletions() {
    let mut set = ShaderBufferSet::new();
    let mut handles = Vec::new();
    for slot in 0..200u32 {
        let (handle, _) = set.add_storage_uninit(4, 128, Binding::SingleBound(0, slot), false).unwrap();
        assert_eq!(handle.id(), slot);
        handles.push(handle);
    }
    for handle in handles.iter().filter(|handle| handle.id() % 3 == 0) {
        assert_eq!(
            set.delete_buffer(*handle),
            Ok(vec![DeviceAction::DestroyBuffer { buffer: first(handle.id()) }])
        );
    }
    let expected: Vec<u32> = (0..200u32).filter(|slot| slot % 3 != 0).collect();
    let bound: Vec<u32> = set.bind_group_layouts()[0].iter().map(|entry| entry.binding).collect();
    assert_eq!(bound, expected);
    for handle in &handles {
        assert_eq!(set.get_buffer(*handle).is_some(), handle.id() % 3 != 0);
    }
    let (next, _) = set.add_storage_uninit(4, 128, Binding::SingleUnbound, false).unwrap();
    assert_eq!(next, ShaderBufferHandle::Unbound { id: 200 });
}
