use std::collections::HashMap;

use bevy_compute::gpu::{
    BindGroupEntry, BindGroupLayoutEntry, BindingResource, BindingType, BufferBindingType,
    DeviceAction, GpuImages, ImageResidence, ResourceKey, ResourceRole, StorageTextureAccess,
};
use bevy_compute::handle::{Binding, ShaderBufferError, ShaderBufferHandle};
use bevy_compute::readback::ShaderBufferRenderSet;
use bevy_compute::registry::ShaderBufferSet;
use bevy_compute::slot::{FrontBuffer, ShaderBufferInfo};
use bevy_compute::storage::ShaderBufferStorage;
use wgpu_types::{BufferUsages, TextureFormat};

const STORAGE: u32 = 128;

/// A device that keeps buffers in memory and performs the registry's actions.
struct Device {
    buffers: HashMap<ResourceKey, Vec<u8>>,
    images: Vec<ResourceKey>,
}

impl Device {
    fn new() -> Device {
        Device { buffers: HashMap::new(), images: Vec::new() }
    }

    fn perform(&mut self, action: DeviceAction, value: &[u8]) -> Option<Vec<u8>> {
        match action {
            DeviceAction::CreateBuffer { buffer, size, .. } => {
                self.buffers.insert(buffer, vec![0xAA; size as usize]);
            }
            DeviceAction::CreateZeroedBuffer { buffer, size, .. } => {
                self.buffers.insert(buffer, vec![0; size as usize]);
            }
            DeviceAction::CreateBufferWithData { buffer, .. } => {
                self.buffers.insert(buffer, value.to_vec());
            }
            DeviceAction::CreateBufferLike { buffer, source, .. } => {
                let size = self.buffers[&source].len();
                self.buffers.insert(buffer, vec![0x55; size]);
            }
            DeviceAction::CreateImage { image, .. } => self.images.push(image),
            DeviceAction::WriteBuffer { buffer } => {
                let target = self.buffers.get_mut(&buffer).unwrap();
                target[..value.len()].copy_from_slice(value);
            }
            DeviceAction::DestroyBuffer { buffer } => {
                self.buffers.remove(&buffer).unwrap();
            }
            DeviceAction::RemoveImage { image } => self.images.retain(|held| *held != image),
            DeviceAction::CopyTexture { .. } => {}
            DeviceAction::CopyBuffer { src, dst } => {
                let bytes = self.buffers[&src].clone();
                self.buffers.get_mut(&dst).unwrap()[..bytes.len()].copy_from_slice(&bytes);
            }
            DeviceAction::ReadBuffer { buffer } => return Some(self.buffers[&buffer].clone()),
        }
        None
    }

    fn perform_all(&mut self, actions: &[DeviceAction], value: &[u8]) {
        for action in actions {
            self.perform(*action, value);
        }
    }

    fn gpu_images(&self) -> GpuImages {
        GpuImages::new(self.images.clone())
    }
}

fn key(id: u32, role: ResourceRole) -> ResourceKey {
    ResourceKey { id, role }
}

fn storage_layout(binding: u32, read_only: bool) -> BindGroupLayoutEntry {
    BindGroupLayoutEntry {
        binding,
        ty: BindingType::Buffer {
            ty: BufferBindingType::Storage { read_only },
            has_dynamic_offset: false,
            has_min_binding_size: false,
        },
    }
}

#[test]
fn new_registry_is_empty() {
    let set = ShaderBufferSet::new();
    assert_eq!(set.bind_group_layouts(), Vec::<Vec<BindGroupLayoutEntry>>::new());
    assert_eq!(set.bind_groups(&GpuImages::new(vec![])), Ok(vec![]));
    assert_eq!(set.get_buffer(ShaderBufferHandle::Unbound { id: 0 }), None);
}

#[test]
fn readback_of_a_written_storage_buffer() {
    let mut device = Device::new();
    let mut set = ShaderBufferSet::new();
    let mut staging = ShaderBufferRenderSet::new();

    let (handle, actions) =
        set.add_storage_uninit(64, STORAGE, Binding::SingleBound(0, 0), false).unwrap();
    assert_eq!(handle, ShaderBufferHandle::Bound { group: 0, id: 0 });
    assert_eq!(
        actions,
        vec![DeviceAction::CreateBuffer {
            buffer: key(0, ResourceRole::First),
            size: 64,
            usage: STORAGE
        }]
    );
    device.perform_all(&actions, &[]);

    let writes = set.set_buffer(handle).unwrap();
    assert_eq!(writes, vec![DeviceAction::WriteBuffer { buffer: key(0, ResourceRole::First) }]);
    device.perform_all(&writes, &[0u8; 64]);

    let stage = staging.create_copy_buffer(handle, &set).unwrap();
    assert_eq!(
        stage,
        DeviceAction::CreateBufferLike {
            buffer: key(0, ResourceRole::Staging),
            source: key(0, ResourceRole::First),
            usage: 9,
        }
    );
    device.perform(stage, &[]);

    let copy = staging.copy_to_copy_buffer(handle, &set).unwrap();
    assert_eq!(
        copy,
        DeviceAction::CopyBuffer {
            src: key(0, ResourceRole::First),
            dst: key(0, ResourceRole::Staging)
        }
    );
    device.perform(copy, &[]);

    let read = staging.copy_from_copy_buffer_to_vec(handle).unwrap();
    assert_eq!(read, DeviceAction::ReadBuffer { buffer: key(0, ResourceRole::Staging) });
    assert_eq!(device.perform(read, &[]), Some(vec![0u8; 64]));

    let release = staging.remove_copy_buffer(handle).unwrap();
    assert_eq!(release, DeviceAction::DestroyBuffer { buffer: key(0, ResourceRole::Staging) });
    device.perform(release, &[]);
    assert!(!staging.has_copy_buffer(handle));
    assert_eq!(device.buffers.len(), 1);
}

#[test]
fn double_buffer_roles_flip_on_swap() {
    let mut device = Device::new();
    let mut set = ShaderBufferSet::new();
    let (handle, actions) =
        set.add_storage_uninit(4, STORAGE, Binding::Double(1, (0, 1)), false).unwrap();
    assert_eq!(handle, ShaderBufferHandle::Bound { group: 1, id: 0 });
    assert_eq!(actions.len(), 2);
    device.perform_all(&actions, &[]);

    let value = [7u8, 1, 2, 3];
    device.perform_all(&set.set_buffer(handle).unwrap(), &value);
    let first = key(0, ResourceRole::First);
    let second = key(0, ResourceRole::Second);
    assert_eq!(device.buffers[&first], value.to_vec());
    assert_eq!(device.buffers[&second], value.to_vec());

    let images = device.gpu_images();
    let before = set.bind_groups(&images).unwrap();
    assert_eq!(
        before,
        vec![
            vec![],
            vec![
                BindGroupEntry { binding: 0, resource: BindingResource::Buffer(second) },
                BindGroupEntry { binding: 1, resource: BindingResource::Buffer(first) },
            ],
        ]
    );

    assert_eq!(set.swap_front_buffer(handle), Ok(()));
    let after = set.bind_groups(&images).unwrap();
    assert_eq!(
        after,
        vec![
            vec![],
            vec![
                BindGroupEntry { binding: 0, resource: BindingResource::Buffer(first) },
                BindGroupEntry { binding: 1, resource: BindingResource::Buffer(second) },
            ],
        ]
    );
    assert_eq!(device.buffers[&first], value.to_vec());
    assert_eq!(device.buffers[&second], value.to_vec());
}

#[test]
fn deleted_texture_has_no_image() {
    let mut device = Device::new();
    let mut set = ShaderBufferSet::new();
    let (handle, actions) = set
        .add_write_texture(
            4,
            4,
            TextureFormat::R32Float,
            StorageTextureAccess::WriteOnly,
            Binding::SingleBound(0, 0),
        )
        .unwrap();
    assert_eq!(
        actions,
        vec![DeviceAction::CreateImage {
            image: key(0, ResourceRole::First),
            width: 4,
            height: 4,
            format: TextureFormat::R32Float,
            usage: 2 | 8 | 4,
            residence: ImageResidence::RenderWorld,
        }]
    );
    device.perform_all(&actions, &[]);
    assert_eq!(set.image_handle(handle), Some(key(0, ResourceRole::First)));

    let release = set.delete_buffer(handle).unwrap();
    assert_eq!(release, vec![DeviceAction::RemoveImage { image: key(0, ResourceRole::First) }]);
    device.perform_all(&release, &[]);
    assert!(device.images.is_empty());

    assert_eq!(set.image_handle(handle), None);
    assert_eq!(set.get_buffer(handle), None);
    assert_eq!(set.swap_front_buffer(handle), Err(ShaderBufferError::HandleNotFound));
    assert_eq!(set.set_buffer(handle), Err(ShaderBufferError::HandleNotFound));
    assert_eq!(set.delete_buffer(handle), Err(ShaderBufferError::HandleNotFound));
    assert_eq!(set.bind_groups(&device.gpu_images()), Ok(vec![vec![]]));
}

#[test]
fn handles_are_not_reused_after_deletion() {
    let mut set = ShaderBufferSet::new();
    let (a, _) = set.add_storage_zeroed(8, STORAGE, Binding::SingleBound(0, 0), true).unwrap();
    let (b, _) = set.add_uniform_init(0, Binding::SingleUnbound).unwrap();
    assert_eq!(a, ShaderBufferHandle::Bound { group: 0, id: 0 });
    assert_eq!(b, ShaderBufferHandle::Unbound { id: 1 });
    set.delete_buffer(b).unwrap();
    set.delete_buffer(a).unwrap();
    let (c, _) = set.add_storage_init(STORAGE, Binding::SingleBound(0, 0), false).unwrap();
    assert_eq!(c, ShaderBufferHandle::Bound { group: 0, id: 2 });
    assert_eq!(c.id(), 2);
    assert_eq!(c.group(), Some(0));
    assert_eq!(b.group(), None);
    assert_ne!(c, a);
    assert_ne!(c.id(), b.id());
}

#[test]
fn swap_twice_restores_image_and_entries() {
    let mut device = Device::new();
    let mut set = ShaderBufferSet::new();
    let (handle, actions) = set
        .add_write_texture(
            2,
            2,
            TextureFormat::Rgba8Unorm,
            StorageTextureAccess::ReadWrite,
            Binding::Double(0, (3, 5)),
        )
        .unwrap();
    device.perform_all(&actions, &[]);
    let images = device.gpu_images();
    let first = key(0, ResourceRole::First);
    let second = key(0, ResourceRole::Second);

    let image = set.image_handle(handle);
    let entries = set.bind_groups(&images);
    let layouts = set.bind_group_layouts();
    assert_eq!(image, Some(first));
    assert_eq!(
        entries,
        Ok(vec![vec![
            BindGroupEntry { binding: 3, resource: BindingResource::TextureView(second) },
            BindGroupEntry { binding: 5, resource: BindingResource::TextureView(first) },
        ]])
    );

    set.swap_front_buffer(handle).unwrap();
    assert_eq!(set.image_handle(handle), Some(second));
    assert_eq!(
        set.bind_groups(&images),
        Ok(vec![vec![
            BindGroupEntry { binding: 3, resource: BindingResource::TextureView(first) },
            BindGroupEntry { binding: 5, resource: BindingResource::TextureView(second) },
        ]])
    );
    assert_eq!(set.bind_group_layouts(), layouts);

    set.swap_front_buffer(handle).unwrap();
    assert_eq!(set.image_handle(handle), image);
    assert_eq!(set.bind_groups(&images), entries);
    assert_eq!(set.bind_group_layouts(), layouts);
}

#[test]
fn double_layout_forces_read_then_write_access() {
    let mut set = ShaderBufferSet::new();
    set.add_write_texture(
        2,
        2,
        TextureFormat::R32Float,
        StorageTextureAccess::ReadWrite,
        Binding::Double(0, (0, 1)),
    )
    .unwrap();
    set.add_write_texture(
        2,
        2,
        TextureFormat::R32Float,
        StorageTextureAccess::ReadWrite,
        Binding::SingleBound(0, 2),
    )
    .unwrap();
    let storage_texture = |binding, access| BindGroupLayoutEntry {
        binding,
        ty: BindingType::StorageTexture { access, format: TextureFormat::R32Float },
    };
    assert_eq!(
        set.bind_group_layouts(),
        vec![vec![
            storage_texture(0, StorageTextureAccess::ReadOnly),
            storage_texture(1, StorageTextureAccess::WriteOnly),
            storage_texture(2, StorageTextureAccess::ReadWrite),
        ]]
    );
}

#[test]
fn layout_entries_of_each_storage_kind() {
    let mut set = ShaderBufferSet::new();
    set.add_storage_uninit(16, STORAGE, Binding::SingleBound(0, 0), true).unwrap();
    set.add_uniform_init(0, Binding::SingleBound(0, 1)).unwrap();
    set.add_storage_zeroed(16, STORAGE, Binding::SingleUnbound, false).unwrap();
    let ((read, write), actions) = set
        .add_read_write_texture(
            8,
            4,
            TextureFormat::Rgba8Unorm,
            Binding::SingleBound(2, 0),
            Binding::SingleBound(0, 2),
        )
        .unwrap();
    assert_eq!(read, ShaderBufferHandle::Bound { group: 2, id: 3 });
    assert_eq!(write, ShaderBufferHandle::Bound { group: 0, id: 4 });
    assert_eq!(
        actions,
        vec![
            DeviceAction::CreateImage {
                image: key(3, ResourceRole::First),
                width: 8,
                height: 4,
                format: TextureFormat::Rgba8Unorm,
                usage: 2 | 4,
                residence: ImageResidence::MainAndRenderWorld,
            },
            DeviceAction::CreateImage {
                image: key(4, ResourceRole::First),
                width: 8,
                height: 4,
                format: TextureFormat::Rgba8Unorm,
                usage: 1 | 4 | 8,
                residence: ImageResidence::RenderWorld,
            },
        ]
    );
    assert_eq!(
        set.bind_group_layouts(),
        vec![
            vec![
                storage_layout(0, true),
                BindGroupLayoutEntry {
                    binding: 1,
                    ty: BindingType::Buffer {
                        ty: BufferBindingType::Uniform,
                        has_dynamic_offset: false,
                        has_min_binding_size: false,
                    },
                },
                BindGroupLayoutEntry {
                    binding: 2,
                    ty: BindingType::StorageTexture {
                        access: StorageTextureAccess::ReadWrite,
                        format: TextureFormat::Rgba8Unorm,
                    },
                },
            ],
            vec![],
            vec![BindGroupLayoutEntry {
                binding: 0,
                ty: BindingType::Texture { filterable: true, multisampled: false },
            }],
        ]
    );
}

#[test]
fn delete_keeps_the_order_of_the_other_members() {
    let mut set = ShaderBufferSet::new();
    let (a, _) = set.add_storage_uninit(4, STORAGE, Binding::SingleBound(0, 0), false).unwrap();
    let (b, _) = set.add_storage_uninit(4, STORAGE, Binding::SingleBound(0, 1), true).unwrap();
    let (c, _) = set.add_storage_uninit(4, STORAGE, Binding::SingleBound(0, 2), false).unwrap();
    let (d, _) = set.add_storage_uninit(4, STORAGE, Binding::SingleBound(1, 0), false).unwrap();
    let release = set.delete_buffer(b).unwrap();
    assert_eq!(release, vec![DeviceAction::DestroyBuffer { buffer: key(1, ResourceRole::First) }]);
    let groups = set.bind_groups(&GpuImages::new(vec![])).unwrap();
    assert_eq!(
        groups,
        vec![
            vec![
                BindGroupEntry {
                    binding: 0,
                    resource: BindingResource::Buffer(key(a.id(), ResourceRole::First))
                },
                BindGroupEntry {
                    binding: 2,
                    resource: BindingResource::Buffer(key(c.id(), ResourceRole::First))
                },
            ],
            vec![BindGroupEntry {
                binding: 0,
                resource: BindingResource::Buffer(key(d.id(), ResourceRole::First))
            }],
        ]
    );
    assert_eq!(
        set.bind_group_layouts(),
        vec![vec![storage_layout(0, false), storage_layout(2, false)], vec![storage_layout(0, false)]]
    );
    let (e, _) = set.add_storage_uninit(4, STORAGE, Binding::SingleBound(0, 7), false).unwrap();
    assert_eq!(e.id(), 4);
    assert_eq!(set.bind_group_layouts()[0].len(), 3);
    assert_eq!(set.bind_group_layouts()[0][2], storage_layout(7, false));
}

#[test]
fn delete_of_a_pair_releases_both_storages() {
    let mut set = ShaderBufferSet::new();
    let (pair, _) = set.add_storage_zeroed(4, STORAGE, Binding::Double(0, (0, 1)), false).unwrap();
    assert_eq!(
        set.delete_buffer(pair),
        Ok(vec![
            DeviceAction::DestroyBuffer { buffer: key(0, ResourceRole::First) },
            DeviceAction::DestroyBuffer { buffer: key(0, ResourceRole::Second) },
        ])
    );
}

#[test]
fn second_staging_is_refused() {
    let mut set = ShaderBufferSet::new();
    let mut staging = ShaderBufferRenderSet::new();
    let (handle, _) = set.add_storage_uninit(4, STORAGE, Binding::SingleUnbound, false).unwrap();
    assert!(staging.create_copy_buffer(handle, &set).is_ok());
    assert!(staging.has_copy_buffer(handle));
    assert_eq!(
        staging.create_copy_buffer(handle, &set),
        Err(ShaderBufferError::DuplicateStaging)
    );
    staging.remove_copy_buffer(handle).unwrap();
    assert!(staging.create_copy_buffer(handle, &set).is_ok());
}

#[test]
fn staging_errors() {
    let mut set = ShaderBufferSet::new();
    let mut staging = ShaderBufferRenderSet::new();
    let (single, _) = set.add_storage_uninit(4, STORAGE, Binding::SingleBound(0, 0), false).unwrap();
    let (pair, _) = set.add_storage_uninit(4, STORAGE, Binding::Double(0, (1, 2)), false).unwrap();
    let (uniform, _) = set.add_uniform_init(0, Binding::SingleBound(0, 3)).unwrap();
    let unknown = ShaderBufferHandle::Unbound { id: 99 };

    assert_eq!(staging.create_copy_buffer(unknown, &set), Err(ShaderBufferError::HandleNotFound));
    assert_eq!(staging.create_copy_buffer(pair, &set), Err(ShaderBufferError::InvalidBufferKind));
    assert_eq!(staging.create_copy_buffer(uniform, &set), Err(ShaderBufferError::InvalidBufferKind));
    assert!(!staging.has_copy_buffer(pair));

    assert_eq!(staging.copy_to_copy_buffer(unknown, &set), Err(ShaderBufferError::HandleNotFound));
    assert_eq!(staging.copy_to_copy_buffer(pair, &set), Err(ShaderBufferError::InvalidBufferKind));
    assert_eq!(staging.copy_to_copy_buffer(single, &set), Err(ShaderBufferError::MissingStaging));
    assert_eq!(
        staging.copy_from_copy_buffer_to_vec(single),
        Err(ShaderBufferError::MissingStaging)
    );
    assert_eq!(staging.remove_copy_buffer(single), Err(ShaderBufferError::MissingStaging));
}

#[test]
fn swap_of_a_single_resource_is_refused() {
    let mut set = ShaderBufferSet::new();
    let (single, _) = set.add_storage_uninit(4, STORAGE, Binding::SingleBound(0, 0), false).unwrap();
    let before = set.get_buffer(single);
    assert_eq!(set.swap_front_buffer(single), Err(ShaderBufferError::NotDoubleBuffered));
    assert_eq!(set.get_buffer(single), before);
}

#[test]
fn write_to_a_texture_is_refused() {
    let mut set = ShaderBufferSet::new();
    let (texture, _) = set
        .add_write_texture(
            1,
            1,
            TextureFormat::R32Float,
            StorageTextureAccess::WriteOnly,
            Binding::SingleUnbound,
        )
        .unwrap();
    assert_eq!(set.set_buffer(texture), Err(ShaderBufferError::InvalidBufferKind));
}

#[test]
fn bind_group_needs_the_image_on_the_gpu() {
    let mut set = ShaderBufferSet::new();
    let (texture, _) = set
        .add_write_texture(
            1,
            1,
            TextureFormat::R32Float,
            StorageTextureAccess::WriteOnly,
            Binding::SingleBound(0, 4),
        )
        .unwrap();
    let image = set.image_handle(texture).unwrap();
    assert_eq!(
        set.bind_groups(&GpuImages::new(vec![])),
        Err(ShaderBufferError::MissingGpuResource)
    );
    assert_eq!(
        set.bind_groups(&GpuImages::new(vec![image])),
        Ok(vec![vec![BindGroupEntry { binding: 4, resource: BindingResource::TextureView(image) }]])
    );
}

#[test]
fn copy_texture_checks_handles_kinds_and_images() {
    let mut set = ShaderBufferSet::new();
    let ((read, write), _) = set
        .add_read_write_texture(
            4,
            4,
            TextureFormat::Rgba8Unorm,
            Binding::SingleBound(0, 0),
            Binding::SingleBound(0, 1),
        )
        .unwrap();
    let (buffer, _) = set.add_storage_uninit(4, STORAGE, Binding::SingleUnbound, false).unwrap();
    let from = set.image_handle(write).unwrap();
    let to = set.image_handle(read).unwrap();
    let both = GpuImages::new(vec![to, from]);
    let unknown = ShaderBufferHandle::Bound { group: 0, id: 77 };

    assert_eq!(
        set.copy_texture(write, read, &both),
        Ok(DeviceAction::CopyTexture { src: from, dst: to })
    );
    assert_eq!(set.copy_texture(unknown, read, &both), Err(ShaderBufferError::HandleNotFound));
    assert_eq!(set.copy_texture(write, unknown, &both), Err(ShaderBufferError::HandleNotFound));
    assert_eq!(set.copy_texture(write, buffer, &both), Err(ShaderBufferError::InvalidBufferKind));
    assert_eq!(
        set.copy_texture(write, read, &GpuImages::new(vec![from])),
        Err(ShaderBufferError::MissingGpuResource)
    );
}

#[test]
fn duplicate_holds_the_same_and_is_independent() {
    let mut set = ShaderBufferSet::new();
    let (pair, _) = set.add_storage_uninit(4, STORAGE, Binding::Double(0, (0, 1)), false).unwrap();
    let copy = set.duplicate();
    set.swap_front_buffer(pair).unwrap();
    let images = GpuImages::new(vec![]);
    assert_eq!(copy.get_buffer(pair).unwrap().swap().unwrap(), set.get_buffer(pair).unwrap());
    assert_ne!(copy.bind_groups(&images), set.bind_groups(&images));
    assert_eq!(copy.bind_group_layouts(), set.bind_group_layouts());
}

#[test]
fn slot_constructors_and_selectors() {
    let (pair, actions) =
        ShaderBufferInfo::new_storage_init(5, STORAGE, Binding::Double(2, (0, 1)), true);
    let first = ShaderBufferStorage::Storage { buffer: key(5, ResourceRole::First), readonly: true };
    let second =
        ShaderBufferStorage::Storage { buffer: key(5, ResourceRole::Second), readonly: true };
    assert_eq!(
        pair,
        ShaderBufferInfo::Double {
            binding: (2, (0, 1)),
            front: FrontBuffer::First,
            storage: (first, second)
        }
    );
    assert_eq!(
        actions,
        vec![
            DeviceAction::CreateBufferWithData { buffer: key(5, ResourceRole::First), usage: STORAGE },
            DeviceAction::CreateBufferWithData {
                buffer: key(5, ResourceRole::Second),
                usage: STORAGE
            },
        ]
    );
    assert_eq!(pair.group(), Some(2));
    assert_eq!(pair.single_storage_buffer(), None);
    assert_eq!(pair.image_handle(), None);
    assert_eq!(FrontBuffer::First.toggle(), FrontBuffer::Second);
    assert_eq!(FrontBuffer::Second.toggle(), FrontBuffer::First);
    assert_eq!(first.image_handle(), None);
    assert_eq!(first.delete(), DeviceAction::DestroyBuffer { buffer: key(5, ResourceRole::First) });
    assert_eq!(first.set(), Ok(DeviceAction::WriteBuffer { buffer: key(5, ResourceRole::First) }));

    let (unbound, actions) = ShaderBufferInfo::new_uniform_init(1, 64, Binding::SingleUnbound);
    assert_eq!(
        unbound,
        ShaderBufferInfo::SingleUnbound {
            storage: ShaderBufferStorage::Uniform(key(1, ResourceRole::First))
        }
    );
    assert_eq!(actions.len(), 1);
    assert_eq!(unbound.bind_group_layout_entry(), vec![]);
    assert_eq!(unbound.bind_group_entries(&GpuImages::new(vec![])), Ok(vec![]));
    assert_eq!(unbound.swap(), Err(ShaderBufferError::NotDoubleBuffered));
    assert_eq!(Binding::SingleUnbound.handle(3), ShaderBufferHandle::Unbound { id: 3 });
    assert_eq!(Binding::Double(4, (0, 1)).handle(3), ShaderBufferHandle::Bound { group: 4, id: 3 });
}

#[test]
fn usage_flags_are_those_of_the_device() {
    assert_eq!(bevy_compute::gpu::BUFFER_MAP_READ, BufferUsages::MAP_READ.bits());
    assert_eq!(bevy_compute::gpu::BUFFER_COPY_DST, BufferUsages::COPY_DST.bits());
    assert_eq!(
        bevy_compute::gpu::STAGING_USAGE,
        (BufferUsages::COPY_DST | BufferUsages::MAP_READ).bits()
    );
    assert_eq!(STORAGE, BufferUsages::STORAGE.bits());
    let texture = |flags: wgpu_types::TextureUsages| flags.bits();
    assert_eq!(
        bevy_compute::gpu::WRITE_TEXTURE_USAGE,
        texture(
            wgpu_types::TextureUsages::COPY_DST
                | wgpu_types::TextureUsages::STORAGE_BINDING
                | wgpu_types::TextureUsages::TEXTURE_BINDING
        )
    );
    assert_eq!(
        bevy_compute::gpu::PAIR_READ_TEXTURE_USAGE,
        texture(wgpu_types::TextureUsages::COPY_DST | wgpu_types::TextureUsages::TEXTURE_BINDING)
    );
    assert_eq!(
        bevy_compute::gpu::PAIR_WRITE_TEXTURE_USAGE,
        texture(
            wgpu_types::TextureUsages::COPY_SRC
                | wgpu_types::TextureUsages::TEXTURE_BINDING
                | wgpu_types::TextureUsages::STORAGE_BINDING
        )
    );
}

#[test]
fn gpu_images_membership() {
    let images = GpuImages::new(vec![key(1, ResourceRole::First), key(2, ResourceRole::Second)]);
    assert!(images.contains(key(1, ResourceRole::First)));
    assert!(images.contains(key(2, ResourceRole::Second)));
    assert!(!images.contains(key(1, ResourceRole::Second)));
    assert!(!images.contains(key(3, ResourceRole::First)));
}

#[test]
fn handles_as_text() {
    assert_eq!(ShaderBufferHandle::Bound { group: 1, id: 2 }.describe(), "{ group(1), id(2) }");
    assert_eq!(ShaderBufferHandle::Unbound { id: 0 }.describe(), "{ id(0) }");
    assert_eq!(
        ShaderBufferHandle::Bound { group: 10, id: 4294967295 }.describe(),
        "{ group(10), id(4294967295) }"
    );
    assert_eq!(ShaderBufferHandle::Unbound { id: 907 }.describe(), "{ id(907) }");
    assert_eq!(bevy_compute::handle::decimal(120), "120");
}
