//! One GPU object of a resource: a buffer or an image, with what the
//! registry has to know to bind it.

use crate::gpu::{
    BindGroupEntry, BindingResource, BindingType, BufferBindingType, DeviceAction, GpuImages,
    ResourceKey, StorageTextureAccess,
};
use crate::handle::ShaderBufferError;
use vstd::prelude::*;
use wgpu_types::TextureFormat;

verus! {

/// A storage buffer, a uniform buffer, a sampled texture or a storage
/// texture. Buffers take writes of data; textures have an image.
#[derive(Clone, Copy, Debug, PartialEq, Eq)]
pub enum ShaderBufferStorage {
    Storage { buffer: ResourceKey, readonly: bool },
    Uniform(ResourceKey),
    Texture { image: ResourceKey },
    StorageTexture { format: TextureFormat, access: StorageTextureAccess, image: ResourceKey },
}

impl ShaderBufferStorage {
    /// The buffer behind a storage or uniform buffer.
    pub open spec fn spec_buffer(self) -> Option<ResourceKey> {
        match self {
            ShaderBufferStorage::Storage { buffer, .. } => Some(buffer),
            ShaderBufferStorage::Uniform(buffer) => Some(buffer),
            _ => None,
        }
    }

    /// The image behind a texture.
    pub open spec fn spec_image_handle(self) -> Option<ResourceKey> {
        match self {
            ShaderBufferStorage::Texture { image } => Some(image),
            ShaderBufferStorage::StorageTexture { image, .. } => Some(image),
            _ => None,
        }
    }

    /// The entry that binds this storage at `binding`, given the images that
    /// the GPU holds.
    pub open spec fn spec_bind_group_entry(self, binding: u32, gpu_images: Set<ResourceKey>) -> Result<
        BindGroupEntry,
        ShaderBufferError,
    > {
        match self.spec_image_handle() {
            None => Ok(
                BindGroupEntry {
                    binding,
                    resource: BindingResource::Buffer(self.spec_buffer().unwrap()),
                },
            ),
            Some(image) => if gpu_images.contains(image) {
                Ok(BindGroupEntry { binding, resource: BindingResource::TextureView(image) })
            } else {
                Err(ShaderBufferError::MissingGpuResource)
            },
        }
    }

    /// The binding type of this storage in a layout. Only a storage texture
    /// heeds `access_override`.
    pub open spec fn spec_binding_type(
        self,
        access_override: Option<StorageTextureAccess>,
    ) -> BindingType {
        match self {
            ShaderBufferStorage::Storage { readonly, .. } => BindingType::Buffer {
                ty: BufferBindingType::Storage { read_only: readonly },
                has_dynamic_offset: false,
                has_min_binding_size: false,
            },
            ShaderBufferStorage::Uniform(_) => BindingType::Buffer {
                ty: BufferBindingType::Uniform,
                has_dynamic_offset: false,
                has_min_binding_size: false,
            },
            ShaderBufferStorage::Texture { .. } => BindingType::Texture {
                filterable: true,
                multisampled: false,
            },
            ShaderBufferStorage::StorageTexture { format, access, .. } => {
                BindingType::StorageTexture {
                    access: match access_override {
                        Some(forced) => forced,
                        None => access,
                    },
                    format,
                }
            },
        }
    }

    /// The write of a value to this storage.
    pub open spec fn spec_set(self) -> Result<DeviceAction, ShaderBufferError> {
        match self.spec_buffer() {
            Some(buffer) => Ok(DeviceAction::WriteBuffer { buffer }),
            None => Err(ShaderBufferError::InvalidBufferKind),
        }
    }

    /// The release of the GPU object.
    pub open spec fn spec_delete(self) -> DeviceAction {
        match self.spec_image_handle() {
            Some(image) => DeviceAction::RemoveImage { image },
            None => DeviceAction::DestroyBuffer { buffer: self.spec_buffer().unwrap() },
        }
    }

    /// Binds the storage at `binding`: a buffer whole, a texture by the view
    /// of its image, which must be on the GPU.
    pub fn bind_group_entry(&self, binding: u32, gpu_images: &GpuImages) -> (r: Result<
        BindGroupEntry,
        ShaderBufferError,
    >)
        ensures
            r == self.spec_bind_group_entry(binding, gpu_images@),
    {
        match self {
            ShaderBufferStorage::Storage { buffer, .. } => Ok(
                BindGroupEntry { binding, resource: BindingResource::Buffer(*buffer) },
            ),
            ShaderBufferStorage::Uniform(buffer) => Ok(
                BindGroupEntry { binding, resource: BindingResource::Buffer(*buffer) },
            ),
            ShaderBufferStorage::Texture { image } => {
                if gpu_images.contains(*image) {
                    Ok(BindGroupEntry { binding, resource: BindingResource::TextureView(*image) })
                } else {
                    Err(ShaderBufferError::MissingGpuResource)
                }
            },
            ShaderBufferStorage::StorageTexture { image, .. } => {
                if gpu_images.contains(*image) {
                    Ok(BindGroupEntry { binding, resource: BindingResource::TextureView(*image) })
                } else {
                    Err(ShaderBufferError::MissingGpuResource)
                }
            },
        }
    }

    /// The binding type of the storage in a layout.
    pub fn bind_group_layout_entry_binding_type(
        &self,
        access_override: Option<StorageTextureAccess>,
    ) -> (r: BindingType)
        ensures
            r == self.spec_binding_type(access_override),
    {
        match self {
            ShaderBufferStorage::Storage { readonly, .. } => BindingType::Buffer {
                ty: BufferBindingType::Storage { read_only: *readonly },
                has_dynamic_offset: false,
                has_min_binding_size: false,
            },
            ShaderBufferStorage::Uniform(_) => BindingType::Buffer {
                ty: BufferBindingType::Uniform,
                has_dynamic_offset: false,
                has_min_binding_size: false,
            },
            ShaderBufferStorage::Texture { .. } => BindingType::Texture {
                filterable: true,
                multisampled: false,
            },
            ShaderBufferStorage::StorageTexture { format, access, .. } => {
                let access = match access_override {
                    Some(forced) => forced,
                    None => *access,
                };
                BindingType::StorageTexture { access, format: *format }
            },
        }
    }

    /// The action that writes a value to the storage. Textures take none.
    pub fn set(&self) -> (r: Result<DeviceAction, ShaderBufferError>)
        ensures
            r == self.spec_set(),
    {
        match self {
            ShaderBufferStorage::Storage { buffer, .. } => Ok(
                DeviceAction::WriteBuffer { buffer: *buffer },
            ),
            ShaderBufferStorage::Uniform(buffer) => Ok(DeviceAction::WriteBuffer { buffer: *buffer }),
            _ => Err(ShaderBufferError::InvalidBufferKind),
        }
    }

    /// The action that releases the GPU object: a buffer is destroyed, an
    /// image leaves the image table.
    pub fn delete(&self) -> (r: DeviceAction)
        ensures
            r == self.spec_delete(),
    {
        match self {
            ShaderBufferStorage::Storage { buffer, .. } => DeviceAction::DestroyBuffer {
                buffer: *buffer,
            },
            ShaderBufferStorage::Uniform(buffer) => DeviceAction::DestroyBuffer { buffer: *buffer },
            ShaderBufferStorage::Texture { image } => DeviceAction::RemoveImage { image: *image },
            ShaderBufferStorage::StorageTexture { image, .. } => DeviceAction::RemoveImage {
                image: *image,
            },
        }
    }

    /// The image of a texture; `None` for a buffer.
    pub fn image_handle(&self) -> (r: Option<ResourceKey>)
        ensures
            r == self.spec_image_handle(),
    {
        match self {
            ShaderBufferStorage::Texture { image } => Some(*image),
            ShaderBufferStorage::StorageTexture { image, .. } => Some(*image),
            _ => None,
        }
    }
}

} // verus!
