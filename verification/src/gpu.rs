//! What the registry and the device say to each other: keys for GPU objects,
//! the actions that the caller performs on the device, and the entries that
//! bind groups and their layouts are made of.

use vstd::prelude::*;
use wgpu_types::TextureFormat;

verus! {

/// `wgpu_types::TextureFormat`, which the registry carries from the caller
/// to the device without looking inside.
#[verifier::external_type_specification]
#[verifier::external_body]
pub struct ExTextureFormat(TextureFormat);

/// Which GPU object of a resource a key names.
#[derive(Clone, Copy, PartialEq, Eq, Structural, Hash, Debug)]
pub enum ResourceRole {
    /// The only storage of a single resource, or the first of a pair.
    First,
    /// The second storage of a double-buffered pair.
    Second,
    /// The staging copy that the CPU reads.
    Staging,
}

/// Names one GPU object: a buffer or an image. The key is made of the id of
/// the resource that owns the object and of the object's role in it.
#[derive(Clone, Copy, PartialEq, Eq, Structural, Hash, Debug)]
pub struct ResourceKey {
    pub id: u32,
    pub role: ResourceRole,
}

/// Buffer usage flag: the buffer can be mapped for reading.
pub const BUFFER_MAP_READ: u32 = 1;

/// Buffer usage flag: the buffer can be the destination of a copy.
pub const BUFFER_COPY_DST: u32 = 8;

/// The usage flags of a staging copy.
pub const STAGING_USAGE: u32 = BUFFER_COPY_DST | BUFFER_MAP_READ;

/// Texture usage flag: the texture can be the source of a copy.
pub const TEXTURE_COPY_SRC: u32 = 1;

/// Texture usage flag: the texture can be the destination of a copy.
pub const TEXTURE_COPY_DST: u32 = 2;

/// Texture usage flag: the texture can be bound as a sampled texture.
pub const TEXTURE_BINDING: u32 = 4;

/// Texture usage flag: the texture can be bound as a storage texture.
pub const TEXTURE_STORAGE_BINDING: u32 = 8;

/// The usage flags of a texture that a compute stage writes.
pub const WRITE_TEXTURE_USAGE: u32 = TEXTURE_COPY_DST | TEXTURE_STORAGE_BINDING | TEXTURE_BINDING;

/// The usage flags of the readable half of a read and write pair.
pub const PAIR_READ_TEXTURE_USAGE: u32 = TEXTURE_COPY_DST | TEXTURE_BINDING;

/// The usage flags of the writable half of a read and write pair.
pub const PAIR_WRITE_TEXTURE_USAGE: u32 = TEXTURE_COPY_SRC | TEXTURE_BINDING
    | TEXTURE_STORAGE_BINDING;

/// How a shader may access a storage texture.
#[derive(Clone, Copy, PartialEq, Eq, Structural, Hash, Debug)]
pub enum StorageTextureAccess {
    WriteOnly,
    ReadOnly,
    ReadWrite,
}

/// Where the pixels of an image are kept.
#[derive(Clone, Copy, PartialEq, Eq, Structural, Hash, Debug)]
pub enum ImageResidence {
    /// On the GPU only.
    RenderWorld,
    /// On the GPU and in main memory.
    MainAndRenderWorld,
}

/// One step for the caller to perform on the device.
#[derive(Clone, Copy, PartialEq, Eq, Debug)]
pub enum DeviceAction {
    /// Create a buffer of `size` bytes, not mapped; its contents are undefined.
    CreateBuffer { buffer: ResourceKey, size: u32, usage: u32 },
    /// Create a buffer that holds `size` zero bytes.
    CreateZeroedBuffer { buffer: ResourceKey, size: u32, usage: u32 },
    /// Create a buffer that holds the caller's value in the shader's layout.
    /// `usage` is added to the flags that such a buffer has anyway.
    CreateBufferWithData { buffer: ResourceKey, usage: u32 },
    /// Create a buffer of the size of `source`, not mapped.
    CreateBufferLike { buffer: ResourceKey, source: ResourceKey, usage: u32 },
    /// Create a two-dimensional image of one layer, every pixel the caller's
    /// fill, and put it in the image table.
    CreateImage {
        image: ResourceKey,
        width: u32,
        height: u32,
        format: TextureFormat,
        usage: u32,
        residence: ImageResidence,
    },
    /// Write the caller's value, in the shader's layout, at the start of the
    /// buffer.
    WriteBuffer { buffer: ResourceKey },
    /// Destroy the buffer.
    DestroyBuffer { buffer: ResourceKey },
    /// Take the image out of the image table.
    RemoveImage { image: ResourceKey },
    /// Copy the whole of the texture of `src` to that of `dst`.
    CopyTexture { src: ResourceKey, dst: ResourceKey },
    /// Copy the whole of the buffer `src` to the start of `dst`.
    CopyBuffer { src: ResourceKey, dst: ResourceKey },
    /// Map the buffer for reading, wait until the device has done so, copy
    /// the bytes out and unmap it. This blocks the caller.
    ReadBuffer { buffer: ResourceKey },
}

/// What a binding of a bind group refers to.
#[derive(Clone, Copy, PartialEq, Eq, Structural, Hash, Debug)]
pub enum BindingResource {
    /// The whole of a buffer.
    Buffer(ResourceKey),
    /// The default view of the texture of an image.
    TextureView(ResourceKey),
}

/// One entry of a bind group.
#[derive(Clone, Copy, PartialEq, Eq, Structural, Hash, Debug)]
pub struct BindGroupEntry {
    pub binding: u32,
    pub resource: BindingResource,
}

/// The kind of a buffer binding.
#[derive(Clone, Copy, PartialEq, Eq, Structural, Hash, Debug)]
pub enum BufferBindingType {
    Uniform,
    Storage { read_only: bool },
}

/// The type of a binding in a layout. Textures are two-dimensional.
#[derive(Clone, Copy, PartialEq, Eq, Debug)]
pub enum BindingType {
    /// A buffer, bound whole: no dynamic offset and no minimum size, where
    /// the two flags are `false`.
    Buffer { ty: BufferBindingType, has_dynamic_offset: bool, has_min_binding_size: bool },
    /// A sampled texture of floats.
    Texture { filterable: bool, multisampled: bool },
    /// A storage texture.
    StorageTexture { access: StorageTextureAccess, format: TextureFormat },
}

/// One entry of a bind group layout. It is visible to the compute stage and
/// is not an array.
#[derive(Clone, Copy, PartialEq, Eq, Debug)]
pub struct BindGroupLayoutEntry {
    pub binding: u32,
    pub ty: BindingType,
}

/// The images that have an allocation on the GPU.
pub struct GpuImages {
    pub realized: Vec<ResourceKey>,
}

impl View for GpuImages {
    type V = Set<ResourceKey>;

    open spec fn view(&self) -> Set<ResourceKey> {
        self.realized@.to_set()
    }
}

impl GpuImages {
    /// A table of the given images.
    pub fn new(realized: Vec<ResourceKey>) -> (r: GpuImages)
        ensures
            r.realized == realized,
    {
        GpuImages { realized }
    }

    /// Whether the image has an allocation on the GPU.
    pub fn contains(&self, image: ResourceKey) -> (r: bool)
        ensures
            r == self@.contains(image),
    {
        let mut i: usize = 0;
        while i < self.realized.len()
            invariant
                i <= self.realized@.len(),
                forall|j: int| 0 <= j < i ==> self.realized@[j] != image,
            decreases self.realized@.len() - i,
        {
            if self.realized[i] == image {
                return true;
            }
            i = i + 1;
        }
        false
    }
}

} // verus!
