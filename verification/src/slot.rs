//! A logical resource: one storage, bound or not, or a double-buffered pair
//! of which one is written while the other is read.

use crate::gpu::{
    BindGroupEntry, BindGroupLayoutEntry, DeviceAction, GpuImages, ImageResidence, ResourceKey,
    ResourceRole, StorageTextureAccess, PAIR_READ_TEXTURE_USAGE, PAIR_WRITE_TEXTURE_USAGE,
    WRITE_TEXTURE_USAGE,
};
use crate::handle::{Binding, ShaderBufferError};
use crate::storage::ShaderBufferStorage;
use vstd::prelude::*;
use wgpu_types::TextureFormat;

verus! {

/// Which storage of a double-buffered resource is being written.
#[derive(Clone, Copy, PartialEq, Eq, Structural, Debug)]
pub enum FrontBuffer {
    First,
    Second,
}

impl FrontBuffer {
    /// The other selector.
    pub open spec fn spec_toggle(self) -> FrontBuffer {
        match self {
            FrontBuffer::First => FrontBuffer::Second,
            FrontBuffer::Second => FrontBuffer::First,
        }
    }

    #[verifier::when_used_as_spec(spec_toggle)]
    pub fn toggle(self) -> (r: FrontBuffer)
        ensures
            r == self.spec_toggle(),
    {
        match self {
            FrontBuffer::First => FrontBuffer::Second,
            FrontBuffer::Second => FrontBuffer::First,
        }
    }
}

/// How to make one storage of a resource. A double-buffered resource makes
/// two storages from one recipe.
#[derive(Clone, Copy, Debug, PartialEq, Eq)]
pub enum StorageRecipe {
    /// A storage buffer of `size` bytes with undefined contents.
    StorageUninit { size: u32, usage: u32, readonly: bool },
    /// A storage buffer of `size` zero bytes.
    StorageZeroed { size: u32, usage: u32, readonly: bool },
    /// A storage buffer that holds the caller's value.
    StorageInit { usage: u32, readonly: bool },
    /// A uniform buffer that holds the caller's value.
    UniformInit { usage: u32 },
    /// A sampled texture, every pixel the caller's fill.
    Texture { width: u32, height: u32, format: TextureFormat, usage: u32, residence: ImageResidence },
    /// A storage texture, every pixel the caller's fill.
    StorageTexture {
        width: u32,
        height: u32,
        format: TextureFormat,
        access: StorageTextureAccess,
        usage: u32,
        residence: ImageResidence,
    },
}

impl StorageRecipe {
    /// The storage that the recipe makes under `key`.
    pub open spec fn spec_storage(self, key: ResourceKey) -> ShaderBufferStorage {
        match self {
            StorageRecipe::StorageUninit { readonly, .. } => ShaderBufferStorage::Storage {
                buffer: key,
                readonly,
            },
            StorageRecipe::StorageZeroed { readonly, .. } => ShaderBufferStorage::Storage {
                buffer: key,
                readonly,
            },
            StorageRecipe::StorageInit { readonly, .. } => ShaderBufferStorage::Storage {
                buffer: key,
                readonly,
            },
            StorageRecipe::UniformInit { .. } => ShaderBufferStorage::Uniform(key),
            StorageRecipe::Texture { .. } => ShaderBufferStorage::Texture { image: key },
            StorageRecipe::StorageTexture { format, access, .. } => {
                ShaderBufferStorage::StorageTexture { format, access, image: key }
            },
        }
    }

    /// The action that creates the GPU object of that storage.
    pub open spec fn spec_action(self, key: ResourceKey) -> DeviceAction {
        match self {
            StorageRecipe::StorageUninit { size, usage, .. } => DeviceAction::CreateBuffer {
                buffer: key,
                size,
                usage,
            },
            StorageRecipe::StorageZeroed { size, usage, .. } => DeviceAction::CreateZeroedBuffer {
                buffer: key,
                size,
                usage,
            },
            StorageRecipe::StorageInit { usage, .. } => DeviceAction::CreateBufferWithData {
                buffer: key,
                usage,
            },
            StorageRecipe::UniformInit { usage } => DeviceAction::CreateBufferWithData {
                buffer: key,
                usage,
            },
            StorageRecipe::Texture { width, height, format, usage, residence } => {
                DeviceAction::CreateImage { image: key, width, height, format, usage, residence }
            },
            StorageRecipe::StorageTexture { width, height, format, usage, residence, .. } => {
                DeviceAction::CreateImage { image: key, width, height, format, usage, residence }
            },
        }
    }

    /// Makes one storage under `key`, and says how to create its GPU object.
    pub fn make(&self, key: ResourceKey) -> (r: (ShaderBufferStorage, DeviceAction))
        ensures
            r.0 == self.spec_storage(key),
            r.1 == self.spec_action(key),
    {
        match self {
            StorageRecipe::StorageUninit { size, usage, readonly } => (
                ShaderBufferStorage::Storage { buffer: key, readonly: *readonly },
                DeviceAction::CreateBuffer { buffer: key, size: *size, usage: *usage },
            ),
            StorageRecipe::StorageZeroed { size, usage, readonly } => (
                ShaderBufferStorage::Storage { buffer: key, readonly: *readonly },
                DeviceAction::CreateZeroedBuffer { buffer: key, size: *size, usage: *usage },
            ),
            StorageRecipe::StorageInit { usage, readonly } => (
                ShaderBufferStorage::Storage { buffer: key, readonly: *readonly },
                DeviceAction::CreateBufferWithData { buffer: key, usage: *usage },
            ),
            StorageRecipe::UniformInit { usage } => (
                ShaderBufferStorage::Uniform(key),
                DeviceAction::CreateBufferWithData { buffer: key, usage: *usage },
            ),
            StorageRecipe::Texture { width, height, format, usage, residence } => (
                ShaderBufferStorage::Texture { image: key },
                DeviceAction::CreateImage {
                    image: key,
                    width: *width,
                    height: *height,
                    format: *format,
                    usage: *usage,
                    residence: *residence,
                },
            ),
            StorageRecipe::StorageTexture { width, height, format, access, usage, residence } => (
                ShaderBufferStorage::StorageTexture { format: *format, access: *access, image: key },
                DeviceAction::CreateImage {
                    image: key,
                    width: *width,
                    height: *height,
                    format: *format,
                    usage: *usage,
                    residence: *residence,
                },
            ),
        }
    }
}

/// A result that holds a `Vec`, seen as one that holds the `Vec`'s view.
pub open spec fn seq_result<T, E>(r: Result<Vec<T>, E>) -> Result<Seq<T>, E> {
    match r {
        Ok(v) => Ok(v@),
        Err(e) => Err(e),
    }
}

/// One logical resource of the registry.
#[derive(Clone, Copy, Debug, PartialEq, Eq)]
#[allow(inconsistent_fields)]
pub enum ShaderBufferInfo {
    /// One storage in the slot `binding.1` of the group `binding.0`.
    SingleBound { binding: (u32, u32), storage: ShaderBufferStorage },
    /// One storage in no group.
    SingleUnbound { storage: ShaderBufferStorage },
    /// Two storages in the slots `binding.1` of the group `binding.0`. The
    /// front one is written through the second slot; the other one, the back,
    /// is read through the first.
    Double {
        binding: (u32, (u32, u32)),
        front: FrontBuffer,
        storage: (ShaderBufferStorage, ShaderBufferStorage),
    },
}

impl ShaderBufferInfo {
    /// The resource that `binding` and `recipe` make under the id `id`. A
    /// new pair has its first storage in front.
    pub open spec fn spec_new(binding: Binding, id: u32, recipe: StorageRecipe) -> ShaderBufferInfo {
        let first = recipe.spec_storage(ResourceKey { id, role: ResourceRole::First });
        let second = recipe.spec_storage(ResourceKey { id, role: ResourceRole::Second });
        match binding {
            Binding::SingleBound(group, slot) => ShaderBufferInfo::SingleBound {
                binding: (group, slot),
                storage: first,
            },
            Binding::SingleUnbound => ShaderBufferInfo::SingleUnbound { storage: first },
            Binding::Double(group, slots) => ShaderBufferInfo::Double {
                binding: (group, slots),
                front: FrontBuffer::First,
                storage: (first, second),
            },
        }
    }

    /// The actions that create the GPU objects of `spec_new`, first storage
    /// first.
    pub open spec fn spec_new_actions(binding: Binding, id: u32, recipe: StorageRecipe) -> Seq<
        DeviceAction,
    > {
        let first = recipe.spec_action(ResourceKey { id, role: ResourceRole::First });
        let second = recipe.spec_action(ResourceKey { id, role: ResourceRole::Second });
        match binding {
            Binding::Double(..) => seq![first, second],
            _ => seq![first],
        }
    }

    /// The group that the resource is bound in, if any.
    pub open spec fn spec_group(self) -> Option<u32> {
        match self {
            ShaderBufferInfo::SingleBound { binding, .. } => Some(binding.0),
            ShaderBufferInfo::SingleUnbound { .. } => None,
            ShaderBufferInfo::Double { binding, .. } => Some(binding.0),
        }
    }

    /// The storage of a pair that is being written.
    pub open spec fn spec_front_storage(self) -> ShaderBufferStorage
        recommends
            self is Double,
    {
        match self->Double_front {
            FrontBuffer::First => self->Double_storage.0,
            FrontBuffer::Second => self->Double_storage.1,
        }
    }

    /// The storage of a pair that is being read.
    pub open spec fn spec_back_storage(self) -> ShaderBufferStorage
        recommends
            self is Double,
    {
        match self->Double_front {
            FrontBuffer::First => self->Double_storage.1,
            FrontBuffer::Second => self->Double_storage.0,
        }
    }

    /// The entries that bind the resource: none where it is unbound, one for
    /// a single storage, and for a pair the back at the first slot, then the
    /// front at the second. An image that the GPU does not hold fails them.
    pub open spec fn spec_bind_group_entries(self, gpu_images: Set<ResourceKey>) -> Result<
        Seq<BindGroupEntry>,
        ShaderBufferError,
    > {
        match self {
            ShaderBufferInfo::SingleBound { binding, storage } => {
                match storage.spec_bind_group_entry(binding.1, gpu_images) {
                    Ok(entry) => Ok(seq![entry]),
                    Err(e) => Err(e),
                }
            },
            ShaderBufferInfo::SingleUnbound { .. } => Ok(Seq::empty()),
            ShaderBufferInfo::Double { binding, .. } => {
                match (
                    self.spec_back_storage().spec_bind_group_entry(binding.1.0, gpu_images),
                    self.spec_front_storage().spec_bind_group_entry(binding.1.1, gpu_images),
                ) {
                    (Ok(back), Ok(front)) => Ok(seq![back, front]),
                    (Err(e), _) => Err(e),
                    (_, Err(e)) => Err(e),
                }
            },
        }
    }

    /// The layout entries of the resource, slot by slot as the bind group
    /// entries. In a pair the back is read-only and the front write-only,
    /// whatever access the storages were declared with.
    pub open spec fn spec_layout_entries(self) -> Seq<BindGroupLayoutEntry> {
        match self {
            ShaderBufferInfo::SingleBound { binding, storage } => seq![
                BindGroupLayoutEntry { binding: binding.1, ty: storage.spec_binding_type(None) },
            ],
            ShaderBufferInfo::SingleUnbound { .. } => Seq::empty(),
            ShaderBufferInfo::Double { binding, .. } => seq![
                BindGroupLayoutEntry {
                    binding: binding.1.0,
                    ty: self.spec_back_storage().spec_binding_type(
                        Some(StorageTextureAccess::ReadOnly),
                    ),
                },
                BindGroupLayoutEntry {
                    binding: binding.1.1,
                    ty: self.spec_front_storage().spec_binding_type(
                        Some(StorageTextureAccess::WriteOnly),
                    ),
                },
            ],
        }
    }

    /// The image to show: that of the one storage, or of the front of a pair.
    pub open spec fn spec_image_handle(self) -> Option<ResourceKey> {
        match self {
            ShaderBufferInfo::SingleBound { storage, .. } => storage.spec_image_handle(),
            ShaderBufferInfo::SingleUnbound { storage } => storage.spec_image_handle(),
            ShaderBufferInfo::Double { .. } => self.spec_front_storage().spec_image_handle(),
        }
    }

    /// The storages of the resource, the first of a pair first.
    pub open spec fn spec_storages(self) -> Seq<ShaderBufferStorage> {
        match self {
            ShaderBufferInfo::SingleBound { storage, .. } => seq![storage],
            ShaderBufferInfo::SingleUnbound { storage } => seq![storage],
            ShaderBufferInfo::Double { storage, .. } => seq![storage.0, storage.1],
        }
    }

    /// The writes of one value to every storage of the resource. They fail
    /// where a storage is a texture.
    pub open spec fn spec_set(self) -> Result<Seq<DeviceAction>, ShaderBufferError> {
        let storages = self.spec_storages();
        if forall|i: int| 0 <= i < storages.len() ==> (#[trigger] storages[i]).spec_set() is Ok {
            Ok(storages.map_values(|s: ShaderBufferStorage| s.spec_set().unwrap()))
        } else {
            Err(ShaderBufferError::InvalidBufferKind)
        }
    }

    /// The releases of every storage of the resource.
    pub open spec fn spec_delete(self) -> Seq<DeviceAction> {
        self.spec_storages().map_values(|s: ShaderBufferStorage| s.spec_delete())
    }

    /// The resource with the other storage in front. Only a pair has one.
    pub open spec fn spec_swap(self) -> Result<ShaderBufferInfo, ShaderBufferError> {
        match self {
            ShaderBufferInfo::Double { binding, front, storage } => Ok(
                ShaderBufferInfo::Double { binding, front: front.spec_toggle(), storage },
            ),
            _ => Err(ShaderBufferError::NotDoubleBuffered),
        }
    }

    /// The one storage buffer of a single resource: what a staging copy can
    /// be made of.
    pub open spec fn spec_single_storage_buffer(self) -> Option<ResourceKey> {
        match self {
            ShaderBufferInfo::SingleBound {
                storage: ShaderBufferStorage::Storage { buffer, .. },
                ..
            } => Some(buffer),
            ShaderBufferInfo::SingleUnbound {
                storage: ShaderBufferStorage::Storage { buffer, .. },
            } => Some(buffer),
            _ => None,
        }
    }

    /// Makes a resource under the id `id`: one storage from `recipe`, or two
    /// for a double-buffered declaration, with the actions that create them.
    pub fn new(binding: Binding, id: u32, recipe: StorageRecipe) -> (r: (
        ShaderBufferInfo,
        Vec<DeviceAction>,
    ))
        ensures
            r.0 == ShaderBufferInfo::spec_new(binding, id, recipe),
            r.1@ == ShaderBufferInfo::spec_new_actions(binding, id, recipe),
    {
        let (first, create_first) = recipe.make(ResourceKey { id, role: ResourceRole::First });
        let r = match binding {
            Binding::SingleBound(group, slot) => (
                ShaderBufferInfo::SingleBound { binding: (group, slot), storage: first },
                vec![create_first],
            ),
            Binding::SingleUnbound => (
                ShaderBufferInfo::SingleUnbound { storage: first },
                vec![create_first],
            ),
            Binding::Double(group, slots) => {
                let (second, create_second) = recipe.make(
                    ResourceKey { id, role: ResourceRole::Second },
                );
                (
                    ShaderBufferInfo::Double {
                        binding: (group, slots),
                        front: FrontBuffer::First,
                        storage: (first, second),
                    },
                    vec![create_first, create_second],
                )
            },
        };
        assert(r.1@ =~= ShaderBufferInfo::spec_new_actions(binding, id, recipe));
        r
    }

    /// A storage buffer of `size` bytes whose contents are undefined.
    pub fn new_storage_uninit(id: u32, size: u32, usage: u32, binding: Binding, readonly: bool) -> (r: (
        ShaderBufferInfo,
        Vec<DeviceAction>,
    ))
        ensures
            r.0 == ShaderBufferInfo::spec_new(
                binding,
                id,
                StorageRecipe::StorageUninit { size, usage, readonly },
            ),
            r.1@ == ShaderBufferInfo::spec_new_actions(
                binding,
                id,
                StorageRecipe::StorageUninit { size, usage, readonly },
            ),
    {
        ShaderBufferInfo::new(binding, id, StorageRecipe::StorageUninit { size, usage, readonly })
    }

    /// A storage buffer of `size` zero bytes.
    pub fn new_storage_zeroed(id: u32, size: u32, usage: u32, binding: Binding, readonly: bool) -> (r: (
        ShaderBufferInfo,
        Vec<DeviceAction>,
    ))
        ensures
            r.0 == ShaderBufferInfo::spec_new(
                binding,
                id,
                StorageRecipe::StorageZeroed { size, usage, readonly },
            ),
            r.1@ == ShaderBufferInfo::spec_new_actions(
                binding,
                id,
                StorageRecipe::StorageZeroed { size, usage, readonly },
            ),
    {
        ShaderBufferInfo::new(binding, id, StorageRecipe::StorageZeroed { size, usage, readonly })
    }

    /// A storage buffer that holds the caller's value.
    pub fn new_storage_init(id: u32, usage: u32, binding: Binding, readonly: bool) -> (r: (
        ShaderBufferInfo,
        Vec<DeviceAction>,
    ))
        ensures
            r.0 == ShaderBufferInfo::spec_new(
                binding,
                id,
                StorageRecipe::StorageInit { usage, readonly },
            ),
            r.1@ == ShaderBufferInfo::spec_new_actions(
                binding,
                id,
                StorageRecipe::StorageInit { usage, readonly },
            ),
    {
        ShaderBufferInfo::new(binding, id, StorageRecipe::StorageInit { usage, readonly })
    }

    /// A uniform buffer that holds the caller's value.
    pub fn new_uniform_init(id: u32, usage: u32, binding: Binding) -> (r: (
        ShaderBufferInfo,
        Vec<DeviceAction>,
    ))
        ensures
            r.0 == ShaderBufferInfo::spec_new(binding, id, StorageRecipe::UniformInit { usage }),
            r.1@ == ShaderBufferInfo::spec_new_actions(
                binding,
                id,
                StorageRecipe::UniformInit { usage },
            ),
    {
        ShaderBufferInfo::new(binding, id, StorageRecipe::UniformInit { usage })
    }

    /// The recipe of a texture that a compute stage writes.
    pub open spec fn write_texture_recipe(
        width: u32,
        height: u32,
        format: TextureFormat,
        access: StorageTextureAccess,
    ) -> StorageRecipe {
        StorageRecipe::StorageTexture {
            width,
            height,
            format,
            access,
            usage: WRITE_TEXTURE_USAGE,
            residence: ImageResidence::RenderWorld,
        }
    }

    /// The recipe of the readable half of a read and write pair of textures.
    pub open spec fn pair_read_recipe(width: u32, height: u32, format: TextureFormat) -> StorageRecipe {
        StorageRecipe::Texture {
            width,
            height,
            format,
            usage: PAIR_READ_TEXTURE_USAGE,
            residence: ImageResidence::MainAndRenderWorld,
        }
    }

    /// The recipe of the writable half of a read and write pair of textures.
    pub open spec fn pair_write_recipe(width: u32, height: u32, format: TextureFormat) -> StorageRecipe {
        StorageRecipe::StorageTexture {
            width,
            height,
            format,
            access: StorageTextureAccess::ReadWrite,
            usage: PAIR_WRITE_TEXTURE_USAGE,
            residence: ImageResidence::RenderWorld,
        }
    }

    /// A storage texture of the given size that a compute stage writes and
    /// that can be copied to.
    pub fn new_write_texture(
        id: u32,
        width: u32,
        height: u32,
        format: TextureFormat,
        access: StorageTextureAccess,
        binding: Binding,
    ) -> (r: (ShaderBufferInfo, Vec<DeviceAction>))
        ensures
            r.0 == ShaderBufferInfo::spec_new(
                binding,
                id,
                ShaderBufferInfo::write_texture_recipe(width, height, format, access),
            ),
            r.1@ == ShaderBufferInfo::spec_new_actions(
                binding,
                id,
                ShaderBufferInfo::write_texture_recipe(width, height, format, access),
            ),
    {
        ShaderBufferInfo::new(
            binding,
            id,
            StorageRecipe::StorageTexture {
                width,
                height,
                format,
                access,
                usage: WRITE_TEXTURE_USAGE,
                residence: ImageResidence::RenderWorld,
            },
        )
    }

    /// Two resources of one size and format, each with images of its own: a
    /// sampled texture for later stages to read, kept in main memory too, and
    /// a storage texture for the current stage to write, which can be copied
    /// from. The actions create the readable resource first.
    pub fn new_read_write_texture(
        read_id: u32,
        write_id: u32,
        width: u32,
        height: u32,
        format: TextureFormat,
        read_binding: Binding,
        write_binding: Binding,
    ) -> (r: ((ShaderBufferInfo, ShaderBufferInfo), Vec<DeviceAction>))
        ensures
            r.0.0 == ShaderBufferInfo::spec_new(
                read_binding,
                read_id,
                ShaderBufferInfo::pair_read_recipe(width, height, format),
            ),
            r.0.1 == ShaderBufferInfo::spec_new(
                write_binding,
                write_id,
                ShaderBufferInfo::pair_write_recipe(width, height, format),
            ),
            r.1@ == ShaderBufferInfo::spec_new_actions(
                read_binding,
                read_id,
                ShaderBufferInfo::pair_read_recipe(width, height, format),
            ) + ShaderBufferInfo::spec_new_actions(
                write_binding,
                write_id,
                ShaderBufferInfo::pair_write_recipe(width, height, format),
            ),
    {
        let (read, mut actions) = ShaderBufferInfo::new(
            read_binding,
            read_id,
            StorageRecipe::Texture {
                width,
                height,
                format,
                usage: PAIR_READ_TEXTURE_USAGE,
                residence: ImageResidence::MainAndRenderWorld,
            },
        );
        let (write, mut create_write) = ShaderBufferInfo::new(
            write_binding,
            write_id,
            StorageRecipe::StorageTexture {
                width,
                height,
                format,
                access: StorageTextureAccess::ReadWrite,
                usage: PAIR_WRITE_TEXTURE_USAGE,
                residence: ImageResidence::RenderWorld,
            },
        );
        actions.append(&mut create_write);
        ((read, write), actions)
    }

    /// The group that the resource is bound in, if any.
    pub fn group(&self) -> (r: Option<u32>)
        ensures
            r == self.spec_group(),
    {
        match self {
            ShaderBufferInfo::SingleBound { binding, .. } => Some(binding.0),
            ShaderBufferInfo::SingleUnbound { .. } => None,
            ShaderBufferInfo::Double { binding, .. } => Some(binding.0),
        }
    }

    /// The bind group entries of the resource, given the images that the GPU
    /// holds.
    pub fn bind_group_entries(&self, gpu_images: &GpuImages) -> (r: Result<
        Vec<BindGroupEntry>,
        ShaderBufferError,
    >)
        ensures
            seq_result(r) == self.spec_bind_group_entries(gpu_images@),
    {
        match self {
            ShaderBufferInfo::SingleBound { binding, storage } => {
                match storage.bind_group_entry(binding.1, gpu_images) {
                    Ok(entry) => {
                        let v = vec![entry];
                        assert(v@ =~= seq![entry]);
                        Ok(v)
                    },
                    Err(e) => Err(e),
                }
            },
            ShaderBufferInfo::SingleUnbound { .. } => {
                let v = Vec::new();
                assert(v@ =~= Seq::<BindGroupEntry>::empty());
                Ok(v)
            },
            ShaderBufferInfo::Double { binding, storage, front } => {
                let (back_storage, front_storage) = match front {
                    FrontBuffer::First => (storage.1, storage.0),
                    FrontBuffer::Second => (storage.0, storage.1),
                };
                let back = match back_storage.bind_group_entry(binding.1.0, gpu_images) {
                    Ok(entry) => entry,
                    Err(e) => { return Err(e); },
                };
                let front = match front_storage.bind_group_entry(binding.1.1, gpu_images) {
                    Ok(entry) => entry,
                    Err(e) => { return Err(e); },
                };
                let v = vec![back, front];
                assert(v@ =~= seq![back, front]);
                Ok(v)
            },
        }
    }

    /// The layout entries of the resource.
    pub fn bind_group_layout_entry(&self) -> (r: Vec<BindGroupLayoutEntry>)
        ensures
            r@ == self.spec_layout_entries(),
    {
        let r = match self {
            ShaderBufferInfo::SingleBound { binding, storage } => vec![
                BindGroupLayoutEntry {
                    binding: binding.1,
                    ty: storage.bind_group_layout_entry_binding_type(None),
                },
            ],
            ShaderBufferInfo::SingleUnbound { .. } => Vec::new(),
            ShaderBufferInfo::Double { binding, storage, front } => {
                let (back_storage, front_storage) = match front {
                    FrontBuffer::First => (storage.1, storage.0),
                    FrontBuffer::Second => (storage.0, storage.1),
                };
                vec![
                    BindGroupLayoutEntry {
                        binding: binding.1.0,
                        ty: back_storage.bind_group_layout_entry_binding_type(
                            Some(StorageTextureAccess::ReadOnly),
                        ),
                    },
                    BindGroupLayoutEntry {
                        binding: binding.1.1,
                        ty: front_storage.bind_group_layout_entry_binding_type(
                            Some(StorageTextureAccess::WriteOnly),
                        ),
                    },
                ]
            },
        };
        assert(r@ =~= self.spec_layout_entries());
        r
    }

    /// The image that a display should show now.
    pub fn image_handle(&self) -> (r: Option<ResourceKey>)
        ensures
            r == self.spec_image_handle(),
    {
        match self {
            ShaderBufferInfo::SingleBound { storage, .. } => storage.image_handle(),
            ShaderBufferInfo::SingleUnbound { storage } => storage.image_handle(),
            ShaderBufferInfo::Double { storage, front, .. } => {
                match front {
                    FrontBuffer::First => storage.0.image_handle(),
                    FrontBuffer::Second => storage.1.image_handle(),
                }
            },
        }
    }

    /// The actions that write one value to the resource: to its one storage,
    /// or to both storages of a pair, so that the two stay alike.
    pub fn set(&self) -> (r: Result<Vec<DeviceAction>, ShaderBufferError>)
        ensures
            seq_result(r) == self.spec_set(),
    {
        let ghost storages = self.spec_storages();
        match self {
            ShaderBufferInfo::SingleBound { storage, .. } => {
                assert(storages[0] == *storage);
                match storage.set() {
                    Ok(write) => {
                        let v = vec![write];
                        assert(v@ =~= self.spec_set().unwrap());
                        Ok(v)
                    },
                    Err(e) => Err(e),
                }
            },
            ShaderBufferInfo::SingleUnbound { storage } => {
                assert(storages[0] == *storage);
                match storage.set() {
                    Ok(write) => {
                        let v = vec![write];
                        assert(v@ =~= self.spec_set().unwrap());
                        Ok(v)
                    },
                    Err(e) => Err(e),
                }
            },
            ShaderBufferInfo::Double { storage, .. } => {
                assert(storages[0] == storage.0);
                assert(storages[1] == storage.1);
                let first = match storage.0.set() {
                    Ok(write) => write,
                    Err(e) => { return Err(e); },
                };
                let second = match storage.1.set() {
                    Ok(write) => write,
                    Err(e) => { return Err(e); },
                };
                let v = vec![first, second];
                assert(v@ =~= self.spec_set().unwrap());
                Ok(v)
            },
        }
    }

    /// The actions that release the GPU objects of the resource.
    pub fn delete(&self) -> (r: Vec<DeviceAction>)
        ensures
            r@ == self.spec_delete(),
    {
        let r = match self {
            ShaderBufferInfo::SingleBound { storage, .. } => vec![storage.delete()],
            ShaderBufferInfo::SingleUnbound { storage } => vec![storage.delete()],
            ShaderBufferInfo::Double { storage, .. } => vec![storage.0.delete(), storage.1.delete()],
        };
        assert(r@ =~= self.spec_delete());
        r
    }

    /// The resource with the other storage of the pair in front.
    pub fn swap(&self) -> (r: Result<ShaderBufferInfo, ShaderBufferError>)
        ensures
            r == self.spec_swap(),
    {
        match self {
            ShaderBufferInfo::Double { binding, front, storage } => Ok(
                ShaderBufferInfo::Double {
                    binding: *binding,
                    front: front.toggle(),
                    storage: *storage,
                },
            ),
            _ => Err(ShaderBufferError::NotDoubleBuffered),
        }
    }

    /// The buffer of a single storage buffer; `None` for any other resource.
    pub fn single_storage_buffer(&self) -> (r: Option<ResourceKey>)
        ensures
            r == self.spec_single_storage_buffer(),
    {
        match self {
            ShaderBufferInfo::SingleBound { storage, .. } => match storage {
                ShaderBufferStorage::Storage { buffer, .. } => Some(*buffer),
                _ => None,
            },
            ShaderBufferInfo::SingleUnbound { storage } => match storage {
                ShaderBufferStorage::Storage { buffer, .. } => Some(*buffer),
                _ => None,
            },
            _ => None,
        }
    }
}

} // verus!
