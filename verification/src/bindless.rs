//! The bindless table: one large descriptor set whose arrays are indexed by
//! the shaders at run time.
//!
//! Indices are handed out by a counter that only grows. Index 0 is taken at
//! construction for the white fallback texture and is never handed out
//! again; an index, once given, is never reused. A table that is full
//! refuses, and nothing is evicted to make room.

use vstd::prelude::*;
use crate::descriptor_allocator::DescriptorAllocator;
use crate::descriptor_layout::{
    DescriptorSetLayoutBuilder, DescriptorType, LayoutBinding, ShaderStages,
};
use crate::descriptor_set::{
    DescriptorResource, DescriptorSet, DescriptorWrite, ImageInfo, ImageLayout, PoolClass,
    SetView,
};
use crate::error::AshError;
use crate::texture::Texture;

verus! {

/// The binding that holds the sampled images.
pub const SAMPLED_IMAGE_BINDING: u32 = 0;

/// The binding that holds the storage images.
pub const STORAGE_IMAGE_BINDING: u32 = 1;

/// The binding that holds the storage buffers.
pub const STORAGE_BUFFER_BINDING: u32 = 2;

/// The handle that stands for "no object".
pub const NULL_HANDLE: u64 = 0;

/// The bindings of the bindless layout for a table of `max_resources`
/// slots: sampled images, storage images and storage buffers, each an array
/// of that length, readable by every graphics stage and by compute.
pub open spec fn bindless_bindings(max_resources: u32) -> Seq<LayoutBinding> {
    let stages = ShaderStages { vertex: false, fragment: false, compute: true, all_graphics: true };
    seq![
        LayoutBinding {
            binding: 0,
            descriptor_type: DescriptorType::CombinedImageSampler,
            descriptor_count: max_resources,
            stages,
        },
        LayoutBinding {
            binding: 1,
            descriptor_type: DescriptorType::StorageImage,
            descriptor_count: max_resources,
            stages,
        },
        LayoutBinding {
            binding: 2,
            descriptor_type: DescriptorType::StorageBuffer,
            descriptor_count: max_resources,
            stages,
        },
    ]
}

/// The write that puts a sampled image into slot `index`.
pub open spec fn sampled_image_write(set: u64, index: u32, image_view: u64, sampler: u64)
    -> DescriptorWrite {
    DescriptorWrite {
        set,
        binding: 0,
        array_index: index,
        descriptor_type: DescriptorType::CombinedImageSampler,
        resource: DescriptorResource::Image(
            ImageInfo { sampler, image_view, image_layout: ImageLayout::ShaderReadOnlyOptimal },
        ),
    }
}

/// The write that puts a storage image into slot `index`.
pub open spec fn storage_image_write(set: u64, index: u32, image_view: u64) -> DescriptorWrite {
    DescriptorWrite {
        set,
        binding: 1,
        array_index: index,
        descriptor_type: DescriptorType::StorageImage,
        resource: DescriptorResource::Image(
            ImageInfo { sampler: 0, image_view, image_layout: ImageLayout::General },
        ),
    }
}

/// The write that puts a storage buffer into slot `index`.
pub open spec fn storage_buffer_write(set: u64, index: u32, buffer: u64, offset: u64, range: u64)
    -> DescriptorWrite {
    DescriptorWrite {
        set,
        binding: 2,
        array_index: index,
        descriptor_type: DescriptorType::StorageBuffer,
        resource: DescriptorResource::Buffer { buffer, offset, range },
    }
}

/// Hands out the slots of the bindless descriptor set.
pub struct BindlessManager {
    descriptor_set: DescriptorSet,
    max_resources: u32,
    next_index: u32,
    default_texture: Option<Texture>,
}

/// The mathematical content of a [`BindlessManager`].
pub struct BindlessView {
    pub set: SetView,
    pub max_resources: u32,
    /// The index the next allocation will get.
    pub next_index: u32,
    /// The fallback texture that sits at index 0.
    pub default_texture: Option<Texture>,
}

impl BindlessView {
    /// The invariant of a constructed table: its set is the bindless set
    /// for `max_resources` slots, slot 0 holds the fallback texture, and the
    /// counter stands behind slot 0 and within the table.
    pub open spec fn wf(self) -> bool {
        &&& self.set.pool == PoolClass::Bindless
        &&& self.set.bindings == bindless_bindings(self.max_resources)
        &&& self.set.variable_count == Some(self.max_resources)
        &&& self.default_texture.is_some()
        &&& 1 <= self.next_index <= self.max_resources
    }

    /// The table can give one more index.
    pub open spec fn has_room(self) -> bool {
        self.next_index < self.max_resources
    }

    /// The table after one index was handed out.
    pub open spec fn bump(self) -> BindlessView {
        BindlessView { next_index: (self.next_index + 1) as u32, ..self }
    }
}

impl View for BindlessManager {
    type V = BindlessView;

    closed spec fn view(&self) -> BindlessView {
        BindlessView {
            set: self.descriptor_set@,
            max_resources: self.max_resources,
            next_index: self.next_index,
            default_texture: self.default_texture,
        }
    }
}

/// Every slot below `max_resources` of the three bindless bindings takes a
/// descriptor of the binding's own type.
pub proof fn lemma_bindless_slots(set: SetView, max_resources: u32, index: u32)
    requires
        set.bindings == bindless_bindings(max_resources),
        set.variable_count == Some(max_resources),
        index < max_resources,
    ensures
        set.slot_verdict(0, index, DescriptorType::CombinedImageSampler) is Ok,
        set.slot_verdict(1, index, DescriptorType::StorageImage) is Ok,
        set.slot_verdict(2, index, DescriptorType::StorageBuffer) is Ok,
{
    let bindings = bindless_bindings(max_resources);
    assert(bindings[0].binding == 0);
    assert(bindings[1].binding == 1);
    assert(bindings[2].binding == 2);
    assert(crate::descriptor_layout::first_binding_at(bindings, 0, 0));
    assert(crate::descriptor_layout::first_binding_at(bindings, 1, 1));
    assert(crate::descriptor_layout::first_binding_at(bindings, 2, 2));
    let c0 = choose|i: int| crate::descriptor_layout::first_binding_at(bindings, 0, i);
    let c1 = choose|i: int| crate::descriptor_layout::first_binding_at(bindings, 1, i);
    let c2 = choose|i: int| crate::descriptor_layout::first_binding_at(bindings, 2, i);
    assert(c0 == 0);
    assert(c1 == 1);
    assert(c2 == 2);
}

impl BindlessManager {
    /// The table's invariant, see [`BindlessView::wf`].
    pub open spec fn wf(&self) -> bool {
        self@.wf()
    }

    /// The bindings from which the device creates the bindless layout.
    pub fn layout_bindings(max_resources: u32) -> (bindings: Vec<LayoutBinding>)
        ensures
            bindings@ == bindless_bindings(max_resources),
    {
        let builder = Self::layout_builder(max_resources);
        let bindings = builder.bindings().clone();
        assert(bindings@ =~= bindless_bindings(max_resources));
        bindings
    }

    fn layout_builder(max_resources: u32) -> (builder: DescriptorSetLayoutBuilder)
        ensures
            builder@ == bindless_bindings(max_resources),
    {
        let stages = ShaderStages::all_graphics_and_compute();
        let builder = DescriptorSetLayoutBuilder::new().add_bindless_binding(
            SAMPLED_IMAGE_BINDING,
            DescriptorType::CombinedImageSampler,
            stages,
            max_resources,
        ).add_bindless_binding(
            STORAGE_IMAGE_BINDING,
            DescriptorType::StorageImage,
            stages,
            max_resources,
        ).add_bindless_binding(
            STORAGE_BUFFER_BINDING,
            DescriptorType::StorageBuffer,
            stages,
            max_resources,
        );
        assert(builder@ =~= bindless_bindings(max_resources));
        builder
    }

    /// Sets up a table of `max_resources` slots.
    ///
    /// `layout` is the handle of the layout created from
    /// [`Self::layout_bindings`], `set` the handle of the descriptor set
    /// allocated with it, and `default_texture` the white fallback texture.
    /// The set is taken from the bindless pool of `allocator`, index 0 is
    /// given to the fallback texture, and the answer carries the write that
    /// puts it there.
    ///
    /// Refused when the bindless pool is used up, and, after the set was
    /// taken, when the table has no slot for the fallback texture.
    pub fn new(
        allocator: &mut DescriptorAllocator,
        max_resources: u32,
        layout: u64,
        set: u64,
        default_texture: Texture,
    ) -> (result: Result<(BindlessManager, DescriptorWrite), AshError>)
        requires
            old(allocator).wf(),
        ensures
            final(allocator).wf(),
            match result {
                Ok((manager, write)) => {
                    &&& old(allocator)@.has_room(PoolClass::Bindless)
                    &&& max_resources > 0
                    &&& final(allocator)@ == old(allocator)@.take(PoolClass::Bindless)
                    &&& manager.wf()
                    &&& manager@ == (BindlessView {
                        set: SetView {
                            handle: set,
                            pool: PoolClass::Bindless,
                            layout,
                            bindings: bindless_bindings(max_resources),
                            variable_count: Some(max_resources),
                        },
                        max_resources,
                        next_index: 1,
                        default_texture: Some(default_texture),
                    })
                    &&& write == sampled_image_write(
                        set,
                        0,
                        default_texture.view,
                        default_texture.sampler,
                    )
                },
                Err(error) => if !old(allocator)@.has_room(PoolClass::Bindless) {
                    &&& error == AshError::DescriptorPoolExhausted(PoolClass::Bindless)
                    &&& final(allocator)@ == old(allocator)@
                } else {
                    &&& max_resources == 0
                    &&& error == AshError::BindlessTableFull { capacity: 0 }
                    &&& final(allocator)@ == old(allocator)@.take(PoolClass::Bindless)
                },
            },
    {
        let set_layout = Self::layout_builder(max_resources).build(layout);
        let descriptor_set = match allocator.allocate_bindless_set(&set_layout, max_resources, set) {
            Ok(descriptor_set) => descriptor_set,
            Err(error) => {
                return Err(error);
            },
        };
        let mut manager = BindlessManager {
            descriptor_set,
            max_resources,
            next_index: 0,
            default_texture: None,
        };
        let index = match manager.allocate_index() {
            Ok(index) => index,
            Err(error) => {
                return Err(error);
            },
        };
        let info = ImageInfo {
            sampler: default_texture.sampler(),
            image_view: default_texture.view(),
            image_layout: ImageLayout::ShaderReadOnlyOptimal,
        };
        proof {
            lemma_bindless_slots(manager.descriptor_set@, max_resources, index);
        }
        let write = match manager.descriptor_set.update_image_at(
            SAMPLED_IMAGE_BINDING,
            index,
            info,
            DescriptorType::CombinedImageSampler,
        ) {
            Ok(write) => write,
            Err(error) => {
                return Err(error);
            },
        };
        manager.default_texture = Some(default_texture);
        Ok((manager, write))
    }

    /// The native handle of the bindless descriptor set.
    pub fn descriptor_set(&self) -> (handle: u64)
        ensures
            handle == self@.set.handle,
    {
        self.descriptor_set.handle()
    }

    /// The native handle of the bindless layout.
    pub fn layout(&self) -> (handle: u64)
        ensures
            handle == self@.set.layout,
    {
        self.descriptor_set.layout()
    }

    /// The number of slots of the table.
    pub fn max_resources(&self) -> (capacity: u32)
        ensures
            capacity == self@.max_resources,
    {
        self.max_resources
    }

    /// The index that the next allocation will get.
    pub fn next_index(&self) -> (index: u32)
        ensures
            index == self@.next_index,
    {
        self.next_index
    }

    /// The fallback texture at index 0.
    pub fn default_texture(&self) -> (texture: Option<Texture>)
        ensures
            texture == self@.default_texture,
    {
        self.default_texture
    }

    /// Hands out the next index. Refused, with the counter unchanged, when
    /// every slot of the table is taken.
    pub fn allocate_index(&mut self) -> (result: Result<u32, AshError>)
        ensures
            match result {
                Ok(index) => {
                    &&& old(self)@.has_room()
                    &&& index == old(self)@.next_index
                    &&& final(self)@ == old(self)@.bump()
                },
                Err(error) => {
                    &&& !old(self)@.has_room()
                    &&& error == AshError::BindlessTableFull { capacity: old(self)@.max_resources }
                    &&& final(self)@ == old(self)@
                },
            },
            old(self).wf() ==> final(self).wf(),
            old(self).wf() && result is Ok ==> result->Ok_0 != 0,
    {
        if self.next_index >= self.max_resources {
            return Err(AshError::BindlessTableFull { capacity: self.max_resources });
        }
        let index = self.next_index;
        self.next_index = self.next_index + 1;
        Ok(index)
    }

    /// Gives a sampled image the next index and answers with the index and
    /// the write that puts the image into its slot. Refused, with the table
    /// unchanged, when the table is full.
    pub fn add_sampled_image(&mut self, image_view: u64, sampler: u64) -> (result: Result<
        (u32, DescriptorWrite),
        AshError,
    >)
        requires
            old(self).wf(),
        ensures
            final(self).wf(),
            match result {
                Ok((index, write)) => {
                    &&& old(self)@.has_room()
                    &&& index == old(self)@.next_index
                    &&& index != 0
                    &&& final(self)@ == old(self)@.bump()
                    &&& write == sampled_image_write(
                        old(self)@.set.handle,
                        index,
                        image_view,
                        sampler,
                    )
                },
                Err(error) => {
                    &&& !old(self)@.has_room()
                    &&& error == AshError::BindlessTableFull { capacity: old(self)@.max_resources }
                    &&& final(self)@ == old(self)@
                },
            },
    {
        let index = match self.allocate_index() {
            Ok(index) => index,
            Err(error) => {
                return Err(error);
            },
        };
        let info = ImageInfo {
            sampler,
            image_view,
            image_layout: ImageLayout::ShaderReadOnlyOptimal,
        };
        proof {
            lemma_bindless_slots(self.descriptor_set@, self.max_resources, index);
        }
        match self.descriptor_set.update_image_at(
            SAMPLED_IMAGE_BINDING,
            index,
            info,
            DescriptorType::CombinedImageSampler,
        ) {
            Ok(write) => Ok((index, write)),
            Err(error) => Err(error),
        }
    }

    /// Gives a storage image the next index and answers with the index and
    /// the write that puts the image into its slot. Refused, with the table
    /// unchanged, when the table is full.
    pub fn add_storage_image(&mut self, image_view: u64) -> (result: Result<
        (u32, DescriptorWrite),
        AshError,
    >)
        requires
            old(self).wf(),
        ensures
            final(self).wf(),
            match result {
                Ok((index, write)) => {
                    &&& old(self)@.has_room()
                    &&& index == old(self)@.next_index
                    &&& index != 0
                    &&& final(self)@ == old(self)@.bump()
                    &&& write == storage_image_write(old(self)@.set.handle, index, image_view)
                },
                Err(error) => {
                    &&& !old(self)@.has_room()
                    &&& error == AshError::BindlessTableFull { capacity: old(self)@.max_resources }
                    &&& final(self)@ == old(self)@
                },
            },
    {
        let index = match self.allocate_index() {
            Ok(index) => index,
            Err(error) => {
                return Err(error);
            },
        };
        let info = ImageInfo {
            sampler: NULL_HANDLE,
            image_view,
            image_layout: ImageLayout::General,
        };
        proof {
            lemma_bindless_slots(self.descriptor_set@, self.max_resources, index);
        }
        match self.descriptor_set.update_image_at(
            STORAGE_IMAGE_BINDING,
            index,
            info,
            DescriptorType::StorageImage,
        ) {
            Ok(write) => Ok((index, write)),
            Err(error) => Err(error),
        }
    }

    /// Gives a storage buffer the next index and answers with the index and
    /// the write that puts the buffer range into its slot. Refused, with the
    /// table unchanged, when the table is full.
    pub fn add_storage_buffer(&mut self, buffer: u64, offset: u64, range: u64) -> (result: Result<
        (u32, DescriptorWrite),
        AshError,
    >)
        requires
            old(self).wf(),
        ensures
            final(self).wf(),
            match result {
                Ok((index, write)) => {
                    &&& old(self)@.has_room()
                    &&& index == old(self)@.next_index
                    &&& index != 0
                    &&& final(self)@ == old(self)@.bump()
                    &&& write == storage_buffer_write(
                        old(self)@.set.handle,
                        index,
                        buffer,
                        offset,
                        range,
                    )
                },
                Err(error) => {
                    &&& !old(self)@.has_room()
                    &&& error == AshError::BindlessTableFull { capacity: old(self)@.max_resources }
                    &&& final(self)@ == old(self)@
                },
            },
    {
        let index = match self.allocate_index() {
            Ok(index) => index,
            Err(error) => {
                return Err(error);
            },
        };
        proof {
            lemma_bindless_slots(self.descriptor_set@, self.max_resources, index);
        }
        match self.descriptor_set.update_buffer_at(
            STORAGE_BUFFER_BINDING,
            index,
            buffer,
            offset,
            range,
            DescriptorType::StorageBuffer,
        ) {
            Ok(write) => Ok((index, write)),
            Err(error) => Err(error),
        }
    }
}

} // verus!
