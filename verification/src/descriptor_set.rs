//! Descriptor sets and the writes that update them.
//!
//! A set knows the bindings of the layout it was allocated with. An update
//! is checked against them and answered with a [`DescriptorWrite`]; applying
//! the write to the device is the caller's part, and the caller must not
//! apply it while a command buffer in flight still reads the set.

use vstd::prelude::*;
use crate::descriptor_layout::{
    binding_entry, find_binding, has_binding, DescriptorType, LayoutBinding,
};
use crate::error::AshError;

verus! {

/// The pool a descriptor set was allocated from.
#[derive(Clone, Copy, Debug, PartialEq, Eq, Structural)]
pub enum PoolClass {
    /// Long-lived sets, never recycled.
    Static,
    /// Transient sets, recycled with every frame cycle.
    PerFrame,
    /// Sets with a variable-length descriptor array.
    Bindless,
}

/// The layout an image is in when a shader reads it through a descriptor.
#[derive(Clone, Copy, Debug, PartialEq, Eq, Structural)]
pub enum ImageLayout {
    ShaderReadOnlyOptimal,
    General,
    DepthStencilReadOnlyOptimal,
}

/// The image a descriptor refers to. A storage image has no sampler and
/// carries the null handle in its place.
#[derive(Clone, Copy, Debug, PartialEq, Eq, Structural)]
pub struct ImageInfo {
    pub sampler: u64,
    pub image_view: u64,
    pub image_layout: ImageLayout,
}

/// What a descriptor write puts into a slot.
#[derive(Clone, Copy, Debug, PartialEq, Eq, Structural)]
pub enum DescriptorResource {
    Buffer { buffer: u64, offset: u64, range: u64 },
    Image(ImageInfo),
}

/// One update of one slot of a descriptor set.
#[derive(Clone, Copy, Debug, PartialEq, Eq, Structural)]
pub struct DescriptorWrite {
    pub set: u64,
    pub binding: u32,
    pub array_index: u32,
    pub descriptor_type: DescriptorType,
    pub resource: DescriptorResource,
}

/// An allocated descriptor set.
#[derive(Debug)]
pub struct DescriptorSet {
    handle: u64,
    pool: PoolClass,
    layout: u64,
    bindings: Vec<LayoutBinding>,
    variable_count: Option<u32>,
}

/// The mathematical content of a [`DescriptorSet`].
pub struct SetView {
    pub handle: u64,
    pub pool: PoolClass,
    pub layout: u64,
    pub bindings: Seq<LayoutBinding>,
    /// The length its descriptor arrays were allocated with, for a set with
    /// a variable descriptor count.
    pub variable_count: Option<u32>,
}

impl SetView {
    /// The number of slots that can be written under `entry`.
    pub open spec fn slot_count(self, entry: LayoutBinding) -> u32 {
        match self.variable_count {
            Some(count) => if count < entry.descriptor_count {
                count
            } else {
                entry.descriptor_count
            },
            None => entry.descriptor_count,
        }
    }

    /// Whether slot `array_index` of `binding` may take a descriptor of the
    /// given type, and why not.
    pub open spec fn slot_verdict(
        self,
        binding: u32,
        array_index: u32,
        descriptor_type: DescriptorType,
    ) -> Result<(), AshError> {
        if !has_binding(self.bindings, binding) {
            Err(AshError::UnknownBinding(binding))
        } else if binding_entry(self.bindings, binding).descriptor_type != descriptor_type {
            Err(AshError::DescriptorTypeMismatch(binding))
        } else if array_index >= self.slot_count(binding_entry(self.bindings, binding)) {
            Err(AshError::DescriptorIndexOutOfRange { binding, array_index })
        } else {
            Ok(())
        }
    }

    /// What an update of a slot with `resource` answers.
    pub open spec fn write(
        self,
        binding: u32,
        array_index: u32,
        descriptor_type: DescriptorType,
        resource: DescriptorResource,
    ) -> Result<DescriptorWrite, AshError> {
        match self.slot_verdict(binding, array_index, descriptor_type) {
            Ok(()) => Ok(
                DescriptorWrite {
                    set: self.handle,
                    binding,
                    array_index,
                    descriptor_type,
                    resource,
                },
            ),
            Err(error) => Err(error),
        }
    }
}

impl View for DescriptorSet {
    type V = SetView;

    closed spec fn view(&self) -> SetView {
        SetView {
            handle: self.handle,
            pool: self.pool,
            layout: self.layout,
            bindings: self.bindings@,
            variable_count: self.variable_count,
        }
    }
}

impl DescriptorSet {
    /// Records a set that the device allocated under `handle`.
    pub fn new(
        handle: u64,
        pool: PoolClass,
        layout: u64,
        bindings: &Vec<LayoutBinding>,
        variable_count: Option<u32>,
    ) -> (set: DescriptorSet)
        ensures
            set@ == (SetView { handle, pool, layout, bindings: bindings@, variable_count }),
    {
        let owned = bindings.clone();
        assert(owned@ =~= bindings@);
        DescriptorSet { handle, pool, layout, bindings: owned, variable_count }
    }

    /// The native handle.
    pub fn handle(&self) -> (handle: u64)
        ensures
            handle == self@.handle,
    {
        self.handle
    }

    /// The native handle of the layout.
    pub fn layout(&self) -> (layout: u64)
        ensures
            layout == self@.layout,
    {
        self.layout
    }

    /// The pool the set came from.
    pub fn pool(&self) -> (pool: PoolClass)
        ensures
            pool == self@.pool,
    {
        self.pool
    }

    fn prepare(
        &self,
        binding: u32,
        array_index: u32,
        descriptor_type: DescriptorType,
        resource: DescriptorResource,
    ) -> (result: Result<DescriptorWrite, AshError>)
        ensures
            result == self@.write(binding, array_index, descriptor_type, resource),
    {
        let entry = match find_binding(&self.bindings, binding) {
            Some(entry) => entry,
            None => {
                return Err(AshError::UnknownBinding(binding));
            },
        };
        if entry.descriptor_type != descriptor_type {
            return Err(AshError::DescriptorTypeMismatch(binding));
        }
        let slots = match self.variable_count {
            Some(count) => if count < entry.descriptor_count {
                count
            } else {
                entry.descriptor_count
            },
            None => entry.descriptor_count,
        };
        if array_index >= slots {
            return Err(AshError::DescriptorIndexOutOfRange { binding, array_index });
        }
        Ok(DescriptorWrite { set: self.handle, binding, array_index, descriptor_type, resource })
    }

    /// Puts a buffer into the first slot of `binding`.
    pub fn update_buffer(
        &self,
        binding: u32,
        buffer: u64,
        offset: u64,
        range: u64,
        descriptor_type: DescriptorType,
    ) -> (result: Result<DescriptorWrite, AshError>)
        ensures
            result == self@.write(
                binding,
                0,
                descriptor_type,
                DescriptorResource::Buffer { buffer, offset, range },
            ),
    {
        self.prepare(
            binding,
            0,
            descriptor_type,
            DescriptorResource::Buffer { buffer, offset, range },
        )
    }

    /// Puts a buffer into slot `array_index` of `binding`.
    pub fn update_buffer_at(
        &self,
        binding: u32,
        array_index: u32,
        buffer: u64,
        offset: u64,
        range: u64,
        descriptor_type: DescriptorType,
    ) -> (result: Result<DescriptorWrite, AshError>)
        ensures
            result == self@.write(
                binding,
                array_index,
                descriptor_type,
                DescriptorResource::Buffer { buffer, offset, range },
            ),
    {
        self.prepare(
            binding,
            array_index,
            descriptor_type,
            DescriptorResource::Buffer { buffer, offset, range },
        )
    }

    /// Puts an image into slot `array_index` of `binding`.
    pub fn update_image_at(
        &self,
        binding: u32,
        array_index: u32,
        info: ImageInfo,
        descriptor_type: DescriptorType,
    ) -> (result: Result<DescriptorWrite, AshError>)
        ensures
            result == self@.write(
                binding,
                array_index,
                descriptor_type,
                DescriptorResource::Image(info),
            ),
    {
        self.prepare(binding, array_index, descriptor_type, DescriptorResource::Image(info))
    }
}

} // verus!
