//! Descriptor set layouts: which bindings a set has, of which type, for
//! which shader stages, and how many array slots each binding holds.

use vstd::prelude::*;

verus! {

/// The kind of resource a binding holds.
#[derive(Clone, Copy, Debug, PartialEq, Eq, Structural)]
pub enum DescriptorType {
    UniformBuffer,
    CombinedImageSampler,
    StorageImage,
    StorageBuffer,
}

/// The shader stages that may read a binding.
#[derive(Clone, Copy, Debug, PartialEq, Eq, Structural)]
pub struct ShaderStages {
    pub vertex: bool,
    pub fragment: bool,
    pub compute: bool,
    /// Every stage of the graphics pipeline, vertex and fragment included.
    pub all_graphics: bool,
}

impl ShaderStages {
    /// The vertex stage alone.
    pub fn vertex() -> (stages: ShaderStages)
        ensures
            stages == (ShaderStages {
                vertex: true,
                fragment: false,
                compute: false,
                all_graphics: false,
            }),
    {
        ShaderStages { vertex: true, fragment: false, compute: false, all_graphics: false }
    }

    /// The fragment stage alone.
    pub fn fragment() -> (stages: ShaderStages)
        ensures
            stages == (ShaderStages {
                vertex: false,
                fragment: true,
                compute: false,
                all_graphics: false,
            }),
    {
        ShaderStages { vertex: false, fragment: true, compute: false, all_graphics: false }
    }

    /// The vertex and the fragment stage.
    pub fn vertex_fragment() -> (stages: ShaderStages)
        ensures
            stages == (ShaderStages {
                vertex: true,
                fragment: true,
                compute: false,
                all_graphics: false,
            }),
    {
        ShaderStages { vertex: true, fragment: true, compute: false, all_graphics: false }
    }

    /// Every graphics stage and the compute stage.
    pub fn all_graphics_and_compute() -> (stages: ShaderStages)
        ensures
            stages == (ShaderStages {
                vertex: false,
                fragment: false,
                compute: true,
                all_graphics: true,
            }),
    {
        ShaderStages { vertex: false, fragment: false, compute: true, all_graphics: true }
    }
}

/// One binding of a layout.
#[derive(Clone, Copy, Debug, PartialEq, Eq, Structural)]
pub struct LayoutBinding {
    pub binding: u32,
    pub descriptor_type: DescriptorType,
    pub descriptor_count: u32,
    pub stages: ShaderStages,
}

/// How a binding's descriptors may be bound.
#[derive(Clone, Copy, Debug, PartialEq, Eq, Structural)]
pub struct BindingFlags {
    pub update_after_bind: bool,
    pub partially_bound: bool,
    pub variable_descriptor_count: bool,
}

/// The flags of a binding with `descriptor_count` slots: a binding that
/// holds an array is a bindless one and gets all three flags, a binding
/// with a single slot gets none.
pub open spec fn binding_flags_spec(descriptor_count: u32) -> BindingFlags {
    BindingFlags {
        update_after_bind: descriptor_count > 1,
        partially_bound: descriptor_count > 1,
        variable_descriptor_count: descriptor_count > 1,
    }
}

/// The first place in `bindings` that has the number `binding`, if any.
pub open spec fn first_binding_at(bindings: Seq<LayoutBinding>, binding: u32, i: int) -> bool {
    &&& 0 <= i < bindings.len()
    &&& bindings[i].binding == binding
    &&& forall|j: int| 0 <= j < i ==> (#[trigger] bindings[j]).binding != binding
}

/// Whether some entry of `bindings` has the number `binding`.
pub open spec fn has_binding(bindings: Seq<LayoutBinding>, binding: u32) -> bool {
    exists|i: int| 0 <= i < bindings.len() && (#[trigger] bindings[i]).binding == binding
}

/// The entry that a write to `binding` goes by: the first one with that
/// number.
pub open spec fn binding_entry(bindings: Seq<LayoutBinding>, binding: u32) -> LayoutBinding {
    bindings[choose|i: int| first_binding_at(bindings, binding, i)]
}

/// Two places that are both the first with a number are the same place.
pub proof fn lemma_first_binding_unique(
    bindings: Seq<LayoutBinding>,
    binding: u32,
    i: int,
    j: int,
)
    requires
        first_binding_at(bindings, binding, i),
        first_binding_at(bindings, binding, j),
    ensures
        i == j,
{
}

/// Looks a binding number up.
pub fn find_binding(bindings: &Vec<LayoutBinding>, binding: u32) -> (found: Option<LayoutBinding>)
    ensures
        found.is_some() == has_binding(bindings@, binding),
        found matches Some(entry) ==> entry == binding_entry(bindings@, binding)
            && entry.binding == binding,
{
    let mut i: usize = 0;
    while i < bindings.len()
        invariant
            i <= bindings@.len(),
            forall|j: int| 0 <= j < i ==> (#[trigger] bindings@[j]).binding != binding,
        decreases bindings@.len() - i,
    {
        if bindings[i].binding == binding {
            proof {
                assert(first_binding_at(bindings@, binding, i as int));
                let chosen = choose|c: int| first_binding_at(bindings@, binding, c);
                lemma_first_binding_unique(bindings@, binding, i as int, chosen);
            }
            return Some(bindings[i]);
        }
        i += 1;
    }
    None
}

/// The flags that go with each binding when the layout is created.
pub fn binding_flags(bindings: &Vec<LayoutBinding>) -> (flags: Vec<BindingFlags>)
    ensures
        flags@.len() == bindings@.len(),
        forall|i: int|
            0 <= i < bindings@.len() ==> #[trigger] flags@[i] == binding_flags_spec(
                bindings@[i].descriptor_count,
            ),
{
    let mut flags: Vec<BindingFlags> = Vec::new();
    let mut i: usize = 0;
    while i < bindings.len()
        invariant
            i <= bindings@.len(),
            flags@.len() == i,
            forall|j: int|
                0 <= j < i ==> #[trigger] flags@[j] == binding_flags_spec(
                    bindings@[j].descriptor_count,
                ),
        decreases bindings@.len() - i,
    {
        let bindless = bindings[i].descriptor_count > 1;
        flags.push(
            BindingFlags {
                update_after_bind: bindless,
                partially_bound: bindless,
                variable_descriptor_count: bindless,
            },
        );
        i += 1;
    }
    flags
}

/// A created layout: its native handle and the bindings it was created
/// with.
#[derive(Debug)]
pub struct DescriptorSetLayout {
    layout: u64,
    bindings: Vec<LayoutBinding>,
}

/// The mathematical content of a [`DescriptorSetLayout`].
pub struct LayoutView {
    pub handle: u64,
    pub bindings: Seq<LayoutBinding>,
}

impl View for DescriptorSetLayout {
    type V = LayoutView;

    closed spec fn view(&self) -> LayoutView {
        LayoutView { handle: self.layout, bindings: self.bindings@ }
    }
}

impl DescriptorSetLayout {
    /// Records a layout that was created on the device, under the handle
    /// the device gave it, from `bindings` and the flags of
    /// [`binding_flags`].
    pub fn new(handle: u64, bindings: &Vec<LayoutBinding>) -> (layout: DescriptorSetLayout)
        ensures
            layout@ == (LayoutView { handle, bindings: bindings@ }),
    {
        let owned = bindings.clone();
        assert(owned@ =~= bindings@);
        DescriptorSetLayout { layout: handle, bindings: owned }
    }

    /// The native handle.
    pub fn handle(&self) -> (handle: u64)
        ensures
            handle == self@.handle,
    {
        self.layout
    }

    /// The bindings, in the order in which they were added.
    pub fn bindings(&self) -> (bindings: &Vec<LayoutBinding>)
        ensures
            bindings@ == self@.bindings,
    {
        &self.bindings
    }
}

/// Collects the bindings of a layout before it is created.
pub struct DescriptorSetLayoutBuilder {
    bindings: Vec<LayoutBinding>,
}

impl View for DescriptorSetLayoutBuilder {
    type V = Seq<LayoutBinding>;

    closed spec fn view(&self) -> Seq<LayoutBinding> {
        self.bindings@
    }
}

impl DescriptorSetLayoutBuilder {
    /// A builder without bindings.
    pub fn new() -> (builder: DescriptorSetLayoutBuilder)
        ensures
            builder@ == Seq::<LayoutBinding>::empty(),
    {
        DescriptorSetLayoutBuilder { bindings: Vec::new() }
    }

    /// Adds a binding with `count` slots.
    pub fn add_binding(
        self,
        binding: u32,
        descriptor_type: DescriptorType,
        stages: ShaderStages,
        count: u32,
    ) -> (builder: DescriptorSetLayoutBuilder)
        ensures
            builder@ == self@.push(
                LayoutBinding { binding, descriptor_type, descriptor_count: count, stages },
            ),
    {
        let mut builder = self;
        builder.bindings.push(
            LayoutBinding { binding, descriptor_type, descriptor_count: count, stages },
        );
        builder
    }

    /// Adds a bindless binding: an array of up to `max_count` slots.
    pub fn add_bindless_binding(
        self,
        binding: u32,
        descriptor_type: DescriptorType,
        stages: ShaderStages,
        max_count: u32,
    ) -> (builder: DescriptorSetLayoutBuilder)
        ensures
            builder@ == self@.push(
                LayoutBinding { binding, descriptor_type, descriptor_count: max_count, stages },
            ),
    {
        let mut builder = self;
        builder.bindings.push(
            LayoutBinding { binding, descriptor_type, descriptor_count: max_count, stages },
        );
        builder
    }

    /// The bindings collected so far; the device creates the layout from
    /// them.
    pub fn bindings(&self) -> (bindings: &Vec<LayoutBinding>)
        ensures
            bindings@ == self@,
    {
        &self.bindings
    }

    /// Finishes the layout under the handle that the device gave it.
    pub fn build(self, handle: u64) -> (layout: DescriptorSetLayout)
        ensures
            layout@ == (LayoutView { handle, bindings: self@ }),
    {
        DescriptorSetLayout { layout: handle, bindings: self.bindings }
    }
}

} // verus!
