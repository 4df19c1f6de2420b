//! The descriptor manager: the layouts of the renderer and the descriptor
//! sets that live as long as the renderer does.
//!
//! There is one frame set and one shadow set per frame in flight, one
//! material set per worker, and two default texture sets. Texture sets for
//! meshes are allocated on demand, from the static pool as well, so that
//! they outlive the frame cycle.

use std::collections::HashMap;
use vstd::prelude::*;
use crate::descriptor_allocator::{AllocatorView, DescriptorAllocator};
use crate::descriptor_layout::{
    DescriptorSetLayout, DescriptorSetLayoutBuilder, DescriptorType, LayoutBinding, LayoutView,
    ShaderStages,
};
use crate::descriptor_set::{
    DescriptorResource, DescriptorSet, DescriptorWrite, ImageInfo, ImageLayout, PoolClass,
    SetView,
};
use crate::error::AshError;

verus! {

broadcast use vstd::std_specs::hash::group_hash_axioms;

/// The room the static pool keeps for texture sets, beyond the sets that
/// every renderer has.
pub const EXTRA_TEXTURE_SETS: u64 = 2048;

/// The five layouts of the renderer.
#[derive(Clone, Copy, Debug, PartialEq, Eq, Structural)]
pub enum LayoutKind {
    /// Per-frame uniforms: camera, lighting, shadow matrix.
    Frame,
    /// Per-worker material uniforms.
    Material,
    /// A single texture.
    Texture,
    /// The five textures of a material.
    MaterialTexture,
    /// The shadow map.
    Shadow,
}

/// One texture of a material texture set: the binding it goes to, and the
/// image view and sampler that are put there.
#[derive(Clone, Copy, Debug, PartialEq, Eq, Structural)]
pub struct TextureBinding {
    pub binding: u32,
    pub view: u64,
    pub sampler: u64,
}

/// The handles of the layouts and sets that the device created for a
/// descriptor manager.
#[derive(Debug)]
pub struct DescriptorHandles {
    pub frame_layout: u64,
    pub material_layout: u64,
    pub texture_layout: u64,
    pub material_texture_layout: u64,
    pub shadow_layout: u64,
    pub frame_sets: Vec<u64>,
    pub material_sets: Vec<u64>,
    pub shadow_sets: Vec<u64>,
    pub default_texture_set: u64,
    pub default_texture_array_set: u64,
}

/// A binding with one slot.
pub open spec fn single(binding: u32, descriptor_type: DescriptorType, stages: ShaderStages)
    -> LayoutBinding {
    LayoutBinding { binding, descriptor_type, descriptor_count: 1, stages }
}

/// The fragment stage alone.
pub open spec fn fragment_only() -> ShaderStages {
    ShaderStages { vertex: false, fragment: true, compute: false, all_graphics: false }
}

/// The bindings of each layout.
pub open spec fn layout_bindings_spec(kind: LayoutKind) -> Seq<LayoutBinding> {
    match kind {
        LayoutKind::Frame => seq![
            single(
                0,
                DescriptorType::UniformBuffer,
                ShaderStages { vertex: true, fragment: true, compute: false, all_graphics: false },
            ),
        ],
        LayoutKind::Material => seq![single(0, DescriptorType::UniformBuffer, fragment_only())],
        LayoutKind::Texture => seq![
            single(0, DescriptorType::CombinedImageSampler, fragment_only()),
        ],
        LayoutKind::MaterialTexture => seq![
            single(0, DescriptorType::CombinedImageSampler, fragment_only()),
            single(1, DescriptorType::CombinedImageSampler, fragment_only()),
            single(2, DescriptorType::CombinedImageSampler, fragment_only()),
            single(3, DescriptorType::CombinedImageSampler, fragment_only()),
            single(4, DescriptorType::CombinedImageSampler, fragment_only()),
        ],
        LayoutKind::Shadow => seq![
            single(0, DescriptorType::CombinedImageSampler, fragment_only()),
        ],
    }
}

/// The layout of the given kind under `handle`.
pub open spec fn layout_of(kind: LayoutKind, handle: u64) -> LayoutView {
    LayoutView { handle, bindings: layout_bindings_spec(kind) }
}

/// A set from the static pool with the given handle and layout.
pub open spec fn static_set(handle: u64, layout: LayoutView) -> SetView {
    SetView {
        handle,
        pool: PoolClass::Static,
        layout: layout.handle,
        bindings: layout.bindings,
        variable_count: None,
    }
}

/// One static set of `layout` for each of `handles`.
pub open spec fn static_sets(handles: Seq<u64>, layout: LayoutView) -> Seq<SetView> {
    Seq::new(handles.len(), |i: int| static_set(handles[i], layout))
}

/// The views of a list of sets.
pub open spec fn set_views(sets: Seq<DescriptorSet>) -> Seq<SetView> {
    Seq::new(sets.len(), |i: int| sets[i]@)
}

/// The views of the sets of a map, under the same keys.
pub open spec fn set_map_views(sets: Map<u64, DescriptorSet>) -> Map<u64, SetView> {
    Map::new(|handle: u64| sets.contains_key(handle), |handle: u64| sets[handle]@)
}

/// The allocator after `n` sets were taken from the static pool.
pub open spec fn take_static(allocator: AllocatorView, n: int) -> AllocatorView {
    AllocatorView { static_used: (allocator.static_used + n) as u64, ..allocator }
}

/// The number of sets every renderer has: a frame set and a shadow set per
/// frame, a material set per worker, and the two default texture sets.
pub open spec fn fixed_set_count(frame_count: u32, material_worker_count: u32) -> int {
    2 * frame_count + material_worker_count + 2
}

/// The write that puts the texture `entry` into `set`.
pub open spec fn texture_write(set: SetView, entry: TextureBinding) -> Result<
    DescriptorWrite,
    AshError,
> {
    set.write(
        entry.binding,
        0,
        DescriptorType::CombinedImageSampler,
        DescriptorResource::Image(
            ImageInfo {
                sampler: entry.sampler,
                image_view: entry.view,
                image_layout: ImageLayout::ShaderReadOnlyOptimal,
            },
        ),
    )
}

/// The write that puts the texture `entry` into the first slot of its
/// binding in the set `set`.
pub open spec fn texture_binding_write(set: u64, entry: TextureBinding) -> DescriptorWrite {
    DescriptorWrite {
        set,
        binding: entry.binding,
        array_index: 0,
        descriptor_type: DescriptorType::CombinedImageSampler,
        resource: DescriptorResource::Image(
            ImageInfo {
                sampler: entry.sampler,
                image_view: entry.view,
                image_layout: ImageLayout::ShaderReadOnlyOptimal,
            },
        ),
    }
}

/// One write per entry of `bindings`, in their order.
pub open spec fn material_texture_writes(set: u64, bindings: Seq<TextureBinding>) -> Seq<
    DescriptorWrite,
> {
    Seq::new(bindings.len(), |i: int| texture_binding_write(set, bindings[i]))
}

/// A set of the material texture layout takes a texture in each of the
/// bindings 0 to 4.
pub proof fn lemma_material_texture_slots(set: SetView, entry: TextureBinding)
    requires
        set.bindings == layout_bindings_spec(LayoutKind::MaterialTexture),
        set.variable_count is None,
        entry.binding < 5,
    ensures
        texture_write(set, entry) == Ok::<DescriptorWrite, AshError>(
            texture_binding_write(set.handle, entry),
        ),
{
    let bindings = layout_bindings_spec(LayoutKind::MaterialTexture);
    let k = entry.binding as int;
    assert(bindings[k].binding == entry.binding);
    assert(bindings[0].binding == 0);
    assert(bindings[1].binding == 1);
    assert(bindings[2].binding == 2);
    assert(bindings[3].binding == 3);
    assert(bindings[4].binding == 4);
    assert(crate::descriptor_layout::first_binding_at(bindings, entry.binding, k));
    let chosen = choose|i: int| crate::descriptor_layout::first_binding_at(
        bindings,
        entry.binding,
        i,
    );
    assert(chosen == k);
}

/// A set of the single-texture layout has no binding 1.
pub proof fn lemma_texture_set_has_one_binding(set: SetView, entry: TextureBinding)
    requires
        set.bindings == layout_bindings_spec(LayoutKind::Texture),
        set.variable_count is None,
    ensures
        entry.binding == 0 ==> texture_write(set, entry) == Ok::<DescriptorWrite, AshError>(
            texture_binding_write(set.handle, entry),
        ),
        entry.binding != 0 ==> texture_write(set, entry) == Err::<DescriptorWrite, AshError>(
            AshError::UnknownBinding(entry.binding),
        ),
{
    let bindings = layout_bindings_spec(LayoutKind::Texture);
    assert(bindings[0].binding == 0);
    if entry.binding == 0 {
        assert(crate::descriptor_layout::first_binding_at(bindings, 0, 0));
        let chosen = choose|i: int| crate::descriptor_layout::first_binding_at(bindings, 0, i);
        assert(chosen == 0);
    }
}

/// The write that puts a uniform buffer of `size` bytes into `set`.
pub open spec fn uniform_write(set: SetView, buffer: u64, size: u64) -> Result<
    DescriptorWrite,
    AshError,
> {
    set.write(
        0,
        0,
        DescriptorType::UniformBuffer,
        DescriptorResource::Buffer { buffer, offset: 0, range: size },
    )
}

/// The write that puts the uniform buffer `buffer` of `size` bytes into
/// the first slot of binding 0 of the set `set`.
pub open spec fn uniform_buffer_write(set: u64, buffer: u64, size: u64) -> DescriptorWrite {
    DescriptorWrite {
        set,
        binding: 0,
        array_index: 0,
        descriptor_type: DescriptorType::UniformBuffer,
        resource: DescriptorResource::Buffer { buffer, offset: 0, range: size },
    }
}

/// The write that puts the shadow map into `set`.
pub open spec fn shadow_write(set: SetView, image_view: u64, sampler: u64) -> Result<
    DescriptorWrite,
    AshError,
> {
    set.write(
        0,
        0,
        DescriptorType::CombinedImageSampler,
        DescriptorResource::Image(
            ImageInfo { sampler, image_view, image_layout: ImageLayout::DepthStencilReadOnlyOptimal },
        ),
    )
}

/// The mathematical content of a [`DescriptorManager`].
pub struct ManagerView {
    pub allocator: AllocatorView,
    pub frame_layout: LayoutView,
    pub material_layout: LayoutView,
    pub texture_layout: LayoutView,
    pub material_texture_layout: LayoutView,
    pub shadow_layout: LayoutView,
    pub frame_sets: Seq<SetView>,
    pub material_sets: Seq<SetView>,
    pub shadow_sets: Seq<SetView>,
    pub default_texture_set: SetView,
    pub default_texture_array_set: SetView,
    /// The texture sets allocated on demand, by their handles.
    pub dynamic_sets: Map<u64, SetView>,
}

impl ManagerView {
    /// The invariant of a manager: the pools are within their sizes, every
    /// layout has the bindings of its kind, and every set is a static set of
    /// the layout that its place asks for.
    pub open spec fn wf(self) -> bool {
        &&& self.allocator.wf()
        &&& self.frame_layout.bindings == layout_bindings_spec(LayoutKind::Frame)
        &&& self.material_layout.bindings == layout_bindings_spec(LayoutKind::Material)
        &&& self.texture_layout.bindings == layout_bindings_spec(LayoutKind::Texture)
        &&& self.material_texture_layout.bindings == layout_bindings_spec(
            LayoutKind::MaterialTexture,
        )
        &&& self.shadow_layout.bindings == layout_bindings_spec(LayoutKind::Shadow)
        &&& forall|i: int|
            0 <= i < self.frame_sets.len() ==> #[trigger] self.frame_sets[i] == static_set(
                self.frame_sets[i].handle,
                self.frame_layout,
            )
        &&& forall|i: int|
            0 <= i < self.material_sets.len() ==> #[trigger] self.material_sets[i] == static_set(
                self.material_sets[i].handle,
                self.material_layout,
            )
        &&& forall|i: int|
            0 <= i < self.shadow_sets.len() ==> #[trigger] self.shadow_sets[i] == static_set(
                self.shadow_sets[i].handle,
                self.shadow_layout,
            )
        &&& self.default_texture_set == static_set(
            self.default_texture_set.handle,
            self.texture_layout,
        )
        &&& self.default_texture_array_set == static_set(
            self.default_texture_array_set.handle,
            self.material_texture_layout,
        )
        &&& forall|handle: u64|
            self.dynamic_sets.contains_key(handle) ==> {
                ||| #[trigger] self.dynamic_sets[handle] == static_set(
                    handle,
                    self.texture_layout,
                )
                ||| self.dynamic_sets[handle] == static_set(handle, self.material_texture_layout)
            }
    }

    /// The manager right after construction.
    pub open spec fn initial(
        allocator: AllocatorView,
        frame_count: u32,
        material_worker_count: u32,
        handles: DescriptorHandles,
    ) -> ManagerView {
        ManagerView {
            allocator: take_static(allocator, fixed_set_count(frame_count, material_worker_count)),
            frame_layout: layout_of(LayoutKind::Frame, handles.frame_layout),
            material_layout: layout_of(LayoutKind::Material, handles.material_layout),
            texture_layout: layout_of(LayoutKind::Texture, handles.texture_layout),
            material_texture_layout: layout_of(
                LayoutKind::MaterialTexture,
                handles.material_texture_layout,
            ),
            shadow_layout: layout_of(LayoutKind::Shadow, handles.shadow_layout),
            frame_sets: static_sets(
                handles.frame_sets@,
                layout_of(LayoutKind::Frame, handles.frame_layout),
            ),
            material_sets: static_sets(
                handles.material_sets@,
                layout_of(LayoutKind::Material, handles.material_layout),
            ),
            shadow_sets: static_sets(
                handles.shadow_sets@,
                layout_of(LayoutKind::Shadow, handles.shadow_layout),
            ),
            default_texture_set: static_set(
                handles.default_texture_set,
                layout_of(LayoutKind::Texture, handles.texture_layout),
            ),
            default_texture_array_set: static_set(
                handles.default_texture_array_set,
                layout_of(LayoutKind::MaterialTexture, handles.material_texture_layout),
            ),
            dynamic_sets: Map::empty(),
        }
    }

    /// The material texture set behind the handle `set`: the default
    /// texture array set, or one that was allocated on demand.
    pub open spec fn material_texture_descriptor(self, set: u64) -> Option<SetView> {
        if set == self.default_texture_array_set.handle {
            Some(self.default_texture_array_set)
        } else if self.dynamic_sets.contains_key(set) {
            Some(self.dynamic_sets[set])
        } else {
            None
        }
    }

    /// The manager after a texture set of `layout` was allocated under
    /// `native`; it takes the place of a set that was kept under the same
    /// handle.
    pub open spec fn with_texture_set(self, native: u64, layout: LayoutView) -> ManagerView {
        ManagerView {
            allocator: self.allocator.take(PoolClass::Static),
            dynamic_sets: self.dynamic_sets.insert(native, static_set(native, layout)),
            ..self
        }
    }
}

/// Holds the layouts, the sets and the allocator of the renderer.
pub struct DescriptorManager {
    allocator: DescriptorAllocator,
    frame_layout: DescriptorSetLayout,
    material_layout: DescriptorSetLayout,
    texture_layout: DescriptorSetLayout,
    material_texture_layout: DescriptorSetLayout,
    shadow_layout: DescriptorSetLayout,
    frame_sets: Vec<DescriptorSet>,
    material_sets: Vec<DescriptorSet>,
    shadow_sets: Vec<DescriptorSet>,
    default_texture_set: DescriptorSet,
    default_texture_array_set: DescriptorSet,
    dynamic_sets: HashMap<u64, DescriptorSet>,
}

impl View for DescriptorManager {
    type V = ManagerView;

    closed spec fn view(&self) -> ManagerView {
        ManagerView {
            allocator: self.allocator@,
            frame_layout: self.frame_layout@,
            material_layout: self.material_layout@,
            texture_layout: self.texture_layout@,
            material_texture_layout: self.material_texture_layout@,
            shadow_layout: self.shadow_layout@,
            frame_sets: set_views(self.frame_sets@),
            material_sets: set_views(self.material_sets@),
            shadow_sets: set_views(self.shadow_sets@),
            default_texture_set: self.default_texture_set@,
            default_texture_array_set: self.default_texture_array_set@,
            dynamic_sets: set_map_views(self.dynamic_sets@),
        }
    }
}

/// The size of the static pool of a renderer with `frame_count` frames in
/// flight and `material_worker_count` workers.
pub fn static_pool_size(frame_count: u32, material_worker_count: u32) -> (size: u64)
    ensures
        size == fixed_set_count(frame_count, material_worker_count) + EXTRA_TEXTURE_SETS,
{
    let frames: u64 = frame_count as u64;
    let workers: u64 = material_worker_count as u64;
    2 * frames + workers + 2 + EXTRA_TEXTURE_SETS
}

/// The bindings from which the device creates the layout of the given kind.
pub fn layout_bindings(kind: LayoutKind) -> (bindings: Vec<LayoutBinding>)
    ensures
        bindings@ == layout_bindings_spec(kind),
{
    let builder = layout_builder(kind);
    let bindings = builder.bindings().clone();
    assert(bindings@ =~= layout_bindings_spec(kind));
    bindings
}

fn layout_builder(kind: LayoutKind) -> (builder: DescriptorSetLayoutBuilder)
    ensures
        builder@ == layout_bindings_spec(kind),
{
    let sampler = DescriptorType::CombinedImageSampler;
    let fragment = ShaderStages::fragment();
    let builder = match kind {
        LayoutKind::Frame => DescriptorSetLayoutBuilder::new().add_binding(
            0,
            DescriptorType::UniformBuffer,
            ShaderStages::vertex_fragment(),
            1,
        ),
        LayoutKind::Material => DescriptorSetLayoutBuilder::new().add_binding(
            0,
            DescriptorType::UniformBuffer,
            fragment,
            1,
        ),
        LayoutKind::Texture => DescriptorSetLayoutBuilder::new().add_binding(
            0,
            sampler,
            fragment,
            1,
        ),
        LayoutKind::MaterialTexture => DescriptorSetLayoutBuilder::new().add_binding(
            0,
            sampler,
            fragment,
            1,
        ).add_binding(1, sampler, fragment, 1).add_binding(2, sampler, fragment, 1).add_binding(
            3,
            sampler,
            fragment,
            1,
        ).add_binding(4, sampler, fragment, 1),
        LayoutKind::Shadow => DescriptorSetLayoutBuilder::new().add_binding(
            0,
            sampler,
            fragment,
            1,
        ),
    };
    assert(builder@ =~= layout_bindings_spec(kind));
    builder
}

impl DescriptorManager {
    /// The manager's invariant, see [`ManagerView::wf`].
    pub open spec fn wf(&self) -> bool {
        self@.wf()
    }

    /// Whether `handles` brings one frame set and one shadow set per frame
    /// and one material set per worker.
    pub open spec fn handles_match(
        frame_count: u32,
        material_worker_count: u32,
        handles: DescriptorHandles,
    ) -> bool {
        &&& handles.frame_sets@.len() == frame_count
        &&& handles.material_sets@.len() == material_worker_count
        &&& handles.shadow_sets@.len() == frame_count
    }

    /// Sets up the manager of a renderer with `frame_count` frames in
    /// flight and `material_worker_count` workers, over the layouts and sets
    /// in `handles`, which the device created from [`layout_bindings`].
    ///
    /// All sets are taken from the static pool of `allocator`. Refused when
    /// `handles` does not bring the right number of sets, or when the static
    /// pool has no room for all of them.
    pub fn new(
        allocator: DescriptorAllocator,
        frame_count: u32,
        material_worker_count: u32,
        handles: &DescriptorHandles,
    ) -> (result: Result<DescriptorManager, AshError>)
        requires
            allocator.wf(),
        ensures
            match result {
                Ok(manager) => {
                    &&& Self::handles_match(frame_count, material_worker_count, *handles)
                    &&& allocator@.static_used + fixed_set_count(frame_count, material_worker_count)
                        <= allocator@.static_capacity
                    &&& manager.wf()
                    &&& manager@ == ManagerView::initial(
                        allocator@,
                        frame_count,
                        material_worker_count,
                        *handles,
                    )
                },
                Err(error) => if !Self::handles_match(
                    frame_count,
                    material_worker_count,
                    *handles,
                ) {
                    error == AshError::DescriptorHandleCountMismatch
                } else {
                    &&& allocator@.static_used + fixed_set_count(frame_count, material_worker_count)
                        > allocator@.static_capacity
                    &&& error == AshError::DescriptorPoolExhausted(PoolClass::Static)
                },
            },
    {
        if handles.frame_sets.len() != frame_count as usize || handles.material_sets.len()
            != material_worker_count as usize || handles.shadow_sets.len() != frame_count as usize {
            return Err(AshError::DescriptorHandleCountMismatch);
        }
        let mut allocator = allocator;
        let ghost start = allocator@;
        let frame_layout = layout_builder(LayoutKind::Frame).build(handles.frame_layout);
        let material_layout = layout_builder(LayoutKind::Material).build(handles.material_layout);
        let texture_layout = layout_builder(LayoutKind::Texture).build(handles.texture_layout);
        let material_texture_layout = layout_builder(LayoutKind::MaterialTexture).build(
            handles.material_texture_layout,
        );
        let shadow_layout = layout_builder(LayoutKind::Shadow).build(handles.shadow_layout);

        let frame_sets = match Self::create_descriptor_sets(
            &frame_layout,
            &mut allocator,
            &handles.frame_sets,
        ) {
            Ok(sets) => sets,
            Err(error) => {
                return Err(error);
            },
        };
        let material_sets = match Self::create_descriptor_sets(
            &material_layout,
            &mut allocator,
            &handles.material_sets,
        ) {
            Ok(sets) => sets,
            Err(error) => {
                return Err(error);
            },
        };
        let shadow_sets = match Self::create_descriptor_sets(
            &shadow_layout,
            &mut allocator,
            &handles.shadow_sets,
        ) {
            Ok(sets) => sets,
            Err(error) => {
                return Err(error);
            },
        };
        let default_texture_set = match allocator.allocate_static_set(
            &texture_layout,
            handles.default_texture_set,
        ) {
            Ok(set) => set,
            Err(error) => {
                return Err(error);
            },
        };
        let default_texture_array_set = match allocator.allocate_static_set(
            &material_texture_layout,
            handles.default_texture_array_set,
        ) {
            Ok(set) => set,
            Err(error) => {
                return Err(error);
            },
        };
        let manager = DescriptorManager {
            allocator,
            frame_layout,
            material_layout,
            texture_layout,
            material_texture_layout,
            shadow_layout,
            frame_sets,
            material_sets,
            shadow_sets,
            default_texture_set,
            default_texture_array_set,
            dynamic_sets: HashMap::new(),
        };
        proof {
            let expected = ManagerView::initial(
                start,
                frame_count,
                material_worker_count,
                *handles,
            );
            assert(manager@.frame_sets =~= expected.frame_sets);
            assert(manager@.material_sets =~= expected.material_sets);
            assert(manager@.shadow_sets =~= expected.shadow_sets);
            assert(manager@.dynamic_sets =~= expected.dynamic_sets);
            assert(manager@.allocator == expected.allocator);
        }
        Ok(manager)
    }

    /// Takes one static set of `layout` for each handle in `natives`.
    /// Refused when the static pool runs out; the pool is then used up.
    fn create_descriptor_sets(
        layout: &DescriptorSetLayout,
        allocator: &mut DescriptorAllocator,
        natives: &Vec<u64>,
    ) -> (result: Result<Vec<DescriptorSet>, AshError>)
        requires
            old(allocator).wf(),
        ensures
            final(allocator).wf(),
            match result {
                Ok(sets) => {
                    &&& old(allocator)@.static_used + natives@.len() <= old(
                        allocator,
                    )@.static_capacity
                    &&& final(allocator)@ == take_static(old(allocator)@, natives@.len() as int)
                    &&& set_views(sets@) == static_sets(natives@, layout@)
                },
                Err(error) => {
                    &&& old(allocator)@.static_used + natives@.len() > old(
                        allocator,
                    )@.static_capacity
                    &&& error == AshError::DescriptorPoolExhausted(PoolClass::Static)
                    &&& final(allocator)@ == (AllocatorView {
                        static_used: old(allocator)@.static_capacity,
                        ..old(allocator)@
                    })
                },
            },
    {
        let mut sets: Vec<DescriptorSet> = Vec::new();
        let mut i: usize = 0;
        while i < natives.len()
            invariant
                i <= natives@.len(),
                allocator.wf(),
                old(allocator)@.static_used + i <= old(allocator)@.static_capacity,
                allocator@ == take_static(old(allocator)@, i as int),
                sets@.len() == i,
                forall|j: int| 0 <= j < i ==> (#[trigger] sets@[j])@ == static_set(
                    natives@[j],
                    layout@,
                ),
            decreases natives@.len() - i,
        {
            match allocator.allocate_static_set(layout, natives[i]) {
                Ok(set) => {
                    sets.push(set);
                },
                Err(error) => {
                    return Err(error);
                },
            }
            i += 1;
        }
        assert(set_views(sets@) =~= static_sets(natives@, layout@));
        Ok(sets)
    }

    /// Begins the next frame cycle of the allocator.
    pub fn next_frame(&mut self)
        requires
            old(self).wf(),
        ensures
            final(self).wf(),
            final(self)@ == (ManagerView {
                allocator: old(self)@.allocator.next_frame(),
                ..old(self)@
            }),
    {
        self.allocator.next_frame();
    }

    /// The write that binds the uniform buffer of frame `frame_index`.
    /// Refused when there is no frame set with that index.
    pub fn bind_frame_uniform(&self, frame_index: usize, buffer: u64, buffer_size: u64) -> (result:
        Result<DescriptorWrite, AshError>)
        ensures
            result == if frame_index < self@.frame_sets.len() {
                uniform_write(self@.frame_sets[frame_index as int], buffer, buffer_size)
            } else {
                Err(AshError::DescriptorSetIndexOutOfBounds { index: frame_index })
            },
            self.wf() && frame_index < self@.frame_sets.len() ==> result == Ok::<
                DescriptorWrite,
                AshError,
            >(uniform_buffer_write(self@.frame_sets[frame_index as int].handle, buffer, buffer_size)),
    {
        if frame_index >= self.frame_sets.len() {
            return Err(AshError::DescriptorSetIndexOutOfBounds { index: frame_index });
        }
        proof {
            if self.wf() {
                lemma_single_slot(self@.frame_sets[frame_index as int]);
            }
        }
        self.frame_sets[frame_index].update_buffer(
            0,
            buffer,
            0,
            buffer_size,
            DescriptorType::UniformBuffer,
        )
    }

    /// The write that binds the material buffer of worker `worker_index`.
    /// Refused when there is no material set with that index.
    pub fn bind_material_uniform(&self, worker_index: usize, buffer: u64, buffer_size: u64) -> (result:
        Result<DescriptorWrite, AshError>)
        ensures
            result == if worker_index < self@.material_sets.len() {
                uniform_write(self@.material_sets[worker_index as int], buffer, buffer_size)
            } else {
                Err(AshError::DescriptorSetIndexOutOfBounds { index: worker_index })
            },
            self.wf() && worker_index < self@.material_sets.len() ==> result == Ok::<
                DescriptorWrite,
                AshError,
            >(
                uniform_buffer_write(
                    self@.material_sets[worker_index as int].handle,
                    buffer,
                    buffer_size,
                ),
            ),
    {
        if worker_index >= self.material_sets.len() {
            return Err(AshError::DescriptorSetIndexOutOfBounds { index: worker_index });
        }
        proof {
            if self.wf() {
                lemma_single_slot(self@.material_sets[worker_index as int]);
            }
        }
        self.material_sets[worker_index].update_buffer(
            0,
            buffer,
            0,
            buffer_size,
            DescriptorType::UniformBuffer,
        )
    }

    /// The write that binds the shadow map for frame `frame_index`. Refused
    /// when there is no shadow set with that index.
    pub fn bind_shadow_map(&self, frame_index: usize, image_view: u64, sampler: u64) -> (result:
        Result<DescriptorWrite, AshError>)
        ensures
            result == if frame_index < self@.shadow_sets.len() {
                shadow_write(self@.shadow_sets[frame_index as int], image_view, sampler)
            } else {
                Err(AshError::DescriptorSetIndexOutOfBounds { index: frame_index })
            },
            self.wf() && frame_index < self@.shadow_sets.len() ==> result is Ok,
    {
        if frame_index >= self.shadow_sets.len() {
            return Err(AshError::DescriptorSetIndexOutOfBounds { index: frame_index });
        }
        proof {
            if self.wf() {
                lemma_single_slot(self@.shadow_sets[frame_index as int]);
            }
        }
        let info = ImageInfo {
            sampler,
            image_view,
            image_layout: ImageLayout::DepthStencilReadOnlyOptimal,
        };
        self.shadow_sets[frame_index].update_image_at(
            0,
            0,
            info,
            DescriptorType::CombinedImageSampler,
        )
    }

    fn material_texture_descriptor(&self, set: u64) -> (result: Result<&DescriptorSet, AshError>)
        ensures
            match result {
                Ok(descriptor) => self@.material_texture_descriptor(set) == Some(descriptor@),
                Err(error) => self@.material_texture_descriptor(set).is_none() && error
                    == AshError::DescriptorSetNotManaged(set),
            },
    {
        if set == self.default_texture_array_set.handle() {
            return Ok(&self.default_texture_array_set);
        }
        match self.dynamic_sets.get(&set) {
            Some(descriptor) => Ok(descriptor),
            None => Err(AshError::DescriptorSetNotManaged(set)),
        }
    }

    /// The writes that put `bindings` into the material texture set `set`,
    /// one per entry and in their order. Refused, with no write at all, when
    /// `set` is neither the default texture array set nor a texture set of
    /// this manager, or when the set has no slot for one of the entries; the
    /// first entry that fails decides the error.
    pub fn bind_material_textures(&self, set: u64, bindings: &Vec<TextureBinding>) -> (result:
        Result<Vec<DescriptorWrite>, AshError>)
        ensures
            match result {
                Ok(writes) => {
                    &&& self@.material_texture_descriptor(set).is_some()
                    &&& writes@.len() == bindings@.len()
                    &&& forall|i: int|
                        0 <= i < bindings@.len() ==> texture_write(
                            self@.material_texture_descriptor(set).unwrap(),
                            #[trigger] bindings@[i],
                        ) == Ok::<DescriptorWrite, AshError>(writes@[i])
                },
                Err(error) => match self@.material_texture_descriptor(set) {
                    None => error == AshError::DescriptorSetNotManaged(set),
                    Some(descriptor) => exists|k: int|
                        {
                            &&& 0 <= k < bindings@.len()
                            &&& texture_write(descriptor, bindings@[k]) == Err::<
                                DescriptorWrite,
                                AshError,
                            >(error)
                            &&& forall|j: int|
                                0 <= j < k ==> texture_write(
                                    descriptor,
                                    #[trigger] bindings@[j],
                                ) is Ok
                        },
                },
            },
            self.wf() && self@.material_texture_descriptor(set) is Some
                && self@.material_texture_descriptor(set).unwrap().bindings == layout_bindings_spec(
                LayoutKind::MaterialTexture,
            ) && (forall|i: int| 0 <= i < bindings@.len() ==> (#[trigger] bindings@[i]).binding < 5)
                ==> (result matches Ok(writes) && writes@ == material_texture_writes(
                set,
                bindings@,
            )),
    {
        let descriptor = match self.material_texture_descriptor(set) {
            Ok(descriptor) => descriptor,
            Err(error) => {
                return Err(error);
            },
        };
        let mut writes: Vec<DescriptorWrite> = Vec::new();
        let mut i: usize = 0;
        while i < bindings.len()
            invariant
                i <= bindings@.len(),
                writes@.len() == i,
                self@.material_texture_descriptor(set) == Some(descriptor@),
                forall|j: int|
                    0 <= j < i ==> texture_write(descriptor@, #[trigger] bindings@[j]) == Ok::<
                        DescriptorWrite,
                        AshError,
                    >(writes@[j]),
            decreases bindings@.len() - i,
        {
            let entry = bindings[i];
            let info = ImageInfo {
                sampler: entry.sampler,
                image_view: entry.view,
                image_layout: ImageLayout::ShaderReadOnlyOptimal,
            };
            match descriptor.update_image_at(
                entry.binding,
                0,
                info,
                DescriptorType::CombinedImageSampler,
            ) {
                Ok(write) => {
                    writes.push(write);
                },
                Err(error) => {
                    proof {
                        assert(texture_write(descriptor@, bindings@[i as int]) == Err::<
                            DescriptorWrite,
                            AshError,
                        >(error));
                        if self.wf() && descriptor@.bindings == layout_bindings_spec(
                            LayoutKind::MaterialTexture,
                        ) && bindings@[i as int].binding < 5 {
                            lemma_material_texture_slots(descriptor@, bindings@[i as int]);
                        }
                    }
                    return Err(error);
                },
            }
            i += 1;
        }
        proof {
            if self.wf() && descriptor@.bindings == layout_bindings_spec(
                LayoutKind::MaterialTexture,
            ) && (forall|i: int| 0 <= i < bindings@.len() ==> (#[trigger] bindings@[i]).binding < 5) {
                assert forall|i: int| 0 <= i < bindings@.len() implies writes@[i]
                    == texture_binding_write(set, bindings@[i]) by {
                    lemma_material_texture_slots(descriptor@, bindings@[i]);
                }
                assert(writes@ =~= material_texture_writes(set, bindings@));
            }
        }
        Ok(writes)
    }

    /// The handle of the default set with a single texture.
    pub fn default_texture_set(&self) -> (handle: u64)
        ensures
            handle == self@.default_texture_set.handle,
    {
        self.default_texture_set.handle()
    }

    /// The handle of the default set with the five material textures.
    pub fn default_texture_array_set(&self) -> (handle: u64)
        ensures
            handle == self@.default_texture_array_set.handle,
    {
        self.default_texture_array_set.handle()
    }

    /// Takes a single-texture set from the static pool, so that it lives as
    /// long as the mesh it belongs to; `native` is the handle under which
    /// the device allocated it. Refused, with nothing changed, when the
    /// static pool is used up.
    pub fn allocate_texture_set(&mut self, native: u64) -> (result: Result<u64, AshError>)
        requires
            old(self).wf(),
        ensures
            final(self).wf(),
            match result {
                Ok(handle) => {
                    &&& old(self)@.allocator.has_room(PoolClass::Static)
                    &&& handle == native
                    &&& final(self)@ == old(self)@.with_texture_set(
                        native,
                        old(self)@.texture_layout,
                    )
                },
                Err(error) => {
                    &&& !old(self)@.allocator.has_room(PoolClass::Static)
                    &&& error == AshError::DescriptorPoolExhausted(PoolClass::Static)
                    &&& final(self)@ == old(self)@
                },
            },
    {
        let descriptor = match self.allocator.allocate_static_set(&self.texture_layout, native) {
            Ok(descriptor) => descriptor,
            Err(error) => {
                return Err(error);
            },
        };
        let handle = descriptor.handle();
        let ghost before = self@.dynamic_sets;
        self.dynamic_sets.insert(handle, descriptor);
        assert(self@.dynamic_sets =~= before.insert(
            native,
            static_set(native, self@.texture_layout),
        ));
        Ok(handle)
    }

    /// Takes a material texture set from the static pool, so that it lives
    /// as long as the mesh it belongs to; `native` is the handle under which
    /// the device allocated it. Refused, with nothing changed, when the
    /// static pool is used up.
    pub fn allocate_material_texture_set(&mut self, native: u64) -> (result: Result<u64, AshError>)
        requires
            old(self).wf(),
        ensures
            final(self).wf(),
            match result {
                Ok(handle) => {
                    &&& old(self)@.allocator.has_room(PoolClass::Static)
                    &&& handle == native
                    &&& final(self)@ == old(self)@.with_texture_set(
                        native,
                        old(self)@.material_texture_layout,
                    )
                    &&& final(self)@.material_texture_descriptor(native).is_some()
                },
                Err(error) => {
                    &&& !old(self)@.allocator.has_room(PoolClass::Static)
                    &&& error == AshError::DescriptorPoolExhausted(PoolClass::Static)
                    &&& final(self)@ == old(self)@
                },
            },
    {
        let descriptor = match self.allocator.allocate_static_set(
            &self.material_texture_layout,
            native,
        ) {
            Ok(descriptor) => descriptor,
            Err(error) => {
                return Err(error);
            },
        };
        let handle = descriptor.handle();
        let ghost before = self@.dynamic_sets;
        self.dynamic_sets.insert(handle, descriptor);
        assert(self@.dynamic_sets =~= before.insert(
            native,
            static_set(native, self@.material_texture_layout),
        ));
        Ok(handle)
    }

    /// The handle of the frame layout.
    pub fn frame_layout(&self) -> (handle: u64)
        ensures
            handle == self@.frame_layout.handle,
    {
        self.frame_layout.handle()
    }

    /// The handle of the material layout.
    pub fn material_layout(&self) -> (handle: u64)
        ensures
            handle == self@.material_layout.handle,
    {
        self.material_layout.handle()
    }

    /// The handle of the layout with the five material textures.
    pub fn material_texture_layout(&self) -> (handle: u64)
        ensures
            handle == self@.material_texture_layout.handle,
    {
        self.material_texture_layout.handle()
    }

    /// The handle of the shadow layout.
    pub fn shadow_layout(&self) -> (handle: u64)
        ensures
            handle == self@.shadow_layout.handle,
    {
        self.shadow_layout.handle()
    }

    /// The handle of the frame set with the given index.
    pub fn frame_set(&self, index: usize) -> (handle: Option<u64>)
        ensures
            handle == if index < self@.frame_sets.len() {
                Some(self@.frame_sets[index as int].handle)
            } else {
                None
            },
    {
        if index < self.frame_sets.len() {
            Some(self.frame_sets[index].handle())
        } else {
            None
        }
    }

    /// The handle of the material set with the given index.
    pub fn material_set(&self, index: usize) -> (handle: Option<u64>)
        ensures
            handle == if index < self@.material_sets.len() {
                Some(self@.material_sets[index as int].handle)
            } else {
                None
            },
    {
        if index < self.material_sets.len() {
            Some(self.material_sets[index].handle())
        } else {
            None
        }
    }

    /// The handle of the shadow set with the given index.
    pub fn shadow_set(&self, index: usize) -> (handle: Option<u64>)
        ensures
            handle == if index < self@.shadow_sets.len() {
                Some(self@.shadow_sets[index as int].handle)
            } else {
                None
            },
    {
        if index < self.shadow_sets.len() {
            Some(self.shadow_sets[index].handle())
        } else {
            None
        }
    }

    /// The number of frame sets.
    pub fn frame_set_count(&self) -> (count: usize)
        ensures
            count == self@.frame_sets.len(),
    {
        self.frame_sets.len()
    }

    /// The number of material sets.
    pub fn material_set_count(&self) -> (count: usize)
        ensures
            count == self@.material_sets.len(),
    {
        self.material_sets.len()
    }

    /// The sets the static pool can still give.
    pub fn static_sets_remaining(&self) -> (left: u64)
        requires
            self.wf(),
        ensures
            left == self@.allocator.static_capacity - self@.allocator.static_used,
    {
        self.allocator.remaining(PoolClass::Static)
    }

    /// Replaces the frame sets by one new static set for each handle in
    /// `natives`, after the number of frames in flight changed to
    /// `frame_count`. The old sets stay in the pool.
    ///
    /// Refused, with the manager unchanged, when `natives` does not hold
    /// `frame_count` handles. Refused, with the old frame sets kept and the
    /// static pool used up, when the pool has no room for the new sets.
    pub fn recreate_frame_sets(&mut self, frame_count: u32, natives: &Vec<u64>) -> (result: Result<
        (),
        AshError,
    >)
        requires
            old(self).wf(),
        ensures
            final(self).wf(),
            match result {
                Ok(()) => {
                    &&& natives@.len() == frame_count
                    &&& old(self)@.allocator.static_used + frame_count <= old(
                        self,
                    )@.allocator.static_capacity
                    &&& final(self)@ == (ManagerView {
                        allocator: take_static(old(self)@.allocator, frame_count as int),
                        frame_sets: static_sets(natives@, old(self)@.frame_layout),
                        ..old(self)@
                    })
                },
                Err(error) => if natives@.len() != frame_count {
                    &&& error == AshError::DescriptorHandleCountMismatch
                    &&& final(self)@ == old(self)@
                } else {
                    &&& old(self)@.allocator.static_used + frame_count > old(
                        self,
                    )@.allocator.static_capacity
                    &&& error == AshError::DescriptorPoolExhausted(PoolClass::Static)
                    &&& final(self)@ == (ManagerView {
                        allocator: AllocatorView {
                            static_used: old(self)@.allocator.static_capacity,
                            ..old(self)@.allocator
                        },
                        ..old(self)@
                    })
                },
            },
    {
        if natives.len() != frame_count as usize {
            return Err(AshError::DescriptorHandleCountMismatch);
        }
        match Self::create_descriptor_sets(&self.frame_layout, &mut self.allocator, natives) {
            Ok(sets) => {
                self.frame_sets = sets;
                Ok(())
            },
            Err(error) => Err(error),
        }
    }

    /// The allocator, for allocations that the manager does not make
    /// itself, such as the bindless set.
    pub fn allocator_mut(&mut self) -> (allocator: &mut DescriptorAllocator)
        ensures
            allocator@ == old(self)@.allocator,
            final(self)@ == (ManagerView { allocator: final(allocator)@, ..old(self)@ }),
    {
        &mut self.allocator
    }
}

/// A static set of one of the renderer's layouts takes a descriptor of the
/// binding's type in the first slot of binding 0.
pub proof fn lemma_single_slot(set: SetView)
    requires
        set.variable_count is None,
        set.bindings.len() > 0,
        set.bindings[0].binding == 0,
        set.bindings[0].descriptor_count == 1,
    ensures
        set.slot_verdict(0, 0, set.bindings[0].descriptor_type) is Ok,
{
    assert(crate::descriptor_layout::first_binding_at(set.bindings, 0, 0));
    let chosen = choose|i: int| crate::descriptor_layout::first_binding_at(set.bindings, 0, i);
    assert(chosen == 0);
}

} // verus!
