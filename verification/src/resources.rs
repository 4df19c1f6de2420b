//! What a renderer is made of, and the renderer that is made of it.

use vstd::prelude::*;
use crate::bindless::{bindless_bindings, sampled_image_write, BindlessView};
use crate::config::MsaaPreset;
use crate::descriptor_allocator::AllocatorView;
use crate::descriptor_manager::{
    fixed_set_count, material_texture_writes, uniform_buffer_write, DescriptorHandles,
    DescriptorManager, ManagerView, TextureBinding,
};
use crate::descriptor_set::{DescriptorWrite, PoolClass, SetView};
use crate::draw::{DrawItemView, MeshTextures};
use crate::error::AshError;
use crate::frame::{FramePhase, FrameSync, ShadowPass, SwapchainInfo};
use crate::mesh::{Mesh, Registration, TextureBindingInfo};
use crate::rebuild::{frame_uniform_writes, register_framebuffers, register_slots, slot_ids};
use crate::registry::{RegistryView, ResourceId, ResourceKind};
use crate::renderer::PostProcessing;
use crate::renderer_view::RendererView;
use crate::texture::Texture;
use crate::texture_sets::{prepared, PreparedSet};

verus! {

/// The number of images that a headless renderer draws to in turn.
pub const HEADLESS_FRAME_COUNT: usize = 2;

/// The number of slots of the renderer's bindless table.
pub const MAX_BINDLESS_RESOURCES: u32 = 1024;

/// What the caller created on the device for a new renderer.
pub struct RendererResources {
    /// The number of instance extensions that the surface provider asks
    /// for; none means headless rendering.
    pub required_extension_count: usize,
    /// The swapchain, or, in headless mode, the extent and the format of
    /// the offscreen images.
    pub swapchain: SwapchainInfo,
    pub image_views: Vec<u64>,
    /// The image view of the depth buffer.
    pub depth_buffer: u64,
    pub render_pass: u64,
    /// One framebuffer per image view.
    pub framebuffers: Vec<u64>,
    pub worker_count: usize,
    /// One primary command buffer per image.
    pub command_buffers: Vec<u64>,
    /// The synchronization objects, one set per image.
    pub frame_syncs: Vec<FrameSync>,
    /// The command pool that uploads are recorded in.
    pub command_pool: u64,
    /// One uniform buffer per image.
    pub uniform_buffers: Vec<u64>,
    pub uniform_buffer_size: u64,
    /// One material buffer per worker.
    pub material_buffers: Vec<u64>,
    pub material_buffer_size: u64,
    /// The white texture that stands in for a missing texture.
    pub default_texture: Texture,
    pub descriptors: DescriptorHandles,
    pub bindless_layout: u64,
    pub bindless_set: u64,
    /// The white texture at index 0 of the bindless table.
    pub bindless_default_texture: Texture,
    pub pipeline_layout: u64,
    pub pipeline: u64,
    pub shadow: Option<ShadowPass>,
    /// The mesh that is drawn until another one is set.
    pub mesh: Mesh,
    /// A material texture set for the mesh, used where it brings textures.
    pub mesh_texture_set: u64,
    pub material: u64,
    pub transform: u64,
}

/// The five bindings that show `texture` in every slot.
pub open spec fn default_bindings(texture: Texture) -> Seq<TextureBinding> {
    Seq::new(
        5,
        |k: int| TextureBinding { binding: k as u32, view: texture.view, sampler: texture.sampler },
    )
}

/// The writes that bind the material buffers to the material sets, worker
/// by worker.
pub open spec fn material_uniform_writes(sets: Seq<u64>, buffers: Seq<u64>, size: u64) -> Seq<
    DescriptorWrite,
> {
    Seq::new(buffers.len(), |i: int| uniform_buffer_write(sets[i], buffers[i], size))
}

impl RendererResources {
    /// No presentation is asked for.
    pub open spec fn headless(self) -> bool {
        self.required_extension_count == 0
    }

    /// The number of images, and with it of frame slots.
    pub open spec fn image_count(self) -> nat {
        self.image_views@.len()
    }

    /// Why no renderer can be made of these resources, if so.
    ///
    /// There has to be one framebuffer, one set of synchronization
    /// objects, one command buffer and one uniform buffer per image, two
    /// images in headless mode and as many as the swapchain has otherwise;
    /// the counts have to fit the registry and the 32 bits in which the
    /// device takes them; the descriptor handles have to bring one frame
    /// set and one shadow set per image and one material set per worker;
    /// and there has to be one material buffer per worker.
    pub open spec fn refusal(self) -> Option<AshError> {
        let n = self.image_views@.len() as usize;
        let expected = if self.headless() {
            2usize
        } else {
            self.swapchain.image_count
        };
        if n != expected {
            Some(AshError::ImageCountMismatch { expected, actual: n })
        } else if self.framebuffers@.len() != n {
            Some(
                AshError::ImageCountMismatch {
                    expected: n,
                    actual: self.framebuffers@.len() as usize,
                },
            )
        } else if self.frame_syncs@.len() != n {
            Some(
                AshError::ImageCountMismatch {
                    expected: n,
                    actual: self.frame_syncs@.len() as usize,
                },
            )
        } else if self.command_buffers@.len() != n {
            Some(
                AshError::ImageCountMismatch {
                    expected: n,
                    actual: self.command_buffers@.len() as usize,
                },
            )
        } else if self.uniform_buffers@.len() != n {
            Some(
                AshError::ImageCountMismatch {
                    expected: n,
                    actual: self.uniform_buffers@.len() as usize,
                },
            )
        } else if 5 * n + 5 > u64::MAX {
            Some(AshError::RegistryExhausted)
        } else if n > u32::MAX {
            Some(AshError::CountTooLarge(n))
        } else if self.worker_count > u32::MAX {
            Some(AshError::CountTooLarge(self.worker_count))
        } else if !DescriptorManager::handles_match(
            n as u32,
            self.worker_count as u32,
            self.descriptors,
        ) {
            Some(AshError::DescriptorHandleCountMismatch)
        } else if self.material_buffers@.len() > self.worker_count {
            Some(AshError::DescriptorSetIndexOutOfBounds { index: self.worker_count })
        } else if self.worker_count > 0 && self.material_buffers@.len() != self.worker_count {
            Some(
                AshError::MaterialBufferCountMismatch {
                    buffer_count: self.material_buffers@.len() as usize,
                    worker_count: self.worker_count,
                },
            )
        } else {
            None
        }
    }

    /// The registry of the new renderer. The objects are registered in the
    /// order in which they depend on each other: the image views, the depth
    /// buffer, the render pass, the framebuffers, the objects of the frame
    /// slots, the command pool, the pipeline layout, and the pipeline,
    /// which depends on its layout and on the render pass.
    pub open spec fn registry(self) -> RegistryView {
        let n = self.image_views@.len() as int;
        let empty = RegistryView { records: Seq::empty(), next_id: 0 };
        let targets = register_framebuffers(
            empty.register_many(ResourceKind::ImageView, self.image_views@).register(
                ResourceKind::ImageView,
                self.depth_buffer,
                Seq::empty(),
            ).register(ResourceKind::RenderPass, self.render_pass, Seq::empty()),
            self.framebuffers@,
            ResourceId((n + 1) as u64),
            ResourceId(n as u64),
            empty.sequential_ids(n as nat),
        );
        register_slots(targets, self.frame_syncs@).register(
            ResourceKind::CommandPool,
            self.command_pool,
            Seq::empty(),
        ).register(ResourceKind::PipelineLayout, self.pipeline_layout, Seq::empty()).register(
            ResourceKind::Pipeline,
            self.pipeline,
            seq![ResourceId((5 * n + 3) as u64), ResourceId((n + 1) as u64)],
        )
    }

    /// The binding info of the mesh.
    pub open spec fn mesh_info(self) -> TextureBindingInfo {
        TextureBindingInfo::of(
            self.mesh.texture,
            self.mesh.normal_texture,
            self.mesh.metallic_roughness_texture,
            self.mesh.occlusion_texture,
            self.mesh.emissive_texture,
            self.default_texture,
        )
    }

    /// The bindless table right after its construction.
    pub open spec fn fresh_table(self) -> BindlessView {
        BindlessView {
            set: SetView {
                handle: self.bindless_set,
                pool: PoolClass::Bindless,
                layout: self.bindless_layout,
                bindings: bindless_bindings(1024),
                variable_count: Some(1024u32),
            },
            max_resources: 1024,
            next_index: 1,
            default_texture: Some(self.bindless_default_texture),
        }
    }

    /// The registration of the mesh's textures with the bindless table.
    pub open spec fn mesh_registration(self) -> Registration {
        self.mesh_info().register_from(self.fresh_table(), Seq::empty(), 0)
    }

    /// The descriptor manager before the texture set of the mesh is
    /// prepared: the sets that every renderer has are allocated, and the
    /// bindless set is taken from its pool.
    pub open spec fn base_manager(self) -> ManagerView {
        let allocator = AllocatorView {
            static_capacity: (fixed_set_count(
                self.image_views@.len() as u32,
                self.worker_count as u32,
            ) + 2048) as u64,
            static_used: 0,
            frame_capacity: 2048,
            frame_used: 0,
            bindless_capacity: 1,
            bindless_used: 0,
            frame_cycle: 0,
        };
        let initial = ManagerView::initial(
            allocator,
            self.image_views@.len() as u32,
            self.worker_count as u32,
            self.descriptors,
        );
        ManagerView { allocator: initial.allocator.take(PoolClass::Bindless), ..initial }
    }

    /// The outcome of preparing the texture set of the mesh.
    pub open spec fn mesh_set(self) -> PreparedSet {
        prepared(self.base_manager(), None, self.mesh_registration().info, self.mesh_texture_set)
    }

    /// The renderer that is made of these resources.
    pub open spec fn renderer(self) -> RendererView {
        let n = self.image_views@.len() as int;
        let info = self.mesh_registration().info;
        let texture_set = self.mesh_set().result->Ok_0.0;
        RendererView {
            registry: self.registry(),
            worker_count: self.worker_count,
            command_buffers: self.command_buffers@,
            frame_syncs: self.frame_syncs@,
            frame_sync_ids: slot_ids(2 * n + 2, n as nat),
            current_frame: 0,
            phase: FramePhase::Idle,
            default_texture: self.default_texture,
            draw_items: seq![
                DrawItemView {
                    key: self.mesh.name@,
                    transform: self.transform,
                    material: self.material,
                    texture_flags: info.flags,
                    texture_set,
                    bindless_indices: info.bindless_indices,
                },
            ],
            swapchain: if self.headless() {
                None
            } else {
                Some(self.swapchain)
            },
            render_pass: Some(self.render_pass),
            render_pass_id: Some(ResourceId((n + 1) as u64)),
            pipeline: Some(self.pipeline),
            pipeline_layout: Some(self.pipeline_layout),
            depth_buffer: Some(self.depth_buffer),
            depth_buffer_id: Some(ResourceId(n as u64)),
            uniform_buffers: self.uniform_buffers@,
            uniform_buffer_size: self.uniform_buffer_size,
            material_buffers: self.material_buffers@,
            descriptors: Some(self.mesh_set().manager),
            bindless: Some(self.mesh_registration().table),
            framebuffers: self.framebuffers@,
            framebuffer_ids: Seq::new(n as nat, |i: int| ResourceId((n + 2 + i) as u64)),
            image_view_ids: Seq::new(n as nat, |i: int| ResourceId(i as u64)),
            mesh: Some(self.mesh),
            material: self.material,
            transform: self.transform,
            mesh_registry: Map::<u32, String>::empty().insert(0, self.mesh.name),
            mesh_textures: Map::<Seq<char>, MeshTextures>::empty().insert(
                self.mesh.name@,
                MeshTextures { texture_set, flags: info.flags },
            ),
            material_registry: Map::<u32, u64>::empty().insert(0, self.material),
            old_swapchains: Seq::empty(),
            swapchain_cleanup_pending: false,
            resize_pending: false,
            pending_extent: Some(self.swapchain.extent),
            shadow: self.shadow,
            post_processing: PostProcessing {
                msaa_preset: MsaaPreset::Off,
                tonemapping_enabled: true,
                bloom_enabled: false,
                hdr_framebuffer: None,
                fullscreen_pass: None,
            },
        }
    }

    /// The descriptor writes that go with the construction: the uniform
    /// buffers of the frames, the material buffers of the workers, the
    /// default texture in all five slots of the default texture array set,
    /// the fallback texture of the bindless table, the textures of the mesh
    /// in the bindless table, and the textures of the mesh in its texture
    /// set.
    pub open spec fn writes(self) -> Seq<DescriptorWrite> {
        frame_uniform_writes(
            self.descriptors.frame_sets@,
            self.uniform_buffers@,
            self.uniform_buffer_size,
        ) + material_uniform_writes(
            self.descriptors.material_sets@,
            self.material_buffers@,
            self.material_buffer_size,
        ) + material_texture_writes(
            self.descriptors.default_texture_array_set,
            default_bindings(self.default_texture),
        ) + seq![
            sampled_image_write(
                self.bindless_set,
                0,
                self.bindless_default_texture.view,
                self.bindless_default_texture.sampler,
            ),
        ] + self.mesh_registration().writes + self.mesh_set().result->Ok_0.1
    }
}

} // verus!
