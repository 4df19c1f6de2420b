use ash_renderer::config::MsaaPreset;
use ash_renderer::descriptor_layout::DescriptorType;
use ash_renderer::descriptor_manager::DescriptorHandles;
use ash_renderer::descriptor_set::{DescriptorResource, DescriptorWrite, PoolClass};
use ash_renderer::draw::RenderCommand;
use ash_renderer::error::AshError;
use ash_renderer::frame::{
    FrameAction, FrameEvent, FramePhase, FrameSync, ResizeDecision, ShadowPass, SwapchainInfo,
};
use ash_renderer::mesh::{BindlessIndices, Mesh, TextureBindingInfo, TexturePresenceFlags};
use ash_renderer::registry::{DestroyCommand, ResourceId, ResourceKind};
use ash_renderer::renderer::{Renderer, FALLBACK_HEIGHT, FALLBACK_WIDTH};
use ash_renderer::resources::{RendererResources, HEADLESS_FRAME_COUNT, MAX_BINDLESS_RESOURCES};
use ash_renderer::surface::Extent2D;
use ash_renderer::texture::Texture;

const EXTENT: Extent2D = Extent2D { width: 800, height: 600 };

fn syncs(count: u64, base: u64) -> Vec<FrameSync> {
    (0..count)
        .map(|i| FrameSync {
            image_available: base + 0x10 * i,
            render_finished: base + 0x10 * i + 1,
            in_flight: base + 0x10 * i + 2,
        })
        .collect()
}

fn resources(images: u64, workers: u64, headless: bool) -> RendererResources {
    RendererResources {
        required_extension_count: if headless { 0 } else { 2 },
        swapchain: SwapchainInfo {
            handle: if headless { 0 } else { 0x5C },
            extent: EXTENT,
            format: 37,
            image_count: images as usize,
        },
        image_views: (0..images).map(|i| 0x100 + i).collect(),
        depth_buffer: 0x200,
        render_pass: 0x300,
        framebuffers: (0..images).map(|i| 0x400 + i).collect(),
        worker_count: workers as usize,
        command_buffers: (0..images).map(|i| 0x500 + i).collect(),
        frame_syncs: syncs(images, 0x600),
        command_pool: 0x700,
        uniform_buffers: (0..images).map(|i| 0x800 + i).collect(),
        uniform_buffer_size: 512,
        material_buffers: (0..workers).map(|i| 0x900 + i).collect(),
        material_buffer_size: 96,
        default_texture: Texture { view: 0xD1, sampler: 0xD2 },
        descriptors: DescriptorHandles {
            frame_layout: 0xA1,
            material_layout: 0xA2,
            texture_layout: 0xA3,
            material_texture_layout: 0xA4,
            shadow_layout: 0xA5,
            frame_sets: (0..images).map(|i| 0xB00 + i).collect(),
            material_sets: (0..workers).map(|i| 0xC00 + i).collect(),
            shadow_sets: (0..images).map(|i| 0xD00 + i).collect(),
            default_texture_set: 0xE0,
            default_texture_array_set: 0xE1,
        },
        bindless_layout: 0xF0,
        bindless_set: 0xF1,
        bindless_default_texture: Texture { view: 0xF2, sampler: 0xF3 },
        pipeline_layout: 0x1000,
        pipeline: 0x1001,
        shadow: None,
        mesh: Mesh {
            name: "cube".to_string(),
            texture: None,
            normal_texture: None,
            metallic_roughness_texture: None,
            occlusion_texture: None,
            emissive_texture: None,
        },
        mesh_texture_set: 0x1100,
        material: 1,
        transform: 2,
    }
}

fn headless(workers: u64) -> Renderer {
    Renderer::new(resources(2, workers, true)).unwrap().0
}

fn windowed(images: u64, workers: u64) -> Renderer {
    Renderer::new(resources(images, workers, false)).unwrap().0
}

fn refusal(resources: RendererResources) -> AshError {
    Renderer::new(resources).err().unwrap()
}

fn step(renderer: &mut Renderer, event: FrameEvent) -> FrameAction {
    renderer.render_frame(event).unwrap()
}

/// Runs one undisturbed frame and answers with the slot it was drawn in.
fn run_frame(renderer: &mut Renderer) -> usize {
    let slot = renderer.current_frame();
    match step(renderer, FrameEvent::Begin) {
        FrameAction::WaitFence { frame_index, .. } => assert_eq!(frame_index, slot),
        other => panic!("unexpected action {other:?}"),
    }
    if renderer.is_headless() {
        match step(renderer, FrameEvent::FenceSignaled) {
            FrameAction::Record(plan) => assert_eq!(plan.frame_index, slot),
            other => panic!("unexpected action {other:?}"),
        }
        match step(renderer, FrameEvent::Submitted) {
            FrameAction::Done { retired } => assert!(retired.is_empty()),
            other => panic!("unexpected action {other:?}"),
        }
    } else {
        match step(renderer, FrameEvent::FenceSignaled) {
            FrameAction::AcquireImage { frame_index, .. } => assert_eq!(frame_index, slot),
            other => panic!("unexpected action {other:?}"),
        }
        let image = slot as u32;
        match step(renderer, FrameEvent::ImageAcquired { code: 0, image_index: image }) {
            FrameAction::Record(plan) => assert_eq!(plan.image_index, slot),
            other => panic!("unexpected action {other:?}"),
        }
        match step(renderer, FrameEvent::Submitted) {
            FrameAction::Present { image_index, .. } => assert_eq!(image_index, image),
            other => panic!("unexpected action {other:?}"),
        }
        match step(renderer, FrameEvent::Presented { code: 0 }) {
            FrameAction::Done { .. } => {}
            other => panic!("unexpected action {other:?}"),
        }
    }
    slot
}

/// Drives the rebuild after `Begin` answered with `Rebuild`.
fn rebuild(renderer: &mut Renderer, images: u64, base: u64) -> Vec<FrameAction> {
    let swapchain = SwapchainInfo {
        handle: base,
        extent: Extent2D { width: 1024, height: 768 },
        format: 44,
        image_count: images as usize,
    };
    let events = vec![
        FrameEvent::SwapchainRecreated {
            swapchain,
            old_swapchain: 0x5C,
            image_views: (0..images).map(|i| base + 0x100 + i).collect(),
        },
        FrameEvent::DepthBufferCreated { view: base + 0x200 },
        FrameEvent::RenderTargetsCreated {
            render_pass: base + 0x300,
            framebuffers: (0..images).map(|i| base + 0x400 + i).collect(),
        },
        FrameEvent::FrameSyncsCreated { syncs: syncs(images, base + 0x600) },
        FrameEvent::CommandBuffersAllocated {
            buffers: (0..images).map(|i| base + 0x500 + i).collect(),
        },
        FrameEvent::UniformBuffersCreated {
            buffers: (0..images).map(|i| base + 0x800 + i).collect(),
        },
        FrameEvent::FrameSetsAllocated { sets: (0..images).map(|i| base + 0xB00 + i).collect() },
    ];
    events.into_iter().map(|event| step(renderer, event)).collect()
}

#[test]
fn a_new_renderer_stands_before_its_first_frame() {
    let renderer = headless(4);
    assert_eq!(renderer.current_frame(), 0);
    assert_eq!(renderer.frame_slot_count(), 2);
    assert_eq!(renderer.worker_count(), 4);
    assert!(renderer.is_headless());
    assert!(!renderer.resize_pending());
    assert_eq!(renderer.pending_extent(), Some(EXTENT));
    assert_eq!(renderer.phase(), FramePhase::Idle);
    assert_eq!(renderer.material(), 1);
    assert_eq!(renderer.transform(), 2);
    assert_eq!(renderer.mesh().unwrap().name, "cube");
    assert_eq!(HEADLESS_FRAME_COUNT, 2);
    assert_eq!(MAX_BINDLESS_RESOURCES, 1024);
    assert_eq!((FALLBACK_WIDTH, FALLBACK_HEIGHT), (800, 600));
    assert!(!windowed(3, 4).is_headless());
    assert_eq!(windowed(3, 4).frame_slot_count(), 3);
}

#[test]
fn a_new_renderer_has_registered_its_objects() {
    let renderer = windowed(3, 2);
    let registry = renderer.resource_registry();
    // 3 image views, depth buffer, render pass, 3 framebuffers, 3 times 3
    // synchronization objects, command pool, pipeline layout, pipeline.
    assert_eq!(registry.len(), 20);
    assert_eq!(registry.native_handle(ResourceId(0)), Some(0x100));
    assert_eq!(registry.native_handle(ResourceId(2)), Some(0x102));
    assert_eq!(registry.native_handle(ResourceId(3)), Some(0x200));
    assert_eq!(registry.native_handle(ResourceId(4)), Some(0x300));
    assert_eq!(registry.native_handle(ResourceId(5)), Some(0x400));
    assert_eq!(registry.native_handle(ResourceId(8)), Some(0x600));
    assert_eq!(registry.native_handle(ResourceId(9)), Some(0x601));
    assert_eq!(registry.native_handle(ResourceId(10)), Some(0x602));
    assert_eq!(registry.native_handle(ResourceId(16)), Some(0x622));
    assert_eq!(registry.native_handle(ResourceId(17)), Some(0x700));
    assert_eq!(registry.native_handle(ResourceId(18)), Some(0x1000));
    assert_eq!(registry.native_handle(ResourceId(19)), Some(0x1001));
    assert_eq!(registry.native_handle(ResourceId(20)), None);
}

#[test]
fn the_first_writes_bind_uniforms_and_default_textures() {
    let (renderer, writes) = Renderer::new(resources(2, 3, true)).unwrap();
    // 2 frame uniforms, 3 material uniforms, 5 default textures, and the
    // fallback texture of the bindless table.
    assert_eq!(writes.len(), 11);
    assert_eq!(
        writes[1],
        DescriptorWrite {
            set: 0xB01,
            binding: 0,
            array_index: 0,
            descriptor_type: DescriptorType::UniformBuffer,
            resource: DescriptorResource::Buffer { buffer: 0x801, offset: 0, range: 512 },
        }
    );
    assert_eq!(
        writes[4],
        DescriptorWrite {
            set: 0xC02,
            binding: 0,
            array_index: 0,
            descriptor_type: DescriptorType::UniformBuffer,
            resource: DescriptorResource::Buffer { buffer: 0x902, offset: 0, range: 96 },
        }
    );
    for k in 0..5u32 {
        let write = writes[5 + k as usize];
        assert_eq!((write.set, write.binding, write.array_index), (0xE1, k, 0));
    }
    assert_eq!((writes[10].set, writes[10].binding, writes[10].array_index), (0xF1, 0, 0));
    let bindless = renderer.bindless_manager().unwrap();
    assert_eq!(bindless.next_index(), 1);
    assert_eq!(bindless.max_resources(), 1024);
    let manager = renderer.descriptor_manager().unwrap();
    assert_eq!(manager.static_sets_remaining(), 2048);
    let items = renderer.draw_items();
    assert_eq!(items.len(), 1);
    assert_eq!(items[0].key, "cube");
    assert_eq!(items[0].texture_set, 0xE1);
    assert_eq!(items[0].bindless_indices, BindlessIndices::none());
}

#[test]
fn the_textures_of_the_first_mesh_are_registered() {
    let mut resources = resources(2, 1, true);
    resources.mesh.texture = Some(Texture { view: 0x21, sampler: 0x22 });
    resources.mesh.occlusion_texture = Some(Texture { view: 0x23, sampler: 0x24 });
    let (renderer, writes) = Renderer::new(resources).unwrap();
    // 2 + 1 + 5 + 1 as before, 2 bindless textures, 5 texture set slots.
    assert_eq!(writes.len(), 16);
    assert_eq!((writes[9].set, writes[9].array_index), (0xF1, 1));
    assert_eq!((writes[10].set, writes[10].array_index), (0xF1, 2));
    for k in 0..5u32 {
        let write = writes[11 + k as usize];
        assert_eq!((write.set, write.binding), (0x1100, k));
    }
    let items = renderer.draw_items();
    assert_eq!(items[0].texture_set, 0x1100);
    assert_eq!(items[0].bindless_indices.to_array(), [1, -1, -1, 2, -1]);
    assert!(items[0].texture_flags.base_color && items[0].texture_flags.occlusion);
    assert_eq!(renderer.bindless_manager().unwrap().next_index(), 3);
    assert_eq!(renderer.descriptor_manager().unwrap().static_sets_remaining(), 2047);
}

#[test]
fn a_renderer_needs_one_of_everything_per_image() {
    let mut wrong = resources(2, 1, true);
    wrong.image_views.push(0x102);
    assert_eq!(refusal(wrong), AshError::ImageCountMismatch { expected: 2, actual: 3 });
    let mut wrong = resources(3, 1, false);
    wrong.swapchain.image_count = 4;
    assert_eq!(refusal(wrong), AshError::ImageCountMismatch { expected: 4, actual: 3 });
    let mut wrong = resources(3, 1, false);
    wrong.framebuffers.pop();
    assert_eq!(refusal(wrong), AshError::ImageCountMismatch { expected: 3, actual: 2 });
    let mut wrong = resources(3, 1, false);
    wrong.frame_syncs.clear();
    assert_eq!(refusal(wrong), AshError::ImageCountMismatch { expected: 3, actual: 0 });
    let mut wrong = resources(3, 1, false);
    wrong.command_buffers.push(1);
    assert_eq!(refusal(wrong), AshError::ImageCountMismatch { expected: 3, actual: 4 });
    let mut wrong = resources(3, 1, false);
    wrong.uniform_buffers.pop();
    assert_eq!(refusal(wrong), AshError::ImageCountMismatch { expected: 3, actual: 2 });
}

#[test]
fn a_renderer_needs_one_material_set_and_buffer_per_worker() {
    let mut wrong = resources(2, 3, true);
    wrong.descriptors.material_sets.pop();
    assert_eq!(refusal(wrong), AshError::DescriptorHandleCountMismatch);
    let mut wrong = resources(2, 3, true);
    wrong.descriptors.shadow_sets.push(1);
    assert_eq!(refusal(wrong), AshError::DescriptorHandleCountMismatch);
    let mut wrong = resources(2, 3, true);
    wrong.material_buffers.pop();
    assert_eq!(
        refusal(wrong),
        AshError::MaterialBufferCountMismatch { buffer_count: 2, worker_count: 3 }
    );
    let mut wrong = resources(2, 3, true);
    wrong.material_buffers.push(1);
    assert_eq!(refusal(wrong), AshError::DescriptorSetIndexOutOfBounds { index: 3 });
    // Without workers there is nothing to match.
    assert!(Renderer::new(resources(2, 0, true)).is_ok());
    let mut wrong = resources(2, 0, true);
    wrong.worker_count = u32::MAX as usize + 1;
    assert_eq!(refusal(wrong), AshError::CountTooLarge(u32::MAX as usize + 1));
}

#[test]
fn eight_frames_cycle_through_the_frame_slots() {
    let mut renderer = headless(4);
    let slots: Vec<usize> = (0..8).map(|_| run_frame(&mut renderer)).collect();
    assert_eq!(slots, vec![0, 1, 0, 1, 0, 1, 0, 1]);
    assert_eq!(renderer.current_frame(), 0);
    let mut renderer = windowed(3, 4);
    let slots: Vec<usize> = (0..8).map(|_| run_frame(&mut renderer)).collect();
    assert_eq!(slots, vec![0, 1, 2, 0, 1, 2, 0, 1]);
    assert_eq!(renderer.current_frame(), 2);
    assert!(!renderer.resize_pending());
}

#[test]
fn the_worker_of_a_frame_is_its_slot_modulo_the_workers() {
    let mut renderer = windowed(3, 2);
    let mut workers = Vec::new();
    for _ in 0..6 {
        step(&mut renderer, FrameEvent::Begin);
        step(&mut renderer, FrameEvent::FenceSignaled);
        let slot = renderer.current_frame();
        match step(&mut renderer, FrameEvent::ImageAcquired { code: 0, image_index: 0 }) {
            FrameAction::Record(plan) => {
                assert_eq!(plan.worker_index, slot % 2);
                assert_eq!(plan.worker_index, renderer.worker_index_for_frame(slot));
                workers.push(plan.worker_index);
            }
            other => panic!("unexpected action {other:?}"),
        }
        step(&mut renderer, FrameEvent::Submitted);
        step(&mut renderer, FrameEvent::Presented { code: 0 });
    }
    assert_eq!(workers, vec![0, 1, 0, 0, 1, 0]);
    let renderer = headless(0);
    assert_eq!(renderer.worker_index_for_frame(5), 0);
}

#[test]
fn a_plan_names_everything_the_frame_is_recorded_with() {
    let mut resources = resources(3, 2, false);
    resources.shadow = Some(ShadowPass {
        render_pass: 0x51,
        framebuffer: 0x52,
        depth_image_view: 0x53,
        sampler: 0x54,
        resolution: 2048,
        pipeline: 0x55,
        pipeline_layout: 0x56,
    });
    let mut renderer = Renderer::new(resources).unwrap().0;
    run_frame(&mut renderer);
    match step(&mut renderer, FrameEvent::Begin) {
        FrameAction::WaitFence { frame_index, fence, retired } => {
            assert_eq!((frame_index, fence), (1, 0x612));
            assert!(retired.is_empty());
        }
        other => panic!("unexpected action {other:?}"),
    }
    match step(&mut renderer, FrameEvent::FenceSignaled) {
        FrameAction::AcquireImage { frame_index, semaphore } => {
            assert_eq!((frame_index, semaphore), (1, 0x610));
        }
        other => panic!("unexpected action {other:?}"),
    }
    let plan = match step(&mut renderer, FrameEvent::ImageAcquired { code: 0, image_index: 2 }) {
        FrameAction::Record(plan) => plan,
        other => panic!("unexpected action {other:?}"),
    };
    assert_eq!(plan.frame_index, 1);
    assert_eq!(plan.image_index, 2);
    assert!(plan.image_acquired);
    assert_eq!(plan.worker_index, 1);
    assert_eq!(plan.command_buffer, 0x501);
    assert_eq!(plan.framebuffer, 0x402);
    assert_eq!(plan.render_pass, 0x300);
    assert_eq!(plan.pipeline, 0x1001);
    assert_eq!(plan.pipeline_layout, 0x1000);
    assert_eq!(plan.extent, EXTENT);
    assert_eq!(plan.material_buffer, Some(0x901));
    assert_eq!(
        plan.sync,
        FrameSync { image_available: 0x610, render_finished: 0x611, in_flight: 0x612 }
    );
    let shadow = plan.shadow_pass.unwrap();
    assert_eq!(shadow.pass.resolution, 2048);
    assert_eq!(shadow.frame_set, Some(0xB01));
    let sets = plan.sets.unwrap();
    assert_eq!(sets.frame_set, 0xB01);
    assert_eq!(sets.material_set, 0xC01);
    assert_eq!(sets.default_texture_set, 0xE1);
    assert_eq!(sets.bindless_set, Some(0xF1));
    let binding = sets.shadow.unwrap();
    assert_eq!(binding.set, 0xD01);
    assert_eq!((binding.write.set, binding.write.binding), (0xD01, 0));
    assert_eq!(plan.draws.len(), 1);
    assert_eq!(plan.draws[0].item, 0);
    assert_eq!(plan.draws[0].texture_set, Some(0xE1));
    assert_eq!(plan.draws[0].texture_sets.to_array(), [-1, -1, -1, -1, -1]);
    match step(&mut renderer, FrameEvent::Submitted) {
        FrameAction::Present { image_index, wait_semaphore } => {
            assert_eq!((image_index, wait_semaphore), (2, 0x611));
        }
        other => panic!("unexpected action {other:?}"),
    }
}

#[test]
fn a_headless_frame_draws_to_the_image_of_its_slot() {
    let mut renderer = headless(1);
    run_frame(&mut renderer);
    step(&mut renderer, FrameEvent::Begin);
    match step(&mut renderer, FrameEvent::FenceSignaled) {
        FrameAction::Record(plan) => {
            assert_eq!((plan.frame_index, plan.image_index), (1, 1));
            assert!(!plan.image_acquired);
            assert_eq!(plan.framebuffer, 0x401);
            assert_eq!(plan.extent, EXTENT);
        }
        other => panic!("unexpected action {other:?}"),
    }
}

#[test]
fn events_out_of_order_are_refused() {
    let mut renderer = windowed(3, 1);
    for event in [
        FrameEvent::FenceSignaled,
        FrameEvent::ImageAcquired { code: 0, image_index: 0 },
        FrameEvent::Submitted,
        FrameEvent::Presented { code: 0 },
        FrameEvent::DepthBufferCreated { view: 1 },
        FrameEvent::FrameSetsAllocated { sets: vec![] },
        FrameEvent::Failed { code: -4 },
    ] {
        assert_eq!(renderer.render_frame(event).err(), Some(AshError::FrameOutOfOrder));
        assert_eq!(renderer.phase(), FramePhase::Idle);
    }
    step(&mut renderer, FrameEvent::Begin);
    assert_eq!(renderer.phase(), FramePhase::AwaitingFence);
    assert_eq!(renderer.render_frame(FrameEvent::Begin).err(), Some(AshError::FrameOutOfOrder));
    assert_eq!(
        renderer.render_frame(FrameEvent::Submitted).err(),
        Some(AshError::FrameOutOfOrder)
    );
    assert_eq!(renderer.phase(), FramePhase::AwaitingFence);
}

#[test]
fn a_device_error_gives_the_frame_up() {
    let mut renderer = windowed(3, 1);
    step(&mut renderer, FrameEvent::Begin);
    assert_eq!(
        renderer.render_frame(FrameEvent::Failed { code: -4 }).err(),
        Some(AshError::Device(-4))
    );
    assert_eq!(renderer.phase(), FramePhase::Idle);
    assert_eq!(renderer.current_frame(), 0);
    step(&mut renderer, FrameEvent::Begin);
    step(&mut renderer, FrameEvent::FenceSignaled);
    assert_eq!(
        renderer.render_frame(FrameEvent::ImageAcquired { code: -4, image_index: 0 }).err(),
        Some(AshError::Device(-4))
    );
    assert_eq!(renderer.phase(), FramePhase::Idle);
    assert!(!renderer.resize_pending());
    step(&mut renderer, FrameEvent::Begin);
    step(&mut renderer, FrameEvent::FenceSignaled);
    step(&mut renderer, FrameEvent::ImageAcquired { code: 0, image_index: 0 });
    step(&mut renderer, FrameEvent::Submitted);
    assert_eq!(
        renderer.render_frame(FrameEvent::Presented { code: -1_000_000_000 }).err(),
        Some(AshError::Device(-1_000_000_000))
    );
    assert_eq!(renderer.current_frame(), 0);
}

#[test]
fn an_image_without_framebuffer_gives_the_frame_up() {
    let mut renderer = windowed(3, 1);
    step(&mut renderer, FrameEvent::Begin);
    step(&mut renderer, FrameEvent::FenceSignaled);
    assert_eq!(
        renderer.render_frame(FrameEvent::ImageAcquired { code: 0, image_index: 3 }).err(),
        Some(AshError::FramebufferIndexOutOfRange(3))
    );
    assert_eq!(renderer.phase(), FramePhase::Idle);
}

#[test]
fn an_out_of_date_acquire_requests_a_resize() {
    let mut renderer = windowed(3, 1);
    run_frame(&mut renderer);
    step(&mut renderer, FrameEvent::Begin);
    step(&mut renderer, FrameEvent::FenceSignaled);
    let event = FrameEvent::ImageAcquired { code: -1_000_001_004, image_index: 0 };
    match step(&mut renderer, event) {
        FrameAction::Skip { wait_idle } => assert!(wait_idle),
        other => panic!("unexpected action {other:?}"),
    }
    assert!(renderer.resize_pending());
    assert_eq!(renderer.pending_extent(), Some(EXTENT));
    assert_eq!(renderer.current_frame(), 1);
    assert_eq!(renderer.phase(), FramePhase::Idle);
    // The next frame starts with the rebuild.
    match step(&mut renderer, FrameEvent::Begin) {
        FrameAction::Rebuild { fences } => assert_eq!(fences, vec![0x602, 0x612, 0x622]),
        other => panic!("unexpected action {other:?}"),
    }
}

#[test]
fn a_suboptimal_present_requests_a_resize() {
    let mut renderer = windowed(3, 1);
    step(&mut renderer, FrameEvent::Begin);
    step(&mut renderer, FrameEvent::FenceSignaled);
    step(&mut renderer, FrameEvent::ImageAcquired { code: 0, image_index: 1 });
    step(&mut renderer, FrameEvent::Submitted);
    match step(&mut renderer, FrameEvent::Presented { code: 1_000_001_003 }) {
        FrameAction::Skip { wait_idle } => assert!(wait_idle),
        other => panic!("unexpected action {other:?}"),
    }
    assert!(renderer.resize_pending());
    // The frame slot stays current.
    assert_eq!(renderer.current_frame(), 0);
}

#[test]
fn a_zero_area_resize_waits_for_an_extent_with_area() {
    let mut renderer = windowed(3, 1);
    let registered = renderer.resource_registry().len();
    assert!(renderer.request_swapchain_resize(Extent2D { width: 0, height: 600 }));
    for _ in 0..3 {
        match step(&mut renderer, FrameEvent::Begin) {
            FrameAction::Skip { wait_idle } => assert!(!wait_idle),
            other => panic!("unexpected action {other:?}"),
        }
        assert!(renderer.resize_pending());
        assert_eq!(renderer.phase(), FramePhase::Idle);
        assert_eq!(renderer.resource_registry().len(), registered);
        assert_eq!(renderer.frame_slot_count(), 3);
    }
    // A second request is not the first any more.
    assert!(!renderer.request_swapchain_resize(Extent2D { width: 640, height: 0 }));
    assert!(matches!(step(&mut renderer, FrameEvent::Begin), FrameAction::Skip { .. }));
    assert!(!renderer.request_swapchain_resize(Extent2D { width: 640, height: 480 }));
    assert!(matches!(step(&mut renderer, FrameEvent::Begin), FrameAction::Rebuild { .. }));
    assert_eq!(renderer.phase(), FramePhase::AwaitingSwapchain);
    assert!(renderer.resize_pending());
}

#[test]
fn a_pending_resize_decides_how_the_frame_begins() {
    let mut renderer = windowed(3, 1);
    assert_eq!(renderer.resize_if_needed(), ResizeDecision::NotPending);
    renderer.request_swapchain_resize(Extent2D { width: 0, height: 0 });
    assert_eq!(renderer.resize_if_needed(), ResizeDecision::Deferred);
    renderer.request_swapchain_resize(Extent2D { width: 1, height: 0 });
    assert_eq!(renderer.resize_if_needed(), ResizeDecision::Deferred);
    renderer.request_swapchain_resize(Extent2D { width: 1, height: 1 });
    assert_eq!(renderer.resize_if_needed(), ResizeDecision::Rebuild);
    let mut renderer = headless(1);
    renderer.request_swapchain_resize(Extent2D { width: 0, height: 7 });
    assert_eq!(renderer.resize_if_needed(), ResizeDecision::Deferred);
    renderer.request_swapchain_resize(Extent2D { width: 7, height: 7 });
    assert_eq!(renderer.resize_if_needed(), ResizeDecision::Settle);
}

#[test]
fn a_resize_cycle_rebuilds_every_frame_slot() {
    let mut renderer = windowed(3, 2);
    run_frame(&mut renderer);
    assert_eq!(renderer.current_frame(), 1);
    renderer.request_swapchain_resize(Extent2D { width: 1024, height: 768 });
    assert!(matches!(step(&mut renderer, FrameEvent::Begin), FrameAction::Rebuild { .. }));
    let actions = rebuild(&mut renderer, 2, 0x10000);
    match &actions[0] {
        FrameAction::CreateDepthBuffer { extent, destroy, refused } => {
            assert_eq!(*extent, Extent2D { width: 1024, height: 768 });
            // The pipeline still depends on the render pass, so the
            // registry does not let it go.
            assert_eq!(refused, &vec![AshError::ResourceInUse(ResourceId(4))]);
            // Framebuffers first, then the image views and the depth
            // buffer.
            let kinds: Vec<ResourceKind> = destroy.iter().map(|command| command.kind).collect();
            assert_eq!(
                kinds,
                vec![
                    ResourceKind::Framebuffer,
                    ResourceKind::Framebuffer,
                    ResourceKind::Framebuffer,
                    ResourceKind::ImageView,
                    ResourceKind::ImageView,
                    ResourceKind::ImageView,
                    ResourceKind::ImageView,
                ]
            );
            assert_eq!(destroy[0].native, 0x400);
            assert_eq!(destroy[3].native, 0x100);
            assert_eq!(destroy[6].native, 0x200);
        }
        other => panic!("unexpected action {other:?}"),
    }
    match &actions[1] {
        FrameAction::CreateRenderTargets { extent, format, image_count, depth_view } => {
            assert_eq!(*extent, Extent2D { width: 1024, height: 768 });
            assert_eq!((*format, *image_count, *depth_view), (44, 2, 0x10200));
        }
        other => panic!("unexpected action {other:?}"),
    }
    match &actions[2] {
        FrameAction::CreateFrameSyncs { count, destroy, refused } => {
            assert_eq!(*count, 2);
            assert!(refused.is_empty());
            assert_eq!(destroy.len(), 9);
            assert_eq!(
                destroy[0],
                DestroyCommand { id: ResourceId(8), kind: ResourceKind::Semaphore, native: 0x600 }
            );
            assert_eq!(destroy[8].kind, ResourceKind::Fence);
        }
        other => panic!("unexpected action {other:?}"),
    }
    assert!(matches!(actions[3], FrameAction::AllocateCommandBuffers { count: 2 }));
    match &actions[4] {
        FrameAction::CreateUniformBuffers { count, release } => {
            assert_eq!(*count, 2);
            assert_eq!(release, &vec![0x800, 0x801, 0x802]);
        }
        other => panic!("unexpected action {other:?}"),
    }
    assert!(matches!(actions[5], FrameAction::AllocateFrameSets { count: 2, layout: 0xA1 }));
    match &actions[6] {
        FrameAction::Rebuilt { writes } => {
            assert_eq!(writes.len(), 2);
            assert_eq!(writes[1].set, 0x10B01);
            assert_eq!(
                writes[1].resource,
                DescriptorResource::Buffer { buffer: 0x10801, offset: 0, range: 512 }
            );
        }
        other => panic!("unexpected action {other:?}"),
    }
    assert_eq!(renderer.frame_slot_count(), 2);
    assert_eq!(renderer.current_frame(), 0);
    assert!(!renderer.resize_pending());
    assert_eq!(renderer.pending_extent(), Some(Extent2D { width: 1024, height: 768 }));
    assert_eq!(renderer.phase(), FramePhase::Idle);
    // Pipeline layout, pipeline, command pool and the old render pass
    // stay; 2 image views, the depth buffer, the render pass, 2
    // framebuffers and 6 synchronization objects are new.
    assert_eq!(renderer.resource_registry().len(), 4 + 2 + 1 + 1 + 2 + 6);
    assert_eq!(renderer.descriptor_manager().unwrap().static_sets_remaining(), 2046);
    // The superseded swapchain goes after the next fence wait.
    match step(&mut renderer, FrameEvent::Begin) {
        FrameAction::WaitFence { frame_index, fence, retired } => {
            assert_eq!((frame_index, fence), (0, 0x10602));
            assert_eq!(retired, vec![0x5C]);
        }
        other => panic!("unexpected action {other:?}"),
    }
    step(&mut renderer, FrameEvent::FenceSignaled);
    match step(&mut renderer, FrameEvent::ImageAcquired { code: 0, image_index: 1 }) {
        FrameAction::Record(plan) => {
            assert_eq!(plan.extent, Extent2D { width: 1024, height: 768 });
            assert_eq!(plan.framebuffer, 0x10401);
            assert_eq!(plan.render_pass, 0x10300);
            assert_eq!(plan.command_buffer, 0x10500);
            assert_eq!(plan.sets.unwrap().frame_set, 0x10B00);
        }
        other => panic!("unexpected action {other:?}"),
    }
}

#[test]
fn the_pipeline_keeps_the_rebuilt_render_pass_alive() {
    let mut renderer = windowed(2, 1);
    renderer.request_swapchain_resize(Extent2D { width: 10, height: 10 });
    step(&mut renderer, FrameEvent::Begin);
    let action = step(
        &mut renderer,
        FrameEvent::SwapchainRecreated {
            swapchain: SwapchainInfo { handle: 9, extent: EXTENT, format: 1, image_count: 2 },
            old_swapchain: 0,
            image_views: vec![1, 2],
        },
    );
    match action {
        FrameAction::CreateDepthBuffer { destroy, refused, .. } => {
            // The pipeline depends on the old render pass, so the registry
            // refuses to let it go; the depth buffer and the image views
            // go once the framebuffers are gone.
            assert_eq!(refused, vec![AshError::ResourceInUse(ResourceId(3))]);
            assert_eq!(destroy.len(), 5);
        }
        other => panic!("unexpected action {other:?}"),
    }
    assert!(renderer.resource_registry().contains(ResourceId(3)));
}

#[test]
fn a_rebuild_with_the_wrong_counts_is_given_up() {
    let mut renderer = windowed(3, 1);
    renderer.request_swapchain_resize(Extent2D { width: 10, height: 10 });
    step(&mut renderer, FrameEvent::Begin);
    let swapchain = SwapchainInfo { handle: 9, extent: EXTENT, format: 1, image_count: 2 };
    let event =
        FrameEvent::SwapchainRecreated { swapchain, old_swapchain: 0x5C, image_views: vec![1] };
    assert_eq!(
        renderer.render_frame(event).err(),
        Some(AshError::ImageCountMismatch { expected: 2, actual: 1 })
    );
    assert_eq!(renderer.phase(), FramePhase::Idle);
    // The resize stays pending and the rebuild starts over.
    assert!(renderer.resize_pending());
    assert!(matches!(step(&mut renderer, FrameEvent::Begin), FrameAction::Rebuild { .. }));
    let event = FrameEvent::SwapchainRecreated {
        swapchain,
        old_swapchain: 0x5C,
        image_views: vec![1, 2],
    };
    step(&mut renderer, event);
    step(&mut renderer, FrameEvent::DepthBufferCreated { view: 3 });
    let event = FrameEvent::RenderTargetsCreated { render_pass: 4, framebuffers: vec![5] };
    assert_eq!(
        renderer.render_frame(event).err(),
        Some(AshError::ImageCountMismatch { expected: 2, actual: 1 })
    );
    assert!(renderer.resize_pending());
}

#[test]
fn a_rebuild_that_is_given_up_keeps_the_new_swapchain() {
    let mut renderer = windowed(3, 1);
    renderer.request_swapchain_resize(Extent2D { width: 10, height: 10 });
    step(&mut renderer, FrameEvent::Begin);
    let swapchain = SwapchainInfo { handle: 9, extent: EXTENT, format: 1, image_count: 2 };
    let event =
        FrameEvent::SwapchainRecreated { swapchain, old_swapchain: 0x5C, image_views: vec![1] };
    assert!(renderer.render_frame(event).is_err());
    // The new swapchain is on record, the superseded one waits for its
    // destruction.
    assert_eq!(renderer.post_processing_target(), Ok(swapchain));
    assert!(matches!(step(&mut renderer, FrameEvent::Begin), FrameAction::Rebuild { .. }));
    let actions = rebuild(&mut renderer, 2, 0x20000);
    assert!(matches!(actions[6], FrameAction::Rebuilt { .. }));
    match step(&mut renderer, FrameEvent::Begin) {
        FrameAction::WaitFence { retired, .. } => assert_eq!(retired, vec![0x5C, 0x5C]),
        other => panic!("unexpected action {other:?}"),
    }
}

#[test]
fn shutdown_hands_over_the_superseded_swapchains() {
    let mut renderer = windowed(3, 1);
    renderer.request_swapchain_resize(Extent2D { width: 10, height: 10 });
    step(&mut renderer, FrameEvent::Begin);
    rebuild(&mut renderer, 2, 0x20000);
    let plan = renderer.shutdown();
    assert_eq!(plan.retired_swapchains, vec![0x5C]);
    // The list was emptied by the flush.
    assert!(renderer.shutdown().retired_swapchains.is_empty());
}

#[test]
fn rebuild_steps_out_of_order_are_refused() {
    let mut renderer = windowed(3, 1);
    renderer.request_swapchain_resize(Extent2D { width: 10, height: 10 });
    step(&mut renderer, FrameEvent::Begin);
    assert_eq!(
        renderer.render_frame(FrameEvent::DepthBufferCreated { view: 1 }).err(),
        Some(AshError::FrameOutOfOrder)
    );
    assert_eq!(
        renderer.render_frame(FrameEvent::FrameSyncsCreated { syncs: vec![] }).err(),
        Some(AshError::FrameOutOfOrder)
    );
    assert_eq!(renderer.phase(), FramePhase::AwaitingSwapchain);
    assert_eq!(
        renderer.render_frame(FrameEvent::Failed { code: -3 }).err(),
        Some(AshError::Device(-3))
    );
    assert_eq!(renderer.phase(), FramePhase::Idle);
    assert!(renderer.resize_pending());
}

#[test]
fn a_headless_renderer_settles_a_resize_without_rebuild() {
    let mut renderer = headless(1);
    assert!(renderer.request_swapchain_resize(Extent2D { width: 320, height: 200 }));
    assert!(renderer.resize_pending());
    match step(&mut renderer, FrameEvent::Begin) {
        FrameAction::WaitForFrames { fences } => assert_eq!(fences, vec![0x602, 0x612]),
        other => panic!("unexpected action {other:?}"),
    }
    assert_eq!(renderer.phase(), FramePhase::AwaitingFrames);
    assert!(renderer.resize_pending());
    assert_eq!(
        renderer.render_frame(FrameEvent::FenceSignaled).err(),
        Some(AshError::FrameOutOfOrder)
    );
    match step(&mut renderer, FrameEvent::FramesCompleted) {
        FrameAction::Rebuilt { writes } => assert!(writes.is_empty()),
        other => panic!("unexpected action {other:?}"),
    }
    assert!(!renderer.resize_pending());
    assert_eq!(renderer.pending_extent(), Some(Extent2D { width: 320, height: 200 }));
    assert_eq!(renderer.phase(), FramePhase::Idle);
    assert!(matches!(step(&mut renderer, FrameEvent::Begin), FrameAction::WaitFence { .. }));
    match step(&mut renderer, FrameEvent::FenceSignaled) {
        FrameAction::Record(plan) => {
            assert_eq!(plan.extent, Extent2D { width: 320, height: 200 })
        }
        other => panic!("unexpected action {other:?}"),
    }
    // Outside that wait the event is refused.
    assert_eq!(
        renderer.render_frame(FrameEvent::FramesCompleted).err(),
        Some(AshError::FrameOutOfOrder)
    );
}

#[test]
fn render_commands_replace_the_draw_items() {
    let mut renderer = headless(1);
    let mut sphere = Mesh {
        name: "sphere".to_string(),
        texture: Some(Texture { view: 0x31, sampler: 0x32 }),
        normal_texture: None,
        metallic_roughness_texture: None,
        occlusion_texture: None,
        emissive_texture: None,
    };
    let info = TextureBindingInfo::from_mesh(&sphere, &Texture { view: 0xD1, sampler: 0xD2 });
    assert!(renderer.needs_texture_set(&sphere.name, &info));
    let registration = renderer.register_mesh_handle(5, &sphere, 0x2000);
    assert_eq!(registration.texture_error, None);
    assert_eq!(registration.writes.len(), 5);
    assert_eq!(registration.writes[0].set, 0x2000);
    assert!(!renderer.needs_texture_set(&sphere.name, &info));
    renderer.register_material_handle(6, 60);
    assert_eq!(renderer.register_material_descriptor(7, 70), 70);
    let commands = vec![
        RenderCommand { mesh_handle: 5, material_handle: 6, transform: 100 },
        RenderCommand { mesh_handle: 0, material_handle: 7, transform: 101 },
        RenderCommand { mesh_handle: 4, material_handle: 6, transform: 102 },
    ];
    renderer.submit_render_commands(&commands);
    {
        let items = renderer.draw_items();
        assert_eq!(items.len(), 2);
        assert_eq!((items[0].key.as_str(), items[0].material), ("sphere", 60));
        assert_eq!(items[0].texture_set, 0x2000);
        assert!(items[0].texture_flags.base_color);
        assert_eq!((items[1].key.as_str(), items[1].material), ("cube", 70));
        assert_eq!(items[1].texture_set, 0xE1);
        assert_eq!(items[1].transform, 101);
    }
    // Without a command that can be drawn, the renderer's own mesh is.
    renderer.submit_render_commands(&vec![RenderCommand {
        mesh_handle: 9,
        material_handle: 9,
        transform: 0,
    }]);
    {
        let items = renderer.draw_items();
        assert_eq!(items.len(), 1);
        assert_eq!(items[0].key, "cube");
        assert_eq!((items[0].transform, items[0].material), (2, 1));
    }
    // A second registration keeps the texture set.
    sphere.normal_texture = Some(Texture { view: 0x33, sampler: 0x34 });
    let (key, registration) = renderer.register_mesh_descriptor(8, &sphere, 0x3000);
    assert_eq!(key, "sphere");
    assert_eq!(registration.writes[1].set, 0x2000);
    assert_eq!(renderer.descriptor_manager().unwrap().static_sets_remaining(), 2047);
}

#[test]
fn setting_the_mesh_makes_it_the_only_draw_item() {
    let mut renderer = headless(1);
    renderer.register_material_handle(6, 60);
    *renderer.transform_mut() = 22;
    *renderer.material_mut() = 11;
    let lamp = Mesh {
        name: "lamp".to_string(),
        texture: None,
        normal_texture: None,
        metallic_roughness_texture: None,
        occlusion_texture: None,
        emissive_texture: Some(Texture { view: 0x41, sampler: 0x42 }),
    };
    let writes = renderer.set_mesh(lamp, 0x4000).unwrap();
    assert_eq!(writes.len(), 5);
    assert_eq!((writes[4].set, writes[4].binding), (0x4000, 4));
    assert_eq!(renderer.mesh().unwrap().name, "lamp");
    {
        let items = renderer.draw_items();
        assert_eq!(items.len(), 1);
        assert_eq!(items[0].key, "lamp");
        assert_eq!((items[0].transform, items[0].material), (22, 11));
        assert_eq!(items[0].texture_set, 0x4000);
        assert_eq!(
            items[0].texture_flags,
            TexturePresenceFlags {
                base_color: false,
                normal: false,
                metallic_roughness: false,
                occlusion: false,
                emissive: true,
            }
        );
    }
    // Handle 0 names the new mesh and the renderer's material.
    renderer.submit_render_commands(&vec![RenderCommand {
        mesh_handle: 0,
        material_handle: 0,
        transform: 5,
    }]);
    let items = renderer.draw_items();
    assert_eq!((items[0].key.as_str(), items[0].material, items[0].transform), ("lamp", 11, 5));
}

#[test]
fn the_own_mesh_can_be_changed_in_place() {
    let mut renderer = headless(1);
    let texture = Texture { view: 0x71, sampler: 0x72 };
    renderer.mesh_mut().unwrap().normal_texture = Some(texture);
    assert_eq!(renderer.mesh().unwrap().normal_texture, Some(texture));
    assert_eq!(renderer.mesh().unwrap().name, "cube");
    assert_eq!(renderer.current_frame(), 0);
    renderer.shutdown();
    assert!(renderer.mesh_mut().is_none());
}

#[test]
fn the_texture_set_of_a_mesh_is_prepared_once() {
    let mut renderer = headless(1);
    let manager_default = renderer.descriptor_manager().unwrap().default_texture_array_set();
    let bare = TextureBindingInfo::from_mesh(renderer.mesh().unwrap(), &Texture { view: 0, sampler: 0 });
    let key = "cube".to_string();
    assert_eq!(renderer.update_mesh_texture_set(&key, bare, 0x5000), Ok((manager_default, vec![])));
    let mut textured = bare;
    textured.flags.normal = true;
    let (set, writes) = renderer.update_mesh_texture_set(&key, textured, 0x5000).unwrap();
    assert_eq!(set, 0x5000);
    assert_eq!(writes.len(), 5);
    assert_eq!(renderer.descriptor_manager().unwrap().static_sets_remaining(), 2047);
}

#[test]
fn post_processing_needs_a_swapchain() {
    let mut renderer = windowed(3, 1);
    let state = renderer.post_processing();
    assert_eq!(state.msaa_preset, MsaaPreset::Off);
    assert!(state.tonemapping_enabled);
    assert!(!state.bloom_enabled);
    assert!(!renderer.post_processing_ready());
    renderer.set_msaa_preset(MsaaPreset::X4);
    renderer.set_tonemapping_enabled(false);
    renderer.set_bloom_enabled(true);
    assert_eq!(renderer.msaa_preset(), MsaaPreset::X4);
    assert!(!renderer.tonemapping_enabled());
    assert!(renderer.bloom_enabled());
    assert_eq!(renderer.post_processing_target().unwrap().extent, EXTENT);
    assert_eq!(renderer.initialize_hdr(0x61), Ok(()));
    assert!(!renderer.post_processing_ready());
    assert_eq!(renderer.initialize_fullscreen_pass(0x62), Ok(()));
    assert!(renderer.post_processing_ready());
    assert_eq!(renderer.enable_post_processing(0x63, 0x64), Ok(()));
    assert!(renderer.tonemapping_enabled());
    assert_eq!(renderer.post_processing().hdr_framebuffer, Some(0x63));
    let mut renderer = headless(1);
    assert_eq!(renderer.post_processing_target().err(), Some(AshError::SwapchainUnavailable));
    assert_eq!(renderer.initialize_hdr(0x61), Err(AshError::SwapchainUnavailable));
    assert_eq!(renderer.initialize_fullscreen_pass(0x62), Err(AshError::SwapchainUnavailable));
    assert_eq!(renderer.enable_post_processing(1, 2), Err(AshError::SwapchainUnavailable));
    assert!(!renderer.post_processing_ready());
}

#[test]
fn shutdown_destroys_everything_once() {
    let mut renderer = windowed(2, 1);
    let fences = renderer.wait_for_inflight_frames();
    assert_eq!(fences, vec![0x602, 0x612]);
    let plan = renderer.shutdown();
    assert!(plan.retired_swapchains.is_empty());
    assert_eq!(plan.destroy.len(), 15);
    // Dependents first: the pipeline goes before its layout and before the
    // render pass, the framebuffers before the image views.
    assert_eq!(plan.destroy[0].kind, ResourceKind::Pipeline);
    assert_eq!(plan.destroy[1].kind, ResourceKind::PipelineLayout);
    assert_eq!(plan.destroy[14].native, 0x100);
    let mut natives: Vec<u64> = plan.destroy.iter().map(|command| command.native).collect();
    natives.sort();
    natives.dedup();
    assert_eq!(natives.len(), 15);
    assert_eq!(plan.uniform_buffers, vec![0x800, 0x801]);
    assert_eq!(plan.material_buffers, vec![0x900]);
    assert!(renderer.resource_registry().is_empty());
    assert!(renderer.draw_items().is_empty());
    assert!(renderer.mesh().is_none());
    assert!(renderer.descriptor_manager().is_none());
    assert_eq!(renderer.render_frame(FrameEvent::Begin).err(), Some(AshError::PipelineUnavailable));
    assert!(renderer.shutdown().destroy.is_empty());
}

#[test]
fn a_renderer_without_workers_has_no_material_set_to_draw_with() {
    let mut renderer = headless(0);
    step(&mut renderer, FrameEvent::Begin);
    assert_eq!(
        renderer.render_frame(FrameEvent::FenceSignaled).err(),
        Some(AshError::MaterialSetUnavailable(0))
    );
    assert_eq!(renderer.phase(), FramePhase::Idle);
    assert_eq!(renderer.current_frame(), 0);
}

#[test]
fn a_renderer_without_images_cannot_start_a_frame() {
    let mut renderer = windowed(0, 1);
    assert_eq!(renderer.frame_slot_count(), 0);
    assert_eq!(
        renderer.render_frame(FrameEvent::Begin).err(),
        Some(AshError::CommandBufferIndexOutOfRange(0))
    );
    assert_eq!(renderer.phase(), FramePhase::Idle);
}

#[test]
fn after_shutdown_no_texture_set_can_be_prepared() {
    let mut renderer = headless(1);
    renderer.shutdown();
    let mesh = Mesh {
        name: "late".to_string(),
        texture: None,
        normal_texture: None,
        metallic_roughness_texture: None,
        occlusion_texture: None,
        emissive_texture: None,
    };
    let registration = renderer.register_mesh_handle(1, &mesh, 0x10);
    assert_eq!(registration.texture_error, Some(AshError::DescriptorManagerUnavailable));
    assert!(registration.writes.is_empty());
    assert_eq!(renderer.set_mesh(mesh, 0x10), Err(AshError::DescriptorManagerUnavailable));
    assert!(renderer.mesh().is_none());
}

#[test]
fn a_static_pool_that_is_used_up_refuses_new_texture_sets() {
    let mut renderer = headless(1);
    let mut mesh = Mesh {
        name: String::new(),
        texture: Some(Texture { view: 1, sampler: 2 }),
        normal_texture: None,
        metallic_roughness_texture: None,
        occlusion_texture: None,
        emissive_texture: None,
    };
    for i in 0..2048u64 {
        mesh.name = format!("mesh {i}");
        let registration = renderer.register_mesh_handle(i as u32, &mesh, 0x10_0000 + i);
        assert_eq!(registration.texture_error, None);
    }
    mesh.name = "one too many".to_string();
    let registration = renderer.register_mesh_handle(5000, &mesh, 0x20_0000);
    assert_eq!(
        registration.texture_error,
        Some(AshError::DescriptorPoolExhausted(PoolClass::Static))
    );
    // The mesh is registered all the same, and drawn with the default set.
    renderer.register_material_handle(1, 1);
    renderer.submit_render_commands(&vec![RenderCommand {
        mesh_handle: 5000,
        material_handle: 1,
        transform: 0,
    }]);
    assert_eq!(renderer.draw_items()[0].key, "one too many");
    assert_eq!(renderer.draw_items()[0].texture_set, 0xE1);
}
