use ash_renderer::descriptor_allocator::DescriptorAllocator;
use ash_renderer::descriptor_layout::{
    binding_flags, find_binding, BindingFlags, DescriptorSetLayout, DescriptorSetLayoutBuilder,
    DescriptorType, LayoutBinding, ShaderStages,
};
use ash_renderer::descriptor_manager::{
    layout_bindings, static_pool_size, DescriptorHandles, DescriptorManager, LayoutKind,
    TextureBinding, EXTRA_TEXTURE_SETS,
};
use ash_renderer::descriptor_set::{
    DescriptorResource, DescriptorSet, DescriptorWrite, ImageInfo, ImageLayout, PoolClass,
};
use ash_renderer::error::AshError;

fn handles(frames: u64, workers: u64) -> DescriptorHandles {
    DescriptorHandles {
        frame_layout: 1,
        material_layout: 2,
        texture_layout: 3,
        material_texture_layout: 4,
        shadow_layout: 5,
        frame_sets: (0..frames).map(|i| 100 + i).collect(),
        material_sets: (0..workers).map(|i| 200 + i).collect(),
        shadow_sets: (0..frames).map(|i| 300 + i).collect(),
        default_texture_set: 400,
        default_texture_array_set: 401,
    }
}

fn manager(frames: u32, workers: u32) -> DescriptorManager {
    let allocator = DescriptorAllocator::new(static_pool_size(frames, workers), 16, 1);
    DescriptorManager::new(allocator, frames, workers, &handles(frames as u64, workers as u64))
        .unwrap()
}

fn sampled(set: u64, binding: u32, view: u64, sampler: u64) -> DescriptorWrite {
    DescriptorWrite {
        set,
        binding,
        array_index: 0,
        descriptor_type: DescriptorType::CombinedImageSampler,
        resource: DescriptorResource::Image(ImageInfo {
            sampler,
            image_view: view,
            image_layout: ImageLayout::ShaderReadOnlyOptimal,
        }),
    }
}

#[test]
fn builder_collects_bindings_in_order() {
    let builder = DescriptorSetLayoutBuilder::new()
        .add_binding(0, DescriptorType::UniformBuffer, ShaderStages::vertex_fragment(), 1)
        .add_bindless_binding(
            1,
            DescriptorType::CombinedImageSampler,
            ShaderStages::all_graphics_and_compute(),
            64,
        );
    assert_eq!(
        builder.bindings(),
        &vec![
            LayoutBinding {
                binding: 0,
                descriptor_type: DescriptorType::UniformBuffer,
                descriptor_count: 1,
                stages: ShaderStages {
                    vertex: true,
                    fragment: true,
                    compute: false,
                    all_graphics: false
                },
            },
            LayoutBinding {
                binding: 1,
                descriptor_type: DescriptorType::CombinedImageSampler,
                descriptor_count: 64,
                stages: ShaderStages {
                    vertex: false,
                    fragment: false,
                    compute: true,
                    all_graphics: true
                },
            },
        ]
    );
    let layout = builder.build(0x77);
    assert_eq!(layout.handle(), 0x77);
    assert_eq!(layout.bindings().len(), 2);
}

#[test]
fn only_array_bindings_get_the_bindless_flags() {
    let bindings = DescriptorSetLayoutBuilder::new()
        .add_binding(0, DescriptorType::UniformBuffer, ShaderStages::fragment(), 1)
        .add_binding(1, DescriptorType::StorageBuffer, ShaderStages::vertex(), 2)
        .add_binding(2, DescriptorType::StorageImage, ShaderStages::fragment(), 0);
    let none = BindingFlags {
        update_after_bind: false,
        partially_bound: false,
        variable_descriptor_count: false,
    };
    let all = BindingFlags {
        update_after_bind: true,
        partially_bound: true,
        variable_descriptor_count: true,
    };
    assert_eq!(binding_flags(bindings.bindings()), vec![none, all, none]);
}

#[test]
fn find_binding_takes_the_first_entry_with_the_number() {
    let bindings = DescriptorSetLayoutBuilder::new()
        .add_binding(3, DescriptorType::UniformBuffer, ShaderStages::fragment(), 1)
        .add_binding(3, DescriptorType::StorageBuffer, ShaderStages::fragment(), 9);
    let found = find_binding(bindings.bindings(), 3).unwrap();
    assert_eq!(found.descriptor_type, DescriptorType::UniformBuffer);
    assert_eq!(find_binding(bindings.bindings(), 4), None);
}

#[test]
fn set_updates_are_checked_against_the_layout() {
    let bindings = DescriptorSetLayoutBuilder::new()
        .add_binding(0, DescriptorType::UniformBuffer, ShaderStages::fragment(), 1)
        .add_binding(1, DescriptorType::CombinedImageSampler, ShaderStages::fragment(), 4);
    let set = DescriptorSet::new(0x9, PoolClass::Static, 0x8, bindings.bindings(), None);
    assert_eq!(set.handle(), 0x9);
    assert_eq!(set.layout(), 0x8);
    assert_eq!(set.pool(), PoolClass::Static);
    assert_eq!(
        set.update_buffer(0, 0x50, 16, 64, DescriptorType::UniformBuffer),
        Ok(DescriptorWrite {
            set: 0x9,
            binding: 0,
            array_index: 0,
            descriptor_type: DescriptorType::UniformBuffer,
            resource: DescriptorResource::Buffer { buffer: 0x50, offset: 16, range: 64 },
        })
    );
    assert_eq!(
        set.update_buffer(2, 0x50, 0, 64, DescriptorType::UniformBuffer),
        Err(AshError::UnknownBinding(2))
    );
    assert_eq!(
        set.update_buffer(1, 0x50, 0, 64, DescriptorType::UniformBuffer),
        Err(AshError::DescriptorTypeMismatch(1))
    );
    assert_eq!(
        set.update_buffer_at(0, 1, 0x50, 0, 64, DescriptorType::UniformBuffer),
        Err(AshError::DescriptorIndexOutOfRange { binding: 0, array_index: 1 })
    );
    let info =
        ImageInfo { sampler: 2, image_view: 1, image_layout: ImageLayout::ShaderReadOnlyOptimal };
    let write = set.update_image_at(1, 3, info, DescriptorType::CombinedImageSampler).unwrap();
    assert_eq!(write.array_index, 3);
    assert_eq!(write.resource, DescriptorResource::Image(info));
    assert_eq!(
        set.update_image_at(1, 4, info, DescriptorType::CombinedImageSampler),
        Err(AshError::DescriptorIndexOutOfRange { binding: 1, array_index: 4 })
    );
}

#[test]
fn a_variable_count_bounds_the_slots() {
    let bindings = DescriptorSetLayoutBuilder::new().add_bindless_binding(
        0,
        DescriptorType::StorageBuffer,
        ShaderStages::fragment(),
        8,
    );
    let set = DescriptorSet::new(1, PoolClass::Bindless, 2, bindings.bindings(), Some(3));
    assert!(set.update_buffer_at(0, 2, 5, 0, 4, DescriptorType::StorageBuffer).is_ok());
    assert_eq!(
        set.update_buffer_at(0, 3, 5, 0, 4, DescriptorType::StorageBuffer),
        Err(AshError::DescriptorIndexOutOfRange { binding: 0, array_index: 3 })
    );
    let wide = DescriptorSet::new(1, PoolClass::Bindless, 2, bindings.bindings(), Some(20));
    assert!(wide.update_buffer_at(0, 7, 5, 0, 4, DescriptorType::StorageBuffer).is_ok());
    assert!(wide.update_buffer_at(0, 8, 5, 0, 4, DescriptorType::StorageBuffer).is_err());
}

#[test]
fn a_pool_that_is_used_up_refuses() {
    let layout = DescriptorSetLayout::new(7, &layout_bindings(LayoutKind::Texture));
    let mut allocator = DescriptorAllocator::new(2, 1, 1);
    assert_eq!(allocator.allocate_static_set(&layout, 10).unwrap().handle(), 10);
    assert_eq!(allocator.allocate_static_set(&layout, 11).unwrap().pool(), PoolClass::Static);
    assert_eq!(
        allocator.allocate_static_set(&layout, 12).err(),
        Some(AshError::DescriptorPoolExhausted(PoolClass::Static))
    );
    assert_eq!(allocator.remaining(PoolClass::Static), 0);
    assert_eq!(allocator.allocate_frame_set(&layout, 13).unwrap().pool(), PoolClass::PerFrame);
    assert_eq!(
        allocator.allocate_frame_set(&layout, 14).err(),
        Some(AshError::DescriptorPoolExhausted(PoolClass::PerFrame))
    );
    assert_eq!(
        allocator.allocate_bindless_set(&layout, 4, 15).unwrap().pool(),
        PoolClass::Bindless
    );
    assert_eq!(
        allocator.allocate_bindless_set(&layout, 4, 16).err(),
        Some(AshError::DescriptorPoolExhausted(PoolClass::Bindless))
    );
}

#[test]
fn the_frame_cycle_gives_back_only_the_per_frame_sets() {
    let layout = DescriptorSetLayout::new(7, &layout_bindings(LayoutKind::Texture));
    let mut allocator = DescriptorAllocator::new(4, 2, 1);
    allocator.allocate_static_set(&layout, 1).unwrap();
    allocator.allocate_frame_set(&layout, 2).unwrap();
    allocator.allocate_frame_set(&layout, 3).unwrap();
    assert_eq!(allocator.remaining(PoolClass::PerFrame), 0);
    assert_eq!(allocator.frame_cycle(), 0);
    allocator.next_frame();
    assert_eq!(allocator.frame_cycle(), 1);
    assert_eq!(allocator.remaining(PoolClass::PerFrame), 2);
    assert_eq!(allocator.remaining(PoolClass::Static), 3);
}

#[test]
fn the_static_pool_has_room_for_the_fixed_sets_and_the_textures() {
    assert_eq!(EXTRA_TEXTURE_SETS, 2048);
    assert_eq!(static_pool_size(0, 0), 2 + 2048);
    assert_eq!(static_pool_size(3, 4), 2 * 3 + 4 + 2 + 2048);
    assert_eq!(static_pool_size(u32::MAX, u32::MAX), 3 * (u32::MAX as u64) + 2 + 2048);
}

#[test]
fn the_layouts_have_the_bindings_of_their_kind() {
    let frame = layout_bindings(LayoutKind::Frame);
    assert_eq!(frame.len(), 1);
    assert_eq!(frame[0].descriptor_type, DescriptorType::UniformBuffer);
    assert_eq!(frame[0].stages, ShaderStages::vertex_fragment());
    let material = layout_bindings(LayoutKind::Material);
    assert_eq!(material[0].descriptor_type, DescriptorType::UniformBuffer);
    assert_eq!(material[0].stages, ShaderStages::fragment());
    assert_eq!(layout_bindings(LayoutKind::Texture).len(), 1);
    assert_eq!(layout_bindings(LayoutKind::Shadow).len(), 1);
    let textures = layout_bindings(LayoutKind::MaterialTexture);
    assert_eq!(textures.len(), 5);
    for (i, binding) in textures.iter().enumerate() {
        assert_eq!(binding.binding, i as u32);
        assert_eq!(binding.descriptor_type, DescriptorType::CombinedImageSampler);
        assert_eq!(binding.descriptor_count, 1);
    }
}

#[test]
fn a_new_manager_holds_the_fixed_sets() {
    let manager = manager(3, 4);
    assert_eq!(manager.frame_set_count(), 3);
    assert_eq!(manager.material_set_count(), 4);
    assert_eq!(manager.frame_set(2), Some(102));
    assert_eq!(manager.frame_set(3), None);
    assert_eq!(manager.material_set(3), Some(203));
    assert_eq!(manager.material_set(4), None);
    assert_eq!(manager.shadow_set(0), Some(300));
    assert_eq!(manager.shadow_set(3), None);
    assert_eq!(manager.default_texture_set(), 400);
    assert_eq!(manager.default_texture_array_set(), 401);
    assert_eq!(manager.frame_layout(), 1);
    assert_eq!(manager.material_layout(), 2);
    assert_eq!(manager.material_texture_layout(), 4);
    assert_eq!(manager.shadow_layout(), 5);
    assert_eq!(manager.static_sets_remaining(), 2048);
}

#[test]
fn a_manager_needs_one_set_per_frame_and_worker() {
    let allocator = DescriptorAllocator::new(100, 16, 1);
    let result = DescriptorManager::new(allocator, 3, 4, &handles(2, 4));
    assert_eq!(result.err(), Some(AshError::DescriptorHandleCountMismatch));
    let allocator = DescriptorAllocator::new(100, 16, 1);
    let result = DescriptorManager::new(allocator, 2, 3, &handles(2, 4));
    assert_eq!(result.err(), Some(AshError::DescriptorHandleCountMismatch));
}

#[test]
fn a_manager_needs_room_for_all_its_sets() {
    // 2 frame sets, 2 shadow sets, 1 material set and 2 default sets.
    let allocator = DescriptorAllocator::new(6, 16, 1);
    let result = DescriptorManager::new(allocator, 2, 1, &handles(2, 1));
    assert_eq!(result.err(), Some(AshError::DescriptorPoolExhausted(PoolClass::Static)));
    let allocator = DescriptorAllocator::new(7, 16, 1);
    assert!(DescriptorManager::new(allocator, 2, 1, &handles(2, 1)).is_ok());
}

#[test]
fn uniforms_are_bound_to_the_set_of_their_index() {
    let manager = manager(2, 2);
    assert_eq!(
        manager.bind_frame_uniform(1, 0x500, 256),
        Ok(DescriptorWrite {
            set: 101,
            binding: 0,
            array_index: 0,
            descriptor_type: DescriptorType::UniformBuffer,
            resource: DescriptorResource::Buffer { buffer: 0x500, offset: 0, range: 256 },
        })
    );
    assert_eq!(
        manager.bind_frame_uniform(2, 0x500, 256),
        Err(AshError::DescriptorSetIndexOutOfBounds { index: 2 })
    );
    assert_eq!(manager.bind_material_uniform(0, 0x600, 96).unwrap().set, 200);
    assert_eq!(
        manager.bind_material_uniform(2, 0x600, 96),
        Err(AshError::DescriptorSetIndexOutOfBounds { index: 2 })
    );
    assert_eq!(
        manager.bind_shadow_map(1, 0x700, 0x701),
        Ok(DescriptorWrite {
            set: 301,
            binding: 0,
            array_index: 0,
            descriptor_type: DescriptorType::CombinedImageSampler,
            resource: DescriptorResource::Image(ImageInfo {
                sampler: 0x701,
                image_view: 0x700,
                image_layout: ImageLayout::DepthStencilReadOnlyOptimal,
            }),
        })
    );
    assert_eq!(
        manager.bind_shadow_map(5, 0x700, 0x701),
        Err(AshError::DescriptorSetIndexOutOfBounds { index: 5 })
    );
}

#[test]
fn material_textures_go_to_managed_sets_only() {
    let mut manager = manager(2, 2);
    let bindings = vec![
        TextureBinding { binding: 0, view: 10, sampler: 11 },
        TextureBinding { binding: 4, view: 12, sampler: 13 },
    ];
    assert_eq!(
        manager.bind_material_textures(401, &bindings),
        Ok(vec![sampled(401, 0, 10, 11), sampled(401, 4, 12, 13)])
    );
    assert_eq!(
        manager.bind_material_textures(999, &bindings),
        Err(AshError::DescriptorSetNotManaged(999))
    );
    assert_eq!(manager.allocate_material_texture_set(999), Ok(999));
    assert_eq!(
        manager.bind_material_textures(999, &bindings),
        Ok(vec![sampled(999, 0, 10, 11), sampled(999, 4, 12, 13)])
    );
    assert_eq!(manager.static_sets_remaining(), 2047);
    // A binding that the layout does not have fails the whole call.
    let broken = vec![
        TextureBinding { binding: 1, view: 10, sampler: 11 },
        TextureBinding { binding: 5, view: 12, sampler: 13 },
    ];
    assert_eq!(manager.bind_material_textures(999, &broken), Err(AshError::UnknownBinding(5)));
    // A single-texture set has binding 0 only.
    assert_eq!(manager.allocate_texture_set(777), Ok(777));
    assert_eq!(manager.bind_material_textures(777, &bindings), Err(AshError::UnknownBinding(4)));
}

#[test]
fn texture_sets_come_from_the_static_pool() {
    let allocator = DescriptorAllocator::new(8, 16, 1);
    let mut manager = DescriptorManager::new(allocator, 2, 1, &handles(2, 1)).unwrap();
    assert_eq!(manager.static_sets_remaining(), 1);
    assert_eq!(manager.allocate_texture_set(50), Ok(50));
    assert_eq!(
        manager.allocate_texture_set(51),
        Err(AshError::DescriptorPoolExhausted(PoolClass::Static))
    );
    assert_eq!(
        manager.allocate_material_texture_set(52),
        Err(AshError::DescriptorPoolExhausted(PoolClass::Static))
    );
    // The frame cycle does not give static sets back.
    manager.next_frame();
    assert_eq!(manager.static_sets_remaining(), 0);
}

#[test]
fn frame_sets_are_recreated_from_the_static_pool() {
    let allocator = DescriptorAllocator::new(12, 16, 1);
    let mut manager = DescriptorManager::new(allocator, 2, 1, &handles(2, 1)).unwrap();
    assert_eq!(manager.static_sets_remaining(), 5);
    assert_eq!(manager.recreate_frame_sets(3, &vec![110, 111, 112]), Ok(()));
    assert_eq!(manager.frame_set_count(), 3);
    assert_eq!(manager.frame_set(2), Some(112));
    assert_eq!(manager.static_sets_remaining(), 2);
    assert_eq!(
        manager.recreate_frame_sets(3, &vec![120, 121]),
        Err(AshError::DescriptorHandleCountMismatch)
    );
    assert_eq!(manager.static_sets_remaining(), 2);
    assert_eq!(
        manager.recreate_frame_sets(3, &vec![120, 121, 122]),
        Err(AshError::DescriptorPoolExhausted(PoolClass::Static))
    );
    // The old frame sets are kept, the pool is used up.
    assert_eq!(manager.frame_set(0), Some(110));
    assert_eq!(manager.static_sets_remaining(), 0);
}

#[test]
fn the_allocator_of_a_manager_serves_the_bindless_set() {
    let mut manager = manager(2, 2);
    let layout = DescriptorSetLayout::new(9, &layout_bindings(LayoutKind::Texture));
    let set = manager.allocator_mut().allocate_bindless_set(&layout, 16, 0x99).unwrap();
    assert_eq!(set.handle(), 0x99);
    assert_eq!(set.pool(), PoolClass::Bindless);
    assert_eq!(manager.allocator_mut().remaining(PoolClass::Bindless), 0);
}
