use ash_renderer::bindless::BindlessManager;
use ash_renderer::descriptor_allocator::DescriptorAllocator;
use ash_renderer::descriptor_layout::{DescriptorType, ShaderStages};
use ash_renderer::descriptor_set::{
    DescriptorResource, DescriptorWrite, ImageInfo, ImageLayout, PoolClass,
};
use ash_renderer::error::AshError;
use ash_renderer::texture::Texture;

const WHITE: Texture = Texture { view: 0xA1, sampler: 0xA2 };

fn table(max_resources: u32) -> BindlessManager {
    let mut allocator = DescriptorAllocator::new(8, 8, 1);
    BindlessManager::new(&mut allocator, max_resources, 0x11, 0x22, WHITE).unwrap().0
}

#[test]
fn index_zero_goes_to_the_fallback_texture() {
    let mut allocator = DescriptorAllocator::new(8, 8, 1);
    let (manager, write) = BindlessManager::new(&mut allocator, 16, 0x11, 0x22, WHITE).unwrap();
    assert_eq!(
        write,
        DescriptorWrite {
            set: 0x22,
            binding: 0,
            array_index: 0,
            descriptor_type: DescriptorType::CombinedImageSampler,
            resource: DescriptorResource::Image(ImageInfo {
                sampler: 0xA2,
                image_view: 0xA1,
                image_layout: ImageLayout::ShaderReadOnlyOptimal,
            }),
        }
    );
    assert_eq!(manager.next_index(), 1);
    assert_eq!(manager.max_resources(), 16);
    assert_eq!(manager.default_texture(), Some(WHITE));
    assert_eq!(manager.descriptor_set(), 0x22);
    assert_eq!(manager.layout(), 0x11);
    assert_eq!(allocator.remaining(PoolClass::Bindless), 0);
}

#[test]
fn index_zero_is_never_handed_out_again() {
    let mut manager = table(8);
    let mut seen = Vec::new();
    for i in 0u64..7 {
        let index = match i % 3 {
            0 => manager.add_sampled_image(i, i + 100).unwrap().0,
            1 => manager.add_storage_image(i).unwrap().0,
            _ => manager.add_storage_buffer(i, 0, 64).unwrap().0,
        };
        assert_ne!(index, 0);
        seen.push(index);
    }
    assert_eq!(seen, vec![1, 2, 3, 4, 5, 6, 7]);
}

#[test]
fn a_full_table_refuses_without_moving_the_counter() {
    let mut manager = table(3);
    assert_eq!(manager.add_sampled_image(1, 2).unwrap().0, 1);
    assert_eq!(manager.add_storage_image(3).unwrap().0, 2);
    assert_eq!(manager.next_index(), 3);
    let full = AshError::BindlessTableFull { capacity: 3 };
    assert_eq!(manager.add_sampled_image(4, 5), Err(full));
    assert_eq!(manager.next_index(), 3);
    assert_eq!(manager.add_storage_image(6), Err(full));
    assert_eq!(manager.add_storage_buffer(7, 0, 16), Err(full));
    assert_eq!(manager.allocate_index(), Err(full));
    assert_eq!(manager.next_index(), 3);
}

#[test]
fn allocate_index_counts_up() {
    let mut manager = table(4);
    assert_eq!(manager.allocate_index(), Ok(1));
    assert_eq!(manager.allocate_index(), Ok(2));
    assert_eq!(manager.allocate_index(), Ok(3));
    assert_eq!(manager.allocate_index(), Err(AshError::BindlessTableFull { capacity: 4 }));
}

#[test]
fn a_table_without_slots_cannot_be_made() {
    let mut allocator = DescriptorAllocator::new(8, 8, 1);
    let result = BindlessManager::new(&mut allocator, 0, 0x11, 0x22, WHITE);
    assert_eq!(result.err(), Some(AshError::BindlessTableFull { capacity: 0 }));
    // The set was taken before the table turned out to be too small.
    assert_eq!(allocator.remaining(PoolClass::Bindless), 0);
}

#[test]
fn a_table_needs_a_set_from_the_bindless_pool() {
    let mut allocator = DescriptorAllocator::new(8, 8, 0);
    let result = BindlessManager::new(&mut allocator, 16, 0x11, 0x22, WHITE);
    assert_eq!(result.err(), Some(AshError::DescriptorPoolExhausted(PoolClass::Bindless)));
    assert_eq!(allocator.remaining(PoolClass::Static), 8);
}

#[test]
fn each_kind_of_resource_is_written_to_its_binding() {
    let mut manager = table(16);
    let (index, write) = manager.add_sampled_image(0x31, 0x32).unwrap();
    assert_eq!(index, 1);
    assert_eq!(
        write,
        DescriptorWrite {
            set: 0x22,
            binding: 0,
            array_index: 1,
            descriptor_type: DescriptorType::CombinedImageSampler,
            resource: DescriptorResource::Image(ImageInfo {
                sampler: 0x32,
                image_view: 0x31,
                image_layout: ImageLayout::ShaderReadOnlyOptimal,
            }),
        }
    );
    let (index, write) = manager.add_storage_image(0x41).unwrap();
    assert_eq!(index, 2);
    assert_eq!(
        write,
        DescriptorWrite {
            set: 0x22,
            binding: 1,
            array_index: 2,
            descriptor_type: DescriptorType::StorageImage,
            resource: DescriptorResource::Image(ImageInfo {
                sampler: 0,
                image_view: 0x41,
                image_layout: ImageLayout::General,
            }),
        }
    );
    let (index, write) = manager.add_storage_buffer(0x51, 128, 256).unwrap();
    assert_eq!(index, 3);
    assert_eq!(
        write,
        DescriptorWrite {
            set: 0x22,
            binding: 2,
            array_index: 3,
            descriptor_type: DescriptorType::StorageBuffer,
            resource: DescriptorResource::Buffer { buffer: 0x51, offset: 128, range: 256 },
        }
    );
}

#[test]
fn the_bindless_layout_has_three_arrays() {
    let bindings = BindlessManager::layout_bindings(1024);
    assert_eq!(bindings.len(), 3);
    let stages = ShaderStages { vertex: false, fragment: false, compute: true, all_graphics: true };
    let kinds = [
        DescriptorType::CombinedImageSampler,
        DescriptorType::StorageImage,
        DescriptorType::StorageBuffer,
    ];
    for (i, binding) in bindings.iter().enumerate() {
        assert_eq!(binding.binding, i as u32);
        assert_eq!(binding.descriptor_type, kinds[i]);
        assert_eq!(binding.descriptor_count, 1024);
        assert_eq!(binding.stages, stages);
    }
}
