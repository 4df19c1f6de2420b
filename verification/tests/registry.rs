use ash_renderer::error::AshError;
use ash_renderer::registry::{DestroyCommand, ResourceId, ResourceKind, ResourceRegistry};

fn framebuffer_graph() -> (ResourceRegistry, ResourceId, ResourceId, ResourceId, ResourceId) {
    let mut registry = ResourceRegistry::new();
    let view = registry.register(ResourceKind::ImageView, 0x10, &vec![]).unwrap();
    let depth = registry.register(ResourceKind::ImageView, 0x20, &vec![]).unwrap();
    let pass = registry.register(ResourceKind::RenderPass, 0x30, &vec![]).unwrap();
    let framebuffer =
        registry.register(ResourceKind::Framebuffer, 0x40, &vec![pass, depth, view]).unwrap();
    (registry, view, depth, pass, framebuffer)
}

#[test]
fn new_registry_is_empty() {
    let registry = ResourceRegistry::new();
    assert_eq!(registry.len(), 0);
    assert!(registry.is_empty());
    assert!(!registry.contains(ResourceId(0)));
    assert_eq!(registry.remaining_ids(), u64::MAX);
}

#[test]
fn identifiers_are_handed_out_in_order() {
    let (registry, view, depth, pass, framebuffer) = framebuffer_graph();
    assert_eq!(view, ResourceId(0));
    assert_eq!(depth, ResourceId(1));
    assert_eq!(pass, ResourceId(2));
    assert_eq!(framebuffer, ResourceId(3));
    assert_eq!(registry.len(), 4);
    assert_eq!(registry.native_handle(framebuffer), Some(0x40));
    assert_eq!(registry.native_handle(ResourceId(4)), None);
    assert_eq!(registry.remaining_ids(), u64::MAX - 4);
}

#[test]
fn registration_with_unknown_dependency_is_refused() {
    let (mut registry, view, _depth, _pass, _framebuffer) = framebuffer_graph();
    let unknown = ResourceId(99);
    let result = registry.register(ResourceKind::Framebuffer, 0x50, &vec![view, unknown]);
    assert_eq!(result, Err(AshError::UnknownDependency(unknown)));
    assert_eq!(registry.len(), 4);
    // The refused registration has used up no identifier.
    let next = registry.register(ResourceKind::Fence, 0x60, &vec![]).unwrap();
    assert_eq!(next, ResourceId(4));
}

#[test]
fn the_first_unknown_dependency_is_reported() {
    let mut registry = ResourceRegistry::new();
    let result =
        registry.register(ResourceKind::Pipeline, 1, &vec![ResourceId(7), ResourceId(3)]);
    assert_eq!(result, Err(AshError::UnknownDependency(ResourceId(7))));
}

#[test]
fn cleanup_of_a_resource_with_dependents_is_refused() {
    let (mut registry, view, depth, pass, framebuffer) = framebuffer_graph();
    assert_eq!(registry.cleanup_resource(pass), Err(AshError::ResourceInUse(pass)));
    assert_eq!(registry.cleanup_resource(view), Err(AshError::ResourceInUse(view)));
    assert_eq!(registry.cleanup_resource(depth), Err(AshError::ResourceInUse(depth)));
    // Nothing was destroyed: every handle can still be asked for.
    assert_eq!(registry.len(), 4);
    assert_eq!(registry.native_handle(pass), Some(0x30));
    assert_eq!(registry.native_handle(view), Some(0x10));
    assert!(registry.contains(framebuffer));
}

#[test]
fn cleanup_in_dependency_order_succeeds() {
    let (mut registry, view, depth, pass, framebuffer) = framebuffer_graph();
    assert_eq!(
        registry.cleanup_resource(framebuffer),
        Ok(DestroyCommand { id: framebuffer, kind: ResourceKind::Framebuffer, native: 0x40 })
    );
    assert!(!registry.contains(framebuffer));
    assert_eq!(
        registry.cleanup_resource(pass),
        Ok(DestroyCommand { id: pass, kind: ResourceKind::RenderPass, native: 0x30 })
    );
    assert_eq!(
        registry.cleanup_resource(view),
        Ok(DestroyCommand { id: view, kind: ResourceKind::ImageView, native: 0x10 })
    );
    assert_eq!(
        registry.cleanup_resource(depth),
        Ok(DestroyCommand { id: depth, kind: ResourceKind::ImageView, native: 0x20 })
    );
    assert!(registry.is_empty());
}

#[test]
fn cleanup_of_an_unknown_resource_is_refused() {
    let (mut registry, _view, _depth, _pass, framebuffer) = framebuffer_graph();
    assert_eq!(
        registry.cleanup_resource(ResourceId(42)),
        Err(AshError::UnknownResource(ResourceId(42)))
    );
    registry.cleanup_resource(framebuffer).unwrap();
    assert_eq!(
        registry.cleanup_resource(framebuffer),
        Err(AshError::UnknownResource(framebuffer))
    );
}

#[test]
fn full_cleanup_destroys_everything_once_dependents_first() {
    let (mut registry, view, depth, pass, framebuffer) = framebuffer_graph();
    // A refused cleanup in between changes nothing.
    assert!(registry.cleanup_resource(pass).is_err());
    let plan = registry.cleanup();
    assert_eq!(
        plan,
        vec![
            DestroyCommand { id: framebuffer, kind: ResourceKind::Framebuffer, native: 0x40 },
            DestroyCommand { id: pass, kind: ResourceKind::RenderPass, native: 0x30 },
            DestroyCommand { id: depth, kind: ResourceKind::ImageView, native: 0x20 },
            DestroyCommand { id: view, kind: ResourceKind::ImageView, native: 0x10 },
        ]
    );
    assert!(registry.is_empty());
    // A second cleanup has nothing left to destroy.
    assert_eq!(registry.cleanup(), vec![]);
}

#[test]
fn identifiers_are_not_reused_after_cleanup() {
    let (mut registry, _view, _depth, _pass, framebuffer) = framebuffer_graph();
    registry.cleanup_resource(framebuffer).unwrap();
    let fence = registry.register(ResourceKind::Fence, 0x70, &vec![]).unwrap();
    assert_eq!(fence, ResourceId(4));
    registry.cleanup();
    let semaphore = registry.register(ResourceKind::Semaphore, 0x80, &vec![]).unwrap();
    assert_eq!(semaphore, ResourceId(5));
}

#[test]
fn register_each_hands_out_consecutive_identifiers() {
    let mut registry = ResourceRegistry::new();
    registry.register(ResourceKind::CommandPool, 1, &vec![]).unwrap();
    let ids = registry.register_each(ResourceKind::ImageView, &vec![10, 11, 12]).unwrap();
    assert_eq!(ids, vec![ResourceId(1), ResourceId(2), ResourceId(3)]);
    assert_eq!(registry.native_handle(ResourceId(2)), Some(11));
    assert_eq!(registry.len(), 4);
}

#[test]
fn register_live_registers_like_register() {
    let mut registry = ResourceRegistry::new();
    let layout = registry.register_live(ResourceKind::PipelineLayout, 5, &vec![]);
    let pipeline = registry.register_live(ResourceKind::Pipeline, 6, &vec![layout]);
    assert_eq!(layout, ResourceId(0));
    assert_eq!(pipeline, ResourceId(1));
    assert_eq!(registry.cleanup_resource(layout), Err(AshError::ResourceInUse(layout)));
}

#[test]
fn cleanup_each_passes_over_refusals() {
    let (mut registry, view, depth, pass, framebuffer) = framebuffer_graph();
    let mut refused = Vec::new();
    // The render pass is refused while the framebuffer lives, the
    // framebuffer goes, and then the image view can go as well.
    let commands = registry.cleanup_each(&vec![pass, framebuffer, view], &mut refused);
    assert_eq!(
        commands,
        vec![
            DestroyCommand { id: framebuffer, kind: ResourceKind::Framebuffer, native: 0x40 },
            DestroyCommand { id: view, kind: ResourceKind::ImageView, native: 0x10 },
        ]
    );
    assert_eq!(refused, vec![AshError::ResourceInUse(pass)]);
    assert!(registry.contains(pass));
    assert!(registry.contains(depth));
    assert_eq!(registry.len(), 2);
}
