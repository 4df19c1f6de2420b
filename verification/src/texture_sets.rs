//! How the texture set of a mesh is prepared, and what setting and
//! registering a mesh does to the renderer.

use vstd::prelude::*;
use crate::descriptor_manager::{
    layout_bindings_spec, material_texture_writes, LayoutKind, ManagerView, TextureBinding,
};
use crate::descriptor_set::{DescriptorWrite, PoolClass};
use crate::draw::{draw_item_spec, DrawItemView, DrawTables, MeshTextures, RenderCommand};
use crate::error::AshError;
use crate::mesh::{BindlessIndices, Mesh, TextureBindingInfo, TexturePresenceFlags};
use crate::renderer::MeshRegistration;
use crate::renderer_view::RendererView;

verus! {

/// The five textures of `info` as bindings of a material texture set: slot
/// `k` goes to binding `k`.
pub open spec fn bindings_of(info: TextureBindingInfo) -> Seq<TextureBinding> {
    Seq::new(
        5,
        |k: int|
            TextureBinding {
                binding: k as u32,
                view: info.slot(k).view,
                sampler: info.slot(k).sampler,
            },
    )
}

/// Whether the flags name at least one texture.
pub open spec fn any_texture(flags: TexturePresenceFlags) -> bool {
    flags.base_color || flags.normal || flags.metallic_roughness || flags.occlusion
        || flags.emissive
}

/// The outcome of preparing the texture set of a mesh.
pub struct PreparedSet {
    pub manager: ManagerView,
    pub result: Result<(u64, Seq<DescriptorWrite>), AshError>,
}

/// Prepares the texture set of a mesh with the binding info `info`.
///
/// A mesh without textures shares the default texture array set, and
/// nothing is written. A mesh with textures keeps the set in `existing`,
/// unless that is the default set; otherwise a material texture set is
/// taken from the static pool under the handle `native`. The five
/// textures are then written into the set.
pub open spec fn prepared(
    manager: ManagerView,
    existing: Option<u64>,
    info: TextureBindingInfo,
    native: u64,
) -> PreparedSet {
    let default_set = manager.default_texture_array_set.handle;
    if !any_texture(info.flags) {
        PreparedSet { manager, result: Ok((default_set, Seq::empty())) }
    } else if existing is Some && existing != Some(default_set) {
        let set = existing.unwrap();
        PreparedSet {
            manager,
            result: match manager.material_texture_descriptor(set) {
                None => Err(AshError::DescriptorSetNotManaged(set)),
                Some(descriptor) => if descriptor.bindings == layout_bindings_spec(
                    LayoutKind::MaterialTexture,
                ) {
                    Ok((set, material_texture_writes(set, bindings_of(info))))
                } else {
                    Err(AshError::UnknownBinding(1))
                },
            },
        }
    } else if !manager.allocator.has_room(PoolClass::Static) {
        PreparedSet {
            manager,
            result: Err(AshError::DescriptorPoolExhausted(PoolClass::Static)),
        }
    } else {
        PreparedSet {
            manager: manager.with_texture_set(native, manager.material_texture_layout),
            result: Ok((native, material_texture_writes(native, bindings_of(info)))),
        }
    }
}

/// Whether `result` is the outcome `expected`.
pub open spec fn is_prepared(
    result: Result<(u64, Vec<DescriptorWrite>), AshError>,
    expected: Result<(u64, Seq<DescriptorWrite>), AshError>,
) -> bool {
    match result {
        Ok((set, writes)) => expected == Ok::<(u64, Seq<DescriptorWrite>), AshError>(
            (set, writes@),
        ),
        Err(error) => expected == Err::<(u64, Seq<DescriptorWrite>), AshError>(error),
    }
}

impl RendererView {
    /// The texture set that the mesh `key` has on record.
    pub open spec fn existing_set(self, key: Seq<char>) -> Option<u64> {
        if self.mesh_textures.contains_key(key) {
            Some(self.mesh_textures[key].texture_set)
        } else {
            None
        }
    }

    /// The tables that draw items are made from.
    pub open spec fn draw_tables(self) -> DrawTables {
        DrawTables {
            meshes: self.mesh_registry,
            materials: self.material_registry,
            textures: self.mesh_textures,
            fallback_set: self.default_set(),
        }
    }

    /// The draw items of a list of render commands: one per command that
    /// names a registered mesh and material; and where that leaves nothing
    /// to draw, the renderer's own mesh, if it has one.
    pub open spec fn submitted_draws(self, commands: Seq<RenderCommand>) -> Seq<DrawItemView> {
        let items = self.draw_tables().draw_list(commands);
        if items.len() == 0 && self.mesh is Some {
            seq![
                draw_item_spec(
                    self.mesh_textures,
                    self.default_set(),
                    self.mesh.unwrap().name@,
                    self.transform,
                    self.material,
                ),
            ]
        } else {
            items
        }
    }

    /// What updating the texture set of the mesh `key` does.
    pub open spec fn updates_texture_set(
        self,
        key: Seq<char>,
        info: TextureBindingInfo,
        native: u64,
        after: RendererView,
        result: Result<(u64, Vec<DescriptorWrite>), AshError>,
    ) -> bool {
        match self.descriptors {
            None => {
                &&& after == self
                &&& result matches Err(error)
                &&& error == AshError::DescriptorManagerUnavailable
            },
            Some(manager) => {
                let outcome = prepared(manager, self.existing_set(key), info, native);
                &&& after == RendererView { descriptors: Some(outcome.manager), ..self }
                &&& is_prepared(result, outcome.result)
            },
        }
    }

    /// What setting the mesh does. The texture table is emptied first.
    /// Where the texture set of the mesh can be prepared, the mesh becomes
    /// the renderer's own: it is the only mesh with texture state, the only
    /// draw item, and registered under handle 0, as the renderer's material
    /// is. Where not, the texture table stays empty and the rest is as it
    /// was.
    pub open spec fn sets_mesh(
        self,
        mesh: Mesh,
        native: u64,
        after: RendererView,
        result: Result<Vec<DescriptorWrite>, AshError>,
    ) -> bool {
        let cleared = RendererView { mesh_textures: Map::empty(), ..self };
        let info = TextureBindingInfo::of(
            mesh.texture,
            mesh.normal_texture,
            mesh.metallic_roughness_texture,
            mesh.occlusion_texture,
            mesh.emissive_texture,
            self.default_texture,
        );
        match self.descriptors {
            None => {
                &&& after == cleared
                &&& result matches Err(error)
                &&& error == AshError::DescriptorManagerUnavailable
            },
            Some(manager) => {
                let outcome = prepared(manager, None, info, native);
                match outcome.result {
                    Err(refusal) => {
                        &&& after == RendererView {
                            descriptors: Some(outcome.manager),
                            ..cleared
                        }
                        &&& result matches Err(error)
                        &&& error == refusal
                    },
                    Ok((set, expected)) => {
                        &&& after == RendererView {
                            descriptors: Some(outcome.manager),
                            mesh_textures: Map::<Seq<char>, MeshTextures>::empty().insert(
                                mesh.name@,
                                MeshTextures { texture_set: set, flags: info.flags },
                            ),
                            draw_items: seq![
                                DrawItemView {
                                    key: mesh.name@,
                                    transform: self.transform,
                                    material: self.material,
                                    texture_flags: info.flags,
                                    texture_set: set,
                                    bindless_indices: BindlessIndices::unset(),
                                },
                            ],
                            mesh_registry: Map::<u32, String>::empty().insert(0, mesh.name),
                            material_registry: self.material_registry.insert(0, self.material),
                            mesh: Some(mesh),
                            ..self
                        }
                        &&& result matches Ok(writes)
                        &&& writes@ == expected
                    },
                }
            },
        }
    }

    /// What registering a mesh under a handle does: the mesh gets its
    /// texture state, where its texture set can be prepared, and the handle
    /// names the mesh in either case.
    pub open spec fn registers_mesh(
        self,
        handle: u32,
        mesh: Mesh,
        native: u64,
        after: RendererView,
        registration: MeshRegistration,
    ) -> bool {
        let info = TextureBindingInfo::of(
            mesh.texture,
            mesh.normal_texture,
            mesh.metallic_roughness_texture,
            mesh.occlusion_texture,
            mesh.emissive_texture,
            self.default_texture,
        );
        let named = self.mesh_registry.insert(handle, mesh.name);
        match self.descriptors {
            None => {
                &&& after == RendererView { mesh_registry: named, ..self }
                &&& registration.writes@ == Seq::<DescriptorWrite>::empty()
                &&& registration.texture_error == Some(AshError::DescriptorManagerUnavailable)
            },
            Some(manager) => {
                let outcome = prepared(manager, self.existing_set(mesh.name@), info, native);
                match outcome.result {
                    Err(refusal) => {
                        &&& after == RendererView {
                            descriptors: Some(outcome.manager),
                            mesh_registry: named,
                            ..self
                        }
                        &&& registration.writes@ == Seq::<DescriptorWrite>::empty()
                        &&& registration.texture_error == Some(refusal)
                    },
                    Ok((set, expected)) => {
                        &&& after == RendererView {
                            descriptors: Some(outcome.manager),
                            mesh_textures: self.mesh_textures.insert(
                                mesh.name@,
                                MeshTextures { texture_set: set, flags: info.flags },
                            ),
                            mesh_registry: named,
                            ..self
                        }
                        &&& registration.writes@ == expected
                        &&& registration.texture_error is None
                    },
                }
            },
        }
    }
}

} // verus!
