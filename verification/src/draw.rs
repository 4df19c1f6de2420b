//! Render commands and the draw items that are made from them.
//!
//! A render command names a mesh and a material by the handles under which
//! they were registered. A draw item is what the frame is recorded from: the
//! mesh's key, the material, and the texture state that goes with the mesh.
//! Transforms and materials are the caller's data; the core carries them as
//! the numbers under which the caller keeps them.

use std::collections::HashMap;
use vstd::prelude::*;
use crate::mesh::{BindlessIndices, TexturePresenceFlags};

verus! {

broadcast use vstd::std_specs::hash::group_hash_axioms;

/// The texture state of one mesh: the descriptor set with its textures and
/// the flags of the textures it brings.
#[derive(Clone, Copy, Debug, PartialEq, Eq, Structural)]
pub struct MeshTextures {
    pub texture_set: u64,
    pub flags: TexturePresenceFlags,
}

/// One entry of the texture table.
pub struct MeshTextureEntry {
    pub key: String,
    pub textures: MeshTextures,
}

/// The map that a list of entries stands for; a later entry for a key
/// replaces an earlier one.
pub open spec fn entries_map(entries: Seq<MeshTextureEntry>) -> Map<Seq<char>, MeshTextures>
    decreases entries.len(),
{
    if entries.len() == 0 {
        Map::empty()
    } else {
        entries_map(entries.drop_last()).insert(entries.last().key@, entries.last().textures)
    }
}

/// The texture state of the meshes, by mesh key.
pub struct MeshTextureTable {
    entries: Vec<MeshTextureEntry>,
}

impl View for MeshTextureTable {
    type V = Map<Seq<char>, MeshTextures>;

    closed spec fn view(&self) -> Map<Seq<char>, MeshTextures> {
        entries_map(self.entries@)
    }
}

impl MeshTextureTable {
    /// An empty table.
    pub fn new() -> (table: MeshTextureTable)
        ensures
            table@ == Map::<Seq<char>, MeshTextures>::empty(),
    {
        MeshTextureTable { entries: Vec::new() }
    }

    /// Forgets every mesh.
    pub fn clear(&mut self)
        ensures
            final(self)@ == Map::<Seq<char>, MeshTextures>::empty(),
    {
        self.entries.clear();
    }

    /// Sets the texture state of the mesh `key`.
    pub fn insert(&mut self, key: String, textures: MeshTextures)
        ensures
            final(self)@ == old(self)@.insert(key@, textures),
    {
        let ghost before = self.entries@;
        self.entries.push(MeshTextureEntry { key, textures });
        assert(self.entries@.drop_last() =~= before);
    }

    /// The texture state of the mesh `key`.
    pub fn get(&self, key: &String) -> (found: Option<MeshTextures>)
        ensures
            found == if self@.contains_key(key@) {
                Some(self@[key@])
            } else {
                None
            },
    {
        let mut i: usize = self.entries.len();
        assert(self.entries@.take(i as int) =~= self.entries@);
        while i > 0
            invariant
                i <= self.entries@.len(),
                self@.contains_key(key@) == entries_map(self.entries@.take(i as int)).contains_key(
                    key@,
                ),
                self@.contains_key(key@) ==> self@[key@] == entries_map(
                    self.entries@.take(i as int),
                )[key@],
            decreases i,
        {
            proof {
                let prefix = self.entries@.take(i as int);
                assert(prefix.drop_last() =~= self.entries@.take(i - 1));
                assert(prefix.last() == self.entries@[i - 1]);
            }
            i -= 1;
            if self.entries[i].key == *key {
                return Some(self.entries[i].textures);
            }
        }
        None
    }
}

/// An order to draw one mesh with one material at one place.
#[derive(Clone, Copy, Debug, PartialEq, Eq, Structural)]
pub struct RenderCommand {
    /// The handle under which the mesh was registered.
    pub mesh_handle: u32,
    /// The handle under which the material was registered.
    pub material_handle: u32,
    /// The transform that places the mesh in the world.
    pub transform: u64,
}

/// One mesh to draw in the frame.
#[derive(Debug)]
pub struct DrawItem {
    pub key: String,
    pub transform: u64,
    pub material: u64,
    pub texture_flags: TexturePresenceFlags,
    pub texture_set: u64,
    pub bindless_indices: BindlessIndices,
}

/// The mathematical content of a [`DrawItem`].
pub struct DrawItemView {
    pub key: Seq<char>,
    pub transform: u64,
    pub material: u64,
    pub texture_flags: TexturePresenceFlags,
    pub texture_set: u64,
    pub bindless_indices: BindlessIndices,
}

impl View for DrawItem {
    type V = DrawItemView;

    open spec fn view(&self) -> DrawItemView {
        DrawItemView {
            key: self.key@,
            transform: self.transform,
            material: self.material,
            texture_flags: self.texture_flags,
            texture_set: self.texture_set,
            bindless_indices: self.bindless_indices,
        }
    }
}

/// The views of a list of draw items.
pub open spec fn draw_views(items: Seq<DrawItem>) -> Seq<DrawItemView> {
    Seq::new(items.len(), |i: int| items[i]@)
}

/// The tables a draw item is made from, as a draw list sees them.
pub struct DrawTables {
    /// Mesh handle to mesh key.
    pub meshes: Map<u32, String>,
    /// Material handle to material.
    pub materials: Map<u32, u64>,
    /// Mesh key to texture state.
    pub textures: Map<Seq<char>, MeshTextures>,
    /// The texture set of a mesh that has none of its own.
    pub fallback_set: u64,
}

/// The draw item for the mesh `key`: its texture flags, or none where the
/// mesh has no texture state, and its texture set, or the fallback set. The
/// bindless indices are left unset.
pub open spec fn draw_item_spec(
    textures: Map<Seq<char>, MeshTextures>,
    fallback_set: u64,
    key: Seq<char>,
    transform: u64,
    material: u64,
) -> DrawItemView {
    DrawItemView {
        key,
        transform,
        material,
        texture_flags: if textures.contains_key(key) {
            textures[key].flags
        } else {
            TexturePresenceFlags::empty()
        },
        texture_set: if textures.contains_key(key) {
            textures[key].texture_set
        } else {
            fallback_set
        },
        bindless_indices: BindlessIndices::unset(),
    }
}

impl DrawTables {
    /// The draw item for the mesh `key`, see [`draw_item_spec`].
    pub open spec fn item(self, key: Seq<char>, transform: u64, material: u64) -> DrawItemView {
        draw_item_spec(self.textures, self.fallback_set, key, transform, material)
    }

    /// Whether `command` names a registered mesh and a registered material.
    pub open spec fn accepts(self, command: RenderCommand) -> bool {
        self.meshes.contains_key(command.mesh_handle) && self.materials.contains_key(
            command.material_handle,
        )
    }

    /// The draw items of a list of commands: one for each command that
    /// names a registered mesh and a registered material, in the order of
    /// the commands. The other commands are passed over.
    pub open spec fn draw_list(self, commands: Seq<RenderCommand>) -> Seq<DrawItemView>
        decreases commands.len(),
    {
        if commands.len() == 0 {
            Seq::empty()
        } else if self.accepts(commands.last()) {
            self.draw_list(commands.drop_last()).push(
                self.item(
                    self.meshes[commands.last().mesh_handle]@,
                    commands.last().transform,
                    self.materials[commands.last().material_handle],
                ),
            )
        } else {
            self.draw_list(commands.drop_last())
        }
    }
}

/// Makes the draw item of the mesh `key`.
pub fn make_draw_item(
    textures: &MeshTextureTable,
    fallback_set: u64,
    key: &String,
    transform: u64,
    material: u64,
) -> (item: DrawItem)
    ensures
        item@ == draw_item_spec(textures@, fallback_set, key@, transform, material),
{
    let state = textures.get(key);
    let texture_flags = match state {
        Some(found) => found.flags,
        None => TexturePresenceFlags::none(),
    };
    let texture_set = match state {
        Some(found) => found.texture_set,
        None => fallback_set,
    };
    DrawItem {
        key: key.clone(),
        transform,
        material,
        texture_flags,
        texture_set,
        bindless_indices: BindlessIndices::none(),
    }
}

/// Makes the draw items of `commands`.
pub fn build_draw_items(
    meshes: &HashMap<u32, String>,
    materials: &HashMap<u32, u64>,
    textures: &MeshTextureTable,
    fallback_set: u64,
    commands: &Vec<RenderCommand>,
) -> (items: Vec<DrawItem>)
    ensures
        draw_views(items@) == (DrawTables {
            meshes: meshes@,
            materials: materials@,
            textures: textures@,
            fallback_set,
        }).draw_list(commands@),
{
    let ghost tables = DrawTables {
        meshes: meshes@,
        materials: materials@,
        textures: textures@,
        fallback_set,
    };
    let mut items: Vec<DrawItem> = Vec::new();
    let mut i: usize = 0;
    assert(draw_views(items@) =~= tables.draw_list(commands@.take(0)));
    while i < commands.len()
        invariant
            i <= commands@.len(),
            tables == (DrawTables {
                meshes: meshes@,
                materials: materials@,
                textures: textures@,
                fallback_set,
            }),
            draw_views(items@) == tables.draw_list(commands@.take(i as int)),
        decreases commands@.len() - i,
    {
        let command = commands[i];
        proof {
            let next = commands@.take(i + 1);
            assert(next.drop_last() =~= commands@.take(i as int));
            assert(next.last() == command);
        }
        let ghost before = draw_views(items@);
        match meshes.get(&command.mesh_handle) {
            Some(key) => {
                match materials.get(&command.material_handle) {
                    Some(material) => {
                        let item = make_draw_item(
                            textures,
                            fallback_set,
                            key,
                            command.transform,
                            *material,
                        );
                        items.push(item);
                        assert(draw_views(items@) =~= before.push(item@));
                    },
                    None => {},
                }
            },
            None => {},
        }
        i += 1;
    }
    assert(commands@.take(i as int) =~= commands@);
    items
}

} // verus!
