//! What the core knows of meshes and their textures.
//!
//! A mesh has a name and up to five textures. From them the core derives
//! which texture slots are filled, which image and sampler each slot shows
//! (the fallback where a texture is missing), and which index each texture
//! has in the bindless table.

use vstd::prelude::*;
use crate::bindless::{sampled_image_write, BindlessManager, BindlessView};
use crate::descriptor_manager::TextureBinding;
use crate::descriptor_set::DescriptorWrite;
use crate::error::AshError;
use crate::texture::Texture;

verus! {

/// The number of texture slots of a material.
pub const TEXTURE_SLOTS: usize = 5;

/// The bindless index that stands for "no texture".
pub const NO_TEXTURE: i32 = -1;

/// Which of the five textures a mesh brings.
#[derive(Clone, Copy, Debug, PartialEq, Eq, Structural)]
pub struct TexturePresenceFlags {
    pub base_color: bool,
    pub normal: bool,
    pub metallic_roughness: bool,
    pub occlusion: bool,
    pub emissive: bool,
}

impl TexturePresenceFlags {
    /// No texture at all.
    pub open spec fn empty() -> TexturePresenceFlags {
        TexturePresenceFlags {
            base_color: false,
            normal: false,
            metallic_roughness: false,
            occlusion: false,
            emissive: false,
        }
    }

    /// The flag of the slot with the given number.
    pub open spec fn at(self, slot: int) -> bool {
        if slot == 0 {
            self.base_color
        } else if slot == 1 {
            self.normal
        } else if slot == 2 {
            self.metallic_roughness
        } else if slot == 3 {
            self.occlusion
        } else {
            slot == 4 && self.emissive
        }
    }

    /// The number of textures in the slots before `slot`.
    pub open spec fn present_before(self, slot: int) -> int
        decreases slot,
    {
        if slot <= 0 {
            0
        } else {
            self.present_before(slot - 1) + if self.at(slot - 1) {
                1int
            } else {
                0int
            }
        }
    }

    /// Flags without any texture.
    pub fn none() -> (flags: TexturePresenceFlags)
        ensures
            flags == Self::empty(),
    {
        TexturePresenceFlags {
            base_color: false,
            normal: false,
            metallic_roughness: false,
            occlusion: false,
            emissive: false,
        }
    }

    /// Whether the mesh brings at least one texture.
    pub fn any(&self) -> (any: bool)
        ensures
            any == (self.base_color || self.normal || self.metallic_roughness || self.occlusion
                || self.emissive),
    {
        self.base_color || self.normal || self.metallic_roughness || self.occlusion
            || self.emissive
    }
}

/// What one texture slot shows: the mesh's own texture, or the fallback.
#[derive(Clone, Copy, Debug, PartialEq, Eq, Structural)]
pub struct TextureSlot {
    pub view: u64,
    pub sampler: u64,
    pub has_texture: bool,
}

impl TextureSlot {
    /// The slot for an optional texture.
    pub open spec fn of(texture: Option<Texture>, fallback: Texture) -> TextureSlot {
        match texture {
            Some(own) => TextureSlot { view: own.view, sampler: own.sampler, has_texture: true },
            None => TextureSlot {
                view: fallback.view,
                sampler: fallback.sampler,
                has_texture: false,
            },
        }
    }

    /// Fills a slot with `texture`, or with `fallback` where there is none.
    pub fn from_texture(texture: Option<&Texture>, fallback: &Texture) -> (slot: TextureSlot)
        ensures
            slot == Self::of(
                match texture {
                    Some(own) => Some(*own),
                    None => None,
                },
                *fallback,
            ),
    {
        match texture {
            Some(own) => TextureSlot {
                view: own.view(),
                sampler: own.sampler(),
                has_texture: true,
            },
            None => TextureSlot {
                view: fallback.view(),
                sampler: fallback.sampler(),
                has_texture: false,
            },
        }
    }
}

/// A mesh as the core sees it: its name, which is its key in every table,
/// and the textures that were uploaded for it.
#[derive(Debug)]
pub struct Mesh {
    pub name: String,
    pub texture: Option<Texture>,
    pub normal_texture: Option<Texture>,
    pub metallic_roughness_texture: Option<Texture>,
    pub occlusion_texture: Option<Texture>,
    pub emissive_texture: Option<Texture>,
}

impl Mesh {
    /// The base color texture.
    pub fn texture(&self) -> (texture: Option<&Texture>)
        ensures
            texture == match self.texture {
                Some(own) => Some(&own),
                None => None,
            },
    {
        self.texture.as_ref()
    }

    /// The normal map.
    pub fn normal_texture(&self) -> (texture: Option<&Texture>)
        ensures
            texture == match self.normal_texture {
                Some(own) => Some(&own),
                None => None,
            },
    {
        self.normal_texture.as_ref()
    }

    /// The metallic-roughness texture.
    pub fn metallic_roughness_texture(&self) -> (texture: Option<&Texture>)
        ensures
            texture == match self.metallic_roughness_texture {
                Some(own) => Some(&own),
                None => None,
            },
    {
        self.metallic_roughness_texture.as_ref()
    }

    /// The occlusion texture.
    pub fn occlusion_texture(&self) -> (texture: Option<&Texture>)
        ensures
            texture == match self.occlusion_texture {
                Some(own) => Some(&own),
                None => None,
            },
    {
        self.occlusion_texture.as_ref()
    }

    /// The emissive texture.
    pub fn emissive_texture(&self) -> (texture: Option<&Texture>)
        ensures
            texture == match self.emissive_texture {
                Some(own) => Some(&own),
                None => None,
            },
    {
        self.emissive_texture.as_ref()
    }
}

/// The bindless indices of the five textures of a material, `-1` where a
/// texture is absent.
#[derive(Clone, Copy, Debug, PartialEq, Eq, Structural)]
pub struct BindlessIndices {
    pub base_color: i32,
    pub normal: i32,
    pub metallic_roughness: i32,
    pub occlusion: i32,
    pub emissive: i32,
}

impl BindlessIndices {
    /// No texture is registered.
    pub open spec fn unset() -> BindlessIndices {
        BindlessIndices {
            base_color: -1i32,
            normal: -1i32,
            metallic_roughness: -1i32,
            occlusion: -1i32,
            emissive: -1i32,
        }
    }

    /// The index of the slot with the given number.
    pub open spec fn at(self, slot: int) -> i32 {
        if slot == 0 {
            self.base_color
        } else if slot == 1 {
            self.normal
        } else if slot == 2 {
            self.metallic_roughness
        } else if slot == 3 {
            self.occlusion
        } else {
            self.emissive
        }
    }

    /// These indices with the one of slot `slot` replaced.
    pub open spec fn with(self, slot: int, index: i32) -> BindlessIndices {
        if slot == 0 {
            BindlessIndices { base_color: index, ..self }
        } else if slot == 1 {
            BindlessIndices { normal: index, ..self }
        } else if slot == 2 {
            BindlessIndices { metallic_roughness: index, ..self }
        } else if slot == 3 {
            BindlessIndices { occlusion: index, ..self }
        } else {
            BindlessIndices { emissive: index, ..self }
        }
    }

    /// Indices that name no texture.
    pub fn none() -> (indices: BindlessIndices)
        ensures
            indices == Self::unset(),
    {
        BindlessIndices {
            base_color: NO_TEXTURE,
            normal: NO_TEXTURE,
            metallic_roughness: NO_TEXTURE,
            occlusion: NO_TEXTURE,
            emissive: NO_TEXTURE,
        }
    }

    /// The five indices in slot order.
    pub fn to_array(&self) -> (indices: [i32; 5])
        ensures
            indices@ == seq![
                self.base_color,
                self.normal,
                self.metallic_roughness,
                self.occlusion,
                self.emissive,
            ],
    {
        let indices = [
            self.base_color,
            self.normal,
            self.metallic_roughness,
            self.occlusion,
            self.emissive,
        ];
        assert(indices@ =~= seq![
            self.base_color,
            self.normal,
            self.metallic_roughness,
            self.occlusion,
            self.emissive,
        ]);
        indices
    }
}

/// What registering one slot with the bindless table answers: `-1` for a
/// slot without texture, the table's next index for one with a texture, and
/// a refusal when the table is full or the index does not fit the signed
/// form in which the shaders read it.
pub open spec fn slot_outcome(table: BindlessView, has_texture: bool) -> Result<i32, AshError> {
    if !has_texture {
        Ok(-1i32)
    } else if !table.has_room() {
        Err(AshError::BindlessTableFull { capacity: table.max_resources })
    } else if table.next_index > i32::MAX {
        Err(AshError::BindlessIndexUnrepresentable(table.next_index))
    } else {
        Ok(table.next_index as i32)
    }
}

/// Everything the renderer needs to bind the textures of one mesh.
#[derive(Clone, Copy, Debug, PartialEq, Eq, Structural)]
pub struct TextureBindingInfo {
    pub base_color: TextureSlot,
    pub normal: TextureSlot,
    pub metallic_roughness: TextureSlot,
    pub occlusion: TextureSlot,
    pub emissive: TextureSlot,
    pub flags: TexturePresenceFlags,
    pub bindless_indices: BindlessIndices,
}

/// The state that a registration with the bindless table runs through.
pub struct Registration {
    pub info: TextureBindingInfo,
    pub table: BindlessView,
    pub writes: Seq<DescriptorWrite>,
    pub outcome: Result<(), AshError>,
}

impl TextureBindingInfo {
    /// The binding info of a mesh with the given textures.
    pub open spec fn of(
        texture: Option<Texture>,
        normal: Option<Texture>,
        metallic_roughness: Option<Texture>,
        occlusion: Option<Texture>,
        emissive: Option<Texture>,
        fallback: Texture,
    ) -> TextureBindingInfo {
        TextureBindingInfo {
            base_color: TextureSlot::of(texture, fallback),
            normal: TextureSlot::of(normal, fallback),
            metallic_roughness: TextureSlot::of(metallic_roughness, fallback),
            occlusion: TextureSlot::of(occlusion, fallback),
            emissive: TextureSlot::of(emissive, fallback),
            flags: TexturePresenceFlags {
                base_color: texture.is_some(),
                normal: normal.is_some(),
                metallic_roughness: metallic_roughness.is_some(),
                occlusion: occlusion.is_some(),
                emissive: emissive.is_some(),
            },
            bindless_indices: BindlessIndices::unset(),
        }
    }

    /// The slot with the given number.
    pub open spec fn slot(self, slot: int) -> TextureSlot {
        if slot == 0 {
            self.base_color
        } else if slot == 1 {
            self.normal
        } else if slot == 2 {
            self.metallic_roughness
        } else if slot == 3 {
            self.occlusion
        } else {
            self.emissive
        }
    }

    /// Registering the slots from `slot` on, one after the other: each slot
    /// with a texture takes the table's next index and adds the write that
    /// fills it; the first refusal ends the registration and leaves the
    /// later slots as they were.
    pub open spec fn register_from(
        self,
        table: BindlessView,
        writes: Seq<DescriptorWrite>,
        slot: int,
    ) -> Registration
        decreases 5 - slot,
    {
        if slot < 0 || slot >= 5 {
            Registration { info: self, table, writes, outcome: Ok(()) }
        } else {
            match slot_outcome(table, self.flags.at(slot)) {
                Err(error) => Registration { info: self, table, writes, outcome: Err(error) },
                Ok(index) => {
                    let info = TextureBindingInfo {
                        bindless_indices: self.bindless_indices.with(slot, index),
                        ..self
                    };
                    if self.flags.at(slot) {
                        info.register_from(
                            table.bump(),
                            writes.push(
                                sampled_image_write(
                                    table.set.handle,
                                    table.next_index,
                                    self.slot(slot).view,
                                    self.slot(slot).sampler,
                                ),
                            ),
                            slot + 1,
                        )
                    } else {
                        info.register_from(table, writes, slot + 1)
                    }
                },
            }
        }
    }

    /// Derives the binding info of `mesh`; slots without a texture show
    /// `default_texture`. No texture is registered with the bindless table
    /// yet.
    pub fn from_mesh(mesh: &Mesh, default_texture: &Texture) -> (info: TextureBindingInfo)
        ensures
            info == Self::of(
                mesh.texture,
                mesh.normal_texture,
                mesh.metallic_roughness_texture,
                mesh.occlusion_texture,
                mesh.emissive_texture,
                *default_texture,
            ),
    {
        let base_color = TextureSlot::from_texture(mesh.texture(), default_texture);
        let normal = TextureSlot::from_texture(mesh.normal_texture(), default_texture);
        let metallic_roughness = TextureSlot::from_texture(
            mesh.metallic_roughness_texture(),
            default_texture,
        );
        let occlusion = TextureSlot::from_texture(mesh.occlusion_texture(), default_texture);
        let emissive = TextureSlot::from_texture(mesh.emissive_texture(), default_texture);
        let flags = TexturePresenceFlags {
            base_color: base_color.has_texture,
            normal: normal.has_texture,
            metallic_roughness: metallic_roughness.has_texture,
            occlusion: occlusion.has_texture,
            emissive: emissive.has_texture,
        };
        TextureBindingInfo {
            base_color,
            normal,
            metallic_roughness,
            occlusion,
            emissive,
            flags,
            bindless_indices: BindlessIndices::none(),
        }
    }

    fn register_slot(
        slot: TextureSlot,
        has_texture: bool,
        bindless: &mut BindlessManager,
        writes: &mut Vec<DescriptorWrite>,
    ) -> (result: Result<i32, AshError>)
        requires
            old(bindless).wf(),
        ensures
            final(bindless).wf(),
            result == slot_outcome(old(bindless)@, has_texture),
            final(bindless)@ == if has_texture && result is Ok {
                old(bindless)@.bump()
            } else {
                old(bindless)@
            },
            final(writes)@ == if has_texture && result is Ok {
                old(writes)@.push(
                    sampled_image_write(
                        old(bindless)@.set.handle,
                        old(bindless)@.next_index,
                        slot.view,
                        slot.sampler,
                    ),
                )
            } else {
                old(writes)@
            },
    {
        if !has_texture {
            return Ok(NO_TEXTURE);
        }
        if bindless.next_index() >= bindless.max_resources() {
            return Err(AshError::BindlessTableFull { capacity: bindless.max_resources() });
        }
        if bindless.next_index() > 0x7fff_ffff {
            return Err(AshError::BindlessIndexUnrepresentable(bindless.next_index()));
        }
        match bindless.add_sampled_image(slot.view, slot.sampler) {
            Ok((index, write)) => {
                writes.push(write);
                Ok(index as i32)
            },
            Err(error) => Err(error),
        }
    }

    /// Registers the textures of the mesh with the bindless table, in slot
    /// order, and stores their indices; a slot without a texture gets `-1`.
    /// The writes that fill the table are added to `writes`.
    ///
    /// The first slot that the table refuses ends the registration: the
    /// slots before it keep their new indices, and their writes stay in
    /// `writes`.
    pub fn register_with_bindless(
        &mut self,
        bindless: &mut BindlessManager,
        writes: &mut Vec<DescriptorWrite>,
    ) -> (result: Result<(), AshError>)
        requires
            old(bindless).wf(),
        ensures
            final(bindless).wf(),
            (Registration {
                info: *final(self),
                table: final(bindless)@,
                writes: final(writes)@,
                outcome: result,
            }) == old(self).register_from(old(bindless)@, old(writes)@, 0),
    {
        proof {
            reveal_with_fuel(TextureBindingInfo::register_from, 6);
        }
        match Self::register_slot(self.base_color, self.flags.base_color, bindless, writes) {
            Ok(index) => {
                self.bindless_indices.base_color = index;
            },
            Err(error) => {
                return Err(error);
            },
        }
        match Self::register_slot(self.normal, self.flags.normal, bindless, writes) {
            Ok(index) => {
                self.bindless_indices.normal = index;
            },
            Err(error) => {
                return Err(error);
            },
        }
        match Self::register_slot(
            self.metallic_roughness,
            self.flags.metallic_roughness,
            bindless,
            writes,
        ) {
            Ok(index) => {
                self.bindless_indices.metallic_roughness = index;
            },
            Err(error) => {
                return Err(error);
            },
        }
        match Self::register_slot(self.occlusion, self.flags.occlusion, bindless, writes) {
            Ok(index) => {
                self.bindless_indices.occlusion = index;
            },
            Err(error) => {
                return Err(error);
            },
        }
        match Self::register_slot(self.emissive, self.flags.emissive, bindless, writes) {
            Ok(index) => {
                self.bindless_indices.emissive = index;
            },
            Err(error) => {
                return Err(error);
            },
        }
        Ok(())
    }

    /// Which textures the mesh brings.
    pub fn flags(&self) -> (flags: TexturePresenceFlags)
        ensures
            flags == self.flags,
    {
        self.flags
    }

    /// The five textures as bindings of a material texture set: slot `k`
    /// goes to binding `k`.
    pub fn descriptor_bindings(&self) -> (bindings: Vec<TextureBinding>)
        ensures
            bindings@.len() == 5,
            forall|k: int|
                0 <= k < 5 ==> #[trigger] bindings@[k] == (TextureBinding {
                    binding: k as u32,
                    view: self.slot(k).view,
                    sampler: self.slot(k).sampler,
                }),
    {
        let mut bindings: Vec<TextureBinding> = Vec::new();
        bindings.push(
            TextureBinding { binding: 0, view: self.base_color.view, sampler: self.base_color.sampler },
        );
        bindings.push(
            TextureBinding { binding: 1, view: self.normal.view, sampler: self.normal.sampler },
        );
        bindings.push(
            TextureBinding {
                binding: 2,
                view: self.metallic_roughness.view,
                sampler: self.metallic_roughness.sampler,
            },
        );
        bindings.push(
            TextureBinding { binding: 3, view: self.occlusion.view, sampler: self.occlusion.sampler },
        );
        bindings.push(
            TextureBinding { binding: 4, view: self.emissive.view, sampler: self.emissive.sampler },
        );
        bindings
    }

    /// Whether the mesh brings at least one texture.
    pub fn has_any_texture(&self) -> (any: bool)
        ensures
            any == (self.flags.base_color || self.flags.normal || self.flags.metallic_roughness
                || self.flags.occlusion || self.flags.emissive),
    {
        self.flags.any()
    }
}

/// Where the table has room for every texture of the mesh, and the indices
/// fit their signed form, the registration succeeds: each texture gets the
/// table's next index plus the number of textures in the slots before it,
/// each slot without a texture gets `-1`, and the table's counter moves on
/// by the number of textures.
pub proof fn law_registration_assigns_consecutive_indices(
    info: TextureBindingInfo,
    table: BindlessView,
    writes: Seq<DescriptorWrite>,
)
    requires
        table.next_index + info.flags.present_before(5) <= table.max_resources,
        table.next_index + info.flags.present_before(5) <= i32::MAX + 1,
    ensures
        info.register_from(table, writes, 0).outcome is Ok,
        info.register_from(table, writes, 0).table.next_index == table.next_index
            + info.flags.present_before(5),
        info.register_from(table, writes, 0).writes.len() == writes.len()
            + info.flags.present_before(5),
        forall|k: int|
            0 <= k < 5 ==> #[trigger] info.register_from(
                table,
                writes,
                0,
            ).info.bindless_indices.at(k) == if info.flags.at(k) {
                table.next_index + info.flags.present_before(k)
            } else {
                -1
            },
{
    lemma_registration_from(info, table, writes, 0);
}

/// The statement of the law above for a registration that starts at any
/// slot.
proof fn lemma_registration_from(
    info: TextureBindingInfo,
    table: BindlessView,
    writes: Seq<DescriptorWrite>,
    slot: int,
)
    requires
        0 <= slot <= 5,
        table.next_index + info.flags.present_before(5) - info.flags.present_before(slot)
            <= table.max_resources,
        table.next_index + info.flags.present_before(5) - info.flags.present_before(slot)
            <= i32::MAX + 1,
    ensures
        info.register_from(table, writes, slot).outcome is Ok,
        info.register_from(table, writes, slot).table.next_index == table.next_index
            + info.flags.present_before(5) - info.flags.present_before(slot),
        info.register_from(table, writes, slot).writes.len() == writes.len()
            + info.flags.present_before(5) - info.flags.present_before(slot),
        info.register_from(table, writes, slot).info.flags == info.flags,
        forall|k: int|
            0 <= k < slot ==> #[trigger] info.register_from(
                table,
                writes,
                slot,
            ).info.bindless_indices.at(k) == info.bindless_indices.at(k),
        forall|k: int|
            slot <= k < 5 ==> #[trigger] info.register_from(
                table,
                writes,
                slot,
            ).info.bindless_indices.at(k) == if info.flags.at(k) {
                table.next_index + info.flags.present_before(k) - info.flags.present_before(slot)
            } else {
                -1
            },
    decreases 5 - slot,
{
    lemma_present_before_grows(info.flags, slot, 5);
    if slot < 5 {
        lemma_present_before_grows(info.flags, slot + 1, 5);
        assert(info.flags.present_before(slot + 1) == info.flags.present_before(slot) + if info.flags.at(
            slot,
        ) {
            1int
        } else {
            0int
        });
        let index = slot_outcome(table, info.flags.at(slot))->Ok_0;
        let next = TextureBindingInfo {
            bindless_indices: info.bindless_indices.with(slot, index),
            ..info
        };
        if info.flags.at(slot) {
            lemma_registration_from(
                next,
                table.bump(),
                writes.push(
                    sampled_image_write(
                        table.set.handle,
                        table.next_index,
                        info.slot(slot).view,
                        info.slot(slot).sampler,
                    ),
                ),
                slot + 1,
            );
        } else {
            lemma_registration_from(next, table, writes, slot + 1);
        }
        let done = info.register_from(table, writes, slot);
        assert forall|k: int| slot <= k < 5 implies #[trigger] done.info.bindless_indices.at(k)
            == if info.flags.at(k) {
            table.next_index + info.flags.present_before(k) - info.flags.present_before(slot)
        } else {
            -1
        } by {
            if k > slot {
                lemma_present_before_grows(info.flags, slot + 1, k);
            }
        }
    }
}

/// The number of textures before a slot does not shrink with the slot, and
/// grows by one per slot at most.
pub proof fn lemma_present_before_grows(flags: TexturePresenceFlags, low: int, high: int)
    requires
        low <= high,
    ensures
        flags.present_before(low) <= flags.present_before(high),
        flags.present_before(high) - flags.present_before(low) <= high - low || low < 0,
        0 <= flags.present_before(low),
    decreases high - low + (if low > 0 { low } else { 0 }),
{
    if low < high {
        lemma_present_before_grows(flags, low, high - 1);
    } else if low > 0 {
        lemma_present_before_grows(flags, low - 1, low - 1);
    }
}

} // verus!
