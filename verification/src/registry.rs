//! The resource registry: every GPU object the renderer owns, the objects it
//! depends on, and the order in which they may be destroyed.
//!
//! A record may only name dependencies that are already registered, so the
//! records, in registration order, are a topological order of the dependency
//! graph. A record can be removed only while no other live record depends on
//! it, and a full cleanup walks the records backwards, dependents first.
//!
//! The registry never calls the GPU. Removing a record yields a
//! [`DestroyCommand`]; carrying it out is the caller's part.

use vstd::prelude::*;
use crate::error::AshError;

verus! {

/// Identifies one registered GPU object. Identifiers are handed out in
/// increasing order and never reused.
#[derive(Clone, Copy, Debug, PartialEq, Eq, Structural)]
pub struct ResourceId(pub u64);

/// The kind of GPU object behind a record; it selects the destroy call.
#[derive(Clone, Copy, Debug, PartialEq, Eq, Structural)]
pub enum ResourceKind {
    ImageView,
    Framebuffer,
    RenderPass,
    Semaphore,
    Fence,
    CommandPool,
    Pipeline,
    PipelineLayout,
}

/// An order to destroy one native object.
#[derive(Clone, Copy, Debug, PartialEq, Eq, Structural)]
pub struct DestroyCommand {
    pub id: ResourceId,
    pub kind: ResourceKind,
    pub native: u64,
}

/// One registered object.
pub struct ResourceRecord {
    id: ResourceId,
    kind: ResourceKind,
    native: u64,
    dependencies: Vec<ResourceId>,
}

/// The mathematical content of a [`ResourceRecord`].
pub struct RecordView {
    pub id: ResourceId,
    pub kind: ResourceKind,
    pub native: u64,
    pub dependencies: Seq<ResourceId>,
}

impl RecordView {
    /// The command that destroys this record's object.
    pub open spec fn command(self) -> DestroyCommand {
        DestroyCommand { id: self.id, kind: self.kind, native: self.native }
    }
}

impl View for ResourceRecord {
    type V = RecordView;

    closed spec fn view(&self) -> RecordView {
        RecordView {
            id: self.id,
            kind: self.kind,
            native: self.native,
            dependencies: self.dependencies@,
        }
    }
}

/// The mathematical content of a [`ResourceRegistry`]: the live records in
/// registration order, and the identifier the next registration will get.
pub struct RegistryView {
    pub records: Seq<RecordView>,
    pub next_id: u64,
}

impl RegistryView {
    /// `id` names a live record.
    pub open spec fn contains(self, id: ResourceId) -> bool {
        exists|i: int| 0 <= i < self.records.len() && (#[trigger] self.records[i]).id == id
    }

    /// The place of the live record `id` in registration order.
    pub open spec fn position(self, id: ResourceId) -> int {
        choose|i: int| 0 <= i < self.records.len() && (#[trigger] self.records[i]).id == id
    }

    /// Some live record lists `id` among its dependencies.
    pub open spec fn has_dependent(self, id: ResourceId) -> bool {
        exists|i: int|
            0 <= i < self.records.len() && (#[trigger] self.records[i]).dependencies.contains(id)
    }

    /// Every one of `dependencies` names a live record.
    pub open spec fn knows_all(self, dependencies: Seq<ResourceId>) -> bool {
        forall|k: int| 0 <= k < dependencies.len() ==> self.contains(#[trigger] dependencies[k])
    }

    /// `dependencies[k]` is the first entry that names no live record.
    pub open spec fn first_unknown_at(self, dependencies: Seq<ResourceId>, k: int) -> bool {
        &&& 0 <= k < dependencies.len()
        &&& !self.contains(dependencies[k])
        &&& forall|j: int| 0 <= j < k ==> self.contains(#[trigger] dependencies[j])
    }

    /// Why a registration with these dependencies is refused: the first
    /// dependency that names no live record, or, where all are known, the
    /// end of the identifier space.
    pub open spec fn refusal(self, dependencies: Seq<ResourceId>) -> AshError {
        if self.knows_all(dependencies) {
            AshError::RegistryExhausted
        } else {
            AshError::UnknownDependency(
                dependencies[choose|k: int| self.first_unknown_at(dependencies, k)],
            )
        }
    }

    /// The invariant of a registry: identifiers grow along the records and
    /// stay below `next_id`, and every dependency of a live record is itself
    /// live and was registered earlier.
    pub open spec fn wf(self) -> bool {
        &&& forall|i: int|
            0 <= i < self.records.len() ==> (#[trigger] self.records[i]).id.0 < self.next_id
        &&& forall|i: int, j: int|
            0 <= i < j < self.records.len() ==> (#[trigger] self.records[i]).id.0 < (
            #[trigger] self.records[j]).id.0
        &&& forall|i: int, k: int|
            0 <= i < self.records.len() && 0 <= k < self.records[i].dependencies.len() ==> {
                &&& self.contains(#[trigger] self.records[i].dependencies[k])
                &&& self.records[i].dependencies[k].0 < self.records[i].id.0
            }
    }

    /// The registry after a successful registration.
    pub open spec fn register(
        self,
        kind: ResourceKind,
        native: u64,
        dependencies: Seq<ResourceId>,
    ) -> RegistryView {
        RegistryView {
            records: self.records.push(
                RecordView { id: ResourceId(self.next_id), kind, native, dependencies },
            ),
            next_id: (self.next_id + 1) as u64,
        }
    }

    /// The registry after the live record `id` left it.
    pub open spec fn remove(self, id: ResourceId) -> RegistryView {
        RegistryView { records: self.records.remove(self.position(id)), next_id: self.next_id }
    }

    /// What a cleanup of `id` answers.
    pub open spec fn removal(self, id: ResourceId) -> Result<DestroyCommand, AshError> {
        if !self.contains(id) {
            Err(AshError::UnknownResource(id))
        } else if self.has_dependent(id) {
            Err(AshError::ResourceInUse(id))
        } else {
            Ok(self.records[self.position(id)].command())
        }
    }

    /// The commands of a full cleanup: one per live record, last registered
    /// first.
    pub open spec fn destroy_plan(self) -> Seq<DestroyCommand> {
        Seq::new(
            self.records.len(),
            |i: int| self.records[self.records.len() - 1 - i].command(),
        )
    }

    /// The registry after each of `natives` was registered in turn, with the
    /// given kind and without dependencies.
    pub open spec fn register_many(self, kind: ResourceKind, natives: Seq<u64>) -> RegistryView
        decreases natives.len(),
    {
        if natives.len() == 0 {
            self
        } else {
            self.register_many(kind, natives.drop_last()).register(
                kind,
                natives.last(),
                Seq::empty(),
            )
        }
    }

    /// The next `n` identifiers, in the order in which they will be handed
    /// out.
    pub open spec fn sequential_ids(self, n: nat) -> Seq<ResourceId> {
        Seq::new(n, |i: int| ResourceId((self.next_id + i) as u64))
    }

    /// The registry after a cleanup of each of `ids` in turn; a cleanup that
    /// is refused is passed over.
    pub open spec fn remove_each(self, ids: Seq<ResourceId>) -> RegistryView
        decreases ids.len(),
    {
        if ids.len() == 0 {
            self
        } else if self.remove_each(ids.drop_last()).removal(ids.last()) is Ok {
            self.remove_each(ids.drop_last()).remove(ids.last())
        } else {
            self.remove_each(ids.drop_last())
        }
    }

    /// The commands of a cleanup of each of `ids` in turn: one for each
    /// cleanup that is not refused.
    pub open spec fn commands_of_each(self, ids: Seq<ResourceId>) -> Seq<DestroyCommand>
        decreases ids.len(),
    {
        if ids.len() == 0 {
            Seq::empty()
        } else {
            match self.remove_each(ids.drop_last()).removal(ids.last()) {
                Ok(command) => self.commands_of_each(ids.drop_last()).push(command),
                Err(_) => self.commands_of_each(ids.drop_last()),
            }
        }
    }

    /// The refusals of a cleanup of each of `ids` in turn.
    pub open spec fn refusals_of_each(self, ids: Seq<ResourceId>) -> Seq<AshError>
        decreases ids.len(),
    {
        if ids.len() == 0 {
            Seq::empty()
        } else {
            match self.remove_each(ids.drop_last()).removal(ids.last()) {
                Ok(_) => self.refusals_of_each(ids.drop_last()),
                Err(error) => self.refusals_of_each(ids.drop_last()).push(error),
            }
        }
    }

    /// The registry after a full cleanup. Identifiers are not handed out again.
    pub open spec fn drained(self) -> RegistryView {
        RegistryView { records: Seq::empty(), next_id: self.next_id }
    }
}

/// Owns the records of all registered GPU objects.
pub struct ResourceRegistry {
    records: Vec<ResourceRecord>,
    next_id: u64,
}

impl View for ResourceRegistry {
    type V = RegistryView;

    closed spec fn view(&self) -> RegistryView {
        RegistryView {
            records: Seq::new(self.records@.len(), |i: int| self.records@[i]@),
            next_id: self.next_id,
        }
    }
}

impl ResourceRegistry {
    /// The registry's invariant, see [`RegistryView::wf`].
    pub open spec fn wf(&self) -> bool {
        self@.wf()
    }

    /// An empty registry.
    pub fn new() -> (registry: ResourceRegistry)
        ensures
            registry.wf(),
            registry@.records.len() == 0,
            registry@.next_id == 0,
    {
        ResourceRegistry { records: Vec::new(), next_id: 0 }
    }

    /// The number of live records.
    pub fn len(&self) -> (n: usize)
        ensures
            n == self@.records.len(),
    {
        self.records.len()
    }

    /// Whether no record is live.
    pub fn is_empty(&self) -> (empty: bool)
        ensures
            empty <==> self@.records.len() == 0,
    {
        self.records.len() == 0
    }

    fn find(&self, id: ResourceId) -> (found: Option<usize>)
        ensures
            match found {
                Some(i) => i < self@.records.len() && self@.records[i as int].id == id,
                None => !self@.contains(id),
            },
    {
        let mut i: usize = 0;
        while i < self.records.len()
            invariant
                i <= self.records@.len(),
                forall|j: int| 0 <= j < i ==> (#[trigger] self@.records[j]).id != id,
            decreases self.records@.len() - i,
        {
            if self.records[i].id.0 == id.0 {
                return Some(i);
            }
            i += 1;
        }
        None
    }

    /// Whether `id` names a live record.
    pub fn contains(&self, id: ResourceId) -> (live: bool)
        ensures
            live == self@.contains(id),
    {
        self.find(id).is_some()
    }

    /// The native handle behind `id`, as long as the record is live.
    pub fn native_handle(&self, id: ResourceId) -> (native: Option<u64>)
        requires
            self.wf(),
        ensures
            native == if self@.contains(id) {
                Some(self@.records[self@.position(id)].native)
            } else {
                None
            },
    {
        match self.find(id) {
            Some(i) => {
                proof {
                    self@.lemma_position(id, i as int);
                }
                Some(self.records[i].native)
            },
            None => None,
        }
    }

    fn find_unknown(&self, dependencies: &Vec<ResourceId>) -> (unknown: Option<usize>)
        ensures
            match unknown {
                Some(k) => self@.first_unknown_at(dependencies@, k as int),
                None => self@.knows_all(dependencies@),
            },
    {
        let mut k: usize = 0;
        while k < dependencies.len()
            invariant
                k <= dependencies@.len(),
                forall|j: int| 0 <= j < k ==> self@.contains(#[trigger] dependencies@[j]),
            decreases dependencies@.len() - k,
        {
            if !self.contains(dependencies[k]) {
                return Some(k);
            }
            k += 1;
        }
        None
    }

    /// Registers a native object of the given kind that depends on the
    /// records named in `dependencies`, and hands out its identifier.
    ///
    /// Refused, with the registry unchanged, when a dependency names no live
    /// record (the first such entry is reported), and otherwise when the
    /// identifier space is used up.
    pub fn register(
        &mut self,
        kind: ResourceKind,
        native: u64,
        dependencies: &Vec<ResourceId>,
    ) -> (result: Result<ResourceId, AshError>)
        requires
            old(self).wf(),
        ensures
            final(self).wf(),
            result is Ok <==> old(self)@.knows_all(dependencies@) && old(self)@.next_id < u64::MAX,
            result matches Ok(id) ==> {
                &&& id == ResourceId(old(self)@.next_id)
                &&& final(self)@ == old(self)@.register(kind, native, dependencies@)
                &&& !old(self)@.contains(id)
                &&& final(self)@.contains(id)
                &&& forall|other: ResourceId|
                    old(self)@.contains(other) ==> final(self)@.contains(other)
            },
            result matches Err(error) ==> {
                &&& final(self)@ == old(self)@
                &&& error == old(self)@.refusal(dependencies@)
            },
    {
        match self.find_unknown(dependencies) {
            Some(k) => {
                proof {
                    let chosen = choose|c: int| self@.first_unknown_at(dependencies@, c);
                    assert(!self@.contains(dependencies@[k as int]));
                    if chosen < k {
                        assert(self@.contains(dependencies@[chosen]));
                    } else if k < chosen {
                        assert(self@.contains(dependencies@[k as int]));
                    }
                }
                return Err(AshError::UnknownDependency(dependencies[k]));
            },
            None => {},
        }
        if self.next_id == u64::MAX {
            return Err(AshError::RegistryExhausted);
        }
        let id = ResourceId(self.next_id);
        let owned = dependencies.clone();
        assert(owned@ =~= dependencies@);
        let record = ResourceRecord { id, kind, native, dependencies: owned };
        let ghost before = self@;
        self.records.push(record);
        self.next_id = self.next_id + 1;
        proof {
            let after = self@;
            assert(after.records =~= before.records.push(record@));
            assert(after == before.register(kind, native, dependencies@));
            before.lemma_register_wf(kind, native, dependencies@);
            assert(after.records[before.records.len() as int].id == id);
            assert forall|other: ResourceId| before.contains(other) implies after.contains(
                other,
            ) by {
                let p = before.position(other);
                assert(after.records[p] == before.records[p]);
            }
        }
        Ok(id)
    }

    /// The number of identifiers that can still be handed out.
    pub fn remaining_ids(&self) -> (left: u64)
        ensures
            left == u64::MAX - self@.next_id,
    {
        u64::MAX - self.next_id
    }

    /// Registers an object whose dependencies are known to be live, in a
    /// registry that is known to have an identifier left; such a
    /// registration cannot be refused.
    pub fn register_live(
        &mut self,
        kind: ResourceKind,
        native: u64,
        dependencies: &Vec<ResourceId>,
    ) -> (id: ResourceId)
        requires
            old(self).wf(),
            old(self)@.knows_all(dependencies@),
            old(self)@.next_id < u64::MAX,
        ensures
            final(self).wf(),
            id == ResourceId(old(self)@.next_id),
            final(self)@ == old(self)@.register(kind, native, dependencies@),
            !old(self)@.contains(id),
            final(self)@.contains(id),
            forall|other: ResourceId| old(self)@.contains(other) ==> final(self)@.contains(other),
    {
        match self.register(kind, native, dependencies) {
            Ok(id) => id,
            Err(_) => vstd::pervasive::unreached(),
        }
    }

    fn find_dependent(&self, id: ResourceId) -> (found: bool)
        ensures
            found == self@.has_dependent(id),
    {
        let mut i: usize = 0;
        while i < self.records.len()
            invariant
                i <= self.records@.len(),
                forall|j: int|
                    0 <= j < i ==> !(#[trigger] self@.records[j]).dependencies.contains(id),
            decreases self.records@.len() - i,
        {
            let record = &self.records[i];
            let mut k: usize = 0;
            while k < record.dependencies.len()
                invariant
                    i < self.records@.len(),
                    *record == self.records@[i as int],
                    k <= record.dependencies@.len(),
                    forall|m: int| 0 <= m < k ==> record.dependencies@[m] != id,
                decreases record.dependencies@.len() - k,
            {
                if record.dependencies[k].0 == id.0 {
                    assert(self@.records[i as int].dependencies[k as int] == id);
                    return true;
                }
                k += 1;
            }
            assert(!self@.records[i as int].dependencies.contains(id));
            i += 1;
        }
        false
    }

    /// Takes one record out of the registry and answers with the command
    /// that destroys its object.
    ///
    /// Refused, with the registry unchanged, when `id` names no live record,
    /// or when a live record still depends on it: dependents go first.
    pub fn cleanup_resource(&mut self, id: ResourceId) -> (result: Result<DestroyCommand, AshError>)
        requires
            old(self).wf(),
        ensures
            final(self).wf(),
            result == old(self)@.removal(id),
            result.is_ok() ==> final(self)@ == old(self)@.remove(id) && !final(self)@.contains(id),
            result.is_err() ==> final(self)@ == old(self)@,
            old(self)@.contains(id) && old(self)@.has_dependent(id) ==> result == Err::<
                DestroyCommand,
                AshError,
            >(AshError::ResourceInUse(id)) && final(self)@.contains(id),
    {
        let position = match self.find(id) {
            Some(i) => i,
            None => {
                return Err(AshError::UnknownResource(id));
            },
        };
        if self.find_dependent(id) {
            return Err(AshError::ResourceInUse(id));
        }
        let ghost before = self@;
        proof {
            before.lemma_position(id, position as int);
        }
        let record = self.records.remove(position);
        proof {
            assert(self@.records =~= before.records.remove(position as int));
            before.lemma_remove_wf(id);
        }
        Ok(DestroyCommand { id: record.id, kind: record.kind, native: record.native })
    }

    /// Registers each of `natives` in turn, with the given kind and without
    /// dependencies, and answers with their identifiers. Where the
    /// identifier space runs out, the objects registered up to there stay
    /// registered.
    pub fn register_each(&mut self, kind: ResourceKind, natives: &Vec<u64>) -> (result: Result<
        Vec<ResourceId>,
        AshError,
    >)
        requires
            old(self).wf(),
        ensures
            final(self).wf(),
            forall|other: ResourceId| old(self)@.contains(other) ==> final(self)@.contains(other),
            match result {
                Ok(ids) => {
                    &&& old(self)@.next_id + natives@.len() <= u64::MAX
                    &&& final(self)@ == old(self)@.register_many(kind, natives@)
                    &&& final(self)@.next_id == old(self)@.next_id + natives@.len()
                    &&& final(self)@.records.len() == old(self)@.records.len() + natives@.len()
                    &&& ids@ == old(self)@.sequential_ids(natives@.len())
                    &&& forall|i: int| 0 <= i < ids@.len() ==> final(self)@.contains(#[trigger] ids@[i])
                },
                Err(error) => {
                    &&& error == AshError::RegistryExhausted
                    &&& old(self)@.next_id + natives@.len() > u64::MAX
                    &&& final(self)@ == old(self)@.register_many(
                        kind,
                        natives@.take(u64::MAX - old(self)@.next_id),
                    )
                },
            },
    {
        let ghost before = self@;
        let none: Vec<ResourceId> = Vec::new();
        let mut ids: Vec<ResourceId> = Vec::new();
        let mut i: usize = 0;
        assert(natives@.take(0) =~= Seq::<u64>::empty());
        while i < natives.len()
            invariant
                i <= natives@.len(),
                none@.len() == 0,
                before == old(self)@,
                self.wf(),
                before.next_id + i <= u64::MAX,
                self@.next_id == before.next_id + i,
                self@.records.len() == before.records.len() + i,
                self@ == before.register_many(kind, natives@.take(i as int)),
                ids@ == before.sequential_ids(i as nat),
                forall|j: int| 0 <= j < ids@.len() ==> self@.contains(#[trigger] ids@[j]),
                forall|other: ResourceId| before.contains(other) ==> self@.contains(other),
            decreases natives@.len() - i,
        {
            proof {
                let next = natives@.take(i + 1);
                assert(next.drop_last() =~= natives@.take(i as int));
                assert(next.last() == natives@[i as int]);
                assert(none@ =~= Seq::<ResourceId>::empty());
            }
            match self.register(kind, natives[i], &none) {
                Ok(id) => {
                    ids.push(id);
                    assert(ids@ =~= before.sequential_ids((i + 1) as nat));
                },
                Err(error) => {
                    assert(natives@.take(u64::MAX - before.next_id) =~= natives@.take(i as int));
                    return Err(error);
                },
            }
            i += 1;
        }
        assert(natives@.take(i as int) =~= natives@);
        Ok(ids)
    }

    /// Cleans up each of `ids` in turn and answers with the commands of the
    /// records that left. A cleanup that is refused does not stop the
    /// others: its error is added to `refused`, and the record stays.
    pub fn cleanup_each(&mut self, ids: &Vec<ResourceId>, refused: &mut Vec<AshError>) -> (commands:
        Vec<DestroyCommand>)
        requires
            old(self).wf(),
        ensures
            final(self).wf(),
            final(self)@ == old(self)@.remove_each(ids@),
            commands@ == old(self)@.commands_of_each(ids@),
            final(refused)@ == old(refused)@ + old(self)@.refusals_of_each(ids@),
            final(self)@.next_id == old(self)@.next_id,
    {
        let ghost before = self@;
        let mut commands: Vec<DestroyCommand> = Vec::new();
        let mut i: usize = 0;
        assert(ids@.take(0) =~= Seq::<ResourceId>::empty());
        assert(refused@ =~= old(refused)@ + before.refusals_of_each(ids@.take(0)));
        while i < ids.len()
            invariant
                i <= ids@.len(),
                before == old(self)@,
                self.wf(),
                self@ == before.remove_each(ids@.take(i as int)),
                commands@ == before.commands_of_each(ids@.take(i as int)),
                refused@ == old(refused)@ + before.refusals_of_each(ids@.take(i as int)),
                self@.next_id == before.next_id,
            decreases ids@.len() - i,
        {
            proof {
                let next = ids@.take(i + 1);
                assert(next.drop_last() =~= ids@.take(i as int));
                assert(next.last() == ids@[i as int]);
            }
            let ghost refused_before = refused@;
            match self.cleanup_resource(ids[i]) {
                Ok(command) => {
                    commands.push(command);
                },
                Err(error) => {
                    refused.push(error);
                    assert(refused@ =~= old(refused)@ + before.refusals_of_each(
                        ids@.take(i + 1),
                    ));
                },
            }
            i += 1;
        }
        assert(ids@.take(i as int) =~= ids@);
        commands
    }

    /// Drains the registry and answers with one destroy command per record,
    /// the last registered first, so that every object goes before the
    /// objects it depends on. Nothing can make a full cleanup fail.
    pub fn cleanup(&mut self) -> (plan: Vec<DestroyCommand>)
        requires
            old(self).wf(),
        ensures
            final(self).wf(),
            plan@ == old(self)@.destroy_plan(),
            final(self)@ == old(self)@.drained(),
    {
        let ghost before = self@;
        let mut plan: Vec<DestroyCommand> = Vec::new();
        while self.records.len() > 0
            invariant
                self.next_id == before.next_id,
                self.records@.len() <= before.records.len(),
                plan@.len() + self.records@.len() == before.records.len(),
                forall|i: int|
                    0 <= i < self.records@.len() ==> (#[trigger] self.records@[i])@
                        == before.records[i],
                forall|i: int|
                    0 <= i < plan@.len() ==> #[trigger] plan@[i] == before.destroy_plan()[i],
            decreases self.records@.len(),
        {
            let record = self.records.pop().unwrap();
            plan.push(DestroyCommand { id: record.id, kind: record.kind, native: record.native });
        }
        proof {
            assert(plan@ =~= before.destroy_plan());
            assert(self@.records =~= Seq::<RecordView>::empty());
        }
        plan
    }
}

impl RegistryView {
    /// In a well-formed registry a live identifier sits at exactly one place.
    pub proof fn lemma_position(self, id: ResourceId, i: int)
        requires
            self.wf(),
            0 <= i < self.records.len(),
            self.records[i].id == id,
        ensures
            self.contains(id),
            self.position(id) == i,
    {
        let p = self.position(id);
        if p < i {
            assert(self.records[p].id.0 < self.records[i].id.0);
        } else if i < p {
            assert(self.records[i].id.0 < self.records[p].id.0);
        }
    }

    /// A registration that names only live dependencies keeps the invariant.
    pub proof fn lemma_register_wf(
        self,
        kind: ResourceKind,
        native: u64,
        dependencies: Seq<ResourceId>,
    )
        requires
            self.wf(),
            self.knows_all(dependencies),
            self.next_id < u64::MAX,
        ensures
            self.register(kind, native, dependencies).wf(),
            !self.contains(ResourceId(self.next_id)),
    {
        let after = self.register(kind, native, dependencies);
        let n = self.records.len() as int;
        assert forall|i: int, k: int|
            0 <= i < after.records.len() && 0 <= k < after.records[i].dependencies.len() implies {
            &&& after.contains(#[trigger] after.records[i].dependencies[k])
            &&& after.records[i].dependencies[k].0 < after.records[i].id.0
        } by {
            let dependency = after.records[i].dependencies[k];
            if i < n {
                assert(after.records[i] == self.records[i]);
                assert(self.contains(self.records[i].dependencies[k]));
            } else {
                assert(dependency == dependencies[k]);
                assert(self.contains(dependencies[k]));
            }
            let p = self.position(dependency);
            assert(after.records[p] == self.records[p]);
            assert(self.records[p].id.0 < self.next_id);
        }
        assert forall|i: int, j: int| 0 <= i < j < after.records.len() implies (
        #[trigger] after.records[i]).id.0 < (#[trigger] after.records[j]).id.0 by {
            assert(after.records[i] == self.records[i]);
            if j < n {
                assert(after.records[j] == self.records[j]);
            }
        }
    }

    /// Taking out a record that nothing depends on keeps the invariant, and
    /// the identifier is no longer live afterwards.
    pub proof fn lemma_remove_wf(self, id: ResourceId)
        requires
            self.wf(),
            self.contains(id),
            !self.has_dependent(id),
        ensures
            self.remove(id).wf(),
            !self.remove(id).contains(id),
            forall|other: ResourceId|
                other != id ==> (self.remove(id).contains(other) <==> self.contains(other)),
    {
        let p = self.position(id);
        let after = self.remove(id);
        assert forall|i: int| 0 <= i < after.records.len() implies #[trigger] after.records[i]
            == self.records[if i < p {
            i
        } else {
            i + 1
        }] by {}
        assert forall|other: ResourceId| other != id && self.contains(other) implies after.contains(
            other,
        ) by {
            let q = self.position(other);
            if q < p {
                assert(after.records[q].id == other);
            } else {
                assert(after.records[q - 1].id == other);
            }
        }
        assert forall|other: ResourceId| after.contains(other) implies self.contains(other)
            && other != id by {
            let q = after.position(other);
            let source = if q < p {
                q
            } else {
                q + 1
            };
            assert(self.records[source].id == other);
            if other == id {
                self.lemma_position(id, source);
            }
        }
        assert forall|i: int, k: int|
            0 <= i < after.records.len() && 0 <= k < after.records[i].dependencies.len() implies {
            &&& after.contains(#[trigger] after.records[i].dependencies[k])
            &&& after.records[i].dependencies[k].0 < after.records[i].id.0
        } by {
            let source = if i < p {
                i
            } else {
                i + 1
            };
            let dependency = self.records[source].dependencies[k];
            assert(self.contains(dependency));
            assert(self.records[source].dependencies.contains(dependency));
            assert(dependency != id);
        }
        assert forall|i: int, j: int| 0 <= i < j < after.records.len() implies (
        #[trigger] after.records[i]).id.0 < (#[trigger] after.records[j]).id.0 by {
            let si = if i < p {
                i
            } else {
                i + 1
            };
            let sj = if j < p {
                j
            } else {
                j + 1
            };
            assert(self.records[si].id.0 < self.records[sj].id.0);
        }
    }
}

impl RegistryView {
    /// A full cleanup destroys every live record exactly once: the plan has
    /// one command per record, each command is the command of a live record,
    /// every live record has its command in the plan, and no identifier
    /// occurs at two places of the plan.
    pub proof fn law_cleanup_destroys_each_once(self)
        requires
            self.wf(),
        ensures
            self.destroy_plan().len() == self.records.len(),
            forall|i: int|
                0 <= i < self.destroy_plan().len() ==> self.contains(
                    (#[trigger] self.destroy_plan()[i]).id,
                ) && self.destroy_plan()[i] == self.records[self.position(
                    self.destroy_plan()[i].id,
                )].command(),
            forall|id: ResourceId|
                self.contains(id) ==> exists|i: int|
                    0 <= i < self.destroy_plan().len() && (#[trigger] self.destroy_plan()[i]).id
                        == id,
            forall|i: int, j: int|
                0 <= i < j < self.destroy_plan().len() ==> (#[trigger] self.destroy_plan()[i]).id
                    != (#[trigger] self.destroy_plan()[j]).id,
    {
        let plan = self.destroy_plan();
        let n = self.records.len() as int;
        assert forall|i: int| 0 <= i < plan.len() implies self.contains((#[trigger] plan[i]).id)
            && plan[i] == self.records[self.position(plan[i].id)].command() by {
            self.lemma_position(self.records[n - 1 - i].id, n - 1 - i);
        }
        assert forall|id: ResourceId| self.contains(id) implies exists|i: int|
            0 <= i < plan.len() && (#[trigger] plan[i]).id == id by {
            let p = self.position(id);
            assert(plan[n - 1 - p].id == id);
        }
        assert forall|i: int, j: int| 0 <= i < j < plan.len() implies (#[trigger] plan[i]).id != (
        #[trigger] plan[j]).id by {
            assert(self.records[n - 1 - j].id.0 < self.records[n - 1 - i].id.0);
        }
    }

    /// A full cleanup destroys dependents first: wherever the command at
    /// place `i` of the plan belongs to a record that depends on `id`, the
    /// command for `id` comes at a later place.
    pub proof fn law_cleanup_dependents_first(self, i: int, id: ResourceId)
        requires
            self.wf(),
            0 <= i < self.destroy_plan().len(),
            self.records[self.position(self.destroy_plan()[i].id)].dependencies.contains(id),
        ensures
            exists|j: int| i < j < self.destroy_plan().len() && self.destroy_plan()[j].id == id,
    {
        let plan = self.destroy_plan();
        let n = self.records.len() as int;
        let r = n - 1 - i;
        self.lemma_position(self.records[r].id, r);
        let k = choose|k: int|
            0 <= k < self.records[r].dependencies.len() && self.records[r].dependencies[k] == id;
        assert(self.contains(self.records[r].dependencies[k]));
        let p = self.position(id);
        if p >= r {
            if p > r {
                assert(self.records[r].id.0 < self.records[p].id.0);
            }
            assert(false);
        }
        assert(plan[n - 1 - p].id == id);
    }

    /// A cleanup that was refused because of a live dependent changes
    /// nothing: the record stays, and a later full cleanup still destroys it.
    pub proof fn law_refused_cleanup_keeps_resource(self, id: ResourceId)
        requires
            self.wf(),
            self.contains(id),
            self.has_dependent(id),
        ensures
            self.removal(id) == Err::<DestroyCommand, AshError>(AshError::ResourceInUse(id)),
            exists|i: int|
                0 <= i < self.destroy_plan().len() && (#[trigger] self.destroy_plan()[i]).id == id,
    {
        self.law_cleanup_destroys_each_once();
    }
}

} // verus!
