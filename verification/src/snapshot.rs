//! The state of the live particles as it stands before a tick, which is all
//! that a field's effect gets to see, and the computation of which particles
//! trigger a field.

use crate::error::SimulationError;
use crate::physical_quantities::{Components, Displacement, Mass, Ticks, Time, Velocity};
use crate::scalar::{float_le, float_sum, magnitude, Scalar};
use crate::simulation_objects::{field_views, FieldInfo, FieldInfoView, ParticleId};
use crate::utilities::{distance, is_within_radius, measure_distance, within_radius};
use vstd::prelude::*;

verus! {

/// One live particle in a [`Snapshot`].
pub struct ParticleRecord {
    id: ParticleId,
    mass: Mass,
    position: Displacement,
    velocity: Velocity,
    fields: Vec<FieldInfo>,
}

/// The contents of a [`ParticleRecord`].
pub struct RecordView {
    pub id: ParticleId,
    pub mass: u64,
    pub position: Components,
    pub velocity: Components,
    pub fields: Seq<FieldInfoView>,
}

impl View for ParticleRecord {
    type V = RecordView;

    closed spec fn view(&self) -> RecordView {
        RecordView {
            id: self.id,
            mass: self.mass@,
            position: self.position@,
            velocity: self.velocity@,
            fields: field_views(self.fields@),
        }
    }
}

impl ParticleRecord {
    pub(crate) fn new(
        id: ParticleId,
        mass: Mass,
        position: Displacement,
        velocity: Velocity,
        fields: Vec<FieldInfo>,
    ) -> (r: ParticleRecord)
        ensures
            r@ == (RecordView {
                id,
                mass: mass@,
                position: position@,
                velocity: velocity@,
                fields: field_views(fields@),
            }),
    {
        ParticleRecord { id, mass, position, velocity, fields }
    }
}

/// One particle that triggers a field.
pub struct TriggerEntry {
    particle_id: ParticleId,
    field_info: Vec<Option<FieldInfo>>,
}

/// The contents of a [`TriggerEntry`].
pub struct TriggerView {
    /// The particle that triggers.
    pub particle_id: ParticleId,
    /// `None` where the particle triggers by itself, as the owner or by its
    /// position, and the record of each of its fields that overlaps the
    /// triggered field, where that field reacts to fields.
    pub field_info: Seq<Option<FieldInfoView>>,
}

/// The views of optional field records, in order.
pub open spec fn optional_field_views(fields: Seq<Option<FieldInfo>>) -> Seq<Option<FieldInfoView>> {
    fields.map_values(
        |f: Option<FieldInfo>|
            match f {
                Some(info) => Some(info@),
                None => None,
            },
    )
}

/// The identifiers of the particles of a trigger set, in order.
pub open spec fn trigger_ids(triggers: Seq<TriggerView>) -> Seq<ParticleId> {
    triggers.map_values(|t: TriggerView| t.particle_id)
}

impl View for TriggerEntry {
    type V = TriggerView;

    closed spec fn view(&self) -> TriggerView {
        TriggerView {
            particle_id: self.particle_id,
            field_info: optional_field_views(self.field_info@),
        }
    }
}

/// The particles that trigger a field, in the order in which the snapshot
/// holds them, the owner first where the field affects it.
pub struct TriggerSet {
    entries: Vec<TriggerEntry>,
}

impl View for TriggerSet {
    type V = Seq<TriggerView>;

    closed spec fn view(&self) -> Seq<TriggerView> {
        self.entries@.map_values(|e: TriggerEntry| e@)
    }
}

impl TriggerSet {
    pub(crate) fn new() -> (r: TriggerSet)
        ensures
            r@ == Seq::<TriggerView>::empty(),
    {
        let r = TriggerSet { entries: Vec::new() };
        assert(r@ =~= Seq::<TriggerView>::empty());
        r
    }

    pub(crate) fn push(&mut self, particle_id: ParticleId, field_info: Vec<Option<FieldInfo>>)
        ensures
            final(self)@ == old(self)@.push(
                TriggerView { particle_id, field_info: optional_field_views(field_info@) },
            ),
    {
        self.entries.push(TriggerEntry { particle_id, field_info });
        assert(self@ =~= old(self)@.push(
            TriggerView { particle_id, field_info: optional_field_views(field_info@) },
        ));
    }

    pub fn len(&self) -> (r: usize)
        ensures
            r == self@.len(),
    {
        self.entries.len()
    }

    pub fn is_empty(&self) -> (r: bool)
        ensures
            r == (self@.len() == 0),
    {
        self.entries.len() == 0
    }

    /// The identifier of the `index`-th particle.
    pub fn get_particle_id(&self, index: usize) -> (r: ParticleId)
        requires
            index < self@.len(),
        ensures
            r == self@[index as int].particle_id,
    {
        self.entries[index].particle_id
    }

    /// What came with the `index`-th particle: `None` where it triggers by
    /// itself, and the records of its overlapping fields.
    pub fn get_field_info(&self, index: usize) -> (r: &Vec<Option<FieldInfo>>)
        requires
            index < self@.len(),
        ensures
            optional_field_views(r@) == self@[index as int].field_info,
    {
        &self.entries[index].field_info
    }

    /// Whether the particle is among those that triggered.
    pub fn contains(&self, particle_id: ParticleId) -> (r: bool)
        ensures
            r == trigger_ids(self@).contains(particle_id),
    {
        let mut i: usize = 0;
        while i < self.entries.len()
            invariant
                i <= self.entries@.len(),
                forall|k: int| 0 <= k < i ==> trigger_ids(self@)[k] != particle_id,
            decreases self.entries@.len() - i,
        {
            if self.entries[i].particle_id == particle_id {
                assert(trigger_ids(self@)[i as int] == particle_id);
                return true;
            }
            i = i + 1;
        }
        false
    }
}

/// The state of every live particle before a tick.
pub struct Snapshot {
    tick_duration: Time,
    elapsed_ticks: Ticks,
    particles: Vec<ParticleRecord>,
}

/// The contents of a [`Snapshot`].
pub struct SnapshotView {
    pub tick_duration: u64,
    pub elapsed_ticks: nat,
    pub particles: Seq<RecordView>,
}

impl SnapshotView {
    /// Whether a particle with this identifier is live.
    pub open spec fn contains(self, id: ParticleId) -> bool {
        exists|i: int| 0 <= i < self.particles.len() && (#[trigger] self.particles[i]).id == id
    }

    /// Where the particle with this identifier stands.
    pub open spec fn index_of(self, id: ParticleId) -> int {
        choose|i: int| 0 <= i < self.particles.len() && (#[trigger] self.particles[i]).id == id
    }

    /// The record of the particle with this identifier.
    pub open spec fn record(self, id: ParticleId) -> RecordView {
        self.particles[self.index_of(id)]
    }

    /// No two particles share an identifier.
    pub open spec fn distinct(self) -> bool {
        forall|i: int, j: int|
            0 <= i < self.particles.len() && 0 <= j < self.particles.len() && i != j ==> (
            #[trigger] self.particles[i]).id != (#[trigger] self.particles[j]).id
    }
}

/// In a snapshot without repeated identifiers, the particle at `index` is the
/// one found under its identifier.
pub proof fn lemma_index_of(snapshot: SnapshotView, index: int)
    requires
        snapshot.distinct(),
        0 <= index < snapshot.particles.len(),
    ensures
        snapshot.contains(snapshot.particles[index].id),
        snapshot.index_of(snapshot.particles[index].id) == index,
        snapshot.record(snapshot.particles[index].id) == snapshot.particles[index],
{
}

/// Whether `other` triggers a field of `owner` as another particle: it is not
/// the owner and lies within the field's radius of the owner, rim included.
pub open spec fn triggers_as_other(owner: RecordView, field: FieldInfoView, other: RecordView) -> bool {
    other.id != owner.id && within_radius(other.position, field.radius, owner.position, false)
}

/// Whether the disc of a field of radius `other_radius` around `other` meets
/// the disc of radius `radius` around `center`: the centres are no further
/// apart than the sum of the radii, the signs of which are ignored.
pub open spec fn discs_overlap(
    center: Components,
    radius: u64,
    other: Components,
    other_radius: u64,
) -> bool {
    float_le(distance(other, center), float_sum(magnitude(radius), magnitude(other_radius)))
}

/// The records among `fields`, the fields of a particle at `other`, of those
/// that overlap the field of radius `radius` around `center`, in order.
pub open spec fn overlapping_fields(
    center: Components,
    radius: u64,
    other: Components,
    fields: Seq<FieldInfoView>,
) -> Seq<Option<FieldInfoView>>
    decreases fields.len(),
{
    if fields.len() == 0 {
        Seq::empty()
    } else {
        let rest = overlapping_fields(center, radius, other, fields.drop_last());
        if discs_overlap(center, radius, other, fields.last().radius) {
            rest.push(Some(fields.last()))
        } else {
            rest
        }
    }
}

/// Whether a field marks the particles that trigger it by their position
/// with `None`: it does unless it reacts to fields alone.
pub open spec fn marks_position(field: FieldInfoView) -> bool {
    field.triggers_on_particles || !field.triggers_on_fields
}

/// The entry of the owner of a field that affects it.
pub open spec fn trigger_of_owner(owner: ParticleId) -> TriggerView {
    TriggerView { particle_id: owner, field_info: seq![None] }
}

/// The entry of another particle that triggers a field of `owner`: `None`
/// where the field marks positions, then, where the field reacts to fields,
/// the records of the particle's fields that overlap it.
pub open spec fn trigger_of_other(owner: RecordView, field: FieldInfoView, other: RecordView) -> TriggerView {
    let marker = if marks_position(field) {
        seq![None]
    } else {
        Seq::empty()
    };
    let overlapping = if field.triggers_on_fields {
        overlapping_fields(owner.position, field.radius, other.position, other.fields)
    } else {
        Seq::empty()
    };
    TriggerView { particle_id: other.id, field_info: marker + overlapping }
}

/// The entries of the particles among `particles` that trigger the field as
/// other particles, in order.
pub open spec fn others_triggering(
    particles: Seq<RecordView>,
    owner: RecordView,
    field: FieldInfoView,
) -> Seq<TriggerView>
    decreases particles.len(),
{
    if particles.len() == 0 {
        Seq::empty()
    } else {
        let rest = others_triggering(particles.drop_last(), owner, field);
        if triggers_as_other(owner, field, particles.last()) {
            rest.push(trigger_of_other(owner, field, particles.last()))
        } else {
            rest
        }
    }
}

/// The particles that trigger a field of the particle `owner`: the owner
/// itself if the field affects it, then, if the field affects others, every
/// other particle within the field's radius of the owner.
pub open spec fn triggered(snapshot: SnapshotView, owner: ParticleId, field: FieldInfoView) -> Seq<
    TriggerView,
> {
    let own = if field.affects_self {
        seq![trigger_of_owner(owner)]
    } else {
        Seq::empty()
    };
    let others = if field.affects_others {
        others_triggering(snapshot.particles, snapshot.record(owner), field)
    } else {
        Seq::empty()
    };
    own + others
}

/// The identifiers of the particles that trigger a field of `owner`.
pub open spec fn triggered_ids(snapshot: SnapshotView, owner: ParticleId, field: FieldInfoView) -> Seq<
    ParticleId,
> {
    trigger_ids(triggered(snapshot, owner, field))
}

impl View for Snapshot {
    type V = SnapshotView;

    closed spec fn view(&self) -> SnapshotView {
        SnapshotView {
            tick_duration: self.tick_duration@,
            elapsed_ticks: self.elapsed_ticks@,
            particles: self.particles@.map_values(|p: ParticleRecord| p@),
        }
    }
}

impl Snapshot {
    /// No two particles share an identifier.
    pub open spec fn wf(&self) -> bool {
        self@.distinct()
    }

    pub(crate) fn new(tick_duration: Time, elapsed_ticks: Ticks) -> (r: Snapshot)
        ensures
            r.wf(),
            r@ == (SnapshotView {
                tick_duration: tick_duration@,
                elapsed_ticks: elapsed_ticks@,
                particles: Seq::empty(),
            }),
    {
        let r = Snapshot { tick_duration, elapsed_ticks, particles: Vec::new() };
        assert(r@.particles =~= Seq::empty());
        r
    }

    pub(crate) fn push(&mut self, record: ParticleRecord)
        requires
            old(self).wf(),
            !old(self)@.contains(record@.id),
        ensures
            final(self).wf(),
            final(self)@ == (SnapshotView {
                particles: old(self)@.particles.push(record@),
                ..old(self)@
            }),
    {
        self.particles.push(record);
        assert(self@.particles =~= old(self)@.particles.push(record@));
    }

    /// Where the particle with this identifier stands, if it is live.
    fn find(&self, particle_id: ParticleId) -> (r: Option<usize>)
        ensures
            r is Some <==> self@.contains(particle_id),
            r matches Some(i) ==> i < self@.particles.len() && self@.particles[i as int].id
                == particle_id,
            self.wf() ==> (r matches Some(i) ==> i == self@.index_of(particle_id)),
    {
        let mut i: usize = 0;
        while i < self.particles.len()
            invariant
                i <= self.particles@.len(),
                forall|k: int| 0 <= k < i ==> (#[trigger] self@.particles[k]).id != particle_id,
            decreases self.particles@.len() - i,
        {
            if self.particles[i].id == particle_id {
                assert(self@.particles[i as int].id == particle_id);
                return Some(i);
            }
            i = i + 1;
        }
        None
    }

    /// The number of live particles.
    pub fn len(&self) -> (r: usize)
        ensures
            r == self@.particles.len(),
    {
        self.particles.len()
    }

    /// Whether a particle with this identifier is live.
    pub fn contains(&self, particle_id: ParticleId) -> (r: bool)
        ensures
            r == self@.contains(particle_id),
    {
        self.find(particle_id).is_some()
    }

    /// The identifier of the `index`-th live particle.
    pub fn get_id(&self, index: usize) -> (r: ParticleId)
        requires
            index < self@.particles.len(),
        ensures
            r == self@.particles[index as int].id,
    {
        self.particles[index].id
    }

    pub fn get_tick_duration(&self) -> (r: Time)
        ensures
            r@ == self@.tick_duration,
    {
        self.tick_duration
    }

    pub fn get_elapsed_ticks(&self) -> (r: Ticks)
        ensures
            r@ == self@.elapsed_ticks,
    {
        self.elapsed_ticks
    }

    /// The mass of a live particle.
    pub fn get_mass(&self, particle_id: ParticleId) -> (r: Result<Mass, SimulationError>)
        requires
            self.wf(),
        ensures
            r is Ok <==> self@.contains(particle_id),
            r matches Ok(m) ==> m@ == self@.record(particle_id).mass,
            r matches Err(e) ==> e == SimulationError::UnknownParticle(particle_id),
    {
        match self.find(particle_id) {
            Some(i) => Ok(self.particles[i].mass),
            None => Err(SimulationError::UnknownParticle(particle_id)),
        }
    }

    /// The position of a live particle.
    pub fn get_position(&self, particle_id: ParticleId) -> (r: Result<Displacement, SimulationError>)
        requires
            self.wf(),
        ensures
            r is Ok <==> self@.contains(particle_id),
            r matches Ok(p) ==> p@ == self@.record(particle_id).position,
            r matches Err(e) ==> e == SimulationError::UnknownParticle(particle_id),
    {
        match self.find(particle_id) {
            Some(i) => Ok(self.particles[i].position),
            None => Err(SimulationError::UnknownParticle(particle_id)),
        }
    }

    /// The velocity of a live particle.
    pub fn get_velocity(&self, particle_id: ParticleId) -> (r: Result<Velocity, SimulationError>)
        requires
            self.wf(),
        ensures
            r is Ok <==> self@.contains(particle_id),
            r matches Ok(v) ==> v@ == self@.record(particle_id).velocity,
            r matches Err(e) ==> e == SimulationError::UnknownParticle(particle_id),
    {
        match self.find(particle_id) {
            Some(i) => Ok(self.particles[i].velocity),
            None => Err(SimulationError::UnknownParticle(particle_id)),
        }
    }

    /// The records of the fields attached to a live particle, one per field.
    pub fn get_field_info(&self, particle_id: ParticleId) -> (r: Result<
        Vec<FieldInfo>,
        SimulationError,
    >)
        requires
            self.wf(),
        ensures
            r is Ok <==> self@.contains(particle_id),
            r matches Ok(infos) ==> field_views(infos@) == self@.record(particle_id).fields,
            r matches Err(e) ==> e == SimulationError::UnknownParticle(particle_id),
    {
        match self.find(particle_id) {
            Some(i) => {
                let fields = &self.particles[i].fields;
                let mut infos: Vec<FieldInfo> = Vec::new();
                let mut j: usize = 0;
                while j < fields.len()
                    invariant
                        j <= fields@.len(),
                        infos@.len() == j,
                        forall|k: int| 0 <= k < j ==> (#[trigger] infos@[k])@ == fields@[k]@,
                    decreases fields@.len() - j,
                {
                    infos.push(fields[j].clone());
                    j = j + 1;
                }
                assert(field_views(infos@) =~= field_views(fields@));
                Ok(infos)
            },
            None => Err(SimulationError::UnknownParticle(particle_id)),
        }
    }

    /// The record of the `field_index`-th field of the `index`-th particle.
    pub fn get_field(&self, index: usize, field_index: usize) -> (r: &FieldInfo)
        requires
            index < self@.particles.len(),
            field_index < self@.particles[index as int].fields.len(),
        ensures
            r@ == self@.particles[index as int].fields[field_index as int],
    {
        &self.particles[index].fields[field_index]
    }

    /// The records of the fields of the `index`-th particle that overlap the
    /// field of radius `radius` around `center`.
    fn overlapping(&self, index: usize, center: Displacement, radius: Scalar) -> (r: Vec<
        Option<FieldInfo>,
    >)
        requires
            index < self@.particles.len(),
        ensures
            optional_field_views(r@) == overlapping_fields(
                center@,
                radius@,
                self@.particles[index as int].position,
                self@.particles[index as int].fields,
            ),
    {
        let particle = &self.particles[index];
        let distance = measure_distance(particle.position, center);
        let mut found: Vec<Option<FieldInfo>> = Vec::new();
        let ghost fields = field_views(particle.fields@);
        let mut j: usize = 0;
        assert(optional_field_views(found@) =~= Seq::empty());
        while j < particle.fields.len()
            invariant
                j <= particle.fields@.len(),
                fields == field_views(particle.fields@),
                distance@ == crate::utilities::distance(particle.position@, center@),
                optional_field_views(found@) == overlapping_fields(
                    center@,
                    radius@,
                    particle.position@,
                    fields.subrange(0, j as int),
                ),
            decreases particle.fields@.len() - j,
        {
            let field = &particle.fields[j];
            proof {
                assert(fields.subrange(0, j + 1).drop_last() =~= fields.subrange(0, j as int));
                assert(fields.subrange(0, j + 1).last() == field@);
            }
            if distance.le(radius.abs().plus(field.get_radius().abs())) {
                let ghost before = found@;
                found.push(Some(field.clone()));
                assert(optional_field_views(found@) =~= optional_field_views(before).push(
                    Some(field@),
                ));
            }
            j = j + 1;
        }
        assert(fields.subrange(0, j as int) =~= fields);
        found
    }

    /// The particles that trigger a field of the live particle `owner`.
    pub fn trigger_set(&self, owner: ParticleId, field: &FieldInfo) -> (r: TriggerSet)
        requires
            self.wf(),
            self@.contains(owner),
        ensures
            r@ == triggered(self@, owner, field@),
            forall|i: int| 0 <= i < r@.len() ==> self@.contains((#[trigger] r@[i]).particle_id),
    {
        let mut set = TriggerSet::new();
        if field.get_affects_self() {
            let mut marker: Vec<Option<FieldInfo>> = Vec::new();
            marker.push(None);
            assert(optional_field_views(marker@) =~= seq![None]);
            set.push(owner, marker);
        }
        if field.get_affects_others() {
            let at = self.find(owner).unwrap();
            let center = self.particles[at].position;
            let radius = field.get_radius();
            let ghost own = set@;
            let ghost owner_record = self@.record(owner);
            let mut i: usize = 0;
            while i < self.particles.len()
                invariant
                    i <= self.particles@.len(),
                    owner_record == self@.record(owner),
                    owner_record.id == owner,
                    center@ == owner_record.position,
                    radius@ == field@.radius,
                    set@ == own + others_triggering(
                        self@.particles.subrange(0, i as int),
                        owner_record,
                        field@,
                    ),
                    forall|k: int|
                        0 <= k < set@.len() ==> self@.contains((#[trigger] set@[k]).particle_id),
                decreases self.particles@.len() - i,
            {
                let other = &self.particles[i];
                let ghost before = self@.particles.subrange(0, i as int);
                let ghost after = self@.particles.subrange(0, i + 1);
                assert(after.drop_last() =~= before);
                assert(after.last() == self@.particles[i as int]);
                if other.id != owner && is_within_radius(other.position, radius, center, false) {
                    let mut info: Vec<Option<FieldInfo>> = Vec::new();
                    if field.get_triggers_on_particles() || !field.get_triggers_on_fields() {
                        info.push(None);
                    }
                    let ghost marker = optional_field_views(info@);
                    assert(marker =~= if marks_position(field@) {
                        seq![None]
                    } else {
                        Seq::empty()
                    });
                    if field.get_triggers_on_fields() {
                        let mut overlapping = self.overlapping(i, center, radius);
                        let ghost more = optional_field_views(overlapping@);
                        info.append(&mut overlapping);
                        assert(optional_field_views(info@) =~= marker + more);
                    } else {
                        assert(optional_field_views(info@) =~= marker + Seq::empty());
                    }
                    set.push(other.id, info);
                    assert(self@.particles[i as int].id == other.id);
                }
                i = i + 1;
            }
            assert(self@.particles.subrange(0, i as int) =~= self@.particles);
        }
        set
    }
}

} // verus!
