//! Particles, the fields attached to them, and what a field may ask of the
//! simulation.

use crate::physical_quantities::{
    components_add, components_divide, components_scale, components_sub, components_zero,
    force_of, Acceleration, Components, Displacement, Force, Mass, Time, Velocity,
};
use crate::scalar::{
    binary64_div, binary64_sqrt, float_lt, float_product, float_sum, Scalar, HALF_BITS,
};
use crate::snapshot::{trigger_ids, Snapshot, SnapshotView, TriggerSet};
use uuid::Uuid;
use vstd::prelude::*;

verus! {

/// The identifier of a particle: 128 bits, drawn at random when the particle
/// is made.
#[derive(Clone, Copy, Debug, PartialEq, Eq, Hash, Structural)]
pub struct ParticleId(pub u128);

/// The version and variant bits that every random identifier carries.
pub open spec fn is_random_uuid(id: u128) -> bool {
    id & 0x0000_0000_0000_f000_c000_0000_0000_0000u128 == 0x0000_0000_0000_4000_8000_0000_0000_0000u128
}

/// Calls `Uuid::new_v4` and hands the identifier out as the 128-bit number
/// that `Uuid::as_u128` gives. The value is random; only its version and
/// variant bits are fixed.
#[verifier::external_body]
pub(crate) fn random_id() -> (r: u128)
    ensures
        is_random_uuid(r),
{
    Uuid::new_v4().as_u128()
}

/// What a field reports of itself: a read-only record.
#[derive(Debug)]
pub struct FieldInfo {
    radius: Scalar,
    affects_self: bool,
    affects_others: bool,
    triggers_on_fields: bool,
    triggers_on_particles: bool,
    name: String,
}

/// The contents of a [`FieldInfo`].
pub struct FieldInfoView {
    pub radius: u64,
    pub affects_self: bool,
    pub affects_others: bool,
    pub triggers_on_fields: bool,
    pub triggers_on_particles: bool,
    pub name: Seq<char>,
}

impl View for FieldInfo {
    type V = FieldInfoView;

    closed spec fn view(&self) -> FieldInfoView {
        FieldInfoView {
            radius: self.radius@,
            affects_self: self.affects_self,
            affects_others: self.affects_others,
            triggers_on_fields: self.triggers_on_fields,
            triggers_on_particles: self.triggers_on_particles,
            name: self.name@,
        }
    }
}

impl Clone for FieldInfo {
    fn clone(&self) -> (r: FieldInfo)
        ensures
            r@ == self@,
    {
        FieldInfo {
            radius: self.radius,
            affects_self: self.affects_self,
            affects_others: self.affects_others,
            triggers_on_fields: self.triggers_on_fields,
            triggers_on_particles: self.triggers_on_particles,
            name: self.name.clone(),
        }
    }
}

impl FieldInfo {
    pub fn new(
        radius: Scalar,
        affects_self: bool,
        affects_others: bool,
        triggers_on_fields: bool,
        triggers_on_particles: bool,
        name: String,
    ) -> (r: FieldInfo)
        ensures
            r@ == (FieldInfoView {
                radius: radius@,
                affects_self,
                affects_others,
                triggers_on_fields,
                triggers_on_particles,
                name: name@,
            }),
    {
        FieldInfo {
            radius,
            affects_self,
            affects_others,
            triggers_on_fields,
            triggers_on_particles,
            name,
        }
    }

    pub fn get_radius(&self) -> (r: Scalar)
        ensures
            r@ == self@.radius,
    {
        self.radius
    }

    pub fn get_affects_self(&self) -> (r: bool)
        ensures
            r == self@.affects_self,
    {
        self.affects_self
    }

    pub fn get_affects_others(&self) -> (r: bool)
        ensures
            r == self@.affects_others,
    {
        self.affects_others
    }

    pub fn get_triggers_on_fields(&self) -> (r: bool)
        ensures
            r == self@.triggers_on_fields,
    {
        self.triggers_on_fields
    }

    pub fn get_triggers_on_particles(&self) -> (r: bool)
        ensures
            r == self@.triggers_on_particles,
    {
        self.triggers_on_particles
    }

    pub fn get_name(&self) -> (r: &String)
        ensures
            r@ == self@.name,
    {
        &self.name
    }
}

/// The views of a sequence of field records, in order.
pub open spec fn field_views(fields: Seq<FieldInfo>) -> Seq<FieldInfoView> {
    fields.map_values(|f: FieldInfo| f@)
}

/// What a field's effect, or the per-tick callback, asks of the simulation.
/// Nothing happens at once: forces are applied, and particles leave and
/// arrive, when the tick is carried out.
pub enum Command<F> {
    /// Apply `force` to the live particle `particle_id` during this tick.
    ApplyForce { particle_id: ParticleId, force: Force },
    /// Add a particle at rest, with the given fields attached.
    CreateParticle { mass: Mass, position: Displacement, fields: Vec<F> },
    /// Remove the live particle `particle_id`.
    DeleteParticle { particle_id: ParticleId },
}

/// A behaviour attached to one particle, its owner. Once per tick, if any
/// particle triggers the field, the simulation calls `effect` with those
/// particles: the owner, if the field affects it, and, if the field affects
/// others, every other particle within the field's radius of the owner.
pub trait Field: Sized {
    /// What the field does this tick.
    ///
    /// `simulation` is the state of every live particle before the tick,
    /// `position` the owner's position in it, and `triggered_by` the particles
    /// that the field affects this tick, each of them live.
    fn effect(
        &self,
        simulation: &Snapshot,
        position: Displacement,
        triggered_by: &TriggerSet,
        field_owner_id: ParticleId,
    ) -> (commands: Vec<Command<Self>>)
        requires
            simulation.wf(),
            triggered_by@.len() > 0,
            simulation@.contains(field_owner_id),
            position@ == simulation@.record(field_owner_id).position,
            forall|i: int|
                0 <= i < triggered_by@.len() ==> simulation@.contains(
                    (#[trigger] triggered_by@[i]).particle_id,
                ),
    ;

    /// The radius within which other particles trigger the field.
    fn get_radius(&self) -> Scalar;

    /// Whether the field acts on its owner.
    fn affects_self(&self) -> bool;

    /// Whether the field acts on particles other than its owner.
    fn affects_others(&self) -> bool;

    /// Whether the field reacts to the fields of other particles: if so, each
    /// particle that triggers it comes with the records of those of its
    /// fields that overlap this one.
    fn triggers_on_fields(&self) -> bool;

    /// Whether the field reacts to other particles inside it: if so, each
    /// particle that triggers it comes with the marker `None`.
    fn triggers_on_particles(&self) -> bool;

    /// A name by which fields of one kind recognise each other.
    fn get_name(&self) -> &String;
}

/// A field that does nothing and reports what it was made with.
#[derive(Debug)]
pub struct DummyField {
    pub radius: Scalar,
    pub affects_self: bool,
    pub affects_others: bool,
    pub name: String,
}

impl Clone for DummyField {
    fn clone(&self) -> (r: DummyField)
        ensures
            r == *self,
    {
        DummyField {
            radius: self.radius,
            affects_self: self.affects_self,
            affects_others: self.affects_others,
            name: self.name.clone(),
        }
    }
}

impl Field for DummyField {
    fn effect(
        &self,
        simulation: &Snapshot,
        position: Displacement,
        triggered_by: &TriggerSet,
        field_owner_id: ParticleId,
    ) -> (commands: Vec<Command<DummyField>>)
        ensures
            commands@.len() == 0,
    {
        Vec::new()
    }

    fn get_radius(&self) -> (r: Scalar)
        ensures
            r == self.radius,
    {
        self.radius
    }

    fn affects_self(&self) -> (r: bool)
        ensures
            r == self.affects_self,
    {
        self.affects_self
    }

    fn affects_others(&self) -> (r: bool)
        ensures
            r == self.affects_others,
    {
        self.affects_others
    }

    fn triggers_on_fields(&self) -> (r: bool)
        ensures
            !r,
    {
        false
    }

    fn triggers_on_particles(&self) -> (r: bool)
        ensures
            !r,
    {
        false
    }

    fn get_name(&self) -> (r: &String)
        ensures
            r@ == self.name@,
    {
        &self.name
    }
}

/// Gravity on the owner alone: each tick the field pulls the particle it is
/// attached to with the force that gives it the configured acceleration.
pub struct SimpleSelfGravityField {
    acceleration: Acceleration,
    name: String,
}

impl SimpleSelfGravityField {
    /// The acceleration due to gravity.
    pub closed spec fn acceleration(&self) -> Components {
        self.acceleration@
    }

    /// The field's name.
    pub closed spec fn name(&self) -> Seq<char> {
        self.name@
    }

    /// A field with the given acceleration. The name defaults to
    /// "SimpleSelfGravityField".
    pub fn new(acceleration: Acceleration, name: Option<String>) -> (r: SimpleSelfGravityField)
        ensures
            r.acceleration() == acceleration@,
            r.name() == match name {
                Some(s) => s@,
                None => "SimpleSelfGravityField"@,
            },
    {
        let field_name = match name {
            Some(s) => s,
            None => String::from_str("SimpleSelfGravityField"),
        };
        SimpleSelfGravityField { acceleration, name: field_name }
    }
}

impl Field for SimpleSelfGravityField {
    /// Applies to every triggering particle its mass times the acceleration.
    fn effect(
        &self,
        simulation: &Snapshot,
        position: Displacement,
        triggered_by: &TriggerSet,
        field_owner_id: ParticleId,
    ) -> (commands: Vec<Command<SimpleSelfGravityField>>)
        ensures
            commands@.len() == triggered_by@.len(),
            forall|i: int|
                0 <= i < commands@.len() ==> #[trigger] commands@[i] == (Command::<
                    SimpleSelfGravityField,
                >::ApplyForce {
                    particle_id: triggered_by@[i].particle_id,
                    force: force_of(
                        components_scale(
                            self.acceleration(),
                            simulation@.record(triggered_by@[i].particle_id).mass,
                        ),
                    ),
                }),
    {
        let mut commands: Vec<Command<SimpleSelfGravityField>> = Vec::new();
        let mut i: usize = 0;
        while i < triggered_by.len()
            invariant
                i <= triggered_by@.len(),
                simulation.wf(),
                forall|k: int|
                    0 <= k < triggered_by@.len() ==> simulation@.contains(
                        (#[trigger] triggered_by@[k]).particle_id,
                    ),
                commands@.len() == i,
                forall|k: int|
                    0 <= k < i ==> #[trigger] commands@[k] == (Command::<
                        SimpleSelfGravityField,
                    >::ApplyForce {
                        particle_id: triggered_by@[k].particle_id,
                        force: force_of(
                            components_scale(
                                self.acceleration(),
                                simulation@.record(triggered_by@[k].particle_id).mass,
                            ),
                        ),
                    }),
            decreases triggered_by@.len() - i,
        {
            let id = triggered_by.get_particle_id(i);
            assert(simulation@.contains(triggered_by@[i as int].particle_id));
            if let Ok(mass) = simulation.get_mass(id) {
                let force = mass * self.acceleration;
                assert(force == force_of(force@));
                commands.push(Command::ApplyForce { particle_id: id, force });
            }
            i = i + 1;
        }
        commands
    }

    fn get_radius(&self) -> (r: Scalar)
        ensures
            r@ == 0,
    {
        Scalar::zero()
    }

    fn affects_self(&self) -> (r: bool)
        ensures
            r,
    {
        true
    }

    fn affects_others(&self) -> (r: bool)
        ensures
            !r,
    {
        false
    }

    fn triggers_on_fields(&self) -> (r: bool)
        ensures
            !r,
    {
        false
    }

    fn triggers_on_particles(&self) -> (r: bool)
        ensures
            !r,
    {
        false
    }

    fn get_name(&self) -> (r: &String)
        ensures
            r@ == self.name(),
    {
        &self.name
    }
}

/// The gravitational constant of the real world, 6.6743e-11.
pub const GRAVITATIONAL_CONSTANT_BITS: u64 = 0x3dd2_589e_ffed_8acc;

/// The square of the distance between two positions.
pub open spec fn distance_squared(a: Components, b: Components) -> u64 {
    let d = components_sub(a, b);
    float_sum(float_product(d.x, d.x), float_product(d.y, d.y))
}

/// The pull of an owner at `owner_position` on another particle: along the
/// unit vector from the other particle toward the owner, with the magnitude
/// G times the product of the masses over the square of the distance.
pub open spec fn gravitational_pull(
    gravitational_constant: u64,
    owner_mass: u64,
    other_mass: u64,
    owner_position: Components,
    other_position: Components,
) -> Components {
    let toward = components_sub(owner_position, other_position);
    let squared = distance_squared(owner_position, other_position);
    let unit = components_divide(toward, binary64_sqrt(squared));
    let magnitude = float_product(
        gravitational_constant,
        binary64_div(float_product(owner_mass, other_mass), squared),
    );
    components_scale(unit, magnitude)
}

/// The commands by which an owner pulls the particles `ids`: one force for
/// each particle at a distance greater than zero, in order.
pub open spec fn gravitation_commands(
    gravitational_constant: u64,
    simulation: SnapshotView,
    owner: ParticleId,
    ids: Seq<ParticleId>,
) -> Seq<Command<UniversalGravitationField>>
    decreases ids.len(),
{
    if ids.len() == 0 {
        Seq::empty()
    } else {
        let rest = gravitation_commands(gravitational_constant, simulation, owner, ids.drop_last());
        let id = ids.last();
        let here = simulation.record(owner);
        let there = simulation.record(id);
        if float_lt(0, distance_squared(here.position, there.position)) {
            rest.push(
                Command::ApplyForce {
                    particle_id: id,
                    force: force_of(
                        gravitational_pull(
                            gravitational_constant,
                            here.mass,
                            there.mass,
                            here.position,
                            there.position,
                        ),
                    ),
                },
            )
        } else {
            rest
        }
    }
}

/// Makes the owner pull every other particle within the field's radius, by
/// Newton's law of universal gravitation.
pub struct UniversalGravitationField {
    radius: Scalar,
    gravitational_constant: Scalar,
    name: String,
}

impl UniversalGravitationField {
    pub closed spec fn radius(&self) -> u64 {
        self.radius@
    }

    pub closed spec fn gravitational_constant(&self) -> u64 {
        self.gravitational_constant@
    }

    pub closed spec fn name(&self) -> Seq<char> {
        self.name@
    }

    /// A field of the given radius. The constant defaults to that of the real
    /// world, the name to "UniversalGravitationField".
    pub fn new(radius: Scalar, gravitational_constant: Option<Scalar>, name: Option<String>) -> (r:
        UniversalGravitationField)
        ensures
            r.radius() == radius@,
            r.gravitational_constant() == match gravitational_constant {
                Some(g) => g@,
                None => GRAVITATIONAL_CONSTANT_BITS,
            },
            r.name() == match name {
                Some(s) => s@,
                None => "UniversalGravitationField"@,
            },
    {
        let field_name = match name {
            Some(s) => s,
            None => String::from_str("UniversalGravitationField"),
        };
        let big_g = match gravitational_constant {
            Some(g) => g,
            None => Scalar::from_bits(GRAVITATIONAL_CONSTANT_BITS),
        };
        UniversalGravitationField { radius, gravitational_constant: big_g, name: field_name }
    }
}

impl Field for UniversalGravitationField {
    /// Pulls every triggering particle toward the owner. A particle at the
    /// owner's own position is not pulled this tick.
    fn effect(
        &self,
        simulation: &Snapshot,
        position: Displacement,
        triggered_by: &TriggerSet,
        field_owner_id: ParticleId,
    ) -> (commands: Vec<Command<UniversalGravitationField>>)
        ensures
            commands@ == gravitation_commands(
                self.gravitational_constant(),
                simulation@,
                field_owner_id,
                trigger_ids(triggered_by@),
            ),
    {
        let mut commands: Vec<Command<UniversalGravitationField>> = Vec::new();
        let mut i: usize = 0;
        while i < triggered_by.len()
            invariant
                i <= triggered_by@.len(),
                simulation.wf(),
                simulation@.contains(field_owner_id),
                position@ == simulation@.record(field_owner_id).position,
                forall|k: int|
                    0 <= k < triggered_by@.len() ==> simulation@.contains(
                        (#[trigger] triggered_by@[k]).particle_id,
                    ),
                commands@ == gravitation_commands(
                    self.gravitational_constant(),
                    simulation@,
                    field_owner_id,
                    trigger_ids(triggered_by@).subrange(0, i as int),
                ),
            decreases triggered_by@.len() - i,
        {
            let id = triggered_by.get_particle_id(i);
            assert(simulation@.contains(triggered_by@[i as int].particle_id));
            proof {
                let before = trigger_ids(triggered_by@).subrange(0, i as int);
                let after = trigger_ids(triggered_by@).subrange(0, i + 1);
                assert(after.drop_last() =~= before);
                assert(after.last() == id);
            }
            if let Ok(other_position) = simulation.get_position(id) {
                if let Ok(other_mass) = simulation.get_mass(id) {
                    if let Ok(owner_mass) = simulation.get_mass(field_owner_id) {
                        let toward = position - other_position;
                        let squared = toward.x() * toward.x() + toward.y() * toward.y();
                        if Scalar::zero().lt(squared) {
                            let distance = squared.sqrt();
                            let magnitude = self.gravitational_constant * ((owner_mass.get_number()
                                * other_mass.get_number()) / squared);
                            let force = Force::new(
                                (toward.x() / distance) * magnitude,
                                (toward.y() / distance) * magnitude,
                            );
                            assert(force == force_of(force@));
                            commands.push(Command::ApplyForce { particle_id: id, force });
                        }
                    }
                }
            }
            i = i + 1;
        }
        assert(trigger_ids(triggered_by@).subrange(0, i as int) =~= trigger_ids(triggered_by@));
        commands
    }

    fn get_radius(&self) -> (r: Scalar)
        ensures
            r@ == self.radius(),
    {
        self.radius
    }

    fn affects_self(&self) -> (r: bool)
        ensures
            !r,
    {
        false
    }

    fn affects_others(&self) -> (r: bool)
        ensures
            r,
    {
        true
    }

    fn triggers_on_fields(&self) -> (r: bool)
        ensures
            !r,
    {
        false
    }

    fn triggers_on_particles(&self) -> (r: bool)
        ensures
            r,
    {
        true
    }

    fn get_name(&self) -> (r: &String)
        ensures
            r@ == self.name(),
    {
        &self.name
    }
}

/// A field for particles that are to collide rather than pass through each
/// other. It reports its radius and name; its effect asks for nothing.
pub struct Collider {
    radius: Scalar,
    coefficient_of_restitution: Scalar,
    name: String,
}

impl Collider {
    pub closed spec fn radius(&self) -> u64 {
        self.radius@
    }

    pub closed spec fn coefficient_of_restitution(&self) -> u64 {
        self.coefficient_of_restitution@
    }

    pub closed spec fn name(&self) -> Seq<char> {
        self.name@
    }

    /// A collider of the given radius and bounciness. The name defaults to
    /// "Collider".
    pub fn new(radius: Scalar, coefficient_of_restitution: Scalar, name: Option<String>) -> (r:
        Collider)
        ensures
            r.radius() == radius@,
            r.coefficient_of_restitution() == coefficient_of_restitution@,
            r.name() == match name {
                Some(s) => s@,
                None => "Collider"@,
            },
    {
        let field_name = match name {
            Some(s) => s,
            None => String::from_str("Collider"),
        };
        Collider { radius, coefficient_of_restitution, name: field_name }
    }

    pub fn get_coefficient_of_restitution(&self) -> (r: Scalar)
        ensures
            r@ == self.coefficient_of_restitution(),
    {
        self.coefficient_of_restitution
    }
}

impl Field for Collider {
    fn effect(
        &self,
        simulation: &Snapshot,
        position: Displacement,
        triggered_by: &TriggerSet,
        field_owner_id: ParticleId,
    ) -> (commands: Vec<Command<Collider>>)
        ensures
            commands@.len() == 0,
    {
        Vec::new()
    }

    fn get_radius(&self) -> (r: Scalar)
        ensures
            r@ == self.radius(),
    {
        self.radius
    }

    fn affects_self(&self) -> (r: bool)
        ensures
            !r,
    {
        false
    }

    fn affects_others(&self) -> (r: bool)
        ensures
            r,
    {
        true
    }

    fn triggers_on_fields(&self) -> (r: bool)
        ensures
            r,
    {
        true
    }

    fn triggers_on_particles(&self) -> (r: bool)
        ensures
            !r,
    {
        false
    }

    fn get_name(&self) -> (r: &String)
        ensures
            r@ == self.name(),
    {
        &self.name
    }
}

/// A field that only shows a radius and a name, for others to react to. Its
/// effect asks for nothing.
pub struct MarkerField {
    radius: Scalar,
    name: String,
}

impl MarkerField {
    pub closed spec fn radius(&self) -> u64 {
        self.radius@
    }

    pub closed spec fn name(&self) -> Seq<char> {
        self.name@
    }

    pub fn new(radius: Scalar, name: String) -> (r: MarkerField)
        ensures
            r.radius() == radius@,
            r.name() == name@,
    {
        MarkerField { radius, name }
    }
}

impl Field for MarkerField {
    fn effect(
        &self,
        simulation: &Snapshot,
        position: Displacement,
        triggered_by: &TriggerSet,
        field_owner_id: ParticleId,
    ) -> (commands: Vec<Command<MarkerField>>)
        ensures
            commands@.len() == 0,
    {
        Vec::new()
    }

    fn get_radius(&self) -> (r: Scalar)
        ensures
            r@ == self.radius(),
    {
        self.radius
    }

    fn affects_self(&self) -> (r: bool)
        ensures
            !r,
    {
        false
    }

    fn affects_others(&self) -> (r: bool)
        ensures
            r,
    {
        true
    }

    fn triggers_on_fields(&self) -> (r: bool)
        ensures
            r,
    {
        true
    }

    fn triggers_on_particles(&self) -> (r: bool)
        ensures
            !r,
    {
        false
    }

    fn get_name(&self) -> (r: &String)
        ensures
            r@ == self.name(),
    {
        &self.name
    }
}

/// The sum of forces, taken from positive zero in the order given.
pub open spec fn net_force(forces: Seq<Components>) -> Components
    decreases forces.len(),
{
    if forces.len() == 0 {
        components_zero()
    } else {
        components_add(net_force(forces.drop_last()), forces.last())
    }
}

/// The views of a sequence of forces, in order.
pub open spec fn force_views(forces: Seq<Force>) -> Seq<Components> {
    forces.map_values(|f: Force| f@)
}

/// The velocity after one tick under the net force `net`: the old velocity
/// plus acceleration times the tick's duration.
pub open spec fn accelerated_velocity(velocity: Components, net: Components, mass: u64, time: u64) -> Components {
    components_add(velocity, components_scale(components_divide(net, mass), time))
}

/// The position after one tick under the net force `net`: the old position,
/// plus the old velocity times the duration, plus half the acceleration times
/// the duration squared.
pub open spec fn accelerated_position(
    position: Components,
    velocity: Components,
    net: Components,
    mass: u64,
    time: u64,
) -> Components {
    let acceleration = components_divide(net, mass);
    components_add(
        components_add(position, components_scale(velocity, time)),
        components_scale(components_scale(components_scale(acceleration, HALF_BITS), time), time),
    )
}

/// The position after one tick without force: the old position plus velocity
/// times the tick's duration.
pub open spec fn coasted_position(position: Components, velocity: Components, time: u64) -> Components {
    components_add(position, components_scale(velocity, time))
}

/// A point mass with the fields attached to it.
pub struct Particle<F> {
    mass: Mass,
    position: Displacement,
    velocity: Velocity,
    fields: Vec<F>,
    id: ParticleId,
}

/// The contents of a [`Particle`].
pub struct ParticleView<F> {
    pub id: ParticleId,
    pub mass: u64,
    pub position: Components,
    pub velocity: Components,
    pub fields: Seq<F>,
}

impl<F> ParticleView<F> {
    /// The particle after one tick under the given forces.
    pub open spec fn accelerated(self, forces: Seq<Components>, time: u64) -> ParticleView<F> {
        ParticleView {
            velocity: accelerated_velocity(self.velocity, net_force(forces), self.mass, time),
            position: accelerated_position(
                self.position,
                self.velocity,
                net_force(forces),
                self.mass,
                time,
            ),
            ..self
        }
    }

    /// The particle after one tick without force.
    pub open spec fn coasted(self, time: u64) -> ParticleView<F> {
        ParticleView { position: coasted_position(self.position, self.velocity, time), ..self }
    }
}

impl<F> View for Particle<F> {
    type V = ParticleView<F>;

    closed spec fn view(&self) -> ParticleView<F> {
        ParticleView {
            id: self.id,
            mass: self.mass@,
            position: self.position@,
            velocity: self.velocity@,
            fields: self.fields@,
        }
    }
}

impl<F> Particle<F> {
    /// A particle under a freshly drawn random identifier.
    pub fn new(mass: Mass, position: Displacement, velocity: Velocity, fields: Vec<F>) -> (r:
        Particle<F>)
        ensures
            r@.mass == mass@,
            r@.position == position@,
            r@.velocity == velocity@,
            r@.fields == fields@,
            is_random_uuid(r@.id.0),
    {
        Particle::with_id(ParticleId(random_id()), mass, position, velocity, fields)
    }

    /// A particle under the given identifier.
    pub fn with_id(
        id: ParticleId,
        mass: Mass,
        position: Displacement,
        velocity: Velocity,
        fields: Vec<F>,
    ) -> (r: Particle<F>)
        ensures
            r@ == (ParticleView {
                id,
                mass: mass@,
                position: position@,
                velocity: velocity@,
                fields: fields@,
            }),
    {
        Particle { mass, position, velocity, fields, id }
    }

    pub fn get_mass(&self) -> (r: Mass)
        ensures
            r@ == self@.mass,
    {
        self.mass
    }

    pub fn get_position(&self) -> (r: Displacement)
        ensures
            r@ == self@.position,
    {
        self.position
    }

    pub fn get_velocity(&self) -> (r: Velocity)
        ensures
            r@ == self@.velocity,
    {
        self.velocity
    }

    pub fn get_id(&self) -> (r: ParticleId)
        ensures
            r == self@.id,
    {
        self.id
    }

    pub(crate) fn get_fields(&self) -> (r: &Vec<F>)
        ensures
            r@ == self@.fields,
    {
        &self.fields
    }

    /// Moves the particle through one tick of duration `time` under the
    /// given forces.
    pub fn accelerate(&mut self, forces: &Vec<Force>, time: Time)
        ensures
            final(self)@ == old(self)@.accelerated(force_views(forces@), time@),
    {
        let v_0 = self.velocity;
        let mut x = Scalar::zero();
        let mut y = Scalar::zero();
        let mut i: usize = 0;
        while i < forces.len()
            invariant
                i <= forces@.len(),
                (Components { x: x@, y: y@ }) == net_force(
                    force_views(forces@).subrange(0, i as int),
                ),
            decreases forces@.len() - i,
        {
            proof {
                let before = force_views(forces@).subrange(0, i as int);
                let after = force_views(forces@).subrange(0, i + 1);
                assert(after.drop_last() =~= before);
                assert(after.last() == forces@[i as int]@);
            }
            x = x + forces[i].x();
            y = y + forces[i].y();
            i = i + 1;
        }
        assert(force_views(forces@).subrange(0, i as int) =~= force_views(forces@));
        let total_force = Force::new(x, y);
        let acceleration = total_force / self.mass;
        self.velocity = v_0 + acceleration * time;
        self.position = self.position + v_0 * time + Scalar::half() * acceleration * time * time;
    }

    /// Moves the particle through one tick of duration `time` at its
    /// velocity.
    pub fn coast(&mut self, time: Time)
        ensures
            final(self)@ == old(self)@.coasted(time@),
    {
        self.position = self.position + self.velocity * time;
    }
}

/// Whether `info` is what `field` reports of itself: each entry is a value
/// that the field's method of that name can return.
pub open spec fn reported_by<F: Field>(field: F, info: FieldInfoView) -> bool {
    &&& call_ensures(F::get_radius, (&field,), Scalar { bits: info.radius })
    &&& call_ensures(F::affects_self, (&field,), info.affects_self)
    &&& call_ensures(F::affects_others, (&field,), info.affects_others)
    &&& call_ensures(F::triggers_on_fields, (&field,), info.triggers_on_fields)
    &&& call_ensures(F::triggers_on_particles, (&field,), info.triggers_on_particles)
    &&& exists|name: String| #[trigger] call_ensures(F::get_name, (&field,), &name) && name@ == info.name
}

impl<F: Field> Particle<F> {
    /// What each attached field reports of itself, in order.
    pub fn get_field_info(&self) -> (r: Vec<FieldInfo>)
        ensures
            r@.len() == self@.fields.len(),
            forall|i: int|
                0 <= i < r@.len() ==> reported_by(self@.fields[i], (#[trigger] r@[i])@),
    {
        let mut field_info_vec: Vec<FieldInfo> = Vec::new();
        let mut i: usize = 0;
        while i < self.fields.len()
            invariant
                i <= self.fields@.len(),
                field_info_vec@.len() == i,
                forall|k: int|
                    0 <= k < i ==> reported_by(self@.fields[k], (#[trigger] field_info_vec@[k])@),
            decreases self.fields@.len() - i,
        {
            let field = &self.fields[i];
            let name = field.get_name();
            let field_info = FieldInfo::new(
                field.get_radius(),
                field.affects_self(),
                field.affects_others(),
                field.triggers_on_fields(),
                field.triggers_on_particles(),
                name.clone(),
            );
            assert(call_ensures(F::get_name, (field,), name) && name@ == field_info@.name);
            assert(reported_by(self@.fields[i as int], field_info@));
            field_info_vec.push(field_info);
            i = i + 1;
        }
        field_info_vec
    }
}

} // verus!
