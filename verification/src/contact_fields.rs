//! Fields by which particles act on what comes close: a floor or wall that
//! pushes strangers away, and a field whose bearers stick to each other.

use crate::physical_quantities::{
    components_scale, components_sub, force_of, Acceleration, Components, Displacement, Force,
    Velocity,
};
use crate::scalar::{binary64_div, Scalar, HALF_BITS, ONE_BITS};
use crate::simulation_objects::{field_views, Command, Field, FieldInfo, FieldInfoView, ParticleId};
use crate::snapshot::{
    optional_field_views, trigger_ids, Snapshot, SnapshotView, TriggerSet, TriggerView,
};
use vstd::prelude::*;

verus! {

/// Whether one of the fields bears the name.
pub open spec fn has_field_named(fields: Seq<FieldInfoView>, name: Seq<char>) -> bool {
    exists|i: int| 0 <= i < fields.len() && (#[trigger] fields[i]).name == name
}

/// The commands by which a floor pushes the particles `ids`: its force on
/// each particle that has no field of the floor's name, in order.
pub open spec fn floor_commands(
    force: Force,
    name: Seq<char>,
    simulation: SnapshotView,
    ids: Seq<ParticleId>,
) -> Seq<Command<FloorAndWallField>>
    decreases ids.len(),
{
    if ids.len() == 0 {
        Seq::empty()
    } else {
        let rest = floor_commands(force, name, simulation, ids.drop_last());
        if has_field_named(simulation.record(ids.last()).fields, name) {
            rest
        } else {
            rest.push(Command::ApplyForce { particle_id: ids.last(), force })
        }
    }
}

/// A floor or wall: it applies a fixed force to every particle within its
/// radius that is not part of the same floor, which is to say has no field of
/// the same name.
pub struct FloorAndWallField {
    force: Force,
    radius: Scalar,
    name: String,
}

impl FloorAndWallField {
    pub closed spec fn force(&self) -> Force {
        self.force
    }

    pub closed spec fn radius(&self) -> u64 {
        self.radius@
    }

    pub closed spec fn name(&self) -> Seq<char> {
        self.name@
    }

    pub fn new(force: Force, radius: Scalar, name: String) -> (r: FloorAndWallField)
        ensures
            r.force() == force,
            r.radius() == radius@,
            r.name() == name@,
    {
        FloorAndWallField { force, radius, name }
    }
}

/// Whether one of the fields bears the name.
fn any_field_named(fields: &Vec<FieldInfo>, name: &String) -> (r: bool)
    ensures
        r == has_field_named(field_views(fields@), name@),
{
    let mut i: usize = 0;
    while i < fields.len()
        invariant
            i <= fields@.len(),
            forall|k: int| 0 <= k < i ==> (#[trigger] field_views(fields@)[k]).name != name@,
        decreases fields@.len() - i,
    {
        if fields[i].get_name().eq(name) {
            assert(field_views(fields@)[i as int].name == name@);
            return true;
        }
        i = i + 1;
    }
    false
}

impl Field for FloorAndWallField {
    /// Pushes every triggering particle that is not part of the floor.
    fn effect(
        &self,
        simulation: &Snapshot,
        position: Displacement,
        triggered_by: &TriggerSet,
        field_owner_id: ParticleId,
    ) -> (commands: Vec<Command<FloorAndWallField>>)
        ensures
            commands@ == floor_commands(
                self.force(),
                self.name(),
                simulation@,
                trigger_ids(triggered_by@),
            ),
    {
        let mut commands: Vec<Command<FloorAndWallField>> = Vec::new();
        let mut i: usize = 0;
        while i < triggered_by.len()
            invariant
                i <= triggered_by@.len(),
                simulation.wf(),
                forall|k: int|
                    0 <= k < triggered_by@.len() ==> simulation@.contains(
                        (#[trigger] triggered_by@[k]).particle_id,
                    ),
                commands@ == floor_commands(
                    self.force(),
                    self.name(),
                    simulation@,
                    trigger_ids(triggered_by@).subrange(0, i as int),
                ),
            decreases triggered_by@.len() - i,
        {
            let id = triggered_by.get_particle_id(i);
            assert(simulation@.contains(triggered_by@[i as int].particle_id));
            proof {
                let before = trigger_ids(triggered_by@).subrange(0, i as int);
                let after = trigger_ids(triggered_by@).subrange(0, i + 1);
                assert(after.drop_last() =~= before);
                assert(after.last() == id);
            }
            if let Ok(info) = simulation.get_field_info(id) {
                if !any_field_named(&info, &self.name) {
                    commands.push(Command::ApplyForce { particle_id: id, force: self.force });
                }
            }
            i = i + 1;
        }
        assert(trigger_ids(triggered_by@).subrange(0, i as int) =~= trigger_ids(triggered_by@));
        commands
    }

    fn get_radius(&self) -> (r: Scalar)
        ensures
            r@ == self.radius(),
    {
        self.radius
    }

    fn affects_self(&self) -> (r: bool)
        ensures
            !r,
    {
        false
    }

    fn affects_others(&self) -> (r: bool)
        ensures
            r,
    {
        true
    }

    fn triggers_on_fields(&self) -> (r: bool)
        ensures
            r,
    {
        true
    }

    fn triggers_on_particles(&self) -> (r: bool)
        ensures
            !r,
    {
        false
    }

    fn get_name(&self) -> (r: &String)
        ensures
            r@ == self.name(),
    {
        &self.name
    }
}

/// The force with which a sticky particle holds on to another: the other's
/// mass times the acceleration that takes up, within one tick, half the
/// difference of the two velocities.
pub open spec fn sticking_force(
    owner_velocity: Components,
    other_velocity: Components,
    other_mass: u64,
    tick_duration: u64,
) -> Components {
    let difference = components_sub(owner_velocity, other_velocity);
    let change = components_scale(difference, HALF_BITS);
    let acceleration = components_scale(change, binary64_div(ONE_BITS, tick_duration));
    components_scale(acceleration, other_mass)
}

/// The command for every record among `fields` that bears the name, each the
/// same.
pub open spec fn command_per_field_named(
    fields: Seq<Option<FieldInfoView>>,
    name: Seq<char>,
    command: Command<StickyField>,
) -> Seq<Command<StickyField>>
    decreases fields.len(),
{
    if fields.len() == 0 {
        Seq::empty()
    } else {
        let rest = command_per_field_named(fields.drop_last(), name, command);
        match fields.last() {
            Some(info) => if info.name == name {
                rest.push(command)
            } else {
                rest
            },
            None => rest,
        }
    }
}

/// The commands by which a sticky particle holds on to the particles that
/// trigger its field: for each of them, in order, the sticking force once for
/// every overlapping field of the sticky field's name.
pub open spec fn sticky_commands(
    name: Seq<char>,
    simulation: SnapshotView,
    owner: ParticleId,
    triggers: Seq<TriggerView>,
) -> Seq<Command<StickyField>>
    decreases triggers.len(),
{
    if triggers.len() == 0 {
        Seq::empty()
    } else {
        let rest = sticky_commands(name, simulation, owner, triggers.drop_last());
        let other = triggers.last().particle_id;
        rest + command_per_field_named(
            triggers.last().field_info,
            name,
            Command::ApplyForce {
                particle_id: other,
                force: force_of(
                    sticking_force(
                        simulation.record(owner).velocity,
                        simulation.record(other).velocity,
                        simulation.record(other).mass,
                        simulation.tick_duration,
                    ),
                ),
            },
        )
    }
}

/// A field whose bearers stick to each other: a particle with this field
/// pulls every particle within its radius that has an overlapping field of
/// the same name toward its own velocity.
pub struct StickyField {
    radius: Scalar,
    name: String,
}

impl StickyField {
    pub closed spec fn radius(&self) -> u64 {
        self.radius@
    }

    pub closed spec fn name(&self) -> Seq<char> {
        self.name@
    }

    pub fn new(radius: Scalar, name: String) -> (r: StickyField)
        ensures
            r.radius() == radius@,
            r.name() == name@,
    {
        StickyField { radius, name }
    }
}

impl Field for StickyField {
    /// Holds on to every triggering particle that bears an overlapping field
    /// of this field's name.
    fn effect(
        &self,
        simulation: &Snapshot,
        position: Displacement,
        triggered_by: &TriggerSet,
        field_owner_id: ParticleId,
    ) -> (commands: Vec<Command<StickyField>>)
        ensures
            commands@ == sticky_commands(self.name(), simulation@, field_owner_id, triggered_by@),
    {
        let mut commands: Vec<Command<StickyField>> = Vec::new();
        let mut i: usize = 0;
        while i < triggered_by.len()
            invariant
                i <= triggered_by@.len(),
                simulation.wf(),
                simulation@.contains(field_owner_id),
                forall|k: int|
                    0 <= k < triggered_by@.len() ==> simulation@.contains(
                        (#[trigger] triggered_by@[k]).particle_id,
                    ),
                commands@ == sticky_commands(
                    self.name(),
                    simulation@,
                    field_owner_id,
                    triggered_by@.subrange(0, i as int),
                ),
            decreases triggered_by@.len() - i,
        {
            let particle_id = triggered_by.get_particle_id(i);
            let field_info_vec = triggered_by.get_field_info(i);
            assert(simulation@.contains(triggered_by@[i as int].particle_id));
            let ghost fields = optional_field_views(field_info_vec@);
            let ghost command = Command::<StickyField>::ApplyForce {
                particle_id,
                force: force_of(
                    sticking_force(
                        simulation@.record(field_owner_id).velocity,
                        simulation@.record(particle_id).velocity,
                        simulation@.record(particle_id).mass,
                        simulation@.tick_duration,
                    ),
                ),
            };
            let ghost base = commands@;
            proof {
                let before = triggered_by@.subrange(0, i as int);
                let after = triggered_by@.subrange(0, i + 1);
                assert(after.drop_last() =~= before);
                assert(after.last() == triggered_by@[i as int]);
                assert(commands@ =~= base + command_per_field_named(
                    fields.subrange(0, 0),
                    self.name(),
                    command,
                ));
            }
            let mut j: usize = 0;
            while j < field_info_vec.len()
                invariant
                    j <= field_info_vec@.len(),
                    simulation.wf(),
                    simulation@.contains(field_owner_id),
                    simulation@.contains(particle_id),
                    fields == optional_field_views(field_info_vec@),
                    command == (Command::<StickyField>::ApplyForce {
                        particle_id,
                        force: force_of(
                            sticking_force(
                                simulation@.record(field_owner_id).velocity,
                                simulation@.record(particle_id).velocity,
                                simulation@.record(particle_id).mass,
                                simulation@.tick_duration,
                            ),
                        ),
                    }),
                    commands@ == base + command_per_field_named(
                        fields.subrange(0, j as int),
                        self.name(),
                        command,
                    ),
                decreases field_info_vec@.len() - j,
            {
                proof {
                    assert(fields.subrange(0, j + 1).drop_last() =~= fields.subrange(0, j as int));
                    assert(fields.subrange(0, j + 1).last() == fields[j as int]);
                }
                let ghost so_far = command_per_field_named(
                    fields.subrange(0, j as int),
                    self.name(),
                    command,
                );
                if let Some(info) = &field_info_vec[j] {
                    if info.get_name().eq(&self.name) {
                        if let Ok(my_velocity) = simulation.get_velocity(field_owner_id) {
                            if let Ok(other_velocity) = simulation.get_velocity(particle_id) {
                                if let Ok(other_mass) = simulation.get_mass(particle_id) {
                                    let double_velocity = Velocity::new(
                                        my_velocity.x() - other_velocity.x(),
                                        my_velocity.y() - other_velocity.y(),
                                    );
                                    let other_delta_velocity = Velocity::new(
                                        double_velocity.x() * Scalar::half(),
                                        double_velocity.y() * Scalar::half(),
                                    );
                                    let one_over_time = Scalar::one()
                                        / simulation.get_tick_duration().get_number();
                                    let other_acceleration = Acceleration::new(
                                        other_delta_velocity.x() * one_over_time,
                                        other_delta_velocity.y() * one_over_time,
                                    );
                                    let force = other_mass * other_acceleration;
                                    assert(force == force_of(force@));
                                    commands.push(Command::ApplyForce { particle_id, force });
                                    assert(commands@ =~= base + so_far.push(command));
                                }
                            }
                        }
                    }
                }
                j = j + 1;
            }
            proof {
                assert(fields.subrange(0, j as int) =~= fields);
            }
            i = i + 1;
        }
        assert(triggered_by@.subrange(0, i as int) =~= triggered_by@);
        commands
    }

    fn get_radius(&self) -> (r: Scalar)
        ensures
            r@ == self.radius(),
    {
        self.radius
    }

    fn affects_self(&self) -> (r: bool)
        ensures
            !r,
    {
        false
    }

    fn affects_others(&self) -> (r: bool)
        ensures
            r,
    {
        true
    }

    fn triggers_on_fields(&self) -> (r: bool)
        ensures
            r,
    {
        true
    }

    fn triggers_on_particles(&self) -> (r: bool)
        ensures
            !r,
    {
        false
    }

    fn get_name(&self) -> (r: &String)
        ensures
            r@ == self.name(),
    {
        &self.name
    }
}

} // verus!
