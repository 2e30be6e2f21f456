//! What holds of the simulation whatever its state: the laws that relate
//! several operations, each stated over the views and spec functions of the
//! operations' own contracts.

use crate::physical_quantities::{
    components_add, components_divide, components_eq, components_scale, components_zero,
    displacement_of, force_of, Components,
};
use crate::scalar::{float_le, float_lt, is_finite, is_nan, regular, HALF_BITS};
use crate::simulation::{
    field_asks, fresh_slot, integrated, lemma_survivors, particle_asks, particles_ask, pictures,
    staged_after, staged_all, stepped, survivors, tick_asks, NoCallback, Simulation,
    SimulationView, SlotView,
};
use crate::simulation_objects::{
    accelerated_position, accelerated_velocity, coasted_position, distance_squared,
    gravitation_commands, gravitational_pull, net_force, reported_by, Command, Field,
    FieldInfoView, ParticleId, ParticleView, SimpleSelfGravityField, UniversalGravitationField,
};
use crate::snapshot::{
    others_triggering, trigger_ids, trigger_of_other, trigger_of_owner, triggered, triggered_ids,
    triggers_as_other, RecordView, Snapshot, SnapshotView, TriggerSet, TriggerView,
};
use crate::utilities::within_radius;
use vstd::prelude::*;

verus! {

/// Every accepted step counts one tick and leaves the tick duration alone:
/// along any run of steps, whatever is staged in between, the last state has
/// as many ticks more than the first as there were steps.
pub proof fn lemma_steps_count_ticks<F>(states: Seq<SimulationView<F>>)
    requires
        states.len() > 0,
        forall|i: int| 0 <= i < states.len() - 1 ==> stepped(#[trigger] states[i], states[i + 1]),
    ensures
        states.last().elapsed_ticks == states[0].elapsed_ticks + (states.len() - 1),
        states.last().tick_duration == states[0].tick_duration,
    decreases states.len(),
{
    if states.len() > 1 {
        let front = states.drop_last();
        assert forall|i: int| 0 <= i < front.len() - 1 implies stepped(
            #[trigger] front[i],
            front[i + 1],
        ) by {
            assert(stepped(states[i], states[i + 1]));
        }
        lemma_steps_count_ticks(front);
        let i = states.len() - 2;
        assert(stepped(states[i], states[i + 1]));
    }
}

/// A paused simulation accepts a step, a started one refuses it, and one
/// paused again accepts it again.
pub proof fn lemma_pause_gates_step<F>(state: SimulationView<F>)
    requires
        state.paused,
    ensures
        state.accepts_step(),
        !state.started().accepts_step(),
        state.started().halted().accepts_step(),
{
}

/// A particle that waits to become live is not live, and is live after the
/// next step.
pub proof fn lemma_staged_particle_arrives<F>(
    before: SimulationView<F>,
    after: SimulationView<F>,
    id: ParticleId,
)
    requires
        before.wf(),
        stepped(before, after),
        before.is_staged(id),
    ensures
        !before.is_live(id),
        after.is_live(id),
{
    let staged = choose|staged: SimulationView<F>|
        staged.wf() && #[trigger] staged_after(before, staged) && after == staged.tick();
    let j = choose|j: int| 0 <= j < before.staged.len() && (#[trigger] before.staged[j]).id == id;
    assert(staged.staged[j] == before.staged[j]);
    let kept = survivors(staged.live, staged.tick_duration);
    assert(after.live[kept.len() + j] == fresh_slot(staged.staged[j]));
}

/// A particle staged for removal is still live, and is not live after the
/// next step.
pub proof fn lemma_doomed_particle_leaves<F>(
    before: SimulationView<F>,
    after: SimulationView<F>,
    id: ParticleId,
)
    requires
        before.wf(),
        stepped(before, after),
        before.is_doomed(id),
    ensures
        before.is_live(id),
        !after.is_live(id),
{
    let staged = choose|staged: SimulationView<F>|
        staged.wf() && #[trigger] staged_after(before, staged) && after == staged.tick();
    let at = before.live_index(id);
    assert(staged.live[at].particle == before.live[at].particle);
    let kept = survivors(staged.live, staged.tick_duration);
    lemma_survivors(staged.live, staged.tick_duration);
    if after.is_live(id) {
        let k = choose|k: int| 0 <= k < after.live.len() && (#[trigger] after.live[k]).particle.id == id;
        if k < kept.len() {
            assert(after.live[k] == kept[k]);
            let source = choose|source: int|
                0 <= source < staged.live.len() && !(#[trigger] staged.live[source]).doomed
                    && kept[k] == integrated(staged.live[source], staged.tick_duration);
            assert(staged.live[source].particle.id == id);
            assert(source == at);
        } else {
            assert(after.live[k] == fresh_slot(staged.staged[k - kept.len()]));
            assert(staged.staged[k - kept.len()].id == staged.live[at].particle.id);
        }
    }
}

/// A live particle that is not staged for removal when the tick is carried
/// out is live after it, moved under the forces staged for it, or at its
/// velocity if there are none.
pub proof fn lemma_tick_moves_particle<F>(state: SimulationView<F>, id: ParticleId)
    requires
        state.wf(),
        state.elapsed_ticks < u64::MAX,
        state.is_live(id),
        !state.is_doomed(id),
    ensures
        state.tick().is_live(id),
        state.tick().particle(id) == integrated(
            state.live[state.live_index(id)],
            state.tick_duration,
        ).particle,
{
    let at = state.live_index(id);
    let kept = survivors(state.live, state.tick_duration);
    lemma_survivors(state.live, state.tick_duration);
    crate::simulation::lemma_tick_wf(state);
    let j = choose|j: int|
        0 <= j < kept.len() && #[trigger] kept[j] == integrated(state.live[at], state.tick_duration);
    let after = state.tick();
    assert(after.live[j] == kept[j]);
    assert(after.live[j].particle.id == id);
    let found = after.live_index(id);
    assert(found == j);
}

/// Half the acceleration that `force` gives to `mass`, times the square of
/// `time`: the displacement from rest during one tick, multiplied out from
/// the left.
pub open spec fn displacement_from_rest(force: Components, mass: u64, time: u64) -> Components {
    components_scale(
        components_scale(components_scale(components_divide(force, mass), HALF_BITS), time),
        time,
    )
}

/// The velocity that `force` gives to `mass` from rest in one tick.
pub open spec fn velocity_from_rest(force: Components, mass: u64, time: u64) -> Components {
    components_scale(components_divide(force, mass), time)
}

/// Neither component is a NaN or negative zero.
pub open spec fn regular_vector(v: Components) -> bool {
    regular(v.x) && regular(v.y)
}

/// Neither component is a NaN.
pub open spec fn no_nan(v: Components) -> bool {
    !is_nan(v.x) && !is_nan(v.y)
}

/// A particle at rest at the origin, under a single force for one tick of a
/// finite duration greater than zero, is displaced by half the acceleration
/// times the square of the duration, and gains the velocity acceleration
/// times duration, wherever those are numbers. The duration is any: the
/// formula is the same for every tick size.
pub proof fn lemma_single_force_from_rest(force: Components, mass: u64, time: u64)
    requires
        regular_vector(force),
        is_finite(time),
        !float_le(time, 0),
    ensures
        net_force(seq![force]) == force,
        no_nan(displacement_from_rest(force, mass, time)) ==> components_eq(
            accelerated_position(
                components_zero(),
                components_zero(),
                net_force(seq![force]),
                mass,
                time,
            ),
            displacement_from_rest(force, mass, time),
        ),
        no_nan(velocity_from_rest(force, mass, time)) ==> components_eq(
            accelerated_velocity(components_zero(), net_force(seq![force]), mass, time),
            velocity_from_rest(force, mass, time),
        ),
{
    let forces = seq![force];
    assert(forces.drop_last() =~= Seq::<Components>::empty());
    assert(net_force(forces.drop_last()) == components_zero());
    assert(forces.last() == force);
    assert(net_force(forces) == components_add(components_zero(), force));
}

/// A particle that coasts for one tick at the velocity gained from rest
/// under `force` is displaced by that velocity times the duration, wherever
/// that velocity is neither a NaN nor negative zero.
pub proof fn lemma_coast_after_single_force(
    position: Components,
    force: Components,
    mass: u64,
    time: u64,
)
    requires
        regular_vector(force),
    ensures
        regular_vector(velocity_from_rest(force, mass, time)) ==> coasted_position(
            position,
            accelerated_velocity(components_zero(), net_force(seq![force]), mass, time),
            time,
        ) == components_add(
            position,
            components_scale(velocity_from_rest(force, mass, time), time),
        ),
{
    let forces = seq![force];
    assert(forces.drop_last() =~= Seq::<Components>::empty());
    assert(net_force(forces.drop_last()) == components_zero());
    assert(forces.last() == force);
}

/// The same single force on the same mass follows the same formula under two
/// tick durations, each with its own duration.
pub proof fn lemma_single_force_under_two_tick_durations(
    force: Components,
    mass: u64,
    time_a: u64,
    time_b: u64,
)
    requires
        regular_vector(force),
        is_finite(time_a),
        !float_le(time_a, 0),
        is_finite(time_b),
        !float_le(time_b, 0),
    ensures
        no_nan(displacement_from_rest(force, mass, time_a)) ==> components_eq(
            accelerated_position(
                components_zero(),
                components_zero(),
                net_force(seq![force]),
                mass,
                time_a,
            ),
            displacement_from_rest(force, mass, time_a),
        ),
        no_nan(displacement_from_rest(force, mass, time_b)) ==> components_eq(
            accelerated_position(
                components_zero(),
                components_zero(),
                net_force(seq![force]),
                mass,
                time_b,
            ),
            displacement_from_rest(force, mass, time_b),
        ),
{
    lemma_single_force_from_rest(force, mass, time_a);
    lemma_single_force_from_rest(force, mass, time_b);
}

/// The vector sum of forces as a caller adds them up: the first, plus the
/// second, and so on.
pub open spec fn vector_sum(forces: Seq<Components>) -> Components
    recommends
        forces.len() > 0,
    decreases forces.len(),
{
    if forces.len() <= 1 {
        forces[0]
    } else {
        components_add(vector_sum(forces.drop_last()), forces.last())
    }
}

/// Whether a sum taken from zero and the same sum taken from the first
/// summand agree, but for the sign of a zero.
spec fn agree_up_to_zero_sign(from_zero: u64, from_first: u64) -> bool {
    from_zero == from_first || (from_zero == 0 && from_first
        == crate::scalar::NEGATIVE_ZERO_BITS)
}

proof fn lemma_sums_agree(forces: Seq<Components>)
    requires
        forces.len() > 0,
        forall|i: int| 0 <= i < forces.len() ==> no_nan(#[trigger] forces[i]),
    ensures
        agree_up_to_zero_sign(net_force(forces).x, vector_sum(forces).x),
        agree_up_to_zero_sign(net_force(forces).y, vector_sum(forces).y),
    decreases forces.len(),
{
    if forces.len() == 1 {
        assert(forces.drop_last() =~= Seq::<Components>::empty());
        assert(net_force(forces.drop_last()) == components_zero());
        assert(no_nan(forces[0]));
    } else {
        let front = forces.drop_last();
        assert forall|i: int| 0 <= i < front.len() implies no_nan(#[trigger] front[i]) by {
            assert(front[i] == forces[i]);
        }
        lemma_sums_agree(front);
        assert(no_nan(forces[forces.len() - 1]));
    }
}

/// Superposition: several forces staged for one particle move it as their
/// vector sum, staged as a single force, would, wherever no force holds a
/// NaN and the sum is neither a NaN nor negative zero.
pub proof fn lemma_forces_superpose<F>(
    particle: ParticleView<F>,
    forces: Seq<Components>,
    time: u64,
)
    requires
        forces.len() > 0,
        forall|i: int| 0 <= i < forces.len() ==> no_nan(#[trigger] forces[i]),
    ensures
        regular_vector(vector_sum(forces)) ==> {
            &&& net_force(forces) == net_force(seq![vector_sum(forces)])
            &&& particle.accelerated(forces, time) == particle.accelerated(
                seq![vector_sum(forces)],
                time,
            )
            &&& integrated(SlotView { particle, forces, doomed: false }, time) == integrated(
                SlotView { particle, forces: seq![vector_sum(forces)], doomed: false },
                time,
            )
        },
{
    lemma_sums_agree(forces);
    let single = seq![vector_sum(forces)];
    assert(single.drop_last() =~= Seq::<Components>::empty());
    assert(net_force(single.drop_last()) == components_zero());
    assert(single.last() == vector_sum(forces));
}

/// The entries of the particles among `particles` that trigger a field as
/// other particles are exactly the entries of those that satisfy the
/// condition.
pub proof fn lemma_others_triggering(
    particles: Seq<RecordView>,
    owner: RecordView,
    field: FieldInfoView,
    entry: TriggerView,
)
    ensures
        others_triggering(particles, owner, field).contains(entry) <==> exists|i: int|
            0 <= i < particles.len() && triggers_as_other(owner, field, #[trigger] particles[i])
                && entry == trigger_of_other(owner, field, particles[i]),
    decreases particles.len(),
{
    if particles.len() > 0 {
        let front = particles.drop_last();
        let last = particles.last();
        lemma_others_triggering(front, owner, field, entry);
        let rest = others_triggering(front, owner, field);
        let all = others_triggering(particles, owner, field);
        if all.contains(entry) {
            let k = choose|k: int| 0 <= k < all.len() && all[k] == entry;
            if k < rest.len() {
                assert(rest[k] == entry);
                let i = choose|i: int|
                    0 <= i < front.len() && triggers_as_other(owner, field, #[trigger] front[i])
                        && entry == trigger_of_other(owner, field, front[i]);
                assert(particles[i] == front[i]);
            } else {
                assert(particles[particles.len() - 1] == last);
            }
        }
        if exists|i: int|
            0 <= i < particles.len() && triggers_as_other(owner, field, #[trigger] particles[i])
                && entry == trigger_of_other(owner, field, particles[i]) {
            let i = choose|i: int|
                0 <= i < particles.len() && triggers_as_other(owner, field, #[trigger] particles[i])
                    && entry == trigger_of_other(owner, field, particles[i]);
            if i < front.len() {
                assert(front[i] == particles[i]);
                let k = choose|k: int| 0 <= k < rest.len() && rest[k] == entry;
                assert(all[k] == entry);
            } else {
                assert(all[all.len() - 1] == entry);
            }
        }
    }
}

/// The identifiers among the particles that trigger a field as other
/// particles are exactly those of the particles that satisfy the condition.
pub proof fn lemma_others_triggering_ids(
    particles: Seq<RecordView>,
    owner: RecordView,
    field: FieldInfoView,
    id: ParticleId,
)
    ensures
        trigger_ids(others_triggering(particles, owner, field)).contains(id) <==> exists|i: int|
            0 <= i < particles.len() && (#[trigger] particles[i]).id == id && triggers_as_other(
                owner,
                field,
                particles[i],
            ),
{
    let all = others_triggering(particles, owner, field);
    let ids = trigger_ids(all);
    if ids.contains(id) {
        let k = choose|k: int| 0 <= k < ids.len() && ids[k] == id;
        assert(all.contains(all[k]));
        lemma_others_triggering(particles, owner, field, all[k]);
    }
    if exists|i: int|
        0 <= i < particles.len() && (#[trigger] particles[i]).id == id && triggers_as_other(
            owner,
            field,
            particles[i],
        ) {
        let i = choose|i: int|
            0 <= i < particles.len() && (#[trigger] particles[i]).id == id && triggers_as_other(
                owner,
                field,
                particles[i],
            );
        let entry = trigger_of_other(owner, field, particles[i]);
        lemma_others_triggering(particles, owner, field, entry);
        let k = choose|k: int| 0 <= k < all.len() && all[k] == entry;
        assert(ids[k] == id);
    }
}

/// Trigger scoping. A field that affects only its owner is triggered by the
/// owner alone, however many particles are near. A field that affects only
/// others is triggered by exactly the other particles within its radius of
/// the owner, the rim included, and never by the owner.
pub proof fn lemma_trigger_scoping(snapshot: SnapshotView, owner: ParticleId, field: FieldInfoView)
    requires
        snapshot.distinct(),
        snapshot.contains(owner),
    ensures
        field.affects_self && !field.affects_others ==> triggered_ids(snapshot, owner, field)
            == seq![owner],
        !field.affects_self && field.affects_others ==> {
            &&& !triggered_ids(snapshot, owner, field).contains(owner)
            &&& forall|id: ParticleId|
                #[trigger] triggered_ids(snapshot, owner, field).contains(id) <==> id != owner
                    && snapshot.contains(id) && within_radius(
                    snapshot.record(id).position,
                    field.radius,
                    snapshot.record(owner).position,
                    false,
                )
        },
{
    if field.affects_self && !field.affects_others {
        assert(triggered(snapshot, owner, field) =~= seq![trigger_of_owner(owner)]);
        assert(triggered_ids(snapshot, owner, field) =~= seq![owner]);
    }
    if !field.affects_self && field.affects_others {
        let here = snapshot.record(owner);
        let ids = triggered_ids(snapshot, owner, field);
        assert(triggered(snapshot, owner, field) =~= others_triggering(
            snapshot.particles,
            here,
            field,
        ));
        assert forall|id: ParticleId| #[trigger]
            ids.contains(id) <==> id != owner && snapshot.contains(id) && within_radius(
                snapshot.record(id).position,
                field.radius,
                here.position,
                false,
            ) by {
            lemma_others_triggering_ids(snapshot.particles, here, field, id);
            if snapshot.contains(id) {
                crate::snapshot::lemma_index_of(snapshot, snapshot.index_of(id));
            }
            if ids.contains(id) {
                let i = choose|i: int|
                    0 <= i < snapshot.particles.len() && (#[trigger] snapshot.particles[i]).id
                        == id && triggers_as_other(here, field, snapshot.particles[i]);
                crate::snapshot::lemma_index_of(snapshot, i);
            }
        }
    }
}

/// Order independence of triggering: two snapshots that hold the same
/// particles, in whatever order, give every field the same set of triggering
/// particles, each with the same field records.
pub proof fn lemma_triggering_ignores_order(
    first: SnapshotView,
    second: SnapshotView,
    owner: ParticleId,
    field: FieldInfoView,
)
    requires
        first.distinct(),
        second.distinct(),
        first.particles.to_set() == second.particles.to_set(),
        first.contains(owner),
    ensures
        second.contains(owner),
        first.record(owner) == second.record(owner),
        triggered(first, owner, field).to_set() == triggered(second, owner, field).to_set(),
        triggered_ids(first, owner, field).to_set() == triggered_ids(second, owner, field).to_set(),
{
    lemma_same_records(first, second, owner);
    let a = triggered(first, owner, field);
    let b = triggered(second, owner, field);
    let here = first.record(owner);
    assert forall|entry: TriggerView| a.contains(entry) <==> b.contains(entry) by {
        lemma_others_triggering(first.particles, here, field, entry);
        lemma_others_triggering(second.particles, here, field, entry);
        let others_a = others_triggering(first.particles, here, field);
        let others_b = others_triggering(second.particles, here, field);
        if others_a.contains(entry) {
            let i = choose|i: int|
                0 <= i < first.particles.len() && triggers_as_other(
                    here,
                    field,
                    #[trigger] first.particles[i],
                ) && entry == trigger_of_other(here, field, first.particles[i]);
            lemma_record_shared(first, second, i);
        }
        if others_b.contains(entry) {
            let i = choose|i: int|
                0 <= i < second.particles.len() && triggers_as_other(
                    here,
                    field,
                    #[trigger] second.particles[i],
                ) && entry == trigger_of_other(here, field, second.particles[i]);
            lemma_record_shared(second, first, i);
        }
        lemma_contains_of_sum(a, field, owner, others_a, entry);
        lemma_contains_of_sum(b, field, owner, others_b, entry);
    }
    assert(a.to_set() =~= b.to_set());
    let ids_a = triggered_ids(first, owner, field);
    let ids_b = triggered_ids(second, owner, field);
    assert forall|id: ParticleId| ids_a.contains(id) <==> ids_b.contains(id) by {
        if ids_a.contains(id) {
            let k = choose|k: int| 0 <= k < ids_a.len() && ids_a[k] == id;
            assert(a.contains(a[k]));
            let j = choose|j: int| 0 <= j < b.len() && b[j] == a[k];
            assert(ids_b[j] == id);
        }
        if ids_b.contains(id) {
            let k = choose|k: int| 0 <= k < ids_b.len() && ids_b[k] == id;
            assert(b.contains(b[k]));
            let j = choose|j: int| 0 <= j < a.len() && a[j] == b[k];
            assert(ids_a[j] == id);
        }
    }
    assert(ids_a.to_set() =~= ids_b.to_set());
}

proof fn lemma_contains_of_sum(
    entries: Seq<TriggerView>,
    field: FieldInfoView,
    owner: ParticleId,
    others: Seq<TriggerView>,
    entry: TriggerView,
)
    requires
        entries == (if field.affects_self {
            seq![trigger_of_owner(owner)]
        } else {
            Seq::empty()
        }) + (if field.affects_others {
            others
        } else {
            Seq::empty()
        }),
    ensures
        entries.contains(entry) <==> (field.affects_self && entry == trigger_of_owner(owner)) || (
        field.affects_others && others.contains(entry)),
{
    let own = if field.affects_self {
        seq![trigger_of_owner(owner)]
    } else {
        Seq::empty()
    };
    let rest = if field.affects_others {
        others
    } else {
        Seq::empty()
    };
    if entries.contains(entry) {
        let k = choose|k: int| 0 <= k < entries.len() && entries[k] == entry;
        if k < own.len() {
            assert(own[k] == entry);
        } else {
            assert(rest[k - own.len()] == entry);
        }
    }
    if field.affects_self && entry == trigger_of_owner(owner) {
        assert(entries[0] == entry);
    }
    if field.affects_others && others.contains(entry) {
        let k = choose|k: int| 0 <= k < others.len() && others[k] == entry;
        assert(entries[own.len() + k] == entry);
    }
}

proof fn lemma_record_shared(first: SnapshotView, second: SnapshotView, index: int)
    requires
        first.particles.to_set() == second.particles.to_set(),
        0 <= index < first.particles.len(),
    ensures
        exists|j: int|
            0 <= j < second.particles.len() && #[trigger] second.particles[j]
                == first.particles[index],
{
    assert(first.particles.to_set().contains(first.particles[index]));
    assert(second.particles.contains(first.particles[index]));
}

/// In two snapshots that hold the same particles, a particle has the same
/// record.
pub proof fn lemma_same_records(first: SnapshotView, second: SnapshotView, id: ParticleId)
    requires
        first.distinct(),
        second.distinct(),
        first.particles.to_set() == second.particles.to_set(),
        first.contains(id),
    ensures
        second.contains(id),
        first.record(id) == second.record(id),
{
    let i = first.index_of(id);
    lemma_record_shared(first, second, i);
    let j = choose|j: int|
        0 <= j < second.particles.len() && #[trigger] second.particles[j] == first.particles[i];
    crate::snapshot::lemma_index_of(second, j);
}

/// The force with which universal gravitation has `owner` pull the particle
/// `id`, as a command.
pub open spec fn pull_command(
    gravitational_constant: u64,
    simulation: SnapshotView,
    owner: ParticleId,
    id: ParticleId,
) -> Command<UniversalGravitationField> {
    Command::ApplyForce {
        particle_id: id,
        force: force_of(
            gravitational_pull(
                gravitational_constant,
                simulation.record(owner).mass,
                simulation.record(id).mass,
                simulation.record(owner).position,
                simulation.record(id).position,
            ),
        ),
    }
}

/// Whether universal gravitation has `owner` pull the particle `id`: the
/// square of their distance is greater than zero.
pub open spec fn pulls(simulation: SnapshotView, owner: ParticleId, id: ParticleId) -> bool {
    float_lt(
        0,
        distance_squared(simulation.record(owner).position, simulation.record(id).position),
    )
}

/// The commands of universal gravitation are exactly the pulls on those of
/// the triggering particles that the owner pulls.
pub proof fn lemma_gravitation_commands(
    gravitational_constant: u64,
    simulation: SnapshotView,
    owner: ParticleId,
    ids: Seq<ParticleId>,
    command: Command<UniversalGravitationField>,
)
    ensures
        gravitation_commands(gravitational_constant, simulation, owner, ids).contains(command)
            <==> exists|k: int|
            0 <= k < ids.len() && pulls(simulation, owner, #[trigger] ids[k]) && command
                == pull_command(gravitational_constant, simulation, owner, ids[k]),
    decreases ids.len(),
{
    if ids.len() > 0 {
        let front = ids.drop_last();
        lemma_gravitation_commands(gravitational_constant, simulation, owner, front, command);
        let rest = gravitation_commands(gravitational_constant, simulation, owner, front);
        let all = gravitation_commands(gravitational_constant, simulation, owner, ids);
        if all.contains(command) {
            let j = choose|j: int| 0 <= j < all.len() && all[j] == command;
            if j < rest.len() {
                assert(rest[j] == command);
                let k = choose|k: int|
                    0 <= k < front.len() && pulls(simulation, owner, #[trigger] front[k])
                        && command == pull_command(
                        gravitational_constant,
                        simulation,
                        owner,
                        front[k],
                    );
                assert(ids[k] == front[k]);
            } else {
                assert(pulls(simulation, owner, ids[ids.len() - 1]));
            }
        }
        if exists|k: int|
            0 <= k < ids.len() && pulls(simulation, owner, #[trigger] ids[k]) && command
                == pull_command(gravitational_constant, simulation, owner, ids[k]) {
            let k = choose|k: int|
                0 <= k < ids.len() && pulls(simulation, owner, #[trigger] ids[k]) && command
                    == pull_command(gravitational_constant, simulation, owner, ids[k]);
            if k < front.len() {
                assert(front[k] == ids[k]);
                let j = choose|j: int| 0 <= j < rest.len() && rest[j] == command;
                assert(all[j] == command);
            } else {
                assert(all[all.len() - 1] == command);
            }
        }
    }
}

/// Order independence of the forces of universal gravitation: two snapshots
/// that hold the same particles, in whatever order, have a gravitation field
/// ask for the same set of forces.
pub proof fn lemma_gravitation_ignores_order(
    gravitational_constant: u64,
    first: SnapshotView,
    second: SnapshotView,
    owner: ParticleId,
    field: FieldInfoView,
)
    requires
        first.distinct(),
        second.distinct(),
        first.particles.to_set() == second.particles.to_set(),
        first.contains(owner),
    ensures
        gravitation_commands(
            gravitational_constant,
            first,
            owner,
            triggered_ids(first, owner, field),
        ).to_set() == gravitation_commands(
            gravitational_constant,
            second,
            owner,
            triggered_ids(second, owner, field),
        ).to_set(),
{
    lemma_triggering_ignores_order(first, second, owner, field);
    let ids_a = triggered_ids(first, owner, field);
    let ids_b = triggered_ids(second, owner, field);
    let a = gravitation_commands(gravitational_constant, first, owner, ids_a);
    let b = gravitation_commands(gravitational_constant, second, owner, ids_b);
    lemma_triggered_are_live(first, owner, field);
    lemma_triggered_are_live(second, owner, field);
    assert forall|command: Command<UniversalGravitationField>|
        a.contains(command) <==> b.contains(command) by {
        lemma_gravitation_commands(gravitational_constant, first, owner, ids_a, command);
        lemma_gravitation_commands(gravitational_constant, second, owner, ids_b, command);
        if a.contains(command) {
            let k = choose|k: int|
                0 <= k < ids_a.len() && pulls(first, owner, #[trigger] ids_a[k]) && command
                    == pull_command(gravitational_constant, first, owner, ids_a[k]);
            assert(ids_a.to_set().contains(ids_a[k]));
            assert(ids_b.contains(ids_a[k]));
            let j = choose|j: int| 0 <= j < ids_b.len() && ids_b[j] == ids_a[k];
            lemma_same_records(first, second, ids_a[k]);
        }
        if b.contains(command) {
            let k = choose|k: int|
                0 <= k < ids_b.len() && pulls(second, owner, #[trigger] ids_b[k]) && command
                    == pull_command(gravitational_constant, second, owner, ids_b[k]);
            assert(ids_b.to_set().contains(ids_b[k]));
            assert(ids_a.contains(ids_b[k]));
            let j = choose|j: int| 0 <= j < ids_a.len() && ids_a[j] == ids_b[k];
            lemma_same_records(second, first, ids_b[k]);
            lemma_same_records(second, first, owner);
        }
    }
    assert(a.to_set() =~= b.to_set());
}

/// Every particle that triggers a field of a live particle is live.
pub proof fn lemma_triggered_are_live(snapshot: SnapshotView, owner: ParticleId, field: FieldInfoView)
    requires
        snapshot.contains(owner),
    ensures
        forall|k: int|
            0 <= k < triggered_ids(snapshot, owner, field).len() ==> snapshot.contains(
                #[trigger] triggered_ids(snapshot, owner, field)[k],
            ),
{
    let ids = triggered_ids(snapshot, owner, field);
    let entries = triggered(snapshot, owner, field);
    let here = snapshot.record(owner);
    let others = others_triggering(snapshot.particles, here, field);
    assert forall|k: int| 0 <= k < ids.len() implies snapshot.contains(#[trigger] ids[k]) by {
        let entry = entries[k];
        assert(entries.contains(entry));
        lemma_contains_of_sum(entries, field, owner, others, entry);
        if field.affects_others && others.contains(entry) {
            lemma_others_triggering(snapshot.particles, here, field, entry);
        }
    }
}

/// Self-gravity, step by step. Where the only live particle has a
/// self-gravity field as its only field and there is no callback, a step
/// moves the particle under the forces staged for it and, behind them, its
/// mass times the field's acceleration.
pub proof fn lemma_self_gravity_step(
    simulation: Simulation<SimpleSelfGravityField, NoCallback>,
    after: SimulationView<SimpleSelfGravityField>,
)
    requires
        simulation.wf(),
        simulation.callback() is None,
        simulation@.live.len() == 1,
        simulation@.live[0].particle.fields.len() == 1,
        !simulation@.live[0].doomed,
        simulation.may_step_to(after),
    ensures
        after.live.len() >= 1,
        after.live[0] == integrated(
            SlotView {
                forces: simulation@.live[0].forces.push(
                    components_scale(
                        simulation@.live[0].particle.fields[0].acceleration(),
                        simulation@.live[0].particle.mass,
                    ),
                ),
                ..simulation@.live[0]
            },
            simulation@.tick_duration,
        ),
{
    let before = simulation@;
    let slot = before.live[0];
    let id = slot.particle.id;
    let field = slot.particle.fields[0];
    let (snapshot, commands, staged) = choose|
        snapshot: Snapshot,
        commands: Seq<Command<SimpleSelfGravityField>>,
        staged: SimulationView<SimpleSelfGravityField>,
    |
        #![trigger tick_asks(simulation.callback(), before.live, snapshot, commands), staged_all(before, commands, staged)]
        snapshot.wf() && simulation.pictured_in(&snapshot) && tick_asks(
            simulation.callback(),
            before.live,
            snapshot,
            commands,
        ) && staged_all(before, commands, staged) && after == staged.tick();
    let record = snapshot@.particles[0];
    let info = record.fields[0];
    assert(pictures(record, slot.particle));
    assert(reported_by(field, info));
    crate::snapshot::lemma_index_of(snapshot@, 0);
    let force = components_scale(field.acceleration(), slot.particle.mass);
    let command = Command::<SimpleSelfGravityField>::ApplyForce {
        particle_id: id,
        force: force_of(force),
    };

    // What the one field asks for.
    assert(triggered(snapshot@, id, info) =~= seq![trigger_of_owner(id)]);
    assert forall|asked: Seq<Command<SimpleSelfGravityField>>|
        field_asks(field, info, snapshot, id, asked) implies asked == seq![command] by {
        let (triggering, result) = choose|
            triggering: TriggerSet,
            result: Vec<Command<SimpleSelfGravityField>>,
        |
            triggering@ == triggered(snapshot@, id, info) && #[trigger] call_ensures(
                SimpleSelfGravityField::effect,
                (&field, &snapshot, displacement_of(snapshot@.record(id).position), &triggering, id),
                result,
            ) && result@ == asked;
        assert(result@[0] == command);
        assert(asked =~= seq![command]);
    }

    // What the tick collects.
    reveal_with_fuel(particle_asks, 2);
    reveal_with_fuel(particles_ask, 2);
    assert(commands =~= seq![command]);

    // What staging it leads to.
    reveal_with_fuel(staged_all, 2);
    assert(commands.drop_last() =~= Seq::<Command<SimpleSelfGravityField>>::empty());
    assert(before.live_index(id) == 0);
    assert(staged == before.with_force(id, force));

    // What the tick makes of it.
    reveal_with_fuel(survivors, 2);
    assert(staged.live.drop_last() =~= Seq::<SlotView<SimpleSelfGravityField>>::empty());
    assert(staged.live.last() == staged.live[0]);
}

} // verus!
