//! The simulation: the live particles, what is staged for the next tick, and
//! the tick itself.
//!
//! Requests never change the live particles at once. A force is kept with the
//! particle it is for, a removal marks its particle, and a new particle waits
//! in a list of its own. A tick first lets every field see the particles as
//! they stand and collects what the fields ask for, then removes the marked
//! particles, moves the others, lets the waiting particles in and counts one
//! tick more.

use crate::error::SimulationError;
use crate::physical_quantities::{
    displacement_of, Components, Displacement, Force, Mass, Ticks, Time, Velocity,
};
use crate::scalar::{float_le, float_product, integer_bits, Scalar};
use crate::simulation_objects::{
    force_views, random_id, reported_by, Command, Field, FieldInfo, FieldInfoView, Particle,
    ParticleId, ParticleView,
};
use crate::snapshot::{
    lemma_index_of, triggered, ParticleRecord, RecordView, Snapshot, TriggerSet,
};
use vstd::prelude::*;

verus! {

/// A live particle together with what is staged for it.
pub struct SlotView<F> {
    pub particle: ParticleView<F>,
    /// The forces to apply during the next tick, in the order of arrival.
    pub forces: Seq<Components>,
    /// Whether the particle is to be removed at the next tick.
    pub doomed: bool,
}

/// The state of a simulation.
pub struct SimulationView<F> {
    pub tick_duration: u64,
    pub simulation_speed: Option<u64>,
    pub has_callback: bool,
    pub elapsed_ticks: nat,
    pub paused: bool,
    /// The live particles, oldest first.
    pub live: Seq<SlotView<F>>,
    /// The particles that will become live at the next tick, oldest first.
    pub staged: Seq<ParticleView<F>>,
}

/// A slot after a tick: moved under its forces if it has any, else at its
/// velocity, with nothing staged for it.
pub open spec fn integrated<F>(slot: SlotView<F>, time: u64) -> SlotView<F> {
    SlotView {
        particle: if slot.forces.len() > 0 {
            slot.particle.accelerated(slot.forces, time)
        } else {
            slot.particle.coasted(time)
        },
        forces: Seq::empty(),
        doomed: false,
    }
}

/// The slots that outlive a tick, each moved through it, in order.
pub open spec fn survivors<F>(live: Seq<SlotView<F>>, time: u64) -> Seq<SlotView<F>>
    decreases live.len(),
{
    if live.len() == 0 {
        Seq::empty()
    } else {
        let rest = survivors(live.drop_last(), time);
        if live.last().doomed {
            rest
        } else {
            rest.push(integrated(live.last(), time))
        }
    }
}

/// The slot in which a particle becomes live.
pub open spec fn fresh_slot<F>(particle: ParticleView<F>) -> SlotView<F> {
    SlotView { particle, forces: Seq::empty(), doomed: false }
}

/// The slots of the particles that a tick lets in, in order.
pub open spec fn arrivals<F>(staged: Seq<ParticleView<F>>) -> Seq<SlotView<F>> {
    staged.map_values(|p: ParticleView<F>| fresh_slot(p))
}

impl<F> SimulationView<F> {
    /// Whether a particle with this identifier is live.
    pub open spec fn is_live(self, id: ParticleId) -> bool {
        exists|i: int| 0 <= i < self.live.len() && (#[trigger] self.live[i]).particle.id == id
    }

    /// Where the live particle with this identifier stands.
    pub open spec fn live_index(self, id: ParticleId) -> int {
        choose|i: int| 0 <= i < self.live.len() && (#[trigger] self.live[i]).particle.id == id
    }

    /// The live particle with this identifier.
    pub open spec fn particle(self, id: ParticleId) -> ParticleView<F> {
        self.live[self.live_index(id)].particle
    }

    /// The forces staged for the live particle with this identifier.
    pub open spec fn staged_forces(self, id: ParticleId) -> Seq<Components> {
        self.live[self.live_index(id)].forces
    }

    /// Whether the particle is live and staged for removal.
    pub open spec fn is_doomed(self, id: ParticleId) -> bool {
        self.is_live(id) && self.live[self.live_index(id)].doomed
    }

    /// Whether a particle with this identifier waits to become live.
    pub open spec fn is_staged(self, id: ParticleId) -> bool {
        exists|i: int| 0 <= i < self.staged.len() && (#[trigger] self.staged[i]).id == id
    }

    /// No identifier occurs twice among the live and the waiting particles,
    /// the tick duration and the speed are not zero or negative, and the tick
    /// count fits its counter.
    pub open spec fn wf(self) -> bool {
        &&& forall|i: int, j: int|
            0 <= i < self.live.len() && 0 <= j < self.live.len() && i != j ==> (
            #[trigger] self.live[i]).particle.id != (#[trigger] self.live[j]).particle.id
        &&& forall|i: int, j: int|
            0 <= i < self.staged.len() && 0 <= j < self.staged.len() && i != j ==> (
            #[trigger] self.staged[i]).id != (#[trigger] self.staged[j]).id
        &&& forall|i: int, j: int|
            0 <= i < self.live.len() && 0 <= j < self.staged.len() ==> (
            #[trigger] self.live[i]).particle.id != (#[trigger] self.staged[j]).id
        &&& !float_le(self.tick_duration, 0)
        &&& self.simulation_speed matches Some(speed) ==> !float_le(speed, 0)
        &&& self.elapsed_ticks <= u64::MAX
    }

    /// Whether `step` is accepted: only while the simulation is paused.
    pub open spec fn accepts_step(self) -> bool {
        self.paused
    }

    /// The state once the simulation was started.
    pub open spec fn started(self) -> SimulationView<F> {
        SimulationView { paused: false, ..self }
    }

    /// The state once the simulation was paused.
    pub open spec fn halted(self) -> SimulationView<F> {
        SimulationView { paused: true, ..self }
    }

    /// Nothing acts of its own accord: there is no callback and no live
    /// particle has a field.
    pub open spec fn inert(self) -> bool {
        &&& !self.has_callback
        &&& forall|i: int|
            0 <= i < self.live.len() ==> (#[trigger] self.live[i]).particle.fields.len() == 0
    }

    /// The state with one more particle waiting.
    pub open spec fn with_staged(self, particle: ParticleView<F>) -> SimulationView<F> {
        SimulationView { staged: self.staged.push(particle), ..self }
    }

    /// The state with one more force staged for the live particle `id`.
    pub open spec fn with_force(self, id: ParticleId, force: Components) -> SimulationView<F> {
        let at = self.live_index(id);
        SimulationView {
            live: self.live.update(
                at,
                SlotView { forces: self.live[at].forces.push(force), ..self.live[at] },
            ),
            ..self
        }
    }

    /// The state with the live particle `id` staged for removal.
    pub open spec fn with_doomed(self, id: ParticleId) -> SimulationView<F> {
        let at = self.live_index(id);
        SimulationView {
            live: self.live.update(at, SlotView { doomed: true, ..self.live[at] }),
            ..self
        }
    }

    /// The state after a tick, given what is staged: the doomed particles are
    /// gone, the others have moved, the waiting particles are live, and the
    /// count is one higher.
    pub open spec fn tick(self) -> SimulationView<F> {
        SimulationView {
            live: survivors(self.live, self.tick_duration) + arrivals(self.staged),
            staged: Seq::empty(),
            elapsed_ticks: self.elapsed_ticks + 1,
            ..self
        }
    }
}

/// Whether `later` is `earlier` with, possibly, more staged: the same live
/// particles in the same state, each with the forces it had and perhaps more
/// behind them, doomed if it was, and the same waiting particles with perhaps
/// more behind them.
pub open spec fn staged_after<F>(earlier: SimulationView<F>, later: SimulationView<F>) -> bool {
    &&& later.tick_duration == earlier.tick_duration
    &&& later.simulation_speed == earlier.simulation_speed
    &&& later.has_callback == earlier.has_callback
    &&& later.elapsed_ticks == earlier.elapsed_ticks
    &&& later.paused == earlier.paused
    &&& later.live.len() == earlier.live.len()
    &&& forall|i: int|
        0 <= i < earlier.live.len() ==> {
            &&& (#[trigger] later.live[i]).particle == earlier.live[i].particle
            &&& earlier.live[i].forces.is_prefix_of(later.live[i].forces)
            &&& earlier.live[i].doomed ==> later.live[i].doomed
        }
    &&& earlier.staged.is_prefix_of(later.staged)
}

/// Whether one accepted call of `step` can lead from `before` to `after`:
/// something more may have been staged, by the callback and the fields, and
/// then the tick was carried out.
pub open spec fn stepped<F>(before: SimulationView<F>, after: SimulationView<F>) -> bool {
    exists|staged: SimulationView<F>|
        staged.wf() && #[trigger] staged_after(before, staged) && after == staged.tick()
}

/// Whether staging what `command` asks for leads from `before` to `after`.
/// A force or a removal names a live particle; a new particle gets an
/// identifier that is not in use.
pub open spec fn staged_by<F>(
    before: SimulationView<F>,
    command: Command<F>,
    after: SimulationView<F>,
) -> bool {
    match command {
        Command::ApplyForce { particle_id, force } => before.is_live(particle_id) && after
            == before.with_force(particle_id, force@),
        Command::DeleteParticle { particle_id } => before.is_live(particle_id) && after
            == before.with_doomed(particle_id),
        Command::CreateParticle { mass, position, fields } => exists|id: ParticleId|
            !before.is_live(id) && !before.is_staged(id) && after == #[trigger] before.with_staged(
                ParticleView {
                    id,
                    mass: mass@,
                    position: position@,
                    velocity: Components { x: 0, y: 0 },
                    fields: fields@,
                },
            ),
    }
}

/// Whether staging `commands` one after the other leads from `before` to
/// `after`.
pub open spec fn staged_all<F>(
    before: SimulationView<F>,
    commands: Seq<Command<F>>,
    after: SimulationView<F>,
) -> bool
    decreases commands.len(),
{
    if commands.len() == 0 {
        after == before
    } else {
        exists|middle: SimulationView<F>|
            staged_all(before, commands.drop_last(), middle) && #[trigger] staged_by(
                middle,
                commands.last(),
                after,
            )
    }
}

/// Whether `error` is why `command` cannot be staged in `state`: a force or a
/// removal names a particle that is not live, or the identifier drawn for a
/// new particle is in use.
pub open spec fn refused_with<F>(
    state: SimulationView<F>,
    command: Command<F>,
    error: SimulationError,
) -> bool {
    match command {
        Command::ApplyForce { particle_id, .. } => !state.is_live(particle_id) && error
            == SimulationError::UnknownParticle(particle_id),
        Command::DeleteParticle { particle_id } => !state.is_live(particle_id) && error
            == SimulationError::UnknownParticle(particle_id),
        Command::CreateParticle { .. } => error matches SimulationError::IdCollision(id) && (
        state.is_live(id) || state.is_staged(id)),
    }
}

/// Whether `commands` is what a field attached to `owner` may ask for when a
/// tick begins with `snapshot`: nothing if no particle triggers the field;
/// else what its effect can return, called with the snapshot, the owner's
/// position, the triggering particles and the owner's identifier.
pub open spec fn field_asks<F: Field>(
    field: F,
    info: FieldInfoView,
    snapshot: Snapshot,
    owner: ParticleId,
    commands: Seq<Command<F>>,
) -> bool {
    if triggered(snapshot@, owner, info).len() == 0 {
        commands.len() == 0
    } else {
        exists|triggering: TriggerSet, result: Vec<Command<F>>|
            triggering@ == triggered(snapshot@, owner, info) && #[trigger] call_ensures(
                F::effect,
                (
                    &field,
                    &snapshot,
                    displacement_of(snapshot@.record(owner).position),
                    &triggering,
                    owner,
                ),
                result,
            ) && result@ == commands
    }
}

/// Whether `commands` is what the first `count` fields of a particle may ask
/// for, one field after the other.
pub open spec fn particle_asks<F: Field>(
    fields: Seq<F>,
    infos: Seq<FieldInfoView>,
    snapshot: Snapshot,
    owner: ParticleId,
    count: nat,
    commands: Seq<Command<F>>,
) -> bool
    decreases count,
{
    if count == 0 {
        commands.len() == 0
    } else {
        exists|before: Seq<Command<F>>, more: Seq<Command<F>>|
            particle_asks(fields, infos, snapshot, owner, (count - 1) as nat, before)
                && field_asks(fields[count - 1], infos[count - 1], snapshot, owner, more)
                && commands == #[trigger] (before + more)
    }
}

/// Whether `commands` is what the fields of the first `count` live particles
/// may ask for, one particle after the other.
pub open spec fn particles_ask<F: Field>(
    live: Seq<SlotView<F>>,
    snapshot: Snapshot,
    count: nat,
    commands: Seq<Command<F>>,
) -> bool
    decreases count,
{
    if count == 0 {
        commands.len() == 0
    } else {
        exists|before: Seq<Command<F>>, more: Seq<Command<F>>|
            particles_ask(live, snapshot, (count - 1) as nat, before) && particle_asks(
                live[count - 1].particle.fields,
                snapshot@.particles[count - 1].fields,
                snapshot,
                live[count - 1].particle.id,
                live[count - 1].particle.fields.len(),
                more,
            ) && commands == #[trigger] (before + more)
    }
}

/// Whether `commands` is what a callback may ask for: what it can return when
/// called with the snapshot, and nothing where there is no callback.
pub open spec fn callback_asks<F, C: TickCallback<F>>(
    callback: Option<C>,
    snapshot: Snapshot,
    commands: Seq<Command<F>>,
) -> bool {
    match callback {
        Some(c) => exists|result: Vec<Command<F>>| #[trigger]
            call_ensures(C::on_tick, (&c, &snapshot), result) && result@ == commands,
        None => commands.len() == 0,
    }
}

/// Whether `commands` is what a tick that begins with `snapshot` collects:
/// first what the callback asks for, then what the fields ask for, particle
/// by particle and field by field.
pub open spec fn tick_asks<F: Field, C: TickCallback<F>>(
    callback: Option<C>,
    live: Seq<SlotView<F>>,
    snapshot: Snapshot,
    commands: Seq<Command<F>>,
) -> bool {
    exists|first: Seq<Command<F>>, rest: Seq<Command<F>>| #[trigger]
        callback_asks(callback, snapshot, first) && #[trigger] particles_ask(
            live,
            snapshot,
            live.len(),
            rest,
        ) && commands == first + rest
}

/// Something to call at the start of every tick. It sees the particles as
/// they stand and may ask for what a field's effect may ask for.
pub trait TickCallback<F> {
    fn on_tick(&self, simulation: &Snapshot) -> (commands: Vec<Command<F>>)
        requires
            simulation.wf(),
    ;
}

/// The callback of a simulation that has none.
pub struct NoCallback;

/// Whether a list of commands is empty.
pub open spec fn asks_for_nothing<F>(commands: Vec<Command<F>>) -> bool {
    commands@.len() == 0
}

impl<F> TickCallback<F> for NoCallback {
    /// Asks for nothing.
    fn on_tick(&self, simulation: &Snapshot) -> (commands: Vec<Command<F>>)
        ensures
            asks_for_nothing::<F>(commands),
    {
        Vec::new()
    }
}

struct Slot<F> {
    particle: Particle<F>,
    forces: Vec<Force>,
    doomed: bool,
}

impl<F> View for Slot<F> {
    type V = SlotView<F>;

    closed spec fn view(&self) -> SlotView<F> {
        SlotView { particle: self.particle@, forces: force_views(self.forces@), doomed: self.doomed }
    }
}

impl<F> Slot<F> {
    fn new(particle: Particle<F>) -> (r: Slot<F>)
        ensures
            r@ == fresh_slot(particle@),
    {
        let r = Slot { particle, forces: Vec::new(), doomed: false };
        assert(r@.forces =~= Seq::empty());
        r
    }

    fn integrate(&mut self, time: Time)
        requires
            !old(self)@.doomed,
        ensures
            final(self)@ == integrated(old(self)@, time@),
    {
        if self.forces.len() > 0 {
            self.particle.accelerate(&self.forces, time);
        } else {
            self.particle.coast(time);
        }
        self.forces.clear();
        assert(self@.forces =~= Seq::empty());
    }
}

spec fn slot_views<F>(slots: Seq<Slot<F>>) -> Seq<SlotView<F>> {
    slots.map_values(|s: Slot<F>| s@)
}

spec fn waiting_views<F>(slots: Seq<Slot<F>>) -> Seq<ParticleView<F>> {
    slots.map_values(|s: Slot<F>| s@.particle)
}

/// Owns everything that makes up a simulation and offers the operations on
/// it.
pub struct Simulation<F, C> {
    tick_duration: Time,
    particles: Vec<Slot<F>>,
    elapsed_ticks: Ticks,
    simulation_speed: Option<Scalar>,
    on_tick: Option<C>,
    particles_to_add: Vec<Slot<F>>,
    is_paused: bool,
}

impl<F, C> View for Simulation<F, C> {
    type V = SimulationView<F>;

    closed spec fn view(&self) -> SimulationView<F> {
        SimulationView {
            tick_duration: self.tick_duration@,
            simulation_speed: match self.simulation_speed {
                Some(speed) => Some(speed@),
                None => None,
            },
            has_callback: self.on_tick is Some,
            elapsed_ticks: self.elapsed_ticks@,
            paused: self.is_paused,
            live: slot_views(self.particles@),
            staged: waiting_views(self.particles_to_add@),
        }
    }
}

impl<F, C> Simulation<F, C> {
    /// Nothing is staged for a particle that is not live yet.
    pub closed spec fn waiting_untouched(&self) -> bool {
        forall|i: int|
            0 <= i < self.particles_to_add@.len() ==> (#[trigger] self.particles_to_add@[i])@
                == fresh_slot(self.particles_to_add@[i]@.particle)
    }

    /// The callback, if one was configured.
    pub closed spec fn callback(&self) -> Option<C> {
        self.on_tick
    }

    /// The validity of a simulation, which every operation keeps.
    pub open spec fn wf(&self) -> bool {
        &&& self@.wf()
        &&& self.waiting_untouched()
        &&& self@.has_callback == (self.callback() is Some)
    }

    /// Creates a paused simulation without particles, at tick zero.
    ///
    /// Refused when `tick_duration`, or `simulation_speed` where there is
    /// one, is zero or negative.
    pub fn new(tick_duration: Time, simulation_speed: Option<Scalar>, on_tick: Option<C>) -> (r:
        Result<Simulation<F, C>, SimulationError>)
        ensures
            r is Err <==> float_le(tick_duration@, 0) || (simulation_speed matches Some(speed)
                && float_le(speed@, 0)),
            r matches Err(e) ==> e == if float_le(tick_duration@, 0) {
                SimulationError::TickDurationNotPositive
            } else {
                SimulationError::SimulationSpeedNotPositive
            },
            r matches Ok(simulation) ==> simulation.wf() && simulation@ == (SimulationView::<F> {
                tick_duration: tick_duration@,
                simulation_speed: match simulation_speed {
                    Some(speed) => Some(speed@),
                    None => None,
                },
                has_callback: on_tick is Some,
                elapsed_ticks: 0,
                paused: true,
                live: Seq::empty(),
                staged: Seq::empty(),
            }) && simulation.callback() == on_tick,
    {
        if tick_duration.le(Time::new(Scalar::zero())) {
            return Err(SimulationError::TickDurationNotPositive);
        }
        if let Some(speed) = simulation_speed {
            if speed.le(Scalar::zero()) {
                return Err(SimulationError::SimulationSpeedNotPositive);
            }
        }
        let simulation = Simulation {
            tick_duration,
            particles: Vec::new(),
            elapsed_ticks: Ticks::new(0),
            simulation_speed,
            on_tick,
            particles_to_add: Vec::new(),
            is_paused: true,
        };
        assert(simulation@.live =~= Seq::empty());
        assert(simulation@.staged =~= Seq::empty());
        Ok(simulation)
    }

    /// Where the live particle with this identifier stands, if there is one.
    fn find_live(&self, particle_id: ParticleId) -> (r: Option<usize>)
        ensures
            r is Some <==> self@.is_live(particle_id),
            r matches Some(i) ==> i < self@.live.len() && self@.live[i as int].particle.id
                == particle_id,
            self@.wf() ==> (r matches Some(i) ==> i == self@.live_index(particle_id)),
    {
        let mut i: usize = 0;
        while i < self.particles.len()
            invariant
                i <= self.particles@.len(),
                forall|k: int| 0 <= k < i ==> (#[trigger] self@.live[k]).particle.id != particle_id,
            decreases self.particles@.len() - i,
        {
            if self.particles[i].particle.get_id() == particle_id {
                assert(self@.live[i as int].particle.id == particle_id);
                return Some(i);
            }
            i = i + 1;
        }
        None
    }

    /// Whether a particle with this identifier waits to become live.
    fn find_staged(&self, particle_id: ParticleId) -> (r: bool)
        ensures
            r == self@.is_staged(particle_id),
    {
        let mut i: usize = 0;
        while i < self.particles_to_add.len()
            invariant
                i <= self.particles_to_add@.len(),
                forall|k: int| 0 <= k < i ==> (#[trigger] self@.staged[k]).id != particle_id,
            decreases self.particles_to_add@.len() - i,
        {
            if self.particles_to_add[i].particle.get_id() == particle_id {
                assert(self@.staged[i as int].id == particle_id);
                return true;
            }
            i = i + 1;
        }
        false
    }

    /// Whether a particle with this identifier is live.
    pub fn contains(&self, particle_id: ParticleId) -> (r: bool)
        ensures
            r == self@.is_live(particle_id),
    {
        self.find_live(particle_id).is_some()
    }

    /// Stages a particle at rest under the given identifier. It becomes live
    /// at the next tick.
    ///
    /// Refused, with nothing changed, when the identifier is in use by a
    /// live or a waiting particle. The identifier of a particle that is gone
    /// may be given again.
    pub fn create_particle_with_id(
        &mut self,
        particle_id: ParticleId,
        mass: Mass,
        position: Displacement,
        fields: Vec<F>,
    ) -> (r: Result<ParticleId, SimulationError>)
        requires
            old(self).wf(),
        ensures
            final(self).wf(),
            final(self).callback() == old(self).callback(),
            r is Err <==> old(self)@.is_live(particle_id) || old(self)@.is_staged(particle_id),
            r matches Err(e) ==> e == SimulationError::IdCollision(particle_id) && final(self)@
                == old(self)@,
            r matches Ok(id) ==> id == particle_id && final(self)@ == old(self)@.with_staged(
                ParticleView {
                    id: particle_id,
                    mass: mass@,
                    position: position@,
                    velocity: Components { x: 0, y: 0 },
                    fields: fields@,
                },
            ),
            r is Ok ==> !final(self)@.is_live(particle_id) && final(self)@.is_staged(particle_id),
    {
        if self.find_live(particle_id).is_some() || self.find_staged(particle_id) {
            return Err(SimulationError::IdCollision(particle_id));
        }
        let particle = Particle::with_id(
            particle_id,
            mass,
            position,
            Velocity::new(Scalar::zero(), Scalar::zero()),
            fields,
        );
        self.particles_to_add.push(Slot::new(particle));
        assert(self@.staged =~= old(self)@.staged.push(particle@));
        assert(self@.staged[self@.staged.len() - 1].id == particle_id);
        Ok(particle_id)
    }

    /// Stages a particle at rest under a freshly drawn identifier, which is
    /// returned. The particle becomes live at the next tick.
    ///
    /// Refused, with nothing changed, in the event that the identifier drawn
    /// is in use.
    pub fn create_particle(&mut self, mass: Mass, position: Displacement, fields: Vec<F>) -> (r:
        Result<ParticleId, SimulationError>)
        requires
            old(self).wf(),
        ensures
            final(self).wf(),
            final(self).callback() == old(self).callback(),
            r matches Err(e) ==> final(self)@ == old(self)@ && exists|id: ParticleId|
                e == SimulationError::IdCollision(id) && (old(self)@.is_live(id) || old(self)@.is_staged(id)),
            r matches Ok(id) ==> !old(self)@.is_live(id) && !old(self)@.is_staged(id) && final(self)@ == old(self)@.with_staged(
                ParticleView {
                    id,
                    mass: mass@,
                    position: position@,
                    velocity: Components { x: 0, y: 0 },
                    fields: fields@,
                },
            ),
    {
        let particle_id = ParticleId(random_id());
        self.create_particle_with_id(particle_id, mass, position, fields)
    }

    /// Stages the removal of a live particle. It stays live until the next
    /// tick.
    pub fn delete_particle(&mut self, particle_id: ParticleId) -> (r: Result<(), SimulationError>)
        requires
            old(self).wf(),
        ensures
            final(self).wf(),
            final(self).callback() == old(self).callback(),
            r is Ok <==> old(self)@.is_live(particle_id),
            r matches Err(e) ==> e == SimulationError::UnknownParticle(particle_id) && final(self)@
                == old(self)@,
            r is Ok ==> final(self)@ == old(self)@.with_doomed(particle_id),
            r is Ok ==> final(self)@.is_live(particle_id) && final(self)@.is_doomed(particle_id),
    {
        match self.find_live(particle_id) {
            Some(i) => {
                self.particles[i].doomed = true;
                assert(self@.live =~= old(self)@.with_doomed(particle_id).live);
                assert(self@.live[i as int].particle.id == particle_id);
                assert(self@.staged =~= old(self)@.staged);
                Ok(())
            },
            None => Err(SimulationError::UnknownParticle(particle_id)),
        }
    }

    /// Stages a force on a live particle for the duration of the next tick.
    pub fn apply_force(&mut self, particle_id: ParticleId, force: Force) -> (r: Result<
        (),
        SimulationError,
    >)
        requires
            old(self).wf(),
        ensures
            final(self).wf(),
            final(self).callback() == old(self).callback(),
            r is Ok <==> old(self)@.is_live(particle_id),
            r matches Err(e) ==> e == SimulationError::UnknownParticle(particle_id) && final(self)@
                == old(self)@,
            r is Ok ==> final(self)@ == old(self)@.with_force(particle_id, force@),
    {
        match self.find_live(particle_id) {
            Some(i) => {
                self.particles[i].forces.push(force);
                assert(self@.live[i as int].forces =~= old(self)@.live[i as int].forces.push(
                    force@,
                ));
                assert(self@.live =~= old(self)@.with_force(particle_id, force@).live);
                assert(self@.staged =~= old(self)@.staged);
                Ok(())
            },
            None => Err(SimulationError::UnknownParticle(particle_id)),
        }
    }

    /// The mass of a live particle.
    pub fn get_mass(&self, particle_id: ParticleId) -> (r: Result<Mass, SimulationError>)
        requires
            self.wf(),
        ensures
            r is Ok <==> self@.is_live(particle_id),
            r matches Ok(m) ==> m@ == self@.particle(particle_id).mass,
            r matches Err(e) ==> e == SimulationError::UnknownParticle(particle_id),
    {
        match self.find_live(particle_id) {
            Some(i) => Ok(self.particles[i].particle.get_mass()),
            None => Err(SimulationError::UnknownParticle(particle_id)),
        }
    }

    /// The position of a live particle.
    pub fn get_position(&self, particle_id: ParticleId) -> (r: Result<Displacement, SimulationError>)
        requires
            self.wf(),
        ensures
            r is Ok <==> self@.is_live(particle_id),
            r matches Ok(p) ==> p@ == self@.particle(particle_id).position,
            r matches Err(e) ==> e == SimulationError::UnknownParticle(particle_id),
    {
        match self.find_live(particle_id) {
            Some(i) => Ok(self.particles[i].particle.get_position()),
            None => Err(SimulationError::UnknownParticle(particle_id)),
        }
    }

    /// The velocity of a live particle.
    pub fn get_velocity(&self, particle_id: ParticleId) -> (r: Result<Velocity, SimulationError>)
        requires
            self.wf(),
        ensures
            r is Ok <==> self@.is_live(particle_id),
            r matches Ok(v) ==> v@ == self@.particle(particle_id).velocity,
            r matches Err(e) ==> e == SimulationError::UnknownParticle(particle_id),
    {
        match self.find_live(particle_id) {
            Some(i) => Ok(self.particles[i].particle.get_velocity()),
            None => Err(SimulationError::UnknownParticle(particle_id)),
        }
    }

    /// The forces staged for a live particle, in the order of arrival.
    pub fn get_applied_forces(&self, particle_id: ParticleId) -> (r: Result<
        Vec<Force>,
        SimulationError,
    >)
        requires
            self.wf(),
        ensures
            r is Ok <==> self@.is_live(particle_id),
            r matches Ok(forces) ==> force_views(forces@) == self@.staged_forces(particle_id),
            r matches Err(e) ==> e == SimulationError::UnknownParticle(particle_id),
    {
        match self.find_live(particle_id) {
            Some(i) => {
                let staged = &self.particles[i].forces;
                let mut forces: Vec<Force> = Vec::new();
                let mut j: usize = 0;
                while j < staged.len()
                    invariant
                        j <= staged@.len(),
                        forces@ == staged@.subrange(0, j as int),
                    decreases staged@.len() - j,
                {
                    forces.push(staged[j]);
                    assert(forces@ =~= staged@.subrange(0, j + 1));
                    j = j + 1;
                }
                assert(forces@ =~= staged@);
                Ok(forces)
            },
            None => Err(SimulationError::UnknownParticle(particle_id)),
        }
    }

    /// The number of live particles.
    pub fn particle_count(&self) -> (r: usize)
        ensures
            r == self@.live.len(),
    {
        self.particles.len()
    }

    /// Lets the simulation run: `step` is refused from now on.
    pub fn start(&mut self)
        ensures
            final(self)@ == old(self)@.started(),
            final(self).callback() == old(self).callback(),
            old(self).wf() ==> final(self).wf(),
    {
        self.is_paused = false;
    }

    /// Pauses the simulation: `step` is accepted from now on.
    pub fn pause(&mut self)
        ensures
            final(self)@ == old(self)@.halted(),
            final(self).callback() == old(self).callback(),
            old(self).wf() ==> final(self).wf(),
    {
        self.is_paused = true;
    }

    pub fn is_paused(&self) -> (r: bool)
        ensures
            r == self@.paused,
    {
        self.is_paused
    }

    pub fn get_tick_duration(&self) -> (r: Time)
        ensures
            r@ == self@.tick_duration,
    {
        self.tick_duration
    }

    pub fn get_simulation_speed(&self) -> (r: Option<Scalar>)
        ensures
            r is Some <==> self@.simulation_speed is Some,
            r matches Some(speed) ==> self@.simulation_speed == Some(speed@),
    {
        self.simulation_speed
    }

    /// Whether a per-tick callback was configured.
    pub fn has_on_tick(&self) -> (r: bool)
        ensures
            r == self@.has_callback,
    {
        self.on_tick.is_some()
    }

    /// The number of ticks carried out so far.
    pub fn get_elapsed_ticks(&self) -> (r: Ticks)
        ensures
            r@ == self@.elapsed_ticks,
    {
        self.elapsed_ticks
    }

    /// The simulated time that has passed: the tick duration times the number
    /// of ticks carried out.
    pub fn get_elapsed_time(&self) -> (r: Time)
        ensures
            r@ == float_product(self@.tick_duration, integer_bits(self@.elapsed_ticks)),
    {
        self.tick_duration * Scalar::from_u64(self.elapsed_ticks.get_number())
    }
}

/// The slots that outlive a tick come, in order, from the slots that are not
/// doomed, and no identifier appears among them that was not there before.
pub proof fn lemma_survivors<F>(live: Seq<SlotView<F>>, time: u64)
    ensures
        survivors(live, time).len() <= live.len(),
        forall|j: int|
            0 <= j < survivors(live, time).len() ==> exists|i: int|
                0 <= i < live.len() && !(#[trigger] live[i]).doomed && #[trigger] survivors(
                    live,
                    time,
                )[j] == integrated(live[i], time),
        forall|i: int|
            0 <= i < live.len() && !(#[trigger] live[i]).doomed ==> exists|j: int|
                0 <= j < survivors(live, time).len() && #[trigger] survivors(live, time)[j]
                    == integrated(live[i], time),
    decreases live.len(),
{
    if live.len() > 0 {
        let front = live.drop_last();
        lemma_survivors(front, time);
        let rest = survivors(front, time);
        let all = survivors(live, time);
        assert forall|j: int| 0 <= j < all.len() implies exists|i: int|
            0 <= i < live.len() && !(#[trigger] live[i]).doomed && #[trigger] all[j] == integrated(
                live[i],
                time,
            ) by {
            if j < rest.len() {
                let i = choose|i: int|
                    0 <= i < front.len() && !(#[trigger] front[i]).doomed && rest[j] == integrated(
                        front[i],
                        time,
                    );
                assert(live[i] == front[i]);
            } else {
                assert(all[j] == integrated(live[live.len() - 1], time));
            }
        }
        assert forall|i: int| 0 <= i < live.len() && !(#[trigger] live[i]).doomed implies exists|
            j: int,
        |
            0 <= j < all.len() && #[trigger] all[j] == integrated(live[i], time) by {
            if i < front.len() {
                assert(front[i] == live[i]);
                let j = choose|j: int|
                    0 <= j < rest.len() && #[trigger] rest[j] == integrated(front[i], time);
                assert(all[j] == rest[j]);
            } else {
                assert(all[all.len() - 1] == integrated(live[i], time));
            }
        }
    }
}

/// Among slots without repeated identifiers, those that outlive a tick have
/// no repeated identifiers either.
pub proof fn lemma_survivors_distinct<F>(live: Seq<SlotView<F>>, time: u64)
    requires
        forall|i: int, j: int|
            0 <= i < live.len() && 0 <= j < live.len() && i != j ==> (#[trigger] live[i]).particle.id
                != (#[trigger] live[j]).particle.id,
    ensures
        forall|i: int, j: int|
            0 <= i < survivors(live, time).len() && 0 <= j < survivors(live, time).len() && i != j
                ==> (#[trigger] survivors(live, time)[i]).particle.id != (#[trigger] survivors(
                live,
                time,
            )[j]).particle.id,
    decreases live.len(),
{
    if live.len() > 0 {
        let front = live.drop_last();
        assert forall|i: int, j: int|
            0 <= i < front.len() && 0 <= j < front.len() && i != j implies (
        #[trigger] front[i]).particle.id != (#[trigger] front[j]).particle.id by {
            assert(front[i] == live[i]);
            assert(front[j] == live[j]);
        }
        lemma_survivors_distinct(front, time);
        lemma_survivors(front, time);
        let rest = survivors(front, time);
        let all = survivors(live, time);
        if !live.last().doomed {
            assert forall|i: int, j: int|
                0 <= i < all.len() && 0 <= j < all.len() && i != j implies (
            #[trigger] all[i]).particle.id != (#[trigger] all[j]).particle.id by {
                if i < rest.len() && j < rest.len() {
                    assert(all[i] == rest[i]);
                    assert(all[j] == rest[j]);
                } else {
                    let k = if i < rest.len() {
                        i
                    } else {
                        j
                    };
                    let source = choose|source: int|
                        0 <= source < front.len() && !(#[trigger] front[source]).doomed && rest[k]
                            == integrated(front[source], time);
                    assert(front[source] == live[source]);
                    assert(all[k] == rest[k]);
                    assert(all[all.len() - 1] == integrated(live[live.len() - 1], time));
                }
            }
        }
    }
}

/// A tick keeps a state valid.
pub proof fn lemma_tick_wf<F>(state: SimulationView<F>)
    requires
        state.wf(),
        state.elapsed_ticks < u64::MAX,
    ensures
        state.tick().wf(),
{
    let time = state.tick_duration;
    let kept = survivors(state.live, time);
    let new = arrivals(state.staged);
    let after = state.tick();
    lemma_survivors(state.live, time);
    lemma_survivors_distinct(state.live, time);
    assert forall|i: int, j: int|
        0 <= i < after.live.len() && 0 <= j < after.live.len() && i != j implies (
    #[trigger] after.live[i]).particle.id != (#[trigger] after.live[j]).particle.id by {
        if i < kept.len() {
            assert(after.live[i] == kept[i]);
            let source = choose|source: int|
                0 <= source < state.live.len() && !(#[trigger] state.live[source]).doomed
                    && kept[i] == integrated(state.live[source], time);
            if j < kept.len() {
                assert(after.live[j] == kept[j]);
            } else {
                assert(after.live[j] == fresh_slot(state.staged[j - kept.len()]));
            }
        } else {
            assert(after.live[i] == fresh_slot(state.staged[i - kept.len()]));
            if j < kept.len() {
                assert(after.live[j] == kept[j]);
                let source = choose|source: int|
                    0 <= source < state.live.len() && !(#[trigger] state.live[source]).doomed
                        && kept[j] == integrated(state.live[source], time);
            } else {
                assert(after.live[j] == fresh_slot(state.staged[j - kept.len()]));
            }
        }
    }
}

impl<F: Field, C: TickCallback<F>> Simulation<F, C> {
    /// What each field of a live particle reports of itself, one record per
    /// attached field.
    pub fn get_field_info(&self, particle_id: ParticleId) -> (r: Result<
        Vec<FieldInfo>,
        SimulationError,
    >)
        requires
            self.wf(),
        ensures
            r is Ok <==> self@.is_live(particle_id),
            r matches Ok(infos) ==> {
                &&& infos@.len() == self@.particle(particle_id).fields.len()
                &&& forall|i: int|
                    0 <= i < infos@.len() ==> reported_by(
                        self@.particle(particle_id).fields[i],
                        (#[trigger] infos@[i])@,
                    )
            },
            r matches Err(e) ==> e == SimulationError::UnknownParticle(particle_id),
    {
        match self.find_live(particle_id) {
            Some(i) => Ok(self.particles[i].particle.get_field_info()),
            None => Err(SimulationError::UnknownParticle(particle_id)),
        }
    }

    /// The live particles as they stand, for fields and callbacks to read.
    pub fn snapshot(&self) -> (r: Snapshot)
        requires
            self.wf(),
        ensures
            r.wf(),
            self.pictured_in(&r),
    {
        let mut snapshot = Snapshot::new(self.tick_duration, self.elapsed_ticks);
        let mut i: usize = 0;
        while i < self.particles.len()
            invariant
                i <= self.particles@.len(),
                self.wf(),
                snapshot.wf(),
                snapshot@.tick_duration == self@.tick_duration,
                snapshot@.elapsed_ticks == self@.elapsed_ticks,
                snapshot@.particles.len() == i,
                forall|k: int|
                    0 <= k < i ==> pictures(#[trigger] snapshot@.particles[k], self@.live[k].particle),
            decreases self.particles@.len() - i,
        {
            let particle = &self.particles[i].particle;
            let record = ParticleRecord::new(
                particle.get_id(),
                particle.get_mass(),
                particle.get_position(),
                particle.get_velocity(),
                particle.get_field_info(),
            );
            proof {
                assert(self@.live[i as int].particle == particle@);
                if snapshot@.contains(record@.id) {
                    let k = snapshot@.index_of(record@.id);
                    assert(pictures(snapshot@.particles[k], self@.live[k].particle));
                    assert(self@.live[k].particle.id == self@.live[i as int].particle.id);
                }
            }
            snapshot.push(record);
            i = i + 1;
        }
        snapshot
    }

    /// Whether `snapshot` shows the live particles of this simulation.
    pub open spec fn pictured_in(&self, snapshot: &Snapshot) -> bool {
        &&& snapshot@.tick_duration == self@.tick_duration
        &&& snapshot@.elapsed_ticks == self@.elapsed_ticks
        &&& snapshot@.particles.len() == self@.live.len()
        &&& forall|k: int|
            0 <= k < self@.live.len() ==> pictures(
                #[trigger] snapshot@.particles[k],
                self@.live[k].particle,
            )
    }

    /// Asks the callback, then every field that some particle triggers, what
    /// is to be done this tick.
    fn collect_commands(&self, snapshot: &Snapshot) -> (commands: Vec<Command<F>>)
        requires
            self.wf(),
            snapshot.wf(),
            self.pictured_in(snapshot),
        ensures
            tick_asks(self.callback(), self@.live, *snapshot, commands@),
            self@.inert() ==> commands@.len() == 0,
    {
        let mut commands: Vec<Command<F>> = match &self.on_tick {
            Some(callback) => callback.on_tick(snapshot),
            None => Vec::new(),
        };
        let ghost first = commands@;
        assert(callback_asks(self.callback(), *snapshot, first));
        let ghost mut rest: Seq<Command<F>> = Seq::empty();
        assert(commands@ =~= first + rest);
        let mut i: usize = 0;
        while i < self.particles.len()
            invariant
                i <= self.particles@.len(),
                self.wf(),
                snapshot.wf(),
                self.pictured_in(snapshot),
                commands@ == first + rest,
                particles_ask(self@.live, *snapshot, i as nat, rest),
                self@.inert() ==> commands@.len() == 0,
            decreases self.particles@.len() - i,
        {
            let particle = &self.particles[i].particle;
            let fields = particle.get_fields();
            let owner = particle.get_id();
            let position = particle.get_position();
            let ghost infos = snapshot@.particles[i as int].fields;
            let ghost base = commands@;
            let ghost mut part: Seq<Command<F>> = Seq::empty();
            proof {
                assert(self@.live[i as int].particle == particle@);
                assert(pictures(snapshot@.particles[i as int], self@.live[i as int].particle));
                lemma_index_of(snapshot@, i as int);
                assert(position == displacement_of(snapshot@.record(owner).position));
                assert(commands@ =~= base + part);
            }
            let mut j: usize = 0;
            while j < fields.len()
                invariant
                    j <= fields@.len(),
                    i < self.particles@.len(),
                    i < snapshot@.particles.len(),
                    fields@ == self@.live[i as int].particle.fields,
                    infos == snapshot@.particles[i as int].fields,
                    fields@.len() == infos.len(),
                    snapshot.wf(),
                    snapshot@.contains(owner),
                    snapshot@.record(owner) == snapshot@.particles[i as int],
                    position == displacement_of(snapshot@.record(owner).position),
                    commands@ == base + part,
                    particle_asks(fields@, infos, *snapshot, owner, j as nat, part),
                    self@.inert() ==> commands@.len() == 0,
                decreases fields@.len() - j,
            {
                let info = snapshot.get_field(i, j);
                let triggered = snapshot.trigger_set(owner, info);
                let ghost earlier = part;
                let ghost mut more: Seq<Command<F>> = Seq::empty();
                if !triggered.is_empty() {
                    let mut result = fields[j].effect(snapshot, position, &triggered, owner);
                    proof {
                        more = result@;
                    }
                    commands.append(&mut result);
                }
                proof {
                    assert(field_asks(fields@[j as int], infos[j as int], *snapshot, owner, more));
                    part = earlier + more;
                    assert(commands@ =~= base + part);
                    assert(particle_asks(
                        fields@,
                        infos,
                        *snapshot,
                        owner,
                        ((j + 1) as nat - 1) as nat,
                        earlier,
                    ) && field_asks(
                        fields@[(j + 1) as nat - 1],
                        infos[(j + 1) as nat - 1],
                        *snapshot,
                        owner,
                        more,
                    ));
                    assert(particle_asks(fields@, infos, *snapshot, owner, (j + 1) as nat, part));
                }
                j = j + 1;
            }
            proof {
                let before = rest;
                rest = before + part;
                assert(commands@ =~= first + rest);
                let live = self@.live;
                let count = (i + 1) as nat;
                assert(particles_ask(live, *snapshot, (count - 1) as nat, before) && particle_asks(
                    live[count - 1].particle.fields,
                    snapshot@.particles[count - 1].fields,
                    *snapshot,
                    live[count - 1].particle.id,
                    live[count - 1].particle.fields.len(),
                    part,
                ));
                assert(particles_ask(live, *snapshot, count, rest));
            }
            i = i + 1;
        }
        commands
    }

    /// Stages what a command asks for.
    ///
    /// Refused, with nothing changed, when the command names a particle that
    /// is not live, or in the event that the identifier drawn for a new
    /// particle is in use.
    pub fn stage(&mut self, command: Command<F>) -> (r: Result<(), SimulationError>)
        requires
            old(self).wf(),
        ensures
            final(self).wf(),
            final(self).callback() == old(self).callback(),
            staged_after(old(self)@, final(self)@),
            r is Ok ==> staged_by(old(self)@, command, final(self)@),
            r is Err ==> final(self)@ == old(self)@,
            r matches Err(e) ==> refused_with(old(self)@, command, e),
            command matches Command::ApplyForce { particle_id, .. } ==> (r is Ok <==> old(self)@.is_live(particle_id)),
            command matches Command::DeleteParticle { particle_id } ==> (r is Ok <==> old(self)@.is_live(particle_id)),
    {
        match command {
            Command::ApplyForce { particle_id, force } => {
                let r = self.apply_force(particle_id, force);
                proof {
                    if r is Ok {
                        let at = old(self)@.live_index(particle_id);
                        assert(old(self)@.live[at].forces.is_prefix_of(self@.live[at].forces));
                    }
                }
                r
            },
            Command::DeleteParticle { particle_id } => self.delete_particle(particle_id),
            Command::CreateParticle { mass, position, fields } => {
                match self.create_particle(mass, position, fields) {
                    Ok(_) => Ok(()),
                    Err(e) => Err(e),
                }
            },
        }
    }

    /// Carries out what is staged: removes the doomed particles, moves every
    /// other live particle through one tick, under its staged forces if it
    /// has any and at its velocity if not, lets the waiting particles in, and
    /// counts the tick.
    pub fn advance(&mut self)
        requires
            old(self).wf(),
            old(self)@.elapsed_ticks < u64::MAX,
        ensures
            final(self).wf(),
            final(self).callback() == old(self).callback(),
            final(self)@ == old(self)@.tick(),
    {
        let ghost before = self@;
        let time = self.tick_duration;
        let ghost mut done: int = 0;
        let mut i: usize = 0;
        while i < self.particles.len()
            invariant
                0 <= done <= before.live.len(),
                i <= self.particles@.len(),
                self.particles@.len() - i == before.live.len() - done,
                time@ == before.tick_duration,
                slot_views(self.particles@.subrange(0, i as int)) == survivors(
                    before.live.subrange(0, done),
                    time@,
                ),
                slot_views(self.particles@.subrange(i as int, self.particles@.len() as int))
                    == before.live.subrange(done, before.live.len() as int),
                self.tick_duration == old(self).tick_duration,
                self.elapsed_ticks == old(self).elapsed_ticks,
                self.simulation_speed == old(self).simulation_speed,
                self.on_tick == old(self).on_tick,
                self.particles_to_add == old(self).particles_to_add,
                self.is_paused == old(self).is_paused,
            decreases self.particles@.len() - i,
        {
            let ghost slots = self.particles@;
            proof {
                let rest = slot_views(slots.subrange(i as int, slots.len() as int));
                assert(rest[0] == slots[i as int]@);
                assert(before.live.subrange(done, before.live.len() as int)[0]
                    == before.live[done]);
                assert(before.live.subrange(0, done + 1).drop_last() =~= before.live.subrange(
                    0,
                    done,
                ));
                assert(before.live.subrange(0, done + 1).last() == before.live[done]);
            }
            if self.particles[i].doomed {
                self.particles.remove(i);
                proof {
                    assert(self.particles@.subrange(0, i as int) =~= slots.subrange(0, i as int));
                    assert(slot_views(
                        self.particles@.subrange(i as int, self.particles@.len() as int),
                    ) =~= slot_views(
                        slots.subrange(i as int, slots.len() as int),
                    ).subrange(1, slots.len() - i));
                    assert(before.live.subrange(done + 1, before.live.len() as int)
                        =~= before.live.subrange(done, before.live.len() as int).subrange(
                        1,
                        before.live.len() - done,
                    ));
                }
            } else {
                self.particles[i].integrate(time);
                proof {
                    assert(slot_views(self.particles@.subrange(0, i + 1)) =~= slot_views(
                        slots.subrange(0, i as int),
                    ).push(integrated(before.live[done], time@)));
                    assert(slot_views(
                        self.particles@.subrange(i + 1, self.particles@.len() as int),
                    ) =~= slot_views(
                        slots.subrange(i as int, slots.len() as int),
                    ).subrange(1, slots.len() - i));
                    assert(before.live.subrange(done + 1, before.live.len() as int)
                        =~= before.live.subrange(done, before.live.len() as int).subrange(
                        1,
                        before.live.len() - done,
                    ));
                }
                i = i + 1;
            }
            proof {
                done = done + 1;
            }
        }
        proof {
            assert(self.particles@.subrange(0, i as int) =~= self.particles@);
            assert(before.live.subrange(0, done) =~= before.live);
            assert forall|k: int| 0 <= k < self.particles_to_add@.len() implies (
            #[trigger] self.particles_to_add@[k])@ == arrivals(before.staged)[k] by {
                assert(old(self).waiting_untouched());
            }
        }
        let ghost kept = self.particles@;
        let ghost waiting = self.particles_to_add@;
        self.particles.append(&mut self.particles_to_add);
        self.elapsed_ticks = Ticks::new(self.elapsed_ticks.get_number() + 1);
        proof {
            assert(self.particles@ == kept + waiting);
            assert(self@.live =~= before.tick().live);
            assert(self@.staged =~= Seq::empty());
            lemma_tick_wf(before);
        }
    }

    /// Whether an accepted call of `step` can lead from this simulation to
    /// the state `after`: the callback and the fields are asked, with the live
    /// particles as they stand, what is to be done; that is staged, command by
    /// command; and what is staged is carried out.
    pub open spec fn may_step_to(&self, after: SimulationView<F>) -> bool {
        exists|snapshot: Snapshot, commands: Seq<Command<F>>, staged: SimulationView<F>|
            #![trigger tick_asks(self.callback(), self@.live, snapshot, commands), staged_all(self@, commands, staged)]
            snapshot.wf() && self.pictured_in(&snapshot) && tick_asks(
                self.callback(),
                self@.live,
                snapshot,
                commands,
            ) && staged_all(self@, commands, staged) && after == staged.tick()
    }

    /// Whether an accepted call of `step` can end with `error` in the state
    /// `after`: the callback and the fields are asked what is to be done, that
    /// is staged, command by command, up to one that is refused with `error`.
    pub open spec fn may_stop_at(&self, error: SimulationError, after: SimulationView<F>) -> bool {
        exists|snapshot: Snapshot, commands: Seq<Command<F>>, done: int|
            #![trigger tick_asks(self.callback(), self@.live, snapshot, commands), commands.take(done)]
            snapshot.wf() && self.pictured_in(&snapshot) && tick_asks(
                self.callback(),
                self@.live,
                snapshot,
                commands,
            ) && 0 <= done < commands.len() && staged_all(self@, commands.take(done), after)
                && refused_with(after, commands[done], error)
    }

    /// While the simulation is paused, executes a single tick: the callback
    /// and the fields are asked what is to be done, that is staged, and what
    /// is staged is carried out.
    ///
    /// Refused with `NotPaused`, and nothing changed, while the simulation
    /// runs. Where a field or the callback asks for something that cannot be
    /// staged, the error of that request comes back, the tick is not carried
    /// out, and what was staged before it stays staged.
    pub fn step(&mut self) -> (r: Result<(), SimulationError>)
        requires
            old(self).wf(),
            old(self)@.elapsed_ticks < u64::MAX,
        ensures
            final(self).wf(),
            final(self).callback() == old(self).callback(),
            !old(self)@.accepts_step() <==> r == Err::<(), SimulationError>(
                SimulationError::NotPaused,
            ),
            !old(self)@.accepts_step() ==> final(self)@ == old(self)@,
            r is Err ==> staged_after(old(self)@, final(self)@),
            r matches Err(e) ==> !old(self)@.accepts_step() || old(self).may_stop_at(
                e,
                final(self)@,
            ),
            r is Ok ==> old(self).may_step_to(final(self)@) && stepped(old(self)@, final(self)@),
            old(self)@.accepts_step() && old(self)@.inert() ==> r is Ok && final(self)@ == old(self)@.tick(),
    {
        if !self.is_paused {
            proof {
                lemma_staged_after_reflexive(self@);
            }
            return Err(SimulationError::NotPaused);
        }
        let snapshot = self.snapshot();
        let commands = self.collect_commands(&snapshot);
        proof {
            lemma_staged_after_reflexive(self@);
        }
        let ghost all = commands@;
        for command in iter: commands
            invariant
                self.wf(),
                self.callback() == old(self).callback(),
                self@.elapsed_ticks < u64::MAX,
                self@.paused,
                staged_after(old(self)@, self@),
                iter.seq() == all,
                old(self)@.inert() ==> all.len() == 0,
                staged_all(old(self)@, all.take(iter.index()), self@),
                snapshot.wf(),
                old(self).pictured_in(&snapshot),
                tick_asks(old(self).callback(), old(self)@.live, snapshot, all),
        {
            let ghost earlier = self@;
            let ghost done = iter.index();
            let staged = self.stage(command);
            proof {
                lemma_staged_after_transitive(old(self)@, earlier, self@);
                let next = all.take(done + 1);
                assert(next.drop_last() =~= all.take(done));
                assert(next.last() == command);
                if staged is Ok {
                    assert(staged_all(old(self)@, next.drop_last(), earlier) && staged_by(
                        earlier,
                        next.last(),
                        self@,
                    ));
                    assert(staged_all(old(self)@, next, self@));
                }
            }
            if let Err(e) = staged {
                assert(refused_with(earlier, all[done], e));
                assert(tick_asks(old(self).callback(), old(self)@.live, snapshot, all)
                    && staged_all(old(self)@, all.take(done), self@));
                return Err(e);
            }
        }
        let ghost staged = self@;
        proof {
            assert(all.take(all.len() as int) =~= all);
        }
        self.advance();
        assert(staged_after(old(self)@, staged) && self@ == staged.tick());
        assert(tick_asks(old(self).callback(), old(self)@.live, snapshot, all) && staged_all(
            old(self)@,
            all,
            staged,
        ));
        Ok(())
    }
}

/// Whether a record of a snapshot shows a live particle: the same identifier,
/// mass, position and velocity, and for each field what it reports of itself.
pub open spec fn pictures<F: Field>(record: RecordView, particle: ParticleView<F>) -> bool {
    &&& record.id == particle.id
    &&& record.mass == particle.mass
    &&& record.position == particle.position
    &&& record.velocity == particle.velocity
    &&& record.fields.len() == particle.fields.len()
    &&& forall|j: int|
        0 <= j < record.fields.len() ==> reported_by(particle.fields[j], #[trigger] record.fields[j])
}

/// Every state is itself with nothing more staged.
pub proof fn lemma_staged_after_reflexive<F>(state: SimulationView<F>)
    ensures
        staged_after(state, state),
{
}

/// More staged on top of more staged is more staged.
pub proof fn lemma_staged_after_transitive<F>(
    first: SimulationView<F>,
    second: SimulationView<F>,
    third: SimulationView<F>,
)
    requires
        staged_after(first, second),
        staged_after(second, third),
    ensures
        staged_after(first, third),
{
    assert forall|i: int| 0 <= i < first.live.len() implies {
        &&& (#[trigger] third.live[i]).particle == first.live[i].particle
        &&& first.live[i].forces.is_prefix_of(third.live[i].forces)
        &&& first.live[i].doomed ==> third.live[i].doomed
    } by {
        assert(second.live[i].particle == first.live[i].particle);
    }
}

} // verus!
