use particle_sim::contact_fields::{FloorAndWallField, StickyField};
use particle_sim::physical_quantities::{Displacement, Force, Mass, Time, Velocity};
use particle_sim::scalar::Scalar;
use particle_sim::simulation::{NoCallback, Simulation};
use particle_sim::simulation_objects::{Command, Field, ParticleId};
use particle_sim::snapshot::{Snapshot, TriggerSet};

fn s(x: f64) -> Scalar {
    Scalar::from_bits(x.to_bits())
}

fn time(t: f64) -> Time {
    Time::new(s(t))
}

fn mass(m: f64) -> Mass {
    Mass::new(s(m)).unwrap()
}

fn at(x: f64, y: f64) -> Displacement {
    Displacement::new(s(x), s(y))
}

/********************* what a field is handed ********************/

// A field of any kind, which asks for nothing.
struct Probe {
    radius: f64,
    affects_self: bool,
    triggers_on_fields: bool,
    triggers_on_particles: bool,
    name: String,
}

fn probe(radius: f64, on_fields: bool, on_particles: bool, name: &str) -> Probe {
    Probe {
        radius,
        affects_self: false,
        triggers_on_fields: on_fields,
        triggers_on_particles: on_particles,
        name: String::from(name),
    }
}

impl Field for Probe {
    fn effect(
        &self,
        _simulation: &Snapshot,
        _position: Displacement,
        _triggered_by: &TriggerSet,
        _field_owner_id: ParticleId,
    ) -> Vec<Command<Probe>> {
        Vec::new()
    }

    fn get_radius(&self) -> Scalar {
        s(self.radius)
    }

    fn affects_self(&self) -> bool {
        self.affects_self
    }

    fn affects_others(&self) -> bool {
        true
    }

    fn triggers_on_fields(&self) -> bool {
        self.triggers_on_fields
    }

    fn triggers_on_particles(&self) -> bool {
        self.triggers_on_particles
    }

    fn get_name(&self) -> &String {
        &self.name
    }
}

// What comes with each particle that triggers the first field of `owner`:
// for each the identifier and, per entry, the name of the field it records.
fn handed(
    simulation: &Simulation<Probe, NoCallback>,
    owner: ParticleId,
) -> Vec<(ParticleId, Vec<Option<String>>)> {
    let snapshot = simulation.snapshot();
    let infos = snapshot.get_field_info(owner).unwrap();
    let set = snapshot.trigger_set(owner, &infos[0]);
    (0..set.len())
        .map(|i| {
            (
                set.get_particle_id(i),
                set.get_field_info(i)
                    .iter()
                    .map(|info| info.as_ref().map(|info| info.get_name().clone()))
                    .collect(),
            )
        })
        .collect()
}

fn world(owner_field: Probe) -> (Simulation<Probe, NoCallback>, [ParticleId; 4]) {
    let mut simulation: Simulation<Probe, NoCallback> =
        Simulation::new(time(1.0), None, None).unwrap();
    let owner = simulation.create_particle(mass(1.0), at(0.0, 0.0), vec![owner_field]).unwrap();
    let bare = simulation.create_particle(mass(1.0), at(1.0, 0.0), Vec::new()).unwrap();
    let dressed = simulation
        .create_particle(
            mass(1.0),
            at(0.0, 2.0),
            vec![
                probe(0.5, false, true, "small"),
                probe(f64::NAN, false, true, "broken"),
                probe(-3.0, true, false, "large"),
            ],
        )
        .unwrap();
    let far = simulation
        .create_particle(mass(1.0), at(0.0, 6.0), vec![probe(100.0, true, true, "huge")])
        .unwrap();
    simulation.step().unwrap();
    (simulation, [owner, bare, dressed, far])
}

#[test]
fn a_field_that_reacts_to_particles_gets_a_marker_per_particle() {
    let (simulation, [owner, bare, dressed, _far]) = world(probe(5.0, false, true, "owner"));
    assert_eq!(handed(&simulation, owner), vec![(bare, vec![None]), (dressed, vec![None])]);
}

#[test]
fn a_field_that_reacts_to_nothing_gets_a_marker_per_particle() {
    let (simulation, [owner, bare, dressed, _far]) = world(probe(5.0, false, false, "owner"));
    assert_eq!(handed(&simulation, owner), vec![(bare, vec![None]), (dressed, vec![None])]);
}

#[test]
fn a_field_that_reacts_to_fields_gets_the_overlapping_fields() {
    let (simulation, [owner, bare, dressed, _far]) = world(probe(5.0, true, false, "owner"));
    let small = Some(String::from("small"));
    let large = Some(String::from("large"));
    // A field whose radius is no number overlaps nothing.
    assert_eq!(handed(&simulation, owner), vec![(bare, vec![]), (dressed, vec![small, large])]);
}

#[test]
fn a_field_that_reacts_to_both_gets_the_marker_first() {
    let (simulation, [owner, bare, dressed, _far]) = world(probe(5.0, true, true, "owner"));
    let small = Some(String::from("small"));
    let large = Some(String::from("large"));
    assert_eq!(
        handed(&simulation, owner),
        vec![(bare, vec![None]), (dressed, vec![None, small, large])]
    );
}

#[test]
fn a_particle_beyond_the_radius_does_not_trigger_however_large_its_fields() {
    let (simulation, [owner, _bare, _dressed, far]) = world(probe(5.0, true, true, "owner"));
    assert!(handed(&simulation, owner).iter().all(|(id, _)| *id != far));
    // The far particle's own field reaches everybody.
    let reached: Vec<ParticleId> = handed(&simulation, far).iter().map(|(id, _)| *id).collect();
    assert_eq!(reached.len(), 3);
    assert!(reached.contains(&owner));
}

#[test]
fn the_owner_comes_with_a_single_marker() {
    let mut field = probe(5.0, true, false, "owner");
    field.affects_self = true;
    let (simulation, [owner, bare, _dressed, _far]) = world(field);
    let handed = handed(&simulation, owner);
    assert_eq!(handed[0], (owner, vec![None]));
    assert_eq!(handed[1], (bare, vec![]));
    assert_eq!(handed.len(), 3);
}

/********************* floors ********************/

#[test]
fn a_floor_pushes_what_is_not_floor() {
    let mut simulation: Simulation<FloorAndWallField, NoCallback> =
        Simulation::new(time(1.0), None, None).unwrap();
    let floor = |name: &str| {
        FloorAndWallField::new(Force::new(s(0.0), s(500.0)), s(10.0), String::from(name))
    };
    let left = simulation.create_particle(mass(1.0), at(0.0, 0.0), vec![floor("Floor")]).unwrap();
    let right = simulation.create_particle(mass(1.0), at(5.0, 0.0), vec![floor("Floor")]).unwrap();
    let faller = simulation.create_particle(mass(2.0), at(2.0, 6.0), Vec::new()).unwrap();
    let other = simulation.create_particle(mass(2.0), at(2.0, 7.0), vec![floor("Wall")]).unwrap();
    let high = simulation.create_particle(mass(2.0), at(2.0, 60.0), Vec::new()).unwrap();
    simulation.step().unwrap();
    simulation.step().unwrap();

    // The floor particles do not push each other; the wall pushes each.
    assert_eq!(simulation.get_velocity(left).unwrap(), Velocity::new(s(0.0), s(500.0)));
    assert_eq!(simulation.get_velocity(right).unwrap(), Velocity::new(s(0.0), s(500.0)));
    assert_eq!(simulation.get_position(left).unwrap(), at(0.0, 250.0));
    // Both floor particles and the wall push the faller: 3 * 500 / 2.
    assert_eq!(simulation.get_velocity(faller).unwrap(), Velocity::new(s(0.0), s(750.0)));
    // Both floor particles push the wall: 2 * 500 / 2.
    assert_eq!(simulation.get_velocity(other).unwrap(), Velocity::new(s(0.0), s(500.0)));
    // Out of reach.
    assert_eq!(simulation.get_velocity(high).unwrap(), Velocity::new(s(0.0), s(0.0)));
}

#[test]
fn a_floor_reports_itself() {
    let floor = FloorAndWallField::new(Force::new(s(1.0), s(2.0)), s(10.0), String::from("Floor"));
    assert_eq!(floor.get_radius(), s(10.0));
    assert_eq!(floor.get_name(), "Floor");
    assert!(!floor.affects_self());
    assert!(floor.affects_others());
    assert!(floor.triggers_on_fields());
    assert!(!floor.triggers_on_particles());
}

/********************* sticking ********************/

#[test]
fn sticky_particles_take_up_each_other_s_velocity() {
    let mut simulation: Simulation<StickyField, NoCallback> =
        Simulation::new(time(1.0), None, None).unwrap();
    let sticky = || StickyField::new(s(5.0), String::from("Faller"));
    let a = simulation.create_particle(mass(1.0), at(0.0, 0.0), vec![sticky()]).unwrap();
    let b = simulation.create_particle(mass(4.0), at(1.0, 0.0), vec![sticky()]).unwrap();
    let bare = simulation.create_particle(mass(1.0), at(0.0, 1.0), Vec::new()).unwrap();
    simulation.step().unwrap();

    simulation.apply_force(a, Force::new(s(2.0), s(0.0))).unwrap();
    simulation.step().unwrap();
    assert_eq!(simulation.get_velocity(a).unwrap(), Velocity::new(s(2.0), s(0.0)));
    assert_eq!(simulation.get_velocity(b).unwrap(), Velocity::new(s(0.0), s(0.0)));

    simulation.step().unwrap();
    // Each takes up half the difference.
    assert_eq!(simulation.get_velocity(a).unwrap(), Velocity::new(s(1.0), s(0.0)));
    assert_eq!(simulation.get_velocity(b).unwrap(), Velocity::new(s(1.0), s(0.0)));
    // A particle without the field is left alone.
    assert_eq!(simulation.get_velocity(bare).unwrap(), Velocity::new(s(0.0), s(0.0)));
    assert_eq!(simulation.get_position(bare).unwrap(), at(0.0, 1.0));
}

#[test]
fn sticky_fields_of_other_names_do_not_stick() {
    let mut simulation: Simulation<StickyField, NoCallback> =
        Simulation::new(time(0.5), None, None).unwrap();
    let a = simulation
        .create_particle(mass(1.0), at(0.0, 0.0), vec![StickyField::new(s(5.0), String::from("A"))])
        .unwrap();
    let b = simulation
        .create_particle(mass(1.0), at(1.0, 0.0), vec![StickyField::new(s(5.0), String::from("B"))])
        .unwrap();
    simulation.step().unwrap();
    simulation.apply_force(a, Force::new(s(2.0), s(0.0))).unwrap();
    simulation.step().unwrap();
    simulation.step().unwrap();
    assert_eq!(simulation.get_velocity(a).unwrap(), Velocity::new(s(1.0), s(0.0)));
    assert_eq!(simulation.get_velocity(b).unwrap(), Velocity::new(s(0.0), s(0.0)));
}

#[test]
fn a_sticky_field_asks_once_per_overlapping_field_of_its_name() {
    let mut simulation: Simulation<StickyField, NoCallback> =
        Simulation::new(time(0.25), None, None).unwrap();
    let sticky = || StickyField::new(s(5.0), String::from("Faller"));
    let a = simulation.create_particle(mass(1.0), at(0.0, 0.0), vec![sticky()]).unwrap();
    let b = simulation
        .create_particle(mass(3.0), at(1.0, 0.0), vec![sticky(), sticky()])
        .unwrap();
    simulation.step().unwrap();
    simulation.apply_force(a, Force::new(s(8.0), s(-4.0))).unwrap();
    simulation.step().unwrap();
    assert_eq!(simulation.get_velocity(a).unwrap(), Velocity::new(s(2.0), s(-1.0)));

    let snapshot = simulation.snapshot();
    let infos = snapshot.get_field_info(a).unwrap();
    let set = snapshot.trigger_set(a, &infos[0]);
    let commands = sticky().effect(&snapshot, snapshot.get_position(a).unwrap(), &set, a);
    // (2, -1) / 2 / 0.25 * 3 = (12, -6), once for each of b's two fields.
    assert_eq!(commands.len(), 2);
    for command in &commands {
        match command {
            Command::ApplyForce { particle_id, force } => {
                assert_eq!(*particle_id, b);
                assert_eq!(*force, Force::new(s(12.0), s(-6.0)));
            }
            _ => panic!("a sticky field asks for forces"),
        }
    }
}

#[test]
fn a_sticky_field_reports_itself() {
    let sticky = StickyField::new(s(15.0), String::from("Faller"));
    assert_eq!(sticky.get_radius(), s(15.0));
    assert_eq!(sticky.get_name(), "Faller");
    assert!(!sticky.affects_self());
    assert!(sticky.affects_others());
    assert!(sticky.triggers_on_fields());
    assert!(!sticky.triggers_on_particles());
}
