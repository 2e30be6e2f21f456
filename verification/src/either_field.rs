//! A field that is one of two kinds, so that one simulation can hold fields
//! of several kinds: nest it for more than two.

use crate::physical_quantities::Displacement;
use crate::scalar::Scalar;
use crate::simulation_objects::{Command, Field, ParticleId};
use crate::snapshot::{Snapshot, TriggerSet};
use vstd::prelude::*;

verus! {

/// A field of the kind `A` or of the kind `B`. It reports and asks for what
/// the field inside reports and asks for.
pub enum EitherField<A, B> {
    First(A),
    Second(B),
}

/// Whether `outer` is the command `inner` of a field of the first kind: the
/// same request, the fields of a new particle each wrapped as `First`.
pub open spec fn lifts_first<A, B>(inner: Command<A>, outer: Command<EitherField<A, B>>) -> bool {
    match inner {
        Command::ApplyForce { particle_id, force } => outer == (Command::<
            EitherField<A, B>,
        >::ApplyForce { particle_id, force }),
        Command::DeleteParticle { particle_id } => outer == (Command::<
            EitherField<A, B>,
        >::DeleteParticle { particle_id }),
        Command::CreateParticle { mass, position, fields } => {
            &&& outer matches Command::CreateParticle { mass: m, position: p, fields: lifted }
            &&& m == mass
            &&& p == position
            &&& lifted@ == fields@.map_values(|f: A| EitherField::<A, B>::First(f))
        },
    }
}

/// Whether `outer` is the command `inner` of a field of the second kind: the
/// same request, the fields of a new particle each wrapped as `Second`.
pub open spec fn lifts_second<A, B>(inner: Command<B>, outer: Command<EitherField<A, B>>) -> bool {
    match inner {
        Command::ApplyForce { particle_id, force } => outer == (Command::<
            EitherField<A, B>,
        >::ApplyForce { particle_id, force }),
        Command::DeleteParticle { particle_id } => outer == (Command::<
            EitherField<A, B>,
        >::DeleteParticle { particle_id }),
        Command::CreateParticle { mass, position, fields } => {
            &&& outer matches Command::CreateParticle { mass: m, position: p, fields: lifted }
            &&& m == mass
            &&& p == position
            &&& lifted@ == fields@.map_values(|f: B| EitherField::<A, B>::Second(f))
        },
    }
}

/// Whether `outer` holds the commands of `inner`, in order, as commands of
/// fields of the first kind.
pub open spec fn all_lift_first<A, B>(
    inner: Seq<Command<A>>,
    outer: Seq<Command<EitherField<A, B>>>,
) -> bool {
    &&& outer.len() == inner.len()
    &&& forall|i: int| 0 <= i < inner.len() ==> lifts_first(inner[i], #[trigger] outer[i])
}

/// Whether `outer` holds the commands of `inner`, in order, as commands of
/// fields of the second kind.
pub open spec fn all_lift_second<A, B>(
    inner: Seq<Command<B>>,
    outer: Seq<Command<EitherField<A, B>>>,
) -> bool {
    &&& outer.len() == inner.len()
    &&& forall|i: int| 0 <= i < inner.len() ==> lifts_second(inner[i], #[trigger] outer[i])
}

fn lift_first<A, B>(inner: Vec<Command<A>>) -> (outer: Vec<Command<EitherField<A, B>>>)
    ensures
        all_lift_first(inner@, outer@),
{
    let mut outer: Vec<Command<EitherField<A, B>>> = Vec::new();
    let ghost all = inner@;
    for command in commands: inner
        invariant
            commands.seq() == all,
            outer@.len() == commands.index(),
            forall|i: int| 0 <= i < outer@.len() ==> lifts_first(all[i], #[trigger] outer@[i]),
    {
        let lifted = match command {
            Command::ApplyForce { particle_id, force } => Command::ApplyForce { particle_id, force },
            Command::DeleteParticle { particle_id } => Command::DeleteParticle { particle_id },
            Command::CreateParticle { mass, position, fields } => {
                let mut wrapped: Vec<EitherField<A, B>> = Vec::new();
                let ghost bare = fields@;
                for field in fields_iter: fields
                    invariant
                        fields_iter.seq() == bare,
                        wrapped@ == bare.take(fields_iter.index()).map_values(
                            |f: A| EitherField::<A, B>::First(f),
                        ),
                {
                    wrapped.push(EitherField::First(field));
                    assert(wrapped@ =~= bare.take(fields_iter.index() + 1).map_values(
                        |f: A| EitherField::<A, B>::First(f),
                    ));
                }
                assert(bare.take(bare.len() as int) =~= bare);
                Command::CreateParticle { mass, position, fields: wrapped }
            },
        };
        outer.push(lifted);
    }
    outer
}

fn lift_second<A, B>(inner: Vec<Command<B>>) -> (outer: Vec<Command<EitherField<A, B>>>)
    ensures
        all_lift_second(inner@, outer@),
{
    let mut outer: Vec<Command<EitherField<A, B>>> = Vec::new();
    let ghost all = inner@;
    for command in commands: inner
        invariant
            commands.seq() == all,
            outer@.len() == commands.index(),
            forall|i: int| 0 <= i < outer@.len() ==> lifts_second(all[i], #[trigger] outer@[i]),
    {
        let lifted = match command {
            Command::ApplyForce { particle_id, force } => Command::ApplyForce { particle_id, force },
            Command::DeleteParticle { particle_id } => Command::DeleteParticle { particle_id },
            Command::CreateParticle { mass, position, fields } => {
                let mut wrapped: Vec<EitherField<A, B>> = Vec::new();
                let ghost bare = fields@;
                for field in fields_iter: fields
                    invariant
                        fields_iter.seq() == bare,
                        wrapped@ == bare.take(fields_iter.index()).map_values(
                            |f: B| EitherField::<A, B>::Second(f),
                        ),
                {
                    wrapped.push(EitherField::Second(field));
                    assert(wrapped@ =~= bare.take(fields_iter.index() + 1).map_values(
                        |f: B| EitherField::<A, B>::Second(f),
                    ));
                }
                assert(bare.take(bare.len() as int) =~= bare);
                Command::CreateParticle { mass, position, fields: wrapped }
            },
        };
        outer.push(lifted);
    }
    outer
}

impl<A: Field, B: Field> Field for EitherField<A, B> {
    /// Asks for what the field inside asks for.
    fn effect(
        &self,
        simulation: &Snapshot,
        position: Displacement,
        triggered_by: &TriggerSet,
        field_owner_id: ParticleId,
    ) -> (commands: Vec<Command<EitherField<A, B>>>)
        ensures
            match *self {
                EitherField::First(a) => exists|inner: Vec<Command<A>>| #[trigger]
                    call_ensures(
                        A::effect,
                        (&a, simulation, position, triggered_by, field_owner_id),
                        inner,
                    ) && all_lift_first(inner@, commands@),
                EitherField::Second(b) => exists|inner: Vec<Command<B>>| #[trigger]
                    call_ensures(
                        B::effect,
                        (&b, simulation, position, triggered_by, field_owner_id),
                        inner,
                    ) && all_lift_second(inner@, commands@),
            },
    {
        match self {
            EitherField::First(a) => {
                let inner = a.effect(simulation, position, triggered_by, field_owner_id);
                lift_first(inner)
            },
            EitherField::Second(b) => {
                let inner = b.effect(simulation, position, triggered_by, field_owner_id);
                lift_second(inner)
            },
        }
    }

    fn get_radius(&self) -> (r: Scalar)
        ensures
            match *self {
                EitherField::First(a) => call_ensures(A::get_radius, (&a,), r),
                EitherField::Second(b) => call_ensures(B::get_radius, (&b,), r),
            },
    {
        match self {
            EitherField::First(a) => a.get_radius(),
            EitherField::Second(b) => b.get_radius(),
        }
    }

    fn affects_self(&self) -> (r: bool)
        ensures
            match *self {
                EitherField::First(a) => call_ensures(A::affects_self, (&a,), r),
                EitherField::Second(b) => call_ensures(B::affects_self, (&b,), r),
            },
    {
        match self {
            EitherField::First(a) => a.affects_self(),
            EitherField::Second(b) => b.affects_self(),
        }
    }

    fn affects_others(&self) -> (r: bool)
        ensures
            match *self {
                EitherField::First(a) => call_ensures(A::affects_others, (&a,), r),
                EitherField::Second(b) => call_ensures(B::affects_others, (&b,), r),
            },
    {
        match self {
            EitherField::First(a) => a.affects_others(),
            EitherField::Second(b) => b.affects_others(),
        }
    }

    fn triggers_on_fields(&self) -> (r: bool)
        ensures
            match *self {
                EitherField::First(a) => call_ensures(A::triggers_on_fields, (&a,), r),
                EitherField::Second(b) => call_ensures(B::triggers_on_fields, (&b,), r),
            },
    {
        match self {
            EitherField::First(a) => a.triggers_on_fields(),
            EitherField::Second(b) => b.triggers_on_fields(),
        }
    }

    fn triggers_on_particles(&self) -> (r: bool)
        ensures
            match *self {
                EitherField::First(a) => call_ensures(A::triggers_on_particles, (&a,), r),
                EitherField::Second(b) => call_ensures(B::triggers_on_particles, (&b,), r),
            },
    {
        match self {
            EitherField::First(a) => a.triggers_on_particles(),
            EitherField::Second(b) => b.triggers_on_particles(),
        }
    }

    fn get_name(&self) -> (r: &String)
        ensures
            match *self {
                EitherField::First(a) => call_ensures(A::get_name, (&a,), r),
                EitherField::Second(b) => call_ensures(B::get_name, (&b,), r),
            },
    {
        match self {
            EitherField::First(a) => a.get_name(),
            EitherField::Second(b) => b.get_name(),
        }
    }
}

} // verus!
