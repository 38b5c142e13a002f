//! Actors as the rules see them: a body that the physics engine moves, an
//! id that others know them by, and the contacts between them.

use vstd::prelude::*;
use crate::enemy::HOVER_HEIGHT;
use crate::vector::Vec3;

verus! {

/// An actor as others see it: its id and where it is.
#[derive(Clone, Copy, Debug, PartialEq, Eq, Structural)]
pub struct Actor {
    pub id: u64,
    pub position: Vec3,
}

/// Two things that have begun to touch, by their ids.
#[derive(Clone, Copy, Debug, PartialEq, Eq, Structural)]
pub struct Contact {
    pub first: u64,
    pub second: u64,
}

/// Where an actor is and how it moves, as the physics engine holds it.
#[derive(Clone, Copy, Debug, PartialEq, Eq, Structural)]
pub struct Body {
    pub position: Vec3,
    pub velocity: Vec3,
    pub angular_velocity: Vec3,
}

/// Height at which a fallen actor is kept while it is away: a hundred
/// units under the ground level, far below the arena and out of sight.
pub const PARKED_HEIGHT: i32 = -100_000;

/// The point above the platform's centre where actors reappear.
pub open spec fn respawn_position() -> Vec3 {
    Vec3 { x: 0, y: HOVER_HEIGHT, z: 0 }
}

impl Body {
    /// The body held still.
    pub open spec fn halted(self) -> Body {
        Body { velocity: Vec3::spec_zero(), angular_velocity: Vec3::spec_zero(), ..self }
    }

    /// The body held still at the point where actors reappear.
    pub open spec fn respawned(self) -> Body {
        Body {
            position: respawn_position(),
            velocity: Vec3::spec_zero(),
            angular_velocity: Vec3::spec_zero(),
        }
    }

    /// The body held still far below the arena, straight under where it
    /// fell: at the parked height, or where it is if that is deeper still.
    pub open spec fn parked(self) -> Body {
        Body {
            position: Vec3 {
                y: if self.position.y < PARKED_HEIGHT { self.position.y } else { PARKED_HEIGHT },
                ..self.position
            },
            velocity: Vec3::spec_zero(),
            angular_velocity: Vec3::spec_zero(),
        }
    }

    /// Takes the body far below the arena and holds it still.
    pub fn park(&mut self)
        ensures
            *final(self) == old(self).parked(),
            final(self).position.y <= PARKED_HEIGHT,
    {
        if self.position.y >= PARKED_HEIGHT {
            self.position.y = PARKED_HEIGHT;
        }
        self.halt();
    }

    /// Stops the body where it is.
    pub fn halt(&mut self)
        ensures
            *final(self) == old(self).halted(),
    {
        self.velocity = Vec3::zero();
        self.angular_velocity = Vec3::zero();
    }
}

/// Whether `actor` is the one asked for: the one with the id `id` where
/// `same` is set, any other where it is not.
pub open spec fn is_match(actor: Actor, id: u64, same: bool) -> bool {
    (actor.id == id) == same
}

/// The first of `actors` that matches.
pub open spec fn first_match(actors: Seq<Actor>, id: u64, same: bool) -> Option<Actor>
    decreases actors.len(),
{
    if actors.len() == 0 {
        None
    } else {
        match first_match(actors.drop_last(), id, same) {
            Some(actor) => Some(actor),
            None => if is_match(actors.last(), id, same) {
                Some(actors.last())
            } else {
                None
            },
        }
    }
}

/// What `first_match` finds matches, and nothing before it does.
pub proof fn lemma_first_match(actors: Seq<Actor>, id: u64, same: bool)
    ensures
        match first_match(actors, id, same) {
            Some(actor) => exists|i: int|
                0 <= i < actors.len() && actors[i] == actor && is_match(actor, id, same)
                    && forall|j: int| 0 <= j < i ==> !is_match(#[trigger] actors[j], id, same),
            None => forall|j: int| 0 <= j < actors.len() ==> !is_match(#[trigger] actors[j], id, same),
        },
    decreases actors.len(),
{
    if actors.len() > 0 {
        let front = actors.drop_last();
        lemma_first_match(front, id, same);
        match first_match(front, id, same) {
            Some(actor) => {
                let i = choose|i: int|
                    0 <= i < front.len() && front[i] == actor && is_match(actor, id, same)
                        && forall|j: int| 0 <= j < i ==> !is_match(#[trigger] front[j], id, same);
                assert(actors[i] == actor);
                assert forall|j: int| 0 <= j < i implies !is_match(#[trigger] actors[j], id, same) by {
                    assert(front[j] == actors[j]);
                }
            },
            None => {
                assert forall|j: int| 0 <= j < front.len() implies !is_match(
                    #[trigger] actors[j],
                    id,
                    same,
                ) by {
                    assert(front[j] == actors[j]);
                }
                if is_match(actors.last(), id, same) {
                    let i = actors.len() - 1;
                    assert(actors[i] == actors.last());
                }
            },
        }
    }
}

/// The first of `actors` that matches, if any does.
pub fn find_first(actors: &Vec<Actor>, id: u64, same: bool) -> (found: Option<Actor>)
    ensures
        found == first_match(actors@, id, same),
        match found {
            Some(actor) => exists|i: int|
                0 <= i < actors.len() && actors[i] == actor && is_match(actor, id, same)
                    && forall|j: int| 0 <= j < i ==> !is_match(#[trigger] actors[j], id, same),
            None => forall|j: int| 0 <= j < actors.len() ==> !is_match(#[trigger] actors[j], id, same),
        },
{
    let mut found: Option<Actor> = None;
    let mut i: usize = 0;
    while i < actors.len()
        invariant
            i <= actors.len(),
            found == first_match(actors@.take(i as int), id, same),
        decreases actors.len() - i,
    {
        proof {
            assert(actors@.take(i + 1).drop_last() =~= actors@.take(i as int));
        }
        if found.is_none() && (actors[i].id == id) == same {
            found = Some(actors[i]);
        }
        i += 1;
    }
    proof {
        assert(actors@.take(i as int) =~= actors@);
        lemma_first_match(actors@, id, same);
    }
    found
}

} // verus!
