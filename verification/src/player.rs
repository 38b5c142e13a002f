//! The player: its size, and what a fall costs it.

use vstd::prelude::*;
use crate::actor::{find_first, first_match, Actor, Body, Contact};
use crate::enemy::HOVER_HEIGHT;
use crate::fixed::UNIT;
use crate::movement::{apply_fall_acceleration, collision_push, spec_collision_push,
    spec_fall_acceleration, FALL_THRESHOLD};
use crate::score::{after_fall, BearScore};
use crate::vector::Vec3;

verus! {

/// The player.  Scales are factors in thousandths, one per axis.
#[derive(Clone, Copy, Debug, PartialEq, Eq, Structural)]
pub struct Player {
    pub speed: i32,
    pub base_scale: Vec3,
    pub current_scale: Vec3,
}

impl Player {
    /// The scale of an actor of natural size.
    pub open spec fn natural_scale() -> Vec3 {
        Vec3 { x: UNIT, y: UNIT, z: UNIT }
    }

    pub fn new(speed: i32) -> (player: Player)
        ensures
            player == (Player {
                speed,
                base_scale: Player::natural_scale(),
                current_scale: Player::natural_scale(),
            }),
    {
        let base_scale = Vec3::new(UNIT, UNIT, UNIT);
        Player { speed, base_scale, current_scale: base_scale }
    }
}

/// The player's body and score, and whether the game is over.
pub struct PlayerFall {
    pub body: Body,
    pub score: int,
    pub game_over: bool,
}

/// One frame of the player's fall rules.
///
/// Under the platform's top the player is pulled down.  Below the fall
/// threshold it loses a point.  If that leaves no point, the game is over
/// and the player stays where it is; otherwise it reappears, held still, at
/// the respawn point.
pub open spec fn spec_check_fall(body: Body, score: int, elapsed: u32) -> PlayerFall {
    let pulled = Body {
        velocity: spec_fall_acceleration(body.velocity, body.position.y, elapsed),
        ..body
    };
    if body.position.y < FALL_THRESHOLD {
        if after_fall(score) <= 0 {
            PlayerFall { body: pulled, score: after_fall(score), game_over: true }
        } else {
            PlayerFall { body: pulled.respawned(), score: after_fall(score), game_over: false }
        }
    } else {
        PlayerFall { body: pulled, score, game_over: false }
    }
}

/// One frame of the player's fall rules: see `spec_check_fall`.  The
/// result says whether the game is over, which it is exactly when this
/// frame's fall takes the last point.
pub fn check_fall(body: &mut Body, score: &mut BearScore, elapsed: u32) -> (game_over: bool)
    ensures
        (PlayerFall { body: *final(body), score: final(score).value as int, game_over })
            == spec_check_fall(*old(body), old(score).value as int, elapsed),
        final(score).name == old(score).name,
        game_over <==> old(body).position.y < FALL_THRESHOLD && old(score).value <= 1,
{
    body.velocity = apply_fall_acceleration(body.velocity, body.position.y, elapsed);
    if body.position.y < FALL_THRESHOLD {
        score.lose_point();
        if score.value <= 0 {
            return true;
        }
        body.position = Vec3 { x: 0, y: HOVER_HEIGHT, z: 0 };
        body.halt();
    }
    false
}

/// Whom the player `player_id` touches in a contact, if it is a party to
/// it at all.
pub open spec fn touched_by_player(contact: Contact, player_id: u64) -> Option<u64> {
    if contact.first == player_id {
        Some(contact.second)
    } else if contact.second == player_id {
        Some(contact.first)
    } else {
        None
    }
}

/// The player's velocity after the contacts of one frame.  Each contact
/// between the player and one of `others`, in its turn, pushes the player
/// away from the other.
pub open spec fn spec_handle_collisions(velocity: Vec3, player: Actor, contacts: Seq<Contact>, others: Seq<Actor>) -> Vec3
    decreases contacts.len(),
{
    if contacts.len() == 0 {
        velocity
    } else {
        let before = spec_handle_collisions(velocity, player, contacts.drop_last(), others);
        match touched_by_player(contacts.last(), player.id) {
            Some(id) => match first_match(others, id, true) {
                Some(other) => spec_collision_push(before, player.position, other.position),
                None => before,
            },
            None => before,
        }
    }
}

/// The contacts of one frame, as far as they push the player: see
/// `spec_handle_collisions`.
pub fn handle_collisions(velocity: Vec3, player: &Actor, contacts: &Vec<Contact>, others: &Vec<Actor>) -> (r: Vec3)
    ensures
        r == spec_handle_collisions(velocity, *player, contacts@, others@),
{
    let mut current = velocity;
    let mut i: usize = 0;
    while i < contacts.len()
        invariant
            i <= contacts.len(),
            current == spec_handle_collisions(velocity, *player, contacts@.take(i as int), others@),
        decreases contacts.len() - i,
    {
        proof {
            assert(contacts@.take(i + 1).drop_last() =~= contacts@.take(i as int));
        }
        let contact = contacts[i];
        let touched = if contact.first == player.id {
            Some(contact.second)
        } else if contact.second == player.id {
            Some(contact.first)
        } else {
            None
        };
        if let Some(id) = touched {
            if let Some(other) = find_first(others, id, true) {
                current = collision_push(current, &player.position, &other.position);
            }
        }
        i += 1;
    }
    proof {
        assert(contacts@.take(i as int) =~= contacts@);
    }
    current
}

} // verus!
