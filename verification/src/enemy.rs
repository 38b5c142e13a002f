//! The enemy and the rules by which it changes its mind.

use vstd::prelude::*;
use rand::rngs::StdRng;
use crate::random::draw_in_range;
use crate::timer::{Timer, TimerMode};
use crate::vector::Vec3;

verus! {

/// Health at or below which an enemy counts as weak.
pub const WEAK_THRESHOLD: i32 = 30_000;

/// Health of a fresh enemy.
pub const FULL_HEALTH: i32 = 100_000;

/// Period of the timer on which an enemy reconsiders its state.
pub const STATE_PERIOD: u32 = 1_500_000;

/// Time that a fallen enemy stays away.
pub const RESPAWN_DELAY: u32 = 2_000_000;

/// Period of the timer on which an enemy may look for a new target.
pub const TARGET_PERIOD: u32 = 1_000_000;

/// Patrol targets lie within this distance of the platform's centre on
/// both horizontal axes.
pub const PATROL_RANGE: i32 = 8_000;

/// Height of patrol targets and of the point where actors reappear: two
/// units above the platform's top.
pub const HOVER_HEIGHT: i32 = 7_000;

/// An enemy on patrol may take up the chase when the player is nearer
/// than this.
pub const CHASE_DISTANCE: i32 = 10_000;

/// An enemy in the chase gives up when the player is farther than this, one
/// and a half times the chase distance.
pub const GIVE_UP_DISTANCE: i32 = 15_000;

/// Chances in a hundred that an enemy on patrol with the player in range
/// takes up the chase.
pub const CHASE_CHANCE: u32 = 70;

/// Chances in a hundred that an enemy in the chase goes back on patrol.
pub const GIVE_UP_CHANCE: u32 = 40;

/// What an enemy is doing.
#[derive(Clone, Copy, Debug, PartialEq, Eq, Structural)]
pub enum EnemyState {
    Patrol,
    Chase,
    Fallen,
}

impl Default for EnemyState {
    fn default() -> (state: EnemyState)
        ensures
            state == EnemyState::Patrol,
    {
        EnemyState::Patrol
    }
}

/// One enemy.  `target` names another actor by its id and owns nothing: the
/// actor may be gone by the time the id is looked up.
#[derive(Clone, Copy, Debug, PartialEq, Eq, Structural)]
pub struct Enemy {
    pub state: EnemyState,
    pub target_position: Option<Vec3>,
    pub state_timer: Timer,
    pub is_fallen: bool,
    pub respawn_timer: Timer,
    pub health: i32,
    pub target: Option<u64>,
    pub target_timer: Timer,
}

/// The state that an enemy in `state` takes when its state timer fires,
/// with the player at the squared distance `distance_squared` and the
/// percentage `draw` rolled.
///
/// On patrol, the enemy takes up the chase where the player is in range and
/// the draw comes up.  In the chase, it goes back on patrol where the draw
/// comes up or the player is out of reach.  The timer never makes an enemy
/// fall; one that has fallen is sent on patrol.
pub open spec fn spec_next_state(state: EnemyState, distance_squared: int, draw: u32) -> EnemyState {
    match state {
        EnemyState::Patrol => {
            if distance_squared < CHASE_DISTANCE * CHASE_DISTANCE && draw < CHASE_CHANCE {
                EnemyState::Chase
            } else {
                EnemyState::Patrol
            }
        },
        EnemyState::Chase => {
            if draw < GIVE_UP_CHANCE || distance_squared > GIVE_UP_DISTANCE * GIVE_UP_DISTANCE {
                EnemyState::Patrol
            } else {
                EnemyState::Chase
            }
        },
        EnemyState::Fallen => EnemyState::Patrol,
    }
}

/// The state timer leads to the patrol or to the chase and never makes an
/// enemy fall, whatever the state, the distance and the draw.
pub proof fn lemma_timer_never_fells(state: EnemyState, distance_squared: int, draw: u32)
    ensures
        spec_next_state(state, distance_squared, draw) == EnemyState::Patrol || spec_next_state(
            state,
            distance_squared,
            draw,
        ) == EnemyState::Chase,
        spec_next_state(state, distance_squared, draw) != EnemyState::Fallen,
{
}

/// Whether `position` is a patrol target: at hover height, within the
/// patrol range on both horizontal axes.
pub open spec fn is_patrol_position(position: Vec3) -> bool {
    &&& -PATROL_RANGE <= position.x < PATROL_RANGE
    &&& position.y == HOVER_HEIGHT
    &&& -PATROL_RANGE <= position.z < PATROL_RANGE
}

impl Enemy {
    /// The fallen flag and the state say the same.
    pub open spec fn wf(self) -> bool {
        self.is_fallen <==> self.state == EnemyState::Fallen
    }

    /// A fresh enemy: on patrol, with nowhere to go yet and nobody to
    /// chase, at full health.
    pub open spec fn spec_new() -> Enemy {
        Enemy {
            state: EnemyState::Patrol,
            target_position: None,
            state_timer: Timer::fresh(STATE_PERIOD, TimerMode::Repeating),
            is_fallen: false,
            respawn_timer: Timer::fresh(RESPAWN_DELAY, TimerMode::Once),
            health: FULL_HEALTH,
            target: None,
            target_timer: Timer::fresh(TARGET_PERIOD, TimerMode::Repeating),
        }
    }

    pub open spec fn spec_is_weak(self) -> bool {
        self.health <= WEAK_THRESHOLD
    }

    /// The enemy after its state timer has fired.
    ///
    /// A fallen enemy is left as it is: only the respawn brings it back.
    /// Any other takes the state that `spec_next_state` names.  Whenever
    /// that is the patrol, it sets out for `patrol_target`; coming from the
    /// chase it also lets go of whom it chased.
    pub open spec fn spec_reconsider(self, distance_squared: int, draw: u32, patrol_target: Vec3) -> Enemy {
        let next = spec_next_state(self.state, distance_squared, draw);
        if self.is_fallen {
            self
        } else if next == EnemyState::Patrol {
            Enemy {
                state: next,
                target: if self.state == EnemyState::Chase { None } else { self.target },
                target_position: Some(patrol_target),
                ..self
            }
        } else {
            Enemy { state: next, ..self }
        }
    }

    pub fn new() -> (enemy: Enemy)
        ensures
            enemy == Enemy::spec_new(),
            enemy.wf(),
    {
        Enemy {
            state: EnemyState::Patrol,
            target_position: None,
            state_timer: Timer::new(STATE_PERIOD, TimerMode::Repeating),
            is_fallen: false,
            respawn_timer: Timer::new(RESPAWN_DELAY, TimerMode::Once),
            health: FULL_HEALTH,
            target: None,
            target_timer: Timer::new(TARGET_PERIOD, TimerMode::Repeating),
        }
    }

    /// The patrol target with the horizontal coordinates `x` and `z`.
    pub fn platform_position(x: i32, z: i32) -> (position: Vec3)
        ensures
            position == (Vec3 { x, y: HOVER_HEIGHT, z }),
    {
        Vec3 { x, y: HOVER_HEIGHT, z }
    }

    /// A patrol target drawn from `rng`.
    pub fn get_random_platform_position(rng: &mut StdRng) -> (position: Vec3)
        ensures
            is_patrol_position(position),
    {
        let x = draw_in_range(rng, -PATROL_RANGE, PATROL_RANGE);
        let z = draw_in_range(rng, -PATROL_RANGE, PATROL_RANGE);
        Enemy::platform_position(x, z)
    }

    pub fn is_weak(&self) -> (weak: bool)
        ensures
            weak == self.spec_is_weak(),
    {
        self.health <= WEAK_THRESHOLD
    }

    /// Lets the enemy reconsider its state, as it does when its state
    /// timer fires.  This never makes an enemy fall.
    pub fn reconsider(&mut self, distance_squared: u128, draw: u32, patrol_target: Vec3)
        ensures
            *final(self) == old(self).spec_reconsider(distance_squared as int, draw, patrol_target),
            !old(self).is_fallen ==> final(self).state != EnemyState::Fallen,
            final(self).is_fallen == old(self).is_fallen,
            old(self).wf() ==> final(self).wf(),
    {
        if self.is_fallen {
            return;
        }
        let next = next_state(self.state, distance_squared, draw);
        if let EnemyState::Patrol = next {
            if let EnemyState::Chase = self.state {
                self.target = None;
            }
            self.target_position = Some(patrol_target);
        }
        self.state = next;
    }
}

/// The state after the state timer has fired: see `spec_next_state`.  For
/// every state, distance and draw it is the patrol or the chase.
pub fn next_state(state: EnemyState, distance_squared: u128, draw: u32) -> (next: EnemyState)
    ensures
        next == spec_next_state(state, distance_squared as int, draw),
        next == EnemyState::Patrol || next == EnemyState::Chase,
{
    let near: u128 = 100_000_000;
    let far: u128 = 225_000_000;
    match state {
        EnemyState::Patrol => {
            if distance_squared < near && draw < CHASE_CHANCE {
                EnemyState::Chase
            } else {
                EnemyState::Patrol
            }
        },
        EnemyState::Chase => {
            if draw < GIVE_UP_CHANCE || distance_squared > far {
                EnemyState::Patrol
            } else {
                EnemyState::Chase
            }
        },
        EnemyState::Fallen => EnemyState::Patrol,
    }
}

} // verus!
