//! The enemies that a game starts with.

use vstd::prelude::*;
use rand::rngs::StdRng;
use crate::boost::EnergyBoost;
use crate::enemy::{Enemy, FULL_HEALTH, HOVER_HEIGHT, PATROL_RANGE};
use crate::random::draw_in_range;
use crate::score::{BearScore, STARTING_SCORE};
use crate::vector::Vec3;

verus! {

/// How many enemies a game starts with: one in each corner.
pub const ENEMY_COUNT: usize = 4;

/// An enemy starts with at least this much health, and with less than
/// full health.
pub const SPAWN_HEALTH_MIN: i32 = 50_000;

/// All that makes up an enemy at the start of a game.
#[derive(Debug)]
pub struct EnemySpawn {
    pub enemy: Enemy,
    pub position: Vec3,
    pub score: BearScore,
    pub boost: EnergyBoost,
}

/// The corner that enemy `index` starts in.
pub open spec fn spawn_corner(index: int) -> Vec3 {
    Vec3 {
        x: if index < 2 { (-PATROL_RANGE) as i32 } else { PATROL_RANGE },
        y: HOVER_HEIGHT,
        z: if index % 2 == 0 { (-PATROL_RANGE) as i32 } else { PATROL_RANGE },
    }
}

/// The name that enemy `index` goes by.
pub open spec fn spawn_name(index: int) -> Seq<char> {
    if index == 0 {
        "Enemy 1"@
    } else if index == 1 {
        "Enemy 2"@
    } else if index == 2 {
        "Enemy 3"@
    } else {
        "Enemy 4"@
    }
}

/// Whether `spawn` is how enemy `index` starts, whatever its health: a
/// fresh enemy on patrol, in its corner, with a fresh boost and the
/// starting score under its name.
pub open spec fn is_start(spawn: EnemySpawn, index: int) -> bool {
    &&& spawn.enemy == (Enemy { health: spawn.enemy.health, ..Enemy::spec_new() })
    &&& spawn.position == spawn_corner(index)
    &&& spawn.score.value == STARTING_SCORE
    &&& spawn.score.name@ == spawn_name(index)
    &&& spawn.boost == EnergyBoost::spec_default()
}

/// Whether `spawn` is how enemy `index` starts a game: as `is_start` says,
/// with a health between the least and the full.
pub open spec fn is_spawn(spawn: EnemySpawn, index: int) -> bool {
    &&& is_start(spawn, index)
    &&& SPAWN_HEALTH_MIN <= spawn.enemy.health < FULL_HEALTH
}

/// The four corners are four different places.
pub proof fn lemma_corners_differ(i: int, j: int)
    requires
        0 <= i < j < ENEMY_COUNT,
    ensures
        spawn_corner(i) != spawn_corner(j),
{
}

/// Enemy `index` at the start of a game, with the health `health`.
pub fn spawn_enemy(index: usize, health: i32) -> (spawn: EnemySpawn)
    ensures
        spawn.enemy.health == health,
        is_start(spawn, index as int),
{
    let mut enemy = Enemy::new();
    enemy.health = health;
    let x: i32 = if index < 2 { -PATROL_RANGE } else { PATROL_RANGE };
    let z: i32 = if index % 2 == 0 { -PATROL_RANGE } else { PATROL_RANGE };
    let name = if index == 0 {
        "Enemy 1"
    } else if index == 1 {
        "Enemy 2"
    } else if index == 2 {
        "Enemy 3"
    } else {
        "Enemy 4"
    };
    EnemySpawn {
        enemy,
        position: Vec3 { x, y: HOVER_HEIGHT, z },
        score: BearScore::new(name.to_owned()),
        boost: EnergyBoost::default(),
    }
}

/// The enemies that a game starts with, their health drawn from `rng`.
pub fn spawn_enemies(rng: &mut StdRng) -> (spawns: Vec<EnemySpawn>)
    ensures
        spawns.len() == ENEMY_COUNT,
        forall|i: int| 0 <= i < spawns.len() ==> is_spawn(#[trigger] spawns[i], i),
{
    let mut spawns: Vec<EnemySpawn> = Vec::new();
    let mut i: usize = 0;
    while i < ENEMY_COUNT
        invariant
            i <= ENEMY_COUNT,
            spawns.len() == i,
            forall|k: int| 0 <= k < i ==> is_spawn(#[trigger] spawns[k], k),
        decreases ENEMY_COUNT - i,
    {
        let health = draw_in_range(rng, SPAWN_HEALTH_MIN, FULL_HEALTH);
        spawns.push(spawn_enemy(i, health));
        i += 1;
    }
    spawns
}

} // verus!
