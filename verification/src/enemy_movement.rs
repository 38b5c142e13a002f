//! What an enemy does in one frame: reconsider, pick whom or where to go
//! for, and steer there.

use vstd::prelude::*;
use rand::rngs::StdRng;
use crate::actor::{find_first, first_match, Actor};
use crate::enemy::{is_patrol_position, Enemy, EnemyState};
use crate::fixed::{div_toward_zero, divide_toward_zero, saturate_i32, UNIT};
use crate::movement::{apply_movement, spec_apply_movement};
use crate::random::{draw_in_range, draw_percent, PERCENT};
use crate::vector::{vec3_near, Vec3};

verus! {

/// Acceleration of an enemy on patrol, at rest.
pub const ENEMY_BASE_FORCE: u32 = 18_000;

/// Top speed of an enemy on patrol, at rest.
pub const ENEMY_MAX_SPEED: u32 = 7_000;

/// Within this distance of where it is going an enemy stops pushing and
/// lets its velocity decay, so as not to overshoot.
pub const ARRIVAL_DISTANCE: i32 = 2_000;

/// How far ahead of the player, seen from the enemy, a chasing enemy aims.
pub const LEAD_DISTANCE: i32 = 1_500;

/// Largest sideways sway of the heading, in thousandths of its length, on
/// patrol and in the chase.
pub const PATROL_SWAY: i32 = 200;

pub const CHASE_SWAY: i32 = 100;

/// What chance contributes to one frame of one enemy.
#[derive(Clone, Copy, Debug, PartialEq, Eq, Structural)]
pub struct BehaviorDraws {
    /// A percentage, for the change of state.
    pub transition: u32,
    /// Where to patrol to next.
    pub patrol_target: Vec3,
    /// The sway of the heading, in thousandths of the largest sway.
    pub sway: i32,
}

impl BehaviorDraws {
    /// Each draw lies in the range it is drawn from.
    pub open spec fn in_range(self) -> bool {
        &&& self.transition < PERCENT
        &&& is_patrol_position(self.patrol_target)
        &&& -UNIT <= self.sway <= UNIT
    }
}

/// The factor, in thousandths, on an enemy's acceleration.  From the
/// strongest down: the chase in the boost, the chase at rest, the patrol in
/// the boost, the patrol at rest.
pub open spec fn force_factor(state: EnemyState, is_boosting: bool) -> u32 {
    match (state, is_boosting) {
        (EnemyState::Chase, true) => 3000,
        (EnemyState::Chase, false) => 2500,
        (_, true) => 2000,
        (_, false) => 1000,
    }
}

/// The factor, in thousandths, on an enemy's top speed, ranked as the
/// factor on its acceleration is.
pub open spec fn speed_factor(state: EnemyState, is_boosting: bool) -> u32 {
    match (state, is_boosting) {
        (EnemyState::Chase, true) => 1500,
        (EnemyState::Chase, false) => 1300,
        (_, true) => 1200,
        (_, false) => 1000,
    }
}

pub open spec fn enemy_acceleration(state: EnemyState, is_boosting: bool) -> u32 {
    (ENEMY_BASE_FORCE * force_factor(state, is_boosting) / 1000) as u32
}

pub open spec fn enemy_max_speed(state: EnemyState, is_boosting: bool) -> u32 {
    (ENEMY_MAX_SPEED * speed_factor(state, is_boosting) / 1000) as u32
}

/// Largest sway of the heading in `state`: wider on patrol than in the
/// chase.
pub open spec fn sway_range(state: EnemyState) -> i32 {
    if state == EnemyState::Chase {
        CHASE_SWAY
    } else {
        PATROL_SWAY
    }
}

/// The actor that the id `id` stands for, as the enemy `self_id` sees it:
/// another enemy, else the player, else nobody.
pub open spec fn spec_lookup(id: u64, self_id: u64, player: Option<Actor>, enemies: Seq<Actor>) -> Option<Actor> {
    if id != self_id && first_match(enemies, id, true) is Some {
        first_match(enemies, id, true)
    } else if player is Some && player->0.id == id {
        player
    } else {
        None
    }
}

/// Whom the enemy `self_id` chases.  It keeps to the actor it has locked
/// onto while that id still stands for somebody.  Otherwise it takes the
/// player; without a player the first other enemy; else nobody.
pub open spec fn spec_resolve_target(
    target: Option<u64>,
    self_id: u64,
    player: Option<Actor>,
    enemies: Seq<Actor>,
) -> Option<Actor> {
    let held = match target {
        Some(id) => spec_lookup(id, self_id, player, enemies),
        None => None,
    };
    if held is Some {
        held
    } else if player is Some {
        player
    } else {
        first_match(enemies, self_id, false)
    }
}

/// The point that an enemy at `position` goes for when it chases `target`.
/// The player is led: the aim lies beyond it, seen from the enemy.  Another
/// enemy is aimed at where it is.
pub open spec fn spec_aim(position: Vec3, target: Actor, player: Option<Actor>) -> Vec3 {
    if player is Some && player->0.id == target.id {
        target.position.spec_plus(
            position.spec_direction_to(target.position).spec_scaled(LEAD_DISTANCE as int),
        )
    } else {
        target.position
    }
}

/// `direction` with `sway` thousandths of its sideways vector added, the
/// one that lies level and at right angles to it.
pub open spec fn swayed(direction: Vec3, sway: int) -> Vec3 {
    vec3_near(
        direction.x - div_toward_zero(direction.z * sway, UNIT as int),
        direction.y as int,
        direction.z + div_toward_zero(direction.x * sway, UNIT as int),
    )
}

/// `sway`, held to the thousand thousandths either way that a draw has.
pub open spec fn bounded_sway(sway: i32) -> i32 {
    if sway < -UNIT {
        (-UNIT) as i32
    } else if sway > UNIT {
        UNIT
    } else {
        sway
    }
}

/// The direction that an enemy at `position` pushes in to reach `goal`:
/// none within the arrival distance, else the heading to the goal, swayed.
pub open spec fn spec_steer(position: Vec3, goal: Vec3, state: EnemyState, sway: i32) -> Vec3 {
    if position.spec_distance_squared(goal) <= ARRIVAL_DISTANCE * ARRIVAL_DISTANCE {
        Vec3::spec_zero()
    } else {
        swayed(
            position.spec_direction_to(goal),
            div_toward_zero(bounded_sway(sway) * sway_range(state), UNIT as int),
        )
    }
}

/// The velocity of an enemy after one frame on its way to `goal`.
pub open spec fn spec_pursue(
    position: Vec3,
    velocity: Vec3,
    goal: Vec3,
    state: EnemyState,
    is_boosting: bool,
    elapsed: u32,
    sway: i32,
) -> Vec3 {
    spec_apply_movement(
        velocity,
        spec_steer(position, goal, state, sway),
        enemy_acceleration(state, is_boosting),
        enemy_max_speed(state, is_boosting),
        elapsed,
    )
}

/// The enemy and its velocity after one frame.
///
/// A fallen enemy is skipped, and without a player nothing happens at all.
/// Otherwise the state timer advances; on the tick that completes a period
/// the enemy reconsiders its state.  In the chase it then resolves whom it
/// chases, remembers the id and steers for the aim; on patrol it picks a
/// target where it has none and steers there.
pub open spec fn spec_behavior(
    enemy: Enemy,
    self_id: u64,
    position: Vec3,
    velocity: Vec3,
    is_boosting: bool,
    player: Option<Actor>,
    enemies: Seq<Actor>,
    elapsed: u32,
    draws: BehaviorDraws,
) -> (Enemy, Vec3) {
    if enemy.is_fallen || player is None {
        (enemy, velocity)
    } else {
        let timer = enemy.state_timer.ticked(elapsed);
        let ticked = Enemy { state_timer: timer, ..enemy };
        let decided = if timer.just_finished {
            ticked.spec_reconsider(
                position.spec_distance_squared(player->0.position),
                draws.transition,
                draws.patrol_target,
            )
        } else {
            ticked
        };
        match decided.state {
            EnemyState::Chase => {
                match spec_resolve_target(decided.target, self_id, player, enemies) {
                    Some(target) => (
                        Enemy { target: Some(target.id), ..decided },
                        spec_pursue(
                            position,
                            velocity,
                            spec_aim(position, target, player),
                            decided.state,
                            is_boosting,
                            elapsed,
                            draws.sway,
                        ),
                    ),
                    None => (Enemy { target: None, ..decided }, velocity),
                }
            },
            EnemyState::Patrol => {
                let goal = match decided.target_position {
                    Some(goal) => goal,
                    None => draws.patrol_target,
                };
                (
                    Enemy { target_position: Some(goal), ..decided },
                    spec_pursue(position, velocity, goal, decided.state, is_boosting, elapsed, draws.sway),
                )
            },
            EnemyState::Fallen => (decided, velocity),
        }
    }
}

/// The actor behind an id: see `spec_lookup`.
pub fn lookup(id: u64, self_id: u64, player: &Option<Actor>, enemies: &Vec<Actor>) -> (found: Option<Actor>)
    ensures
        found == spec_lookup(id, self_id, *player, enemies@),
{
    if id != self_id {
        let among = find_first(enemies, id, true);
        if among.is_some() {
            return among;
        }
    }
    match player {
        Some(p) => if p.id == id {
            Some(*p)
        } else {
            None
        },
        None => None,
    }
}

/// Whom to chase: see `spec_resolve_target`.  With a player there is
/// always somebody.
pub fn resolve_target(
    target: Option<u64>,
    self_id: u64,
    player: &Option<Actor>,
    enemies: &Vec<Actor>,
) -> (found: Option<Actor>)
    ensures
        found == spec_resolve_target(target, self_id, *player, enemies@),
        player is Some ==> found is Some,
{
    let held = match target {
        Some(id) => lookup(id, self_id, player, enemies),
        None => None,
    };
    if held.is_some() {
        held
    } else if player.is_some() {
        *player
    } else {
        find_first(enemies, self_id, false)
    }
}

/// The point to go for in the chase: see `spec_aim`.
pub fn aim_at(position: &Vec3, target: &Actor, player: &Option<Actor>) -> (aim: Vec3)
    ensures
        aim == spec_aim(*position, *target, *player),
{
    let leads = match player {
        Some(p) => p.id == target.id,
        None => false,
    };
    if leads {
        let ahead = position.direction_to(&target.position).scaled(LEAD_DISTANCE);
        target.position.plus(&ahead)
    } else {
        target.position
    }
}

/// The acceleration and the top speed of an enemy.
pub fn enemy_drive(state: EnemyState, is_boosting: bool) -> (drive: (u32, u32))
    ensures
        drive.0 == enemy_acceleration(state, is_boosting),
        drive.1 == enemy_max_speed(state, is_boosting),
{
    match (state, is_boosting) {
        (EnemyState::Chase, true) => (54_000, 10_500),
        (EnemyState::Chase, false) => (45_000, 9_100),
        (_, true) => (36_000, 8_400),
        (_, false) => (18_000, 7_000),
    }
}

/// In acceleration and in top speed alike, the chase in the boost outranks
/// the chase at rest, that outranks the patrol in the boost, and that the
/// patrol at rest.
pub proof fn lemma_drive_precedence()
    ensures
        enemy_acceleration(EnemyState::Chase, true) > enemy_acceleration(EnemyState::Chase, false),
        enemy_acceleration(EnemyState::Chase, false) > enemy_acceleration(EnemyState::Patrol, true),
        enemy_acceleration(EnemyState::Patrol, true) > enemy_acceleration(EnemyState::Patrol, false),
        enemy_max_speed(EnemyState::Chase, true) > enemy_max_speed(EnemyState::Chase, false),
        enemy_max_speed(EnemyState::Chase, false) > enemy_max_speed(EnemyState::Patrol, true),
        enemy_max_speed(EnemyState::Patrol, true) > enemy_max_speed(EnemyState::Patrol, false),
{
}

/// The direction to push in: see `spec_steer`.
pub fn steer(position: &Vec3, goal: &Vec3, state: EnemyState, sway: i32) -> (direction: Vec3)
    ensures
        direction == spec_steer(*position, *goal, state, sway),
{
    let near: u128 = 4_000_000;
    if position.distance_squared(goal) <= near {
        return Vec3::zero();
    }
    let heading = position.direction_to(goal);
    let sway: i32 = if sway < -UNIT { -UNIT } else if sway > UNIT { UNIT } else { sway };
    let range: i32 = if let EnemyState::Chase = state { CHASE_SWAY } else { PATROL_SWAY };
    assert(-200_000 <= sway * range <= 200_000) by (nonlinear_arith)
        requires
            -1000 <= sway <= 1000,
            100 <= range <= 200,
    ;
    let lean: i128 = divide_toward_zero(sway as i128 * range as i128, 1000);
    assert(-200 <= lean <= 200);
    assert(-0x8000_0000 * 200 <= heading.z * lean <= 0x8000_0000 * 200) by (nonlinear_arith)
        requires
            -0x8000_0000 <= heading.z <= 0x8000_0000,
            -200 <= lean <= 200,
    ;
    assert(-0x8000_0000 * 200 <= heading.x * lean <= 0x8000_0000 * 200) by (nonlinear_arith)
        requires
            -0x8000_0000 <= heading.x <= 0x8000_0000,
            -200 <= lean <= 200,
    ;
    let across_x: i128 = divide_toward_zero(heading.z as i128 * lean, 1000);
    let across_z: i128 = divide_toward_zero(heading.x as i128 * lean, 1000);
    Vec3 {
        x: saturate_i32(heading.x as i128 - across_x),
        y: heading.y,
        z: saturate_i32(heading.z as i128 + across_z),
    }
}

/// One frame on the way to `goal`: see `spec_pursue`.
pub fn pursue(
    position: &Vec3,
    velocity: Vec3,
    goal: &Vec3,
    state: EnemyState,
    is_boosting: bool,
    elapsed: u32,
    sway: i32,
) -> (r: Vec3)
    ensures
        r == spec_pursue(*position, velocity, *goal, state, is_boosting, elapsed, sway),
        r.spec_length_squared() <= enemy_max_speed(state, is_boosting) * enemy_max_speed(
            state,
            is_boosting,
        ),
{
    let direction = steer(position, goal, state, sway);
    let (acceleration, max_speed) = enemy_drive(state, is_boosting);
    apply_movement(velocity, direction, acceleration, max_speed, elapsed)
}

/// One frame of one enemy, on given draws: see `spec_behavior`.
///
/// `enemies` lists every enemy with its id and position, this one included
/// or not.  The enemy never falls here, and what it sets out for on patrol
/// is what it had or what was drawn.
pub fn enemy_behavior_on_draws(
    enemy: &mut Enemy,
    self_id: u64,
    position: &Vec3,
    velocity: &mut Vec3,
    is_boosting: bool,
    player: &Option<Actor>,
    enemies: &Vec<Actor>,
    elapsed: u32,
    draws: &BehaviorDraws,
)
    ensures
        (*final(enemy), *final(velocity)) == spec_behavior(
            *old(enemy),
            self_id,
            *position,
            *old(velocity),
            is_boosting,
            *player,
            enemies@,
            elapsed,
            *draws,
        ),
        final(enemy).is_fallen == old(enemy).is_fallen,
        old(enemy).wf() ==> final(enemy).wf(),
        old(enemy).wf() && !old(enemy).is_fallen ==> final(enemy).state != EnemyState::Fallen,
        old(enemy).is_fallen || player is None ==> *final(enemy) == *old(enemy) && *final(velocity)
            == *old(velocity),
        old(enemy).wf() && !old(enemy).is_fallen && player is Some
            ==> final(velocity).spec_length_squared() <= enemy_max_speed(
            final(enemy).state,
            is_boosting,
        ) * enemy_max_speed(final(enemy).state, is_boosting),
        !old(enemy).is_fallen && player is Some && final(enemy).state == EnemyState::Patrol
            ==> final(enemy).target_position is Some,
{
    if enemy.is_fallen {
        return;
    }
    let chased = match player {
        Some(p) => *p,
        None => {
            return;
        },
    };
    if enemy.state_timer.tick(elapsed) {
        let distance_squared = position.distance_squared(&chased.position);
        enemy.reconsider(distance_squared, draws.transition, draws.patrol_target);
    }
    match enemy.state {
        EnemyState::Chase => {
            match resolve_target(enemy.target, self_id, player, enemies) {
                Some(target) => {
                    enemy.target = Some(target.id);
                    let goal = aim_at(position, &target, player);
                    *velocity = pursue(position, *velocity, &goal, enemy.state, is_boosting, elapsed, draws.sway);
                },
                None => {
                    enemy.target = None;
                },
            }
        },
        EnemyState::Patrol => {
            let goal = match enemy.target_position {
                Some(goal) => goal,
                None => draws.patrol_target,
            };
            enemy.target_position = Some(goal);
            *velocity = pursue(position, *velocity, &goal, enemy.state, is_boosting, elapsed, draws.sway);
        },
        EnemyState::Fallen => {},
    }
}

/// One frame of one enemy, with the draws taken from `rng`.  Whatever is
/// drawn, the outcome is that of `spec_behavior` on draws in range.
pub fn enemy_behavior(
    enemy: &mut Enemy,
    self_id: u64,
    position: &Vec3,
    velocity: &mut Vec3,
    is_boosting: bool,
    player: &Option<Actor>,
    enemies: &Vec<Actor>,
    elapsed: u32,
    rng: &mut StdRng,
)
    ensures
        exists|draws: BehaviorDraws|
            draws.in_range() && (*final(enemy), *final(velocity)) == #[trigger] spec_behavior(
                *old(enemy),
                self_id,
                *position,
                *old(velocity),
                is_boosting,
                *player,
                enemies@,
                elapsed,
                draws,
            ),
        final(enemy).is_fallen == old(enemy).is_fallen,
        old(enemy).wf() ==> final(enemy).wf(),
        old(enemy).wf() && !old(enemy).is_fallen ==> final(enemy).state != EnemyState::Fallen,
        old(enemy).is_fallen || player is None ==> *final(enemy) == *old(enemy) && *final(velocity)
            == *old(velocity),
        old(enemy).wf() && !old(enemy).is_fallen && player is Some
            ==> final(velocity).spec_length_squared() <= enemy_max_speed(
            final(enemy).state,
            is_boosting,
        ) * enemy_max_speed(final(enemy).state, is_boosting),
        !old(enemy).is_fallen && player is Some && final(enemy).state == EnemyState::Patrol ==> {
            &&& final(enemy).target_position is Some
            &&& old(enemy).target_position is None || old(enemy).state == EnemyState::Chase
                ==> is_patrol_position(final(enemy).target_position->0)
        },
{
    let draws = BehaviorDraws {
        transition: draw_percent(rng),
        patrol_target: Enemy::get_random_platform_position(rng),
        sway: draw_in_range(rng, -UNIT, UNIT + 1),
    };
    enemy_behavior_on_draws(
        enemy,
        self_id,
        position,
        velocity,
        is_boosting,
        player,
        enemies,
        elapsed,
        &draws,
    );
}

} // verus!
