//! The force model that turns a wish to move into a velocity.  The player's
//! keys and the enemies' targets both steer through it.

use vstd::prelude::*;
use crate::fixed::{clamp_i32, div_toward_zero, divide_toward_zero, saturate_i32, UNIT};
use crate::vector::{limit_wide, limited_vec, norm_squared, Vec3, WIDE_LIMIT};

verus! {

/// Thousandths of its velocity that an actor keeps over one frame without
/// a direction to go.
pub const DECAY_FACTOR: i32 = 900;

/// Height of the platform's top.  Below it an actor has left solid ground.
pub const PLATFORM_HEIGHT: i32 = 5_000;

/// Below this height an actor has fallen off.
pub const FALL_THRESHOLD: i32 = -5_000;

/// Downward acceleration, per second squared, of an actor that has left the
/// platform, on top of what the physics engine applies.
pub const FALL_ACCELERATION: u32 = 30_000;

/// Acceleration of the player at rest and in the boost.
pub const PLAYER_ACCELERATION: u32 = 30_000;

pub const PLAYER_BOOST_ACCELERATION: u32 = 125_000;

/// Top speed of the player at rest and in the boost.
pub const PLAYER_MAX_SPEED: u32 = 8_000;

pub const PLAYER_BOOST_MAX_SPEED: u32 = 18_000;

/// Speed that a collision adds to the player, away from what it ran into.
pub const PUSH_FORCE: i32 = 10_000;

/// Microseconds in a second times thousandths in a unit: what a product of
/// a direction, an acceleration and a time is divided by.
pub const PUSH_DIVISOR: i64 = 1_000_000_000;

/// The four movement keys, as held down in this frame.
#[derive(Clone, Copy, Debug, PartialEq, Eq, Structural)]
pub struct MoveInput {
    pub forward: bool,
    pub back: bool,
    pub left: bool,
    pub right: bool,
}

/// The change of one velocity component over `elapsed` microseconds of
/// `acceleration` along a direction whose component is `heading`.
pub open spec fn push(heading: int, acceleration: int, elapsed: int) -> int {
    div_toward_zero(heading * acceleration * elapsed, PUSH_DIVISOR as int)
}

/// The velocity after one frame of the force model.
///
/// With a direction to go, the velocity gains `acceleration` along the
/// normalized direction; without one it decays.  Either way the result is
/// cut back to `max_speed`.
pub open spec fn spec_apply_movement(
    velocity: Vec3,
    direction: Vec3,
    acceleration: u32,
    max_speed: u32,
    elapsed: u32,
) -> Vec3 {
    if direction == Vec3::spec_zero() {
        velocity.spec_scaled(DECAY_FACTOR as int).spec_clamped_to(max_speed)
    } else {
        let heading = direction.spec_normalized();
        limited_vec(
            velocity.x + push(heading.x as int, acceleration as int, elapsed as int),
            velocity.y + push(heading.y as int, acceleration as int, elapsed as int),
            velocity.z + push(heading.z as int, acceleration as int, elapsed as int),
            max_speed as int,
        )
    }
}

/// What one key adds along its axis.
pub open spec fn key_pull(held: bool) -> int {
    if held {
        UNIT as int
    } else {
        0
    }
}

/// The direction that the keys ask for, not normalized: right and back
/// count up, left and forward count down, and opposite keys cancel.  The
/// boost does not touch the direction; it changes how hard the player is
/// pushed and how fast it may get.
pub open spec fn spec_player_direction(input: MoveInput) -> Vec3 {
    Vec3 {
        x: (key_pull(input.right) - key_pull(input.left)) as i32,
        y: 0,
        z: (key_pull(input.back) - key_pull(input.forward)) as i32,
    }
}

pub open spec fn player_acceleration(is_boosting: bool) -> u32 {
    if is_boosting {
        PLAYER_BOOST_ACCELERATION
    } else {
        PLAYER_ACCELERATION
    }
}

pub open spec fn player_max_speed(is_boosting: bool) -> u32 {
    if is_boosting {
        PLAYER_BOOST_MAX_SPEED
    } else {
        PLAYER_MAX_SPEED
    }
}

/// The player's velocity after one frame.
pub open spec fn spec_player_movement(
    velocity: Vec3,
    input: MoveInput,
    is_boosting: bool,
    elapsed: u32,
) -> Vec3 {
    spec_apply_movement(
        velocity,
        spec_player_direction(input),
        player_acceleration(is_boosting),
        player_max_speed(is_boosting),
        elapsed,
    )
}

/// The velocity of an actor at `height` after `elapsed` microseconds: below
/// the platform's top it is pulled down, elsewhere it is left alone.
pub open spec fn spec_fall_acceleration(velocity: Vec3, height: i32, elapsed: u32) -> Vec3 {
    if height < PLATFORM_HEIGHT {
        Vec3 {
            y: clamp_i32(velocity.y - (FALL_ACCELERATION * elapsed) / 1_000_000) as i32,
            ..velocity
        }
    } else {
        velocity
    }
}

/// The player's velocity after it ran into something at `other`.
pub open spec fn spec_collision_push(velocity: Vec3, player: Vec3, other: Vec3) -> Vec3 {
    velocity.spec_plus(other.spec_direction_to(player).spec_scaled(PUSH_FORCE as int))
}

/// A component of a vector no longer than `UNIT` lies within `UNIT`.
proof fn lemma_unit_component(v: Vec3)
    requires
        v.spec_length_squared() <= UNIT * UNIT,
    ensures
        -UNIT <= v.x <= UNIT,
        -UNIT <= v.y <= UNIT,
        -UNIT <= v.z <= UNIT,
{
    let (x, y, z) = (v.x as int, v.y as int, v.z as int);
    assert(norm_squared(x, y, z) == x * x + y * y + z * z);
    assert(-1000 <= x <= 1000 && -1000 <= y <= 1000 && -1000 <= z <= 1000) by (nonlinear_arith)
        requires
            x * x + y * y + z * z <= 1_000_000,
    ;
}

/// One component's gain; `heading` is a component of a unit direction.
fn pushed(speed: i32, heading: i32, acceleration: u32, elapsed: u32) -> (r: i64)
    requires
        -UNIT <= heading <= UNIT,
    ensures
        r == speed + push(heading as int, acceleration as int, elapsed as int),
        -WIDE_LIMIT <= r <= WIDE_LIMIT,
{
    assert(-0x1_0000_0000 * 1000 <= heading * acceleration <= 0x1_0000_0000 * 1000)
        by (nonlinear_arith)
        requires
            -1000 <= heading <= 1000,
            0 <= acceleration <= 0xffff_ffff,
    ;
    let along: i128 = heading as i128 * acceleration as i128;
    assert(-0x1_0000_0000 * 1000 * 0x1_0000_0000 <= along * elapsed <= 0x1_0000_0000 * 1000
        * 0x1_0000_0000) by (nonlinear_arith)
        requires
            -0x1_0000_0000 * 1000 <= along <= 0x1_0000_0000 * 1000,
            0 <= elapsed <= 0xffff_ffff,
    ;
    let product: i128 = along * elapsed as i128;
    let gain: i128 = divide_toward_zero(product, PUSH_DIVISOR as i128);
    (speed as i128 + gain) as i64
}

/// One frame of the force model: see `spec_apply_movement`.
pub fn apply_movement(
    velocity: Vec3,
    direction: Vec3,
    acceleration: u32,
    max_speed: u32,
    elapsed: u32,
) -> (r: Vec3)
    ensures
        r == spec_apply_movement(velocity, direction, acceleration, max_speed, elapsed),
        r.spec_length_squared() <= max_speed * max_speed,
{
    if direction.is_zero() {
        velocity.scaled(DECAY_FACTOR).clamped_to(max_speed)
    } else {
        let heading = direction.normalized();
        proof {
            lemma_unit_component(heading);
        }
        limit_wide(
            pushed(velocity.x, heading.x, acceleration, elapsed),
            pushed(velocity.y, heading.y, acceleration, elapsed),
            pushed(velocity.z, heading.z, acceleration, elapsed),
            max_speed,
        )
    }
}

/// The direction that the keys ask for.
pub fn player_direction(input: &MoveInput) -> (direction: Vec3)
    ensures
        direction == spec_player_direction(*input),
{
    let right: i32 = if input.right { UNIT } else { 0 };
    let left: i32 = if input.left { UNIT } else { 0 };
    let back: i32 = if input.back { UNIT } else { 0 };
    let forward: i32 = if input.forward { UNIT } else { 0 };
    Vec3 { x: right - left, y: 0, z: back - forward }
}

/// The player's velocity after one frame of the keys.  The result keeps
/// within the top speed that holds for the player's state.
pub fn player_movement(velocity: Vec3, input: &MoveInput, is_boosting: bool, elapsed: u32) -> (r: Vec3)
    ensures
        r == spec_player_movement(velocity, *input, is_boosting, elapsed),
        r.spec_length_squared() <= player_max_speed(is_boosting) * player_max_speed(is_boosting),
{
    let direction = player_direction(input);
    let acceleration = if is_boosting { PLAYER_BOOST_ACCELERATION } else { PLAYER_ACCELERATION };
    let max_speed = if is_boosting { PLAYER_BOOST_MAX_SPEED } else { PLAYER_MAX_SPEED };
    apply_movement(velocity, direction, acceleration, max_speed, elapsed)
}

/// Pulls an actor down that has left the platform.
pub fn apply_fall_acceleration(velocity: Vec3, height: i32, elapsed: u32) -> (r: Vec3)
    ensures
        r == spec_fall_acceleration(velocity, height, elapsed),
{
    if height < PLATFORM_HEIGHT {
        assert(FALL_ACCELERATION * elapsed <= 30_000 * 0xffff_ffff);
        let drop: i128 = (FALL_ACCELERATION as i128 * elapsed as i128) / 1_000_000;
        Vec3 { x: velocity.x, y: saturate_i32(velocity.y as i128 - drop), z: velocity.z }
    } else {
        velocity
    }
}

/// Pushes the player away from what it ran into.
pub fn collision_push(velocity: Vec3, player: &Vec3, other: &Vec3) -> (r: Vec3)
    ensures
        r == spec_collision_push(velocity, *player, *other),
{
    let away = other.direction_to(player).scaled(PUSH_FORCE);
    velocity.plus(&away)
}

} // verus!
