//! Where the camera wants to be: behind and above the actors that are
//! still on the platform.

use vstd::prelude::*;
use crate::fixed::{ceil_sqrt, ceil_sqrt_u128, div_toward_zero, divide_toward_zero, saturate_i32};
use crate::vector::{vec3_near, Vec3};

verus! {

/// Actors below this height, two units under the platform's top, are on
/// their way down and no longer looked at.
pub const CAMERA_FLOOR: i32 = 3_000;

/// The camera keeps the actors in view as if they were spread at least
/// this far from their centre.
pub const CAMERA_MIN_REACH: i32 = 10_000;

/// How far above the reach the camera hovers.
pub const CAMERA_RISE: i32 = 10_000;

/// How far behind the reach the camera stays.
pub const CAMERA_SETBACK: i32 = 15_000;

/// The point that the camera looks at and the place it moves toward.
#[derive(Clone, Copy, Debug, PartialEq, Eq, Structural)]
pub struct CameraTarget {
    pub center: Vec3,
    pub translation: Vec3,
}

/// Whether an actor at `position` is looked at.
pub open spec fn in_view(position: Vec3) -> bool {
    position.y >= CAMERA_FLOOR
}

/// How many of `positions` are looked at.
pub open spec fn view_count(positions: Seq<Vec3>) -> nat
    decreases positions.len(),
{
    if positions.len() == 0 {
        0
    } else {
        view_count(positions.drop_last()) + if in_view(positions.last()) {
            1nat
        } else {
            0nat
        }
    }
}

/// The sums, axis by axis, of the positions that are looked at.
pub open spec fn view_sum(positions: Seq<Vec3>) -> (int, int, int)
    decreases positions.len(),
{
    if positions.len() == 0 {
        (0, 0, 0)
    } else {
        let before = view_sum(positions.drop_last());
        let p = positions.last();
        if in_view(p) {
            (before.0 + p.x, before.1 + p.y, before.2 + p.z)
        } else {
            before
        }
    }
}

/// The centre of the positions that are looked at: their mean, each
/// coordinate rounded toward zero.
pub open spec fn view_center(positions: Seq<Vec3>) -> Vec3 {
    let sum = view_sum(positions);
    let count = view_count(positions) as int;
    vec3_near(
        div_toward_zero(sum.0, count),
        div_toward_zero(sum.1, count),
        div_toward_zero(sum.2, count),
    )
}

/// The greatest squared distance from `center` of a position that is
/// looked at.
pub open spec fn view_spread(positions: Seq<Vec3>, center: Vec3) -> int
    decreases positions.len(),
{
    if positions.len() == 0 {
        0
    } else {
        let before = view_spread(positions.drop_last(), center);
        let p = positions.last();
        if in_view(p) && center.spec_distance_squared(p) > before {
            center.spec_distance_squared(p)
        } else {
            before
        }
    }
}

/// Where the camera wants to be for actors at `positions`.
///
/// With nobody to look at there is no target.  Otherwise the camera looks
/// at the centre of those in view.  Its reach is the distance from the
/// centre to the farthest of them, rounded up, and at least the minimum
/// reach; it hovers `CAMERA_RISE` above the reach and stays
/// `CAMERA_SETBACK` behind it.
pub open spec fn spec_camera_target(positions: Seq<Vec3>) -> Option<CameraTarget> {
    if view_count(positions) == 0 {
        None
    } else {
        let center = view_center(positions);
        let farthest = ceil_sqrt(view_spread(positions, center) as nat) as int;
        let reach = if farthest > CAMERA_MIN_REACH {
            farthest
        } else {
            CAMERA_MIN_REACH as int
        };
        Some(
            CameraTarget {
                center,
                translation: vec3_near(
                    center.x as int,
                    reach + CAMERA_RISE,
                    center.z + reach + CAMERA_SETBACK,
                ),
            },
        )
    }
}

/// The spread is a squared distance: it is not negative, and it stays
/// within what the components of two vectors allow.
proof fn lemma_view_spread_bounds(positions: Seq<Vec3>, center: Vec3)
    ensures
        0 <= view_spread(positions, center) <= 3 * (0x1_0000_0000 * 0x1_0000_0000),
    decreases positions.len(),
{
    if positions.len() > 0 {
        lemma_view_spread_bounds(positions.drop_last(), center);
        let p = positions.last();
        let (dx, dy, dz) = (p.x - center.x, p.y - center.y, p.z - center.z);
        assert(dx * dx <= 0x1_0000_0000 * 0x1_0000_0000) by (nonlinear_arith)
            requires
                -0x1_0000_0000 <= dx <= 0x1_0000_0000,
        ;
        assert(dy * dy <= 0x1_0000_0000 * 0x1_0000_0000) by (nonlinear_arith)
            requires
                -0x1_0000_0000 <= dy <= 0x1_0000_0000,
        ;
        assert(dz * dz <= 0x1_0000_0000 * 0x1_0000_0000) by (nonlinear_arith)
            requires
                -0x1_0000_0000 <= dz <= 0x1_0000_0000,
        ;
    }
}

/// Where the camera wants to be: see `spec_camera_target`.  The host eases
/// the camera toward the place and turns it to the centre.
pub fn update_camera_position(positions: &Vec<Vec3>) -> (target: Option<CameraTarget>)
    ensures
        target == spec_camera_target(positions@),
{
    let mut count: u128 = 0;
    let mut sum_x: i128 = 0;
    let mut sum_y: i128 = 0;
    let mut sum_z: i128 = 0;
    let mut i: usize = 0;
    while i < positions.len()
        invariant
            i <= positions.len(),
            count == view_count(positions@.take(i as int)),
            (sum_x as int, sum_y as int, sum_z as int) == view_sum(positions@.take(i as int)),
            count <= i,
            -0x8000_0000 * i <= sum_x <= 0x8000_0000 * i,
            -0x8000_0000 * i <= sum_y <= 0x8000_0000 * i,
            -0x8000_0000 * i <= sum_z <= 0x8000_0000 * i,
        decreases positions.len() - i,
    {
        proof {
            assert(positions@.take(i + 1).drop_last() =~= positions@.take(i as int));
        }
        let p = positions[i];
        if p.y >= CAMERA_FLOOR {
            count = count + 1;
            sum_x = sum_x + p.x as i128;
            sum_y = sum_y + p.y as i128;
            sum_z = sum_z + p.z as i128;
        }
        i += 1;
    }
    proof {
        assert(positions@.take(i as int) =~= positions@);
    }
    if count == 0 {
        return None;
    }
    let center = Vec3 {
        x: saturate_i32(divide_toward_zero(sum_x, count as i128)),
        y: saturate_i32(divide_toward_zero(sum_y, count as i128)),
        z: saturate_i32(divide_toward_zero(sum_z, count as i128)),
    };
    let mut spread: u128 = 0;
    let mut j: usize = 0;
    while j < positions.len()
        invariant
            j <= positions.len(),
            spread == view_spread(positions@.take(j as int), center),
        decreases positions.len() - j,
    {
        proof {
            assert(positions@.take(j + 1).drop_last() =~= positions@.take(j as int));
        }
        let p = positions[j];
        if p.y >= CAMERA_FLOOR {
            let d = center.distance_squared(&p);
            if d > spread {
                spread = d;
            }
        }
        j += 1;
    }
    proof {
        assert(positions@.take(j as int) =~= positions@);
        lemma_view_spread_bounds(positions@, center);
    }
    let farthest: u128 = ceil_sqrt_u128(spread);
    let reach: i128 = if farthest > CAMERA_MIN_REACH as u128 {
        farthest as i128
    } else {
        CAMERA_MIN_REACH as i128
    };
    Some(
        CameraTarget {
            center,
            translation: Vec3 {
                x: center.x,
                y: saturate_i32(reach + CAMERA_RISE as i128),
                z: saturate_i32(center.z as i128 + reach + CAMERA_SETBACK as i128),
            },
        },
    )
}

} // verus!
