//! The spinning cube of the opening scene.

use vstd::prelude::*;

verus! {

/// A cube that turns about two axes, at so many thousandths of a radian
/// per second about each.
#[derive(Clone, Copy, Debug, PartialEq, Eq, Structural)]
pub struct SpinningCube {
    pub rotation_speed_x: i32,
    pub rotation_speed_y: i32,
}

impl Default for SpinningCube {
    fn default() -> (cube: SpinningCube)
        ensures
            cube == (SpinningCube { rotation_speed_x: 500, rotation_speed_y: 1000 }),
    {
        SpinningCube { rotation_speed_x: 500, rotation_speed_y: 1000 }
    }
}

/// The angles that the cube turns by in `elapsed` microseconds, first
/// about the vertical axis, then about the horizontal one, in billionths
/// of a radian.
pub fn rotate_cube(cube: &SpinningCube, elapsed: u32) -> (angles: (i64, i64))
    ensures
        angles.0 == cube.rotation_speed_y * elapsed,
        angles.1 == cube.rotation_speed_x * elapsed,
{
    assert(-0x8000_0000 * 0xffff_ffff <= cube.rotation_speed_y * elapsed <= 0x7fff_ffff
        * 0xffff_ffff) by (nonlinear_arith)
        requires
            -0x8000_0000 <= cube.rotation_speed_y <= 0x7fff_ffff,
            0 <= elapsed <= 0xffff_ffff,
    ;
    assert(-0x8000_0000 * 0xffff_ffff <= cube.rotation_speed_x * elapsed <= 0x7fff_ffff
        * 0xffff_ffff) by (nonlinear_arith)
        requires
            -0x8000_0000 <= cube.rotation_speed_x <= 0x7fff_ffff,
            0 <= elapsed <= 0xffff_ffff,
    ;
    (cube.rotation_speed_y as i64 * elapsed as i64, cube.rotation_speed_x as i64 * elapsed as i64)
}

} // verus!
