//! The source of chance.  Every rule that rolls dice takes its draws from a
//! generator that the caller seeds and hands in.

use vstd::prelude::*;
use rand::rngs::StdRng;
use rand::Rng;

verus! {

/// The standard generator of the `rand` crate, taken as it is: nothing is
/// known of its state.
#[verifier::external_type_specification]
#[verifier::external_body]
pub struct ExStdRng(StdRng);

/// One draw of `Rng::gen_range` on the half-open range `low..high`.
///
/// The generator panics on an empty range, so the range must hold a value.
/// Of what it returns only this is claimed: it lies in the range.
#[verifier::external_body]
pub(crate) fn draw_in_range(rng: &mut StdRng, low: i32, high: i32) -> (value: i32)
    requires
        low < high,
    ensures
        low <= value < high,
{
    rng.gen_range(low..high)
}

/// Draws go from 0 up to, not including, this: a draw below `p` comes up
/// with `p` chances in a hundred.
pub const PERCENT: u32 = 100;

/// A draw of a whole percentage.
pub fn draw_percent(rng: &mut StdRng) -> (draw: u32)
    ensures
        draw < PERCENT,
{
    draw_in_range(rng, 0, 100) as u32
}

} // verus!
