//! Three-dimensional fixed-point vectors.

use vstd::prelude::*;
use crate::fixed::{ceil_sqrt, ceil_sqrt_u128, clamp_i32, div_toward_zero, divide_toward_zero,
    lemma_ceil_sqrt, saturate_i32, UNIT};

verus! {

/// A position, a speed or a direction, each component in thousandths of a
/// world unit.  Results that would leave the range of a component stop at
/// its end.
#[derive(Clone, Copy, Debug, PartialEq, Eq, Structural)]
pub struct Vec3 {
    pub x: i32,
    pub y: i32,
    pub z: i32,
}

/// Largest magnitude of a component that the wide intermediate forms take.
pub const WIDE_LIMIT: i64 = 0x2000_0000_0000;

/// The squared length of `(x, y, z)`.
pub open spec fn norm_squared(x: int, y: int, z: int) -> int {
    x * x + y * y + z * z
}

/// Component `c` of a vector of squared length `norm_sq`, after the vector
/// has been stretched or shrunk to `length`.  The length of the vector is
/// measured a thousand times finer than its components and rounded up, the
/// component is rounded toward zero: the result is never longer than
/// `length`.  The zero vector stays zero.
pub open spec fn rescaled(c: int, norm_sq: int, length: int) -> int {
    if norm_sq <= 0 {
        0
    } else {
        div_toward_zero(c * length * UNIT, ceil_sqrt((norm_sq * UNIT * UNIT) as nat) as int)
    }
}

/// Component `c` of a vector of squared length `norm_sq`, after the vector
/// has been cut back to `max_length` where it was longer.
pub open spec fn limited(c: int, norm_sq: int, max_length: int) -> int {
    if norm_sq <= max_length * max_length {
        c
    } else {
        rescaled(c, norm_sq, max_length)
    }
}

/// The vector that lies nearest to `(x, y, z)`.
pub open spec fn vec3_near(x: int, y: int, z: int) -> Vec3 {
    Vec3 { x: clamp_i32(x) as i32, y: clamp_i32(y) as i32, z: clamp_i32(z) as i32 }
}

/// `(x, y, z)` brought to length `length`, as `rescaled` does it.
pub open spec fn rescaled_vec(x: int, y: int, z: int, length: int) -> Vec3 {
    let n = norm_squared(x, y, z);
    vec3_near(rescaled(x, n, length), rescaled(y, n, length), rescaled(z, n, length))
}

/// `(x, y, z)` cut back to `max_length`, as `limited` does it.
pub open spec fn limited_vec(x: int, y: int, z: int, max_length: int) -> Vec3 {
    let n = norm_squared(x, y, z);
    vec3_near(limited(x, n, max_length), limited(y, n, max_length), limited(z, n, max_length))
}

/// Rounding a quotient toward zero never moves it away from zero:
/// `|q| * b <= |a|`.
pub proof fn lemma_div_toward_zero_bound(a: int, b: int)
    requires
        b > 0,
    ensures
        a >= 0 ==> 0 <= div_toward_zero(a, b) && div_toward_zero(a, b) * b <= a,
        a <= 0 ==> div_toward_zero(a, b) <= 0 && -div_toward_zero(a, b) * b <= -a,
{
    let m = if a >= 0 { a } else { -a };
    vstd::arithmetic::div_mod::lemma_fundamental_div_mod(m, b);
    vstd::arithmetic::div_mod::lemma_div_pos_is_pos(m, b);
    vstd::arithmetic::div_mod::lemma_mod_pos_bound(m, b);
    assert(b * (m / b) == (m / b) * b) by (nonlinear_arith);
}

/// The square of one rescaled component, weighed against the measured
/// length `l`: `q * q * (l * l) <= (c * c) * (length * UNIT)^2`.
proof fn lemma_rescaled_square(c: int, length: int, l: int)
    requires
        l > 0,
        length >= 0,
    ensures
        ({
            let q = div_toward_zero(c * length * UNIT, l);
            (q * q) * (l * l) <= (c * c) * ((length * UNIT) * (length * UNIT))
        }),
{
    let a = c * length * UNIT;
    let q = div_toward_zero(a, l);
    lemma_div_toward_zero_bound(a, l);
    let p = if q >= 0 { q } else { -q };
    let m = if a >= 0 { a } else { -a };
    let t = length * UNIT;
    assert(0 <= p * l <= m);
    assert((p * l) * (p * l) <= m * m) by (nonlinear_arith)
        requires
            0 <= p * l <= m,
    ;
    assert((p * l) * (p * l) == (q * q) * (l * l)) by (nonlinear_arith)
        requires
            p == q || p == -q,
    ;
    assert(a == c * t) by (nonlinear_arith)
        requires
            a == c * length * UNIT,
            t == length * UNIT,
    ;
    assert(m * m == (c * c) * (t * t)) by (nonlinear_arith)
        requires
            m == c * t || m == -(c * t),
    ;
}

proof fn lemma_distribute3(a: int, b: int, c: int, m: int)
    ensures
        (a + b + c) * m == a * m + b * m + c * m,
{
    assert((a + b + c) * m == a * m + b * m + c * m) by (nonlinear_arith);
}

/// A rescaled vector is never longer than the length asked for.
pub proof fn lemma_rescaled_length(x: int, y: int, z: int, length: int)
    requires
        length >= 0,
    ensures
        ({
            let n = norm_squared(x, y, z);
            norm_squared(rescaled(x, n, length), rescaled(y, n, length), rescaled(z, n, length))
                <= length * length
        }),
{
    let n = norm_squared(x, y, z);
    lemma_square_bound(x, if x >= 0 { x } else { -x });
    lemma_square_bound(y, if y >= 0 { y } else { -y });
    lemma_square_bound(z, if z >= 0 { z } else { -z });
    if n > 0 {
        let wide = n * UNIT * UNIT;
        assert(wide == n * (UNIT * UNIT));
        lemma_ceil_sqrt(wide as nat);
        let l = ceil_sqrt(wide as nat) as int;
        let qx = rescaled(x, n, length);
        let qy = rescaled(y, n, length);
        let qz = rescaled(z, n, length);
        lemma_rescaled_square(x, length, l);
        lemma_rescaled_square(y, length, l);
        lemma_rescaled_square(z, length, l);
        let ll = l * l;
        let t = length * UNIT;
        let tt = t * t;
        let total = qx * qx + qy * qy + qz * qz;
        lemma_distribute3(qx * qx, qy * qy, qz * qz, ll);
        lemma_distribute3(x * x, y * y, z * z, tt);
        assert(total * ll <= n * tt);
        // n * tt == (n * UNIT^2) * length^2 <= ll * length^2
        let k = length * length;
        assert(tt == k * (UNIT * UNIT)) by (nonlinear_arith)
            requires
                tt == (length * UNIT) * (length * UNIT),
                k == length * length,
        ;
        assert(n * tt == wide * k) by (nonlinear_arith)
            requires
                tt == k * (UNIT * UNIT),
                wide == n * (UNIT * UNIT),
        ;
        assert(wide * k <= ll * k) by (nonlinear_arith)
            requires
                wide <= ll,
                k >= 0,
        ;
        assert(total <= k) by (nonlinear_arith)
            requires
                total * ll <= ll * k,
                ll > 0,
        ;
    } else {
        assert(norm_squared(0, 0, 0) == 0);
        assert(length * length >= 0) by (nonlinear_arith);
    }
}

/// Clamping the components to their range does not lengthen a vector.
pub proof fn lemma_near_is_no_longer(x: int, y: int, z: int)
    ensures
        norm_squared(clamp_i32(x), clamp_i32(y), clamp_i32(z)) <= norm_squared(x, y, z),
{
    lemma_clamp_square(x);
    lemma_clamp_square(y);
    lemma_clamp_square(z);
}

proof fn lemma_clamp_square(c: int)
    ensures
        clamp_i32(c) * clamp_i32(c) <= c * c,
{
    let k = clamp_i32(c);
    assert(k * k <= c * c) by (nonlinear_arith)
        requires
            (0 <= k <= c) || (c <= k <= 0),
    ;
}

/// A vector cut back to `max_length` is no longer than that.
pub proof fn lemma_limited_length(x: int, y: int, z: int, max_length: int)
    requires
        max_length >= 0,
    ensures
        limited_vec(x, y, z, max_length).spec_length_squared() <= max_length * max_length,
{
    let n = norm_squared(x, y, z);
    lemma_rescaled_length(x, y, z, max_length);
    lemma_near_is_no_longer(
        limited(x, n, max_length),
        limited(y, n, max_length),
        limited(z, n, max_length),
    );
}

/// A vector brought to `length` is no longer than that.
pub proof fn lemma_rescaled_vec_length(x: int, y: int, z: int, length: int)
    requires
        length >= 0,
    ensures
        rescaled_vec(x, y, z, length).spec_length_squared() <= length * length,
{
    let n = norm_squared(x, y, z);
    lemma_rescaled_length(x, y, z, length);
    lemma_near_is_no_longer(rescaled(x, n, length), rescaled(y, n, length), rescaled(z, n, length));
}

/// The component of greatest magnitude keeps more than half its share
/// when a vector is brought to unit length: a component `c` whose square
/// is at least a third of the squared length comes out at 577 thousandths
/// or more, on its own side of zero.
pub proof fn lemma_dominant_component(c: int, norm_sq: int)
    requires
        c != 0,
        c * c <= norm_sq <= 3 * (c * c),
    ensures
        c > 0 ==> rescaled(c, norm_sq, UNIT as int) >= 577,
        c < 0 ==> rescaled(c, norm_sq, UNIT as int) <= -577,
{
    let m = if c > 0 { c } else { -c };
    let wide = norm_sq * UNIT * UNIT;
    assert(m * m == c * c) by (nonlinear_arith)
        requires
            m == c || m == -c,
    ;
    assert(m * m >= 1) by (nonlinear_arith)
        requires
            m >= 1,
    ;
    assert(wide == norm_sq * 1_000_000);
    lemma_ceil_sqrt(wide as nat);
    let l = ceil_sqrt(wide as nat) as int;
    // The measured length is at most 1733 thousandths per unit of `m`.
    let cap = 1733 * m;
    assert(cap * cap >= wide) by (nonlinear_arith)
        requires
            cap == 1733 * m,
            wide == norm_sq * 1_000_000,
            norm_sq <= 3 * (m * m),
    ;
    if l > cap {
        assert((l - 1) * (l - 1) >= cap * cap) by (nonlinear_arith)
            requires
                l - 1 >= cap,
                cap >= 0,
        ;
    }
    let a = m * 1_000_000;
    assert(577 * l <= a);
    vstd::arithmetic::div_mod::lemma_div_is_ordered(577 * l, a, l);
    vstd::arithmetic::div_mod::lemma_div_by_multiple(577, l);
    assert(a / l >= 577);
    if c > 0 {
        assert(c * UNIT * UNIT == a);
    } else {
        assert(-(c * UNIT * UNIT) == a);
    }
}

/// A vector that is not zero has a direction: brought to unit length it
/// is not zero either.
pub proof fn lemma_rescaled_nonzero(x: int, y: int, z: int)
    requires
        x != 0 || y != 0 || z != 0,
    ensures
        rescaled_vec(x, y, z, UNIT as int) != Vec3::spec_zero(),
{
    let n = norm_squared(x, y, z);
    lemma_square_bound(x, if x >= 0 { x } else { -x });
    lemma_square_bound(y, if y >= 0 { y } else { -y });
    lemma_square_bound(z, if z >= 0 { z } else { -z });
    let (xx, yy, zz) = (x * x, y * y, z * z);
    assert((x != 0 ==> xx >= 1) && (y != 0 ==> yy >= 1) && (z != 0 ==> zz >= 1) && (x == 0
        ==> xx == 0) && (y == 0 ==> yy == 0) && (z == 0 ==> zz == 0)) by (nonlinear_arith)
        requires
            xx == x * x,
            yy == y * y,
            zz == z * z,
    ;
    if xx >= yy && xx >= zz {
        lemma_dominant_component(x, n);
    } else if yy >= zz {
        lemma_dominant_component(y, n);
    } else {
        lemma_dominant_component(z, n);
    }
}

/// The squared length of a wide vector.
fn norm_squared_wide(x: i64, y: i64, z: i64) -> (n: u128)
    requires
        -WIDE_LIMIT <= x <= WIDE_LIMIT,
        -WIDE_LIMIT <= y <= WIDE_LIMIT,
        -WIDE_LIMIT <= z <= WIDE_LIMIT,
    ensures
        n == norm_squared(x as int, y as int, z as int),
        n <= 3 * (WIDE_LIMIT * WIDE_LIMIT),
{
    proof {
        lemma_square_bound(x as int, WIDE_LIMIT as int);
        lemma_square_bound(y as int, WIDE_LIMIT as int);
        lemma_square_bound(z as int, WIDE_LIMIT as int);
    }
    let xx: i128 = x as i128 * x as i128;
    let yy: i128 = y as i128 * y as i128;
    let zz: i128 = z as i128 * z as i128;
    (xx + yy + zz) as u128
}

proof fn lemma_square_bound(c: int, limit: int)
    requires
        -limit <= c <= limit,
    ensures
        0 <= c * c <= limit * limit,
{
    assert(0 <= c * c <= limit * limit) by (nonlinear_arith)
        requires
            -limit <= c <= limit,
    ;
}

/// One component of a wide vector brought to `length`; `measure` is the
/// length of the vector as `rescaled` measures it.
fn rescale_component(c: i64, length: u32, measure: u128, Ghost(norm_sq): Ghost<int>) -> (r: i32)
    requires
        -WIDE_LIMIT <= c <= WIDE_LIMIT,
        norm_sq > 0,
        measure == ceil_sqrt((norm_sq * UNIT * UNIT) as nat),
        0 < measure <= 0x1_0000_0000_0000_0000,
    ensures
        r == clamp_i32(rescaled(c as int, norm_sq, length as int)),
{
    assert(-0x8_0000_0000_0000_0000_0000 <= c * length <= 0x8_0000_0000_0000_0000_0000)
        by (nonlinear_arith)
        requires
            -0x2000_0000_0000 <= c <= 0x2000_0000_0000,
            0 <= length <= 0xffff_ffff,
    ;
    let scaled: i128 = c as i128 * length as i128 * 1000;
    saturate_i32(divide_toward_zero(scaled, measure as i128))
}

/// A wide vector brought to `length`.
pub(crate) fn rescale_wide(x: i64, y: i64, z: i64, length: u32) -> (r: Vec3)
    requires
        -WIDE_LIMIT <= x <= WIDE_LIMIT,
        -WIDE_LIMIT <= y <= WIDE_LIMIT,
        -WIDE_LIMIT <= z <= WIDE_LIMIT,
    ensures
        r == rescaled_vec(x as int, y as int, z as int, length as int),
        r.spec_length_squared() <= length * length,
{
    proof {
        lemma_rescaled_vec_length(x as int, y as int, z as int, length as int);
    }
    let n = norm_squared_wide(x, y, z);
    if n == 0 {
        return Vec3 { x: 0, y: 0, z: 0 };
    }
    let measure = ceil_sqrt_u128(n * 1_000_000);
    proof {
        assert(n * UNIT * UNIT == n * 1_000_000) by (nonlinear_arith);
        lemma_ceil_sqrt((n * 1_000_000) as nat);
    }
    Vec3 {
        x: rescale_component(x, length, measure, Ghost(n as int)),
        y: rescale_component(y, length, measure, Ghost(n as int)),
        z: rescale_component(z, length, measure, Ghost(n as int)),
    }
}

/// A wide vector cut back to `max_length` where it is longer.
pub(crate) fn limit_wide(x: i64, y: i64, z: i64, max_length: u32) -> (r: Vec3)
    requires
        -WIDE_LIMIT <= x <= WIDE_LIMIT,
        -WIDE_LIMIT <= y <= WIDE_LIMIT,
        -WIDE_LIMIT <= z <= WIDE_LIMIT,
    ensures
        r == limited_vec(x as int, y as int, z as int, max_length as int),
        r.spec_length_squared() <= max_length * max_length,
{
    proof {
        lemma_limited_length(x as int, y as int, z as int, max_length as int);
    }
    let n = norm_squared_wide(x, y, z);
    assert(max_length * max_length <= 0xffff_ffff * 0xffff_ffff) by (nonlinear_arith)
        requires
            0 <= max_length <= 0xffff_ffff,
    ;
    let bound: u128 = max_length as u128 * max_length as u128;
    if n <= bound {
        Vec3 { x: saturate_i32(x as i128), y: saturate_i32(y as i128), z: saturate_i32(z as i128) }
    } else {
        rescale_wide(x, y, z, max_length)
    }
}

impl Vec3 {
    pub open spec fn spec_zero() -> Vec3 {
        Vec3 { x: 0, y: 0, z: 0 }
    }

    /// The squared length.
    pub open spec fn spec_length_squared(self) -> int {
        norm_squared(self.x as int, self.y as int, self.z as int)
    }

    /// The squared distance to `other`.
    pub open spec fn spec_distance_squared(self, other: Vec3) -> int {
        norm_squared(other.x - self.x, other.y - self.y, other.z - self.z)
    }

    /// The vector of length `UNIT` that points the same way; zero for zero.
    pub open spec fn spec_normalized(self) -> Vec3 {
        rescaled_vec(self.x as int, self.y as int, self.z as int, UNIT as int)
    }

    /// The direction from here to `target`, of length `UNIT`; zero where
    /// the two points coincide.
    pub open spec fn spec_direction_to(self, target: Vec3) -> Vec3 {
        rescaled_vec(target.x - self.x, target.y - self.y, target.z - self.z, UNIT as int)
    }

    /// This vector, cut back to `max_length` where it is longer.
    pub open spec fn spec_clamped_to(self, max_length: u32) -> Vec3 {
        limited_vec(self.x as int, self.y as int, self.z as int, max_length as int)
    }

    /// Each component multiplied by `factor` thousandths.
    pub open spec fn spec_scaled(self, factor: int) -> Vec3 {
        vec3_near(
            div_toward_zero(self.x * factor, UNIT as int),
            div_toward_zero(self.y * factor, UNIT as int),
            div_toward_zero(self.z * factor, UNIT as int),
        )
    }

    /// The sum, component by component.
    pub open spec fn spec_plus(self, other: Vec3) -> Vec3 {
        vec3_near(self.x + other.x, self.y + other.y, self.z + other.z)
    }

    pub fn new(x: i32, y: i32, z: i32) -> (v: Vec3)
        ensures
            v == (Vec3 { x, y, z }),
    {
        Vec3 { x, y, z }
    }

    pub fn zero() -> (v: Vec3)
        ensures
            v == Vec3::spec_zero(),
    {
        Vec3 { x: 0, y: 0, z: 0 }
    }

    pub fn is_zero(&self) -> (yes: bool)
        ensures
            yes == (*self == Vec3::spec_zero()),
    {
        self.x == 0 && self.y == 0 && self.z == 0
    }

    pub fn length_squared(&self) -> (n: u64)
        ensures
            n == self.spec_length_squared(),
    {
        proof {
            lemma_square_bound(self.x as int, 0x8000_0000);
            lemma_square_bound(self.y as int, 0x8000_0000);
            lemma_square_bound(self.z as int, 0x8000_0000);
        }
        let xx: i64 = self.x as i64 * self.x as i64;
        let yy: i64 = self.y as i64 * self.y as i64;
        let zz: i64 = self.z as i64 * self.z as i64;
        xx as u64 + yy as u64 + zz as u64
    }

    pub fn distance_squared(&self, other: &Vec3) -> (n: u128)
        ensures
            n == self.spec_distance_squared(*other),
    {
        norm_squared_wide(
            other.x as i64 - self.x as i64,
            other.y as i64 - self.y as i64,
            other.z as i64 - self.z as i64,
        )
    }

    pub fn normalized(&self) -> (r: Vec3)
        ensures
            r == self.spec_normalized(),
            r.spec_length_squared() <= UNIT * UNIT,
            r == Vec3::spec_zero() <==> *self == Vec3::spec_zero(),
    {
        proof {
            if *self != Vec3::spec_zero() {
                lemma_rescaled_nonzero(self.x as int, self.y as int, self.z as int);
            }
        }
        rescale_wide(self.x as i64, self.y as i64, self.z as i64, 1000)
    }

    pub fn direction_to(&self, target: &Vec3) -> (r: Vec3)
        ensures
            r == self.spec_direction_to(*target),
            r.spec_length_squared() <= UNIT * UNIT,
            r == Vec3::spec_zero() <==> *self == *target,
    {
        proof {
            if *self != *target {
                lemma_rescaled_nonzero(target.x - self.x, target.y - self.y, target.z - self.z);
            }
        }
        rescale_wide(
            target.x as i64 - self.x as i64,
            target.y as i64 - self.y as i64,
            target.z as i64 - self.z as i64,
            1000,
        )
    }

    pub fn clamped_to(&self, max_length: u32) -> (r: Vec3)
        ensures
            r == self.spec_clamped_to(max_length),
            r.spec_length_squared() <= max_length * max_length,
    {
        limit_wide(self.x as i64, self.y as i64, self.z as i64, max_length)
    }

    pub fn scaled(&self, factor: i32) -> (r: Vec3)
        ensures
            r == self.spec_scaled(factor as int),
    {
        proof {
            lemma_product_bound(self.x as int, factor as int);
            lemma_product_bound(self.y as int, factor as int);
            lemma_product_bound(self.z as int, factor as int);
        }
        Vec3 {
            x: saturate_i32(divide_toward_zero(self.x as i128 * factor as i128, 1000)),
            y: saturate_i32(divide_toward_zero(self.y as i128 * factor as i128, 1000)),
            z: saturate_i32(divide_toward_zero(self.z as i128 * factor as i128, 1000)),
        }
    }

    pub fn plus(&self, other: &Vec3) -> (r: Vec3)
        ensures
            r == self.spec_plus(*other),
    {
        Vec3 {
            x: saturate_i32(self.x as i128 + other.x as i128),
            y: saturate_i32(self.y as i128 + other.y as i128),
            z: saturate_i32(self.z as i128 + other.z as i128),
        }
    }
}

proof fn lemma_product_bound(a: int, b: int)
    requires
        -0x8000_0000 <= a <= 0x8000_0000,
        -0x8000_0000 <= b <= 0x8000_0000,
    ensures
        -0x4000_0000_0000_0000 <= a * b <= 0x4000_0000_0000_0000,
{
    assert(-0x4000_0000_0000_0000 <= a * b <= 0x4000_0000_0000_0000) by (nonlinear_arith)
        requires
            -0x8000_0000 <= a <= 0x8000_0000,
            -0x8000_0000 <= b <= 0x8000_0000,
    ;
}

} // verus!
