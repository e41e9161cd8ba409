//! Fixed-point 3D vector primitives: squared norms, integer square root,
//! truncated scaling, and magnitude clamping.
//!
//! Coordinates are `i64` milli-units. Squared norms are computed exactly in
//! `u64`; scaling a vector to a target magnitude divides by `isqrt(norm2) + 1`,
//! which guarantees the result's magnitude never exceeds the target.

use vstd::prelude::*;

verus! {

/// A point or displacement in 3D space, in milli-units. 2D data keeps `z == 0`.
#[derive(Clone, Copy, Debug, PartialEq, Eq, Structural)]
pub struct Vec3 {
    pub x: i64,
    pub y: i64,
    pub z: i64,
}

/// Largest coordinate magnitude the vector routines accept; generous room
/// above it keeps every intermediate product inside `u64`.
pub const COORD_LIMIT: i64 = 0x4000_0000;

pub open spec fn abs_i(a: int) -> int {
    if a >= 0 {
        a
    } else {
        -a
    }
}

/// Truncated (round-toward-zero) division, the semantics of `/` on machine
/// integers; Verus's spec-level `/` on `int` rounds toward negative infinity.
pub open spec fn tdiv(p: int, d: int) -> int {
    if p >= 0 {
        p / d
    } else {
        -((-p) / d)
    }
}

/// Squared Euclidean norm, exact (no overflow at the spec level).
pub open spec fn norm2(v: Vec3) -> int {
    v.x * v.x + v.y * v.y + v.z * v.z
}

/// Every coordinate of `v` lies in `[-b, b]`.
pub open spec fn in_lim(v: Vec3, b: int) -> bool {
    &&& -b <= v.x <= b
    &&& -b <= v.y <= b
    &&& -b <= v.z <= b
}

/// Componentwise difference, as a spec value.
pub open spec fn diff(a: Vec3, b: Vec3) -> Vec3 {
    Vec3 { x: (a.x - b.x) as i64, y: (a.y - b.y) as i64, z: (a.z - b.z) as i64 }
}

/// `r` points the same way as `v` on each axis (or is zero there).
pub open spec fn same_signs(r: Vec3, v: Vec3) -> bool {
    &&& (v.x >= 0 ==> r.x >= 0) && (v.x <= 0 ==> r.x <= 0)
    &&& (v.y >= 0 ==> r.y >= 0) && (v.y <= 0 ==> r.y <= 0)
    &&& (v.z >= 0 ==> r.z >= 0) && (v.z <= 0 ==> r.z <= 0)
}

pub proof fn lemma_mul_le(a: int, b: int, cap_a: int, cap_b: int)
    by (nonlinear_arith)
    requires
        0 <= a <= cap_a,
        0 <= b <= cap_b,
    ensures
        a * b <= cap_a * cap_b,
{
}

pub proof fn lemma_abs_mul_le(a: int, b: int, cap_a: int, cap_b: int)
    by (nonlinear_arith)
    requires
        abs_i(a) <= cap_a,
        abs_i(b) <= cap_b,
    ensures
        abs_i(a * b) <= cap_a * cap_b,
{
}

pub proof fn lemma_div_le(p: int, cap: int, d: int)
    by (nonlinear_arith)
    requires
        0 <= p <= cap,
        1 <= d,
    ensures
        0 <= p / d <= cap / d,
{
}

pub proof fn lemma_square_nonneg(a: int)
    by (nonlinear_arith)
    ensures
        a * a >= 0,
{
}

pub proof fn lemma_abs_square(a: int)
    by (nonlinear_arith)
    ensures
        abs_i(a) * abs_i(a) == a * a,
{
}

/// A square root bound on one coordinate: if `a*a <= m*m` then `|a| <= m`.
pub proof fn lemma_square_le(a: int, m: int)
    by (nonlinear_arith)
    requires
        a * a <= m * m,
        0 <= m,
    ensures
        -m <= a <= m,
{
}

/// The magnitude of a truncated quotient: `|tdiv(p, d)| == |p| / d <= |p|`.
pub proof fn lemma_tdiv_abs(p: int, d: int)
    by (nonlinear_arith)
    requires
        1 <= d,
    ensures
        abs_i(tdiv(p, d)) == abs_i(p) / d,
        abs_i(p) / d <= abs_i(p),
        p >= 0 ==> tdiv(p, d) >= 0,
        p <= 0 ==> tdiv(p, d) <= 0,
{
}

/// Floor square root counted up from `c`: the greatest `r` with `r * r <= n`.
pub open spec fn isqrt_from(n: int, c: int) -> int
    decreases (if n - c * c > 0 {
        n - c * c
    } else {
        0
    }) via isqrt_from_dec
{
    if c >= 0 && (c + 1) * (c + 1) <= n {
        isqrt_from(n, c + 1)
    } else {
        c
    }
}

#[via_fn]
proof fn isqrt_from_dec(n: int, c: int) {
    assert(c >= 0 && (c + 1) * (c + 1) <= n ==> 0 < n - c * c && (if n - (c + 1) * (c + 1) > 0 {
        n - (c + 1) * (c + 1)
    } else {
        0
    }) < n - c * c) by (nonlinear_arith);
}

/// The integer square root, as a spec value.
pub open spec fn isqrt_spec(n: int) -> int {
    isqrt_from(n, 0)
}

/// The integer square root is the unique `r >= 0` with `r^2 <= n < (r+1)^2`.
pub proof fn lemma_isqrt_unique(n: int, r: int, k: int)
    requires
        0 <= k <= r,
        r * r <= n,
        n < (r + 1) * (r + 1),
    ensures
        isqrt_from(n, k) == r,
    decreases r - k,
{
    if k == r {
        assert(!((r + 1) * (r + 1) <= n));
    } else {
        assert((k + 1) * (k + 1) <= n) by (nonlinear_arith)
            requires
                0 <= k < r,
                r * r <= n,
        ;
        lemma_isqrt_unique(n, r, k + 1);
    }
}

/// Truncated division distributes over the sign of a scaled coordinate.
pub proof fn lemma_tdiv_sign(a: int, s: int, d: int, am: int)
    by (nonlinear_arith)
    requires
        am == abs_i(a),
        0 <= s,
        1 <= d,
    ensures
        tdiv(a * s, d) == (if a >= 0 {
            (am * s) / d
        } else {
            -((am * s) / d)
        }),
{
}

/// A componentwise bound gives a squared-norm bound.
pub proof fn lemma_norm2_bound(x: int, y: int, z: int, b: int)
    by (nonlinear_arith)
    requires
        -b <= x <= b,
        -b <= y <= b,
        -b <= z <= b,
    ensures
        0 <= x * x + y * y + z * z <= 3 * b * b,
{
}

/// A magnitude bound on a coordinate bounds its square.
pub proof fn lemma_sq_abs_le(u: int, v: int)
    by (nonlinear_arith)
    requires
        abs_i(u) <= abs_i(v),
    ensures
        u * u <= v * v,
{
}

/// Shrinking every component (in magnitude) shrinks the squared norm.
pub proof fn lemma_norm_shrink(a: Vec3, b: Vec3)
    requires
        abs_i(b.x as int) <= abs_i(a.x as int),
        abs_i(b.y as int) <= abs_i(a.y as int),
        abs_i(b.z as int) <= abs_i(a.z as int),
    ensures
        norm2(b) <= norm2(a),
{
    lemma_sq_abs_le(b.x as int, a.x as int);
    lemma_sq_abs_le(b.y as int, a.y as int);
    lemma_sq_abs_le(b.z as int, a.z as int);
}

/// Absolute value of a coordinate, as an unsigned word.
pub fn iabs(a: i64) -> (r: u64)
    requires
        i64::MIN < a,
    ensures
        r == abs_i(a as int),
{
    if a < 0 {
        (-a) as u64
    } else {
        a as u64
    }
}

/// Exact square of a bounded coordinate.
pub fn sq_u64(a: i64) -> (r: u64)
    requires
        -0x8000_0000 <= a <= 0x8000_0000,
    ensures
        r == a * a,
        r <= 0x4000_0000_0000_0000,
{
    let m: u64 = iabs(a);
    proof {
        lemma_mul_le(m as int, m as int, 0x8000_0000, 0x8000_0000);
        lemma_abs_square(a as int);
    }
    m * m
}

/// Exact squared norm of a bounded vector.
pub fn norm2_u64(v: Vec3) -> (n: u64)
    requires
        in_lim(v, 0x8000_0000),
    ensures
        n == norm2(v),
        n <= 0xC000_0000_0000_0000,
{
    sq_u64(v.x) + sq_u64(v.y) + sq_u64(v.z)
}

/// Integer square root: the greatest `r` with `r * r <= n`.
pub fn isqrt64(n: u64) -> (r: u64)
    ensures
        r * r <= n,
        n < (r + 1) * (r + 1),
        r <= 0xFFFF_FFFF,
        r == isqrt_spec(n as int),
{
    let mut lo: u64 = 0;
    let mut hi: u64 = 0x1_0000_0000;
    while lo + 1 < hi
        invariant
            lo < hi <= 0x1_0000_0000,
            lo * lo <= n,
            n < hi * hi,
        decreases hi - lo,
    {
        let mid: u64 = lo + (hi - lo) / 2;
        proof {
            lemma_mul_le(mid as int, mid as int, 0xFFFF_FFFF, 0xFFFF_FFFF);
        }
        if mid * mid <= n {
            lo = mid;
        } else {
            hi = mid;
        }
    }
    proof {
        lemma_isqrt_unique(n as int, lo as int, 0);
    }
    lo
}

/// Truncated division of one coordinate-sized value, exact against `tdiv`.
pub fn div_trunc(a: i64, d: i64) -> (r: i64)
    requires
        i64::MIN < a,
        1 <= d,
    ensures
        r == tdiv(a as int, d as int),
        abs_i(r as int) == abs_i(a as int) / d as int,
        abs_i(r as int) <= abs_i(a as int),
{
    proof {
        lemma_tdiv_abs(a as int, d as int);
    }
    if a < 0 {
        -((((-a) as u64) / (d as u64)) as i64)
    } else {
        ((a as u64) / (d as u64)) as i64
    }
}

/// Truncated scaled product `a * b / d`, exact against `tdiv`.
pub fn mul_div(a: i64, b: i64, d: i64) -> (r: i64)
    requires
        -0x8000_0000 <= a <= 0x8000_0000,
        -0x8000_0000 <= b <= 0x8000_0000,
        1 <= d,
    ensures
        r == tdiv(a * b as int, d as int),
        abs_i(r as int) == abs_i(a * b as int) / d as int,
        abs_i(r as int) <= abs_i(a * b as int),
{
    let neg: bool = (a < 0) != (b < 0);
    let am: u64 = iabs(a);
    let bm: u64 = iabs(b);
    proof {
        lemma_mul_le(am as int, bm as int, 0x8000_0000, 0x8000_0000);
        assert(am * bm == abs_i(a * b as int) && (neg ==> a * b <= 0) && (!neg ==> a * b >= 0))
            by (nonlinear_arith)
            requires
                am == abs_i(a as int),
                bm == abs_i(b as int),
                neg == ((a < 0) != (b < 0)),
        ;
        lemma_tdiv_abs(a * b as int, d as int);
    }
    let q: u64 = (am * bm) / (d as u64);
    if neg {
        -(q as i64)
    } else {
        q as i64
    }
}

/// The core scaling bound: dividing each scaled component by a strict upper
/// bound `d` on the true magnitude keeps the result's norm within `s`.
proof fn lemma_scaled_norm(ax: int, ay: int, az: int, s: int, d: int, qx: int, qy: int, qz: int)
    requires
        0 <= ax,
        0 <= ay,
        0 <= az,
        0 <= s,
        1 <= d,
        ax * ax + ay * ay + az * az < d * d,
        qx == (ax * s) / d,
        qy == (ay * s) / d,
        qz == (az * s) / d,
    ensures
        qx * qx + qy * qy + qz * qz <= s * s,
        0 <= qx <= s,
        0 <= qy <= s,
        0 <= qz <= s,
{
    lemma_scaled_component(ax, s, d);
    lemma_scaled_component(ay, s, d);
    lemma_scaled_component(az, s, d);
    assert((qx * qx) * (d * d) + (qy * qy) * (d * d) + (qz * qz) * (d * d) <= (ax * ax + ay * ay
        + az * az) * (s * s)) by (nonlinear_arith)
        requires
            (qx * qx) * (d * d) <= (ax * ax) * (s * s),
            (qy * qy) * (d * d) <= (ay * ay) * (s * s),
            (qz * qz) * (d * d) <= (az * az) * (s * s),
    ;
    assert((ax * ax + ay * ay + az * az) * (s * s) <= (d * d - 1) * (s * s)) by (nonlinear_arith)
        requires
            ax * ax + ay * ay + az * az <= d * d - 1,
            s * s >= 0,
    ;
    assert((qx * qx + qy * qy + qz * qz) * (d * d) == (qx * qx) * (d * d) + (qy * qy) * (d * d) + (
    qz * qz) * (d * d)) by (nonlinear_arith);
    assert(qx * qx + qy * qy + qz * qz <= s * s) by (nonlinear_arith)
        requires
            (qx * qx + qy * qy + qz * qz) * (d * d) <= (d * d - 1) * (s * s),
            1 <= d,
            0 <= qx,
            0 <= qy,
            0 <= qz,
    ;
    lemma_square_nonneg(qy);
    lemma_square_nonneg(qz);
    lemma_square_nonneg(qx);
    lemma_square_le(qx, s);
    lemma_square_le(qy, s);
    lemma_square_le(qz, s);
}

/// One component of the scaling bound: `(q * d)^2 <= (a * s)^2` and `q >= 0`.
proof fn lemma_scaled_component(a: int, s: int, d: int)
    by (nonlinear_arith)
    requires
        0 <= a,
        0 <= s,
        1 <= d,
    ensures
        ((a * s) / d) >= 0,
        (((a * s) / d) * ((a * s) / d)) * (d * d) <= (a * a) * (s * s),
{
    let q = (a * s) / d;
    assert(q * d <= a * s);
    assert((q * d) * (q * d) <= (a * s) * (a * s));
}

/// What `scale_to` returns: each component of `v` multiplied by `s` and
/// divided (toward zero) by a strict upper bound on `v`'s magnitude.
pub open spec fn scale_to_spec(v: Vec3, s: int) -> Vec3 {
    if norm2(v) == 0 {
        Vec3 { x: 0i64, y: 0i64, z: 0i64 }
    } else {
        let d = isqrt_spec(norm2(v)) + 1;
        Vec3 {
            x: tdiv(v.x * s, d) as i64,
            y: tdiv(v.y * s, d) as i64,
            z: tdiv(v.z * s, d) as i64,
        }
    }
}

/// What `clamp_norm` returns: `v` itself when already within `m`, else `v`
/// rescaled to magnitude at most `m`.
pub open spec fn clamp_norm_spec(v: Vec3, m: int) -> Vec3 {
    if norm2(v) <= m * m {
        v
    } else {
        scale_to_spec(v, m)
    }
}

/// Rescale `v` to magnitude at most `s`, preserving the sign of every
/// component. A zero vector stays zero.
pub fn scale_to(v: Vec3, s: i64) -> (r: Vec3)
    requires
        0 <= s <= COORD_LIMIT,
        in_lim(v, COORD_LIMIT as int),
    ensures
        r == scale_to_spec(v, s as int),
        norm2(r) <= s * s,
        in_lim(r, s as int),
        same_signs(r, v),
        v == (Vec3 { x: 0i64, y: 0i64, z: 0i64 }) ==> r == v,
    {
    let n2: u64 = norm2_u64(v);
    if n2 == 0 {
        proof {
            lemma_square_nonneg(s as int);
            lemma_square_nonneg(v.x as int);
            lemma_square_nonneg(v.y as int);
            lemma_square_nonneg(v.z as int);
        }
        return Vec3 { x: 0, y: 0, z: 0 };
    }
    let mag: u64 = isqrt64(n2);
    let d: u64 = mag + 1;
    let ax: u64 = iabs(v.x);
    let ay: u64 = iabs(v.y);
    let az: u64 = iabs(v.z);
    proof {
        lemma_mul_le(ax as int, s as int, COORD_LIMIT as int, COORD_LIMIT as int);
        lemma_mul_le(ay as int, s as int, COORD_LIMIT as int, COORD_LIMIT as int);
        lemma_mul_le(az as int, s as int, COORD_LIMIT as int, COORD_LIMIT as int);
        lemma_abs_square(v.x as int);
        lemma_abs_square(v.y as int);
        lemma_abs_square(v.z as int);
        lemma_scaled_norm(
            ax as int,
            ay as int,
            az as int,
            s as int,
            d as int,
            (ax as int * s as int) / d as int,
            (ay as int * s as int) / d as int,
            (az as int * s as int) / d as int,
        );
    }
    proof {
        assert(forall|a: int, dd: int| a == 0 && dd >= 1 ==> #[trigger] ((a * s) / dd) == 0)
            by (nonlinear_arith);
    }
    let qx: u64 = (ax * (s as u64)) / d;
    let qy: u64 = (ay * (s as u64)) / d;
    let qz: u64 = (az * (s as u64)) / d;
    let rx: i64 = if v.x < 0 {
        -(qx as i64)
    } else {
        qx as i64
    };
    let ry: i64 = if v.y < 0 {
        -(qy as i64)
    } else {
        qy as i64
    };
    let rz: i64 = if v.z < 0 {
        -(qz as i64)
    } else {
        qz as i64
    };
    let r = Vec3 { x: rx, y: ry, z: rz };
    proof {
        lemma_abs_square(rx as int);
        lemma_abs_square(ry as int);
        lemma_abs_square(rz as int);
        lemma_tdiv_sign(v.x as int, s as int, d as int, ax as int);
        lemma_tdiv_sign(v.y as int, s as int, d as int, ay as int);
        lemma_tdiv_sign(v.z as int, s as int, d as int, az as int);
    }
    r
}

/// Clamp `v` to magnitude at most `m`: unchanged when already within, else
/// rescaled downward along the same direction.
pub fn clamp_norm(v: Vec3, m: i64) -> (r: Vec3)
    requires
        0 <= m <= COORD_LIMIT,
        in_lim(v, COORD_LIMIT as int),
    ensures
        r == clamp_norm_spec(v, m as int),
        norm2(r) <= m * m,
        in_lim(r, m as int),
        same_signs(r, v),
        norm2(v) <= m * m ==> r == v,
    {
    let n2: u64 = norm2_u64(v);
    proof {
        lemma_mul_le(m as int, m as int, COORD_LIMIT as int, COORD_LIMIT as int);
    }
    let mm: u64 = (m as u64) * (m as u64);
    if n2 <= mm {
        proof {
            lemma_square_nonneg(v.y as int);
            lemma_square_nonneg(v.z as int);
            lemma_square_nonneg(v.x as int);
            lemma_square_le(v.x as int, m as int);
            lemma_square_le(v.y as int, m as int);
            lemma_square_le(v.z as int, m as int);
        }
        v
    } else {
        scale_to(v, m)
    }
}

/// Componentwise difference of two bounded vectors.
pub fn vsub(a: Vec3, b: Vec3) -> (r: Vec3)
    requires
        in_lim(a, 0x1000_0000_0000_0000),
        in_lim(b, 0x1000_0000_0000_0000),
    ensures
        r == diff(a, b),
{
    Vec3 { x: a.x - b.x, y: a.y - b.y, z: a.z - b.z }
}

/// Exact squared distance between two bounded points.
pub fn dist2_u64(a: Vec3, b: Vec3) -> (n: u64)
    requires
        in_lim(a, COORD_LIMIT as int),
        in_lim(b, COORD_LIMIT as int),
    ensures
        n == norm2(diff(a, b)),
        n <= 0xC000_0000_0000_0000,
{
    norm2_u64(Vec3 { x: a.x - b.x, y: a.y - b.y, z: a.z - b.z })
}

/// One coordinate clamped into `[-b, b]`, as a spec value.
pub open spec fn clamp_spec(a: int, b: int) -> int {
    if a < -b {
        -b
    } else if a > b {
        b
    } else {
        a
    }
}

/// Clamp one coordinate into `[-b, b]`.
pub fn clamp_coord(a: i64, b: i64) -> (r: i64)
    requires
        0 <= b,
    ensures
        r == clamp_spec(a as int, b as int),
        -b <= r <= b,
        -b <= a <= b ==> r == a,
{
    if a < -b {
        -b
    } else if a > b {
        b
    } else {
        a
    }
}

} // verus!
