//! Formation generator: a pure function from (pattern, slot index, agent
//! count, center, spacing parameters) to an ordered sequence of target
//! positions. Deterministic for every pattern except `Random`, which draws
//! uniform offsets in a bounded square around the center.

use vstd::prelude::*;

use crate::geom::{
    abs_i, in_lim, lemma_abs_mul_le, lemma_div_le, lemma_mul_le, lemma_tdiv_abs, mul_div, tdiv,
    Vec3,
};
use crate::rng::rand_centered_milli;
use crate::trig::{cos_milli, cos_milli_spec, sin_milli, sin_milli_spec};
use crate::{CENTER_LIMIT, MAX_AGENTS, MAX_RADIUS, MAX_SPACING, WORLD_LIMIT};



verus! {

/// `cos(30 degrees)` in milli, the echelon slope of the V formation.
pub const COS_30_MILLI: i64 = 866;

/// `sin(30 degrees)` in milli.
pub const SIN_30_MILLI: i64 = 500;

/// The named geometric patterns an agent slot can be mapped through.
#[derive(Clone, Copy, Debug, PartialEq, Eq, Structural)]
pub enum FormationType {
    Random,
    Grid,
    Line,
    Circle,
    VFormation,
}

/// Spacing knobs for the formation generator, in milli-units.
#[derive(Clone, Debug)]
pub struct FormationParams {
    pub drone_count: usize,
    pub grid_spacing: i64,
    pub circle_radius: i64,
    pub line_spacing: i64,
    pub v_spacing: i64,
}

/// Rejection reasons for out-of-range formation parameters.
#[derive(Clone, Copy, Debug, PartialEq, Eq, Structural)]
pub enum ParamError {
    TooManyAgents,
    SpacingOutOfRange,
    RadiusOutOfRange,
}

/// All parameters inside the ranges the engine is specified over.
pub open spec fn wf_params(p: FormationParams) -> bool {
    &&& p.drone_count <= MAX_AGENTS
    &&& 0 < p.grid_spacing <= MAX_SPACING
    &&& 0 < p.line_spacing <= MAX_SPACING
    &&& 0 < p.v_spacing <= MAX_SPACING
    &&& 0 < p.circle_radius <= MAX_RADIUS
}

/// What `validate` returns: the first out-of-range group, or `Ok`.
pub open spec fn validate_spec(p: FormationParams) -> Result<(), ParamError> {
    if p.drone_count > MAX_AGENTS {
        Err(ParamError::TooManyAgents)
    } else if !(0 < p.grid_spacing <= MAX_SPACING) || !(0 < p.line_spacing <= MAX_SPACING) || !(0
        < p.v_spacing <= MAX_SPACING) {
        Err(ParamError::SpacingOutOfRange)
    } else if !(0 < p.circle_radius <= MAX_RADIUS) {
        Err(ParamError::RadiusOutOfRange)
    } else {
        Ok(())
    }
}

impl FormationParams {
    /// Reject out-of-range parameters at the boundary, before they can reach
    /// an update rule.
    pub fn validate(&self) -> (r: Result<(), ParamError>)
        ensures
            r == validate_spec(*self),
            r is Ok <==> wf_params(*self),
    {
        if self.drone_count > MAX_AGENTS {
            Err(ParamError::TooManyAgents)
        } else if !(0 < self.grid_spacing && self.grid_spacing <= MAX_SPACING) || !(0
            < self.line_spacing && self.line_spacing <= MAX_SPACING) || !(0 < self.v_spacing
            && self.v_spacing <= MAX_SPACING) {
            Err(ParamError::SpacingOutOfRange)
        } else if !(0 < self.circle_radius && self.circle_radius <= MAX_RADIUS) {
            Err(ParamError::RadiusOutOfRange)
        } else {
            Ok(())
        }
    }
}

impl Default for FormationParams {
    /// The defaults the simulation starts from: 10 agents, 30-unit grid,
    /// 60-unit circle, 25-unit line, 20-unit echelon.
    fn default() -> (r: Self)
        ensures
            r.drone_count == 10,
            r.grid_spacing == 30000,
            r.circle_radius == 60000,
            r.line_spacing == 25000,
            r.v_spacing == 20000,
    {
        FormationParams {
            drone_count: 10,
            grid_spacing: 30000,
            circle_radius: 60000,
            line_spacing: 25000,
            v_spacing: 20000,
        }
    }
}

/// Smallest `c >= from` with `c * c >= n`, counted up from `from`.
pub open spec fn ceil_sqrt_from(n: int, c: int) -> int
    decreases (if n - c * c > 0 {
        n - c * c
    } else {
        0
    }) via ceil_sqrt_from_dec
{
    if c >= 0 && c * c < n {
        ceil_sqrt_from(n, c + 1)
    } else {
        c
    }
}

#[via_fn]
proof fn ceil_sqrt_from_dec(n: int, c: int) {
    assert(c >= 0 && c * c < n ==> (if n - (c + 1) * (c + 1) > 0 {
        n - (c + 1) * (c + 1)
    } else {
        0
    }) < n - c * c) by (nonlinear_arith);
}

/// The grid's column count: the smallest `c` with `c * c >= n`.
pub open spec fn ceil_sqrt_spec(n: int) -> int {
    ceil_sqrt_from(n, 0)
}

proof fn lemma_ceil_sqrt_from(n: int, c: int, k: int)
    requires
        0 <= k <= c,
        c * c >= n,
        c == 0 || (c - 1) * (c - 1) < n,
        k == c || k * k < n,
    ensures
        ceil_sqrt_from(n, k) == c,
    decreases c - k,
{
    if k == c {
        assert(!(c * c < n));
    } else {
        assert(k * k < n);
        assert((k + 1) == c || (k + 1) * (k + 1) < n) by (nonlinear_arith)
            requires
                0 <= k < c,
                c == 0 || (c - 1) * (c - 1) < n,
        ;
        lemma_ceil_sqrt_from(n, c, k + 1);
    }
}

/// Smallest column count whose square covers `n` slots.
pub fn ceil_sqrt(n: usize) -> (c: usize)
    requires
        n <= MAX_AGENTS,
    ensures
        c == ceil_sqrt_spec(n as int),
        c * c >= n,
        n > 0 ==> c >= 1 && (c - 1) * (c - 1) < n,
        c <= 16,
{
    let mut c: usize = 0;
    let mut sq: usize = 0;
    while sq < n
        invariant
            0 <= c <= 16,
            sq == c * c,
            c == 0 || (c - 1) * (c - 1) < n,
            n <= 256,
        decreases 16 - c,
    {
        proof {
            assert(c < 16 && (c + 1) * (c + 1) == c * c + 2 * c + 1) by (nonlinear_arith)
                requires
                    0 <= c <= 16,
                    c * c < n <= 256,
            ;
        }
        sq = sq + 2 * c + 1;
        c = c + 1;
    }
    proof {
        lemma_ceil_sqrt_from(n as int, c as int, 0);
    }
    c
}

/// Target coordinates for slot `i` of `n` agents, as exact integers.
/// `Random` has no deterministic target; its entry here is the center.
pub open spec fn target_spec(
    pattern: FormationType,
    i: int,
    n: int,
    center: Vec3,
    p: FormationParams,
) -> (int, int, int) {
    match pattern {
        FormationType::VFormation => v_target_spec(i, center, p.v_spacing as int),
        FormationType::Circle => circle_target_spec(i, n, center, p.circle_radius as int),
        FormationType::Line => line_target_spec(i, n, center, p.line_spacing as int),
        FormationType::Grid => grid_target_spec(
            i,
            ceil_sqrt_spec(n),
            center,
            p.grid_spacing as int,
        ),
        FormationType::Random => (center.x as int, center.y as int, center.z as int),
    }
}

/// V formation: two echelons behind the point, row `i / 2`, side by parity.
pub open spec fn v_target_spec(i: int, center: Vec3, spacing: int) -> (int, int, int) {
    let row = i / 2;
    let back = tdiv(row * spacing * COS_30_MILLI, 1000);
    let side = tdiv(row * spacing * SIN_30_MILLI, 1000);
    (
        center.x - back,
        if i % 2 == 0 {
            center.y + side
        } else {
            center.y - side
        },
        center.z as int,
    )
}

/// Circle: slot `i` at angle `i / n` turns on the given radius. A circle of
/// one is the degenerate single-point case: the center itself.
pub open spec fn circle_target_spec(i: int, n: int, center: Vec3, radius: int) -> (int, int, int) {
    if n == 1 {
        (center.x as int, center.y as int, center.z as int)
    } else {
        let t = (i * 1000) / n;
        (
            center.x + tdiv(radius * cos_milli_spec(t), 1000),
            center.y + tdiv(radius * sin_milli_spec(t), 1000),
            center.z as int,
        )
    }
}

/// Line: evenly spaced along the x axis, centred on `center`.
pub open spec fn line_target_spec(i: int, n: int, center: Vec3, spacing: int) -> (int, int, int) {
    (center.x - tdiv((n - 1) * spacing, 2) + i * spacing, center.y as int, center.z as int)
}

/// Grid: row-major block of `cols` columns, centred on `center` along x.
pub open spec fn grid_target_spec(i: int, cols: int, center: Vec3, spacing: int) -> (
    int,
    int,
    int,
) {
    let row = i / cols;
    let col = i % cols;
    (center.x + col * spacing - tdiv((cols - 1) * spacing, 2), center.y + row * spacing,
    center.z as int)
}

/// Ordered target positions for `count` agents.
///
/// Every pattern except `Random` is a pure function of the arguments; for
/// `Random` each slot draws a fresh offset within 100 units of the center.
pub fn positions(
    pattern: FormationType,
    count: usize,
    center: Vec3,
    params: &FormationParams,
) -> (r: Vec<Vec3>)
    requires
        wf_params(*params),
        count <= MAX_AGENTS,
        in_lim(center, CENTER_LIMIT as int),
    ensures
        r@.len() == count,
        forall|i: int|
            0 <= i < count ==> in_lim(#[trigger] r@[i], WORLD_LIMIT as int),
        pattern != FormationType::Random ==> forall|i: int|
            0 <= i < count ==> {
                let t = target_spec(pattern, i, count as int, center, *params);
                #[trigger] r@[i] == (Vec3 { x: t.0 as i64, y: t.1 as i64, z: t.2 as i64 })
                    && r@[i].x == t.0 && r@[i].y == t.1 && r@[i].z == t.2
            },
{
    let mut r: Vec<Vec3> = Vec::new();
    let cols: usize = ceil_sqrt(count);
    let mut i: usize = 0;
    while i < count
        invariant
            0 <= i <= count <= MAX_AGENTS,
            wf_params(*params),
            in_lim(center, CENTER_LIMIT as int),
            cols == ceil_sqrt_spec(count as int),
            count > 0 ==> cols >= 1,
            cols <= 16,
            r@.len() == i,
            forall|j: int|
                0 <= j < i ==> in_lim(#[trigger] r@[j], WORLD_LIMIT as int),
            pattern != FormationType::Random ==> forall|j: int|
                0 <= j < i ==> {
                    let t = target_spec(pattern, j, count as int, center, *params);
                    #[trigger] r@[j] == (Vec3 { x: t.0 as i64, y: t.1 as i64, z: t.2 as i64 })
                        && r@[j].x == t.0 && r@[j].y == t.1 && r@[j].z == t.2
                },
        decreases count - i,
    {
        let p = match pattern {
            FormationType::VFormation => {
                let row: i64 = (i / 2) as i64;
                proof {
                    lemma_mul_le(row as int, params.v_spacing as int, 128, MAX_SPACING as int);
                }
                let rs: i64 = row * params.v_spacing;
                proof {
                    lemma_tdiv_abs(rs * COS_30_MILLI, 1000);
                    lemma_tdiv_abs(rs * SIN_30_MILLI, 1000);
                    lemma_abs_mul_le(rs as int, COS_30_MILLI as int, 12800000, 1000);
                    lemma_abs_mul_le(rs as int, SIN_30_MILLI as int, 12800000, 1000);
                    lemma_div_le(abs_i(rs * COS_30_MILLI), 12800000000, 1000);
                    lemma_div_le(abs_i(rs * SIN_30_MILLI), 12800000000, 1000);
                }
                let back: i64 = mul_div(rs, COS_30_MILLI, 1000);
                let side: i64 = mul_div(rs, SIN_30_MILLI, 1000);
                if i % 2 == 0 {
                    Vec3 { x: center.x - back, y: center.y + side, z: center.z }
                } else {
                    Vec3 { x: center.x - back, y: center.y - side, z: center.z }
                }
            },
            FormationType::Circle => {
                if count == 1 {
                    center
                } else {
                    proof {
                        assert((i * 1000) / (count as int) < 1000) by (nonlinear_arith)
                            requires
                                0 <= i < count,
                        ;
                        assert((i * 1000) / (count as int) >= 0) by (nonlinear_arith)
                            requires
                                0 <= i < count,
                        ;
                    }
                    let t: usize = (i * 1000) / count;
                    let cv: i64 = cos_milli(t as i64);
                    let sv: i64 = sin_milli(t as i64);
                    proof {
                        lemma_tdiv_abs(params.circle_radius * cv, 1000);
                        lemma_tdiv_abs(params.circle_radius * sv, 1000);
                        lemma_abs_mul_le(params.circle_radius as int, cv as int, MAX_RADIUS as int,
                            1000);
                        lemma_abs_mul_le(params.circle_radius as int, sv as int, MAX_RADIUS as int,
                            1000);
                        lemma_div_le(abs_i(params.circle_radius * cv), 200000000, 1000);
                        lemma_div_le(abs_i(params.circle_radius * sv), 200000000, 1000);
                    }
                    let dx: i64 = mul_div(params.circle_radius, cv, 1000);
                    let dy: i64 = mul_div(params.circle_radius, sv, 1000);
                    Vec3 { x: center.x + dx, y: center.y + dy, z: center.z }
                }
            },
            FormationType::Line => {
                proof {
                    lemma_mul_le((count - 1) as int, params.line_spacing as int, MAX_AGENTS as int,
                        MAX_SPACING as int);
                    lemma_mul_le(i as int, params.line_spacing as int, MAX_AGENTS as int,
                        MAX_SPACING as int);
                    lemma_tdiv_abs((count - 1) * params.line_spacing, 2);
                    lemma_div_le(abs_i((count - 1) * params.line_spacing), 25600000, 2);
                }
                let half: i64 = mul_div((count - 1) as i64, params.line_spacing, 2);
                let off: i64 = (i as i64) * params.line_spacing;
                Vec3 { x: center.x - half + off, y: center.y, z: center.z }
            },
            FormationType::Grid => {
                let row: i64 = (i / cols) as i64;
                let col: i64 = (i % cols) as i64;
                proof {
                    assert(i / cols <= i && i % cols < cols) by (nonlinear_arith)
                        requires
                            1 <= cols,
                            0 <= i,
                    ;
                    lemma_mul_le(col as int, params.grid_spacing as int, 16, MAX_SPACING as int);
                    lemma_mul_le(row as int, params.grid_spacing as int, MAX_AGENTS as int,
                        MAX_SPACING as int);
                    lemma_mul_le((cols - 1) as int, params.grid_spacing as int, 16,
                        MAX_SPACING as int);
                    lemma_tdiv_abs((cols - 1) * params.grid_spacing, 2);
                    lemma_div_le(abs_i((cols - 1) * params.grid_spacing), 1600000, 2);
                }
                let half: i64 = mul_div((cols as i64) - 1, params.grid_spacing, 2);
                Vec3 {
                    x: center.x + col * params.grid_spacing - half,
                    y: center.y + row * params.grid_spacing,
                    z: center.z,
                }
            },
            FormationType::Random => {
                let dx: i64 = rand_centered_milli() * 200;
                let dy: i64 = rand_centered_milli() * 200;
                Vec3 { x: center.x + dx, y: center.y + dy, z: center.z }
            },
        };
        r.push(p);
        i = i + 1;
    }
    r
}

/// The target of one slot, for a center anywhere in the world box. For the
/// `Random` pattern the target is the center itself: a random slot has no
/// deterministic target to seek.
pub fn target_at(
    pattern: FormationType,
    i: usize,
    count: usize,
    center: Vec3,
    params: &FormationParams,
) -> (r: Vec3)
    requires
        wf_params(*params),
        i < count <= MAX_AGENTS,
        in_lim(center, WORLD_LIMIT as int),
    ensures
        ({
            let t = target_spec(pattern, i as int, count as int, center, *params);
            r.x == t.0 && r.y == t.1 && r.z == t.2
        }),
        in_lim(r, 2 * WORLD_LIMIT as int),
        -26_000_000 <= r.x - center.x <= 26_000_000,
        -26_000_000 <= r.y - center.y <= 26_000_000,
        r.z == center.z,
{
    match pattern {
        FormationType::VFormation => {
            let row: i64 = (i / 2) as i64;
            proof {
                lemma_mul_le(row as int, params.v_spacing as int, 128, MAX_SPACING as int);
            }
            let rs: i64 = row * params.v_spacing;
            proof {
                lemma_tdiv_abs(rs * COS_30_MILLI, 1000);
                lemma_tdiv_abs(rs * SIN_30_MILLI, 1000);
                lemma_abs_mul_le(rs as int, COS_30_MILLI as int, 12800000, 1000);
                lemma_abs_mul_le(rs as int, SIN_30_MILLI as int, 12800000, 1000);
                lemma_div_le(abs_i(rs * COS_30_MILLI), 12800000000, 1000);
                lemma_div_le(abs_i(rs * SIN_30_MILLI), 12800000000, 1000);
            }
            let back: i64 = mul_div(rs, COS_30_MILLI, 1000);
            let side: i64 = mul_div(rs, SIN_30_MILLI, 1000);
            if i % 2 == 0 {
                Vec3 { x: center.x - back, y: center.y + side, z: center.z }
            } else {
                Vec3 { x: center.x - back, y: center.y - side, z: center.z }
            }
        },
        FormationType::Circle => {
            if count == 1 {
                center
            } else {
                proof {
                    assert((i * 1000) / (count as int) < 1000) by (nonlinear_arith)
                        requires
                            0 <= i < count,
                    ;
                    assert((i * 1000) / (count as int) >= 0) by (nonlinear_arith)
                        requires
                            0 <= i < count,
                    ;
                }
                let t: usize = (i * 1000) / count;
                let cv: i64 = cos_milli(t as i64);
                let sv: i64 = sin_milli(t as i64);
                proof {
                    lemma_tdiv_abs(params.circle_radius * cv, 1000);
                    lemma_tdiv_abs(params.circle_radius * sv, 1000);
                    lemma_abs_mul_le(params.circle_radius as int, cv as int, MAX_RADIUS as int,
                        1000);
                    lemma_abs_mul_le(params.circle_radius as int, sv as int, MAX_RADIUS as int,
                        1000);
                    lemma_div_le(abs_i(params.circle_radius * cv), 200000000, 1000);
                    lemma_div_le(abs_i(params.circle_radius * sv), 200000000, 1000);
                }
                let dx: i64 = mul_div(params.circle_radius, cv, 1000);
                let dy: i64 = mul_div(params.circle_radius, sv, 1000);
                Vec3 { x: center.x + dx, y: center.y + dy, z: center.z }
            }
        },
        FormationType::Line => {
            proof {
                lemma_mul_le((count - 1) as int, params.line_spacing as int, MAX_AGENTS as int,
                    MAX_SPACING as int);
                lemma_mul_le(i as int, params.line_spacing as int, MAX_AGENTS as int,
                    MAX_SPACING as int);
                lemma_tdiv_abs((count - 1) * params.line_spacing, 2);
                lemma_div_le(abs_i((count - 1) * params.line_spacing), 25600000, 2);
            }
            let half: i64 = mul_div((count - 1) as i64, params.line_spacing, 2);
            let off: i64 = (i as i64) * params.line_spacing;
            Vec3 { x: center.x - half + off, y: center.y, z: center.z }
        },
        FormationType::Grid => {
            let cols: usize = ceil_sqrt(count);
            let row: i64 = (i / cols) as i64;
            let col: i64 = (i % cols) as i64;
            proof {
                assert(i / cols <= i && i % cols < cols) by (nonlinear_arith)
                    requires
                        1 <= cols,
                        0 <= i,
                ;
                lemma_mul_le(col as int, params.grid_spacing as int, 16, MAX_SPACING as int);
                lemma_mul_le(row as int, params.grid_spacing as int, MAX_AGENTS as int,
                    MAX_SPACING as int);
                lemma_mul_le((cols - 1) as int, params.grid_spacing as int, 16, MAX_SPACING as int);
                lemma_tdiv_abs((cols - 1) * params.grid_spacing, 2);
                lemma_div_le(abs_i((cols - 1) * params.grid_spacing), 1600000, 2);
            }
            let half: i64 = mul_div((cols as i64) - 1, params.grid_spacing, 2);
            Vec3 {
                x: center.x + col * params.grid_spacing - half,
                y: center.y + row * params.grid_spacing,
                z: center.z,
            }
        },
        FormationType::Random => center,
    }
}

/// Law: the deterministic patterns are reproducible. Any two sequences that
/// satisfy the generator's contract on the same arguments are equal.
pub proof fn lemma_formation_deterministic(
    r1: Seq<Vec3>,
    r2: Seq<Vec3>,
    pattern: FormationType,
    count: int,
    center: Vec3,
    p: FormationParams,
)
    requires
        pattern != FormationType::Random,
        r1.len() == count,
        r2.len() == count,
        forall|i: int|
            0 <= i < count ==> {
                let t = target_spec(pattern, i, count, center, p);
                #[trigger] r1[i] == (Vec3 { x: t.0 as i64, y: t.1 as i64, z: t.2 as i64 })
            },
        forall|i: int|
            0 <= i < count ==> {
                let t = target_spec(pattern, i, count, center, p);
                #[trigger] r2[i] == (Vec3 { x: t.0 as i64, y: t.1 as i64, z: t.2 as i64 })
            },
    ensures
        r1 == r2,
{
    assert(r1 =~= r2);
}

} // verus!
