//! Swarm metrics: a read-only snapshot computed on demand from current agent
//! state — center of mass, spread (greatest distance from the center),
//! minimum pairwise separation, mean distance to the assigned formation
//! targets, and mean velocity magnitude. Distances are in milli-units.

use vstd::prelude::*;

use crate::geom::{
    abs_i, diff, dist2_u64, div_trunc, in_lim, isqrt64, isqrt_spec, norm2, norm2_u64, tdiv, Vec3,
};
use crate::{MAX_AGENTS, WORLD_LIMIT};

verus! {

/// The derived, read-only swarm snapshot.
#[derive(Clone, Copy, Debug, PartialEq, Eq, Structural)]
pub struct SwarmMetrics {
    pub center: Vec3,
    pub spread: i64,
    pub min_separation: i64,
    pub formation_error: i64,
    pub avg_velocity: i64,
}

/// Distance between two points, in milli (the floor square root).
pub open spec fn dist_milli(p: Vec3, q: Vec3) -> int {
    isqrt_spec(norm2(diff(p, q)))
}

/// Componentwise sums of the first `n` positions.
pub open spec fn sum_coords(s: Seq<Vec3>, n: int) -> (int, int, int)
    decreases n,
{
    if n <= 0 {
        (0, 0, 0)
    } else {
        let p = sum_coords(s, n - 1);
        (p.0 + s[n - 1].x, p.1 + s[n - 1].y, p.2 + s[n - 1].z)
    }
}

/// The center of mass; the origin for an empty swarm.
pub open spec fn center_spec(s: Seq<Vec3>) -> (int, int, int) {
    if s.len() == 0 {
        (0, 0, 0)
    } else {
        let m = sum_coords(s, s.len() as int);
        (tdiv(m.0, s.len() as int), tdiv(m.1, s.len() as int), tdiv(m.2, s.len() as int))
    }
}

/// Greatest distance from `c` among the first `n` positions.
pub open spec fn max_dist_upto(s: Seq<Vec3>, c: Vec3, n: int) -> int
    decreases n,
{
    if n <= 0 {
        0
    } else {
        let prev = max_dist_upto(s, c, n - 1);
        if dist_milli(s[n - 1], c) > prev {
            dist_milli(s[n - 1], c)
        } else {
            prev
        }
    }
}

/// Least distance from `s[i]` to any of `s[i+1 .. j]`.
pub open spec fn min_sep_row_upto(s: Seq<Vec3>, i: int, j: int) -> int
    decreases j - i,
{
    if j <= i + 1 {
        i64::MAX as int
    } else {
        let prev = min_sep_row_upto(s, i, j - 1);
        if dist_milli(s[i], s[j - 1]) < prev {
            dist_milli(s[i], s[j - 1])
        } else {
            prev
        }
    }
}

/// Least pairwise distance among the first `i` rows of the pair triangle.
pub open spec fn min_sep_upto(s: Seq<Vec3>, i: int) -> int
    decreases i,
{
    if i <= 0 {
        i64::MAX as int
    } else {
        let prev = min_sep_upto(s, i - 1);
        let row = min_sep_row_upto(s, i - 1, s.len() as int);
        if row < prev {
            row
        } else {
            prev
        }
    }
}

/// Sum of the distances from the first `n` positions to their targets.
pub open spec fn sum_target_dist(s: Seq<Vec3>, t: Seq<Vec3>, n: int) -> int
    decreases n,
{
    if n <= 0 {
        0
    } else {
        sum_target_dist(s, t, n - 1) + dist_milli(s[n - 1], t[n - 1])
    }
}

/// Sum of the magnitudes of the first `n` velocities.
pub open spec fn sum_speed(v: Seq<Vec3>, n: int) -> int
    decreases n,
{
    if n <= 0 {
        0
    } else {
        sum_speed(v, n - 1) + isqrt_spec(norm2(v[n - 1]))
    }
}

/// Compute the swarm metrics snapshot from positions, velocities and
/// assigned formation targets (one of each per agent). An empty swarm yields
/// the zero snapshot with no finite separation.
pub fn compute_metrics(positions: &Vec<Vec3>, velocities: &Vec<Vec3>, targets: &Vec<Vec3>) -> (r:
    SwarmMetrics)
    requires
        positions@.len() == velocities@.len() == targets@.len(),
        positions@.len() <= MAX_AGENTS,
        forall|i: int| 0 <= i < positions@.len() ==> in_lim(#[trigger] positions@[i], WORLD_LIMIT as int),
        forall|i: int| 0 <= i < velocities@.len() ==> in_lim(
            #[trigger] velocities@[i],
            WORLD_LIMIT as int,
        ),
        forall|i: int| 0 <= i < targets@.len() ==> in_lim(#[trigger] targets@[i], WORLD_LIMIT as int),
    ensures
        ({
            let c = center_spec(positions@);
            r.center.x == c.0 && r.center.y == c.1 && r.center.z == c.2
        }),
        in_lim(r.center, WORLD_LIMIT as int),
        r.spread == max_dist_upto(positions@, r.center, positions@.len() as int),
        r.min_separation == min_sep_upto(positions@, positions@.len() as int),
        r.formation_error == (if positions@.len() == 0 {
            0int
        } else {
            tdiv(
                sum_target_dist(positions@, targets@, positions@.len() as int),
                positions@.len() as int,
            )
        }),
        r.avg_velocity == (if positions@.len() == 0 {
            0int
        } else {
            tdiv(sum_speed(velocities@, positions@.len() as int), positions@.len() as int)
        }),
{
    let n = positions.len();
    if n == 0 {
        return SwarmMetrics {
            center: Vec3 { x: 0, y: 0, z: 0 },
            spread: 0,
            min_separation: i64::MAX,
            formation_error: 0,
            avg_velocity: 0,
        };
    }

    // Center of mass.
    let mut sx: i64 = 0;
    let mut sy: i64 = 0;
    let mut sz: i64 = 0;
    let mut i: usize = 0;
    while i < n
        invariant
            0 <= i <= n,
            n == positions@.len() <= MAX_AGENTS,
            forall|k: int| 0 <= k < n ==> in_lim(#[trigger] positions@[k], WORLD_LIMIT as int),
            (sx as int, sy as int, sz as int) == sum_coords(positions@, i as int),
            -(i * WORLD_LIMIT) <= sx <= i * WORLD_LIMIT,
            -(i * WORLD_LIMIT) <= sy <= i * WORLD_LIMIT,
            -(i * WORLD_LIMIT) <= sz <= i * WORLD_LIMIT,
        decreases n - i,
    {
        let p = positions[i];
        sx = sx + p.x;
        sy = sy + p.y;
        sz = sz + p.z;
        i = i + 1;
    }
    proof {
        assert(abs_i(sx as int) / (n as int) <= WORLD_LIMIT) by (nonlinear_arith)
            requires
                abs_i(sx as int) <= (n as int) * WORLD_LIMIT,
                1 <= n,
        ;
        assert(abs_i(sy as int) / (n as int) <= WORLD_LIMIT) by (nonlinear_arith)
            requires
                abs_i(sy as int) <= (n as int) * WORLD_LIMIT,
                1 <= n,
        ;
        assert(abs_i(sz as int) / (n as int) <= WORLD_LIMIT) by (nonlinear_arith)
            requires
                abs_i(sz as int) <= (n as int) * WORLD_LIMIT,
                1 <= n,
        ;
    }
    let center = Vec3 {
        x: div_trunc(sx, n as i64),
        y: div_trunc(sy, n as i64),
        z: div_trunc(sz, n as i64),
    };

    // Spread: the greatest distance from the center.
    let mut spread: i64 = 0;
    let mut i: usize = 0;
    while i < n
        invariant
            0 <= i <= n,
            n == positions@.len() <= MAX_AGENTS,
            forall|k: int| 0 <= k < n ==> in_lim(#[trigger] positions@[k], WORLD_LIMIT as int),
            in_lim(center, WORLD_LIMIT as int),
            spread == max_dist_upto(positions@, center, i as int),
            0 <= spread,
        decreases n - i,
    {
        let d: i64 = isqrt64(dist2_u64(positions[i], center)) as i64;
        if d > spread {
            spread = d;
        }
        i = i + 1;
    }

    // Minimum pairwise separation.
    let mut min_sep: i64 = i64::MAX;
    let mut i: usize = 0;
    while i < n
        invariant
            0 <= i <= n,
            n == positions@.len() <= MAX_AGENTS,
            forall|k: int| 0 <= k < n ==> in_lim(#[trigger] positions@[k], WORLD_LIMIT as int),
            min_sep == min_sep_upto(positions@, i as int),
        decreases n - i,
    {
        let mut j: usize = i + 1;
        let mut row: i64 = i64::MAX;
        while j < n
            invariant
                i < j <= n || j == i + 1,
                0 <= i < n,
                n == positions@.len() <= MAX_AGENTS,
                forall|k: int| 0 <= k < n ==> in_lim(#[trigger] positions@[k], WORLD_LIMIT as int),
                row == min_sep_row_upto(positions@, i as int, j as int),
            decreases n - j,
        {
            let d: i64 = isqrt64(dist2_u64(positions[i], positions[j])) as i64;
            if d < row {
                row = d;
            }
            j = j + 1;
        }
        if row < min_sep {
            min_sep = row;
        }
        i = i + 1;
    }

    // Mean distance to the assigned targets, and mean velocity magnitude.
    let mut err_sum: i64 = 0;
    let mut spd_sum: i64 = 0;
    let mut i: usize = 0;
    while i < n
        invariant
            0 <= i <= n,
            n == positions@.len() == targets@.len() == velocities@.len(),
            n <= MAX_AGENTS,
            forall|k: int| 0 <= k < n ==> in_lim(#[trigger] positions@[k], WORLD_LIMIT as int),
            forall|k: int| 0 <= k < n ==> in_lim(#[trigger] targets@[k], WORLD_LIMIT as int),
            forall|k: int| 0 <= k < n ==> in_lim(#[trigger] velocities@[k], WORLD_LIMIT as int),
            err_sum == sum_target_dist(positions@, targets@, i as int),
            spd_sum == sum_speed(velocities@, i as int),
            0 <= err_sum <= i * 0xFFFF_FFFF,
            0 <= spd_sum <= i * 0xFFFF_FFFF,
        decreases n - i,
    {
        let de: i64 = isqrt64(dist2_u64(positions[i], targets[i])) as i64;
        let sp: i64 = isqrt64(norm2_u64(velocities[i])) as i64;
        err_sum = err_sum + de;
        spd_sum = spd_sum + sp;
        i = i + 1;
    }
    let formation_error = div_trunc(err_sum, n as i64);
    let avg_velocity = div_trunc(spd_sum, n as i64);

    SwarmMetrics { center, spread, min_separation: min_sep, formation_error, avg_velocity }
}

} // verus!
