//! Grey wolf optimizer: every tick the pack is re-ranked by fitness
//! (Alpha, Beta, Delta, the rest Omega), and each Omega wolf is pulled
//! toward the three leaders with a linearly decaying exploration parameter,
//! then hard-clamped to the arena. Leaders do not move in this rule.
//!
//! The leaders and the exploration parameter are frozen before any wolf
//! moves, so the update reads only the previous tick's aggregates.

use vstd::prelude::*;

use crate::geom::{
    abs_i, clamp_coord, clamp_spec, iabs, in_lim, lemma_abs_mul_le, lemma_abs_square,
    lemma_div_le, lemma_mul_le, mul_div, sq_u64, tdiv, Vec3,
};
use crate::pso::hist_push;
use crate::rng::{rand_centered_milli, rand_milli};
use crate::trig::{cos_milli, cos_milli_spec};
use crate::MAX_AGENTS;

verus! {

/// Symmetric per-axis bound of the wolf arena (100 units).
pub const GWO_BOUNDS: i64 = 100_000;

/// Tick budget over which the exploration parameter decays from 2.0 to 0.
pub const GWO_MAX_ITER: usize = 500;

/// Bounded length of the Alpha-fitness history.
pub const FITNESS_HISTORY_CAP: usize = 200;

/// Per-tick fitness rank: exactly one Alpha, Beta and Delta, the rest Omega.
#[derive(Clone, Copy, Debug, PartialEq, Eq, Structural)]
pub enum WolfRank {
    Alpha,
    Beta,
    Delta,
    Omega,
}

/// One wolf: position, last evaluated fitness, and this tick's rank.
#[derive(Clone, Copy, Debug, PartialEq, Eq, Structural)]
pub struct WolfVisual {
    pub position: Vec3,
    pub fitness: i64,
    pub rank: WolfRank,
}

/// The GWO engine state.
#[derive(Clone, Debug)]
pub struct GWOVisualState {
    pub wolves: Vec<WolfVisual>,
    pub alpha: Option<WolfVisual>,
    pub beta: Option<WolfVisual>,
    pub delta: Option<WolfVisual>,
    pub convergence_param: i64,
    pub fitness_history: Vec<i64>,
    pub iteration: usize,
}

/// Euclidean phase of a coordinate within one 20-unit period, in milliturns.
pub open spec fn phase_spec(x: int) -> int {
    (x % 20000) / 20
}

/// The multimodal objective: a Rastrigin-like bowl with cosine ripples of
/// 20-unit period, scaled to be zero at its global minima.
pub open spec fn fitness_spec(p: Vec3) -> int {
    let xq = tdiv(p.x as int, 20);
    let yq = tdiv(p.y as int, 20);
    xq * xq + yq * yq - 10000 * cos_milli_spec(phase_spec(p.x as int)) - 10000 * cos_milli_spec(
        phase_spec(p.y as int),
    ) + 20000000
}

/// A wolf with its fitness re-evaluated at its current position.
pub open spec fn eval_wolf(w: WolfVisual) -> WolfVisual {
    WolfVisual { fitness: fitness_spec(w.position) as i64, ..w }
}

/// Non-decreasing fitness along the sequence.
pub open spec fn sorted_by_fitness(s: Seq<WolfVisual>) -> bool {
    forall|a: int, b: int| 0 <= a < b < s.len() ==> s[a].fitness <= s[b].fitness
}

/// The rank a sorted index receives.
pub open spec fn rank_of_index(i: int) -> WolfRank {
    if i == 0 {
        WolfRank::Alpha
    } else if i == 1 {
        WolfRank::Beta
    } else if i == 2 {
        WolfRank::Delta
    } else {
        WolfRank::Omega
    }
}

/// The exploration parameter in milli: decays linearly from 2000 to 0 over
/// the iteration budget and stays at 0 afterwards.
pub open spec fn gwo_a_spec(iter: int) -> int {
    if iter >= GWO_MAX_ITER {
        0
    } else {
        (GWO_MAX_ITER - iter) * 4
    }
}

/// One leader's candidate coordinate for a wolf: `X = lead - A * D`, with
/// `A = 2 a r1 - a`, `C = 2 r2`, `D = |C * lead - x|`, all in milli.
pub open spec fn gwo_candidate(lead: int, x: int, a: int, r1: int, r2: int) -> int {
    let av = tdiv(2 * a * r1, 1000) - a;
    let c = 2 * r2;
    let d = abs_i(tdiv(c * lead, 1000) - x);
    lead - tdiv(av * d, 1000)
}

/// An Omega wolf's new position: the average of the three leader candidates
/// on each axis, clamped to the arena.
pub open spec fn omega_move_spec(
    p: Vec3,
    ap: Vec3,
    bp: Vec3,
    dp: Vec3,
    a: int,
    r11: int,
    r12: int,
    r21: int,
    r22: int,
    r31: int,
    r32: int,
) -> Vec3 {
    let nx = tdiv(
        gwo_candidate(ap.x as int, p.x as int, a, r11, r12) + gwo_candidate(
            bp.x as int,
            p.x as int,
            a,
            r21,
            r22,
        ) + gwo_candidate(dp.x as int, p.x as int, a, r31, r32),
        3,
    );
    let ny = tdiv(
        gwo_candidate(ap.y as int, p.y as int, a, r11, r12) + gwo_candidate(
            bp.y as int,
            p.y as int,
            a,
            r21,
            r22,
        ) + gwo_candidate(dp.y as int, p.y as int, a, r31, r32),
        3,
    );
    let nz = tdiv(
        gwo_candidate(ap.z as int, p.z as int, a, r11, r12) + gwo_candidate(
            bp.z as int,
            p.z as int,
            a,
            r21,
            r22,
        ) + gwo_candidate(dp.z as int, p.z as int, a, r31, r32),
        3,
    );
    Vec3 {
        x: clamp_spec(nx, GWO_BOUNDS as int) as i64,
        y: clamp_spec(ny, GWO_BOUNDS as int) as i64,
        z: clamp_spec(nz, GWO_BOUNDS as int) as i64,
    }
}

/// `q` is where an Omega wolf at `p` lands against frozen leaders, for some
/// three pairs of uniform draws.
pub open spec fn wolf_stepped(q: Vec3, p: Vec3, ap: Vec3, bp: Vec3, dp: Vec3, a: int) -> bool {
    exists|r11: int, r12: int, r21: int, r22: int, r31: int, r32: int|
        0 <= r11 < 1000 && 0 <= r12 < 1000 && 0 <= r21 < 1000 && 0 <= r22 < 1000 && 0 <= r31
            < 1000 && 0 <= r32 < 1000 && q == omega_move_spec(
            p,
            ap,
            bp,
            dp,
            a,
            r11,
            r12,
            r21,
            r22,
            r31,
            r32,
        )
}

/// The leader position a sorted pack offers at index `k`, or the origin when
/// the pack is too small.
pub open spec fn lead_pos(s: Seq<WolfVisual>, k: int) -> Vec3 {
    if k < s.len() {
        s[k].position
    } else {
        Vec3 { x: 0i64, y: 0i64, z: 0i64 }
    }
}

/// The write phase of one tick, relative to the sorted pack `mid`: ranks by
/// index, leaders in place, every Omega moved by the leader-attraction rule.
pub open spec fn gwo_phase2(fin: Seq<WolfVisual>, mid: Seq<WolfVisual>, a: int) -> bool {
    &&& fin.len() == mid.len()
    &&& forall|i: int|
        0 <= i < fin.len() ==> (#[trigger] fin[i]).fitness == mid[i].fitness && fin[i].rank
            == rank_of_index(i)
    &&& forall|i: int| 0 <= i < fin.len() && i < 3 ==> (#[trigger] fin[i]).position
        == mid[i].position
    &&& forall|i: int|
        3 <= i < fin.len() ==> wolf_stepped(
            (#[trigger] fin[i]).position,
            mid[i].position,
            lead_pos(mid, 0),
            lead_pos(mid, 1),
            lead_pos(mid, 2),
            a,
        )
}

/// The whole tick: `mid` is the evaluated pack sorted by fitness (a stable
/// permutation of the old pack with fitness refreshed — ties keep their
/// prior index order), and `fin` is `mid` after ranking and the Omega moves.
pub open spec fn gwo_tick(
    oldw: Seq<WolfVisual>,
    mid: Seq<WolfVisual>,
    fin: Seq<WolfVisual>,
    a: int,
) -> bool {
    &&& mid.to_multiset() == oldw.map_values(|w: WolfVisual| eval_wolf(w)).to_multiset()
    &&& stable_perm(mid, oldw.map_values(|w: WolfVisual| eval_wolf(w)))
    &&& mid.len() == oldw.len()
    &&& sorted_by_fitness(mid)
    &&& gwo_phase2(fin, mid, a)
}

/// Wolves inside the arena, the decay parameter and history in range.
pub open spec fn wf_gwo(s: GWOVisualState) -> bool {
    &&& forall|i: int|
        0 <= i < s.wolves@.len() ==> in_lim(#[trigger] s.wolves@[i].position, GWO_BOUNDS as int)
    &&& s.wolves@.len() <= MAX_AGENTS
    &&& 0 <= s.convergence_param <= 2000
    &&& s.fitness_history@.len() <= FITNESS_HISTORY_CAP
}

/// Euclidean phase of one coordinate, in milliturns.
fn phase_milli(x: i64) -> (t: i64)
    requires
        -0x8000_0000 <= x <= 0x8000_0000,
    ensures
        t == phase_spec(x as int),
        0 <= t < 1000,
{
    let m: i64 = if x >= 0 {
        ((x as u64) % 20000) as i64
    } else {
        let a: u64 = ((-x) as u64) % 20000;
        proof {
            assert((x as int) % 20000 == (if a == 0 {
                0int
            } else {
                20000 - a
            })) by (nonlinear_arith)
                requires
                    a == (-(x as int)) % 20000,
                    x < 0,
            ;
        }
        if a == 0 {
            0
        } else {
            20000 - (a as i64)
        }
    };
    ((m as u64) / 20) as i64
}

/// Evaluate the multimodal objective at a bounded position.
pub fn eval_fitness(p: Vec3) -> (f: i64)
    requires
        in_lim(p, GWO_BOUNDS as int),
    ensures
        f == fitness_spec(p),
        0 <= f <= 100_000_000,
{
    let xq: i64 = mul_div(p.x, 1, 20);
    let yq: i64 = mul_div(p.y, 1, 20);
    let cx: i64 = cos_milli(phase_milli(p.x));
    let cy: i64 = cos_milli(phase_milli(p.y));
    proof {
        lemma_mul_le(abs_i(xq as int), abs_i(xq as int), 5000, 5000);
        lemma_mul_le(abs_i(yq as int), abs_i(yq as int), 5000, 5000);
        lemma_abs_square(xq as int);
        lemma_abs_square(yq as int);
    }
    let sx: i64 = sq_u64(xq) as i64;
    let sy: i64 = sq_u64(yq) as i64;
    sx + sy - 10000 * cx - 10000 * cy + 20000000
}

/// One leader's candidate coordinate, exact against `gwo_candidate`.
fn candidate(lead: i64, x: i64, a: i64, r1: i64, r2: i64) -> (c: i64)
    requires
        -GWO_BOUNDS <= lead <= GWO_BOUNDS,
        -GWO_BOUNDS <= x <= GWO_BOUNDS,
        0 <= a <= 2000,
        0 <= r1 < 1000,
        0 <= r2 < 1000,
    ensures
        c == gwo_candidate(lead as int, x as int, a as int, r1 as int, r2 as int),
        -2_000_000 <= c <= 2_000_000,
{
    proof {
        lemma_abs_mul_le(2 * a, r1 as int, 4000, 1000);
        lemma_div_le(abs_i(2 * a * r1), 4_000_000, 1000);
        lemma_abs_mul_le(2 * r2, lead as int, 2000, GWO_BOUNDS as int);
        lemma_div_le(abs_i(2 * r2 * lead), 200_000_000, 1000);
    }
    let av: i64 = mul_div(2 * a, r1, 1000) - a;
    let cc: i64 = 2 * r2;
    let e: i64 = mul_div(cc, lead, 1000) - x;
    let d: i64 = if e < 0 {
        -e
    } else {
        e
    };
    proof {
        lemma_abs_mul_le(av as int, d as int, 6000, 300_000);
        lemma_div_le(abs_i(av * d), 1_800_000_000, 1000);
    }
    lead - mul_div(av, d, 1000)
}

/// Move one Omega wolf: draw three pairs, average the leader candidates on
/// each axis, clamp to the arena.
fn omega_move(p: Vec3, ap: Vec3, bp: Vec3, dp: Vec3, a: i64) -> (q: Vec3)
    requires
        in_lim(p, GWO_BOUNDS as int),
        in_lim(ap, GWO_BOUNDS as int),
        in_lim(bp, GWO_BOUNDS as int),
        in_lim(dp, GWO_BOUNDS as int),
        0 <= a <= 2000,
    ensures
        wolf_stepped(q, p, ap, bp, dp, a as int),
        in_lim(q, GWO_BOUNDS as int),
{
    let r11: i64 = rand_milli();
    let r12: i64 = rand_milli();
    let r21: i64 = rand_milli();
    let r22: i64 = rand_milli();
    let r31: i64 = rand_milli();
    let r32: i64 = rand_milli();
    let x1: i64 = candidate(ap.x, p.x, a, r11, r12);
    let x2: i64 = candidate(bp.x, p.x, a, r21, r22);
    let x3: i64 = candidate(dp.x, p.x, a, r31, r32);
    let y1: i64 = candidate(ap.y, p.y, a, r11, r12);
    let y2: i64 = candidate(bp.y, p.y, a, r21, r22);
    let y3: i64 = candidate(dp.y, p.y, a, r31, r32);
    let z1: i64 = candidate(ap.z, p.z, a, r11, r12);
    let z2: i64 = candidate(bp.z, p.z, a, r21, r22);
    let z3: i64 = candidate(dp.z, p.z, a, r31, r32);
    let nx: i64 = mul_div(x1 + x2 + x3, 1, 3);
    let ny: i64 = mul_div(y1 + y2 + y3, 1, 3);
    let nz: i64 = mul_div(z1 + z2 + z3, 1, 3);
    let q = Vec3 {
        x: clamp_coord(nx, GWO_BOUNDS),
        y: clamp_coord(ny, GWO_BOUNDS),
        z: clamp_coord(nz, GWO_BOUNDS),
    };
    proof {
        assert(q == omega_move_spec(p, ap, bp, dp, a as int, r11 as int, r12 as int, r21 as int,
            r22 as int, r31 as int, r32 as int));
        assert(wolf_stepped(q, p, ap, bp, dp, a as int));
    }
    q
}

/// `perm` witnesses that `s2` rearranges `s1` through an order-keeping
/// bijection: every entry of `s2` is an entry of `s1` under an injective
/// index map, and two entries of equal fitness keep their original relative
/// order.
pub open spec fn stable_perm_with(perm: Seq<int>, s2: Seq<WolfVisual>, s1: Seq<WolfVisual>) -> bool {
    &&& perm.len() == s1.len()
    &&& s2.len() == s1.len()
    &&& (forall|k: int| 0 <= k < perm.len() ==> 0 <= #[trigger] perm[k] < s1.len())
    &&& (forall|k1: int, k2: int|
        0 <= k1 < k2 < perm.len() ==> #[trigger] perm[k1] != #[trigger] perm[k2])
    &&& (forall|k: int| 0 <= k < perm.len() ==> #[trigger] s2[k] == s1[perm[k]])
    &&& (forall|k1: int, k2: int|
        0 <= k1 < k2 < perm.len() && (#[trigger] s2[k1]).fitness == (#[trigger] s2[k2]).fitness
            ==> perm[k1] < perm[k2])
}

/// `s2` is a stable rearrangement of `s1`: some order-keeping bijection
/// carries `s1` to `s2` — ties by fitness keep their original index order.
pub open spec fn stable_perm(s2: Seq<WolfVisual>, s1: Seq<WolfVisual>) -> bool {
    exists|perm: Seq<int>| #[trigger] stable_perm_with(perm, s2, s1)
}

/// Swapping two entries of a sequence keeps its multiset of entries.
proof fn lemma_swap_multiset(s: Seq<WolfVisual>, i: int, j: int)
    requires
        0 <= i < j < s.len(),
    ensures
        s.update(i, s[j]).update(j, s[i]).to_multiset() == s.to_multiset(),
{
    broadcast use vstd::seq_lib::to_multiset_update;
    broadcast use vstd::seq_lib::group_to_multiset_ensures;
    broadcast use vstd::multiset::group_multiset_axioms;

    let ms = s.to_multiset();
    let s1 = s.update(i, s[j]);
    assert(s1[j] == s[j]);
    assert(s1.to_multiset() == ms.insert(s[j]).remove(s[i]));
    assert(s.contains(s[i]));
    assert(ms.count(s[i]) > 0);
    assert(s1.update(j, s[i]).to_multiset() =~= ms);
}

/// Sort the pack by ascending fitness (insertion sort with adjacent swaps);
/// the result is a permutation of the input.
fn sort_by_fitness_vec(wolves: &mut Vec<WolfVisual>)
    ensures
        final(wolves)@.len() == old(wolves)@.len(),
        sorted_by_fitness(final(wolves)@),
        final(wolves)@.to_multiset() == old(wolves)@.to_multiset(),
        stable_perm(final(wolves)@, old(wolves)@),
{
    broadcast use vstd::seq_lib::to_multiset_update;
    broadcast use vstd::seq_lib::group_to_multiset_ensures;

    let n = wolves.len();
    let ghost orig = wolves@;
    let ghost mut perm: Seq<int> = Seq::new(n as nat, |k: int| k);
    if n <= 1 {
        proof {
            assert(stable_perm_with(perm, wolves@, orig));
        }
        return ;
    }
    let mut i: usize = 1;
    while i < n
        invariant
            1 <= i <= n,
            n == wolves@.len() == orig.len(),
            forall|a: int, b: int| 0 <= a < b < i ==> wolves@[a].fitness <= wolves@[b].fitness,
            wolves@.to_multiset() == orig.to_multiset(),
            perm.len() == n,
            forall|k: int| 0 <= k < n ==> 0 <= #[trigger] perm[k] < n,
            forall|k1: int, k2: int|
                0 <= k1 < k2 < n ==> #[trigger] perm[k1] != #[trigger] perm[k2],
            forall|k: int| 0 <= k < n ==> #[trigger] wolves@[k] == orig[perm[k]],
            forall|k1: int, k2: int|
                0 <= k1 < k2 < n && (#[trigger] wolves@[k1]).fitness == (#[trigger] wolves@[k2]).fitness
                    ==> perm[k1] < perm[k2],
        decreases n - i,
    {
        let mut j: usize = i;
        while j > 0 && wolves[j - 1].fitness > wolves[j].fitness
            invariant
                0 <= j <= i < n,
                n == wolves@.len() == orig.len(),
                forall|a: int, b: int| 0 <= a < b < j ==> wolves@[a].fitness <= wolves@[b].fitness,
                forall|a: int, b: int|
                    j <= a < b <= i ==> wolves@[a].fitness <= wolves@[b].fitness,
                forall|a: int, b: int|
                    0 <= a < j && j < b <= i ==> wolves@[a].fitness <= wolves@[b].fitness,
                wolves@.to_multiset() == orig.to_multiset(),
                perm.len() == n,
                forall|k: int| 0 <= k < n ==> 0 <= #[trigger] perm[k] < n,
                forall|k1: int, k2: int|
                    0 <= k1 < k2 < n ==> #[trigger] perm[k1] != #[trigger] perm[k2],
                forall|k: int| 0 <= k < n ==> #[trigger] wolves@[k] == orig[perm[k]],
                forall|k1: int, k2: int|
                    0 <= k1 < k2 < n && (#[trigger] wolves@[k1]).fitness == (#[trigger] wolves@[k2]).fitness
                        ==> perm[k1] < perm[k2],
            decreases j,
        {
            let wa = wolves[j - 1];
            let wb = wolves[j];
            let ghost pre = wolves@;
            let ghost pperm = perm;
            wolves.set(j - 1, wb);
            wolves.set(j, wa);
            proof {
                lemma_swap_multiset(pre, j - 1, j as int);
                assert(wolves@ == pre.update(j - 1, pre[j as int]).update(j as int, pre[j - 1]));
                perm = perm.update(j - 1, perm[j as int]).update(j as int, perm[j - 1]);
                assert forall|k1: int, k2: int|
                    0 <= k1 < k2 < n && (#[trigger] wolves@[k1]).fitness == (#[trigger] wolves@[k2]).fitness
                        implies perm[k1] < perm[k2] by {
                    if k1 == j - 1 && k2 == j {
                        assert(wolves@[k1].fitness < wolves@[k2].fitness);
                    } else if k2 == j - 1 {
                        assert(wolves@[k1] == pre[k1] && wolves@[k2] == pre[j as int]);
                        assert(pperm[k1] < pperm[j as int]);
                    } else if k1 == j - 1 && k2 > j {
                        assert(wolves@[k1] == pre[j as int] && wolves@[k2] == pre[k2]);
                        assert(pperm[j as int] < pperm[k2]);
                    } else if k1 == j && k2 > j {
                        assert(wolves@[k1] == pre[j - 1] && wolves@[k2] == pre[k2]);
                        assert(pperm[j - 1] < pperm[k2]);
                    } else if k2 == j && k1 < j - 1 {
                        assert(wolves@[k1] == pre[k1] && wolves@[k2] == pre[j - 1]);
                        assert(pperm[k1] < pperm[j - 1]);
                    }
                }
            }
            j = j - 1;
        }
        i = i + 1;
    }
    proof {
        assert(stable_perm_with(perm, wolves@, orig));
    }
}

impl GWOVisualState {
    /// A fresh pack scattered uniformly over the arena, all Omega, fitness
    /// not yet evaluated.
    pub fn new(wolf_count: usize) -> (r: Self)
        requires
            wolf_count <= MAX_AGENTS,
        ensures
            wf_gwo(r),
            r.wolves@.len() == wolf_count,
            r.iteration == 0,
            r.convergence_param == 2000,
            r.alpha is None,
            r.beta is None,
            r.delta is None,
            r.fitness_history@.len() == 0,
            forall|i: int|
                0 <= i < wolf_count ==> (#[trigger] r.wolves@[i]).rank == WolfRank::Omega
                    && r.wolves@[i].fitness == i64::MAX && r.wolves@[i].position.z == 0,
    {
        let mut wolves: Vec<WolfVisual> = Vec::new();
        let mut i: usize = 0;
        while i < wolf_count
            invariant
                0 <= i <= wolf_count,
                wolves@.len() == i,
                forall|j: int|
                    0 <= j < i ==> in_lim(#[trigger] wolves@[j].position, GWO_BOUNDS as int),
                forall|j: int|
                    0 <= j < i ==> (#[trigger] wolves@[j]).rank == WolfRank::Omega && wolves@[j].fitness
                        == i64::MAX && wolves@[j].position.z == 0,
            decreases wolf_count - i,
        {
            wolves.push(
                WolfVisual {
                    position: Vec3 {
                        x: rand_centered_milli() * 200,
                        y: rand_centered_milli() * 200,
                        z: 0,
                    },
                    fitness: i64::MAX,
                    rank: WolfRank::Omega,
                },
            );
            i = i + 1;
        }
        GWOVisualState {
            wolves,
            alpha: None,
            beta: None,
            delta: None,
            convergence_param: 2000,
            fitness_history: Vec::new(),
            iteration: 0,
        }
    }

    /// One tick: decay the exploration parameter, evaluate every wolf's
    /// fitness, sort and rank the pack, snapshot the leaders, record the
    /// Alpha fitness, then move every Omega against the frozen leaders.
    ///
    /// Afterwards the pack is sorted by fitness with ranks assigned in
    /// order, so `fitness(Alpha) <= fitness(Beta) <= fitness(Delta) <=
    /// fitness(omega)` for every Omega wolf.
    pub fn step(&mut self)
        requires
            wf_gwo(*old(self)),
            old(self).iteration < usize::MAX,
        ensures
            wf_gwo(*final(self)),
            final(self).iteration == old(self).iteration + 1,
            final(self).convergence_param == gwo_a_spec(final(self).iteration as int),
            final(self).wolves@.len() == old(self).wolves@.len(),
            exists|mid: Seq<WolfVisual>|
                gwo_tick(
                    old(self).wolves@,
                    mid,
                    final(self).wolves@,
                    final(self).convergence_param as int,
                ),
            sorted_by_fitness(final(self).wolves@),
            forall|i: int|
                0 <= i < final(self).wolves@.len() ==> (#[trigger] final(self).wolves@[i]).rank
                    == rank_of_index(i),
            final(self).alpha == (if final(self).wolves@.len() > 0 {
                Some(final(self).wolves@[0])
            } else {
                None::<WolfVisual>
            }),
            final(self).beta == (if final(self).wolves@.len() > 1 {
                Some(final(self).wolves@[1])
            } else {
                None::<WolfVisual>
            }),
            final(self).delta == (if final(self).wolves@.len() > 2 {
                Some(final(self).wolves@[2])
            } else {
                None::<WolfVisual>
            }),
            final(self).fitness_history@ == (if final(self).wolves@.len() > 0 {
                hist_push(old(self).fitness_history@, final(self).wolves@[0].fitness)
            } else {
                old(self).fitness_history@
            }),
    {
        let ghost old_w = self.wolves@;
        self.iteration = self.iteration + 1;
        self.convergence_param = if self.iteration >= GWO_MAX_ITER {
            0
        } else {
            ((GWO_MAX_ITER - self.iteration) as i64) * 4
        };
        let n = self.wolves.len();

        // Evaluate fitness at every wolf's current position.
        let mut i: usize = 0;
        while i < n
            invariant
                0 <= i <= n,
                n == self.wolves@.len() == old_w.len(),
                forall|j: int| 0 <= j < n ==> in_lim(#[trigger] old_w[j].position, GWO_BOUNDS as int),
                forall|j: int| 0 <= j < i ==> #[trigger] self.wolves@[j] == eval_wolf(old_w[j]),
                forall|j: int| i <= j < n ==> #[trigger] self.wolves@[j] == old_w[j],
                self.convergence_param == gwo_a_spec(self.iteration as int),
                0 <= self.convergence_param <= 2000,
                self.iteration == old(self).iteration + 1,
                self.fitness_history@ == old(self).fitness_history@,
                self.fitness_history@.len() <= FITNESS_HISTORY_CAP,
            decreases n - i,
        {
            let mut w = self.wolves[i];
            w.fitness = eval_fitness(w.position);
            self.wolves.set(i, w);
            i = i + 1;
        }
        proof {
            assert(self.wolves@ =~= old_w.map_values(|w: WolfVisual| eval_wolf(w)));
        }

        // Sort ascending by fitness.
        sort_by_fitness_vec(&mut self.wolves);
        let ghost mid = self.wolves@;
        proof {
            assert forall|j: int| 0 <= j < n implies in_lim(
                #[trigger] self.wolves@[j].position,
                GWO_BOUNDS as int,
            ) by {
                broadcast use vstd::seq_lib::group_to_multiset_ensures;

                assert(mid.to_multiset().count(mid[j]) > 0);
                let ev = old_w.map_values(|w: WolfVisual| eval_wolf(w));
                assert(ev.contains(mid[j]));
                let k = choose|k: int| 0 <= k < ev.len() && ev[k] == mid[j];
                assert(mid[j].position == old_w[k].position);
            }
        }

        // Assign ranks in sorted order.
        let mut i: usize = 0;
        while i < n
            invariant
                0 <= i <= n,
                n == self.wolves@.len() == mid.len(),
                forall|j: int| 0 <= j < n ==> in_lim(#[trigger] mid[j].position, GWO_BOUNDS as int),
                sorted_by_fitness(mid),
                forall|j: int|
                    0 <= j < i ==> #[trigger] self.wolves@[j] == (WolfVisual {
                        rank: rank_of_index(j),
                        ..mid[j]
                    }),
                forall|j: int| i <= j < n ==> #[trigger] self.wolves@[j] == mid[j],
                self.convergence_param == gwo_a_spec(self.iteration as int),
                0 <= self.convergence_param <= 2000,
                self.iteration == old(self).iteration + 1,
                self.fitness_history@ == old(self).fitness_history@,
                self.fitness_history@.len() <= FITNESS_HISTORY_CAP,
            decreases n - i,
        {
            let mut w = self.wolves[i];
            w.rank = if i == 0 {
                WolfRank::Alpha
            } else if i == 1 {
                WolfRank::Beta
            } else if i == 2 {
                WolfRank::Delta
            } else {
                WolfRank::Omega
            };
            self.wolves.set(i, w);
            i = i + 1;
        }
        let ghost ranked = self.wolves@;

        // Snapshot the leaders and record the Alpha fitness.
        self.alpha = if n > 0 {
            Some(self.wolves[0])
        } else {
            None
        };
        self.beta = if n > 1 {
            Some(self.wolves[1])
        } else {
            None
        };
        self.delta = if n > 2 {
            Some(self.wolves[2])
        } else {
            None
        };
        if n > 0 {
            let af = self.wolves[0].fitness;
            self.fitness_history.push(af);
            if self.fitness_history.len() > FITNESS_HISTORY_CAP {
                self.fitness_history.remove(0);
                proof {
                    assert(self.fitness_history@ =~= hist_push(old(self).fitness_history@, af));
                }
            }
        }

        // Move every Omega wolf against the frozen leaders.
        let ap = if n > 0 {
            self.wolves[0].position
        } else {
            Vec3 { x: 0, y: 0, z: 0 }
        };
        let bp = if n > 1 {
            self.wolves[1].position
        } else {
            Vec3 { x: 0, y: 0, z: 0 }
        };
        let dp = if n > 2 {
            self.wolves[2].position
        } else {
            Vec3 { x: 0, y: 0, z: 0 }
        };
        let a = self.convergence_param;
        let mut i: usize = 3;
        while i < n
            invariant
                3 <= i <= n || (n < 3 && i == 3),
                n == self.wolves@.len() == ranked.len() == mid.len(),
                forall|j: int| 0 <= j < n ==> in_lim(#[trigger] mid[j].position, GWO_BOUNDS as int),
                forall|j: int| 0 <= j < n && j < i ==> in_lim(
                    #[trigger] self.wolves@[j].position,
                    GWO_BOUNDS as int,
                ),
                forall|j: int| j < n && 3 <= j < i ==> (#[trigger] self.wolves@[j]).fitness
                    == ranked[j].fitness && self.wolves@[j].rank == ranked[j].rank && wolf_stepped(
                    self.wolves@[j].position,
                    ranked[j].position,
                    ap,
                    bp,
                    dp,
                    a as int,
                ),
                forall|j: int| 0 <= j < n && (j < 3 || i <= j) ==> #[trigger] self.wolves@[j]
                    == ranked[j],
                ap == lead_pos(mid, 0) && in_lim(ap, GWO_BOUNDS as int),
                bp == lead_pos(mid, 1) && in_lim(bp, GWO_BOUNDS as int),
                dp == lead_pos(mid, 2) && in_lim(dp, GWO_BOUNDS as int),
                forall|j: int| 0 <= j < n ==> (#[trigger] ranked[j]).position == mid[j].position
                    && ranked[j].fitness == mid[j].fitness && ranked[j].rank == rank_of_index(j),
                a == self.convergence_param == gwo_a_spec(self.iteration as int),
                0 <= a <= 2000,
                self.iteration == old(self).iteration + 1,
                self.alpha == (if n > 0 {
                    Some(ranked[0])
                } else {
                    None::<WolfVisual>
                }),
                self.beta == (if n > 1 {
                    Some(ranked[1])
                } else {
                    None::<WolfVisual>
                }),
                self.delta == (if n > 2 {
                    Some(ranked[2])
                } else {
                    None::<WolfVisual>
                }),
                self.fitness_history@ == (if n > 0 {
                    hist_push(old(self).fitness_history@, ranked[0].fitness)
                } else {
                    old(self).fitness_history@
                }),
                self.fitness_history@.len() <= FITNESS_HISTORY_CAP,
            decreases n - i,
        {
            let mut w = self.wolves[i];
            w.position = omega_move(w.position, ap, bp, dp, a);
            self.wolves.set(i, w);
            i = i + 1;
        }
        proof {
            assert(gwo_tick(old_w, mid, self.wolves@, self.convergence_param as int));
        }
    }
}

/// Law: after ranking, the Alpha's fitness is at most the Beta's, the
/// Beta's at most the Delta's, and the Delta's at most any Omega's.
pub proof fn lemma_rank_order(s: Seq<WolfVisual>)
    requires
        sorted_by_fitness(s),
        forall|i: int| 0 <= i < s.len() ==> (#[trigger] s[i]).rank == rank_of_index(i),
    ensures
        forall|i: int, j: int|
            0 <= i < s.len() && 0 <= j < s.len() && s[i].rank == WolfRank::Alpha && (#[trigger] s[j]).rank
                == WolfRank::Beta ==> (#[trigger] s[i]).fitness <= s[j].fitness,
        forall|i: int, j: int|
            0 <= i < s.len() && 0 <= j < s.len() && s[i].rank == WolfRank::Beta && (#[trigger] s[j]).rank
                == WolfRank::Delta ==> (#[trigger] s[i]).fitness <= s[j].fitness,
        forall|i: int, j: int|
            0 <= i < s.len() && 0 <= j < s.len() && s[i].rank == WolfRank::Delta && (#[trigger] s[j]).rank
                == WolfRank::Omega ==> (#[trigger] s[i]).fitness <= s[j].fitness,
        forall|i: int, j: int|
            0 <= i < s.len() && 0 <= j < s.len() && s[i].rank == WolfRank::Alpha && (#[trigger] s[j]).rank
                == WolfRank::Omega ==> (#[trigger] s[i]).fitness <= s[j].fitness,
{
}

} // verus!
