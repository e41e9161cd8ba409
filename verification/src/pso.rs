//! Particle swarm optimization: each particle is pulled toward its personal
//! best and the swarm's global best, with an inertia-weighted velocity that
//! is clamped in magnitude, an inelastic bounce at the arena walls, and a
//! bounded history of the global-best cost.
//!
//! All tick-scoped aggregates (the global best) are computed in a read pass
//! over the previous tick's state before any particle moves.

use vstd::prelude::*;

use crate::geom::{
    abs_i, clamp_norm, clamp_norm_spec, in_lim, lemma_abs_mul_le, lemma_div_le, lemma_norm2_bound,
    lemma_norm_shrink, mul_div, norm2, norm2_u64, tdiv, Vec3,
};
use crate::rng::{rand_centered_milli, rand_milli};
use crate::MAX_AGENTS;

verus! {

/// Symmetric per-axis bound of the particle arena (100 units).
pub const PSO_BOUNDS: i64 = 100_000;

/// Velocity magnitude cap per tick (5 units).
pub const PSO_MAX_VEL: i64 = 5_000;

/// Bounded length of the global-best cost history.
pub const COST_HISTORY_CAP: usize = 200;

/// One particle: where it is, how it moves, and the best it has seen.
#[derive(Clone, Copy, Debug, PartialEq, Eq, Structural)]
pub struct ParticleVisual {
    pub position: Vec3,
    pub velocity: Vec3,
    pub pbest_position: Vec3,
    pub pbest_cost: i64,
}

/// The PSO engine state: particles, the swarm-wide best, its history, and
/// the three tunable coefficients (in milli).
#[derive(Clone, Debug)]
pub struct PSOVisualState {
    pub particles: Vec<ParticleVisual>,
    pub gbest_position: Vec3,
    pub gbest_cost: i64,
    pub cost_history: Vec<i64>,
    pub iteration: u32,
    pub cognitive: i64,
    pub social: i64,
    pub inertia: i64,
}

/// The sphere objective: squared distance to the origin, in milli^2.
pub open spec fn cost_spec(p: Vec3) -> int {
    norm2(p)
}

/// A particle whose fields are inside the arena and velocity caps.
pub open spec fn wf_particle(p: ParticleVisual) -> bool {
    &&& in_lim(p.position, PSO_BOUNDS as int)
    &&& in_lim(p.velocity, PSO_MAX_VEL as int)
    &&& in_lim(p.pbest_position, PSO_BOUNDS as int)
    &&& 0 <= p.pbest_cost
}

/// Engine-level well-formedness: every particle in range, coefficients in
/// their slider ranges, history within its cap.
pub open spec fn wf_pso(s: PSOVisualState) -> bool {
    &&& forall|i: int| 0 <= i < s.particles@.len() ==> wf_particle(#[trigger] s.particles@[i])
    &&& s.particles@.len() <= MAX_AGENTS
    &&& in_lim(s.gbest_position, PSO_BOUNDS as int)
    &&& 0 <= s.gbest_cost
    &&& 0 <= s.cognitive <= 4000
    &&& 0 <= s.social <= 4000
    &&& 0 <= s.inertia <= 1000
    &&& s.cost_history@.len() <= COST_HISTORY_CAP
}

/// Personal-best refresh: adopt the current position exactly when its cost
/// is strictly lower than the stored best.
pub open spec fn pbest_step(p: ParticleVisual) -> ParticleVisual {
    if cost_spec(p.position) < p.pbest_cost {
        ParticleVisual {
            pbest_position: p.position,
            pbest_cost: cost_spec(p.position) as i64,
            ..p
        }
    } else {
        p
    }
}

/// Global-best fold over the first `n` particles, seeded with the previous
/// tick's best: strict improvement, first winner kept on ties.
pub open spec fn gbest_fold(s: Seq<ParticleVisual>, c0: int, p0: Vec3, n: int) -> (int, Vec3)
    decreases n,
{
    if n <= 0 {
        (c0, p0)
    } else {
        let prev = gbest_fold(s, c0, p0, n - 1);
        if cost_spec(s[n - 1].position) < prev.0 {
            (cost_spec(s[n - 1].position), s[n - 1].position)
        } else {
            prev
        }
    }
}

/// Wall handling on one axis: past the bound the coordinate is pinned to the
/// wall and the velocity component is halved and reversed.
pub open spec fn bounce_spec(x: int, v: int) -> (int, int) {
    if x > PSO_BOUNDS {
        (PSO_BOUNDS as int, tdiv(-v, 2))
    } else if x < -(PSO_BOUNDS as int) {
        (-(PSO_BOUNDS as int), tdiv(-v, 2))
    } else {
        (x, v)
    }
}

/// The full per-particle move for one tick, given the frozen global best and
/// the two uniform draws `r1`, `r2` in milli.
pub open spec fn particle_step_spec(
    p: ParticleVisual,
    gbest: Vec3,
    w: int,
    c1: int,
    c2: int,
    r1: int,
    r2: int,
) -> ParticleVisual {
    let vpre = Vec3 {
        x: (tdiv(p.velocity.x * w, 1000) + tdiv(
            tdiv((p.pbest_position.x - p.position.x) * c1, 1000) * r1,
            1000,
        ) + tdiv(tdiv((gbest.x - p.position.x) * c2, 1000) * r2, 1000)) as i64,
        y: (tdiv(p.velocity.y * w, 1000) + tdiv(
            tdiv((p.pbest_position.y - p.position.y) * c1, 1000) * r1,
            1000,
        ) + tdiv(tdiv((gbest.y - p.position.y) * c2, 1000) * r2, 1000)) as i64,
        z: (tdiv(p.velocity.z * w, 1000) + tdiv(
            tdiv((p.pbest_position.z - p.position.z) * c1, 1000) * r1,
            1000,
        ) + tdiv(tdiv((gbest.z - p.position.z) * c2, 1000) * r2, 1000)) as i64,
    };
    let vc = clamp_norm_spec(vpre, PSO_MAX_VEL as int);
    let bx = bounce_spec(p.position.x + vc.x, vc.x as int);
    let by = bounce_spec(p.position.y + vc.y, vc.y as int);
    let bz = bounce_spec(p.position.z + vc.z, vc.z as int);
    ParticleVisual {
        position: Vec3 { x: bx.0 as i64, y: by.0 as i64, z: bz.0 as i64 },
        velocity: Vec3 { x: bx.1 as i64, y: by.1 as i64, z: bz.1 as i64 },
        pbest_position: p.pbest_position,
        pbest_cost: p.pbest_cost,
    }
}

/// `q` is what `p` becomes in one tick against the frozen global best, for
/// some pair of uniform draws.
pub open spec fn stepped_from(
    q: ParticleVisual,
    p: ParticleVisual,
    gbest: Vec3,
    w: int,
    c1: int,
    c2: int,
) -> bool {
    exists|r1: int, r2: int|
        0 <= r1 < 1000 && 0 <= r2 < 1000 && q == particle_step_spec(p, gbest, w, c1, c2, r1, r2)
}

/// How the bounded cost history grows: append, then drop the oldest entry
/// once the cap is exceeded.
pub open spec fn hist_push(h: Seq<i64>, c: i64) -> Seq<i64> {
    let h2 = h.push(c);
    if h2.len() > COST_HISTORY_CAP {
        h2.subrange(1, h2.len() as int)
    } else {
        h2
    }
}

/// Evaluate the sphere objective at a bounded position.
pub fn eval_cost(p: Vec3) -> (c: i64)
    requires
        in_lim(p, PSO_BOUNDS as int),
    ensures
        c == cost_spec(p),
        0 <= c <= 30_000_000_000,
{
    proof {
        lemma_norm2_bound(p.x as int, p.y as int, p.z as int, PSO_BOUNDS as int);
    }
    norm2_u64(p) as i64
}

/// One velocity axis: inertia plus the cognitive and social attraction
/// terms, each scaled by its milli coefficient and draw.
fn vel_axis(v: i64, dp: i64, dg: i64, w: i64, c1: i64, c2: i64, r1: i64, r2: i64) -> (r: i64)
    requires
        -PSO_MAX_VEL <= v <= PSO_MAX_VEL,
        -200_000 <= dp <= 200_000,
        -200_000 <= dg <= 200_000,
        0 <= w <= 1000,
        0 <= c1 <= 4000,
        0 <= c2 <= 4000,
        0 <= r1 < 1000,
        0 <= r2 < 1000,
    ensures
        r == tdiv(v * w, 1000) + tdiv(tdiv(dp * c1, 1000) * r1, 1000) + tdiv(
            tdiv(dg * c2, 1000) * r2,
            1000,
        ),
        -1_610_000 <= r <= 1_610_000,
{
    proof {
        lemma_abs_mul_le(v as int, w as int, PSO_MAX_VEL as int, 1000);
        lemma_div_le(abs_i(v * w), 5_000_000, 1000);
        lemma_abs_mul_le(dp as int, c1 as int, 200_000, 4000);
        lemma_div_le(abs_i(dp * c1), 800_000_000, 1000);
        lemma_abs_mul_le(dg as int, c2 as int, 200_000, 4000);
        lemma_div_le(abs_i(dg * c2), 800_000_000, 1000);
    }
    let t0: i64 = mul_div(v, w, 1000);
    let t1a: i64 = mul_div(dp, c1, 1000);
    let t2a: i64 = mul_div(dg, c2, 1000);
    proof {
        lemma_abs_mul_le(t1a as int, r1 as int, 800_000, 1000);
        lemma_div_le(abs_i(t1a * r1), 800_000_000, 1000);
        lemma_abs_mul_le(t2a as int, r2 as int, 800_000, 1000);
        lemma_div_le(abs_i(t2a * r2), 800_000_000, 1000);
    }
    let t1: i64 = mul_div(t1a, r1, 1000);
    let t2: i64 = mul_div(t2a, r2, 1000);
    t0 + t1 + t2
}

/// Wall handling on one axis, exact against `bounce_spec`.
fn bounce_axis(x: i64, v: i64) -> (r: (i64, i64))
    requires
        -0x8000_0000 <= x <= 0x8000_0000,
        -0x8000_0000 <= v <= 0x8000_0000,
    ensures
        r.0 == bounce_spec(x as int, v as int).0,
        r.1 == bounce_spec(x as int, v as int).1,
        -PSO_BOUNDS <= r.0 <= PSO_BOUNDS || r.0 == x,
        abs_i(r.1 as int) <= abs_i(v as int),
{
    if x > PSO_BOUNDS {
        (PSO_BOUNDS, mul_div(v, -1, 2))
    } else if x < -PSO_BOUNDS {
        (-PSO_BOUNDS, mul_div(v, -1, 2))
    } else {
        (x, v)
    }
}

/// Move one particle for one tick: draw `r1`, `r2`, update the velocity,
/// clamp its magnitude, advance the position, and bounce at the walls.
fn particle_step(p: ParticleVisual, gbest: Vec3, w: i64, c1: i64, c2: i64) -> (q: ParticleVisual)
    requires
        wf_particle(p),
        in_lim(gbest, PSO_BOUNDS as int),
        0 <= w <= 1000,
        0 <= c1 <= 4000,
        0 <= c2 <= 4000,
    ensures
        stepped_from(q, p, gbest, w as int, c1 as int, c2 as int),
        wf_particle(q),
        norm2(q.velocity) <= PSO_MAX_VEL * PSO_MAX_VEL,
        q.pbest_position == p.pbest_position,
        q.pbest_cost == p.pbest_cost,
{
    let r1: i64 = rand_milli();
    let r2: i64 = rand_milli();
    let vx: i64 = vel_axis(
        p.velocity.x,
        p.pbest_position.x - p.position.x,
        gbest.x - p.position.x,
        w,
        c1,
        c2,
        r1,
        r2,
    );
    let vy: i64 = vel_axis(
        p.velocity.y,
        p.pbest_position.y - p.position.y,
        gbest.y - p.position.y,
        w,
        c1,
        c2,
        r1,
        r2,
    );
    let vz: i64 = vel_axis(
        p.velocity.z,
        p.pbest_position.z - p.position.z,
        gbest.z - p.position.z,
        w,
        c1,
        c2,
        r1,
        r2,
    );
    let vpre = Vec3 { x: vx, y: vy, z: vz };
    let vc = clamp_norm(vpre, PSO_MAX_VEL);
    let bx = bounce_axis(p.position.x + vc.x, vc.x);
    let by = bounce_axis(p.position.y + vc.y, vc.y);
    let bz = bounce_axis(p.position.z + vc.z, vc.z);
    let q = ParticleVisual {
        position: Vec3 { x: bx.0, y: by.0, z: bz.0 },
        velocity: Vec3 { x: bx.1, y: by.1, z: bz.1 },
        pbest_position: p.pbest_position,
        pbest_cost: p.pbest_cost,
    };
    proof {
        lemma_norm_shrink(vc, q.velocity);
        assert(q == particle_step_spec(p, gbest, w as int, c1 as int, c2 as int, r1 as int,
            r2 as int));
        assert(stepped_from(q, p, gbest, w as int, c1 as int, c2 as int));
    }
    q
}

impl PSOVisualState {
    /// A fresh swarm: particles scattered uniformly over the arena with
    /// small random velocities, no best seen yet, default coefficients.
    pub fn new(particle_count: usize) -> (r: Self)
        requires
            particle_count <= MAX_AGENTS,
        ensures
            wf_pso(r),
            r.particles@.len() == particle_count,
            r.iteration == 0,
            r.gbest_cost == i64::MAX,
            r.gbest_position == (Vec3 { x: 0i64, y: 0i64, z: 0i64 }),
            r.cost_history@.len() == 0,
            r.cognitive == 2000,
            r.social == 2000,
            r.inertia == 700,
            forall|i: int|
                0 <= i < particle_count ==> {
                    &&& (#[trigger] r.particles@[i]).pbest_cost == i64::MAX
                    &&& r.particles@[i].pbest_position == r.particles@[i].position
                    &&& r.particles@[i].position.z == 0
                    &&& r.particles@[i].velocity.z == 0
                },
    {
        let mut particles: Vec<ParticleVisual> = Vec::new();
        let mut i: usize = 0;
        while i < particle_count
            invariant
                0 <= i <= particle_count,
                particles@.len() == i,
                forall|j: int| 0 <= j < i ==> wf_particle(#[trigger] particles@[j]),
                forall|j: int|
                    0 <= j < i ==> {
                        &&& (#[trigger] particles@[j]).pbest_cost == i64::MAX
                        &&& particles@[j].pbest_position == particles@[j].position
                        &&& particles@[j].position.z == 0
                        &&& particles@[j].velocity.z == 0
                    },
            decreases particle_count - i,
        {
            let pos = Vec3 {
                x: rand_centered_milli() * 200,
                y: rand_centered_milli() * 200,
                z: 0,
            };
            let vel = Vec3 { x: rand_centered_milli() * 10, y: rand_centered_milli() * 10, z: 0 };
            particles.push(
                ParticleVisual {
                    position: pos,
                    velocity: vel,
                    pbest_position: pos,
                    pbest_cost: i64::MAX,
                },
            );
            i = i + 1;
        }
        PSOVisualState {
            particles,
            gbest_position: Vec3 { x: 0, y: 0, z: 0 },
            gbest_cost: i64::MAX,
            cost_history: Vec::new(),
            iteration: 0,
            cognitive: 2000,
            social: 2000,
            inertia: 700,
        }
    }

    /// One tick. Personal and global bests are refreshed from the previous
    /// tick's positions first; every particle then moves against that frozen
    /// global best; the new global-best cost is appended to the history.
    ///
    /// The global-best cost never increases, and every particle's post-update
    /// velocity magnitude is within the cap.
    pub fn step(&mut self)
        requires
            wf_pso(*old(self)),
            old(self).iteration < u32::MAX,
        ensures
            wf_pso(*final(self)),
            final(self).iteration == old(self).iteration + 1,
            final(self).cognitive == old(self).cognitive,
            final(self).social == old(self).social,
            final(self).inertia == old(self).inertia,
            final(self).particles@.len() == old(self).particles@.len(),
            ({
                let g = gbest_fold(
                    old(self).particles@,
                    old(self).gbest_cost as int,
                    old(self).gbest_position,
                    old(self).particles@.len() as int,
                );
                final(self).gbest_cost == g.0 && final(self).gbest_position == g.1
            }),
            final(self).gbest_cost <= old(self).gbest_cost,
            forall|i: int|
                0 <= i < old(self).particles@.len() ==> stepped_from(
                    #[trigger] final(self).particles@[i],
                    pbest_step(old(self).particles@[i]),
                    final(self).gbest_position,
                    old(self).inertia as int,
                    old(self).cognitive as int,
                    old(self).social as int,
                ),
            forall|i: int|
                0 <= i < final(self).particles@.len() ==> norm2(
                    #[trigger] final(self).particles@[i].velocity,
                ) <= PSO_MAX_VEL * PSO_MAX_VEL,
            final(self).cost_history@ == hist_push(
                old(self).cost_history@,
                final(self).gbest_cost,
            ),
    {
        let ghost old_parts = self.particles@;
        let ghost g0_cost = self.gbest_cost as int;
        let ghost g0_pos = self.gbest_position;
        self.iteration = self.iteration + 1;
        let n = self.particles.len();

        // Read pass: refresh personal bests and fold the global best from
        // the previous tick's positions.
        let mut i: usize = 0;
        while i < n
            invariant
                0 <= i <= n,
                n == self.particles@.len(),
                n == old_parts.len() <= MAX_AGENTS,
                forall|j: int| 0 <= j < n ==> wf_particle(#[trigger] old_parts[j]),
                forall|j: int| 0 <= j < i ==> #[trigger] self.particles@[j] == pbest_step(
                    old_parts[j],
                ),
                forall|j: int| i <= j < n ==> #[trigger] self.particles@[j] == old_parts[j],
                (self.gbest_cost as int, self.gbest_position) == gbest_fold(
                    old_parts,
                    g0_cost,
                    g0_pos,
                    i as int,
                ),
                self.gbest_cost <= g0_cost,
                0 <= g0_cost,
                in_lim(g0_pos, PSO_BOUNDS as int),
                0 <= self.gbest_cost,
                in_lim(self.gbest_position, PSO_BOUNDS as int),
                self.cognitive == old(self).cognitive,
                self.social == old(self).social,
                self.inertia == old(self).inertia,
                self.cost_history@ == old(self).cost_history@,
                self.iteration == old(self).iteration + 1,
            decreases n - i,
        {
            let mut p = self.particles[i];
            let cost = eval_cost(p.position);
            if cost < p.pbest_cost {
                p.pbest_cost = cost;
                p.pbest_position = p.position;
                self.particles.set(i, p);
            }
            if cost < self.gbest_cost {
                self.gbest_cost = cost;
                self.gbest_position = p.position;
            }
            i = i + 1;
        }

        // Write pass: move every particle against the frozen global best.
        let ghost pb1 = self.particles@;
        proof {
            assert forall|j: int| 0 <= j < n implies wf_particle(#[trigger] pb1[j]) by {
                lemma_norm2_bound(
                    old_parts[j].position.x as int,
                    old_parts[j].position.y as int,
                    old_parts[j].position.z as int,
                    PSO_BOUNDS as int,
                );
            }
        }
        let ghost g_cost = self.gbest_cost;
        let ghost g_pos = self.gbest_position;
        let gb = self.gbest_position;
        let w = self.inertia;
        let c1 = self.cognitive;
        let c2 = self.social;
        let mut i: usize = 0;
        while i < n
            invariant
                0 <= i <= n,
                n == self.particles@.len(),
                n == pb1.len(),
                forall|j: int| 0 <= j < n ==> wf_particle(#[trigger] pb1[j]),
                forall|j: int| i <= j < n ==> #[trigger] self.particles@[j] == pb1[j],
                forall|j: int|
                    0 <= j < i ==> stepped_from(
                        #[trigger] self.particles@[j],
                        pb1[j],
                        g_pos,
                        w as int,
                        c1 as int,
                        c2 as int,
                    ),
                forall|j: int|
                    0 <= j < i ==> wf_particle(#[trigger] self.particles@[j]) && norm2(
                        self.particles@[j].velocity,
                    ) <= PSO_MAX_VEL * PSO_MAX_VEL,
                gb == g_pos,
                self.gbest_cost == g_cost,
                self.gbest_position == g_pos,
                in_lim(gb, PSO_BOUNDS as int),
                0 <= self.gbest_cost,
                w == self.inertia && 0 <= w <= 1000,
                c1 == self.cognitive && 0 <= c1 <= 4000,
                c2 == self.social && 0 <= c2 <= 4000,
                self.cost_history@ == old(self).cost_history@,
                self.iteration == old(self).iteration + 1,
            decreases n - i,
        {
            let p = self.particles[i];
            let q = particle_step(p, gb, w, c1, c2);
            self.particles.set(i, q);
            i = i + 1;
        }

        // Record the global-best cost, dropping the oldest past the cap.
        self.cost_history.push(self.gbest_cost);
        if self.cost_history.len() > COST_HISTORY_CAP {
            self.cost_history.remove(0);
            proof {
                assert(self.cost_history@ =~= hist_push(
                    old(self).cost_history@,
                    self.gbest_cost,
                ));
            }
        }
    }
}

/// Law: the global best only ever improves. Folding any tick's costs into a
/// seed never yields a larger cost than the seed.
pub proof fn lemma_gbest_monotone(s: Seq<ParticleVisual>, c0: int, p0: Vec3, n: int)
    ensures
        gbest_fold(s, c0, p0, n).0 <= c0,
    decreases n,
{
    if n > 0 {
        lemma_gbest_monotone(s, c0, p0, n - 1);
    }
}

} // verus!
