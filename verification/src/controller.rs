//! The kinematic formation controller: a fixed fleet with an immutable
//! role hierarchy (Alpha, Beta, Delta, the rest Omega, assigned once at
//! initialization) and a ring neighbor topology. Each tick it maps the
//! abstract optimizer output onto physical positions: a PSO-style pull
//! toward the assigned formation slot and the swarm center, or a GWO-style
//! pack move in which the leaders fly straight at the swarm target at
//! role-dependent fixed speeds while the Omegas are drawn toward the
//! leaders.
//!
//! The fixed role here is deliberately distinct from the per-tick fitness
//! rank of the grey wolf optimizer engine: this one never changes after
//! initialization.

use vstd::prelude::*;

use crate::formation::{target_at, target_spec, wf_params, FormationParams, FormationType};
use crate::geom::{
    clamp_coord, clamp_norm, clamp_norm_spec, clamp_spec, div_trunc, in_lim, lemma_abs_mul_le,
    lemma_div_le, mul_div, norm2, scale_to, scale_to_spec, tdiv, Vec3,
};
use crate::gwo::gwo_candidate;
use crate::metrics::{compute_metrics, SwarmMetrics};
use crate::rng::rand_milli;
use crate::state::AlgorithmType;
use crate::{CENTER_LIMIT, MAX_AGENTS};

verus! {

/// The box the controller's fleet flies in (about 67,000 units).
pub const CTRL_BOX: i64 = 0x400_0000;

/// Velocity magnitude cap of the fleet (5 units per tick).
pub const CTRL_MAX_SPEED: i64 = 5_000;

/// Below this distance a leader or the center stops chasing (1 unit).
pub const CTRL_NEAR: i64 = 1_000;

/// The fixed formation-hierarchy role, assigned once at initialization.
#[derive(Clone, Copy, Debug, PartialEq, Eq, Structural)]
pub enum DroneRole {
    Alpha,
    Beta,
    Delta,
    Omega,
}

/// One fleet member.
#[derive(Clone, Copy, Debug, PartialEq, Eq, Structural)]
pub struct Drone {
    pub id: usize,
    pub position: Vec3,
    pub velocity: Vec3,
    pub target: Vec3,
    pub role: DroneRole,
    pub left_neighbor: usize,
    pub right_neighbor: usize,
}

/// The swarm controller state.
#[derive(Clone, Debug)]
pub struct SwarmController {
    pub drones: Vec<Drone>,
    pub formation: FormationType,
    pub formation_params: FormationParams,
    pub center: Vec3,
    pub target: Vec3,
    pub iteration: usize,
    pub w: i64,
    pub c1: i64,
    pub c2: i64,
    pub a: i64,
}

/// The fixed role an initialization index receives.
pub open spec fn role_of_index(i: int) -> DroneRole {
    if i == 0 {
        DroneRole::Alpha
    } else if i == 1 {
        DroneRole::Beta
    } else if i == 2 {
        DroneRole::Delta
    } else {
        DroneRole::Omega
    }
}

/// The chase speed of a fixed role, in milli per tick.
pub open spec fn role_speed(r: DroneRole) -> int {
    match r {
        DroneRole::Alpha => 3000,
        DroneRole::Beta => 2500,
        DroneRole::Delta => 2000,
        DroneRole::Omega => 1000,
    }
}

/// The controller's invariant: fleet, center and target inside their boxes,
/// velocities capped, coefficients in range.
pub open spec fn wf_ctrl(s: SwarmController) -> bool {
    &&& s.drones@.len() <= MAX_AGENTS
    &&& forall|i: int|
        0 <= i < s.drones@.len() ==> {
            let d = #[trigger] s.drones@[i];
            in_lim(d.position, CTRL_BOX as int) && in_lim(d.target, CTRL_BOX as int) && in_lim(
                d.velocity,
                CTRL_MAX_SPEED as int,
            ) && norm2(d.velocity) <= CTRL_MAX_SPEED * CTRL_MAX_SPEED
        }
    &&& in_lim(s.center, CENTER_LIMIT as int)
    &&& in_lim(s.target, CENTER_LIMIT as int)
    &&& wf_params(s.formation_params)
    &&& 0 <= s.w <= 1000
    &&& 0 <= s.c1 <= 2000
    &&& 0 <= s.c2 <= 2000
    &&& 0 <= s.a <= 2000
}

/// The formation slot the controller sends drone `i` to, kept in its box.
pub open spec fn ctrl_target(
    pattern: FormationType,
    i: int,
    n: int,
    center: Vec3,
    p: FormationParams,
) -> Vec3 {
    let t = target_spec(pattern, i, n, center, p);
    Vec3 {
        x: clamp_spec(t.0, CTRL_BOX as int) as i64,
        y: clamp_spec(t.1, CTRL_BOX as int) as i64,
        z: clamp_spec(t.2, CTRL_BOX as int) as i64,
    }
}

/// One PSO-style velocity axis: inertia, pull toward the slot, pull toward
/// the swarm center.
pub open spec fn ctrl_vel_spec(v: int, dp: int, dg: int, w: int, c1: int, c2: int, r1: int, r2: int) -> int {
    tdiv(v * w, 1000) + tdiv(tdiv(dp * c1, 1000) * r1, 1000) + tdiv(tdiv(dg * c2, 1000) * r2, 1000)
}

/// One drone's PSO-style tick against its frozen slot and center, for draws
/// `r1`, `r2`: velocity update on all axes (the vertical axis has no social
/// term), magnitude clamp, then a tenth-scaled move kept inside the box.
pub open spec fn ctrl_pso_stepped_at(
    q: Drone,
    p: Drone,
    target: Vec3,
    center: Vec3,
    w: int,
    c1: int,
    c2: int,
    r1: int,
    r2: int,
) -> bool {
    let vpre = Vec3 {
        x: ctrl_vel_spec(
            p.velocity.x as int,
            target.x - p.position.x,
            center.x - p.position.x,
            w,
            c1,
            c2,
            r1,
            r2,
        ) as i64,
        y: ctrl_vel_spec(
            p.velocity.y as int,
            target.y - p.position.y,
            center.y - p.position.y,
            w,
            c1,
            c2,
            r1,
            r2,
        ) as i64,
        z: ctrl_vel_spec(p.velocity.z as int, target.z - p.position.z, 0, w, c1, 0, r1, r2) as i64,
    };
    let vc = clamp_norm_spec(vpre, CTRL_MAX_SPEED as int);
    q == (Drone {
        position: Vec3 {
            x: clamp_spec(p.position.x + tdiv(vc.x as int, 10), CTRL_BOX as int) as i64,
            y: clamp_spec(p.position.y + tdiv(vc.y as int, 10), CTRL_BOX as int) as i64,
            z: clamp_spec(p.position.z + tdiv(vc.z as int, 10), CTRL_BOX as int) as i64,
        },
        velocity: vc,
        target,
        ..p
    })
}

/// `q` is `p` after one PSO-style tick, for some pair of draws.
pub open spec fn ctrl_pso_stepped(
    q: Drone,
    p: Drone,
    target: Vec3,
    center: Vec3,
    w: int,
    c1: int,
    c2: int,
) -> bool {
    exists|r1: int, r2: int|
        0 <= r1 < 1000 && 0 <= r2 < 1000 && ctrl_pso_stepped_at(
            q,
            p,
            target,
            center,
            w,
            c1,
            c2,
            r1,
            r2,
        )
}

/// An Omega's GWO-style tick for one pair of draws: the average of the three
/// leader candidates on the two horizontal axes, a half-gain velocity toward
/// it, the magnitude clamp, and a tenth-scaled move inside the box.
pub open spec fn ctrl_gwo_stepped_at(
    q: Drone,
    p: Drone,
    ap: Vec3,
    bp: Vec3,
    dp: Vec3,
    a: int,
    r1: int,
    r2: int,
) -> bool {
    let nx = tdiv(
        gwo_candidate(ap.x as int, p.position.x as int, a, r1, r2) + gwo_candidate(
            bp.x as int,
            p.position.x as int,
            a,
            r1,
            r2,
        ) + gwo_candidate(dp.x as int, p.position.x as int, a, r1, r2),
        3,
    );
    let ny = tdiv(
        gwo_candidate(ap.y as int, p.position.y as int, a, r1, r2) + gwo_candidate(
            bp.y as int,
            p.position.y as int,
            a,
            r1,
            r2,
        ) + gwo_candidate(dp.y as int, p.position.y as int, a, r1, r2),
        3,
    );
    let vpre = Vec3 {
        x: tdiv((nx - p.position.x) * 500, 1000) as i64,
        y: tdiv((ny - p.position.y) * 500, 1000) as i64,
        z: 0i64,
    };
    let vc = clamp_norm_spec(vpre, CTRL_MAX_SPEED as int);
    q == (Drone {
        position: Vec3 {
            x: clamp_spec(p.position.x + tdiv(vc.x as int, 10), CTRL_BOX as int) as i64,
            y: clamp_spec(p.position.y + tdiv(vc.y as int, 10), CTRL_BOX as int) as i64,
            z: clamp_spec(p.position.z + tdiv(vc.z as int, 10), CTRL_BOX as int) as i64,
        },
        velocity: vc,
        ..p
    })
}

/// `q` is Omega `p` after one GWO-style tick, for some pair of draws.
pub open spec fn ctrl_gwo_stepped(q: Drone, p: Drone, ap: Vec3, bp: Vec3, dp: Vec3, a: int) -> bool {
    exists|r1: int, r2: int|
        0 <= r1 < 1000 && 0 <= r2 < 1000 && ctrl_gwo_stepped_at(q, p, ap, bp, dp, a, r1, r2)
}

/// A leader's GWO-style tick: fly straight at the swarm target on the two
/// horizontal axes at the role's fixed speed while farther than one unit.
pub open spec fn ctrl_leader_stepped(q: Drone, p: Drone, target: Vec3) -> bool {
    let dir = Vec3 {
        x: (target.x - p.position.x) as i64,
        y: (target.y - p.position.y) as i64,
        z: 0i64,
    };
    if norm2(dir) > CTRL_NEAR * CTRL_NEAR {
        let v = scale_to_spec(dir, role_speed(p.role));
        q == (Drone {
            position: Vec3 {
                x: clamp_spec(p.position.x + tdiv(v.x as int, 10), CTRL_BOX as int) as i64,
                y: clamp_spec(p.position.y + tdiv(v.y as int, 10), CTRL_BOX as int) as i64,
                z: p.position.z,
            },
            velocity: v,
            ..p
        })
    } else {
        q == p
    }
}

/// One PSO-style velocity axis, exact against `ctrl_vel_spec`.
fn ctrl_vel_axis(v: i64, dp: i64, dg: i64, w: i64, c1: i64, c2: i64, r1: i64, r2: i64) -> (r: i64)
    requires
        -CTRL_MAX_SPEED <= v <= CTRL_MAX_SPEED,
        -0x800_0000 <= dp <= 0x800_0000,
        -0x800_0000 <= dg <= 0x800_0000,
        0 <= w <= 1000,
        0 <= c1 <= 2000,
        0 <= c2 <= 2000,
        0 <= r1 < 1000,
        0 <= r2 < 1000,
    ensures
        r == ctrl_vel_spec(v as int, dp as int, dg as int, w as int, c1 as int, c2 as int, r1 as int, r2 as int),
        -0x2400_0000 <= r <= 0x2400_0000,
{
    proof {
        lemma_abs_mul_le(v as int, w as int, CTRL_MAX_SPEED as int, 1000);
        lemma_div_le(crate::geom::abs_i(v * w), 5_000_000, 1000);
        lemma_abs_mul_le(dp as int, c1 as int, 0x800_0000, 2000);
        lemma_div_le(crate::geom::abs_i(dp * c1), 0x800_0000int * 2000, 1000);
        lemma_abs_mul_le(dg as int, c2 as int, 0x800_0000, 2000);
        lemma_div_le(crate::geom::abs_i(dg * c2), 0x800_0000int * 2000, 1000);
    }
    let t0: i64 = mul_div(v, w, 1000);
    let t1a: i64 = mul_div(dp, c1, 1000);
    let t2a: i64 = mul_div(dg, c2, 1000);
    proof {
        lemma_abs_mul_le(t1a as int, r1 as int, 0x800_0000int * 2, 1000);
        lemma_div_le(crate::geom::abs_i(t1a * r1), 0x800_0000int * 2000, 1000);
        lemma_abs_mul_le(t2a as int, r2 as int, 0x800_0000int * 2, 1000);
        lemma_div_le(crate::geom::abs_i(t2a * r2), 0x800_0000int * 2000, 1000);
    }
    let t1: i64 = mul_div(t1a, r1, 1000);
    let t2: i64 = mul_div(t2a, r2, 1000);
    t0 + t1 + t2
}

/// One leader candidate coordinate over the controller's wider box, exact
/// against the optimizer's `gwo_candidate` rule.
fn ctrl_candidate(lead: i64, x: i64, a: i64, r1: i64, r2: i64) -> (c: i64)
    requires
        -CTRL_BOX <= lead <= CTRL_BOX,
        -CTRL_BOX <= x <= CTRL_BOX,
        0 <= a <= 2000,
        0 <= r1 < 1000,
        0 <= r2 < 1000,
    ensures
        c == gwo_candidate(lead as int, x as int, a as int, r1 as int, r2 as int),
        -0x4000_0000 <= c <= 0x4000_0000,
{
    proof {
        lemma_abs_mul_le(2 * a, r1 as int, 4000, 1000);
        lemma_div_le(crate::geom::abs_i(2 * a * r1), 4_000_000, 1000);
        lemma_abs_mul_le(2 * r2, lead as int, 2000, CTRL_BOX as int);
        lemma_div_le(crate::geom::abs_i(2 * r2 * lead), 2000int * CTRL_BOX as int, 1000);
    }
    let av: i64 = mul_div(2 * a, r1, 1000) - a;
    let cc: i64 = 2 * r2;
    let e: i64 = mul_div(cc, lead, 1000) - x;
    let d: i64 = if e < 0 {
        -e
    } else {
        e
    };
    proof {
        lemma_abs_mul_le(av as int, d as int, 4000, 0xC80_0000);
        lemma_div_le(crate::geom::abs_i(av * d), 4000int * 0xC80_0000, 1000);
    }
    lead - mul_div(av, d, 1000)
}

/// The first drone carrying the given role, if any.
pub open spec fn find_role_from(s: Seq<Drone>, role: DroneRole, i: int) -> Option<int>
    decreases s.len() - i,
{
    if i < 0 || i >= s.len() {
        None
    } else if s[i].role == role {
        Some(i)
    } else {
        find_role_from(s, role, i + 1)
    }
}

/// The position the pack chases for one role: the first drone carrying it,
/// or the swarm center when no drone does.
pub open spec fn role_pos(s: Seq<Drone>, role: DroneRole, center: Vec3) -> Vec3 {
    match find_role_from(s, role, 0) {
        Some(i) => s[i].position,
        None => center,
    }
}

impl SwarmController {
    /// A fresh controller: the fleet at the origin, a V formation, the
    /// center at 10 units altitude, the swarm target out north-east, default
    /// coefficients.
    pub fn new(num_drones: usize) -> (r: Self)
        requires
            num_drones <= MAX_AGENTS,
        ensures
            wf_ctrl(r),
            r.drones@.len() == num_drones,
            r.formation == FormationType::VFormation,
            r.formation_params == (FormationParams {
                drone_count: num_drones,
                grid_spacing: 10_000i64,
                circle_radius: 15_000i64,
                line_spacing: 10_000i64,
                v_spacing: 8_000i64,
            }),
            r.center == (Vec3 { x: 0i64, y: 0i64, z: 10_000i64 }),
            r.target == (Vec3 { x: 50_000i64, y: 50_000i64, z: 10_000i64 }),
            r.iteration == 0,
            r.w == 700,
            r.c1 == 1500,
            r.c2 == 1500,
            r.a == 2000,
            forall|i: int|
                0 <= i < num_drones ==> (#[trigger] r.drones@[i]).id == i && r.drones@[i].role
                    == DroneRole::Omega,
    {
        let mut drones: Vec<Drone> = Vec::new();
        let mut i: usize = 0;
        while i < num_drones
            invariant
                0 <= i <= num_drones <= MAX_AGENTS,
                drones@.len() == i,
                forall|j: int|
                    0 <= j < i ==> {
                        let d = #[trigger] drones@[j];
                        d.id == j && d.role == DroneRole::Omega && in_lim(d.position, CTRL_BOX as int)
                            && in_lim(d.target, CTRL_BOX as int) && in_lim(
                            d.velocity,
                            CTRL_MAX_SPEED as int,
                        ) && norm2(d.velocity) <= CTRL_MAX_SPEED * CTRL_MAX_SPEED
                    },
            decreases num_drones - i,
        {
            drones.push(
                Drone {
                    id: i,
                    position: Vec3 { x: 0, y: 0, z: 0 },
                    velocity: Vec3 { x: 0, y: 0, z: 0 },
                    target: Vec3 { x: 0, y: 0, z: 0 },
                    role: DroneRole::Omega,
                    left_neighbor: 0,
                    right_neighbor: 0,
                },
            );
            i = i + 1;
        }
        SwarmController {
            drones,
            formation: FormationType::VFormation,
            formation_params: FormationParams {
                drone_count: num_drones,
                grid_spacing: 10_000,
                circle_radius: 15_000,
                line_spacing: 10_000,
                v_spacing: 8_000,
            },
            center: Vec3 { x: 0, y: 0, z: 10_000 },
            target: Vec3 { x: 50_000, y: 50_000, z: 10_000 },
            iteration: 0,
            w: 700,
            c1: 1500,
            c2: 1500,
            a: 2000,
        }
    }

    /// Scatter the fleet on a 5-unit circle at 10 units altitude, assign the
    /// fixed roles in index order, and wire the ring neighbor topology: each
    /// drone's left and right neighbor index modulo the fleet size.
    pub fn initialize(&mut self)
        requires
            wf_ctrl(*old(self)),
        ensures
            wf_ctrl(*final(self)),
            final(self).drones@.len() == old(self).drones@.len(),
            forall|i: int|
                0 <= i < final(self).drones@.len() ==> {
                    let d = #[trigger] final(self).drones@[i];
                    let n = final(self).drones@.len() as int;
                    d.id == old(self).drones@[i].id && d.role == role_of_index(i)
                        && d.left_neighbor == (i + n - 1) % n && d.right_neighbor == (i + 1) % n
                        && {
                        let t = target_spec(
                            FormationType::Circle,
                            i,
                            n,
                            Vec3 { x: 0i64, y: 0i64, z: 10_000i64 },
                            FormationParams {
                                drone_count: final(self).drones@.len() as usize,
                                grid_spacing: 10_000i64,
                                circle_radius: 5_000i64,
                                line_spacing: 10_000i64,
                                v_spacing: 8_000i64,
                            },
                        );
                        d.position.x == t.0 && d.position.y == t.1 && d.position.z == t.2
                    }
                },
            final(self).center == old(self).center,
            final(self).target == old(self).target,
            final(self).formation == old(self).formation,
            final(self).formation_params == old(self).formation_params,
            final(self).iteration == old(self).iteration,
    {
        let n = self.drones.len();
        let spawn_params = FormationParams {
            drone_count: n,
            grid_spacing: 10_000,
            circle_radius: 5_000,
            line_spacing: 10_000,
            v_spacing: 8_000,
        };
        let ghost pre = self.drones@;
        let mut i: usize = 0;
        while i < n
            invariant
                0 <= i <= n,
                n == self.drones@.len() == pre.len(),
                n <= MAX_AGENTS,
                pre == old(self).drones@,
                self.center == old(self).center,
                self.target == old(self).target,
                self.formation == old(self).formation,
                self.formation_params == old(self).formation_params,
                self.iteration == old(self).iteration,
                self.w == old(self).w,
                self.c1 == old(self).c1,
                self.c2 == old(self).c2,
                self.a == old(self).a,
                wf_ctrl(*old(self)),
                spawn_params == (FormationParams {
                    drone_count: n,
                    grid_spacing: 10_000i64,
                    circle_radius: 5_000i64,
                    line_spacing: 10_000i64,
                    v_spacing: 8_000i64,
                }),
                forall|j: int| i <= j < n ==> #[trigger] self.drones@[j] == pre[j],
                forall|j: int|
                    0 <= j < i ==> {
                        let d = #[trigger] self.drones@[j];
                        d.id == pre[j].id && d.role == role_of_index(j) && d.left_neighbor == (j + n
                            - 1) % (n as int) && d.right_neighbor == (j + 1) % (n as int) && {
                            let t = target_spec(
                                FormationType::Circle,
                                j,
                                n as int,
                                Vec3 { x: 0i64, y: 0i64, z: 10_000i64 },
                                spawn_params,
                            );
                            d.position.x == t.0 && d.position.y == t.1 && d.position.z == t.2
                        } && in_lim(d.position, CTRL_BOX as int) && in_lim(d.target, CTRL_BOX as int)
                            && in_lim(d.velocity, CTRL_MAX_SPEED as int) && norm2(d.velocity)
                            <= CTRL_MAX_SPEED * CTRL_MAX_SPEED
                    },
            decreases n - i,
        {
            let pos = target_at(
                FormationType::Circle,
                i,
                n,
                Vec3 { x: 0, y: 0, z: 10_000 },
                &spawn_params,
            );
            let mut d = self.drones[i];
            d.position = pos;
            d.role = if i == 0 {
                DroneRole::Alpha
            } else if i == 1 {
                DroneRole::Beta
            } else if i == 2 {
                DroneRole::Delta
            } else {
                DroneRole::Omega
            };
            d.left_neighbor = (i + n - 1) % n;
            d.right_neighbor = (i + 1) % n;
            self.drones.set(i, d);
            i = i + 1;
        }
    }

    /// Switch the formation pattern.
    pub fn set_formation(&mut self, formation: FormationType)
        ensures
            *final(self) == (SwarmController { formation, ..*old(self) }),
    {
        self.formation = formation;
    }

    /// The ordered formation slots for the current pattern, count and center.
    pub fn calculate_formation_positions(&self) -> (r: Vec<Vec3>)
        requires
            wf_ctrl(*self),
        ensures
            r@.len() == self.drones@.len(),
            forall|i: int|
                0 <= i < r@.len() ==> #[trigger] r@[i] == ctrl_target(
                    self.formation,
                    i,
                    self.drones@.len() as int,
                    self.center,
                    self.formation_params,
                ),
            forall|i: int| 0 <= i < r@.len() ==> in_lim(#[trigger] r@[i], CTRL_BOX as int),
    {
        let n = self.drones.len();
        let mut r: Vec<Vec3> = Vec::new();
        let mut i: usize = 0;
        while i < n
            invariant
                0 <= i <= n,
                n == self.drones@.len(),
                wf_ctrl(*self),
                r@.len() == i,
                forall|j: int|
                    0 <= j < i ==> #[trigger] r@[j] == ctrl_target(
                        self.formation,
                        j,
                        n as int,
                        self.center,
                        self.formation_params,
                    ),
                forall|j: int| 0 <= j < i ==> in_lim(#[trigger] r@[j], CTRL_BOX as int),
            decreases n - i,
        {
            let t0 = target_at(self.formation, i, n, self.center, &self.formation_params);
            r.push(
                Vec3 {
                    x: clamp_coord(t0.x, CTRL_BOX),
                    y: clamp_coord(t0.y, CTRL_BOX),
                    z: clamp_coord(t0.z, CTRL_BOX),
                },
            );
            i = i + 1;
        }
        r
    }

    /// One PSO-style tick: every drone is pulled toward its frozen formation
    /// slot and the frozen swarm center, with the velocity magnitude capped.
    #[verifier::rlimit(50)]
    pub fn update_pso(&mut self)
        requires
            wf_ctrl(*old(self)),
        ensures
            wf_ctrl(*final(self)),
            final(self).drones@.len() == old(self).drones@.len(),
            *final(self) == (SwarmController { drones: final(self).drones, ..*old(self) }),
            forall|i: int|
                0 <= i < final(self).drones@.len() ==> ctrl_pso_stepped(
                    #[trigger] final(self).drones@[i],
                    old(self).drones@[i],
                    ctrl_target(
                        old(self).formation,
                        i,
                        old(self).drones@.len() as int,
                        old(self).center,
                        old(self).formation_params,
                    ),
                    old(self).center,
                    old(self).w as int,
                    old(self).c1 as int,
                    old(self).c2 as int,
                ),
            forall|i: int|
                0 <= i < final(self).drones@.len() ==> norm2(
                    (#[trigger] final(self).drones@[i]).velocity,
                ) <= CTRL_MAX_SPEED * CTRL_MAX_SPEED,
    {
        let n = self.drones.len();
        let center = self.center;
        let w = self.w;
        let c1 = self.c1;
        let c2 = self.c2;
        let ghost pre = self.drones@;
        let mut i: usize = 0;
        while i < n
            invariant
                0 <= i <= n,
                n == self.drones@.len() == pre.len(),
                n <= MAX_AGENTS,
                pre == old(self).drones@,
                self.center == old(self).center,
                self.target == old(self).target,
                self.formation == old(self).formation,
                self.formation_params == old(self).formation_params,
                self.iteration == old(self).iteration,
                self.w == old(self).w,
                self.c1 == old(self).c1,
                self.c2 == old(self).c2,
                self.a == old(self).a,
                wf_params(self.formation_params),
                center == self.center,
                in_lim(center, CENTER_LIMIT as int),
                w == self.w && 0 <= w <= 1000,
                c1 == self.c1 && 0 <= c1 <= 2000,
                c2 == self.c2 && 0 <= c2 <= 2000,
                forall|j: int|
                    0 <= j < n ==> {
                        let d = #[trigger] pre[j];
                        in_lim(d.position, CTRL_BOX as int) && in_lim(d.target, CTRL_BOX as int)
                            && in_lim(d.velocity, CTRL_MAX_SPEED as int) && norm2(d.velocity)
                            <= CTRL_MAX_SPEED * CTRL_MAX_SPEED
                    },
                forall|j: int| i <= j < n ==> #[trigger] self.drones@[j] == pre[j],
                forall|j: int|
                    0 <= j < i ==> ctrl_pso_stepped(
                        #[trigger] self.drones@[j],
                        pre[j],
                        ctrl_target(
                            self.formation,
                            j,
                            n as int,
                            center,
                            self.formation_params,
                        ),
                        center,
                        w as int,
                        c1 as int,
                        c2 as int,
                    ),
                forall|j: int|
                    0 <= j < i ==> {
                        let d = #[trigger] self.drones@[j];
                        in_lim(d.position, CTRL_BOX as int) && in_lim(d.target, CTRL_BOX as int)
                            && in_lim(d.velocity, CTRL_MAX_SPEED as int) && norm2(d.velocity)
                            <= CTRL_MAX_SPEED * CTRL_MAX_SPEED
                    },
        decreases n - i,
        {
            let t0 = target_at(self.formation, i, n, center, &self.formation_params);
            let target = Vec3 {
                x: clamp_coord(t0.x, CTRL_BOX),
                y: clamp_coord(t0.y, CTRL_BOX),
                z: clamp_coord(t0.z, CTRL_BOX),
            };
            let p = self.drones[i];
            let r1: i64 = rand_milli();
            let r2: i64 = rand_milli();
            let vx = ctrl_vel_axis(
                p.velocity.x,
                target.x - p.position.x,
                center.x - p.position.x,
                w,
                c1,
                c2,
                r1,
                r2,
            );
            let vy = ctrl_vel_axis(
                p.velocity.y,
                target.y - p.position.y,
                center.y - p.position.y,
                w,
                c1,
                c2,
                r1,
                r2,
            );
            let vz = ctrl_vel_axis(p.velocity.z, target.z - p.position.z, 0, w, c1, 0, r1, r2);
            let vc = clamp_norm(Vec3 { x: vx, y: vy, z: vz }, CTRL_MAX_SPEED);
            let q = Drone {
                position: Vec3 {
                    x: clamp_coord(p.position.x + div_trunc(vc.x, 10), CTRL_BOX),
                    y: clamp_coord(p.position.y + div_trunc(vc.y, 10), CTRL_BOX),
                    z: clamp_coord(p.position.z + div_trunc(vc.z, 10), CTRL_BOX),
                },
                velocity: vc,
                target,
                ..p
            };
            self.drones.set(i, q);
            proof {
                assert(ctrl_pso_stepped_at(
                    q,
                    pre[i as int],
                    target,
                    center,
                    w as int,
                    c1 as int,
                    c2 as int,
                    r1 as int,
                    r2 as int,
                ));
                assert(ctrl_pso_stepped(
                    q,
                    pre[i as int],
                    target,
                    center,
                    w as int,
                    c1 as int,
                    c2 as int,
                ));
            }
            i = i + 1;
        }
    }

    /// The position of the first drone carrying a role, or the center.
    fn find_role_pos(&self, role: DroneRole) -> (r: Vec3)
        ensures
            r == role_pos(self.drones@, role, self.center),
    {
        let n = self.drones.len();
        let mut j: usize = 0;
        while j < n
            invariant
                0 <= j <= n,
                n == self.drones@.len(),
                find_role_from(self.drones@, role, 0) == find_role_from(
                    self.drones@,
                    role,
                    j as int,
                ),
            decreases n - j,
        {
            if self.drones[j].role == role {
                return self.drones[j].position;
            }
            j = j + 1;
        }
        self.center
    }

    /// One GWO-style tick: the exploration parameter decays linearly over
    /// the first hundred ticks; every Omega is drawn toward the three frozen
    /// leaders; every leader flies straight at the swarm target at its
    /// role's fixed speed. All velocities stay within the cap.
    #[verifier::rlimit(50)]
    pub fn update_gwo(&mut self)
        requires
            wf_ctrl(*old(self)),
        ensures
            wf_ctrl(*final(self)),
            final(self).drones@.len() == old(self).drones@.len(),
            final(self).a == (if old(self).iteration >= 100 {
                0int
            } else {
                2000 - 20 * old(self).iteration
            }),
            *final(self) == (SwarmController {
                drones: final(self).drones,
                a: final(self).a,
                ..*old(self)
            }),
            forall|i: int|
                0 <= i < final(self).drones@.len() ==> {
                    let p = old(self).drones@[i];
                    if p.role == DroneRole::Omega {
                        ctrl_gwo_stepped(
                            #[trigger] final(self).drones@[i],
                            p,
                            role_pos(old(self).drones@, DroneRole::Alpha, old(self).center),
                            role_pos(old(self).drones@, DroneRole::Beta, old(self).center),
                            role_pos(old(self).drones@, DroneRole::Delta, old(self).center),
                            final(self).a as int,
                        )
                    } else {
                        ctrl_leader_stepped(final(self).drones@[i], p, old(self).target)
                    }
                },
            forall|i: int|
                0 <= i < final(self).drones@.len() ==> norm2(
                    (#[trigger] final(self).drones@[i]).velocity,
                ) <= CTRL_MAX_SPEED * CTRL_MAX_SPEED,
    {
        self.a = if self.iteration >= 100 {
            0
        } else {
            2000 - 20 * (self.iteration as i64)
        };
        let a = self.a;
        let n = self.drones.len();
        let ap = self.find_role_pos(DroneRole::Alpha);
        let bp = self.find_role_pos(DroneRole::Beta);
        let dp = self.find_role_pos(DroneRole::Delta);
        proof {
            lemma_role_pos_in_box(self.drones@, DroneRole::Alpha, self.center);
            lemma_role_pos_in_box(self.drones@, DroneRole::Beta, self.center);
            lemma_role_pos_in_box(self.drones@, DroneRole::Delta, self.center);
        }
        let target = self.target;
        let ghost pre = self.drones@;
        let mut i: usize = 0;
        while i < n
            invariant
                0 <= i <= n,
                n == self.drones@.len() == pre.len(),
                n <= MAX_AGENTS,
                pre == old(self).drones@,
                self.center == old(self).center,
                self.target == old(self).target,
                self.formation == old(self).formation,
                self.formation_params == old(self).formation_params,
                self.iteration == old(self).iteration,
                self.w == old(self).w,
                self.c1 == old(self).c1,
                self.c2 == old(self).c2,
                self.a == (if old(self).iteration >= 100 { 0int } else { 2000 - 20 * old(self).iteration }),
                0 <= a <= 2000,
                a == self.a,
                in_lim(ap, CTRL_BOX as int),
                in_lim(bp, CTRL_BOX as int),
                in_lim(dp, CTRL_BOX as int),
                in_lim(target, CENTER_LIMIT as int),
                target == self.target,
                forall|j: int|
                    0 <= j < n ==> {
                        let d = #[trigger] pre[j];
                        in_lim(d.position, CTRL_BOX as int) && in_lim(d.target, CTRL_BOX as int)
                            && in_lim(d.velocity, CTRL_MAX_SPEED as int) && norm2(d.velocity)
                            <= CTRL_MAX_SPEED * CTRL_MAX_SPEED
                    },
                forall|j: int| i <= j < n ==> #[trigger] self.drones@[j] == pre[j],
                forall|j: int|
                    0 <= j < i ==> (if pre[j].role == DroneRole::Omega {
                        ctrl_gwo_stepped(#[trigger] self.drones@[j], pre[j], ap, bp, dp, a as int)
                    } else {
                        ctrl_leader_stepped(self.drones@[j], pre[j], target)
                    }),
                forall|j: int|
                    0 <= j < i ==> {
                        let d = #[trigger] self.drones@[j];
                        in_lim(d.position, CTRL_BOX as int) && in_lim(d.target, CTRL_BOX as int)
                            && in_lim(d.velocity, CTRL_MAX_SPEED as int) && norm2(d.velocity)
                            <= CTRL_MAX_SPEED * CTRL_MAX_SPEED
                    },
            decreases n - i,
        {
            let p = self.drones[i];
            if matches!(p.role, DroneRole::Omega) {
                let r1: i64 = rand_milli();
                let r2: i64 = rand_milli();
                let x1 = ctrl_candidate(ap.x, p.position.x, a, r1, r2);
                let x2 = ctrl_candidate(bp.x, p.position.x, a, r1, r2);
                let x3 = ctrl_candidate(dp.x, p.position.x, a, r1, r2);
                let y1 = ctrl_candidate(ap.y, p.position.y, a, r1, r2);
                let y2 = ctrl_candidate(bp.y, p.position.y, a, r1, r2);
                let y3 = ctrl_candidate(dp.y, p.position.y, a, r1, r2);
                let nx = div_trunc(x1 + x2 + x3, 3);
                let ny = div_trunc(y1 + y2 + y3, 3);
                proof {
                    lemma_abs_mul_le(nx - p.position.x as int, 500, 0x4400_0000, 500);
                    lemma_div_le(crate::geom::abs_i((nx - p.position.x) * 500), 0x4400_0000int * 500, 1000);
                    lemma_abs_mul_le(ny - p.position.y as int, 500, 0x4400_0000, 500);
                    lemma_div_le(crate::geom::abs_i((ny - p.position.y) * 500), 0x4400_0000int * 500, 1000);
                }
                let vpre = Vec3 {
                    x: mul_div(nx - p.position.x, 500, 1000),
                    y: mul_div(ny - p.position.y, 500, 1000),
                    z: 0,
                };
                let vc = clamp_norm(vpre, CTRL_MAX_SPEED);
                let q = Drone {
                    position: Vec3 {
                        x: clamp_coord(p.position.x + div_trunc(vc.x, 10), CTRL_BOX),
                        y: clamp_coord(p.position.y + div_trunc(vc.y, 10), CTRL_BOX),
                        z: clamp_coord(p.position.z + div_trunc(vc.z, 10), CTRL_BOX),
                    },
                    velocity: vc,
                    ..p
                };
                self.drones.set(i, q);
                proof {
                    assert(ctrl_gwo_stepped_at(q, pre[i as int], ap, bp, dp, a as int, r1 as int,
                        r2 as int));
                    assert(ctrl_gwo_stepped(q, pre[i as int], ap, bp, dp, a as int));
                }
            } else {
                let speed: i64 = match p.role {
                    DroneRole::Alpha => 3000,
                    DroneRole::Beta => 2500,
                    DroneRole::Delta => 2000,
                    DroneRole::Omega => 1000,
                };
                let dir = Vec3 { x: target.x - p.position.x, y: target.y - p.position.y, z: 0 };
                let d2 = crate::geom::norm2_u64(dir);
                proof {
                    assert(CTRL_NEAR * CTRL_NEAR == 1_000_000) by (nonlinear_arith);
                }
                if d2 > 1_000_000u64 {
                    let v = scale_to(dir, speed);
                    proof {
                        crate::geom::lemma_sq_abs_le(speed as int, CTRL_MAX_SPEED as int);
                    }
                    let q = Drone {
                        position: Vec3 {
                            x: clamp_coord(p.position.x + div_trunc(v.x, 10), CTRL_BOX),
                            y: clamp_coord(p.position.y + div_trunc(v.y, 10), CTRL_BOX),
                            z: p.position.z,
                        },
                        velocity: v,
                        ..p
                    };
                    self.drones.set(i, q);
                } else {
                    proof {
                        crate::geom::lemma_norm2_bound(
                            pre[i as int].velocity.x as int,
                            pre[i as int].velocity.y as int,
                            pre[i as int].velocity.z as int,
                            CTRL_MAX_SPEED as int,
                        );
                    }
                }
            }
            i = i + 1;
        }
    }

    /// One tick: advance with the selected algorithm, then count it.
    pub fn step(&mut self, algorithm: AlgorithmType)
        requires
            wf_ctrl(*old(self)),
            old(self).iteration < usize::MAX,
        ensures
            wf_ctrl(*final(self)),
            final(self).iteration == old(self).iteration + 1,
            final(self).drones@.len() == old(self).drones@.len(),
            forall|i: int|
                0 <= i < final(self).drones@.len() ==> norm2(
                    (#[trigger] final(self).drones@[i]).velocity,
                ) <= CTRL_MAX_SPEED * CTRL_MAX_SPEED,
            algorithm != AlgorithmType::GWO ==> {
                &&& *final(self) == (SwarmController {
                    drones: final(self).drones,
                    iteration: final(self).iteration,
                    ..*old(self)
                })
                &&& forall|i: int|
                    0 <= i < final(self).drones@.len() ==> ctrl_pso_stepped(
                        #[trigger] final(self).drones@[i],
                        old(self).drones@[i],
                        ctrl_target(
                            old(self).formation,
                            i,
                            old(self).drones@.len() as int,
                            old(self).center,
                            old(self).formation_params,
                        ),
                        old(self).center,
                        old(self).w as int,
                        old(self).c1 as int,
                        old(self).c2 as int,
                    )
            },
            algorithm == AlgorithmType::GWO ==> {
                &&& final(self).a == (if old(self).iteration >= 100 {
                    0int
                } else {
                    2000 - 20 * old(self).iteration
                })
                &&& *final(self) == (SwarmController {
                    drones: final(self).drones,
                    a: final(self).a,
                    iteration: final(self).iteration,
                    ..*old(self)
                })
                &&& forall|i: int|
                    0 <= i < final(self).drones@.len() ==> {
                        let p = old(self).drones@[i];
                        if p.role == DroneRole::Omega {
                            ctrl_gwo_stepped(
                                #[trigger] final(self).drones@[i],
                                p,
                                role_pos(old(self).drones@, DroneRole::Alpha, old(self).center),
                                role_pos(old(self).drones@, DroneRole::Beta, old(self).center),
                                role_pos(old(self).drones@, DroneRole::Delta, old(self).center),
                                final(self).a as int,
                            )
                        } else {
                            ctrl_leader_stepped(final(self).drones@[i], p, old(self).target)
                        }
                    }
            },
    {
        match algorithm {
            AlgorithmType::GWO => self.update_gwo(),
            _ => self.update_pso(),
        }
        self.iteration = self.iteration + 1;
    }

    /// Walk the swarm center toward the swarm target at the given speed,
    /// while farther than one unit from it.
    pub fn move_center_toward_target(&mut self, speed: i64)
        requires
            wf_ctrl(*old(self)),
            0 <= speed <= 10_000,
        ensures
            wf_ctrl(*final(self)),
            *final(self) == (SwarmController { center: final(self).center, ..*old(self) }),
            ({
                let dir = Vec3 {
                    x: (old(self).target.x - old(self).center.x) as i64,
                    y: (old(self).target.y - old(self).center.y) as i64,
                    z: 0i64,
                };
                if norm2(dir) > CTRL_NEAR * CTRL_NEAR {
                    let v = scale_to_spec(dir, speed as int);
                    final(self).center == (Vec3 {
                        x: clamp_spec(
                            old(self).center.x + v.x as int,
                            CENTER_LIMIT as int,
                        ) as i64,
                        y: clamp_spec(
                            old(self).center.y + v.y as int,
                            CENTER_LIMIT as int,
                        ) as i64,
                        z: old(self).center.z,
                    })
                } else {
                    final(self).center == old(self).center
                }
            }),
    {
        let dir = Vec3 { x: self.target.x - self.center.x, y: self.target.y - self.center.y, z: 0 };
        let d2 = crate::geom::norm2_u64(dir);
        proof {
            assert(CTRL_NEAR * CTRL_NEAR == 1_000_000) by (nonlinear_arith);
        }
        if d2 > 1_000_000u64 {
            let v = scale_to(dir, speed);
            self.center = Vec3 {
                x: clamp_coord(self.center.x + v.x, CENTER_LIMIT),
                y: clamp_coord(self.center.y + v.y, CENTER_LIMIT),
                z: self.center.z,
            };
        }
    }

    /// The swarm metrics snapshot over the fleet's positions, velocities and
    /// assigned formation slots.
    pub fn calculate_metrics(&self) -> (r: SwarmMetrics)
        requires
            wf_ctrl(*self),
        ensures
            ({
                let ps = self.drones@.map_values(|d: Drone| d.position);
                let c = crate::metrics::center_spec(ps);
                &&& r.center.x == c.0 && r.center.y == c.1 && r.center.z == c.2
                &&& r.spread == crate::metrics::max_dist_upto(ps, r.center, ps.len() as int)
                &&& r.min_separation == crate::metrics::min_sep_upto(ps, ps.len() as int)
                &&& r.formation_error == (if ps.len() == 0 {
                    0int
                } else {
                    tdiv(
                        crate::metrics::sum_target_dist(
                            ps,
                            self.drones@.map_values(|d: Drone| d.target),
                            ps.len() as int,
                        ),
                        ps.len() as int,
                    )
                })
                &&& r.avg_velocity == (if ps.len() == 0 {
                    0int
                } else {
                    tdiv(
                        crate::metrics::sum_speed(
                            self.drones@.map_values(|d: Drone| d.velocity),
                            ps.len() as int,
                        ),
                        ps.len() as int,
                    )
                })
            }),
    {
        let n = self.drones.len();
        let mut positions: Vec<Vec3> = Vec::new();
        let mut velocities: Vec<Vec3> = Vec::new();
        let mut targets: Vec<Vec3> = Vec::new();
        let mut i: usize = 0;
        while i < n
            invariant
                0 <= i <= n,
                n == self.drones@.len() <= MAX_AGENTS,
                wf_ctrl(*self),
                positions@.len() == i,
                velocities@.len() == i,
                targets@.len() == i,
                forall|j: int| 0 <= j < i ==> #[trigger] positions@[j] == self.drones@[j].position,
                forall|j: int| 0 <= j < i ==> #[trigger] velocities@[j]
                    == self.drones@[j].velocity && in_lim(velocities@[j], CTRL_BOX as int),
                forall|j: int| 0 <= j < i ==> #[trigger] targets@[j] == self.drones@[j].target
                    && in_lim(targets@[j], CTRL_BOX as int),
            decreases n - i,
        {
            positions.push(self.drones[i].position);
            velocities.push(self.drones[i].velocity);
            targets.push(self.drones[i].target);
            i = i + 1;
        }
        proof {
            assert(positions@ =~= self.drones@.map_values(|d: Drone| d.position));
            assert(velocities@ =~= self.drones@.map_values(|d: Drone| d.velocity));
            assert(targets@ =~= self.drones@.map_values(|d: Drone| d.target));
        }
        compute_metrics(&positions, &velocities, &targets)
    }
}

/// The position the pack chases for any role stays inside the fleet's box.
proof fn lemma_role_pos_in_box(s: Seq<Drone>, role: DroneRole, center: Vec3)
    requires
        forall|i: int| 0 <= i < s.len() ==> in_lim((#[trigger] s[i]).position, CTRL_BOX as int),
        in_lim(center, CENTER_LIMIT as int),
    ensures
        in_lim(role_pos(s, role, center), CTRL_BOX as int),
{
    lemma_find_role_in_range(s, role, 0);
}

proof fn lemma_find_role_in_range(s: Seq<Drone>, role: DroneRole, i: int)
    ensures
        find_role_from(s, role, i) matches Some(k) ==> 0 <= k < s.len(),
    decreases s.len() - i,
{
    if 0 <= i < s.len() && s[i].role != role {
        lemma_find_role_in_range(s, role, i + 1);
    }
}

} // verus!

