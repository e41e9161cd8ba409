//! Ant colony optimization: ants walk from a start point toward a goal with
//! a biased-random step, refuse any move that lands inside an inflated
//! obstacle, deposit pheromone on each committed move, and reset on reaching
//! the goal (recording the shortest path seen). Pheromone decays
//! multiplicatively each tick, is removed below a fixed floor, and the
//! collection is kept under a cap by evicting the oldest entries in bulk.
//!
//! The stored alpha/beta exponents are configuration for a pheromone-biased
//! transition rule; movement here deliberately keeps the simplified
//! goal-biased random walk and does not read them.

use vstd::prelude::*;

use vstd::arithmetic::power::pow;

use crate::geom::{
    clamp_coord, clamp_spec, diff, dist2_u64, in_lim, lemma_mul_le, mul_div, norm2, scale_to,
    scale_to_spec, tdiv, Vec3,
};
use crate::rng::rand_milli;
use crate::{MAX_AGENTS, WORLD_LIMIT};

verus! {

/// Distance to the goal below which an ant is considered arrived (5 units).
pub const ACO_GOAL_THRESHOLD: i64 = 5_000;

/// Length of one committed ant step (5 units).
pub const ACO_STEP: i64 = 5_000;

/// Safety margin added to every obstacle radius (5 units).
pub const ACO_MARGIN: i64 = 5_000;

/// Pheromone strength floor: trails strictly below it are removed (0.05 in
/// milli); a trail at exactly the floor stays.
pub const PHEROMONE_FLOOR: i64 = 50;

/// Most pheromone trails kept between ticks.
pub const PHEROMONE_CAP: usize = 500;

/// How many oldest trails one bulk eviction drops.
pub const PHEROMONE_EVICT: usize = 100;

/// Largest accepted obstacle radius (1000 units).
pub const MAX_OBSTACLE_RADIUS: i64 = 1_000_000;

/// A circular exclusion zone.
#[derive(Clone, Copy, Debug, PartialEq, Eq, Structural)]
pub struct ObstacleVisual {
    pub center: Vec3,
    pub radius: i64,
}

/// One decaying pheromone segment between two points.
#[derive(Clone, Copy, Debug, PartialEq, Eq, Structural)]
pub struct PheromoneTrail {
    pub from: Vec3,
    pub to: Vec3,
    pub strength: i64,
}

/// One ant: where it is and the path it has walked since its last reset.
#[derive(Clone, Debug)]
pub struct AntVisual {
    pub position: Vec3,
    pub path: Vec<Vec3>,
}

/// The ACO engine state.
#[derive(Clone, Debug)]
pub struct ACOVisualState {
    pub ants: Vec<AntVisual>,
    pub pheromones: Vec<PheromoneTrail>,
    pub best_path: Vec<Vec3>,
    pub obstacles: Vec<ObstacleVisual>,
    pub start: Vec3,
    pub goal: Vec3,
    pub iteration: usize,
    pub evaporation_rate: i64,
    pub alpha: i64,
    pub beta: i64,
}

/// `p` keeps the safety margin from every obstacle.
pub open spec fn pos_clear_spec(p: Vec3, obs: Seq<ObstacleVisual>) -> bool {
    forall|k: int|
        0 <= k < obs.len() ==> norm2(diff(p, (#[trigger] obs[k]).center)) >= (obs[k].radius
            + ACO_MARGIN) * (obs[k].radius + ACO_MARGIN)
}

/// One multiplicative evaporation of a strength, in milli.
pub open spec fn decay_spec(s: int, e: int) -> int {
    (s * (1000 - e)) / 1000
}

/// Strength after `k` evaporation ticks without reinforcement.
pub open spec fn decay_k(s: int, e: int, k: nat) -> int
    decreases k,
{
    if k == 0 {
        s
    } else {
        decay_spec(decay_k(s, e, (k - 1) as nat), e)
    }
}

/// One evaporation pass: every strength decayed, trails strictly below the
/// floor removed, order kept.
pub open spec fn evap_seq(ph: Seq<PheromoneTrail>, e: int) -> Seq<PheromoneTrail>
    decreases ph.len(),
{
    if ph.len() == 0 {
        Seq::empty()
    } else {
        let last = ph.last();
        let ns = decay_spec(last.strength as int, e);
        evap_seq(ph.drop_last(), e) + (if ns >= PHEROMONE_FLOOR {
            seq![PheromoneTrail { strength: ns as i64, ..last }]
        } else {
            Seq::empty()
        })
    }
}

/// Bulk eviction: drop the oldest entries until the collection is under the
/// cap again.
pub open spec fn trim_spec(ph: Seq<PheromoneTrail>) -> Seq<PheromoneTrail>
    decreases ph.len(),
{
    if ph.len() > PHEROMONE_CAP {
        trim_spec(ph.subrange(PHEROMONE_EVICT as int, ph.len() as int))
    } else {
        ph
    }
}

/// The candidate landing point of one ant move: the goal direction scaled to
/// 3 units, blended with 0.3 of a uniform noise vector of up to 10 units per
/// axis, normalized, walked for one step length, kept inside the world box.
pub open spec fn ant_candidate_spec(p: Vec3, goal: Vec3, r1: int, r2: int) -> Vec3 {
    let d1 = scale_to_spec(diff(goal, p), 3000);
    let nsx = tdiv((r1 - 500) * 20 * 300, 1000);
    let nsy = tdiv((r2 - 500) * 20 * 300, 1000);
    let blend = Vec3 { x: (d1.x + nsx) as i64, y: (d1.y + nsy) as i64, z: d1.z };
    let md = scale_to_spec(blend, 1000);
    Vec3 {
        x: clamp_spec(p.x + 5 * md.x, WORLD_LIMIT as int) as i64,
        y: clamp_spec(p.y + 5 * md.y, WORLD_LIMIT as int) as i64,
        z: clamp_spec(p.z + 5 * md.z, WORLD_LIMIT as int) as i64,
    }
}

/// What one far-from-goal ant does for the draws `r1`, `r2`: commit the
/// candidate, extend the path and deposit one full-strength trail over the
/// move when the candidate is clear; otherwise stay put and deposit nothing.
pub open spec fn ant_moved(
    q: AntVisual,
    p: AntVisual,
    dep: Option<PheromoneTrail>,
    goal: Vec3,
    obs: Seq<ObstacleVisual>,
    r1: int,
    r2: int,
) -> bool {
    let cand = ant_candidate_spec(p.position, goal, r1, r2);
    if pos_clear_spec(cand, obs) {
        q.position == cand && q.path@ == p.path@.push(cand) && dep == Some(
            PheromoneTrail { from: p.position, to: cand, strength: 1000i64 },
        )
    } else {
        q.position == p.position && q.path@ == p.path@ && dep is None
    }
}

/// One ant's tick: still far from the goal it takes a biased-random step for
/// some pair of draws; arrived, it resets to the start with a fresh path.
/// `dep` is the trail this ant deposited: one full-strength segment over its
/// committed move, nothing for a refused step or a reset.
pub open spec fn ant_transition(
    q: AntVisual,
    p: AntVisual,
    dep: Option<PheromoneTrail>,
    start: Vec3,
    goal: Vec3,
    obs: Seq<ObstacleVisual>,
) -> bool {
    if norm2(diff(p.position, goal)) > ACO_GOAL_THRESHOLD * ACO_GOAL_THRESHOLD {
        exists|r1: int, r2: int|
            0 <= r1 < 1000 && 0 <= r2 < 1000 && ant_moved(q, p, dep, goal, obs, r1, r2)
    } else {
        q.position == start && q.path@ == seq![start] && dep is None
    }
}

/// The trails one tick deposited, in ant order: each ant's deposit if any.
pub open spec fn deps_flatten(deps: Seq<Option<PheromoneTrail>>) -> Seq<PheromoneTrail>
    decreases deps.len(),
{
    if deps.len() == 0 {
        Seq::empty()
    } else {
        deps_flatten(deps.drop_last()) + (match deps.last() {
            Some(t) => seq![t],
            None => Seq::empty(),
        })
    }
}

/// The recorded paths of the ants that arrive at the goal this tick, in
/// index order.
pub open spec fn arrived_paths(ants: Seq<AntVisual>, goal: Vec3) -> Seq<Seq<Vec3>>
    decreases ants.len(),
{
    if ants.len() == 0 {
        Seq::empty()
    } else {
        arrived_paths(ants.drop_last(), goal) + (if norm2(diff(ants.last().position, goal))
            <= ACO_GOAL_THRESHOLD * ACO_GOAL_THRESHOLD {
            seq![ants.last().path@]
        } else {
            Seq::empty()
        })
    }
}

/// The best-path bookkeeping: each arriving path, in order, replaces the
/// running best exactly when it is shorter, or when the best is still the
/// two-point placeholder.
pub open spec fn best_fold(bp: Seq<Vec3>, ps: Seq<Seq<Vec3>>) -> Seq<Vec3>
    decreases ps.len(),
{
    if ps.len() == 0 {
        bp
    } else {
        let prev = best_fold(bp, ps.drop_last());
        if ps.last().len() < prev.len() || prev.len() <= 2 {
            ps.last()
        } else {
            prev
        }
    }
}

/// `deps` witnesses one whole tick of the colony: every ant took its
/// transition with exactly its own deposit, and the pheromone collection is
/// the old one plus those deposits, evaporated once and trimmed.
pub open spec fn aco_tick_with(
    deps: Seq<Option<PheromoneTrail>>,
    fin_ants: Seq<AntVisual>,
    old_ants: Seq<AntVisual>,
    fin_ph: Seq<PheromoneTrail>,
    old_ph: Seq<PheromoneTrail>,
    start: Vec3,
    goal: Vec3,
    obs: Seq<ObstacleVisual>,
    e: int,
) -> bool {
    &&& deps.len() == old_ants.len()
    &&& fin_ants.len() == old_ants.len()
    &&& (forall|i: int|
        0 <= i < old_ants.len() ==> ant_transition(
            #[trigger] fin_ants[i],
            old_ants[i],
            deps[i],
            start,
            goal,
            obs,
        ))
    &&& fin_ph == trim_spec(evap_seq(old_ph + deps_flatten(deps), e))
}

/// Obstacles, endpoints, ants and trails all inside the ranges the update
/// rules are specified over; the start point keeps the safety margin, and so
/// does every ant; every path runs from the start to the ant's position.
pub open spec fn wf_aco(s: ACOVisualState) -> bool {
    &&& in_lim(s.start, WORLD_LIMIT as int)
    &&& in_lim(s.goal, WORLD_LIMIT as int)
    &&& s.obstacles@.len() <= MAX_AGENTS
    &&& forall|k: int|
        0 <= k < s.obstacles@.len() ==> in_lim((#[trigger] s.obstacles@[k]).center, WORLD_LIMIT as int)
            && 0 <= s.obstacles@[k].radius <= MAX_OBSTACLE_RADIUS
    &&& pos_clear_spec(s.start, s.obstacles@)
    &&& s.ants@.len() <= MAX_AGENTS
    &&& forall|i: int|
        0 <= i < s.ants@.len() ==> in_lim((#[trigger] s.ants@[i]).position, WORLD_LIMIT as int)
            && pos_clear_spec(s.ants@[i].position, s.obstacles@) && s.ants@[i].path@.len() >= 1
            && s.ants@[i].path@[0] == s.start && s.ants@[i].path@.last() == s.ants@[i].position
    &&& s.pheromones@.len() <= PHEROMONE_CAP
    &&& forall|k: int| 0 <= k < s.pheromones@.len() ==> 0 < (#[trigger] s.pheromones@[k]).strength
        <= 1000
    &&& 0 <= s.evaporation_rate <= 1000
}

/// Every deposited trail carries full strength, so the flattened batch is a
/// valid pheromone collection no longer than the ant count.
proof fn lemma_deps_flatten_strength(deps: Seq<Option<PheromoneTrail>>)
    requires
        forall|j: int|
            0 <= j < deps.len() ==> ((#[trigger] deps[j]) matches Some(t) ==> t.strength == 1000),
    ensures
        deps_flatten(deps).len() <= deps.len(),
        forall|k: int|
            0 <= k < deps_flatten(deps).len() ==> 0 < (#[trigger] deps_flatten(deps)[k]).strength
                <= 1000,
    decreases deps.len(),
{
    if deps.len() > 0 {
        assert(deps[deps.len() - 1] == deps.last());
        lemma_deps_flatten_strength(deps.drop_last());
    }
}

/// One decayed strength stays in `[floor, 1000]` when kept.
proof fn lemma_evap_seq_props(ph: Seq<PheromoneTrail>, e: int)
    requires
        0 <= e <= 1000,
        forall|k: int| 0 <= k < ph.len() ==> 0 < (#[trigger] ph[k]).strength <= 1000,
    ensures
        evap_seq(ph, e).len() <= ph.len(),
        forall|k: int|
            0 <= k < evap_seq(ph, e).len() ==> PHEROMONE_FLOOR <= (#[trigger] evap_seq(ph, e)[k]).strength
                <= 1000,
    decreases ph.len(),
{
    if ph.len() > 0 {
        lemma_evap_seq_props(ph.drop_last(), e);
        let s = ph.last().strength as int;
        assert(0 <= s * (1000 - e) <= 1_000_000) by (nonlinear_arith)
            requires
                0 < s <= 1000,
                0 <= e <= 1000,
        ;
    }
}

/// Check that a landing point keeps the margin from every obstacle.
fn position_clear(p: Vec3, obstacles: &Vec<ObstacleVisual>) -> (b: bool)
    requires
        in_lim(p, WORLD_LIMIT as int),
        forall|k: int|
            0 <= k < obstacles@.len() ==> in_lim(
                (#[trigger] obstacles@[k]).center,
                WORLD_LIMIT as int,
            ) && 0 <= obstacles@[k].radius <= MAX_OBSTACLE_RADIUS,
    ensures
        b == pos_clear_spec(p, obstacles@),
{
    let n = obstacles.len();
    let mut k: usize = 0;
    while k < n
        invariant
            0 <= k <= n,
            n == obstacles@.len(),
            in_lim(p, WORLD_LIMIT as int),
            forall|j: int|
                0 <= j < n ==> in_lim((#[trigger] obstacles@[j]).center, WORLD_LIMIT as int) && 0
                    <= obstacles@[j].radius <= MAX_OBSTACLE_RADIUS,
            forall|j: int|
                0 <= j < k ==> norm2(diff(p, (#[trigger] obstacles@[j]).center)) >= (obstacles@[j].radius
                    + ACO_MARGIN) * (obstacles@[j].radius + ACO_MARGIN),
        decreases n - k,
    {
        let ob = obstacles[k];
        let r5: i64 = ob.radius + ACO_MARGIN;
        proof {
            lemma_mul_le(r5 as int, r5 as int, 1_005_000, 1_005_000);
        }
        let rr: u64 = (r5 as u64) * (r5 as u64);
        let d2: u64 = dist2_u64(p, ob.center);
        if d2 < rr {
            return false;
        }
        k = k + 1;
    }
    true
}

/// Compute one move candidate, exact against `ant_candidate_spec`.
fn ant_candidate(p: Vec3, goal: Vec3, r1: i64, r2: i64) -> (c: Vec3)
    requires
        in_lim(p, WORLD_LIMIT as int),
        in_lim(goal, WORLD_LIMIT as int),
        0 <= r1 < 1000,
        0 <= r2 < 1000,
    ensures
        c == ant_candidate_spec(p, goal, r1 as int, r2 as int),
        in_lim(c, WORLD_LIMIT as int),
{
    let dir = crate::geom::vsub(goal, p);
    let d1 = scale_to(dir, 3000);
    let n1: i64 = mul_div((r1 - 500) * 20, 300, 1000);
    let n2: i64 = mul_div((r2 - 500) * 20, 300, 1000);
    let blend = Vec3 { x: d1.x + n1, y: d1.y + n2, z: d1.z };
    let md = scale_to(blend, 1000);
    Vec3 {
        x: clamp_coord(p.x + 5 * md.x, WORLD_LIMIT),
        y: clamp_coord(p.y + 5 * md.y, WORLD_LIMIT),
        z: clamp_coord(p.z + 5 * md.z, WORLD_LIMIT),
    }
}

/// Copy a path of points.
fn copy_path(v: &Vec<Vec3>) -> (r: Vec<Vec3>)
    ensures
        r@ == v@,
{
    let mut r: Vec<Vec3> = Vec::new();
    let n = v.len();
    let mut i: usize = 0;
    while i < n
        invariant
            0 <= i <= n,
            n == v@.len(),
            r@ == v@.take(i as int),
        decreases n - i,
    {
        r.push(v[i]);
        proof {
            assert(r@ =~= v@.take(i + 1));
        }
        i = i + 1;
    }
    proof {
        assert(v@.take(n as int) =~= v@);
    }
    r
}

impl ACOVisualState {
    /// The demo scenario: twenty ants at the south-west start, a goal in the
    /// north-east, three obstacles in between, a placeholder best path.
    pub fn new() -> (r: Self)
        ensures
            wf_aco(r),
            r.ants@.len() == 20,
            r.pheromones@.len() == 0,
            r.iteration == 0,
            r.evaporation_rate == 100,
            r.alpha == 1000,
            r.beta == 2000,
            r.start == (Vec3 { x: -80_000i64, y: -60_000i64, z: 0i64 }),
            r.goal == (Vec3 { x: 80_000i64, y: 60_000i64, z: 0i64 }),
            r.obstacles@.len() == 3,
            r.obstacles@[0] == (ObstacleVisual {
                center: Vec3 { x: 0i64, y: 0i64, z: 0i64 },
                radius: 25_000i64,
            }),
            r.obstacles@[1] == (ObstacleVisual {
                center: Vec3 { x: -40_000i64, y: 30_000i64, z: 0i64 },
                radius: 15_000i64,
            }),
            r.obstacles@[2] == (ObstacleVisual {
                center: Vec3 { x: 40_000i64, y: -20_000i64, z: 0i64 },
                radius: 20_000i64,
            }),
            r.best_path@ == seq![r.start, r.goal],
            forall|i: int|
                0 <= i < 20 ==> (#[trigger] r.ants@[i]).position == r.start
                    && r.ants@[i].path@ == seq![r.start],
    {
        let start = Vec3 { x: -80_000, y: -60_000, z: 0 };
        let goal = Vec3 { x: 80_000, y: 60_000, z: 0 };

        let mut obstacles: Vec<ObstacleVisual> = Vec::new();
        obstacles.push(ObstacleVisual { center: Vec3 { x: 0, y: 0, z: 0 }, radius: 25_000 });
        obstacles.push(
            ObstacleVisual { center: Vec3 { x: -40_000, y: 30_000, z: 0 }, radius: 15_000 },
        );
        obstacles.push(
            ObstacleVisual { center: Vec3 { x: 40_000, y: -20_000, z: 0 }, radius: 20_000 },
        );

        let mut ants: Vec<AntVisual> = Vec::new();
        let mut i: usize = 0;
        while i < 20
            invariant
                0 <= i <= 20,
                ants@.len() == i,
                forall|j: int|
                    0 <= j < i ==> (#[trigger] ants@[j]).position == start && ants@[j].path@
                        == seq![start],
            decreases 20 - i,
        {
            let mut path: Vec<Vec3> = Vec::new();
            path.push(start);
            ants.push(AntVisual { position: start, path });
            i = i + 1;
        }

        let mut best_path: Vec<Vec3> = Vec::new();
        best_path.push(start);
        best_path.push(goal);

        let r = ACOVisualState {
            ants,
            pheromones: Vec::new(),
            best_path,
            obstacles,
            start,
            goal,
            iteration: 0,
            evaporation_rate: 100,
            alpha: 1000,
            beta: 2000,
        };
        proof {
            assert forall|k: int| 0 <= k < r.obstacles@.len() implies norm2(
                diff(start, (#[trigger] r.obstacles@[k]).center),
            ) >= (r.obstacles@[k].radius + ACO_MARGIN) * (r.obstacles@[k].radius + ACO_MARGIN) by {
                assert(r.obstacles@[0] == (ObstacleVisual {
                    center: Vec3 { x: 0i64, y: 0i64, z: 0i64 },
                    radius: 25_000i64,
                }));
                assert(r.obstacles@[1] == (ObstacleVisual {
                    center: Vec3 { x: -40_000i64, y: 30_000i64, z: 0i64 },
                    radius: 15_000i64,
                }));
                assert(r.obstacles@[2] == (ObstacleVisual {
                    center: Vec3 { x: 40_000i64, y: -20_000i64, z: 0i64 },
                    radius: 20_000i64,
                }));
                assert((-80000int) * (-80000) + (-60000int) * (-60000) + 0int * 0 >= 30000int
                    * 30000) by (nonlinear_arith);
                assert((-40000int) * (-40000) + (-90000int) * (-90000) + 0int * 0 >= 20000int
                    * 20000) by (nonlinear_arith);
                assert((-120000int) * (-120000) + (-40000int) * (-40000) + 0int * 0 >= 25000int
                    * 25000) by (nonlinear_arith);
            }
            assert(pos_clear_spec(r.start, r.obstacles@));
            assert forall|i: int| 0 <= i < r.ants@.len() implies pos_clear_spec(
                (#[trigger] r.ants@[i]).position,
                r.obstacles@,
            ) by {
                assert(r.ants@[i].position == start);
            }
        }
        r
    }

    /// One tick: every far ant takes one biased-random step, refused when it
    /// would land within an obstacle's margin; committed moves deposit a
    /// full-strength trail; arrived ants record a better path and reset.
    /// Then every trail decays, trails strictly below the floor are removed,
    /// and the oldest entries are evicted in bulk while the collection
    /// exceeds its cap.
    ///
    /// No ant ever ends a tick inside any obstacle's safety margin.
    pub fn step(&mut self)
        requires
            wf_aco(*old(self)),
            old(self).iteration < usize::MAX,
        ensures
            wf_aco(*final(self)),
            final(self).iteration == old(self).iteration + 1,
            final(self).ants@.len() == old(self).ants@.len(),
            final(self).obstacles == old(self).obstacles,
            final(self).start == old(self).start,
            final(self).goal == old(self).goal,
            final(self).evaporation_rate == old(self).evaporation_rate,
            final(self).alpha == old(self).alpha,
            final(self).beta == old(self).beta,
            forall|i: int|
                0 <= i < final(self).ants@.len() ==> pos_clear_spec(
                    (#[trigger] final(self).ants@[i]).position,
                    final(self).obstacles@,
                ),
            exists|deps: Seq<Option<PheromoneTrail>>|
                #[trigger] aco_tick_with(
                    deps,
                    final(self).ants@,
                    old(self).ants@,
                    final(self).pheromones@,
                    old(self).pheromones@,
                    old(self).start,
                    old(self).goal,
                    old(self).obstacles@,
                    old(self).evaporation_rate as int,
                ),
            final(self).best_path@ == best_fold(
                old(self).best_path@,
                arrived_paths(old(self).ants@, old(self).goal),
            ),
            final(self).best_path@ == old(self).best_path@ || (final(self).best_path@.len() >= 1
                && final(self).best_path@[0] == old(self).start && norm2(
                diff(final(self).best_path@.last(), old(self).goal),
            ) <= ACO_GOAL_THRESHOLD * ACO_GOAL_THRESHOLD),
    {
        let ghost old_ph = self.pheromones@;
        let ghost old_ants = self.ants@;
        let ghost old_bp = self.best_path@;
        self.iteration = self.iteration + 1;
        let n = self.ants.len();
        let ghost goal_g = self.goal;
        let ghost mut deps: Seq<Option<PheromoneTrail>> = Seq::empty();

        let mut i: usize = 0;
        while i < n
            invariant
                0 <= i <= n,
                n == self.ants@.len() == old_ants.len(),
                self.obstacles@ == old(self).obstacles@,
                self.obstacles == old(self).obstacles,
                self.start == old(self).start,
                self.goal == old(self).goal,
                self.evaporation_rate == old(self).evaporation_rate,
                self.alpha == old(self).alpha,
                self.beta == old(self).beta,
                self.iteration == old(self).iteration + 1,
                wf_aco(*old(self)),
                old_ants == old(self).ants@,
                old_ph == old(self).pheromones@,
                old_bp == old(self).best_path@,
                forall|j: int| i <= j < n ==> #[trigger] self.ants@[j] == old_ants[j],
                deps.len() == i,
                forall|j: int|
                    0 <= j < i ==> ((#[trigger] deps[j]) matches Some(t) ==> t.strength == 1000),
                forall|j: int|
                    0 <= j < i ==> ant_transition(
                        #[trigger] self.ants@[j],
                        old_ants[j],
                        deps[j],
                        old(self).start,
                        old(self).goal,
                        old(self).obstacles@,
                    ),
                forall|j: int|
                    0 <= j < i ==> pos_clear_spec(
                        (#[trigger] self.ants@[j]).position,
                        old(self).obstacles@,
                    ) && in_lim(self.ants@[j].position, WORLD_LIMIT as int)
                        && self.ants@[j].path@.len() >= 1 && self.ants@[j].path@[0] == old(
                        self,
                    ).start && self.ants@[j].path@.last() == self.ants@[j].position,
                self.pheromones@ == old_ph + deps_flatten(deps),
                self.best_path@ == best_fold(old_bp, arrived_paths(old_ants.take(i as int), goal_g)),
                goal_g == old(self).goal,
                self.best_path@ == old_bp || (self.best_path@.len() >= 1 && self.best_path@[0]
                    == old(self).start && norm2(diff(self.best_path@.last(), old(self).goal))
                    <= ACO_GOAL_THRESHOLD * ACO_GOAL_THRESHOLD),
            decreases n - i,
        {
            let ppos = self.ants[i].position;
            let d2g: u64 = dist2_u64(ppos, self.goal);
            proof {
                assert(old_ants.take(i + 1).drop_last() =~= old_ants.take(i as int));
                assert(old_ants.take(i + 1).last() == old_ants[i as int]);
            }
            if d2g > (ACO_GOAL_THRESHOLD as u64) * (ACO_GOAL_THRESHOLD as u64) {
                let r1: i64 = rand_milli();
                let r2: i64 = rand_milli();
                let cand = ant_candidate(ppos, self.goal, r1, r2);
                if position_clear(cand, &self.obstacles) {
                    let ghost trail = PheromoneTrail { from: ppos, to: cand, strength: 1000i64 };
                    self.pheromones.push(
                        PheromoneTrail { from: ppos, to: cand, strength: 1000 },
                    );
                    proof {
                        let deps0 = deps;
                        deps = deps.push(Some(trail));
                        assert(deps.drop_last() =~= deps0);
                        assert(deps.last() == Some(trail));
                        assert(deps_flatten(deps) =~= deps_flatten(deps0) + seq![trail]);
                        assert(self.pheromones@ =~= old_ph + deps_flatten(deps));
                        assert(arrived_paths(old_ants.take(i + 1), goal_g) =~= arrived_paths(
                            old_ants.take(i as int),
                            goal_g,
                        ));
                    }
                    self.ants[i].position = cand;
                    self.ants[i].path.push(cand);
                    proof {
                        assert(ant_moved(
                            self.ants@[i as int],
                            old_ants[i as int],
                            Some(trail),
                            old(self).goal,
                            old(self).obstacles@,
                            r1 as int,
                            r2 as int,
                        ));
                    }
                } else {
                    proof {
                        let deps0 = deps;
                        deps = deps.push(None);
                        assert(deps.drop_last() =~= deps0);
                        assert(deps.last() == None::<PheromoneTrail>);
                        assert(deps_flatten(deps) =~= deps_flatten(deps0));
                        assert(self.pheromones@ =~= old_ph + deps_flatten(deps));
                        assert(arrived_paths(old_ants.take(i + 1), goal_g) =~= arrived_paths(
                            old_ants.take(i as int),
                            goal_g,
                        ));
                        assert(ant_moved(
                            self.ants@[i as int],
                            old_ants[i as int],
                            None,
                            old(self).goal,
                            old(self).obstacles@,
                            r1 as int,
                            r2 as int,
                        ));
                    }
                }
            } else {
                // Arrived: record a better path, then reset to the start.
                proof {
                    let ps1 = arrived_paths(old_ants.take(i + 1), goal_g);
                    assert(ps1 =~= arrived_paths(old_ants.take(i as int), goal_g) + seq![
                        old_ants[i as int].path@,
                    ]);
                    assert(ps1.drop_last() =~= arrived_paths(old_ants.take(i as int), goal_g));
                    assert(ps1.len() >= 1 && ps1.last() == old_ants[i as int].path@);
                    assert(self.ants@[i as int].path@ == old_ants[i as int].path@);
                }
                if self.ants[i].path.len() < self.best_path.len() || self.best_path.len() <= 2 {
                    self.best_path = copy_path(&self.ants[i].path);
                }
                let mut fresh: Vec<Vec3> = Vec::new();
                fresh.push(self.start);
                self.ants[i].position = self.start;
                self.ants[i].path = fresh;
                proof {
                    let deps0 = deps;
                    deps = deps.push(None);
                    assert(deps.drop_last() =~= deps0);
                    assert(deps.last() == None::<PheromoneTrail>);
                    assert(deps_flatten(deps) =~= deps_flatten(deps0));
                    assert(self.pheromones@ =~= old_ph + deps_flatten(deps));
                }
            }
            i = i + 1;
        }

        proof {
            assert(old_ants.take(n as int) =~= old_ants);
            lemma_deps_flatten_strength(deps);
            assert forall|k: int| 0 <= k < self.pheromones@.len() implies 0 < (
            #[trigger] self.pheromones@[k]).strength <= 1000 by {
                if k < old_ph.len() {
                    assert(self.pheromones@[k] == old_ph[k]);
                } else {
                    assert(self.pheromones@[k] == deps_flatten(deps)[k - old_ph.len()]);
                }
            }
        }

        // Evaporation: decay every trail, drop trails strictly below the floor.
        let ghost ph2 = self.pheromones@;
        let e = self.evaporation_rate;
        let m = self.pheromones.len();
        let mut kept: Vec<PheromoneTrail> = Vec::new();
        let mut j: usize = 0;
        while j < m
            invariant
                0 <= j <= m,
                m == ph2.len() == self.pheromones@.len(),
                self.pheromones@ == ph2,
                0 <= e <= 1000,
                forall|k: int| 0 <= k < m ==> 0 < (#[trigger] ph2[k]).strength <= 1000,
                kept@ == evap_seq(ph2.take(j as int), e as int),
            decreases m - j,
        {
            let t = self.pheromones[j];
            let ns: i64 = mul_div(t.strength, 1000 - e, 1000);
            if ns >= PHEROMONE_FLOOR {
                kept.push(PheromoneTrail { from: t.from, to: t.to, strength: ns });
            }
            proof {
                assert(ph2.take(j + 1).drop_last() =~= ph2.take(j as int));
                assert(ph2.take(j + 1).last() == ph2[j as int]);
                assert(kept@ =~= evap_seq(ph2.take(j + 1), e as int));
            }
            j = j + 1;
        }
        proof {
            assert(ph2.take(m as int) =~= ph2);
            lemma_evap_seq_props(ph2, e as int);
        }

        // Bulk eviction of the oldest trails while over the cap.
        let ghost ph3 = kept@;
        while kept.len() > PHEROMONE_CAP
            invariant
                trim_spec(kept@) == trim_spec(ph3),
                forall|k: int|
                    0 <= k < kept@.len() ==> PHEROMONE_FLOOR <= (#[trigger] kept@[k]).strength
                        <= 1000,
            decreases kept@.len(),
        {
            let ghost pre = kept@;
            let mut k: usize = 0;
            while k < PHEROMONE_EVICT
                invariant
                    0 <= k <= PHEROMONE_EVICT,
                    pre.len() > PHEROMONE_CAP,
                    kept@ == pre.subrange(k as int, pre.len() as int),
                decreases PHEROMONE_EVICT - k,
            {
                kept.remove(0);
                proof {
                    assert(kept@ =~= pre.subrange(k + 1, pre.len() as int));
                }
                k = k + 1;
            }
        }
        self.pheromones = kept;
        proof {
            assert(trim_spec(self.pheromones@) == self.pheromones@);
            assert(self.pheromones@ == trim_spec(
                evap_seq(old_ph + deps_flatten(deps), e as int),
            ));
            assert(aco_tick_with(
                deps,
                self.ants@,
                old(self).ants@,
                self.pheromones@,
                old(self).pheromones@,
                old(self).start,
                old(self).goal,
                old(self).obstacles@,
                old(self).evaporation_rate as int,
            ));
        }
    }
}

/// A power of a non-negative base is non-negative.
proof fn lemma_pow_nonneg(b: int, e: nat)
    requires
        0 <= b,
    ensures
        0 <= pow(b, e),
    decreases e,
{
    reveal(pow);
    if e > 0 {
        lemma_pow_nonneg(b, (e - 1) as nat);
        assert(0 <= b * pow(b, (e - 1) as nat)) by (nonlinear_arith)
            requires
                0 <= b,
                0 <= pow(b, (e - 1) as nat),
        ;
    }
}

/// Law (evaporation schedule): iterating the decay never exceeds the exact
/// real-valued power law `s * (1 - e/1000)^k`, scaled to integers:
/// `1000^k * decay_k(s, e, k) <= s * (1000 - e)^k`, and each tick's strength
/// never grows.
pub proof fn lemma_decay_schedule(s: int, e: int, k: nat)
    requires
        0 <= s,
        0 <= e <= 1000,
    ensures
        0 <= decay_k(s, e, k),
        decay_k(s, e, (k + 1) as nat) == decay_spec(decay_k(s, e, k), e),
        decay_k(s, e, (k + 1) as nat) <= decay_k(s, e, k),
        pow(1000, k) * decay_k(s, e, k) <= s * pow(1000 - e, k),
    decreases k,
{
    reveal(pow);
    if k == 0 {
        assert(pow(1000, 0) == 1 && pow(1000 - e, 0) == 1) by {
            vstd::arithmetic::power::lemma_pow0(1000);
            vstd::arithmetic::power::lemma_pow0(1000 - e);
        }
        let d1 = decay_spec(s, e);
        assert(0 <= d1 <= s) by (nonlinear_arith)
            requires
                0 <= s,
                0 <= e <= 1000,
                d1 == (s * (1000 - e)) / 1000,
        ;
    } else {
        lemma_decay_schedule(s, e, (k - 1) as nat);
        let dk = decay_k(s, e, k);
        let dk1 = decay_k(s, e, (k - 1) as nat);
        assert(0 <= dk <= dk1) by (nonlinear_arith)
            requires
                0 <= dk1,
                0 <= e <= 1000,
                dk == (dk1 * (1000 - e)) / 1000,
        ;
        let d1 = decay_spec(dk, e);
        assert(0 <= d1 <= dk) by (nonlinear_arith)
            requires
                0 <= dk,
                0 <= e <= 1000,
                d1 == (dk * (1000 - e)) / 1000,
        ;
        vstd::arithmetic::power::lemma_pow_positive(1000, k);
        lemma_pow_nonneg(1000 - e, (k - 1) as nat);
        assert(pow(1000, k) == 1000 * pow(1000, (k - 1) as nat));
        assert(pow(1000 - e, k) == (1000 - e) * pow(1000 - e, (k - 1) as nat));
        assert(pow(1000, k) * dk <= s * pow(1000 - e, k)) by (nonlinear_arith)
            requires
                dk == (dk1 * (1000 - e)) / 1000,
                0 <= dk1,
                0 <= e <= 1000,
                pow(1000, k) == 1000 * pow(1000, (k - 1) as nat),
                pow(1000 - e, k) == (1000 - e) * pow(1000 - e, (k - 1) as nat),
                pow(1000, (k - 1) as nat) * dk1 <= s * pow(1000 - e, (k - 1) as nat),
                pow(1000, (k - 1) as nat) >= 1,
                pow(1000 - e, (k - 1) as nat) >= 0,
        ;
    }
}

} // verus!
