//! The tick orchestrator: owns the drone swarm, the three optimizer engines,
//! the network snapshot and the demo sequencer. Each tick it freezes the
//! formation center and every drone's target from the previous tick's state,
//! moves every drone toward its slot, rebuilds the network topology, and
//! advances the active optimizer.

use vstd::prelude::*;

use crate::aco::{wf_aco, ACOVisualState};
use crate::demo::{demo_transition, DemoAction, DemoMode};
use crate::formation::{target_at, target_spec, wf_params, FormationParams, FormationType};
use crate::geom::{
    clamp_coord, clamp_spec, diff, dist2_u64, div_trunc, in_lim, isqrt64, isqrt_spec, norm2,
    scale_to, scale_to_spec, tdiv, Vec3,
};
use crate::gwo::{wf_gwo, GWOVisualState};
use crate::metrics::{center_spec, compute_metrics, SwarmMetrics};
use crate::pso::{wf_pso, PSOVisualState};
use crate::rng::rand_milli;
use crate::topology::{build_topology, topology_ok, NetworkTopology, COMM_RANGE};
use crate::{MAX_AGENTS, WORLD_LIMIT};

verus! {

/// Largest accepted simulation speed (10 units per tick).
pub const MAX_SIM_SPEED: i64 = 10_000;

/// A drone closer than this to its slot stops moving (1 unit).
pub const DRONE_NEAR: i64 = 1_000;

/// Most trail points kept per drone.
pub const TRAIL_CAP: usize = 50;

/// A drone's health as the presentation layer reads it.
#[derive(Clone, Copy, Debug, PartialEq, Eq, Structural)]
pub enum DroneStatus {
    Idle,
    Active,
    Returning,
    Emergency,
    Failed,
}

/// One drone of the formation swarm.
#[derive(Clone, Debug)]
pub struct DroneVisual {
    pub id: u64,
    pub position: Vec3,
    pub target_position: Vec3,
    pub altitude: i64,
    pub velocity: Vec3,
    pub battery: u8,
    pub status: DroneStatus,
    pub trail: Vec<Vec3>,
}

/// Which optimizer the orchestrator advances each tick.
#[derive(Clone, Copy, Debug, PartialEq, Eq, Structural)]
pub enum AlgorithmType {
    PSO,
    ACO,
    GWO,
}

/// Camera and overlay switches for a presentation layer.
#[derive(Clone, Debug)]
pub struct ViewportState {
    pub center: Vec3,
    pub zoom: i64,
    pub show_grid: bool,
    pub show_trails: bool,
    pub show_velocities: bool,
}

impl Default for ViewportState {
    /// Centered view at double zoom with every overlay on.
    fn default() -> (r: Self)
        ensures
            r.center == (Vec3 { x: 0i64, y: 0i64, z: 0i64 }),
            r.zoom == 2000,
            r.show_grid,
            r.show_trails,
            r.show_velocities,
    {
        ViewportState {
            center: Vec3 { x: 0, y: 0, z: 0 },
            zoom: 2000,
            show_grid: true,
            show_trails: true,
            show_velocities: true,
        }
    }
}

/// The whole simulation state.
pub struct SimulationState {
    pub drones: Vec<DroneVisual>,
    pub formation: FormationType,
    pub formation_params: FormationParams,
    pub pso_state: Option<PSOVisualState>,
    pub aco_state: Option<ACOVisualState>,
    pub gwo_state: Option<GWOVisualState>,
    pub active_algorithm: AlgorithmType,
    pub network: NetworkTopology,
    pub is_running: bool,
    pub simulation_speed: i64,
    pub time_step: u64,
    pub viewport: ViewportState,
    pub selected_drone: Option<u64>,
    pub demo_mode: Option<DemoMode>,
}

/// The positions of a drone sequence, in order.
pub open spec fn drone_positions(ds: Seq<DroneVisual>) -> Seq<Vec3> {
    ds.map_values(|d: DroneVisual| d.position)
}

/// The velocities of a drone sequence, in order.
pub open spec fn drone_velocities(ds: Seq<DroneVisual>) -> Seq<Vec3> {
    ds.map_values(|d: DroneVisual| d.velocity)
}

/// The assigned targets of a drone sequence, in order.
pub open spec fn drone_targets(ds: Seq<DroneVisual>) -> Seq<Vec3> {
    ds.map_values(|d: DroneVisual| d.target_position)
}

/// How a drone's bounded trail grows: append, then drop the oldest point
/// once the cap is exceeded.
pub open spec fn trail_push(h: Seq<Vec3>, p: Vec3) -> Seq<Vec3> {
    let h2 = h.push(p);
    if h2.len() > TRAIL_CAP {
        h2.subrange(1, h2.len() as int)
    } else {
        h2
    }
}

/// The formation pattern a showcase index selects.
pub open spec fn formation_of_index(idx: int) -> FormationType {
    if idx == 0 {
        FormationType::Circle
    } else if idx == 1 {
        FormationType::Grid
    } else if idx == 2 {
        FormationType::VFormation
    } else if idx == 3 {
        FormationType::Line
    } else {
        FormationType::Random
    }
}

/// Every drone of a fresh spawn: identity by index, parked on its slot with
/// zero velocity, a charged battery, active status and an empty trail.
pub open spec fn spawned_fresh(ds: Seq<DroneVisual>) -> bool {
    forall|i: int|
        0 <= i < ds.len() ==> {
            let d = #[trigger] ds[i];
            d.id == i && d.target_position == d.position && d.velocity == (Vec3 {
                x: 0i64,
                y: 0i64,
                z: 0i64,
            }) && 80 <= d.battery < 100 && d.status == DroneStatus::Active && d.trail@.len() == 0
                && 10_000 <= d.altitude < 15_000
        }
}

/// The formation slot a drone is sent to this tick: the pattern's target
/// point, kept inside the world box.
pub open spec fn assigned_target(
    pattern: FormationType,
    i: int,
    n: int,
    center: Vec3,
    p: FormationParams,
) -> Vec3 {
    let t = target_spec(pattern, i, n, center, p);
    Vec3 {
        x: clamp_spec(t.0, WORLD_LIMIT as int) as i64,
        y: clamp_spec(t.1, WORLD_LIMIT as int) as i64,
        z: clamp_spec(t.2, WORLD_LIMIT as int) as i64,
    }
}

/// One drone's deterministic tick: record the trail point, adopt the target,
/// move toward it at `min(2 * sim_speed, distance)` scaled by a tenth (or
/// stop when within one unit), drain the battery every hundredth tick, and
/// refresh the status from the battery level.
pub open spec fn drone_stepped(
    q: DroneVisual,
    p: DroneVisual,
    target: Vec3,
    sim_speed: int,
    time_step: int,
    show_trails: bool,
) -> bool {
    let dir = diff(target, p.position);
    let dist = isqrt_spec(norm2(dir));
    let speed = if 2 * sim_speed < dist {
        2 * sim_speed
    } else {
        dist
    };
    let far = norm2(dir) > DRONE_NEAR * DRONE_NEAR;
    let v = if far {
        scale_to_spec(dir, speed)
    } else {
        Vec3 { x: 0i64, y: 0i64, z: 0i64 }
    };
    let battery = if time_step % 100 == 0 && p.battery > 0 {
        (p.battery - 1) as u8
    } else {
        p.battery
    };
    &&& q.id == p.id
    &&& q.altitude == p.altitude
    &&& q.target_position == target
    &&& q.velocity == v
    &&& q.position == (Vec3 {
        x: clamp_spec(p.position.x + tdiv(v.x as int, 10), WORLD_LIMIT as int) as i64,
        y: clamp_spec(p.position.y + tdiv(v.y as int, 10), WORLD_LIMIT as int) as i64,
        z: clamp_spec(p.position.z + tdiv(v.z as int, 10), WORLD_LIMIT as int) as i64,
    })
    &&& q.battery == battery
    &&& q.status == (if battery < 20 {
        DroneStatus::Returning
    } else if battery < 10 {
        DroneStatus::Emergency
    } else {
        DroneStatus::Active
    })
    &&& q.trail@ == (if show_trails {
        trail_push(p.trail@, p.position)
    } else {
        p.trail@
    })
}

/// The orchestrator's invariant: every drone inside the world box with a
/// capped velocity and trail, parameters and speed in range, each engine
/// well-formed, the sequencer's counters in range, and the network snapshot
/// consistent with the current positions.
pub open spec fn wf_sim(s: SimulationState) -> bool {
    &&& s.drones@.len() <= MAX_AGENTS
    &&& forall|i: int|
        0 <= i < s.drones@.len() ==> {
            let d = #[trigger] s.drones@[i];
            in_lim(d.position, WORLD_LIMIT as int) && in_lim(d.target_position, WORLD_LIMIT as int)
                && in_lim(d.velocity, 2 * MAX_SIM_SPEED as int) && d.trail@.len() <= TRAIL_CAP
        }
    &&& wf_params(s.formation_params)
    &&& 0 <= s.simulation_speed <= MAX_SIM_SPEED
    &&& (s.pso_state matches Some(p) ==> wf_pso(p))
    &&& (s.aco_state matches Some(a) ==> wf_aco(a))
    &&& (s.gwo_state matches Some(g) ==> wf_gwo(g))
    &&& (s.demo_mode matches Some(d) ==> d.step <= 1000 && d.formation_index < 5)
    &&& topology_ok(s.network, drone_positions(s.drones@), COMM_RANGE as int)
}

/// Every counter that one more tick increments still has room.
pub open spec fn can_step_spec(s: SimulationState) -> bool {
    &&& s.time_step < u64::MAX
    &&& (s.pso_state matches Some(p) ==> p.iteration < u32::MAX)
    &&& (s.aco_state matches Some(a) ==> a.iteration < usize::MAX)
    &&& (s.gwo_state matches Some(g) ==> g.iteration < usize::MAX)
}

/// Apply one deterministic drone tick in place, exact against
/// `drone_stepped`.
fn drone_tick(d: &mut DroneVisual, target: Vec3, sim_speed: i64, time_step: u64, show_trails: bool)
    requires
        in_lim(old(d).position, WORLD_LIMIT as int),
        in_lim(target, WORLD_LIMIT as int),
        old(d).trail@.len() <= TRAIL_CAP,
        0 <= sim_speed <= MAX_SIM_SPEED,
    ensures
        drone_stepped(*final(d), *old(d), target, sim_speed as int, time_step as int, show_trails),
        in_lim(final(d).position, WORLD_LIMIT as int),
        in_lim(final(d).target_position, WORLD_LIMIT as int),
        in_lim(final(d).velocity, 2 * MAX_SIM_SPEED as int),
        final(d).trail@.len() <= TRAIL_CAP,
        norm2(final(d).velocity) <= (2 * sim_speed) * (2 * sim_speed),
        final(d).id == old(d).id,
{
    let p_pos = d.position;
    if show_trails {
        d.trail.push(p_pos);
        if d.trail.len() > TRAIL_CAP {
            d.trail.remove(0);
            proof {
                assert(d.trail@ =~= trail_push(old(d).trail@, old(d).position));
            }
        }
    }
    d.target_position = target;

    let d2: u64 = dist2_u64(target, p_pos);
    proof {
        assert(DRONE_NEAR * DRONE_NEAR == 1_000_000) by (nonlinear_arith);
    }
    if d2 > 1_000_000u64 {
        let dist: i64 = isqrt64(d2) as i64;
        let speed: i64 = if 2 * sim_speed < dist {
            2 * sim_speed
        } else {
            dist
        };
        let dir = Vec3 { x: target.x - p_pos.x, y: target.y - p_pos.y, z: target.z - p_pos.z };
        let v = scale_to(dir, speed);
        proof {
            crate::geom::lemma_sq_abs_le(speed as int, 2 * sim_speed as int);
        }
        d.velocity = v;
        d.position = Vec3 {
            x: clamp_coord(p_pos.x + div_trunc(v.x, 10), WORLD_LIMIT),
            y: clamp_coord(p_pos.y + div_trunc(v.y, 10), WORLD_LIMIT),
            z: clamp_coord(p_pos.z + div_trunc(v.z, 10), WORLD_LIMIT),
        };
    } else {
        d.velocity = Vec3 { x: 0, y: 0, z: 0 };
        d.position = Vec3 {
            x: clamp_coord(p_pos.x, WORLD_LIMIT),
            y: clamp_coord(p_pos.y, WORLD_LIMIT),
            z: clamp_coord(p_pos.z, WORLD_LIMIT),
        };
        proof {
            crate::geom::lemma_square_nonneg(2 * sim_speed);
        }
    }

    let bat = d.battery;
    if time_step % 100 == 0 && bat > 0 {
        d.battery = bat - 1;
    }
    let bat2 = d.battery;
    d.status = if bat2 < 20 {
        DroneStatus::Returning
    } else if bat2 < 10 {
        DroneStatus::Emergency
    } else {
        DroneStatus::Active
    };
}

impl SimulationState {
    /// Whether one more tick can be taken without exhausting a counter.
    pub fn can_step(&self) -> (r: bool)
        ensures
            r == can_step_spec(*self),
    {
        self.time_step < u64::MAX && (match &self.pso_state {
            Some(p) => p.iteration < u32::MAX,
            None => true,
        }) && (match &self.aco_state {
            Some(a) => a.iteration < usize::MAX,
            None => true,
        }) && (match &self.gwo_state {
            Some(g) => g.iteration < usize::MAX,
            None => true,
        })
    }

    /// A fresh simulation: ten drones in a circle, all three engines ready,
    /// PSO active, paused, at normal speed.
    pub fn new() -> (r: Self)
        ensures
            wf_sim(r),
            r.drones@.len() == 10,
            r.formation == FormationType::Circle,
            r.active_algorithm == AlgorithmType::PSO,
            !r.is_running,
            r.simulation_speed == 1000,
            r.time_step == 0,
            r.selected_drone is None,
            r.demo_mode is None,
            r.pso_state is Some,
            r.aco_state is Some,
            r.gwo_state is Some,
            r.formation_params == (FormationParams {
                drone_count: 10usize,
                grid_spacing: 30000i64,
                circle_radius: 60000i64,
                line_spacing: 25000i64,
                v_spacing: 20000i64,
            }),
            (r.pso_state matches Some(p) ==> p.particles@.len() == 30 && p.iteration == 0
                && p.gbest_cost == i64::MAX && p.cost_history@.len() == 0),
            (r.aco_state matches Some(a) ==> a.ants@.len() == 20 && a.iteration == 0
                && a.pheromones@.len() == 0),
            (r.gwo_state matches Some(g) ==> g.wolves@.len() == 20 && g.iteration == 0
                && g.convergence_param == 2000 && g.fitness_history@.len() == 0),
            spawned_fresh(r.drones@),
            forall|i: int|
                0 <= i < 10 ==> (#[trigger] r.drones@[i]).position == assigned_target(
                    FormationType::Circle,
                    i,
                    10,
                    Vec3 { x: 0i64, y: 0i64, z: 0i64 },
                    r.formation_params,
                ),
    {
        let mut state = SimulationState {
            drones: Vec::new(),
            formation: FormationType::Circle,
            formation_params: Default::default(),
            pso_state: Some(PSOVisualState::new(30)),
            aco_state: Some(ACOVisualState::new()),
            gwo_state: Some(GWOVisualState::new(20)),
            active_algorithm: AlgorithmType::PSO,
            network: NetworkTopology::new(),
            is_running: false,
            simulation_speed: 1000,
            time_step: 0,
            viewport: Default::default(),
            selected_drone: None,
            demo_mode: None,
        };
        state.spawn_drones(10);
        state
    }

    /// Start the scripted demo and unpause.
    pub fn start_demo(&mut self)
        requires
            wf_sim(*old(self)),
        ensures
            wf_sim(*final(self)),
            final(self).demo_mode == Some(
                DemoMode {
                    current_scenario: crate::demo::DemoScenario::FormationShowcase,
                    step: 0u64,
                    formation_index: 0usize,
                },
            ),
            final(self).is_running,
            *final(self) == (SimulationState {
                demo_mode: final(self).demo_mode,
                is_running: true,
                ..*old(self)
            }),
    {
        self.demo_mode = Some(DemoMode::new());
        self.is_running = true;
    }

    /// Stop the scripted demo.
    pub fn stop_demo(&mut self)
        requires
            wf_sim(*old(self)),
        ensures
            wf_sim(*final(self)),
            final(self).demo_mode is None,
            *final(self) == (SimulationState { demo_mode: None, ..*old(self) }),
    {
        self.demo_mode = None;
    }

    /// Whether the scripted demo is running.
    pub fn is_demo_active(&self) -> (r: bool)
        ensures
            r == (self.demo_mode is Some),
    {
        self.demo_mode.is_some()
    }

    /// Set the simulation speed, clamped into the accepted range at the
    /// boundary rather than propagated out of range.
    pub fn set_simulation_speed(&mut self, speed: i64)
        ensures
            *final(self) == (SimulationState {
                simulation_speed: final(self).simulation_speed,
                ..*old(self)
            }),
            final(self).simulation_speed == (if speed < 0 {
                0int
            } else if speed > MAX_SIM_SPEED {
                MAX_SIM_SPEED as int
            } else {
                speed as int
            }),
    {
        self.simulation_speed = if speed < 0 {
            0
        } else if speed > MAX_SIM_SPEED {
            MAX_SIM_SPEED
        } else {
            speed
        };
    }

    /// The positions the transport layer emits: one `(id, position)` pair
    /// per drone, in order.
    pub fn current_positions(&self) -> (r: Vec<(u64, Vec3)>)
        ensures
            r@.len() == self.drones@.len(),
            forall|i: int|
                0 <= i < r@.len() ==> #[trigger] r@[i] == (
                self.drones@[i].id,
                self.drones@[i].position,
                ),
    {
        let n = self.drones.len();
        let mut r: Vec<(u64, Vec3)> = Vec::new();
        let mut i: usize = 0;
        while i < n
            invariant
                0 <= i <= n,
                n == self.drones@.len(),
                r@.len() == i,
                forall|j: int|
                    0 <= j < i ==> #[trigger] r@[j] == (
                    self.drones@[j].id,
                    self.drones@[j].position,
                    ),
            decreases n - i,
        {
            r.push((self.drones[i].id, self.drones[i].position));
            i = i + 1;
        }
        r
    }

    /// The drone positions, in order.
    fn positions_vec(&self) -> (r: Vec<Vec3>)
        ensures
            r@ == drone_positions(self.drones@),
    {
        let n = self.drones.len();
        let mut r: Vec<Vec3> = Vec::new();
        let mut i: usize = 0;
        while i < n
            invariant
                0 <= i <= n,
                n == self.drones@.len(),
                r@.len() == i,
                forall|j: int| 0 <= j < i ==> #[trigger] r@[j] == self.drones@[j].position,
            decreases n - i,
        {
            r.push(self.drones[i].position);
            i = i + 1;
        }
        proof {
            assert(r@ =~= drone_positions(self.drones@));
        }
        r
    }

    /// The swarm metrics snapshot, computed on demand from the current
    /// drones: center of mass, spread, minimum separation, mean distance to
    /// the assigned targets, and mean velocity magnitude.
    pub fn metrics(&self) -> (r: SwarmMetrics)
        requires
            wf_sim(*self),
        ensures
            ({
                let c = center_spec(drone_positions(self.drones@));
                r.center.x == c.0 && r.center.y == c.1 && r.center.z == c.2
            }),
            in_lim(r.center, WORLD_LIMIT as int),
            r.spread == crate::metrics::max_dist_upto(
                drone_positions(self.drones@),
                r.center,
                self.drones@.len() as int,
            ),
            r.min_separation == crate::metrics::min_sep_upto(
                drone_positions(self.drones@),
                self.drones@.len() as int,
            ),
            r.formation_error == (if self.drones@.len() == 0 {
                0int
            } else {
                tdiv(
                    crate::metrics::sum_target_dist(
                        drone_positions(self.drones@),
                        drone_targets(self.drones@),
                        self.drones@.len() as int,
                    ),
                    self.drones@.len() as int,
                )
            }),
            r.avg_velocity == (if self.drones@.len() == 0 {
                0int
            } else {
                tdiv(
                    crate::metrics::sum_speed(
                        drone_velocities(self.drones@),
                        self.drones@.len() as int,
                    ),
                    self.drones@.len() as int,
                )
            }),
    {
        let n = self.drones.len();
        let positions = self.positions_vec();
        let mut velocities: Vec<Vec3> = Vec::new();
        let mut targets: Vec<Vec3> = Vec::new();
        let mut i: usize = 0;
        while i < n
            invariant
                0 <= i <= n,
                n == self.drones@.len() <= MAX_AGENTS,
                wf_sim(*self),
                velocities@.len() == i,
                targets@.len() == i,
                forall|j: int| 0 <= j < i ==> #[trigger] velocities@[j] == self.drones@[j].velocity
                    && in_lim(velocities@[j], WORLD_LIMIT as int),
                forall|j: int| 0 <= j < i ==> #[trigger] targets@[j]
                    == self.drones@[j].target_position && in_lim(targets@[j], WORLD_LIMIT as int),
            decreases n - i,
        {
            velocities.push(self.drones[i].velocity);
            targets.push(self.drones[i].target_position);
            i = i + 1;
        }
        proof {
            assert(velocities@ =~= drone_velocities(self.drones@));
            assert(targets@ =~= drone_targets(self.drones@));
        }
        compute_metrics(&positions, &velocities, &targets)
    }

    /// The network snapshot as last rebuilt.
    pub fn topology(&self) -> (r: &NetworkTopology)
        ensures
            r == &self.network,
    {
        &self.network
    }

    /// Respawn the whole swarm in the current formation pattern around the
    /// origin, with fresh batteries and an up-to-date network snapshot.
    pub fn spawn_drones(&mut self, count: usize)
        requires
            wf_params(old(self).formation_params),
            0 <= old(self).simulation_speed <= MAX_SIM_SPEED,
            count <= MAX_AGENTS,
            (old(self).pso_state matches Some(p) ==> wf_pso(p)),
            (old(self).aco_state matches Some(a) ==> wf_aco(a)),
            (old(self).gwo_state matches Some(g) ==> wf_gwo(g)),
            (old(self).demo_mode matches Some(d) ==> d.step <= 1000 && d.formation_index < 5),
        ensures
            wf_sim(*final(self)),
            final(self).drones@.len() == count,
            final(self).formation == old(self).formation,
            final(self).formation_params == old(self).formation_params,
            final(self).time_step == old(self).time_step,
            final(self).demo_mode == old(self).demo_mode,
            final(self).active_algorithm == old(self).active_algorithm,
            final(self).pso_state == old(self).pso_state,
            final(self).aco_state == old(self).aco_state,
            final(self).gwo_state == old(self).gwo_state,
            final(self).simulation_speed == old(self).simulation_speed,
            final(self).is_running == old(self).is_running,
            final(self).viewport == old(self).viewport,
            final(self).selected_drone == old(self).selected_drone,
            spawned_fresh(final(self).drones@),
            old(self).formation != FormationType::Random ==> forall|i: int|
                0 <= i < count ==> (#[trigger] final(self).drones@[i]).position == assigned_target(
                    old(self).formation,
                    i,
                    count as int,
                    Vec3 { x: 0i64, y: 0i64, z: 0i64 },
                    old(self).formation_params,
                ),
    {
        let origin = Vec3 { x: 0, y: 0, z: 0 };
        let spots = crate::formation::positions(
            self.formation,
            count,
            origin,
            &self.formation_params,
        );
        let mut drones: Vec<DroneVisual> = Vec::new();
        let mut i: usize = 0;
        while i < count
            invariant
                0 <= i <= count <= MAX_AGENTS,
                spots@.len() == count,
                forall|j: int| 0 <= j < count ==> in_lim(#[trigger] spots@[j], WORLD_LIMIT as int),
                drones@.len() == i,
                forall|j: int|
                    0 <= j < i ==> {
                        let d = #[trigger] drones@[j];
                        d.id == j && d.position == spots@[j] && d.target_position == d.position
                            && d.velocity == (Vec3 { x: 0i64, y: 0i64, z: 0i64 }) && 80 <= d.battery
                            < 100 && d.status == DroneStatus::Active && d.trail@.len() == 0
                            && 10_000 <= d.altitude < 15_000
                    },
            decreases count - i,
        {
            let jitter: i64 = (rand_milli() * 20) / 1000;
            let altitude: i64 = 10_000 + rand_milli() * 5;
            drones.push(
                DroneVisual {
                    id: i as u64,
                    position: spots[i],
                    target_position: spots[i],
                    altitude,
                    velocity: Vec3 { x: 0, y: 0, z: 0 },
                    battery: (80 + jitter) as u8,
                    status: DroneStatus::Active,
                    trail: Vec::new(),
                },
            );
            i = i + 1;
        }
        self.drones = drones;
        self.network = build_topology(&spots, COMM_RANGE);
        proof {
            assert(spots@ =~= drone_positions(self.drones@));
        }
    }

    /// Reset the clock and respawn, restarting each engine at its current
    /// agent count.
    pub fn reset(&mut self)
        requires
            wf_sim(*old(self)),
        ensures
            wf_sim(*final(self)),
            final(self).time_step == 0,
            final(self).drones@.len() == final(self).formation_params.drone_count,
            (final(self).pso_state matches Some(p) ==> p.iteration == 0),
            (final(self).aco_state matches Some(a) ==> a.iteration == 0),
            (final(self).gwo_state matches Some(g) ==> g.iteration == 0),
            (final(self).pso_state is Some) == (old(self).pso_state is Some),
            (final(self).aco_state is Some) == (old(self).aco_state is Some),
            (final(self).gwo_state is Some) == (old(self).gwo_state is Some),
            spawned_fresh(final(self).drones@),
            (old(self).pso_state matches Some(p) ==> (final(self).pso_state matches Some(p2)
                && p2.particles@.len() == (if p.particles@.len() <= MAX_AGENTS {
                p.particles@.len() as int
            } else {
                MAX_AGENTS as int
            }) && p2.gbest_cost == i64::MAX && p2.cost_history@.len() == 0)),
            (old(self).aco_state is Some ==> (final(self).aco_state matches Some(a2)
                && a2.ants@.len() == 20 && a2.pheromones@.len() == 0)),
            (old(self).gwo_state matches Some(g) ==> (final(self).gwo_state matches Some(g2)
                && g2.wolves@.len() == (if g.wolves@.len() <= MAX_AGENTS {
                g.wolves@.len() as int
            } else {
                MAX_AGENTS as int
            }) && g2.convergence_param == 2000 && g2.fitness_history@.len() == 0)),
    {
        self.time_step = 0;
        let count = self.formation_params.drone_count;
        self.spawn_drones(count);
        let pso_count = match &self.pso_state {
            Some(p) => Some(p.particles.len()),
            None => None,
        };
        if let Some(c) = pso_count {
            self.pso_state = Some(PSOVisualState::new(if c <= MAX_AGENTS {
                c
            } else {
                MAX_AGENTS
            }));
        }
        if self.aco_state.is_some() {
            self.aco_state = Some(ACOVisualState::new());
        }
        let gwo_count = match &self.gwo_state {
            Some(g) => Some(g.wolves.len()),
            None => None,
        };
        if let Some(c) = gwo_count {
            self.gwo_state = Some(GWOVisualState::new(if c <= MAX_AGENTS {
                c
            } else {
                MAX_AGENTS
            }));
        }
    }

    /// The mean of the drone positions; the origin for an empty swarm.
    fn calculate_formation_center(&self) -> (r: Vec3)
        requires
            wf_sim(*self),
        ensures
            ({
                let c = center_spec(drone_positions(self.drones@));
                r.x == c.0 && r.y == c.1 && r.z == c.2
            }),
            in_lim(r, WORLD_LIMIT as int),
    {
        let m = self.metrics();
        m.center
    }

    /// One tick of the orchestrator. When the demo sequencer is off, every
    /// drone takes its deterministic step toward the formation slot frozen
    /// from the previous tick's center; the network is rebuilt over the new
    /// positions; the active optimizer advances by one tick of its own.
    pub fn step(&mut self)
        requires
            wf_sim(*old(self)),
            can_step_spec(*old(self)),
        ensures
            wf_sim(*final(self)),
            final(self).time_step == old(self).time_step + 1,
            final(self).simulation_speed == old(self).simulation_speed,
            final(self).is_running == old(self).is_running,
            final(self).viewport == old(self).viewport,
            final(self).selected_drone == old(self).selected_drone,
            (old(self).demo_mode matches Some(d) ==> final(self).demo_mode == Some(
                demo_transition(d, old(self).formation_params.drone_count as int).0,
            )),
            (old(self).demo_mode matches Some(d) ==> {
                let act = demo_transition(d, old(self).formation_params.drone_count as int).1;
                &&& (act is None ==> final(self).formation == old(self).formation && final(self).formation_params == old(self).formation_params && final(self).drones@.len()
                    == old(self).drones@.len() && final(self).active_algorithm == old(self).active_algorithm)
                &&& (act == Some(DemoAction::StartPSO) ==> final(self).active_algorithm
                    == AlgorithmType::PSO && (final(self).pso_state matches Some(p)
                    && p.particles@.len() == 40 && p.iteration == 1))
                &&& (act == Some(DemoAction::StartACO) ==> final(self).active_algorithm
                    == AlgorithmType::ACO && (final(self).aco_state matches Some(a)
                    && a.ants@.len() == 20 && a.iteration == 1))
                &&& (act == Some(DemoAction::StartGWO) ==> final(self).active_algorithm
                    == AlgorithmType::GWO && (final(self).gwo_state matches Some(g)
                    && g.wolves@.len() == 25 && g.iteration == 1))
                &&& (act matches Some(DemoAction::ChangeFormation(idx)) ==> final(self).formation
                    == formation_of_index(idx as int) && final(self).formation_params == old(self).formation_params && final(self).drones@.len() == old(self).formation_params.drone_count)
                &&& (act == Some(DemoAction::StartScaleTest) ==> final(self).formation_params.drone_count == 50 && final(self).drones@.len() == 50)
                &&& (act == Some(DemoAction::IncreaseDrones) ==> final(self).formation_params.drone_count == old(self).formation_params.drone_count + 10
                    && final(self).drones@.len() == old(self).formation_params.drone_count + 10)
                &&& (act == Some(DemoAction::RestartDemo) ==> final(self).formation_params.drone_count == 15 && final(self).drones@.len() == 15)
            }),
            topology_ok(
                final(self).network,
                drone_positions(final(self).drones@),
                COMM_RANGE as int,
            ),
            forall|i: int|
                0 <= i < final(self).drones@.len() ==> norm2(
                    (#[trigger] final(self).drones@[i]).velocity,
                ) <= (2 * old(self).simulation_speed) * (2 * old(self).simulation_speed),
            old(self).demo_mode is None ==> {
                &&& final(self).demo_mode is None
                &&& final(self).drones@.len() == old(self).drones@.len()
                &&& final(self).formation == old(self).formation
                &&& final(self).formation_params == old(self).formation_params
                &&& final(self).active_algorithm == old(self).active_algorithm
                &&& forall|i: int|
                    0 <= i < final(self).drones@.len() ==> drone_stepped(
                        #[trigger] final(self).drones@[i],
                        old(self).drones@[i],
                        assigned_target(
                            old(self).formation,
                            i,
                            old(self).drones@.len() as int,
                            ({
                                let c = center_spec(drone_positions(old(self).drones@));
                                Vec3 { x: c.0 as i64, y: c.1 as i64, z: c.2 as i64 }
                            }),
                            old(self).formation_params,
                        ),
                        old(self).simulation_speed as int,
                        old(self).time_step + 1,
                        old(self).viewport.show_trails,
                    )
            },
    {
        self.time_step = self.time_step + 1;
        self.update_demo();

        let n = self.drones.len();
        let center = self.calculate_formation_center();

        // Freeze every target from the pre-move state, then move.
        let ghost mid = *self;
        let ghost pre = self.drones@;
        let show_trails = self.viewport.show_trails;
        let sim_speed = self.simulation_speed;
        let time_step = self.time_step;
        let mut i: usize = 0;
        while i < n
            invariant
                0 <= i <= n,
                n == self.drones@.len() == pre.len(),
                n <= MAX_AGENTS,
                wf_params(self.formation_params),
                in_lim(center, WORLD_LIMIT as int),
                0 <= sim_speed <= MAX_SIM_SPEED,
                self.pso_state == mid.pso_state,
                self.aco_state == mid.aco_state,
                self.gwo_state == mid.gwo_state,
                self.formation == mid.formation,
                self.formation_params == mid.formation_params,
                self.demo_mode == mid.demo_mode,
                self.time_step == mid.time_step,
                self.viewport == mid.viewport,
                self.simulation_speed == mid.simulation_speed,
                self.active_algorithm == mid.active_algorithm,
                self.is_running == mid.is_running,
                self.selected_drone == mid.selected_drone,
                forall|j: int|
                    0 <= j < n ==> {
                        let d = #[trigger] pre[j];
                        in_lim(d.position, WORLD_LIMIT as int) && in_lim(
                            d.target_position,
                            WORLD_LIMIT as int,
                        ) && in_lim(d.velocity, 2 * MAX_SIM_SPEED as int) && d.trail@.len()
                            <= TRAIL_CAP
                    },
                forall|j: int| i <= j < n ==> #[trigger] self.drones@[j] == pre[j],
                forall|j: int|
                    0 <= j < i ==> drone_stepped(
                        #[trigger] self.drones@[j],
                        pre[j],
                        assigned_target(
                            self.formation,
                            j,
                            n as int,
                            center,
                            self.formation_params,
                        ),
                        sim_speed as int,
                        time_step as int,
                        show_trails,
                    ),
                forall|j: int|
                    0 <= j < i ==> {
                        let d = #[trigger] self.drones@[j];
                        in_lim(d.position, WORLD_LIMIT as int) && in_lim(
                            d.target_position,
                            WORLD_LIMIT as int,
                        ) && in_lim(d.velocity, 2 * MAX_SIM_SPEED as int) && d.trail@.len()
                            <= TRAIL_CAP && norm2(d.velocity) <= (2 * sim_speed) * (2 * sim_speed)
                            && d.id == pre[j].id
                    },
            decreases n - i,
        {
            let t0 = target_at(self.formation, i, n, center, &self.formation_params);
            let target = Vec3 {
                x: clamp_coord(t0.x, WORLD_LIMIT),
                y: clamp_coord(t0.y, WORLD_LIMIT),
                z: clamp_coord(t0.z, WORLD_LIMIT),
            };
            drone_tick(&mut self.drones[i], target, sim_speed, time_step, show_trails);
            proof {
                assert(target == assigned_target(
                    self.formation,
                    i as int,
                    n as int,
                    center,
                    self.formation_params,
                ));
            }
            i = i + 1;
        }

        self.update_network_topology();
        self.step_algorithms();
    }

    /// Rebuild the network snapshot from the current positions.
    fn update_network_topology(&mut self)
        requires
            old(self).drones@.len() <= MAX_AGENTS,
            forall|i: int|
                0 <= i < old(self).drones@.len() ==> in_lim(
                    (#[trigger] old(self).drones@[i]).position,
                    WORLD_LIMIT as int,
                ),
        ensures
            *final(self) == (SimulationState { network: final(self).network, ..*old(self) }),
            topology_ok(
                final(self).network,
                drone_positions(final(self).drones@),
                COMM_RANGE as int,
            ),
    {
        let positions = self.positions_vec();
        proof {
            assert forall|i: int| 0 <= i < positions@.len() implies in_lim(
                #[trigger] positions@[i],
                WORLD_LIMIT as int,
            ) by {
                assert(positions@[i] == self.drones@[i].position);
            }
        }
        self.network = build_topology(&positions, COMM_RANGE);
    }

    /// Advance the active optimizer by one of its own ticks.
    fn step_algorithms(&mut self)
        requires
            (old(self).pso_state matches Some(p) ==> wf_pso(p) && p.iteration < u32::MAX),
            (old(self).aco_state matches Some(a) ==> wf_aco(a) && a.iteration < usize::MAX),
            (old(self).gwo_state matches Some(g) ==> wf_gwo(g) && g.iteration < usize::MAX),
        ensures
            (final(self).pso_state matches Some(p) ==> wf_pso(p)),
            (final(self).aco_state matches Some(a) ==> wf_aco(a)),
            (final(self).gwo_state matches Some(g) ==> wf_gwo(g)),
            *final(self) == (SimulationState {
                pso_state: final(self).pso_state,
                aco_state: final(self).aco_state,
                gwo_state: final(self).gwo_state,
                ..*old(self)
            }),
            old(self).active_algorithm == AlgorithmType::PSO ==> {
                &&& final(self).aco_state == old(self).aco_state
                &&& final(self).gwo_state == old(self).gwo_state
                &&& (old(self).pso_state is None ==> final(self).pso_state is None)
                &&& (old(self).pso_state matches Some(p) ==> (final(self).pso_state matches Some(
                    p2,
                ) && p2.particles@.len() == p.particles@.len() && p2.iteration == p.iteration + 1
                    && p2.gbest_cost <= p.gbest_cost))
            },
            old(self).active_algorithm == AlgorithmType::ACO ==> {
                &&& final(self).pso_state == old(self).pso_state
                &&& final(self).gwo_state == old(self).gwo_state
                &&& (old(self).aco_state is None ==> final(self).aco_state is None)
                &&& (old(self).aco_state matches Some(a) ==> (final(self).aco_state matches Some(
                    a2,
                ) && a2.ants@.len() == a.ants@.len() && a2.iteration == a.iteration + 1))
            },
            old(self).active_algorithm == AlgorithmType::GWO ==> {
                &&& final(self).pso_state == old(self).pso_state
                &&& final(self).aco_state == old(self).aco_state
                &&& (old(self).gwo_state is None ==> final(self).gwo_state is None)
                &&& (old(self).gwo_state matches Some(g) ==> (final(self).gwo_state matches Some(
                    g2,
                ) && g2.wolves@.len() == g.wolves@.len() && g2.iteration == g.iteration + 1))
            },
    {
        match self.active_algorithm {
            AlgorithmType::PSO => {
                if let Some(pso) = &mut self.pso_state {
                    pso.step();
                }
            },
            AlgorithmType::ACO => {
                if let Some(aco) = &mut self.aco_state {
                    aco.step();
                }
            },
            AlgorithmType::GWO => {
                if let Some(gwo) = &mut self.gwo_state {
                    gwo.step();
                }
            },
        }
    }

    /// Advance the demo sequencer, if it is on, and apply its action.
    fn update_demo(&mut self)
        requires
            wf_sim(*old(self)),
        ensures
            wf_sim(*final(self)),
            final(self).time_step == old(self).time_step,
            final(self).simulation_speed == old(self).simulation_speed,
            final(self).viewport == old(self).viewport,
            (final(self).pso_state matches Some(p) ==> wf_pso(p)),
            old(self).demo_mode is None ==> *final(self) == *old(self),
            (old(self).demo_mode matches Some(d) ==> final(self).demo_mode == Some(
                demo_transition(d, old(self).formation_params.drone_count as int).0,
            )),
            final(self).is_running == old(self).is_running,
            final(self).selected_drone == old(self).selected_drone,
            (old(self).demo_mode matches Some(d) ==> {
                let act = demo_transition(d, old(self).formation_params.drone_count as int).1;
                &&& (act is None ==> *final(self) == (SimulationState {
                    demo_mode: final(self).demo_mode,
                    ..*old(self)
                }))
                &&& (act == Some(DemoAction::StartPSO) ==> *final(self) == (SimulationState {
                    demo_mode: final(self).demo_mode,
                    active_algorithm: AlgorithmType::PSO,
                    pso_state: final(self).pso_state,
                    ..*old(self)
                }) && (final(self).pso_state matches Some(p) && p.particles@.len() == 40
                    && p.iteration == 0 && p.gbest_cost == i64::MAX && p.cost_history@.len() == 0))
                &&& (act == Some(DemoAction::StartACO) ==> *final(self) == (SimulationState {
                    demo_mode: final(self).demo_mode,
                    active_algorithm: AlgorithmType::ACO,
                    aco_state: final(self).aco_state,
                    ..*old(self)
                }) && (final(self).aco_state matches Some(a) && a.ants@.len() == 20 && a.iteration
                    == 0 && a.pheromones@.len() == 0 && a.start == (Vec3 {
                    x: -80_000i64,
                    y: -60_000i64,
                    z: 0i64,
                }) && a.goal == (Vec3 { x: 80_000i64, y: 60_000i64, z: 0i64 })
                    && a.evaporation_rate == 100))
                &&& (act == Some(DemoAction::StartGWO) ==> *final(self) == (SimulationState {
                    demo_mode: final(self).demo_mode,
                    active_algorithm: AlgorithmType::GWO,
                    gwo_state: final(self).gwo_state,
                    ..*old(self)
                }) && (final(self).gwo_state matches Some(g) && g.wolves@.len() == 25
                    && g.iteration == 0 && g.convergence_param == 2000))
                &&& (act matches Some(DemoAction::ChangeFormation(idx)) ==> *final(self) == (
                SimulationState {
                    demo_mode: final(self).demo_mode,
                    formation: formation_of_index(idx as int),
                    drones: final(self).drones,
                    network: final(self).network,
                    ..*old(self)
                }) && final(self).drones@.len() == old(self).formation_params.drone_count
                    && spawned_fresh(final(self).drones@))
                &&& (act == Some(DemoAction::StartScaleTest) ==> *final(self) == (SimulationState {
                    demo_mode: final(self).demo_mode,
                    formation_params: (FormationParams {
                        drone_count: 50usize,
                        ..old(self).formation_params
                    }),
                    drones: final(self).drones,
                    network: final(self).network,
                    ..*old(self)
                }) && final(self).drones@.len() == 50 && spawned_fresh(final(self).drones@))
                &&& (act == Some(DemoAction::IncreaseDrones) ==> *final(self) == (SimulationState {
                    demo_mode: final(self).demo_mode,
                    formation_params: (FormationParams {
                        drone_count: (old(self).formation_params.drone_count + 10) as usize,
                        ..old(self).formation_params
                    }),
                    drones: final(self).drones,
                    network: final(self).network,
                    ..*old(self)
                }) && final(self).drones@.len() == old(self).formation_params.drone_count + 10
                    && spawned_fresh(final(self).drones@))
                &&& (act == Some(DemoAction::RestartDemo) ==> *final(self) == (SimulationState {
                    demo_mode: final(self).demo_mode,
                    formation_params: (FormationParams {
                        drone_count: 15usize,
                        ..old(self).formation_params
                    }),
                    drones: final(self).drones,
                    network: final(self).network,
                    ..*old(self)
                }) && final(self).drones@.len() == 15 && spawned_fresh(final(self).drones@))
            }),
            (final(self).pso_state matches Some(p) ==> p.iteration == 0 || (
            old(self).pso_state matches Some(q) && p.iteration == q.iteration)),
            (final(self).aco_state matches Some(a) ==> a.iteration == 0 || (
            old(self).aco_state matches Some(q) && a.iteration == q.iteration)),
            (final(self).gwo_state matches Some(g) ==> g.iteration == 0 || (
            old(self).gwo_state matches Some(q) && g.iteration == q.iteration)),
    {
        let count0 = self.formation_params.drone_count;
        let action: Option<DemoAction> = if let Some(d0) = self.demo_mode {
            let mut d = d0;
            let a = d.advance(count0);
            self.demo_mode = Some(d);
            a
        } else {
            None
        };
        match action {
            None => {},
            Some(DemoAction::ChangeFormation(index)) => {
                self.formation = if index == 0 {
                    FormationType::Circle
                } else if index == 1 {
                    FormationType::Grid
                } else if index == 2 {
                    FormationType::VFormation
                } else if index == 3 {
                    FormationType::Line
                } else {
                    FormationType::Random
                };
                let count = self.formation_params.drone_count;
                self.spawn_drones(count);
            },
            Some(DemoAction::StartPSO) => {
                self.active_algorithm = AlgorithmType::PSO;
                self.pso_state = Some(PSOVisualState::new(40));
            },
            Some(DemoAction::StartACO) => {
                self.active_algorithm = AlgorithmType::ACO;
                self.aco_state = Some(ACOVisualState::new());
            },
            Some(DemoAction::StartGWO) => {
                self.active_algorithm = AlgorithmType::GWO;
                self.gwo_state = Some(GWOVisualState::new(25));
            },
            Some(DemoAction::StartScaleTest) => {
                self.formation_params.drone_count = 50;
                self.spawn_drones(50);
            },
            Some(DemoAction::IncreaseDrones) => {
                proof {
                    assert(count0 < 100);
                }
                self.formation_params.drone_count = self.formation_params.drone_count + 10;
                let count = self.formation_params.drone_count;
                self.spawn_drones(count);
            },
            Some(DemoAction::RestartDemo) => {
                self.formation_params.drone_count = 15;
                self.spawn_drones(15);
            },
        }
    }
}

} // verus!
