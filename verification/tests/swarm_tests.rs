//! Tests for the orchestrator, the demo sequencer, the formation controller
//! and the random-draw boundary.

use swarm_sim::controller::{DroneRole, SwarmController, CTRL_MAX_SPEED};
use swarm_sim::demo::{DemoAction, DemoMode, DemoScenario};
use swarm_sim::geom::Vec3;
use swarm_sim::rng::rand_milli;
use swarm_sim::state::{AlgorithmType, DroneStatus, SimulationState};

fn norm2(p: Vec3) -> i64 {
    p.x * p.x + p.y * p.y + p.z * p.z
}

#[test]
fn random_draws_stay_in_range() {
    for _ in 0..2000 {
        let r = rand_milli();
        assert!(0 <= r && r < 1000);
    }
}

#[test]
fn simulation_starts_with_ten_active_drones() {
    let sim = SimulationState::new();
    assert_eq!(sim.drones.len(), 10);
    assert_eq!(sim.time_step, 0);
    assert!(!sim.is_running);
    assert!(!sim.is_demo_active());
    for (i, d) in sim.drones.iter().enumerate() {
        assert_eq!(d.id, i as u64);
        assert_eq!(d.status, DroneStatus::Active);
        assert!(80 <= d.battery && d.battery < 100);
        assert!(10_000 <= d.altitude && d.altitude < 15_000);
        assert_eq!(d.velocity, Vec3 { x: 0, y: 0, z: 0 });
    }
}

#[test]
fn simulation_step_caps_every_velocity() {
    let mut sim = SimulationState::new();
    let cap = 2 * sim.simulation_speed;
    for _ in 0..20 {
        assert!(sim.can_step());
        sim.step();
        for d in &sim.drones {
            assert!(norm2(d.velocity) <= cap * cap);
        }
    }
    assert_eq!(sim.time_step, 20);
}

#[test]
fn simulation_network_edges_match_pairwise_distances() {
    let mut sim = SimulationState::new();
    sim.step();
    let range: i64 = 80_000;
    let n = sim.drones.len();
    for i in 0..n {
        for j in (i + 1)..n {
            let a = sim.drones[i].position;
            let b = sim.drones[j].position;
            let dx = a.x - b.x;
            let dy = a.y - b.y;
            let dz = a.z - b.z;
            let d2 = dx * dx + dy * dy + dz * dz;
            let present = sim
                .network
                .edges
                .iter()
                .any(|e| e.from == i as u64 && e.to == j as u64);
            assert_eq!(present, d2 < range * range);
        }
    }
    for e in &sim.network.edges {
        assert!(0 < e.link_quality && e.link_quality <= 1000);
    }
}

#[test]
fn simulation_trails_grow_and_stay_bounded() {
    let mut sim = SimulationState::new();
    sim.step();
    assert!(sim.drones.iter().all(|d| d.trail.len() == 1));
    for _ in 0..60 {
        sim.step();
    }
    assert!(sim.drones.iter().all(|d| d.trail.len() <= 50));
}

#[test]
fn simulation_speed_is_clamped_at_the_boundary() {
    let mut sim = SimulationState::new();
    sim.set_simulation_speed(-50);
    assert_eq!(sim.simulation_speed, 0);
    sim.set_simulation_speed(99_999);
    assert_eq!(sim.simulation_speed, 10_000);
    sim.set_simulation_speed(2500);
    assert_eq!(sim.simulation_speed, 2500);
}

#[test]
fn simulation_reset_clears_the_clock() {
    let mut sim = SimulationState::new();
    sim.step();
    sim.step();
    sim.reset();
    assert_eq!(sim.time_step, 0);
    assert_eq!(sim.drones.len(), sim.formation_params.drone_count);
}

#[test]
fn demo_mode_starts_and_stops() {
    let mut sim = SimulationState::new();
    sim.start_demo();
    assert!(sim.is_demo_active());
    assert!(sim.is_running);
    sim.stop_demo();
    assert!(!sim.is_demo_active());
}

#[test]
fn demo_sequencer_names_and_transitions() {
    let mut d = DemoMode::new();
    assert_eq!(d.current_scenario, DemoScenario::FormationShowcase);
    assert_eq!(d.scenario_name(), "Formation Showcase");
    d.step = 199;
    let action = d.advance(10);
    assert_eq!(action, Some(DemoAction::ChangeFormation(1)));
    assert_eq!(d.step, 200);
    assert_eq!(d.formation_index, 1);

    d.step = 1000;
    let action = d.advance(10);
    assert_eq!(action, Some(DemoAction::StartPSO));
    assert_eq!(d.current_scenario, DemoScenario::PSOConvergence);
    assert_eq!(d.step, 0);
    assert_eq!(d.scenario_name(), "PSO Optimization");

    d.step = 600;
    assert_eq!(d.advance(10), Some(DemoAction::StartACO));
    assert_eq!(d.current_scenario, DemoScenario::ACOPathfinding);
    d.step = 600;
    assert_eq!(d.advance(10), Some(DemoAction::StartGWO));
    assert_eq!(d.current_scenario, DemoScenario::GWOHunting);
    d.step = 600;
    assert_eq!(d.advance(10), Some(DemoAction::StartScaleTest));
    assert_eq!(d.current_scenario, DemoScenario::ScaleTest);

    d.step = 99;
    assert_eq!(d.advance(50), Some(DemoAction::IncreaseDrones));
    d.step = 199;
    assert_eq!(d.advance(100), None);
    d.step = 500;
    assert_eq!(d.advance(100), Some(DemoAction::RestartDemo));
    assert_eq!(d.current_scenario, DemoScenario::FormationShowcase);
    assert_eq!(d.formation_index, 0);
}

#[test]
fn demo_run_reaches_the_second_scenario() {
    let mut sim = SimulationState::new();
    sim.start_demo();
    for _ in 0..1200 {
        assert!(sim.can_step());
        sim.step();
    }
    // The formation showcase hands over after its thousand ticks.
    let d = sim.demo_mode.as_ref().unwrap();
    assert_eq!(d.current_scenario, DemoScenario::PSOConvergence);
    assert_eq!(sim.active_algorithm, AlgorithmType::PSO);
}

#[test]
fn controller_initialize_assigns_roles_and_ring() {
    let mut ctrl = SwarmController::new(5);
    ctrl.initialize();
    assert_eq!(ctrl.drones.len(), 5);
    assert_eq!(ctrl.drones[0].role, DroneRole::Alpha);
    assert_eq!(ctrl.drones[1].role, DroneRole::Beta);
    assert_eq!(ctrl.drones[2].role, DroneRole::Delta);
    assert_eq!(ctrl.drones[3].role, DroneRole::Omega);
    assert_eq!(ctrl.drones[4].role, DroneRole::Omega);
    for i in 0..5usize {
        assert_eq!(ctrl.drones[i].left_neighbor, (i + 4) % 5);
        assert_eq!(ctrl.drones[i].right_neighbor, (i + 1) % 5);
    }
    // Slot 0 spawns at angle zero on the 5-unit circle, 10 units up.
    assert_eq!(ctrl.drones[0].position, Vec3 { x: 5000, y: 0, z: 10000 });
}

#[test]
fn controller_pso_assigns_targets_and_caps_speed() {
    let mut ctrl = SwarmController::new(5);
    ctrl.initialize();
    ctrl.step(AlgorithmType::PSO);
    assert_eq!(ctrl.iteration, 1);
    // Slot 0 of the V formation is the formation center itself.
    assert_eq!(ctrl.drones[0].target, ctrl.center);
    for d in &ctrl.drones {
        assert!(norm2(d.velocity) <= CTRL_MAX_SPEED * CTRL_MAX_SPEED);
    }
}

#[test]
fn controller_gwo_moves_leaders_toward_target() {
    let mut ctrl = SwarmController::new(5);
    ctrl.initialize();
    let before = ctrl.drones[0].position;
    ctrl.step(AlgorithmType::GWO);
    let after = ctrl.drones[0].position;
    // The target is north-east of the spawn circle: the Alpha gains ground.
    assert!(after.x > before.x && after.y > before.y);
    for d in &ctrl.drones {
        assert!(norm2(d.velocity) <= CTRL_MAX_SPEED * CTRL_MAX_SPEED);
    }
}

#[test]
fn controller_center_walks_toward_target() {
    let mut ctrl = SwarmController::new(3);
    ctrl.initialize();
    let before = ctrl.center;
    ctrl.move_center_toward_target(500);
    let after = ctrl.center;
    assert!(after.x > before.x && after.y > before.y);
    assert!(after.x - before.x <= 500 && after.y - before.y <= 500);
    assert_eq!(after.z, before.z);
}

#[test]
fn controller_metrics_center_of_mass() {
    let mut ctrl = SwarmController::new(4);
    ctrl.initialize();
    let m = ctrl.calculate_metrics();
    // Four points evenly on a circle around (0, 0, 10): the mean is near the
    // middle (up to one milli of truncation per axis).
    assert!(m.center.x.abs() <= 1 && m.center.y.abs() <= 1);
    assert_eq!(m.center.z, 10000);
    assert!(m.min_separation > 0);
}

#[test]
fn current_positions_mirror_the_fleet() {
    let sim = SimulationState::new();
    let ps = sim.current_positions();
    assert_eq!(ps.len(), sim.drones.len());
    for (i, (id, p)) in ps.iter().enumerate() {
        assert_eq!(*id, i as u64);
        assert_eq!(*p, sim.drones[i].position);
    }
}
