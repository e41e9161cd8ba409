//! Tests for the three optimizer engines: PSO, GWO and ACO.

use swarm_sim::aco::{ACOVisualState, PheromoneTrail};
use swarm_sim::geom::Vec3;
use swarm_sim::gwo::{eval_fitness, GWOVisualState, WolfRank};
use swarm_sim::pso::{ParticleVisual, PSOVisualState, PSO_MAX_VEL};

fn v(x: i64, y: i64, z: i64) -> Vec3 {
    Vec3 { x, y, z }
}

fn norm2(p: Vec3) -> i64 {
    p.x * p.x + p.y * p.y + p.z * p.z
}

#[test]
fn pso_global_best_never_increases() {
    let mut pso = PSOVisualState::new(30);
    let mut last = i64::MAX;
    for _ in 0..60 {
        pso.step();
        assert!(pso.gbest_cost <= last);
        last = pso.gbest_cost;
    }
}

#[test]
fn pso_velocity_magnitude_capped_every_tick() {
    let mut pso = PSOVisualState::new(25);
    for _ in 0..30 {
        pso.step();
        for p in &pso.particles {
            assert!(norm2(p.velocity) <= PSO_MAX_VEL * PSO_MAX_VEL);
        }
    }
}

#[test]
fn pso_single_particle_velocity_decays_geometrically() {
    // With no cognitive and no social term, only the 0.7 inertia remains:
    // the velocity is exactly 0.7^n of the start, in truncated milli.
    let mut pso = PSOVisualState::new(1);
    pso.cognitive = 0;
    pso.social = 0;
    pso.inertia = 700;
    pso.particles[0] = ParticleVisual {
        position: v(0, 0, 0),
        velocity: v(1000, 0, 0),
        pbest_position: v(0, 0, 0),
        pbest_cost: i64::MAX,
    };
    let expected = [700i64, 490, 343, 240];
    for e in expected {
        pso.step();
        assert_eq!(pso.particles[0].velocity, v(e, 0, 0));
        assert_eq!(pso.particles[0].velocity.y, 0);
    }
}

#[test]
fn pso_cost_history_is_bounded() {
    let mut pso = PSOVisualState::new(5);
    for _ in 0..230 {
        pso.step();
    }
    assert_eq!(pso.cost_history.len(), 200);
}

#[test]
fn gwo_rank_order_follows_fitness() {
    let mut gwo = GWOVisualState::new(12);
    for _ in 0..5 {
        gwo.step();
        assert_eq!(gwo.wolves.len(), 12);
        for i in 0..gwo.wolves.len() - 1 {
            assert!(gwo.wolves[i].fitness <= gwo.wolves[i + 1].fitness);
        }
        assert_eq!(gwo.wolves[0].rank, WolfRank::Alpha);
        assert_eq!(gwo.wolves[1].rank, WolfRank::Beta);
        assert_eq!(gwo.wolves[2].rank, WolfRank::Delta);
        for i in 3..gwo.wolves.len() {
            assert_eq!(gwo.wolves[i].rank, WolfRank::Omega);
            assert!(gwo.wolves[2].fitness <= gwo.wolves[i].fitness);
        }
        assert_eq!(gwo.alpha.as_ref().unwrap().fitness, gwo.wolves[0].fitness);
    }
}

#[test]
fn gwo_exploration_parameter_decays_linearly() {
    let mut gwo = GWOVisualState::new(4);
    gwo.step();
    assert_eq!(gwo.convergence_param, (500 - 1) * 4);
    gwo.step();
    assert_eq!(gwo.convergence_param, (500 - 2) * 4);
}

#[test]
fn gwo_sort_is_stable_and_leaders_hold_position() {
    // Two wolves at mirrored positions have exactly equal fitness; the
    // stable sort keeps their original order, and with fewer than four
    // wolves both are leaders, which the attraction rule does not move.
    let mut gwo = GWOVisualState::new(2);
    gwo.wolves[0].position = v(-20000, 0, 0);
    gwo.wolves[1].position = v(20000, 0, 0);
    gwo.step();
    assert_eq!(gwo.wolves[0].fitness, gwo.wolves[1].fitness);
    assert_eq!(gwo.wolves[0].position, v(-20000, 0, 0));
    assert_eq!(gwo.wolves[1].position, v(20000, 0, 0));
    assert_eq!(gwo.wolves[0].rank, WolfRank::Alpha);
    assert_eq!(gwo.wolves[1].rank, WolfRank::Beta);
}

#[test]
fn gwo_exploration_parameter_reaches_zero() {
    let mut gwo = GWOVisualState::new(4);
    gwo.iteration = 600;
    gwo.step();
    assert_eq!(gwo.convergence_param, 0);
}

#[test]
fn pso_wall_bounce_is_inelastic() {
    // Pure inertia pushes the particle past the wall: the coordinate is
    // pinned to the wall and the velocity component is halved and reversed.
    let mut pso = PSOVisualState::new(1);
    pso.cognitive = 0;
    pso.social = 0;
    pso.inertia = 1000;
    pso.particles[0] = ParticleVisual {
        position: v(99_900, 0, 0),
        velocity: v(4000, 0, 0),
        pbest_position: v(99_900, 0, 0),
        pbest_cost: i64::MAX,
    };
    pso.step();
    assert_eq!(pso.particles[0].position, v(100_000, 0, 0));
    assert_eq!(pso.particles[0].velocity, v(-2000, 0, 0));
}

#[test]
fn aco_arrived_ant_records_best_path_and_resets() {
    let mut aco = ACOVisualState::new();
    let start = aco.start;
    let goal = aco.goal;
    aco.ants.truncate(1);
    aco.ants[0].position = goal;
    aco.ants[0].path = vec![start, v(0, 60000, 0), goal];
    aco.step();
    // The placeholder best path (start, goal) is replaced by the ant's path.
    assert_eq!(aco.best_path, vec![start, v(0, 60000, 0), goal]);
    assert_eq!(aco.ants[0].position, start);
    assert_eq!(aco.ants[0].path, vec![start]);
}

#[test]
fn aco_longer_path_does_not_replace_a_real_best() {
    // Once a genuine (non-placeholder) best path is recorded, an arriving
    // ant with a longer path leaves it alone.
    let mut aco = ACOVisualState::new();
    let start = aco.start;
    let goal = aco.goal;
    let best = vec![start, v(0, 60000, 0), goal];
    aco.best_path = best.clone();
    aco.ants.truncate(1);
    aco.ants[0].position = goal;
    aco.ants[0].path = vec![start, v(-40000, -60000, 0), v(0, -20000, 0), v(40000, 20000, 0), goal];
    aco.step();
    assert_eq!(aco.best_path, best);
    assert_eq!(aco.ants[0].position, start);
}

#[test]
fn gwo_fitness_zero_at_origin() {
    assert_eq!(eval_fitness(v(0, 0, 0)), 0);
    assert!(eval_fitness(v(12345, -6789, 0)) >= 0);
}

#[test]
fn aco_pheromone_decays_multiplicatively() {
    // One trail of full strength, 10% evaporation, no ants to reinforce:
    // after k ticks the strength is the k-fold truncated decay.
    let mut aco = ACOVisualState::new();
    aco.ants = Vec::new();
    aco.pheromones = vec![PheromoneTrail {
        from: v(0, 0, 0),
        to: v(1000, 0, 0),
        strength: 1000,
    }];
    let expected = [900i64, 810, 729, 656, 590, 531];
    for e in expected {
        aco.step();
        assert_eq!(aco.pheromones.len(), 1);
        assert_eq!(aco.pheromones[0].strength, e);
    }
}

#[test]
fn aco_pheromone_removed_below_floor() {
    let mut aco = ACOVisualState::new();
    aco.ants = Vec::new();
    aco.pheromones = vec![
        PheromoneTrail { from: v(0, 0, 0), to: v(1, 0, 0), strength: 55 },
        PheromoneTrail { from: v(0, 0, 0), to: v(2, 0, 0), strength: 57 },
    ];
    aco.step();
    // 55 decays to 49 (strictly below the 0.05 floor, removed); 57 decays
    // to 51 and stays.
    assert_eq!(aco.pheromones.len(), 1);
    assert_eq!(aco.pheromones[0].to, v(2, 0, 0));
    assert_eq!(aco.pheromones[0].strength, 51);
}

#[test]
fn aco_pheromone_at_exactly_the_floor_stays() {
    // With 90% evaporation a strength of 500 decays to exactly 50 (0.05):
    // removal happens only strictly below the floor, so the trail stays.
    let mut aco = ACOVisualState::new();
    aco.ants = Vec::new();
    aco.evaporation_rate = 900;
    aco.pheromones = vec![PheromoneTrail { from: v(0, 0, 0), to: v(3, 0, 0), strength: 500 }];
    aco.step();
    assert_eq!(aco.pheromones.len(), 1);
    assert_eq!(aco.pheromones[0].strength, 50);
    // One more tick takes it to 5, strictly below the floor: removed.
    aco.step();
    assert_eq!(aco.pheromones.len(), 0);
}

#[test]
fn aco_ants_deposit_on_committed_moves() {
    // Fresh scenario: every ant starts far from the goal and far from any
    // obstacle, so every ant commits a move and deposits a trail, which the
    // same tick's evaporation then decays once.
    let mut aco = ACOVisualState::new();
    aco.step();
    assert_eq!(aco.pheromones.len(), 20);
    for t in &aco.pheromones {
        assert_eq!(t.strength, 900);
    }
}

#[test]
fn aco_ants_never_enter_an_obstacle_margin() {
    let mut aco = ACOVisualState::new();
    for _ in 0..300 {
        aco.step();
        for ant in &aco.ants {
            for obs in &aco.obstacles {
                let dx = ant.position.x - obs.center.x;
                let dy = ant.position.y - obs.center.y;
                let dz = ant.position.z - obs.center.z;
                let r5 = obs.radius + 5000;
                assert!(dx * dx + dy * dy + dz * dz >= r5 * r5);
            }
        }
    }
}

#[test]
fn aco_pheromone_collection_stays_under_its_cap() {
    let mut aco = ACOVisualState::new();
    // Never evaporate, so only the bulk eviction bounds the collection.
    aco.evaporation_rate = 0;
    for _ in 0..200 {
        aco.step();
        assert!(aco.pheromones.len() <= 500);
    }
}
