//! Tests for the fixed-point geometry, trigonometry, formation generator,
//! metrics and network topology.

use swarm_sim::formation::{positions, target_at, FormationParams, FormationType, ParamError};
use swarm_sim::geom::{clamp_norm, div_trunc, isqrt64, mul_div, scale_to, Vec3};
use swarm_sim::metrics::compute_metrics;
use swarm_sim::topology::{build_topology, COMM_RANGE};
use swarm_sim::trig::{cos_milli, sin_milli};

fn v(x: i64, y: i64, z: i64) -> Vec3 {
    Vec3 { x, y, z }
}

fn default_params() -> FormationParams {
    FormationParams {
        drone_count: 10,
        grid_spacing: 30000,
        circle_radius: 60000,
        line_spacing: 25000,
        v_spacing: 20000,
    }
}

#[test]
fn isqrt_brackets_its_argument() {
    assert_eq!(isqrt64(0), 0);
    assert_eq!(isqrt64(1), 1);
    assert_eq!(isqrt64(24), 4);
    assert_eq!(isqrt64(25), 5);
    assert_eq!(isqrt64(26), 5);
    assert_eq!(isqrt64(u64::MAX), 0xFFFF_FFFF);
}

#[test]
fn division_truncates_toward_zero() {
    assert_eq!(div_trunc(-7, 2), -3);
    assert_eq!(div_trunc(7, 2), 3);
    assert_eq!(mul_div(-8000, 866, 1000), -6928);
    assert_eq!(mul_div(8000, 866, 1000), 6928);
}

#[test]
fn clamp_norm_scales_down_only() {
    // A 3-4-5 vector of magnitude 50 units is clamped to at most 5 units.
    let r = clamp_norm(v(30000, 40000, 0), 5000);
    assert_eq!(r, v(2999, 3999, 0));
    assert!(r.x * r.x + r.y * r.y + r.z * r.z <= 5000 * 5000);
    // A short vector is returned unchanged.
    assert_eq!(clamp_norm(v(300, 400, 0), 5000), v(300, 400, 0));
}

#[test]
fn scale_to_keeps_zero_and_signs() {
    assert_eq!(scale_to(v(0, 0, 0), 3000), v(0, 0, 0));
    let r = scale_to(v(-100, 200, 0), 1000);
    assert!(r.x <= 0 && r.y >= 0 && r.z == 0);
}

#[test]
fn trig_quarter_turns_are_exact() {
    assert_eq!(sin_milli(0), 0);
    assert_eq!(sin_milli(250), 1000);
    assert_eq!(sin_milli(500), 0);
    assert_eq!(sin_milli(750), -1000);
    assert_eq!(cos_milli(0), 1000);
    assert_eq!(cos_milli(250), 0);
    assert_eq!(cos_milli(500), -1000);
    assert_eq!(cos_milli(750), 0);
}

#[test]
fn v_formation_echelon_targets() {
    // 5 agents, spacing 8 units, center (0, 0, 10): the first two rows sit
    // at the point, the second row is 8*cos(30) back and 8*sin(30) out.
    let params = FormationParams { v_spacing: 8000, ..default_params() };
    let center = v(0, 0, 10000);
    let t0 = target_at(FormationType::VFormation, 0, 5, center, &params);
    let t1 = target_at(FormationType::VFormation, 1, 5, center, &params);
    let t2 = target_at(FormationType::VFormation, 2, 5, center, &params);
    let t3 = target_at(FormationType::VFormation, 3, 5, center, &params);
    assert_eq!(t0, center);
    assert_eq!(t1, center);
    assert_eq!(t2, v(-6928, 4000, 10000));
    assert_eq!(t3, v(-6928, -4000, 10000));
}

#[test]
fn formation_positions_are_deterministic() {
    let params = default_params();
    let center = v(1000, -2000, 5000);
    for pattern in [
        FormationType::Circle,
        FormationType::Line,
        FormationType::Grid,
        FormationType::VFormation,
    ] {
        let a = positions(pattern, 10, center, &params);
        let b = positions(pattern, 10, center, &params);
        assert_eq!(a, b);
    }
}

#[test]
fn formation_edge_counts() {
    let params = default_params();
    let center = v(0, 0, 0);
    assert_eq!(positions(FormationType::Circle, 0, center, &params).len(), 0);
    let one = positions(FormationType::Line, 1, center, &params);
    assert_eq!(one.len(), 1);
    assert_eq!(one[0], center);
}

#[test]
fn single_agent_formations_sit_at_the_center() {
    // One agent is the degenerate single-point case for every deterministic
    // pattern, the circle included.
    let params = default_params();
    let center = v(7000, -3000, 12000);
    for pattern in [
        FormationType::Circle,
        FormationType::Line,
        FormationType::VFormation,
        FormationType::Grid,
    ] {
        let one = positions(pattern, 1, center, &params);
        assert_eq!(one, vec![center]);
        assert_eq!(target_at(pattern, 0, 1, center, &params), center);
    }
}

#[test]
fn circle_formation_starts_on_the_radius() {
    let params = default_params();
    let center = v(0, 0, 0);
    let ps = positions(FormationType::Circle, 4, center, &params);
    // Slot 0 is at angle zero: one radius along the x axis.
    assert_eq!(ps[0], v(60000, 0, 0));
}

#[test]
fn parameter_validation_rejects_each_group() {
    let good = default_params();
    assert_eq!(good.validate(), Ok(()));
    let too_many = FormationParams { drone_count: 1000, ..default_params() };
    assert_eq!(too_many.validate(), Err(ParamError::TooManyAgents));
    let bad_spacing = FormationParams { line_spacing: 0, ..default_params() };
    assert_eq!(bad_spacing.validate(), Err(ParamError::SpacingOutOfRange));
    let bad_radius = FormationParams { circle_radius: -5, ..default_params() };
    assert_eq!(bad_radius.validate(), Err(ParamError::RadiusOutOfRange));
}

#[test]
fn metrics_on_two_agents() {
    let positions = vec![v(0, 0, 0), v(2000, 0, 0)];
    let velocities = vec![v(0, 0, 0), v(3000, 4000, 0)];
    let targets = vec![v(0, 0, 0), v(2000, 0, 0)];
    let m = compute_metrics(&positions, &velocities, &targets);
    assert_eq!(m.center, v(1000, 0, 0));
    assert_eq!(m.spread, 1000);
    assert_eq!(m.min_separation, 2000);
    assert_eq!(m.formation_error, 0);
    assert_eq!(m.avg_velocity, 2500);
}

#[test]
fn metrics_on_empty_swarm() {
    let m = compute_metrics(&Vec::new(), &Vec::new(), &Vec::new());
    assert_eq!(m.center, v(0, 0, 0));
    assert_eq!(m.spread, 0);
    assert_eq!(m.min_separation, i64::MAX);
}

#[test]
fn topology_edges_iff_within_range() {
    // Two agents 50 units apart (in range at 80), one far away.
    let ps = vec![v(0, 0, 0), v(30000, 40000, 0), v(200000, 0, 0)];
    let t = build_topology(&ps, COMM_RANGE);
    assert_eq!(t.nodes.len(), 3);
    assert_eq!(t.edges.len(), 1);
    let e = &t.edges[0];
    assert_eq!((e.from, e.to), (0, 1));
    // Distance 50 units: link quality 1 - 50/80 = 0.375, latency 25 ms.
    assert_eq!(e.link_quality, 375);
    assert_eq!(e.rtt_ms, 25);
    // Neighbor counts are the full symmetric degree of each node.
    assert_eq!(t.nodes[0].neighbor_count, 1);
    assert_eq!(t.nodes[1].neighbor_count, 1);
    assert_eq!(t.nodes[2].neighbor_count, 0);
}

#[test]
fn topology_link_quality_decreases_with_distance() {
    let ps = vec![v(0, 0, 0), v(10000, 0, 0), v(-70000, 0, 0)];
    let t = build_topology(&ps, COMM_RANGE);
    // Pairs (0,1) at 10 units, (0,2) at 70 units, (1,2) at 80 units (out).
    assert_eq!(t.edges.len(), 2);
    let q01 = t.edges.iter().find(|e| e.from == 0 && e.to == 1).unwrap().link_quality;
    let q02 = t.edges.iter().find(|e| e.from == 0 && e.to == 2).unwrap().link_quality;
    assert!(q01 > q02);
    assert!(0 < q02 && q01 <= 1000);
    assert!(t.edges.iter().all(|e| e.from < e.to));
}
