use tether::chain::build;
use tether::chain::ChainError;
use tether::chain::UNIT;

// Default chain specification, fixed point: total length 100 world units,
// link radius 3, link length ratio 4, near-rigid compliance 0.00001.
const TOTAL: u64 = 100 * UNIT;
const RADIUS: u64 = 3 * UNIT;
const RATIO: u64 = 4 * UNIT;
const COMPLIANCE: u64 = 10;

#[test]
fn build_default_chain_topology() {
    // link_length = 3 * 4 = 12 world units; floor(100 / 12) = 8 links.
    let chain = build(TOTAL, RADIUS, RATIO, COMPLIANCE).unwrap();
    assert_eq!(chain.bodies.len(), 8);
    assert_eq!(chain.joints.len(), 7);

    // Joint 0 connects the kinematic anchor (body 0) to body 1, anchored
    // half a link length (6 world units) inward on each body's axis.
    let j0 = &chain.joints[0];
    assert_eq!(j0.body_a, 0);
    assert_eq!(j0.body_b, 1);
    assert_eq!(j0.anchor_a, -6_000_000);
    assert_eq!(j0.anchor_b, 6_000_000);
    assert_eq!(j0.compliance, COMPLIANCE);

    assert!(chain.bodies[0].kinematic);
    assert_eq!(chain.bodies[0].position, 0);
    for (i, body) in chain.bodies.iter().enumerate().skip(1) {
        assert!(!body.kinematic);
        // One link length plus a one-unit gap per link below the anchor.
        assert_eq!(body.position, -((i as i64) * 13_000_000));
        assert_eq!(body.radius, RADIUS);
        assert_eq!(body.length, 12_000_000);
    }
}

#[test]
fn build_counts_follow_floor_of_total_over_link() {
    // link_length = 7 world units; floor(100 / 7) = 14 links.
    let chain = build(TOTAL, UNIT, 7 * UNIT, 0).unwrap();
    assert_eq!(chain.bodies.len(), 14);
    assert_eq!(chain.joints.len(), 13);
    for (j, joint) in chain.joints.iter().enumerate() {
        assert_eq!(joint.body_a, j as u64);
        assert_eq!(joint.body_b, j as u64 + 1);
    }
}

#[test]
fn build_exact_multiple_has_no_leftover_link() {
    // link_length = 10 world units divides 100 exactly: 10 links.
    let chain = build(TOTAL, 2 * UNIT, 5 * UNIT, 0).unwrap();
    assert_eq!(chain.bodies.len(), 10);
    assert_eq!(chain.joints.len(), 9);
}

#[test]
fn build_degenerate_single_kinematic_body() {
    // link_length = 12 world units exceeds a total of 10: one kinematic
    // body, zero joints, and that is a valid chain, not an error.
    let chain = build(10 * UNIT, RADIUS, RATIO, COMPLIANCE).unwrap();
    assert_eq!(chain.bodies.len(), 1);
    assert!(chain.joints.is_empty());
    assert!(chain.bodies[0].kinematic);
    assert_eq!(chain.bodies[0].position, 0);
}

#[test]
fn build_rejects_zero_total_length() {
    assert!(matches!(build(0, RADIUS, RATIO, COMPLIANCE), Err(ChainError::InvalidParameter)));
}

#[test]
fn build_rejects_zero_link_radius() {
    assert!(matches!(build(TOTAL, 0, RATIO, COMPLIANCE), Err(ChainError::InvalidParameter)));
}

#[test]
fn build_rejects_zero_link_length_ratio() {
    assert!(matches!(build(TOTAL, RADIUS, 0, COMPLIANCE), Err(ChainError::InvalidParameter)));
}

#[test]
fn build_rejects_every_all_zero_combination() {
    for &total in &[0, TOTAL] {
        for &radius in &[0, RADIUS] {
            for &ratio in &[0, RATIO] {
                if total == 0 || radius == 0 || ratio == 0 {
                    assert!(matches!(
                        build(total, radius, ratio, COMPLIANCE),
                        Err(ChainError::InvalidParameter)
                    ));
                }
            }
        }
    }
}

#[test]
fn build_rejects_link_length_below_resolution() {
    // radius * ratio = 0.5 micro-units squared: the link length rounds to
    // zero in the fixed-point scale and is not a positive length.
    assert!(matches!(build(TOTAL, 500, 1_000, COMPLIANCE), Err(ChainError::InvalidParameter)));
}

#[test]
fn build_is_deterministic() {
    let a = build(TOTAL, RADIUS, RATIO, COMPLIANCE).unwrap();
    let b = build(TOTAL, RADIUS, RATIO, COMPLIANCE).unwrap();
    assert_eq!(a.bodies.len(), b.bodies.len());
    assert_eq!(a.joints.len(), b.joints.len());
    for (x, y) in a.bodies.iter().zip(b.bodies.iter()) {
        assert_eq!(x, y);
    }
    for (x, y) in a.joints.iter().zip(b.joints.iter()) {
        assert_eq!(x, y);
    }
}
