//! Chain topology construction.
//!
//! `build` turns a chain specification — total length, link radius, link
//! length ratio, joint compliance — into the descriptors a constraint
//! solver consumes: an ordered table of capsule bodies and an ordered
//! table of revolute joints, each joint connecting two consecutive bodies
//! by index. Body 0 is the kinematic anchor; every other body is dynamic
//! and hangs below it along the chain axis. The output order is stable
//! (ascending index) for identical inputs.

use vstd::prelude::*;
use vstd::arithmetic::div_mod::lemma_basic_div;
use vstd::arithmetic::div_mod::lemma_div_is_ordered;
use vstd::arithmetic::div_mod::lemma_div_non_zero;
use vstd::arithmetic::mul::lemma_mul_inequality;

verus! {

/// One world unit in the fixed-point representation every length and
/// position in this crate uses: values count millionths of a world unit.
pub const UNIT: u64 = 1_000_000;

/// Construction failure: a chain dimension that must be positive was not.
#[derive(Clone, Copy, PartialEq, Eq, Structural, Debug)]
pub enum ChainError {
    /// `total_length`, `link_radius` or `link_length_ratio` was zero, or
    /// so small that one link's length rounds to zero in the fixed-point
    /// scale. No partial chain is returned.
    InvalidParameter,
}

/// One rigid capsule particle of the chain.
#[derive(Clone, Copy, PartialEq, Eq, Structural, Debug)]
pub struct Body {
    /// An externally driven anchor when true; solver-simulated when
    /// false.
    pub kinematic: bool,
    /// Offset of the body along the chain axis from the anchor,
    /// fixed-point units; bodies hang below the anchor, so never
    /// positive.
    pub position: i64,
    /// Capsule radius, fixed-point units. Together with `length` and
    /// unit density this determines the solver's mass properties.
    pub radius: u64,
    /// Capsule length, fixed-point units.
    pub length: u64,
}

/// A revolute constraint between two bodies, held as indices into the
/// chain's body table. A joint does not own its bodies: it is a weak
/// relation by index, and both indices must stay within the body table.
#[derive(Clone, Copy, PartialEq, Eq, Structural, Debug)]
pub struct Joint {
    /// Index of the anchor-from body.
    pub body_a: u64,
    /// Index of the anchor-to body.
    pub body_b: u64,
    /// Local anchor offset along body `body_a`'s long axis, fixed-point
    /// units.
    pub anchor_a: i64,
    /// Local anchor offset along body `body_b`'s long axis, fixed-point
    /// units.
    pub anchor_b: i64,
    /// Inverse stiffness of the constraint, in millionths; zero is
    /// perfectly rigid.
    pub compliance: u64,
}

/// The topology a build produces: the body table and the joint table,
/// immutable once handed to the solver.
pub struct Chain {
    /// Body 0 is the kinematic anchor; the rest are dynamic.
    pub bodies: Vec<Body>,
    /// Joint `j` connects bodies `j` and `j + 1`.
    pub joints: Vec<Joint>,
}

/// Length of one link: radius times ratio. Both factors are fixed point,
/// so their product carries the scale twice and is rescaled by one
/// `UNIT`.
pub open spec fn spec_link_length(link_radius: u64, link_length_ratio: u64) -> int {
    (link_radius * link_length_ratio) / (UNIT as int)
}

/// The parameters a build accepts: positive dimensions whose link length
/// is still positive after fixed-point rescaling.
pub open spec fn spec_params_valid(total_length: u64, link_radius: u64, link_length_ratio: u64)
    -> bool {
    &&& total_length > 0
    &&& link_radius > 0
    &&& link_length_ratio > 0
    &&& spec_link_length(link_radius, link_length_ratio) > 0
}

/// How many whole links fit in the requested total length.
pub open spec fn spec_num_links(total_length: u64, link_radius: u64, link_length_ratio: u64)
    -> int
    recommends
        spec_link_length(link_radius, link_length_ratio) > 0,
{
    total_length as int / spec_link_length(link_radius, link_length_ratio)
}

/// Bodies in the built chain: one per link, but at least the kinematic
/// anchor even when not a single whole link fits (the degenerate chain).
pub open spec fn spec_num_bodies(total_length: u64, link_radius: u64, link_length_ratio: u64)
    -> int {
    if spec_num_links(total_length, link_radius, link_length_ratio) < 1 {
        1
    } else {
        spec_num_links(total_length, link_radius, link_length_ratio)
    }
}

/// The body at index `i`: the anchor at the origin, kinematic; every
/// other body dynamic, offset `i` link lengths — plus an
/// interpenetration gap of one world unit per link — below the anchor.
pub open spec fn spec_body(link_radius: u64, link_length_ratio: u64, i: int) -> Body {
    let link_length = spec_link_length(link_radius, link_length_ratio);
    Body {
        kinematic: i == 0,
        position: (-(i * (link_length + UNIT))) as i64,
        radius: link_radius,
        length: link_length as u64,
    }
}

/// The joint at index `j`: connects bodies `j` and `j + 1`, anchored half
/// a link length inward along each body's long axis, with the requested
/// compliance.
pub open spec fn spec_joint(
    link_radius: u64,
    link_length_ratio: u64,
    joint_compliance: u64,
    j: int,
) -> Joint {
    let link_length = spec_link_length(link_radius, link_length_ratio);
    Joint {
        body_a: j as u64,
        body_b: (j + 1) as u64,
        anchor_a: (-(link_length / 2)) as i64,
        anchor_b: (link_length / 2) as i64,
        compliance: joint_compliance,
    }
}

impl Chain {
    /// The structural invariant of a built chain: at least the kinematic
    /// anchor; exactly one joint fewer than bodies; joint `j` connects
    /// bodies `j` and `j + 1` (so both of its indices are in the body
    /// table, there are no cycles, endpoint bodies carry one joint and
    /// interior bodies two); every body but the anchor is dynamic.
    pub open spec fn wf(self) -> bool {
        &&& self.bodies@.len() >= 1
        &&& self.joints@.len() == self.bodies@.len() - 1
        &&& self.bodies@[0].kinematic
        &&& forall|i: int|
            1 <= i < self.bodies@.len() ==> !(#[trigger] self.bodies@[i]).kinematic
        &&& forall|j: int|
            0 <= j < self.joints@.len() ==> (#[trigger] self.joints@[j]).body_a == j
                && self.joints@[j].body_b == j + 1
    }
}

/// Build the chain topology for the given specification, all quantities
/// fixed point. Non-positive dimensions fail with `InvalidParameter` and
/// no partial chain; otherwise the result is the fully determined body
/// and joint tables, in ascending index order.
pub fn build(
    total_length: u64,
    link_radius: u64,
    link_length_ratio: u64,
    joint_compliance: u64,
) -> (result: Result<Chain, ChainError>)
    requires
        link_radius * link_length_ratio <= u64::MAX,
        spec_params_valid(total_length, link_radius, link_length_ratio) ==> (spec_num_bodies(
            total_length,
            link_radius,
            link_length_ratio,
        ) - 1) * (spec_link_length(link_radius, link_length_ratio) + UNIT) <= i64::MAX,
    ensures
        match result {
            Ok(chain) => {
                &&& spec_params_valid(total_length, link_radius, link_length_ratio)
                &&& chain.wf()
                &&& chain.bodies@.len() == spec_num_bodies(
                    total_length,
                    link_radius,
                    link_length_ratio,
                )
                &&& chain.joints@.len() == spec_num_bodies(
                    total_length,
                    link_radius,
                    link_length_ratio,
                ) - 1
                &&& forall|i: int|
                    0 <= i < chain.bodies@.len() ==> #[trigger] chain.bodies@[i] == spec_body(
                        link_radius,
                        link_length_ratio,
                        i,
                    )
                &&& forall|j: int|
                    0 <= j < chain.joints@.len() ==> #[trigger] chain.joints@[j] == spec_joint(
                        link_radius,
                        link_length_ratio,
                        joint_compliance,
                        j,
                    )
            },
            Err(e) => {
                &&& e == ChainError::InvalidParameter
                &&& !spec_params_valid(total_length, link_radius, link_length_ratio)
            },
        },
{
    if total_length == 0 || link_radius == 0 || link_length_ratio == 0 {
        return Err(ChainError::InvalidParameter);
    }
    let link_length: u64 = (link_radius * link_length_ratio) / UNIT;
    if link_length == 0 {
        return Err(ChainError::InvalidParameter);
    }
    let num_links: u64 = total_length / link_length;
    let num_bodies: u64 = if num_links < 1 {
        1
    } else {
        num_links
    };
    let ghost gl = spec_link_length(link_radius, link_length_ratio);
    let ghost gn = spec_num_bodies(total_length, link_radius, link_length_ratio);
    proof {
        lemma_div_is_ordered(
            link_radius as int * link_length_ratio as int,
            u64::MAX as int,
            UNIT as int,
        );
    }

    let mut bodies: Vec<Body> = Vec::new();
    bodies.push(
        Body { kinematic: true, position: 0, radius: link_radius, length: link_length },
    );
    let mut joints: Vec<Joint> = Vec::new();
    let half: i64 = (link_length / 2) as i64;

    let mut i: u64 = 1;
    while i < num_bodies
        invariant
            gl == spec_link_length(link_radius, link_length_ratio),
            gn == spec_num_bodies(total_length, link_radius, link_length_ratio),
            num_bodies == gn,
            link_length == gl,
            gl > 0,
            gl + UNIT <= u64::MAX,
            1 <= i <= num_bodies,
            (gn - 1) * (gl + UNIT) <= i64::MAX,
            half == gl / 2,
            bodies@.len() == i,
            joints@.len() == i - 1,
            forall|b: int|
                0 <= b < bodies@.len() ==> #[trigger] bodies@[b] == spec_body(
                    link_radius,
                    link_length_ratio,
                    b,
                ),
            forall|j: int|
                0 <= j < joints@.len() ==> #[trigger] joints@[j] == spec_joint(
                    link_radius,
                    link_length_ratio,
                    joint_compliance,
                    j,
                ),
        decreases num_bodies - i,
    {
        proof {
            lemma_mul_inequality(i as int, gn - 1, gl + UNIT);
        }
        let offset: u64 = i * (link_length + UNIT);
        let position: i64 = -(offset as i64);
        bodies.push(
            Body { kinematic: false, position, radius: link_radius, length: link_length },
        );
        joints.push(
            Joint {
                body_a: i - 1,
                body_b: i,
                anchor_a: -half,
                anchor_b: half,
                compliance: joint_compliance,
            },
        );
        i = i + 1;
    }
    Ok(Chain { bodies, joints })
}

/// With valid parameters and a link no longer than the whole chain, the
/// built chain has one body per whole link that fits — `floor(total /
/// link)` of them — and one joint fewer.
pub proof fn lemma_full_chain_counts(total_length: u64, link_radius: u64, link_length_ratio: u64)
    requires
        spec_params_valid(total_length, link_radius, link_length_ratio),
        spec_link_length(link_radius, link_length_ratio) <= total_length,
    ensures
        spec_num_links(total_length, link_radius, link_length_ratio) >= 1,
        spec_num_bodies(total_length, link_radius, link_length_ratio) == spec_num_links(
            total_length,
            link_radius,
            link_length_ratio,
        ),
{
    lemma_div_non_zero(
        total_length as int,
        spec_link_length(link_radius, link_length_ratio),
    );
}

/// With valid parameters but a link longer than the whole chain, the
/// build degenerates to the single kinematic anchor and no joints.
pub proof fn lemma_degenerate_chain(total_length: u64, link_radius: u64, link_length_ratio: u64)
    requires
        spec_params_valid(total_length, link_radius, link_length_ratio),
        total_length < spec_link_length(link_radius, link_length_ratio),
    ensures
        spec_num_links(total_length, link_radius, link_length_ratio) == 0,
        spec_num_bodies(total_length, link_radius, link_length_ratio) == 1,
{
    lemma_basic_div(total_length as int, spec_link_length(link_radius, link_length_ratio));
}

} // verus!
