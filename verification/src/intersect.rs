//! The intersection test, stage by stage.
//!
//! A test runs through up to four stages. Each stage is a value that names what
//! the caller has to compute next; handing the result to the stage's method
//! gives the next stage or ends the test. The stages can only be obtained in
//! order, so a `ScaledHit` stands for a ray that passed every rejection.
//!
//! 1. `begin` picks the frame from the ray's direction. The caller shears the
//!    vertices into that frame and computes the scaled barycentric coordinates.
//! 2. `Projecting::coordinates` takes them. Where one of them is too small to
//!    be trusted it asks for them again, computed in double precision, which
//!    `Refining::coordinates` takes. Either applies the edge test.
//! 3. `Summing::determinant` takes the sum of the coordinates and turns a
//!    negative one, with its coordinates, positive.
//! 4. `Ranging::distance` takes the scaled distance along the ray and rejects a
//!    hit behind the origin.
//!
//! Dividing the coordinates and the distance of the `ScaledHit` by its
//! determinant is left to the caller.

use vstd::prelude::*;
use crate::axes::{axes_for, dominant, select_axes, Axes, Vector3};
use crate::coordinates::Coordinates;
use crate::single::{flip_sign_if, sign_bit, Single};

verus! {

/// Why a ray does not hit.
#[derive(Clone, Copy, Debug, PartialEq, Eq, Structural)]
pub enum Miss {
    /// The direction is smaller than the machine epsilon along its dominant
    /// axis, and so along every axis.
    Degenerate,
    /// Back faces are culled and a coordinate is negative.
    Culled,
    /// Back faces are kept and the coordinates disagree in sign.
    Outside,
    /// The determinant is zero: the ray runs in the triangle's plane, or the
    /// triangle has no area.
    Coplanar,
    /// The triangle's plane is met behind the ray's origin.
    Behind,
}

/// What `begin` settles: the frame and the culling policy.
#[derive(Clone, Copy, Debug)]
pub struct Plan {
    pub axes: Axes,
    pub cull_backfaces: bool,
}

/// Coordinates that passed the edge test, and the policy they passed it under.
#[derive(Clone, Copy, Debug)]
pub struct Candidate {
    pub coordinates: Coordinates,
    pub cull_backfaces: bool,
}

/// Coordinates and their determinant, turned so that the determinant is not
/// negative.
#[derive(Clone, Copy, Debug)]
pub struct Oriented {
    pub coordinates: Coordinates,
    pub determinant: Single,
}

/// A hit before the division by the determinant.
#[derive(Clone, Copy, Debug)]
pub struct ScaledHit {
    pub coordinates: Coordinates,
    pub distance: Single,
    pub determinant: Single,
}

impl Oriented {
    /// The coordinates agree in sign, and the determinant is positive or a NaN.
    pub open spec fn wf(self) -> bool {
        &&& self.coordinates.uniform()
        &&& !self.determinant.is_zero()
        &&& !self.determinant.is_negative()
    }
}

impl ScaledHit {
    /// The coordinates agree in sign, the determinant is positive or a NaN, and
    /// the distance is not negative.
    pub open spec fn wf(self) -> bool {
        &&& self.coordinates.uniform()
        &&& !self.determinant.is_zero()
        &&& !self.determinant.is_negative()
        &&& !self.distance.is_negative()
    }
}

/// The miss that a failed edge test gives under each policy.
pub open spec fn rejection(cull_backfaces: bool) -> Miss {
    if cull_backfaces {
        Miss::Culled
    } else {
        Miss::Outside
    }
}

/// The edge test as a result: the candidate, or the miss of the policy.
pub open spec fn edge_test(coordinates: Coordinates, cull_backfaces: bool) -> Result<Candidate, Miss> {
    if coordinates.accepted(cull_backfaces) {
        Ok(Candidate { coordinates, cull_backfaces })
    } else {
        Err(rejection(cull_backfaces))
    }
}

/// Coordinates and determinant with a negative determinant turned positive:
/// all four signs are inverted together, which leaves the ratios as they are.
pub open spec fn oriented(coordinates: Coordinates, determinant: Single) -> Oriented {
    if determinant.is_negative() {
        Oriented { coordinates: coordinates.negated(), determinant: determinant.negated() }
    } else {
        Oriented { coordinates, determinant }
    }
}

/// The scaled distance with the sign bit of the determinant folded in.
pub open spec fn signed_distance(distance: Single, determinant: Single) -> Single {
    if determinant.sign_set() {
        distance.negated()
    } else {
        distance
    }
}

/// Orientation makes the two windings of a triangle agree. The triangle with
/// its second and third vertex exchanged has each coordinate and the
/// determinant with the opposite sign; once oriented, it has the determinant
/// of the triangle as given, and its coordinates vertex by vertex.
pub proof fn lemma_winding_oriented(coordinates: Coordinates, determinant: Single)
    requires
        determinant.is_negative() || determinant.is_positive(),
    ensures
        oriented(coordinates.negated().exchanged(), determinant.negated()).determinant == oriented(
            coordinates,
            determinant,
        ).determinant,
        oriented(coordinates.negated().exchanged(), determinant.negated()).coordinates == oriented(
            coordinates,
            determinant,
        ).coordinates.exchanged(),
        oriented(coordinates, determinant).determinant.is_positive(),
{
}

/// First stage: the frame is chosen, the coordinates are awaited.
#[derive(Debug)]
pub struct Projecting {
    plan: Plan,
}

/// The coordinates are awaited a second time, in double precision.
#[derive(Debug)]
pub struct Refining {
    cull_backfaces: bool,
}

/// The edge test is passed, the determinant is awaited.
#[derive(Debug)]
pub struct Summing {
    candidate: Candidate,
}

/// The determinant is settled, the scaled distance is awaited.
#[derive(Debug)]
pub struct Ranging {
    oriented: Oriented,
}

/// How the first look at the coordinates ends.
#[derive(Debug)]
pub enum Projected {
    /// A coordinate is too small: compute all three again in double precision.
    Refine(Refining),
    /// The edge test is passed: compute the determinant.
    Sum(Summing),
    /// The edge test is failed.
    Miss(Miss),
}

impl View for Projecting {
    type V = Plan;

    closed spec fn view(&self) -> Plan {
        self.plan
    }
}

impl View for Refining {
    type V = bool;

    closed spec fn view(&self) -> bool {
        self.cull_backfaces
    }
}

impl View for Summing {
    type V = Candidate;

    closed spec fn view(&self) -> Candidate {
        self.candidate
    }
}

impl View for Ranging {
    type V = Oriented;

    closed spec fn view(&self) -> Oriented {
        self.oriented
    }
}

/// Starts a test for a ray along `direction`. The ray is rejected where its
/// dominant component is smaller than the machine epsilon, which holds of the
/// zero vector; otherwise the frame is chosen.
pub fn begin(direction: Vector3, cull_backfaces: bool) -> (r: Result<Projecting, Miss>)
    ensures
        match r {
            Ok(stage) => {
                &&& !direction.at(dominant(direction)).is_tiny()
                &&& stage@.axes == axes_for(direction)
                &&& stage@.cull_backfaces == cull_backfaces
                &&& stage@.axes.wf()
            },
            Err(miss) => {
                &&& direction.at(dominant(direction)).is_tiny()
                &&& miss == Miss::Degenerate
            },
        },
        direction.x.is_tiny() && direction.y.is_tiny() && direction.z.is_tiny() ==> r is Err,
{
    let axes: Axes = select_axes(direction);
    if direction.component(axes.kz).abs_lt_epsilon() {
        Err(Miss::Degenerate)
    } else {
        Ok(Projecting { plan: Plan { axes, cull_backfaces } })
    }
}

fn check_edges(coordinates: Coordinates, cull_backfaces: bool) -> (r: Result<Summing, Miss>)
    ensures
        match r {
            Ok(stage) => edge_test(coordinates, cull_backfaces) == Ok::<Candidate, Miss>(stage@),
            Err(miss) => edge_test(coordinates, cull_backfaces) == Err::<Candidate, Miss>(miss),
        },
{
    if coordinates.passes(cull_backfaces) {
        Ok(Summing { candidate: Candidate { coordinates, cull_backfaces } })
    } else if cull_backfaces {
        Err(Miss::Culled)
    } else {
        Err(Miss::Outside)
    }
}

impl Projecting {
    #[verifier::type_invariant]
    spec fn inv(self) -> bool {
        self.plan.axes.wf()
    }

    /// The frame to shear the vertices into.
    pub fn axes(&self) -> (axes: Axes)
        ensures
            axes == self@.axes,
            axes.wf(),
    {
        proof {
            use_type_invariant(self);
        }
        self.plan.axes
    }

    /// Takes the coordinates as computed in single precision. Where one of
    /// them is smaller than the machine epsilon they are set aside and asked
    /// for again; else the edge test decides.
    pub fn coordinates(self, computed: Coordinates) -> (r: Projected)
        ensures
            match r {
                Projected::Refine(stage) => {
                    &&& computed.any_tiny()
                    &&& stage@ == self@.cull_backfaces
                },
                Projected::Sum(stage) => {
                    &&& !computed.any_tiny()
                    &&& edge_test(computed, self@.cull_backfaces) == Ok::<Candidate, Miss>(stage@)
                },
                Projected::Miss(miss) => {
                    &&& !computed.any_tiny()
                    &&& edge_test(computed, self@.cull_backfaces) == Err::<Candidate, Miss>(miss)
                },
            },
    {
        if computed.needs_refinement() {
            Projected::Refine(Refining { cull_backfaces: self.plan.cull_backfaces })
        } else {
            match check_edges(computed, self.plan.cull_backfaces) {
                Ok(stage) => Projected::Sum(stage),
                Err(miss) => Projected::Miss(miss),
            }
        }
    }
}

impl Refining {
    /// Takes the coordinates as computed in double precision and rounded. The
    /// edge test decides on them, however small they are.
    pub fn coordinates(self, refined: Coordinates) -> (r: Result<Summing, Miss>)
        ensures
            match r {
                Ok(stage) => edge_test(refined, self@) == Ok::<Candidate, Miss>(stage@),
                Err(miss) => edge_test(refined, self@) == Err::<Candidate, Miss>(miss),
            },
    {
        check_edges(refined, self.cull_backfaces)
    }
}

impl Summing {
    #[verifier::type_invariant]
    spec fn inv(self) -> bool {
        self.candidate.coordinates.accepted(self.candidate.cull_backfaces)
    }

    /// The coordinates to add up.
    pub fn coordinates(&self) -> (c: Coordinates)
        ensures
            c == self@.coordinates,
            c.accepted(self@.cull_backfaces),
    {
        proof {
            use_type_invariant(self);
        }
        self.candidate.coordinates
    }

    /// Takes the determinant, the sum of the three coordinates. A zero of
    /// either sign ends the test. A negative determinant is turned positive
    /// together with the coordinates.
    pub fn determinant(self, sum: Single) -> (r: Result<Ranging, Miss>)
        ensures
            match r {
                Ok(stage) => {
                    &&& !sum.is_zero()
                    &&& stage@ == oriented(self@.coordinates, sum)
                    &&& stage@.wf()
                    &&& self@.cull_backfaces && !sum.is_negative() ==> stage@.coordinates.front()
                },
                Err(miss) => {
                    &&& sum.is_zero()
                    &&& miss == Miss::Coplanar
                },
            },
    {
        proof {
            use_type_invariant(&self);
        }
        if sum.eq_zero() {
            Err(Miss::Coplanar)
        } else if sum.lt_zero() {
            Ok(Ranging {
                oriented: Oriented {
                    coordinates: self.candidate.coordinates.negate(),
                    determinant: sum.negate(),
                },
            })
        } else {
            Ok(Ranging {
                oriented: Oriented { coordinates: self.candidate.coordinates, determinant: sum },
            })
        }
    }
}

impl Ranging {
    #[verifier::type_invariant]
    spec fn inv(self) -> bool {
        self.oriented.wf()
    }

    /// The coordinates to weigh the vertices' depths with.
    pub fn coordinates(&self) -> (c: Coordinates)
        ensures
            c == self@.coordinates,
            c.uniform(),
    {
        proof {
            use_type_invariant(self);
        }
        self.oriented.coordinates
    }

    /// Takes the scaled distance along the ray. The sign bit of the
    /// determinant is folded into it bit by bit, and a distance that is then
    /// negative ends the test: the hit lies behind the origin. A determinant
    /// that is no NaN has its sign bit clear at this stage and leaves the
    /// distance as it came.
    pub fn distance(self, scaled: Single) -> (r: Result<ScaledHit, Miss>)
        ensures
            !self@.determinant.is_nan() ==> signed_distance(scaled, self@.determinant) == scaled,
            match r {
                Ok(hit) => {
                    &&& !signed_distance(scaled, self@.determinant).is_negative()
                    &&& hit.coordinates == self@.coordinates
                    &&& hit.determinant == self@.determinant
                    &&& hit.distance == signed_distance(scaled, self@.determinant)
                    &&& hit.wf()
                },
                Err(miss) => {
                    &&& signed_distance(scaled, self@.determinant).is_negative()
                    &&& miss == Miss::Behind
                },
            },
    {
        proof {
            use_type_invariant(&self);
        }
        let determinant: Single = self.oriented.determinant;
        let distance: Single = flip_sign_if(scaled, sign_bit(determinant));
        if distance.lt_zero() {
            Err(Miss::Behind)
        } else {
            Ok(ScaledHit { coordinates: self.oriented.coordinates, distance, determinant })
        }
    }
}

} // verus!
