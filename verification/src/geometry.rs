//! The decisions of the ray-primitive intersection tests.
//!
//! The numeric kernel evaluates the quadratic of a ray and a sphere, or the
//! plane distance and edge functions of a ray and a triangle, and hands the
//! resulting numbers over as binary64 bit patterns. Whether they amount to a
//! hit, and at which distance, is decided here.
use vstd::prelude::*;
use crate::binary64::is_negative;
use crate::binary64::is_non_negative;
use crate::binary64::is_positive;
use crate::binary64::negative;
use crate::binary64::non_negative;
use crate::binary64::positive;

verus! {

/// What the quadratic of a ray and a sphere gave: with
/// `b = direction . (origin - center)` and `c = |origin - center|^2 - radius^2`,
/// the discriminant `b^2 - c` and the two roots `-b + sqrt(discriminant)` and
/// `-b - sqrt(discriminant)`.
#[derive(Clone, Copy, Debug, PartialEq, Eq, Structural)]
pub struct SphereRoots {
    pub discriminant: u64,
    pub first: u64,
    pub second: u64,
}

impl SphereRoots {
    /// Whether the ray hits: the discriminant and both roots are strictly
    /// positive, so the sphere lies in front of an origin outside it.
    pub open spec fn hits(self) -> bool {
        is_positive(self.discriminant) && is_positive(self.first) && is_positive(self.second)
    }

    /// The smaller of the two roots.
    pub open spec fn nearer(self) -> u64 {
        if self.first <= self.second {
            self.first
        } else {
            self.second
        }
    }

    /// The distance of the intersection: the smaller root where the ray
    /// hits, nothing where it does not (origin inside the sphere, sphere
    /// behind the ray, ray passing by, or a root that is not a number).
    pub fn get_intersection(&self) -> (distance: Option<u64>)
        ensures
            distance is Some <==> self.hits(),
            distance is Some ==> distance->0 == self.nearer(),
            distance is Some ==> is_positive(distance->0),
    {
        if positive(self.discriminant) && positive(self.first) && positive(self.second) {
            if self.first <= self.second {
                Some(self.first)
            } else {
                Some(self.second)
            }
        } else {
            None
        }
    }
}

/// What the plane and edge tests of a ray and a triangle gave: `facing` is
/// `normal . direction`, `distance` the distance along the ray to the
/// triangle's plane, and `edge0`, `edge1`, `edge2` the three edge functions at the
/// point where the ray meets the plane.
#[derive(Clone, Copy, Debug, PartialEq, Eq, Structural)]
pub struct TriangleTest {
    pub facing: u64,
    pub distance: u64,
    pub edge0: u64,
    pub edge1: u64,
    pub edge2: u64,
}

impl TriangleTest {
    /// Whether the ray hits: it travels against the normal (so it is not
    /// parallel to the plane and meets the front face), the plane lies
    /// strictly in front of the origin, and the point is on the inner side
    /// of all three edges.
    pub open spec fn hits(self) -> bool {
        &&& is_negative(self.facing)
        &&& is_positive(self.distance)
        &&& is_non_negative(self.edge0)
        &&& is_non_negative(self.edge1)
        &&& is_non_negative(self.edge2)
    }

    /// The distance of the intersection, where the ray hits.
    pub fn get_intersection(&self) -> (distance: Option<u64>)
        ensures
            distance is Some <==> self.hits(),
            distance is Some ==> distance->0 == self.distance,
            distance is Some ==> is_positive(distance->0),
    {
        if negative(self.facing) && positive(self.distance) && non_negative(self.edge0)
            && non_negative(self.edge1) && non_negative(self.edge2) {
            Some(self.distance)
        } else {
            None
        }
    }
}

} // verus!
