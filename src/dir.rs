//! A 2-dimensional direction: an angle in radians within `[0, 2PI)`,
//! counter-clockwise from the positive X axis.
use vstd::prelude::*;
use crate::cordic::{atan2_bits, lemma_atan2_range, lemma_trunc_rem_bound, QCoordic};
use crate::fixed_point::{trunc_rem, Q64, TWO_PI_BITS};
use crate::vec2::{dot_bits, QVec2};

verus! {

/// The angle in `[0, 2PI)` equivalent to `a`: its remainder by `2PI`, moved
/// up by `2PI` where negative.
pub open spec fn normal_angle(a: int) -> int {
    let m = trunc_rem(a, TWO_PI_BITS as int);
    if m < 0 { m + TWO_PI_BITS } else { m }
}

/// The angle of a nonzero vector, moved into `[0, 2PI)`.
pub open spec fn vec_angle(y: i64, x: i64) -> int {
    let a = atan2_bits(y, x);
    if a < 0 { a + TWO_PI_BITS } else { a as int }
}

/// A 2-dimensional direction.
///
/// Angle in radians, within `[0, 2PI)`, CCW order; the direction of the
/// positive X axis is zero.
#[derive(Clone, Copy, PartialEq, Eq, Structural, Debug, Hash)]
pub struct QDir {
    angle: Q64,
}

impl QDir {
    /// The angle lies in `[0, 2PI)`.
    #[verifier::type_invariant]
    spec fn inv(self) -> bool {
        0 <= self.angle.bits < TWO_PI_BITS
    }

    /// The angle, as a spec value.
    pub closed spec fn angle_spec(self) -> Q64 {
        self.angle
    }

    /// Creates a direction from an angle already in `[0, 2PI)`.
    pub fn new(angle: Q64) -> (r: QDir)
        requires
            0 <= angle.bits < TWO_PI_BITS,
        ensures
            r.angle_spec() == angle,
    {
        QDir { angle }
    }

    /// Creates a direction from any angle, reduced into `[0, 2PI)`.
    pub fn new_from_angle(angle: Q64) -> (r: QDir)
        ensures
            r.angle_spec().bits == normal_angle(angle.bits as int),
    {
        let m = angle.rem(Q64::from_bits(TWO_PI_BITS));
        proof {
            lemma_trunc_rem_bound(angle.bits as int, TWO_PI_BITS as int);
        }
        if m.bits < 0 {
            QDir::new(Q64::from_bits(m.bits + TWO_PI_BITS))
        } else {
            QDir::new(m)
        }
    }

    /// Creates the direction of a nonzero vector.
    pub fn new_from_vec(vec: QVec2) -> (r: QDir)
        requires
            vec.x.bits != 0 || vec.y.bits != 0,
        ensures
            r.angle_spec().bits == vec_angle(vec.y.bits, vec.x.bits),
    {
        proof {
            lemma_atan2_range(vec.y.bits, vec.x.bits);
        }
        let a = vec.to_angle();
        if a.bits < 0 {
            QDir::new(Q64::from_bits(a.bits + TWO_PI_BITS))
        } else {
            QDir::new(a)
        }
    }

    /// The angle in radians, within `[0, 2PI)`.
    pub fn angle(&self) -> (r: Q64)
        ensures
            r == self.angle_spec(),
            0 <= r.bits < TWO_PI_BITS,
    {
        proof {
            use_type_invariant(self);
        }
        self.angle
    }

    /// The unit vector of the direction.
    pub fn to_vec(&self) -> (r: QVec2)
        ensures
            r.x == self.angle_spec().sin_cos_spec().1,
            r.y == self.angle_spec().sin_cos_spec().0,
    {
        QVec2::from_angle(self.angle)
    }

    /// Turns the direction by an angle.
    pub fn rotate(&mut self, angle: Q64)
        ensures
            final(self).angle_spec().bits == normal_angle(
                old(self).angle_spec().bits.wrapping_add(angle.bits) as int,
            ),
    {
        let d = QDir::new_from_angle(self.angle.wrapping_add(angle));
        *self = d;
    }

    /// The direction turned by another direction's angle.
    pub fn rotate_dir(&self, other: QDir) -> (r: QDir)
        ensures
            r.angle_spec().bits == normal_angle(
                self.angle_spec().bits as int + other.angle_spec().bits as int,
            ),
    {
        proof {
            use_type_invariant(self);
            use_type_invariant(other);
        }
        QDir::new_from_angle(Q64::from_bits(self.angle.bits + other.angle.bits))
    }

    /// A vector turned by the direction's angle: the product of the
    /// direction's unit vector and `vec`.
    pub fn rotate_vec(&self, vec: QVec2) -> (r: QVec2)
        ensures
            exists|u: QVec2|
                u.x == self.angle_spec().sin_cos_spec().1 && u.y == self.angle_spec().sin_cos_spec().0
                && r == u.rotate_spec(vec),
    {
        let u = self.to_vec();
        u.rotate(vec)
    }

    /// The length of the projection of `vec` on the direction: the dot
    /// product with the direction's unit vector.
    pub fn projection_of(&self, vec: QVec2) -> (r: Q64)
        ensures
            exists|u: QVec2|
                u.x == self.angle_spec().sin_cos_spec().1 && u.y == self.angle_spec().sin_cos_spec().0
                && r.bits == dot_bits(u, vec),
    {
        let u = self.to_vec();
        u.dot(vec)
    }

    /// The opposite turn: the direction of the negated angle.
    pub fn neg(self) -> (r: QDir)
        ensures
            r.angle_spec().bits == normal_angle(-(self.angle_spec().bits as int)),
    {
        proof {
            use_type_invariant(self);
        }
        QDir::new_from_angle(self.angle.wrapping_neg())
    }
}

impl From<QDir> for QVec2 {
    fn from(d: QDir) -> QVec2 {
        d.to_vec()
    }
}

impl vstd::std_specs::convert::FromSpecImpl<QDir> for QVec2 {
    open spec fn obeys_from_spec() -> bool {
        true
    }

    open spec fn from_spec(d: QDir) -> QVec2 {
        QVec2 { x: d.angle_spec().sin_cos_spec().1, y: d.angle_spec().sin_cos_spec().0 }
    }
}

} // verus!
