//! Three scalars used as a point, a direction or a colour.
use vstd::prelude::*;
use crate::scalar::Scalar;

verus! {

/// The pattern of 1e-8, below which a component counts as vanished.
pub const NEAR_ZERO_BITS: u64 = 0x3e45_798e_e230_8c3a;

/// What a vector operation can refuse.
#[derive(Clone, Copy, Debug, PartialEq, Eq, Structural)]
pub enum VecError {
    /// A component index other than 0, 1 or 2.
    InvalidIndex,
    /// A unit vector was asked of a vector whose length is not above zero.
    DegenerateNormalization,
}

/// One of the three components of a vector.
#[derive(Clone, Copy, Debug, PartialEq, Eq, Structural)]
pub enum Axis {
    X,
    Y,
    Z,
}

/// The component that an index names.
pub open spec fn axis_spec(i: int) -> Axis {
    if i == 0 {
        Axis::X
    } else if i == 1 {
        Axis::Y
    } else {
        Axis::Z
    }
}

/// The component that index `i` names: 0 is x, 1 is y, 2 is z. Any other
/// index is refused with `InvalidIndex`.
pub fn axis(i: usize) -> (r: Result<Axis, VecError>)
    ensures
        i < 3 ==> r == Ok::<Axis, VecError>(axis_spec(i as int)),
        i >= 3 ==> r == Err::<Axis, VecError>(VecError::InvalidIndex),
{
    match i {
        0 => Ok(Axis::X),
        1 => Ok(Axis::Y),
        2 => Ok(Axis::Z),
        _ => Err(VecError::InvalidIndex),
    }
}

/// Three scalars: a point, a direction or a colour, as its user takes it.
#[derive(Clone, Copy, Debug, PartialEq, Eq, Structural)]
pub struct Vec3 {
    pub x: Scalar,
    pub y: Scalar,
    pub z: Scalar,
}

impl Vec3 {
    pub fn new(x: Scalar, y: Scalar, z: Scalar) -> (v: Vec3)
        ensures
            v == (Vec3 { x, y, z }),
    {
        Vec3 { x, y, z }
    }

    /// The vector of three positive zeros: the origin, and black.
    pub fn zero() -> (v: Vec3)
        ensures
            v == Vec3::zero_spec(),
    {
        Vec3 { x: Scalar::zero(), y: Scalar::zero(), z: Scalar::zero() }
    }

    /// The vector of three positive zeros.
    pub open spec fn zero_spec() -> Vec3 {
        Vec3 { x: Scalar { bits: 0 }, y: Scalar { bits: 0 }, z: Scalar { bits: 0 } }
    }

    /// Whether every component is a number below 1e-8 in magnitude.
    pub open spec fn near_zero_spec(&self) -> bool {
        let s = Scalar { bits: NEAR_ZERO_BITS };
        self.x.abs_spec().lt_spec(s) && self.y.abs_spec().lt_spec(s) && self.z.abs_spec().lt_spec(s)
    }

    /// Whether every component is below 1e-8 in magnitude. A NaN component is
    /// below nothing.
    #[verifier::when_used_as_spec(near_zero_spec)]
    pub fn near_zero(&self) -> (b: bool)
        ensures
            b == self.near_zero_spec(),
    {
        let s = Scalar { bits: NEAR_ZERO_BITS };
        self.x.abs().lt(s) && self.y.abs().lt(s) && self.z.abs().lt(s)
    }

    pub fn x(&self) -> (r: Scalar)
        ensures
            r == self.x,
    {
        self.x
    }

    pub fn y(&self) -> (r: Scalar)
        ensures
            r == self.y,
    {
        self.y
    }

    pub fn z(&self) -> (r: Scalar)
        ensures
            r == self.z,
    {
        self.z
    }

    /// The vector with the sign of each component flipped.
    pub open spec fn neg_spec(self) -> Vec3 {
        Vec3 { x: self.x.neg_spec(), y: self.y.neg_spec(), z: self.z.neg_spec() }
    }

    /// The opposite vector: each component with its sign flipped.
    #[verifier::when_used_as_spec(neg_spec)]
    pub fn neg(self) -> (v: Vec3)
        ensures
            v == self.neg_spec(),
    {
        Vec3 { x: self.x.neg(), y: self.y.neg(), z: self.z.neg() }
    }

    /// The component on an axis.
    pub open spec fn component(self, a: Axis) -> Scalar {
        match a {
            Axis::X => self.x,
            Axis::Y => self.y,
            Axis::Z => self.z,
        }
    }

    /// Component `i`, or `InvalidIndex` when `i` is not 0, 1 or 2.
    pub fn index(&self, i: usize) -> (r: Result<Scalar, VecError>)
        ensures
            i < 3 ==> r == Ok::<Scalar, VecError>(self.component(axis_spec(i as int))),
            i >= 3 ==> r == Err::<Scalar, VecError>(VecError::InvalidIndex),
    {
        match axis(i) {
            Ok(Axis::X) => Ok(self.x),
            Ok(Axis::Y) => Ok(self.y),
            Ok(Axis::Z) => Ok(self.z),
            Err(e) => Err(e),
        }
    }

    /// A handle on component `i` to write through, or `InvalidIndex` when `i`
    /// is not 0, 1 or 2. The other two components stay as they are.
    pub fn index_mut(&mut self, i: usize) -> (r: Result<&mut Scalar, VecError>)
        ensures
            i >= 3 ==> r is Err && r->Err_0 == VecError::InvalidIndex && *final(self) == *old(self),
            i < 3 ==> r is Ok,
            i == 0 ==> *r->Ok_0 == old(self).x
                && *final(self) == (Vec3 { x: *final(r->Ok_0), ..*old(self) }),
            i == 1 ==> *r->Ok_0 == old(self).y
                && *final(self) == (Vec3 { y: *final(r->Ok_0), ..*old(self) }),
            i == 2 ==> *r->Ok_0 == old(self).z
                && *final(self) == (Vec3 { z: *final(r->Ok_0), ..*old(self) }),
    {
        match axis(i) {
            Ok(Axis::X) => Ok(&mut self.x),
            Ok(Axis::Y) => Ok(&mut self.y),
            Ok(Axis::Z) => Ok(&mut self.z),
            Err(e) => Err(e),
        }
    }
}

/// Admits `length` as the divisor that turns a vector of that length into a
/// unit vector: it must be above zero. Zero, a negative number and NaN are
/// refused, so that no NaN component is ever produced by the division.
pub fn unit_divisor(length: Scalar) -> (r: Result<Scalar, VecError>)
    ensures
        (Scalar { bits: 0 }).lt_spec(length) ==> r == Ok::<Scalar, VecError>(length),
        !(Scalar { bits: 0 }).lt_spec(length) ==> r == Err::<Scalar, VecError>(
            VecError::DegenerateNormalization,
        ),
{
    if Scalar::zero().lt(length) {
        Ok(length)
    } else {
        Err(VecError::DegenerateNormalization)
    }
}

} // verus!
