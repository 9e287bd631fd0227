//! A half-line: where it starts and which way it goes.
use vstd::prelude::*;
use crate::vec3::Vec3;

verus! {

/// An origin and a direction. The direction is kept as given, not normalized.
#[derive(Clone, Copy, Debug, PartialEq, Eq, Structural)]
pub struct Ray {
    pub origin: Vec3,
    pub dir: Vec3,
}

impl Ray {
    pub fn new(origin: Vec3, dir: Vec3) -> (r: Ray)
        ensures
            r.origin == origin,
            r.dir == dir,
    {
        Ray { origin, dir }
    }

    pub fn origin(&self) -> (p: Vec3)
        ensures
            p == self.origin,
    {
        self.origin
    }

    pub fn direction(&self) -> (d: Vec3)
        ensures
            d == self.dir,
    {
        self.dir
    }
}

} // verus!
