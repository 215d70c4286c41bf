//! Points and texture coordinates over a caller-chosen scalar type.
//!
//! The library only stores, copies and compares scalars; every computation on
//! them is done by the caller, so any `Copy` type can stand for a coordinate.

use vstd::prelude::*;

verus! {

/// A point of the terrain: planar coordinates `x` and `z`, height `y`.
#[derive(Copy, Debug, PartialEq)]
pub struct Point3<S> {
    pub x: S,
    pub y: S,
    pub z: S,
}

impl<S: Copy> Clone for Point3<S> {
    fn clone(&self) -> (r: Self)
        ensures
            r == *self,
    {
        *self
    }
}

/// A texture coordinate.
#[derive(Copy, Debug, PartialEq)]
pub struct Uv<S> {
    pub u: S,
    pub v: S,
}

impl<S: Copy> Clone for Uv<S> {
    fn clone(&self) -> (r: Self)
        ensures
            r == *self,
    {
        *self
    }
}

} // verus!
