//! A small verified library of record and shape types: a labeled user
//! account record, a rectangle with containment and area operations, an
//! RGB color triple, and a fieldless marker type.

use vstd::prelude::*;

pub mod rectangle;
pub mod user;

verus! {

/// An RGB color triple, stored as three positional components
/// (red, green, blue).
pub struct Color(pub i32, pub i32, pub i32);

/// A type with no stored data, useful where only the type itself matters.
pub struct Marker;

} // verus!
