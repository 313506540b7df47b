//! Decision core of a recursive (Whitted-style) ray tracer.
//!
//! Geometry and colour arithmetic are carried out by the caller; every
//! decision the engine takes on those numbers (which root of a sphere is the
//! hit, whether a triangle test accepts, which surface is nearest, whether a
//! light is occluded, which secondary rays are cast) is made here, on the
//! IEEE-754 bit patterns of the single-precision values involved, with its
//! contract proved.
use vstd::prelude::*;

pub mod scalar;
pub mod geometry;
pub mod scan;
pub mod shading;
pub mod frame;
