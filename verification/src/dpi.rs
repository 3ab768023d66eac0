//! Coordinate types for the two coordinate spaces of the windowing API.
//!
//! The abstract API distinguishes logical (scale-independent) from physical
//! (device-pixel) coordinates.  This backend has a fixed scale factor of 1,
//! so the two spaces are numerically identical; the types stay distinct for
//! uniformity with other backends.

use vstd::prelude::*;

verus! {

/// A position in logical (scale-independent) pixels.
#[derive(Debug, Copy, Clone, PartialEq, Eq, Structural)]
pub struct LogicalPosition {
    pub x: i64,
    pub y: i64,
}

/// A size in logical (scale-independent) pixels.
#[derive(Debug, Copy, Clone, PartialEq, Eq, Structural)]
pub struct LogicalSize {
    pub width: u64,
    pub height: u64,
}

/// A position in physical (device) pixels.
#[derive(Debug, Copy, Clone, PartialEq, Eq, Structural)]
pub struct PhysicalPosition {
    pub x: i64,
    pub y: i64,
}

/// A size in physical (device) pixels.
#[derive(Debug, Copy, Clone, PartialEq, Eq, Structural)]
pub struct PhysicalSize {
    pub width: u64,
    pub height: u64,
}

} // verus!
