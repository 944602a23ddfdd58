//! The drawable payloads the library hands its host.
//!
//! Every position here is a sub-pixel screen coordinate in fixed point.
//! A frame emits a sequence of drawables; later entries draw on top unless
//! an explicit z-order says otherwise.

use vstd::prelude::*;

verus! {

use crate::fixed::FixVec;
use crate::color::Color;

/// Where and how a drawable lands on screen.
#[derive(Clone, Copy, Debug, PartialEq, Eq, Structural)]
pub struct MeshParams {
    pub dest: FixVec,
    pub scale: FixVec,
    pub z: i32,
}

impl MeshParams {
    /// Placement at an offset, unscaled, at the default layer.
    pub fn at(dest: FixVec) -> (r: MeshParams)
        ensures
            r == (MeshParams { dest, scale: FixVec { x: crate::fixed::FIX_ONE, y: crate::fixed::FIX_ONE }, z: 0 }),
    {
        MeshParams { dest, scale: FixVec { x: crate::fixed::FIX_ONE, y: crate::fixed::FIX_ONE }, z: 0 }
    }
}

/// One colored shape of an overlay mesh.
pub enum Shape {
    /// A polyline through the listed points.
    Line { points: Vec<FixVec>, width: i64, color: Color },
    /// A circle, filled or stroked.
    Circle { fill: bool, center: FixVec, radius: i64, tolerance: i64, color: Color },
    /// An axis-aligned rectangle.
    Rect { fill: bool, x: i64, y: i64, w: i64, h: i64, color: Color },
}

/// One drawable payload of a frame.
pub enum DrawData {
    /// A mesh of shapes with its placement.
    Meshes { shapes: Vec<Shape>, params: MeshParams },
    /// A pixel image (BGRA bytes, row-major) with its placement.
    Image { pixels: Vec<u8>, width: i64, height: i64, params: MeshParams },
}

} // verus!
