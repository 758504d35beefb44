//! The drawing verbs and their arguments, as plain values.

use std::sync::Arc;
use vstd::prelude::*;

verus! {

/// A coordinate, length or colour component: a 64-bit binary floating-point
/// number, carried as its bit pattern. This layer never computes with one; it
/// hands each on exactly as given.
#[derive(Clone, Copy, Debug, PartialEq, Eq, Structural)]
pub struct Scalar {
    bits: u64,
}

impl View for Scalar {
    type V = u64;

    /// The bit pattern.
    closed spec fn view(&self) -> u64 {
        self.bits
    }
}

impl Scalar {
    /// The scalar with the given bit pattern.
    #[inline]
    pub fn from_bits(bits: u64) -> (r: Self)
        ensures
            r@ == bits,
    {
        Scalar { bits }
    }

    /// The bit pattern of the scalar.
    #[inline]
    pub fn to_bits(self) -> (bits: u64)
        ensures
            bits == self@,
    {
        self.bits
    }
}

/// A point of the drawing plane.
#[derive(Clone, Copy, Debug, PartialEq, Eq, Structural)]
pub struct Point {
    pub x: Scalar,
    pub y: Scalar,
}

/// An extent of the drawing plane.
#[derive(Clone, Copy, Debug, PartialEq, Eq, Structural)]
pub struct Size {
    pub width: Scalar,
    pub height: Scalar,
}

/// A rectangle, given by its origin and its extent.
#[derive(Clone, Copy, Debug, PartialEq, Eq, Structural)]
pub struct Rect {
    pub origin: Point,
    pub size: Size,
}

impl Rect {
    /// The rectangle at `(x, y)` of the given extent. No value is checked or
    /// adjusted.
    #[inline]
    pub fn new(x: Scalar, y: Scalar, width: Scalar, height: Scalar) -> (r: Self)
        ensures
            r == (Rect { origin: Point { x, y }, size: Size { width, height } }),
    {
        Rect { origin: Point { x, y }, size: Size { width, height } }
    }
}

/// How the current path is painted.
#[derive(Clone, Copy, Debug, PartialEq, Eq, Structural)]
pub enum PathDrawingMode {
    /// Fill, by the non-zero winding rule.
    Fill,
    /// Fill, by the even-odd rule.
    EOFill,
    /// Stroke.
    Stroke,
    /// Fill by the non-zero winding rule, then stroke.
    FillStroke,
    /// Fill by the even-odd rule, then stroke.
    EOFillStroke,
}

/// One call into the drawing backend: the verb and its arguments. `I` is the
/// backend's image handle.
pub enum DrawCall<I> {
    SetRgbFillColor { r: Scalar, g: Scalar, b: Scalar, a: Scalar },
    SetRgbStrokeColor { r: Scalar, g: Scalar, b: Scalar, a: Scalar },
    Save,
    Restore,
    MoveToPoint { x: Scalar, y: Scalar },
    AddLineToPoint { x: Scalar, y: Scalar },
    AddCurveToPoint { cp1x: Scalar, cp1y: Scalar, cp2x: Scalar, cp2y: Scalar, x: Scalar, y: Scalar },
    ClosePath,
    FillRect { rect: Rect },
    StrokeRect { rect: Rect },
    FillEllipseInRect { rect: Rect },
    StrokeEllipseInRect { rect: Rect },
    Flush,
    SetLineWidth { width: Scalar },
    FillPath,
    StrokePath,
    DrawPath { mode: PathDrawingMode },
    DrawImage { rect: Rect, image: Arc<I> },
}

} // verus!
