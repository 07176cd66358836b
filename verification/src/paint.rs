//! Brushes and the paint context.
//!
//! Painting is modelled as a recorded sequence of operations: each widget
//! appends fills, strokes, clips and save/restore pairs to the context, and
//! contracts speak of exactly what a paint pass appends.

use vstd::prelude::*;
use crate::geometry::{Rect, RoundedRect, Size};

verus! {

/// A color with an alpha channel.
#[derive(Clone, Copy, Debug, PartialEq, Eq, Structural)]
pub struct Color {
    pub r: u8,
    pub g: u8,
    pub b: u8,
    pub a: u8,
}

impl Color {
    pub fn rgba8(r: u8, g: u8, b: u8, a: u8) -> (c: Color)
        ensures
            c == (Color { r, g, b, a }),
    {
        Color { r, g, b, a }
    }

    /// An opaque color.
    pub fn rgb8(r: u8, g: u8, b: u8) -> (c: Color)
        ensures
            c == (Color { r, g, b, a: 255 }),
    {
        Color { r, g, b, a: 255 }
    }
}

/// A gradient between two colors along a line through the unit square.
#[derive(Clone, Copy, Debug, PartialEq, Eq, Structural)]
pub struct LinearGradient {
    pub start: crate::geometry::Point,
    pub end: crate::geometry::Point,
    pub start_color: Color,
    pub end_color: Color,
}

/// A gradient between two colors radiating from a center.
#[derive(Clone, Copy, Debug, PartialEq, Eq, Structural)]
pub struct RadialGradient {
    pub center: crate::geometry::Point,
    pub radius: u64,
    pub start_color: Color,
    pub end_color: Color,
}

/// A gradient with endpoints fixed in the widget's own coordinates.
#[derive(Clone, Copy, Debug, PartialEq, Eq, Structural)]
pub struct FixedGradient {
    pub start: crate::geometry::Point,
    pub end: crate::geometry::Point,
    pub start_color: Color,
    pub end_color: Color,
}

/// A fully resolved brush, ready to fill a shape with.
#[derive(Clone, Copy, Debug, PartialEq, Eq, Structural)]
pub enum PaintBrush {
    Color(Color),
    Linear(LinearGradient),
    Radial(RadialGradient),
    Fixed(FixedGradient),
}

/// One recorded paint operation.
#[derive(Clone, Copy, Debug, PartialEq, Eq, Structural)]
pub enum PaintOp {
    /// Push the current clip and transform state.
    Save,
    /// Pop back to the state of the matching `Save`.
    Restore,
    /// Intersect the clip region with a rounded rectangle.
    Clip(RoundedRect),
    /// Fill a rectangle with a brush.
    Fill(Rect, PaintBrush),
    /// Stroke the outline of a rounded rectangle with a color, at a width.
    Stroke(RoundedRect, Color, u64),
}

/// The context a paint pass records into: the size the widget was laid out
/// at, and the operations recorded so far.
pub struct PaintCtx {
    pub size: Size,
    pub ops: Vec<PaintOp>,
}

impl PaintCtx {
    pub fn new(size: Size) -> (r: PaintCtx)
        ensures
            r.size == size,
            r.ops@ == Seq::<PaintOp>::empty(),
    {
        PaintCtx { size, ops: Vec::new() }
    }

    pub fn size(&self) -> (r: Size)
        ensures
            r == self.size,
    {
        self.size
    }

    pub fn save(&mut self)
        ensures
            final(self).size == old(self).size,
            final(self).ops@ == old(self).ops@.push(PaintOp::Save),
    {
        self.ops.push(PaintOp::Save);
    }

    pub fn restore(&mut self)
        ensures
            final(self).size == old(self).size,
            final(self).ops@ == old(self).ops@.push(PaintOp::Restore),
    {
        self.ops.push(PaintOp::Restore);
    }

    pub fn clip(&mut self, shape: RoundedRect)
        ensures
            final(self).size == old(self).size,
            final(self).ops@ == old(self).ops@.push(PaintOp::Clip(shape)),
    {
        self.ops.push(PaintOp::Clip(shape));
    }

    pub fn fill(&mut self, rect: Rect, brush: PaintBrush)
        ensures
            final(self).size == old(self).size,
            final(self).ops@ == old(self).ops@.push(PaintOp::Fill(rect, brush)),
    {
        self.ops.push(PaintOp::Fill(rect, brush));
    }

    pub fn stroke(&mut self, shape: RoundedRect, color: Color, width: u64)
        ensures
            final(self).size == old(self).size,
            final(self).ops@ == old(self).ops@.push(PaintOp::Stroke(shape, color, width)),
    {
        self.ops.push(PaintOp::Stroke(shape, color, width));
    }
}

} // verus!
