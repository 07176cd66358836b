//! Integer layout geometry: lengths, points, sizes, rectangles and the
//! box-constraint type that drives the layout protocol.

use vstd::prelude::*;

verus! {

/// A length along one axis, in abstract layout units.
///
/// `Inf` stands for an unbounded axis: a widget asked to `expand` sets its
/// length to `Inf`, and a loose constraint may have an `Inf` maximum.
#[derive(Clone, Copy, Debug, PartialEq, Eq, Structural)]
pub enum Dim {
    Finite(u64),
    Inf,
}

impl Dim {
    /// Order on lengths: `Inf` lies above every finite length.
    pub open spec fn le(self, other: Dim) -> bool {
        match (self, other) {
            (Dim::Finite(a), Dim::Finite(b)) => a <= b,
            (_, Dim::Inf) => true,
            (Dim::Inf, Dim::Finite(_)) => false,
        }
    }

    pub open spec fn max_spec(self, other: Dim) -> Dim {
        if self.le(other) {
            other
        } else {
            self
        }
    }

    pub open spec fn min_spec(self, other: Dim) -> Dim {
        if self.le(other) {
            self
        } else {
            other
        }
    }

    /// Clamp into `[lo, hi]` as a `max` with `lo` followed by a `min` with
    /// `hi`, so `hi` wins when the bounds cross.
    pub open spec fn clamp_spec(self, lo: Dim, hi: Dim) -> Dim {
        self.max_spec(lo).min_spec(hi)
    }

    /// Length addition; a finite sum too large for the unit type overflows
    /// to `Inf`, and `Inf` absorbs everything.
    pub open spec fn add_spec(self, other: Dim) -> Dim {
        match (self, other) {
            (Dim::Finite(a), Dim::Finite(b)) => if a + b <= u64::MAX {
                Dim::Finite((a + b) as u64)
            } else {
                Dim::Inf
            },
            _ => Dim::Inf,
        }
    }

    /// Subtract a finite amount, stopping at zero; `Inf` stays `Inf`.
    pub open spec fn sub_spec(self, d: u64) -> Dim {
        match self {
            Dim::Finite(a) => if a >= d {
                Dim::Finite((a - d) as u64)
            } else {
                Dim::Finite(0)
            },
            Dim::Inf => Dim::Inf,
        }
    }

    pub fn max(self, other: Dim) -> (r: Dim)
        ensures
            r == self.max_spec(other),
    {
        match (self, other) {
            (Dim::Finite(a), Dim::Finite(b)) => if a <= b {
                Dim::Finite(b)
            } else {
                Dim::Finite(a)
            },
            _ => Dim::Inf,
        }
    }

    pub fn min(self, other: Dim) -> (r: Dim)
        ensures
            r == self.min_spec(other),
    {
        match (self, other) {
            (Dim::Finite(a), Dim::Finite(b)) => if a <= b {
                Dim::Finite(a)
            } else {
                Dim::Finite(b)
            },
            (Dim::Finite(a), Dim::Inf) => Dim::Finite(a),
            (Dim::Inf, Dim::Finite(b)) => Dim::Finite(b),
            (Dim::Inf, Dim::Inf) => Dim::Inf,
        }
    }

    pub fn clamp(self, lo: Dim, hi: Dim) -> (r: Dim)
        ensures
            r == self.clamp_spec(lo, hi),
    {
        self.max(lo).min(hi)
    }

    pub fn add(self, other: Dim) -> (r: Dim)
        ensures
            r == self.add_spec(other),
    {
        match (self, other) {
            (Dim::Finite(a), Dim::Finite(b)) => if a <= u64::MAX - b {
                Dim::Finite(a + b)
            } else {
                Dim::Inf
            },
            _ => Dim::Inf,
        }
    }

    pub fn sub(self, d: u64) -> (r: Dim)
        ensures
            r == self.sub_spec(d),
    {
        match self {
            Dim::Finite(a) => if a >= d {
                Dim::Finite(a - d)
            } else {
                Dim::Finite(0)
            },
            Dim::Inf => Dim::Inf,
        }
    }

    pub fn is_inf(self) -> (r: bool)
        ensures
            r == (self is Inf),
    {
        match self {
            Dim::Finite(_) => false,
            Dim::Inf => true,
        }
    }
}

/// A point in a widget's coordinate space, in layout units.
#[derive(Clone, Copy, Debug, PartialEq, Eq, Structural)]
pub struct Point {
    pub x: u64,
    pub y: u64,
}

impl Point {
    pub fn new(x: u64, y: u64) -> (r: Point)
        ensures
            r == (Point { x, y }),
    {
        Point { x, y }
    }
}

/// A two-dimensional extent; either axis may be unbounded.
#[derive(Clone, Copy, Debug, PartialEq, Eq, Structural)]
pub struct Size {
    pub width: Dim,
    pub height: Dim,
}

impl Size {
    pub open spec fn zero_spec() -> Size {
        Size { width: Dim::Finite(0), height: Dim::Finite(0) }
    }

    pub fn new(width: Dim, height: Dim) -> (r: Size)
        ensures
            r == (Size { width, height }),
    {
        Size { width, height }
    }

    pub fn zero() -> (r: Size)
        ensures
            r == Size::zero_spec(),
    {
        Size { width: Dim::Finite(0), height: Dim::Finite(0) }
    }

    /// The rectangle with this size whose origin is the origin of the
    /// widget's own coordinate space.
    pub open spec fn to_rect_spec(self) -> Rect {
        Rect { x0: 0, y0: 0, x1: self.width, y1: self.height }
    }

    pub fn to_rect(self) -> (r: Rect)
        ensures
            r == self.to_rect_spec(),
    {
        Rect { x0: 0, y0: 0, x1: self.width, y1: self.height }
    }

    pub open spec fn to_rounded_rect_spec(self, radii: RoundedRectRadii) -> RoundedRect {
        RoundedRect { rect: self.to_rect_spec(), radii }
    }

    pub fn to_rounded_rect(self, radii: RoundedRectRadii) -> (r: RoundedRect)
        ensures
            r == self.to_rounded_rect_spec(radii),
    {
        RoundedRect { rect: self.to_rect(), radii }
    }
}

/// An axis-aligned rectangle. The near corner `(x0, y0)` is always finite;
/// the far corner may be unbounded on either axis.
#[derive(Clone, Copy, Debug, PartialEq, Eq, Structural)]
pub struct Rect {
    pub x0: u64,
    pub y0: u64,
    pub x1: Dim,
    pub y1: Dim,
}

impl Rect {
    /// Move every edge inward by `d`, as a border stroke centred on the
    /// edge does. The near corner saturates at the largest finite unit and
    /// the far corner stops at zero.
    pub open spec fn inset_inward_spec(self, d: u64) -> Rect {
        Rect {
            x0: if self.x0 + d <= u64::MAX {
                (self.x0 + d) as u64
            } else {
                u64::MAX
            },
            y0: if self.y0 + d <= u64::MAX {
                (self.y0 + d) as u64
            } else {
                u64::MAX
            },
            x1: self.x1.sub_spec(d),
            y1: self.y1.sub_spec(d),
        }
    }

    pub fn inset_inward(self, d: u64) -> (r: Rect)
        ensures
            r == self.inset_inward_spec(d),
    {
        let x0: u64 = if self.x0 <= u64::MAX - d {
            self.x0 + d
        } else {
            u64::MAX
        };
        let y0: u64 = if self.y0 <= u64::MAX - d {
            self.y0 + d
        } else {
            u64::MAX
        };
        Rect { x0, y0, x1: self.x1.sub(d), y1: self.y1.sub(d) }
    }

    pub open spec fn to_rounded_rect_spec(self, radii: RoundedRectRadii) -> RoundedRect {
        RoundedRect { rect: self, radii }
    }

    pub fn to_rounded_rect(self, radii: RoundedRectRadii) -> (r: RoundedRect)
        ensures
            r == self.to_rounded_rect_spec(radii),
    {
        RoundedRect { rect: self, radii }
    }
}

/// Corner radii of a rounded rectangle, one radius per corner.
#[derive(Clone, Copy, Debug, PartialEq, Eq, Structural)]
pub struct RoundedRectRadii {
    pub top_left: u64,
    pub top_right: u64,
    pub bottom_right: u64,
    pub bottom_left: u64,
}

impl RoundedRectRadii {
    pub open spec fn single_spec(radius: u64) -> RoundedRectRadii {
        RoundedRectRadii {
            top_left: radius,
            top_right: radius,
            bottom_right: radius,
            bottom_left: radius,
        }
    }

    pub fn from_single_radius(radius: u64) -> (r: RoundedRectRadii)
        ensures
            r == RoundedRectRadii::single_spec(radius),
    {
        RoundedRectRadii {
            top_left: radius,
            top_right: radius,
            bottom_right: radius,
            bottom_left: radius,
        }
    }
}

/// A rectangle with rounded corners, used for clipping and border strokes.
#[derive(Clone, Copy, Debug, PartialEq, Eq, Structural)]
pub struct RoundedRect {
    pub rect: Rect,
    pub radii: RoundedRectRadii,
}

/// The layout protocol's constraint: a widget must return a size between
/// `min_size` and `max_size` on each axis.
#[derive(Clone, Copy, Debug, PartialEq, Eq, Structural)]
pub struct BoxConstraints {
    pub min_size: Size,
    pub max_size: Size,
}

impl BoxConstraints {
    pub fn new(min: Size, max: Size) -> (r: BoxConstraints)
        ensures
            r == (BoxConstraints { min_size: min, max_size: max }),
    {
        BoxConstraints { min_size: min, max_size: max }
    }

    /// An exact constraint: only `size` itself satisfies it.
    pub fn tight(size: Size) -> (r: BoxConstraints)
        ensures
            r == (BoxConstraints { min_size: size, max_size: size }),
    {
        BoxConstraints { min_size: size, max_size: size }
    }

    /// Forget the minimum: anything up to the maximum satisfies the result.
    pub fn loosen(self) -> (r: BoxConstraints)
        ensures
            r == (BoxConstraints { min_size: Size::zero_spec(), max_size: self.max_size }),
    {
        BoxConstraints { min_size: Size::zero(), max_size: self.max_size }
    }

    pub fn min(&self) -> (r: Size)
        ensures
            r == self.min_size,
    {
        self.min_size
    }

    pub fn max(&self) -> (r: Size)
        ensures
            r == self.max_size,
    {
        self.max_size
    }

    /// Clamp `size` into the constraint on each axis independently.
    pub open spec fn constrain_spec(self, size: Size) -> Size {
        Size {
            width: size.width.clamp_spec(self.min_size.width, self.max_size.width),
            height: size.height.clamp_spec(self.min_size.height, self.max_size.height),
        }
    }

    pub fn constrain(&self, size: Size) -> (r: Size)
        ensures
            r == self.constrain_spec(size),
    {
        Size {
            width: size.width.clamp(self.min_size.width, self.max_size.width),
            height: size.height.clamp(self.min_size.height, self.max_size.height),
        }
    }

    /// Shrink both bounds by `(dw, dh)`, stopping at zero: the room left
    /// for a child once a border of that thickness is taken out.
    pub open spec fn shrink_spec(self, dw: u64, dh: u64) -> BoxConstraints {
        BoxConstraints {
            min_size: Size {
                width: self.min_size.width.sub_spec(dw),
                height: self.min_size.height.sub_spec(dh),
            },
            max_size: Size {
                width: self.max_size.width.sub_spec(dw),
                height: self.max_size.height.sub_spec(dh),
            },
        }
    }

    pub fn shrink(&self, dw: u64, dh: u64) -> (r: BoxConstraints)
        ensures
            r == self.shrink_spec(dw, dh),
    {
        BoxConstraints {
            min_size: Size {
                width: self.min_size.width.sub(dw),
                height: self.min_size.height.sub(dh),
            },
            max_size: Size {
                width: self.max_size.width.sub(dw),
                height: self.max_size.height.sub(dh),
            },
        }
    }
}

} // verus!
