//! A retained-mode widget-toolkit core: a sized container widget with a
//! constraint-based layout protocol, recorded paint operations, event and
//! lifecycle propagation, and a mutation API that tracks invalidation flags.
//!
//! Layout lengths are measured in abstract integer units; an unbounded axis
//! is the distinguished length [`geometry::Dim::Inf`].

pub mod data;
pub mod env;
pub mod geometry;
pub mod paint;
pub mod text;
pub mod widget;

pub use data::Data;
pub use env::{Env, Key, KeyOrValue};
pub use geometry::{BoxConstraints, Dim, Point, Rect, RoundedRect, RoundedRectRadii, Size};
pub use paint::{
    Color, FixedGradient, LinearGradient, PaintBrush, PaintCtx, PaintOp, RadialGradient,
};
pub use text::font_descriptor::FontDescriptor;
pub use widget::{
    ChildIds, Event, EventCtx, LifeCycle, LifeCycleCtx, StatusChange, Widget, WidgetCtx, WidgetId,
    WidgetPod,
};
