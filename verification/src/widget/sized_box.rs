//! A widget with predefined size.

use vstd::prelude::*;
use crate::env::{Env, Key, KeyOrValue};
use crate::geometry::{BoxConstraints, Dim, Point, RoundedRectRadii, Size};
use crate::paint::{Color, FixedGradient, LinearGradient, PaintBrush, PaintCtx, PaintOp, RadialGradient};
use crate::widget::{
    child_ids, ChildIds, Event, EventCtx, LifeCycle, LifeCycleCtx, StatusChange, Widget,
    WidgetCtx, WidgetId, WidgetPod,
};

verus! {

/// Something that can be used as the background for a widget.
#[derive(Clone, Copy, Debug)]
#[non_exhaustive]
pub enum BackgroundBrush {
    Color(KeyOrValue<Color>),
    Linear(LinearGradient),
    Radial(RadialGradient),
    Fixed(FixedGradient),
}

impl BackgroundBrush {
    /// The brush with its color key, if any, looked up in the environment.
    pub open spec fn resolve_spec(self, env: Env) -> PaintBrush {
        match self {
            BackgroundBrush::Color(color) => PaintBrush::Color(color.resolve_spec(env)),
            BackgroundBrush::Linear(grad) => PaintBrush::Linear(grad),
            BackgroundBrush::Radial(grad) => PaintBrush::Radial(grad),
            BackgroundBrush::Fixed(grad) => PaintBrush::Fixed(grad),
        }
    }

    /// Draw this brush into a provided paint context: one fill of the
    /// context's full bounds with the resolved brush.
    pub fn paint(&self, ctx: &mut PaintCtx, env: &Env)
        ensures
            final(ctx).size == old(ctx).size,
            final(ctx).ops@ == old(ctx).ops@.push(
                PaintOp::Fill(old(ctx).size.to_rect_spec(), self.resolve_spec(*env)),
            ),
    {
        let bounds = ctx.size().to_rect();
        match self {
            BackgroundBrush::Color(color) => {
                let c = color.resolve(env);
                ctx.fill(bounds, PaintBrush::Color(c));
            }
            BackgroundBrush::Linear(grad) => ctx.fill(bounds, PaintBrush::Linear(*grad)),
            BackgroundBrush::Radial(grad) => ctx.fill(bounds, PaintBrush::Radial(*grad)),
            BackgroundBrush::Fixed(grad) => ctx.fill(bounds, PaintBrush::Fixed(*grad)),
        }
    }
}

impl From<Color> for BackgroundBrush {
    fn from(src: Color) -> BackgroundBrush {
        BackgroundBrush::Color(KeyOrValue::Concrete(src))
    }
}

impl vstd::std_specs::convert::FromSpecImpl<Color> for BackgroundBrush {
    open spec fn obeys_from_spec() -> bool {
        true
    }

    open spec fn from_spec(src: Color) -> BackgroundBrush {
        BackgroundBrush::Color(KeyOrValue::Concrete(src))
    }
}

impl From<Key> for BackgroundBrush {
    fn from(src: Key) -> BackgroundBrush {
        BackgroundBrush::Color(KeyOrValue::Key(src))
    }
}

impl vstd::std_specs::convert::FromSpecImpl<Key> for BackgroundBrush {
    open spec fn obeys_from_spec() -> bool {
        true
    }

    open spec fn from_spec(src: Key) -> BackgroundBrush {
        BackgroundBrush::Color(KeyOrValue::Key(src))
    }
}

impl From<LinearGradient> for BackgroundBrush {
    fn from(src: LinearGradient) -> BackgroundBrush {
        BackgroundBrush::Linear(src)
    }
}

impl vstd::std_specs::convert::FromSpecImpl<LinearGradient> for BackgroundBrush {
    open spec fn obeys_from_spec() -> bool {
        true
    }

    open spec fn from_spec(src: LinearGradient) -> BackgroundBrush {
        BackgroundBrush::Linear(src)
    }
}

impl From<RadialGradient> for BackgroundBrush {
    fn from(src: RadialGradient) -> BackgroundBrush {
        BackgroundBrush::Radial(src)
    }
}

impl vstd::std_specs::convert::FromSpecImpl<RadialGradient> for BackgroundBrush {
    open spec fn obeys_from_spec() -> bool {
        true
    }

    open spec fn from_spec(src: RadialGradient) -> BackgroundBrush {
        BackgroundBrush::Radial(src)
    }
}

impl From<FixedGradient> for BackgroundBrush {
    fn from(src: FixedGradient) -> BackgroundBrush {
        BackgroundBrush::Fixed(src)
    }
}

impl vstd::std_specs::convert::FromSpecImpl<FixedGradient> for BackgroundBrush {
    open spec fn obeys_from_spec() -> bool {
        true
    }

    open spec fn from_spec(src: FixedGradient) -> BackgroundBrush {
        BackgroundBrush::Fixed(src)
    }
}

/// What a paint brush becomes when used as a background.
pub open spec fn brush_of_paint_brush(src: PaintBrush) -> BackgroundBrush {
    match src {
        PaintBrush::Linear(grad) => BackgroundBrush::Linear(grad),
        PaintBrush::Radial(grad) => BackgroundBrush::Radial(grad),
        PaintBrush::Fixed(grad) => BackgroundBrush::Fixed(grad),
        PaintBrush::Color(color) => BackgroundBrush::Color(KeyOrValue::Concrete(color)),
    }
}

impl From<PaintBrush> for BackgroundBrush {
    fn from(src: PaintBrush) -> BackgroundBrush {
        match src {
            PaintBrush::Linear(grad) => BackgroundBrush::Linear(grad),
            PaintBrush::Radial(grad) => BackgroundBrush::Radial(grad),
            PaintBrush::Fixed(grad) => BackgroundBrush::Fixed(grad),
            PaintBrush::Color(color) => BackgroundBrush::Color(KeyOrValue::Concrete(color)),
        }
    }
}

impl vstd::std_specs::convert::FromSpecImpl<PaintBrush> for BackgroundBrush {
    open spec fn obeys_from_spec() -> bool {
        true
    }

    open spec fn from_spec(src: PaintBrush) -> BackgroundBrush {
        brush_of_paint_brush(src)
    }
}

/// Something that can be used as the border for a widget.
#[derive(Clone, Copy, Debug)]
pub struct BorderStyle {
    pub width: KeyOrValue<u64>,
    pub color: KeyOrValue<Color>,
}

/// The length a dimension the widget leaves unset stands for.
pub open spec fn dim_or_zero(d: Option<Dim>) -> Dim {
    match d {
        Some(x) => x,
        None => Dim::Finite(0),
    }
}

/// Twice a border width, stopping at the largest finite unit.
pub open spec fn twice(w: u64) -> u64 {
    if 2 * w <= u64::MAX {
        (2 * w) as u64
    } else {
        u64::MAX
    }
}

/// A widget with predefined size.
///
/// If given a child, this widget forces its child to have a specific width
/// and/or height (assuming values are permitted by this widget's parent).
/// If either the width or height is not set, this widget will size itself
/// to match the child's size in that dimension.
///
/// If not given a child, it will try to size itself as close to the
/// specified height and width as possible given the parent's constraints.
/// If height or width is not set, it will be treated as zero.
pub struct SizedBox<W> {
    pub child: Option<WidgetPod<W>>,
    pub width: Option<Dim>,
    pub height: Option<Dim>,
    pub background: Option<BackgroundBrush>,
    pub border: Option<BorderStyle>,
    pub corner_radius: KeyOrValue<RoundedRectRadii>,
}

impl<W: Widget> SizedBox<W> {
    /// Construct container with child, and both width and height not set.
    pub fn new(child: W) -> (r: Self)
        ensures
            r.child == Some(WidgetPod::new_spec(child, WidgetId(0))),
            r.width is None,
            r.height is None,
            r.background is None,
            r.border is None,
            r.corner_radius == KeyOrValue::<RoundedRectRadii>::Concrete(
                RoundedRectRadii::single_spec(0),
            ),
    {
        Self {
            child: Some(WidgetPod::new(child)),
            width: None,
            height: None,
            background: None,
            border: None,
            corner_radius: KeyOrValue::Concrete(RoundedRectRadii::from_single_radius(0)),
        }
    }

    /// Construct container with child, and both width and height not set.
    pub fn new_with_id(child: W, id: WidgetId) -> (r: Self)
        ensures
            r.child == Some(WidgetPod::new_spec(child, id)),
            r.width is None,
            r.height is None,
            r.background is None,
            r.border is None,
            r.corner_radius == KeyOrValue::<RoundedRectRadii>::Concrete(
                RoundedRectRadii::single_spec(0),
            ),
    {
        Self {
            child: Some(WidgetPod::new_with_id(child, id)),
            width: None,
            height: None,
            background: None,
            border: None,
            corner_radius: KeyOrValue::Concrete(RoundedRectRadii::from_single_radius(0)),
        }
    }

    /// Construct container without child, and both width and height not set.
    ///
    /// If the widget is unchanged, it will render nothing, which can be
    /// useful if you want to draw a widget some of the time.
    pub fn empty() -> (r: Self)
        ensures
            r.child is None,
            r.width is None,
            r.height is None,
            r.background is None,
            r.border is None,
            r.corner_radius == KeyOrValue::<RoundedRectRadii>::Concrete(
                RoundedRectRadii::single_spec(0),
            ),
    {
        Self {
            child: None,
            width: None,
            height: None,
            background: None,
            border: None,
            corner_radius: KeyOrValue::Concrete(RoundedRectRadii::from_single_radius(0)),
        }
    }

    /// Set container's width.
    pub fn width(self, width: Dim) -> (r: Self)
        ensures
            r == (SizedBox { width: Some(width), ..self }),
    {
        SizedBox { width: Some(width), ..self }
    }

    /// Set container's height.
    pub fn height(self, height: Dim) -> (r: Self)
        ensures
            r == (SizedBox { height: Some(height), ..self }),
    {
        SizedBox { height: Some(height), ..self }
    }

    /// Expand container to fit the parent.
    ///
    /// Only call this method if you want your widget to occupy all available
    /// space. If you only care about expanding in one of width or height, use
    /// [`expand_width`](Self::expand_width) or
    /// [`expand_height`](Self::expand_height) instead.
    pub fn expand(self) -> (r: Self)
        ensures
            r == (SizedBox { width: Some(Dim::Inf), height: Some(Dim::Inf), ..self }),
    {
        SizedBox { width: Some(Dim::Inf), height: Some(Dim::Inf), ..self }
    }

    /// Expand the container on the x-axis.
    ///
    /// This will force the child to have maximum width.
    pub fn expand_width(self) -> (r: Self)
        ensures
            r == (SizedBox { width: Some(Dim::Inf), ..self }),
    {
        SizedBox { width: Some(Dim::Inf), ..self }
    }

    /// Expand the container on the y-axis.
    ///
    /// This will force the child to have maximum height.
    pub fn expand_height(self) -> (r: Self)
        ensures
            r == (SizedBox { height: Some(Dim::Inf), ..self }),
    {
        SizedBox { height: Some(Dim::Inf), ..self }
    }

    /// Builder-style method for setting the background for this widget.
    ///
    /// This can be any [`Color`], a [`Key`] resolvable in the [`Env`], or
    /// any gradient, wrapped as a [`BackgroundBrush`].
    pub fn background(self, brush: BackgroundBrush) -> (r: Self)
        ensures
            r == (SizedBox { background: Some(brush), ..self }),
    {
        SizedBox { background: Some(brush), ..self }
    }

    /// Builder-style method for painting a border around the widget with a
    /// color and width.
    ///
    /// Arguments can be either concrete values, or a [`Key`] of the
    /// respective type.
    pub fn border(self, color: KeyOrValue<Color>, width: KeyOrValue<u64>) -> (r: Self)
        ensures
            r == (SizedBox { border: Some(BorderStyle { color, width }), ..self }),
    {
        SizedBox { border: Some(BorderStyle { color, width }), ..self }
    }

    /// Builder style method for rounding off corners of this container by
    /// setting a corner radius.
    pub fn rounded(self, radius: KeyOrValue<RoundedRectRadii>) -> (r: Self)
        ensures
            r == (SizedBox { corner_radius: radius, ..self }),
    {
        SizedBox { corner_radius: radius, ..self }
    }

    /// The constraints this container hands its child: on an axis whose
    /// dimension is set, the dimension clamped into the parent's bounds,
    /// as a tight constraint; on an unset axis, the parent's bounds as
    /// they are.
    pub open spec fn child_constraints_spec(self, bc: BoxConstraints) -> BoxConstraints {
        let min_width = match self.width {
            Some(width) => width.clamp_spec(bc.min_size.width, bc.max_size.width),
            None => bc.min_size.width,
        };
        let max_width = match self.width {
            Some(width) => width.clamp_spec(bc.min_size.width, bc.max_size.width),
            None => bc.max_size.width,
        };
        let min_height = match self.height {
            Some(height) => height.clamp_spec(bc.min_size.height, bc.max_size.height),
            None => bc.min_size.height,
        };
        let max_height = match self.height {
            Some(height) => height.clamp_spec(bc.min_size.height, bc.max_size.height),
            None => bc.max_size.height,
        };
        BoxConstraints {
            min_size: Size { width: min_width, height: min_height },
            max_size: Size { width: max_width, height: max_height },
        }
    }

    pub fn child_constraints(&self, bc: &BoxConstraints) -> (r: BoxConstraints)
        ensures
            r == self.child_constraints_spec(*bc),
    {
        // if we don't have a width/height, we don't change that axis.
        // if we have a width/height, we clamp it on that axis.
        let (min_width, max_width): (Dim, Dim) = match self.width {
            Some(width) => {
                let w = width.clamp(bc.min().width, bc.max().width);
                (w, w)
            }
            None => (bc.min().width, bc.max().width),
        };

        let (min_height, max_height): (Dim, Dim) = match self.height {
            Some(height) => {
                let h = height.clamp(bc.min().height, bc.max().height);
                (h, h)
            }
            None => (bc.min().height, bc.max().height),
        };

        BoxConstraints::new(
            Size::new(min_width, min_height),
            Size::new(max_width, max_height),
        )
    }

    pub fn width_and_height(&self) -> (r: (Option<Dim>, Option<Dim>))
        ensures
            r == (self.width, self.height),
    {
        (self.width, self.height)
    }

    /// The width of this container's border once resolved, zero without a
    /// border.
    pub open spec fn border_width_spec(self, env: Env) -> u64 {
        match self.border {
            Some(border) => border.width.resolve_spec(env),
            None => 0,
        }
    }

    /// The operations this container itself records in a paint pass, ahead
    /// of whatever its child records: clipped background fill first, border
    /// stroke second.
    pub open spec fn own_paint_ops_spec(self, env: Env, size: Size) -> Seq<PaintOp> {
        let radii = self.corner_radius.resolve_spec(env);
        let background_ops: Seq<PaintOp> = match self.background {
            Some(background) => seq![
                PaintOp::Save,
                PaintOp::Clip(size.to_rounded_rect_spec(radii)),
                PaintOp::Fill(size.to_rect_spec(), background.resolve_spec(env)),
                PaintOp::Restore,
            ],
            None => Seq::empty(),
        };
        let border_ops: Seq<PaintOp> = match self.border {
            Some(border) => seq![
                PaintOp::Stroke(
                    size.to_rect_spec().inset_inward_spec(
                        border.width.resolve_spec(env) / 2,
                    ).to_rounded_rect_spec(radii),
                    border.color.resolve_spec(env),
                    border.width.resolve_spec(env),
                ),
            ],
            None => Seq::empty(),
        };
        background_ops + border_ops
    }
}

impl<W: Widget> Widget for SizedBox<W> {
    fn on_event(&mut self, ctx: &mut EventCtx, event: &Event)
        ensures
            final(self).width == old(self).width,
            final(self).height == old(self).height,
            final(self).background == old(self).background,
            final(self).border == old(self).border,
            final(self).corner_radius == old(self).corner_radius,
            (match (old(self).child, final(self).child) {
                (None, None) => true,
                (Some(before), Some(after)) => before.id == after.id && before.origin
                    == after.origin && before.size == after.size,
                _ => false,
            }),
    {
        match &mut self.child {
            Some(child) => child.on_event(ctx, event),
            None => {}
        }
    }

    fn on_status_change(&mut self, ctx: &mut LifeCycleCtx, event: &StatusChange)
        ensures
            *final(self) == *old(self),
            *final(ctx) == *old(ctx),
    {
    }

    fn lifecycle(&mut self, ctx: &mut LifeCycleCtx, event: &LifeCycle)
        ensures
            final(self).width == old(self).width,
            final(self).height == old(self).height,
            final(self).background == old(self).background,
            final(self).border == old(self).border,
            final(self).corner_radius == old(self).corner_radius,
            (match (old(self).child, final(self).child) {
                (None, None) => true,
                (Some(before), Some(after)) => before.id == after.id && before.origin
                    == after.origin && before.size == after.size,
                _ => false,
            }),
    {
        match &mut self.child {
            Some(child) => child.lifecycle(ctx, event),
            None => {}
        }
    }

    fn layout(&mut self, bc: &BoxConstraints, env: &Env) -> (size: Size)
        ensures
            final(self).width == old(self).width,
            final(self).height == old(self).height,
            final(self).background == old(self).background,
            final(self).border == old(self).border,
            final(self).corner_radius == old(self).corner_radius,
            (match (old(self).child, final(self).child) {
                (None, None) => size == bc.constrain_spec(
                    Size {
                        width: dim_or_zero(old(self).width),
                        height: dim_or_zero(old(self).height),
                    },
                ),
                (Some(before), Some(after)) => {
                    let bw = old(self).border_width_spec(*env);
                    before.id == after.id && after.origin == (Point { x: bw, y: bw }) && size
                        == (Size {
                        width: after.size.width.add_spec(Dim::Finite(twice(bw))),
                        height: after.size.height.add_spec(Dim::Finite(twice(bw))),
                    })
                },
                _ => false,
            }),
    {
        // Shrink constraints by border offset
        let border_width: u64 = match &self.border {
            Some(border) => border.width.resolve(env),
            None => 0,
        };
        let double_border: u64 = if border_width <= u64::MAX / 2 {
            2 * border_width
        } else {
            u64::MAX
        };

        let child_bc = self.child_constraints(bc);
        let child_bc = child_bc.shrink(double_border, double_border);
        let origin = Point::new(border_width, border_width);

        let size: Size;
        match &mut self.child {
            Some(child) => {
                let child_size = child.layout(&child_bc, env);
                child.place(origin);
                size = Size::new(
                    child_size.width.add(Dim::Finite(double_border)),
                    child_size.height.add(Dim::Finite(double_border)),
                );
            }
            None => {
                let w = match self.width {
                    Some(w) => w,
                    None => Dim::Finite(0),
                };
                let h = match self.height {
                    Some(h) => h,
                    None => Dim::Finite(0),
                };
                size = bc.constrain(Size::new(w, h));
            }
        }

        size
    }

    fn paint(&mut self, ctx: &mut PaintCtx, env: &Env)
        ensures
            final(self).width == old(self).width,
            final(self).height == old(self).height,
            final(self).background == old(self).background,
            final(self).border == old(self).border,
            final(self).corner_radius == old(self).corner_radius,
            (match (old(self).child, final(self).child) {
                (None, None) => true,
                (Some(before), Some(after)) => before.id == after.id && before.origin
                    == after.origin && before.size == after.size,
                _ => false,
            }),
            final(ctx).size == old(ctx).size,
            final(ctx).ops@.len() >= old(ctx).ops@.len() + old(self).own_paint_ops_spec(
                *env,
                old(ctx).size,
            ).len(),
            final(ctx).ops@.subrange(
                0,
                old(ctx).ops@.len() + old(self).own_paint_ops_spec(*env, old(ctx).size).len() as int,
            ) == old(ctx).ops@ + old(self).own_paint_ops_spec(*env, old(ctx).size),
            old(self).child is None ==> final(ctx).ops@ == old(ctx).ops@ + old(
                self,
            ).own_paint_ops_spec(*env, old(ctx).size),
    {
        let corner_radius = self.corner_radius.resolve(env);

        match &self.background {
            Some(background) => {
                let panel = ctx.size().to_rounded_rect(corner_radius);
                ctx.save();
                ctx.clip(panel);
                background.paint(ctx, env);
                ctx.restore();
            }
            None => {}
        }

        match &self.border {
            Some(border) => {
                let border_width = border.width.resolve(env);
                let border_rect = ctx.size().to_rect().inset_inward(border_width / 2)
                    .to_rounded_rect(corner_radius);
                let border_color = border.color.resolve(env);
                ctx.stroke(border_rect, border_color, border_width);
            }
            None => {}
        }

        proof {
            assert(ctx.ops@ =~= old(ctx).ops@ + self.own_paint_ops_spec(*env, old(ctx).size));
        }

        match &mut self.child {
            Some(child) => {
                child.paint(ctx, env);
                proof {
                    assert(final(ctx).ops@.subrange(
                        0,
                        old(ctx).ops@.len() + old(self).own_paint_ops_spec(
                            *env,
                            old(ctx).size,
                        ).len() as int,
                    ) =~= old(ctx).ops@ + old(self).own_paint_ops_spec(*env, old(ctx).size));
                }
            }
            None => {}
        }
    }

    fn children(&self) -> (r: ChildIds)
        ensures
            child_ids(r) == (match self.child {
                Some(pod) => seq![pod.id.0],
                None => Seq::<u64>::empty(),
            }),
    {
        let mut ids = ChildIds::new();
        match &self.child {
            Some(child) => {
                ids.push(child.id.0);
                proof {
                    assert(child_ids(ids) =~= seq![child.id.0]);
                }
            }
            None => {}
        }
        ids
    }
}

/// Exclusive access to a sized box under mutation: the widget paired with
/// the context that records which dirty flags the mutation raised.
pub struct SizedBoxMut<W> {
    pub widget: SizedBox<W>,
    pub ctx: WidgetCtx,
}

impl<W: Widget> SizedBoxMut<W> {
    /// Begin a mutation pass over a widget, with no flags raised yet.
    pub fn new(widget: SizedBox<W>) -> (r: Self)
        ensures
            r.widget == widget,
            r.ctx == (WidgetCtx {
                children_changed: false,
                layout_requested: false,
                paint_requested: false,
            }),
    {
        SizedBoxMut { widget, ctx: WidgetCtx::new() }
    }

    pub fn set_child(&mut self, child: W)
        ensures
            final(self).widget == (SizedBox {
                child: Some(WidgetPod::new_spec(child, WidgetId(0))),
                ..old(self).widget
            }),
            final(self).ctx == (WidgetCtx {
                children_changed: true,
                layout_requested: true,
                ..old(self).ctx
            }),
    {
        self.widget.child = Some(WidgetPod::new(child));
        self.ctx.children_changed = true;
        self.ctx.layout_requested = true;
    }

    pub fn remove_child(&mut self)
        ensures
            final(self).widget == (SizedBox { child: None, ..old(self).widget }),
            final(self).ctx == (WidgetCtx {
                children_changed: true,
                layout_requested: true,
                ..old(self).ctx
            }),
    {
        self.widget.child = None;
        self.ctx.children_changed = true;
        self.ctx.layout_requested = true;
    }

    /// Set container's width.
    pub fn set_width(&mut self, width: Dim)
        ensures
            final(self).widget == (SizedBox { width: Some(width), ..old(self).widget }),
            final(self).ctx == (WidgetCtx { layout_requested: true, ..old(self).ctx }),
    {
        self.widget.width = Some(width);
        self.ctx.layout_requested = true;
    }

    /// Set container's height.
    pub fn set_height(&mut self, height: Dim)
        ensures
            final(self).widget == (SizedBox { height: Some(height), ..old(self).widget }),
            final(self).ctx == (WidgetCtx { layout_requested: true, ..old(self).ctx }),
    {
        self.widget.height = Some(height);
        self.ctx.layout_requested = true;
    }

    /// Unset container's width: the container matches the child's width.
    pub fn unset_width(&mut self)
        ensures
            final(self).widget == (SizedBox { width: None, ..old(self).widget }),
            final(self).ctx == (WidgetCtx { layout_requested: true, ..old(self).ctx }),
    {
        self.widget.width = None;
        self.ctx.layout_requested = true;
    }

    /// Unset container's height: the container matches the child's height.
    pub fn unset_height(&mut self)
        ensures
            final(self).widget == (SizedBox { height: None, ..old(self).widget }),
            final(self).ctx == (WidgetCtx { layout_requested: true, ..old(self).ctx }),
    {
        self.widget.height = None;
        self.ctx.layout_requested = true;
    }

    /// Set the background for this widget.
    ///
    /// This can be any [`Color`], a [`Key`] resolvable in the [`Env`], or
    /// any gradient, wrapped as a [`BackgroundBrush`].
    pub fn set_background(&mut self, brush: BackgroundBrush)
        ensures
            final(self).widget == (SizedBox { background: Some(brush), ..old(self).widget }),
            final(self).ctx == (WidgetCtx { paint_requested: true, ..old(self).ctx }),
    {
        self.widget.background = Some(brush);
        self.ctx.paint_requested = true;
    }

    /// Clears background.
    pub fn clear_background(&mut self)
        ensures
            final(self).widget == (SizedBox { background: None, ..old(self).widget }),
            final(self).ctx == (WidgetCtx { paint_requested: true, ..old(self).ctx }),
    {
        self.widget.background = None;
        self.ctx.paint_requested = true;
    }

    /// Paint a border around the widget with a color and width.
    ///
    /// Arguments can be either concrete values, or a [`Key`] of the
    /// respective type.
    pub fn set_border(&mut self, color: KeyOrValue<Color>, width: KeyOrValue<u64>)
        ensures
            final(self).widget == (SizedBox {
                border: Some(BorderStyle { color, width }),
                ..old(self).widget
            }),
            final(self).ctx == (WidgetCtx { layout_requested: true, ..old(self).ctx }),
    {
        self.widget.border = Some(BorderStyle { color, width });
        self.ctx.layout_requested = true;
    }

    /// Clears border.
    pub fn clear_border(&mut self)
        ensures
            final(self).widget == (SizedBox { border: None, ..old(self).widget }),
            final(self).ctx == (WidgetCtx { layout_requested: true, ..old(self).ctx }),
    {
        self.widget.border = None;
        self.ctx.layout_requested = true;
    }

    /// Round off corners of this container by setting a corner radius.
    pub fn set_rounded(&mut self, radius: KeyOrValue<RoundedRectRadii>)
        ensures
            final(self).widget == (SizedBox { corner_radius: radius, ..old(self).widget }),
            final(self).ctx == (WidgetCtx { paint_requested: true, ..old(self).ctx }),
    {
        self.widget.corner_radius = radius;
        self.ctx.paint_requested = true;
    }

    /// Mutable access to the child widget, if there is one.
    pub fn child_mut(&mut self) -> (r: Option<&mut W>)
        ensures
            (match r {
                Some(child) => {
                    &&& old(self).widget.child is Some
                    &&& *child == old(self).widget.child.unwrap().widget
                    &&& final(self).ctx == old(self).ctx
                    &&& final(self).widget == (SizedBox {
                        child: Some(WidgetPod {
                            widget: *final(child),
                            ..old(self).widget.child.unwrap()
                        }),
                        ..old(self).widget
                    })
                },
                None => old(self).widget.child is None && *final(self) == *old(self),
            }),
    {
        match &mut self.widget.child {
            Some(child) => Some(&mut child.widget),
            None => None,
        }
    }
}

} // verus!
