//! The widget tree's core: the widget protocol, the pod a parent keeps a
//! child in, and the contexts the passes hand down.

pub mod label;
pub mod sized_box;

use vstd::prelude::*;
use smallvec::SmallVec;
use crate::env::Env;
use crate::geometry::{BoxConstraints, Point, Size};
use crate::paint::PaintCtx;

verus! {

/// Identity of a widget in the tree.
#[derive(Clone, Copy, Debug, PartialEq, Eq, Structural)]
pub struct WidgetId(pub u64);

/// An input event delivered to the tree.
#[derive(Clone, Copy, Debug, PartialEq, Eq, Structural)]
pub enum Event {
    PointerDown(Point),
    PointerUp(Point),
    PointerMove(Point),
}

/// A lifecycle notice delivered to the tree.
#[derive(Clone, Copy, Debug, PartialEq, Eq, Structural)]
pub enum LifeCycle {
    WidgetAdded,
    DisabledChanged(bool),
}

/// A change of a widget's interactive status.
#[derive(Clone, Copy, Debug, PartialEq, Eq, Structural)]
pub enum StatusChange {
    HotChanged(bool),
    FocusChanged(bool),
}

/// The context of an event pass: what the pass has invalidated so far.
#[derive(Clone, Copy, Debug, PartialEq, Eq, Structural)]
pub struct EventCtx {
    pub layout_requested: bool,
    pub paint_requested: bool,
}

impl EventCtx {
    pub fn new() -> (r: EventCtx)
        ensures
            r == (EventCtx { layout_requested: false, paint_requested: false }),
    {
        EventCtx { layout_requested: false, paint_requested: false }
    }

    pub fn request_layout(&mut self)
        ensures
            final(self).layout_requested,
            final(self).paint_requested == old(self).paint_requested,
    {
        self.layout_requested = true;
    }

    pub fn request_paint(&mut self)
        ensures
            final(self).paint_requested,
            final(self).layout_requested == old(self).layout_requested,
    {
        self.paint_requested = true;
    }
}

/// The context of a lifecycle pass: what the pass has invalidated so far.
#[derive(Clone, Copy, Debug, PartialEq, Eq, Structural)]
pub struct LifeCycleCtx {
    pub layout_requested: bool,
    pub paint_requested: bool,
}

impl LifeCycleCtx {
    pub fn new() -> (r: LifeCycleCtx)
        ensures
            r == (LifeCycleCtx { layout_requested: false, paint_requested: false }),
    {
        LifeCycleCtx { layout_requested: false, paint_requested: false }
    }

    pub fn request_layout(&mut self)
        ensures
            final(self).layout_requested,
            final(self).paint_requested == old(self).paint_requested,
    {
        self.layout_requested = true;
    }

    pub fn request_paint(&mut self)
        ensures
            final(self).paint_requested,
            final(self).layout_requested == old(self).layout_requested,
    {
        self.paint_requested = true;
    }
}

/// The context of a mutation pass: the dirty flags a mutable access to a
/// widget raises, which tell the framework what to recompute.
#[derive(Clone, Copy, Debug, PartialEq, Eq, Structural)]
pub struct WidgetCtx {
    pub children_changed: bool,
    pub layout_requested: bool,
    pub paint_requested: bool,
}

impl WidgetCtx {
    pub fn new() -> (r: WidgetCtx)
        ensures
            r == (WidgetCtx {
                children_changed: false,
                layout_requested: false,
                paint_requested: false,
            }),
    {
        WidgetCtx { children_changed: false, layout_requested: false, paint_requested: false }
    }
}

/// The tree protocol every widget implements.
pub trait Widget: Sized {
    /// Handle an event, delegating to children as needed.
    fn on_event(&mut self, ctx: &mut EventCtx, event: &Event);

    /// React to a change of this widget's interactive status.
    fn on_status_change(&mut self, ctx: &mut LifeCycleCtx, event: &StatusChange);

    /// Propagate a lifecycle notice.
    fn lifecycle(&mut self, ctx: &mut LifeCycleCtx, event: &LifeCycle);

    /// Measure this widget under the parent's constraints and return the
    /// size it takes.
    fn layout(&mut self, bc: &BoxConstraints, env: &Env) -> Size;

    /// Record this widget's paint operations. A paint pass appends: it may
    /// neither disturb what was recorded before it nor resize the canvas.
    fn paint(&mut self, ctx: &mut PaintCtx, env: &Env)
        ensures
            final(ctx).size == old(ctx).size,
            old(ctx).ops@.len() <= final(ctx).ops@.len(),
            final(ctx).ops@.subrange(0, old(ctx).ops@.len() as int) == old(ctx).ops@,
    ;

    /// The ids of this widget's direct children.
    fn children(&self) -> ChildIds;
}

/// The ids of a widget's direct children, kept in a small vector that
/// stays inline for the usual handful of children. Opaque to the verifier;
/// its contents are named by [`child_ids`].
#[verifier::external_body]
pub struct ChildIds {
    inner: SmallVec<[u64; 16]>,
}

/// The ids such a vector holds, in order.
pub uninterp spec fn child_ids(v: ChildIds) -> Seq<u64>;

impl ChildIds {
    /// Relies on smallvec::SmallVec::new: a freshly constructed vector is
    /// empty.
    #[verifier::external_body]
    pub fn new() -> (r: ChildIds)
        ensures
            child_ids(r) == Seq::<u64>::empty(),
    {
        ChildIds { inner: SmallVec::new() }
    }

    /// Relies on smallvec::SmallVec::push: appends the value at the back.
    /// The bound keeps the vector inline, where pushing cannot fail.
    #[verifier::external_body]
    pub fn push(&mut self, x: u64)
        requires
            child_ids(*old(self)).len() < 16,
        ensures
            child_ids(*final(self)) == child_ids(*old(self)).push(x),
    {
        self.inner.push(x)
    }

    /// Relies on smallvec::SmallVec::len, through its slice view: the
    /// number of ids held.
    #[verifier::external_body]
    pub fn len(&self) -> (r: usize)
        ensures
            r == child_ids(*self).len(),
    {
        self.inner.len()
    }

    /// Relies on smallvec's slice indexing: the id at position `i`.
    #[verifier::external_body]
    pub fn get(&self, i: usize) -> (r: u64)
        requires
            i < child_ids(*self).len(),
        ensures
            r == child_ids(*self)[i as int],
    {
        self.inner[i]
    }

    /// The ids as a plain vector.
    pub fn to_vec(&self) -> (r: Vec<u64>)
        ensures
            r@ == child_ids(*self),
    {
        let mut out: Vec<u64> = Vec::new();
        let n = self.len();
        let mut i: usize = 0;
        while i < n
            invariant
                n == child_ids(*self).len(),
                i <= n,
                out@ == child_ids(*self).subrange(0, i as int),
            decreases n - i,
        {
            let id = self.get(i);
            out.push(id);
            proof {
                assert(out@ =~= child_ids(*self).subrange(0, i as int + 1));
            }
            i = i + 1;
        }
        proof {
            assert(child_ids(*self).subrange(0, n as int) =~= child_ids(*self));
        }
        out
    }
}

/// A slot a parent keeps a child widget in: the widget itself plus the
/// layout state its parent manages for it.
pub struct WidgetPod<W> {
    pub widget: W,
    pub id: WidgetId,
    pub origin: Point,
    pub size: Size,
}

impl<W: Widget> WidgetPod<W> {
    /// The pod every constructor starts from: not yet placed, of zero size.
    pub open spec fn new_spec(widget: W, id: WidgetId) -> WidgetPod<W> {
        WidgetPod { widget, id, origin: Point { x: 0, y: 0 }, size: Size::zero_spec() }
    }

    /// Wrap a widget. A pod made without an explicit id carries the zero id.
    pub fn new(widget: W) -> (r: WidgetPod<W>)
        ensures
            r == WidgetPod::new_spec(widget, WidgetId(0)),
    {
        WidgetPod { widget, id: WidgetId(0), origin: Point::new(0, 0), size: Size::zero() }
    }

    pub fn new_with_id(widget: W, id: WidgetId) -> (r: WidgetPod<W>)
        ensures
            r == WidgetPod::new_spec(widget, id),
    {
        WidgetPod { widget, id, origin: Point::new(0, 0), size: Size::zero() }
    }

    /// Deliver an event to the child. Only the widget itself may change.
    pub fn on_event(&mut self, ctx: &mut EventCtx, event: &Event)
        ensures
            final(self).id == old(self).id,
            final(self).origin == old(self).origin,
            final(self).size == old(self).size,
    {
        self.widget.on_event(ctx, event);
    }

    /// Deliver a lifecycle notice to the child. Only the widget itself may
    /// change.
    pub fn lifecycle(&mut self, ctx: &mut LifeCycleCtx, event: &LifeCycle)
        ensures
            final(self).id == old(self).id,
            final(self).origin == old(self).origin,
            final(self).size == old(self).size,
    {
        self.widget.lifecycle(ctx, event);
    }

    /// Lay the child out and record the size it took.
    pub fn layout(&mut self, bc: &BoxConstraints, env: &Env) -> (s: Size)
        ensures
            final(self).size == s,
            final(self).id == old(self).id,
            final(self).origin == old(self).origin,
    {
        let s = self.widget.layout(bc, env);
        self.size = s;
        s
    }

    /// Record where in the parent the child goes.
    pub fn place(&mut self, origin: Point)
        ensures
            final(self).origin == origin,
            final(self).widget == old(self).widget,
            final(self).id == old(self).id,
            final(self).size == old(self).size,
    {
        self.origin = origin;
    }

    /// Paint the child. Follows the paint protocol: the recording appends.
    pub fn paint(&mut self, ctx: &mut PaintCtx, env: &Env)
        ensures
            final(self).id == old(self).id,
            final(self).origin == old(self).origin,
            final(self).size == old(self).size,
            final(ctx).size == old(ctx).size,
            old(ctx).ops@.len() <= final(ctx).ops@.len(),
            final(ctx).ops@.subrange(0, old(ctx).ops@.len() as int) == old(ctx).ops@,
    {
        self.widget.paint(ctx, env);
    }
}

} // verus!
