use sized_box::env::{Env, Key, KeyOrValue};
use sized_box::geometry::{BoxConstraints, Dim, Size};
use sized_box::paint::{Color, PaintBrush, PaintCtx, PaintOp};
use sized_box::widget::label::Label;
use sized_box::widget::sized_box::{BackgroundBrush, SizedBox};
use sized_box::widget::{Event, EventCtx, LifeCycle, LifeCycleCtx, Widget};
use sized_box::geometry::Point;

fn fin(v: u64) -> Dim {
    Dim::Finite(v)
}

#[test]
fn label_measures_per_character() {
    let mut label = Label::new(String::from("hello"));
    let bc = BoxConstraints::tight(Size::new(fin(400), fin(400))).loosen();
    let env = Env::empty();
    let size = label.layout(&bc, &env);
    assert_eq!(size, Size::new(fin(75), fin(15)));

    let mut small = Label::new(String::from("hello")).with_font(
        sized_box::text::font_descriptor::FontDescriptor::new(
            sized_box::text::font_descriptor::FontFamily::Monospace,
        )
        .with_size(10),
    );
    let size = small.layout(&bc, &env);
    assert_eq!(size, Size::new(fin(50), fin(10)));
}

#[test]
fn event_and_lifecycle_delegate_without_invalidating() {
    let mut widget = SizedBox::new(Label::new(String::from("hello!")));
    let mut ctx = EventCtx::new();
    widget.on_event(&mut ctx, &Event::PointerDown(Point { x: 1, y: 1 }));
    assert!(!ctx.layout_requested);
    assert!(!ctx.paint_requested);

    let mut ctx = LifeCycleCtx::new();
    widget.lifecycle(&mut ctx, &LifeCycle::WidgetAdded);
    assert!(!ctx.layout_requested);
    assert!(!ctx.paint_requested);
}

#[test]
fn background_color_key_resolves_against_env() {
    let color_key = Key::new(21);
    let mut widget: SizedBox<Label> = SizedBox::empty()
        .background(BackgroundBrush::Color(KeyOrValue::Key(color_key)));

    let mut env = Env::empty();
    env.add_color(color_key, Color::rgb8(10, 20, 30));

    let size = Size::new(fin(8), fin(8));
    let mut ctx = PaintCtx::new(size);
    widget.paint(&mut ctx, &env);
    assert_eq!(ctx.ops.len(), 4);
    assert_eq!(
        ctx.ops[2],
        PaintOp::Fill(size.to_rect(), PaintBrush::Color(Color::rgb8(10, 20, 30)))
    );

    // An unbound key falls back to transparent.
    let mut ctx = PaintCtx::new(size);
    widget.paint(&mut ctx, &Env::empty());
    assert_eq!(
        ctx.ops[2],
        PaintOp::Fill(size.to_rect(), PaintBrush::Color(Color::rgba8(0, 0, 0, 0)))
    );
}

#[test]
fn nested_boxes_paint_parent_before_child() {
    let inner: SizedBox<Label> = SizedBox::empty()
        .background(BackgroundBrush::Color(KeyOrValue::Concrete(Color::rgb8(1, 1, 1))));
    let mut outer = SizedBox::new(inner)
        .background(BackgroundBrush::Color(KeyOrValue::Concrete(Color::rgb8(2, 2, 2))));

    let env = Env::empty();
    let size = Size::new(fin(6), fin(6));
    let mut ctx = PaintCtx::new(size);
    outer.paint(&mut ctx, &env);

    // Outer clipped fill first, then the child's clipped fill.
    assert_eq!(ctx.ops.len(), 8);
    assert_eq!(
        ctx.ops[2],
        PaintOp::Fill(size.to_rect(), PaintBrush::Color(Color::rgb8(2, 2, 2)))
    );
    assert_eq!(
        ctx.ops[6],
        PaintOp::Fill(size.to_rect(), PaintBrush::Color(Color::rgb8(1, 1, 1)))
    );
}

#[test]
fn nested_boxes_layout_through_the_tree() {
    // A fixed-size inner box inside an unconstrained outer box: the outer
    // one takes the child's size.
    let inner: SizedBox<Label> = SizedBox::empty().width(fin(30)).height(fin(20));
    let mut outer = SizedBox::new(inner);
    let env = Env::empty();
    let bc = BoxConstraints::tight(Size::new(fin(100), fin(100))).loosen();
    let size = outer.layout(&bc, &env);
    assert_eq!(size, Size::new(fin(30), fin(20)));
}
