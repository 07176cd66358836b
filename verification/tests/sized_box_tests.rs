use sized_box::env::{Env, Key, KeyOrValue};
use sized_box::geometry::{BoxConstraints, Dim, Point, Rect, RoundedRect, RoundedRectRadii, Size};
use sized_box::paint::{Color, PaintBrush, PaintCtx, PaintOp};
use sized_box::widget::label::Label;
use sized_box::widget::sized_box::{BackgroundBrush, SizedBox};
use sized_box::widget::{Widget, WidgetId};

fn blue() -> Color {
    Color::rgb8(0, 0, 255)
}

fn fin(v: u64) -> Dim {
    Dim::Finite(v)
}

#[test]
fn expand() {
    let expand = SizedBox::new(Label::new(String::from("hello!"))).expand();
    let bc = BoxConstraints::tight(Size::new(fin(400), fin(400))).loosen();
    let child_bc = expand.child_constraints(&bc);
    assert_eq!(child_bc.min(), Size::new(fin(400), fin(400)));
}

#[test]
fn no_width() {
    let expand = SizedBox::new(Label::new(String::from("hello!"))).height(fin(200));
    let bc = BoxConstraints::tight(Size::new(fin(400), fin(400))).loosen();
    let child_bc = expand.child_constraints(&bc);
    assert_eq!(child_bc.min(), Size::new(fin(0), fin(200)));
    assert_eq!(child_bc.max(), Size::new(fin(400), fin(200)));
}

#[test]
fn empty_box() {
    let mut widget: SizedBox<Label> = SizedBox::empty()
        .width(fin(40))
        .height(fin(40))
        .border(KeyOrValue::Concrete(blue()), KeyOrValue::Concrete(5))
        .rounded(KeyOrValue::Concrete(RoundedRectRadii::from_single_radius(5)));

    let env = Env::empty();
    let bc = BoxConstraints::tight(Size::new(fin(100), fin(100))).loosen();
    let size = widget.layout(&bc, &env);
    assert_eq!(size, Size::new(fin(40), fin(40)));

    let mut ctx = PaintCtx::new(size);
    widget.paint(&mut ctx, &env);
    assert_eq!(ctx.ops.len(), 1);
    let radii = RoundedRectRadii::from_single_radius(5);
    let expected_rect = Rect { x0: 2, y0: 2, x1: fin(38), y1: fin(38) };
    assert_eq!(
        ctx.ops[0],
        PaintOp::Stroke(RoundedRect { rect: expected_rect, radii }, blue(), 5)
    );
}

#[test]
fn label_box_no_size() {
    let mut widget = SizedBox::new(Label::new(String::from("hello")))
        .border(KeyOrValue::Concrete(blue()), KeyOrValue::Concrete(5))
        .rounded(KeyOrValue::Concrete(RoundedRectRadii::from_single_radius(5)));

    let env = Env::empty();
    let bc = BoxConstraints::tight(Size::new(fin(200), fin(200))).loosen();
    let size = widget.layout(&bc, &env);
    // "hello" measures 5 chars * 15 units wide, 15 units high; the border
    // adds 5 units on every side.
    assert_eq!(size, Size::new(fin(85), fin(25)));
    let child = widget.child.as_ref().unwrap();
    assert_eq!(child.origin, Point { x: 5, y: 5 });
    assert_eq!(child.size, Size::new(fin(75), fin(15)));
}

#[test]
fn label_box_with_size() {
    let mut widget = SizedBox::new(Label::new(String::from("hello")))
        .width(fin(40))
        .height(fin(40))
        .border(KeyOrValue::Concrete(blue()), KeyOrValue::Concrete(5))
        .rounded(KeyOrValue::Concrete(RoundedRectRadii::from_single_radius(5)));

    let env = Env::empty();
    let bc = BoxConstraints::tight(Size::new(fin(200), fin(200))).loosen();
    let size = widget.layout(&bc, &env);
    // The box is forced to 40 by 40: the child is squeezed to 30 by 30 and
    // the border adds the 10 back on each axis.
    assert_eq!(size, Size::new(fin(40), fin(40)));
    let child = widget.child.as_ref().unwrap();
    assert_eq!(child.size, Size::new(fin(30), fin(30)));
}

#[test]
fn expand_no_child_fills_parent() {
    let mut widget: SizedBox<Label> = SizedBox::empty().expand();
    let env = Env::empty();
    let bc = BoxConstraints::tight(Size::new(fin(400), fin(400))).loosen();
    let size = widget.layout(&bc, &env);
    assert_eq!(size, Size::new(fin(400), fin(400)));
}

#[test]
fn empty_box_layout_without_sizes_is_zero() {
    let mut widget: SizedBox<Label> = SizedBox::empty();
    let env = Env::empty();
    let bc = BoxConstraints::tight(Size::new(fin(400), fin(400))).loosen();
    let size = widget.layout(&bc, &env);
    assert_eq!(size, Size::new(fin(0), fin(0)));
}

#[test]
fn background_paint_is_clipped() {
    let mut widget: SizedBox<Label> = SizedBox::empty()
        .width(fin(10))
        .height(fin(10))
        .background(BackgroundBrush::Color(KeyOrValue::Concrete(blue())))
        .rounded(KeyOrValue::Concrete(RoundedRectRadii::from_single_radius(3)));

    let env = Env::empty();
    let size = Size::new(fin(10), fin(10));
    let mut ctx = PaintCtx::new(size);
    widget.paint(&mut ctx, &env);

    let radii = RoundedRectRadii::from_single_radius(3);
    let bounds = Rect { x0: 0, y0: 0, x1: fin(10), y1: fin(10) };
    assert_eq!(
        ctx.ops,
        vec![
            PaintOp::Save,
            PaintOp::Clip(RoundedRect { rect: bounds, radii }),
            PaintOp::Fill(bounds, PaintBrush::Color(blue())),
            PaintOp::Restore,
        ]
    );
}

#[test]
fn border_width_key_resolves_from_env() {
    let width_key = Key::new(11);
    let mut widget = SizedBox::new(Label::new(String::from("hi")))
        .border(KeyOrValue::Concrete(blue()), KeyOrValue::Key(width_key));

    let mut env = Env::empty();
    env.add_dim(width_key, 5);
    let bc = BoxConstraints::tight(Size::new(fin(200), fin(200))).loosen();
    let size = widget.layout(&bc, &env);
    // "hi" measures 30 by 15; the bound border width 5 adds 10 to each axis.
    assert_eq!(size, Size::new(fin(40), fin(25)));

    // An unbound key resolves to zero: no border inset at all.
    let empty_env = Env::empty();
    let size = widget.layout(&bc, &empty_env);
    assert_eq!(size, Size::new(fin(30), fin(15)));
}

#[test]
fn children_reports_the_child_id() {
    let widget = SizedBox::new_with_id(Label::new(String::from("x")), WidgetId(7));
    let ids = widget.children();
    assert_eq!(ids.len(), 1);
    assert_eq!(ids.get(0), 7);
    assert_eq!(ids.to_vec(), vec![7]);

    let empty: SizedBox<Label> = SizedBox::empty();
    let ids = empty.children();
    assert_eq!(ids.len(), 0);
    assert_eq!(ids.to_vec(), Vec::<u64>::new());
}

#[test]
fn background_brush_from_conversions() {
    let brush = BackgroundBrush::from(blue());
    assert!(matches!(
        brush,
        BackgroundBrush::Color(KeyOrValue::Concrete(c)) if c == blue()
    ));

    let brush = BackgroundBrush::from(Key::new(3));
    assert!(matches!(
        brush,
        BackgroundBrush::Color(KeyOrValue::Key(k)) if k.id == 3
    ));

    let brush = BackgroundBrush::from(PaintBrush::Color(blue()));
    assert!(matches!(
        brush,
        BackgroundBrush::Color(KeyOrValue::Concrete(c)) if c == blue()
    ));
}
