use sized_box::env::{Key, KeyOrValue};
use sized_box::geometry::{Dim, RoundedRectRadii};
use sized_box::paint::Color;
use sized_box::widget::label::Label;
use sized_box::widget::sized_box::{BackgroundBrush, SizedBox, SizedBoxMut};

fn session() -> SizedBoxMut<Label> {
    SizedBoxMut::new(SizedBox::new(Label::new(String::from("hello!"))))
}

#[test]
fn set_child_raises_children_changed_and_layout() {
    let mut m: SizedBoxMut<Label> = SizedBoxMut::new(SizedBox::empty());
    assert!(m.widget.child.is_none());
    m.set_child(Label::new(String::from("new")));
    assert!(m.widget.child.is_some());
    assert!(m.ctx.children_changed);
    assert!(m.ctx.layout_requested);
    assert!(!m.ctx.paint_requested);
}

#[test]
fn remove_child_clears_the_slot() {
    let mut m = session();
    m.remove_child();
    assert!(m.widget.child.is_none());
    assert!(m.ctx.children_changed);
    assert!(m.ctx.layout_requested);
}

#[test]
fn set_and_unset_width_and_height() {
    let mut m = session();
    m.set_width(Dim::Finite(120));
    assert_eq!(m.widget.width, Some(Dim::Finite(120)));
    assert!(m.ctx.layout_requested);
    m.set_height(Dim::Inf);
    assert_eq!(m.widget.height, Some(Dim::Inf));
    m.unset_width();
    assert_eq!(m.widget.width, None);
    m.unset_height();
    assert_eq!(m.widget.height, None);
    assert!(!m.ctx.paint_requested);
}

#[test]
fn set_background_raises_paint_only() {
    let mut m = session();
    m.set_background(BackgroundBrush::Color(KeyOrValue::Concrete(Color::rgb8(9, 9, 9))));
    assert!(m.widget.background.is_some());
    assert!(m.ctx.paint_requested);
    assert!(!m.ctx.layout_requested);
    m.clear_background();
    assert!(m.widget.background.is_none());
}

#[test]
fn set_border_raises_layout() {
    let mut m = session();
    m.set_border(KeyOrValue::Key(Key::new(4)), KeyOrValue::Concrete(2));
    assert!(m.widget.border.is_some());
    assert!(m.ctx.layout_requested);
    m.clear_border();
    assert!(m.widget.border.is_none());
}

#[test]
fn set_rounded_raises_paint() {
    let mut m = session();
    m.set_rounded(KeyOrValue::Concrete(RoundedRectRadii::from_single_radius(4)));
    assert!(m.ctx.paint_requested);
    assert!(!m.ctx.layout_requested);
}

#[test]
fn child_mut_reaches_the_child_widget() {
    let mut m = session();
    {
        let child = m.child_mut().unwrap();
        child.text = String::from("changed");
    }
    assert_eq!(m.widget.child.as_ref().unwrap().widget.text, "changed");

    let mut empty: SizedBoxMut<Label> = SizedBoxMut::new(SizedBox::empty());
    assert!(empty.child_mut().is_none());
}
