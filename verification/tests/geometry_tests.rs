use sized_box::geometry::{BoxConstraints, Dim, Rect, Size};

fn fin(v: u64) -> Dim {
    Dim::Finite(v)
}

#[test]
fn dim_order_and_clamp() {
    assert_eq!(fin(3).max(fin(5)), fin(5));
    assert_eq!(fin(3).min(fin(5)), fin(3));
    assert_eq!(Dim::Inf.max(fin(5)), Dim::Inf);
    assert_eq!(Dim::Inf.min(fin(5)), fin(5));
    assert_eq!(fin(7).clamp(fin(10), fin(20)), fin(10));
    assert_eq!(fin(25).clamp(fin(10), fin(20)), fin(20));
    assert_eq!(Dim::Inf.clamp(fin(10), fin(20)), fin(20));
}

#[test]
fn dim_add_saturates_to_inf() {
    assert_eq!(fin(2).add(fin(3)), fin(5));
    assert_eq!(fin(u64::MAX).add(fin(1)), Dim::Inf);
    assert_eq!(Dim::Inf.add(fin(1)), Dim::Inf);
}

#[test]
fn dim_sub_stops_at_zero() {
    assert_eq!(fin(5).sub(2), fin(3));
    assert_eq!(fin(2).sub(5), fin(0));
    assert_eq!(Dim::Inf.sub(5), Dim::Inf);
}

#[test]
fn constrain_clamps_each_axis() {
    let bc = BoxConstraints::new(
        Size::new(fin(10), fin(10)),
        Size::new(fin(20), fin(20)),
    );
    assert_eq!(
        bc.constrain(Size::new(fin(5), fin(25))),
        Size::new(fin(10), fin(20))
    );
    assert_eq!(
        bc.constrain(Size::new(Dim::Inf, fin(15))),
        Size::new(fin(20), fin(15))
    );
}

#[test]
fn shrink_reduces_both_bounds() {
    let bc = BoxConstraints::new(
        Size::new(fin(10), fin(4)),
        Size::new(fin(20), Dim::Inf),
    );
    let shrunk = bc.shrink(6, 6);
    assert_eq!(shrunk.min(), Size::new(fin(4), fin(0)));
    assert_eq!(shrunk.max(), Size::new(fin(14), Dim::Inf));
}

#[test]
fn rect_inset_inward_moves_every_edge() {
    let r = Size::new(fin(40), fin(40)).to_rect();
    assert_eq!(r, Rect { x0: 0, y0: 0, x1: fin(40), y1: fin(40) });
    let inset = r.inset_inward(2);
    assert_eq!(inset, Rect { x0: 2, y0: 2, x1: fin(38), y1: fin(38) });
}

#[test]
fn tight_and_loosen() {
    let bc = BoxConstraints::tight(Size::new(fin(400), fin(400)));
    assert_eq!(bc.min(), Size::new(fin(400), fin(400)));
    let loose = bc.loosen();
    assert_eq!(loose.min(), Size::new(fin(0), fin(0)));
    assert_eq!(loose.max(), Size::new(fin(400), fin(400)));
}
