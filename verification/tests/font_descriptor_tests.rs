use sized_box::data::Data;
use sized_box::text::font_descriptor::{
    FontDescriptor, FontFamily, FontStyle, FontWeight, DEFAULT_FONT_SIZE,
};

#[test]
fn new_uses_the_defaults() {
    let d = FontDescriptor::new(FontFamily::Serif);
    assert_eq!(d.family, FontFamily::Serif);
    assert_eq!(d.size, DEFAULT_FONT_SIZE);
    assert_eq!(d.weight, FontWeight(400));
    assert_eq!(d.style, FontStyle::Regular);
}

#[test]
fn builder_methods_replace_one_attribute() {
    let d = FontDescriptor::new(FontFamily::Monospace)
        .with_size(22)
        .with_weight(FontWeight::bold())
        .with_style(FontStyle::Italic);
    assert_eq!(d.family, FontFamily::Monospace);
    assert_eq!(d.size, 22);
    assert_eq!(d.weight, FontWeight(700));
    assert_eq!(d.style, FontStyle::Italic);
}

#[test]
fn default_is_system_ui_at_default_size() {
    let d = FontDescriptor::default();
    assert_eq!(d, FontDescriptor::new(FontFamily::SystemUi));
}

#[test]
fn same_is_equality_on_all_attributes() {
    let a = FontDescriptor::new(FontFamily::SansSerif).with_size(12);
    let b = FontDescriptor::new(FontFamily::SansSerif).with_size(12);
    assert!(a.same(&b));
    assert!(!a.same(&b.with_size(13)));
    assert!(!a.same(&b.with_style(FontStyle::Italic)));
    assert!(!a.same(&b.with_weight(FontWeight(500))));
    assert!(!a.same(&FontDescriptor::new(FontFamily::Serif).with_size(12)));
}
