use egui_inspect::inspect::InspectAttrs;
use egui_inspect::paths::{internal_path_kind, internal_widget, path_is_internally_handled, InternalPath, InternalWidget};

#[test]
fn handled_paths() {
    for p in ["f32", "f64", "u8", "i8", "u16", "i16", "u32", "i32", "u64", "i64", "usize", "isize", "bool", "String", "str", "Vec3", "Vec4"] {
        assert!(path_is_internally_handled(p), "{p}");
    }
    for p in ["", "U8Vec3", "U8Vec4", "Vec<u8>", "f3", "string", "MyType"] {
        assert!(!path_is_internally_handled(p), "{p}");
    }
}

#[test]
fn path_kinds() {
    assert_eq!(internal_path_kind("i64"), Some(InternalPath::Number));
    assert_eq!(internal_path_kind("f32"), Some(InternalPath::Number));
    assert_eq!(internal_path_kind("String"), Some(InternalPath::Text));
    assert_eq!(internal_path_kind("Vec3"), Some(InternalPath::ColorVec));
    assert_eq!(internal_path_kind("Vec4"), Some(InternalPath::ColorVec));
    assert_eq!(internal_path_kind("bool"), None);
    assert_eq!(internal_path_kind("usize"), None);
    assert_eq!(internal_path_kind("str"), None);
    assert_eq!(internal_path_kind("U8Vec3"), None);
    assert_eq!(internal_path_kind("MyType"), None);
}

#[test]
fn internal_widgets() {
    let mut a = InspectAttrs::default();
    assert_eq!(internal_widget("u32", &a), Some(InternalWidget::NumberFree));
    assert_eq!(internal_widget("String", &a), Some(InternalWidget::TextSingleline));
    assert_eq!(internal_widget("Vec3", &a), Some(InternalWidget::Inspect));
    assert_eq!(internal_widget("bool", &a), None);
    a.slider = true;
    assert_eq!(internal_widget("f32", &a), Some(InternalWidget::NumberFree));
    a.range = true;
    assert_eq!(internal_widget("f32", &a), Some(InternalWidget::NumberSlider));
    a.slider = false;
    assert_eq!(internal_widget("f32", &a), Some(InternalWidget::NumberBounded));
    a.multiline = Some(3);
    assert_eq!(internal_widget("String", &a), Some(InternalWidget::TextMultiline));
    a.color = true;
    assert_eq!(internal_widget("Vec4", &a), Some(InternalWidget::ColorPicker));
}
