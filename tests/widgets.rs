use egui_inspect::editor::{
    bool_true, editor_widget, multiline_rows, plan_editor_field, tooltip_of, DateOptions,
    EditorWidget, FieldAttrs, DEFAULT_MULTILINE_ROWS,
};
use egui_inspect::inspect::{
    default_format, default_true, inspect_widget, plan_inspect_field, AttrError, InspectAttrs,
    InspectWidget,
};

#[test]
fn editor_default_is_inspect() {
    assert_eq!(editor_widget(&FieldAttrs::new()), EditorWidget::Inspect);
}

#[test]
fn editor_priority_order() {
    let mut a = FieldAttrs::new();
    a.date = Some(DateOptions::default());
    assert_eq!(editor_widget(&a), EditorWidget::Date);
    a.file = Some(vec!["*.txt".to_string()]);
    assert_eq!(editor_widget(&a), EditorWidget::Path);
    a.color = true;
    assert_eq!(editor_widget(&a), EditorWidget::Color);
    a.multiline = Some(6);
    assert_eq!(editor_widget(&a), EditorWidget::Multiline(6));
    a.from_string = true;
    assert_eq!(editor_widget(&a), EditorWidget::ConvertibleMultiline(6));
    a.multiline = None;
    assert_eq!(editor_widget(&a), EditorWidget::Convertible);
    a.range = true;
    assert_eq!(editor_widget(&a), EditorWidget::BoundedNumber);
    a.slider = true;
    assert_eq!(editor_widget(&a), EditorWidget::Slider);
    a.custom_fn = Some("my_editor".to_string());
    assert_eq!(editor_widget(&a), EditorWidget::Custom);
}

#[test]
fn editor_plan() {
    let mut a = FieldAttrs::new();
    a.tooltip = Some("help".to_string());
    a.color = true;
    let p = plan_editor_field(&a, &Some("bg_color".to_string()), "", true);
    assert_eq!(p.label, "Bg Color");
    assert_eq!(p.tooltip, "help");
    assert!(p.read_only);
    assert_eq!(p.widget, EditorWidget::Color);
    let q = plan_editor_field(&FieldAttrs::new(), &None, "Field 1", false);
    assert_eq!(q.label, "Field  1");
    assert_eq!(q.tooltip, "");
    assert!(!q.read_only);
}

#[test]
fn defaults() {
    assert!(bool_true());
    assert!(default_true());
    assert_eq!(default_format(), "%Y-%m-%d");
    assert_eq!(multiline_rows(None), 4);
    assert_eq!(multiline_rows(Some(9)), 9);
    assert_eq!(DEFAULT_MULTILINE_ROWS, 4);
    assert_eq!(tooltip_of(&None), "");
    let d = DateOptions::default();
    assert!(d.combo_boxes && d.arrows && d.calendar && d.calendar_week && d.show_icon && d.highlight_weekends);
    assert_eq!(d.format, "%Y-%m-%d");
    assert_eq!(d.start_end_years, None);
}

#[test]
fn inspect_slider_needs_range() {
    let mut a = InspectAttrs::default();
    a.slider = true;
    assert_eq!(inspect_widget(&a), Err(AttrError::SliderWithoutRange));
    assert_eq!(AttrError::SliderWithoutRange.message(), "range is mandatory with slider");
    assert!(plan_inspect_field(&a, &None, "x", false).is_err());
    a.range = true;
    assert_eq!(inspect_widget(&a), Ok(InspectWidget::Slider));
}

#[test]
fn inspect_priority_order() {
    let mut a = InspectAttrs::default();
    assert_eq!(inspect_widget(&a), Ok(InspectWidget::Inspect));
    a.color = true;
    assert_eq!(inspect_widget(&a), Ok(InspectWidget::Color));
    a.multiline = Some(4);
    assert_eq!(inspect_widget(&a), Ok(InspectWidget::Multiline(4)));
    a.range = true;
    assert_eq!(inspect_widget(&a), Ok(InspectWidget::BoundedNumber));
}

#[test]
fn inspect_plan() {
    let mut a = InspectAttrs::default();
    a.name = Some("Speed".to_string());
    a.read_only = true;
    let p = plan_inspect_field(&a, &Some("max_speed".to_string()), "", false).ok().unwrap();
    assert_eq!(p.label, "Speed");
    assert!(p.read_only);
    assert_eq!(p.widget, InspectWidget::Inspect);
}
