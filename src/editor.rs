use vstd::prelude::*;

use crate::names::{field_label, field_label_spec, opt_view};

verus! {

/// Rows of a multi-line text box when the attribute gives no count.
pub const DEFAULT_MULTILINE_ROWS: u8 = 4;

/// The value of a flag whose attribute defaults to on.
pub fn bool_true() -> (r: bool)
    ensures
        r,
{
    true
}

/// Rows of a multi-line text box: the count given, else the default.
pub fn multiline_rows(given: Option<u8>) -> (r: u8)
    ensures
        r == match given {
            Some(n) => n,
            None => DEFAULT_MULTILINE_ROWS,
        },
{
    match given {
        Some(n) => n,
        None => DEFAULT_MULTILINE_ROWS,
    }
}

/// Options of the date picker attached to a field.
pub struct DateOptions {
    /// Combo boxes in the picker popup.
    pub combo_boxes: bool,
    /// Arrows in the picker popup.
    pub arrows: bool,
    /// A calendar in the picker popup.
    pub calendar: bool,
    /// The calendar week in the picker popup.
    pub calendar_week: bool,
    /// The calendar icon on the button.
    pub show_icon: bool,
    /// The `strftime` format shown on the button.
    pub format: String,
    /// Weekend days highlighted.
    pub highlight_weekends: bool,
    /// The first and last year offered, when limited.
    pub start_end_years: Option<(i32, i32)>,
}

impl DateOptions {
    /// Every option on, the `%Y-%m-%d` format, and no limit on the years.
    pub open spec fn is_default(&self) -> bool {
        &&& self.combo_boxes
        &&& self.arrows
        &&& self.calendar
        &&& self.calendar_week
        &&& self.show_icon
        &&& self.format@ == "%Y-%m-%d"@
        &&& self.highlight_weekends
        &&& self.start_end_years is None
    }
}

impl Default for DateOptions {
    fn default() -> (r: Self)
        ensures
            r.is_default(),
    {
        DateOptions {
            combo_boxes: true,
            arrows: true,
            calendar: true,
            calendar_week: true,
            show_icon: true,
            format: "%Y-%m-%d".to_owned(),
            highlight_weekends: true,
            start_end_years: None,
        }
    }
}

/// The attributes written on one field or variant for the field editor. Numeric
/// bounds themselves are not held here: `slider` and `range` say whether a pair was
/// given.
pub struct FieldAttrs {
    /// The label to show instead of one made from the identifier.
    pub name: Option<String>,
    /// No widget at all.
    pub hidden: bool,
    /// Shown but not editable.
    pub read_only: bool,
    /// A slider between bounds.
    pub slider: bool,
    /// A number limited to bounds.
    pub range: bool,
    /// A text box of this many rows.
    pub multiline: Option<u8>,
    /// A color picker.
    pub color: bool,
    /// Text shown on hover.
    pub tooltip: Option<String>,
    /// A date picker with these options.
    pub date: Option<DateOptions>,
    /// A file picker with these name filters.
    pub file: Option<Vec<String>>,
    /// Edited as text, converted from and to a string.
    pub from_string: bool,
    /// A function of the user's to call in place of the generated editor.
    pub custom_fn: Option<String>,
}

impl FieldAttrs {
    /// No attribute given.
    pub open spec fn is_empty(&self) -> bool {
        &&& self.name is None
        &&& !self.hidden
        &&& !self.read_only
        &&& !self.slider
        &&& !self.range
        &&& self.multiline is None
        &&& !self.color
        &&& self.tooltip is None
        &&& self.date is None
        &&& self.file is None
        &&& !self.from_string
        &&& self.custom_fn is None
    }

    /// The attributes of a field on which none is written.
    pub fn new() -> (r: Self)
        ensures
            r.is_empty(),
    {
        FieldAttrs {
            name: None,
            hidden: false,
            read_only: false,
            slider: false,
            range: false,
            multiline: None,
            color: false,
            tooltip: None,
            date: None,
            file: None,
            from_string: false,
            custom_fn: None,
        }
    }
}

/// The widget that the field editor generates for a field.
#[derive(PartialEq, Eq, Structural, Debug, Clone, Copy)]
pub enum EditorWidget {
    /// The user's own function.
    Custom,
    /// A slider between the given bounds.
    Slider,
    /// A number limited to the given bounds.
    BoundedNumber,
    /// A multi-line text box over the value's string form, with this many rows.
    ConvertibleMultiline(u8),
    /// A one-line text box over the value's string form.
    Convertible,
    /// A multi-line text box with this many rows.
    Multiline(u8),
    /// A color picker.
    Color,
    /// A file picker.
    Path,
    /// A date picker.
    Date,
    /// The field type's own inspector.
    Inspect,
}

/// The first attribute that applies, in this order: a custom function, a slider, a
/// range, conversion from a string (multi-line or not), multi-line text, color, a file,
/// a date; with none of them, the type's own inspector.
pub open spec fn editor_widget_spec(a: &FieldAttrs) -> EditorWidget {
    if a.custom_fn is Some {
        EditorWidget::Custom
    } else if a.slider {
        EditorWidget::Slider
    } else if a.range {
        EditorWidget::BoundedNumber
    } else if a.from_string {
        match a.multiline {
            Some(n) => EditorWidget::ConvertibleMultiline(n),
            None => EditorWidget::Convertible,
        }
    } else if a.multiline is Some {
        EditorWidget::Multiline(a.multiline->0)
    } else if a.color {
        EditorWidget::Color
    } else if a.file is Some {
        EditorWidget::Path
    } else if a.date is Some {
        EditorWidget::Date
    } else {
        EditorWidget::Inspect
    }
}

/// The widget generated for a field with attributes `a`.
pub fn editor_widget(a: &FieldAttrs) -> (r: EditorWidget)
    ensures
        r == editor_widget_spec(a),
{
    if a.custom_fn.is_some() {
        EditorWidget::Custom
    } else if a.slider {
        EditorWidget::Slider
    } else if a.range {
        EditorWidget::BoundedNumber
    } else if a.from_string {
        match a.multiline {
            Some(n) => EditorWidget::ConvertibleMultiline(n),
            None => EditorWidget::Convertible,
        }
    } else if let Some(n) = a.multiline {
        EditorWidget::Multiline(n)
    } else if a.color {
        EditorWidget::Color
    } else if a.file.is_some() {
        EditorWidget::Path
    } else if a.date.is_some() {
        EditorWidget::Date
    } else {
        EditorWidget::Inspect
    }
}

/// What the generated code for one field is made from.
pub struct FieldPlan {
    /// The label shown beside the widget.
    pub label: String,
    /// The text shown on hover; empty for none.
    pub tooltip: String,
    /// Whether the field's attributes, or those of the variant holding it, make it read only.
    pub read_only: bool,
    /// The widget.
    pub widget: EditorWidget,
}

/// The tooltip given, or the empty text.
pub open spec fn tooltip_text(t: Option<String>) -> Seq<char> {
    match t {
        Some(s) => s@,
        None => Seq::empty(),
    }
}

/// The tooltip of a field: the one given, else none.
pub fn tooltip_of(t: &Option<String>) -> (r: String)
    ensures
        r@ == tooltip_text(*t),
{
    match t {
        Some(s) => s.clone(),
        None => String::new(),
    }
}

/// The plan for a field that is not hidden. `ident` is its identifier where it has
/// one, `fallback` the name used where it has none, and `parent_read_only` whether the
/// enum variant holding it is read only.
pub fn plan_editor_field(
    a: &FieldAttrs,
    ident: &Option<String>,
    fallback: &str,
    parent_read_only: bool,
) -> (r: FieldPlan)
    ensures
        r.label@ == field_label_spec(opt_view(a.name), opt_view(*ident), fallback@),
        r.tooltip@ == tooltip_text(a.tooltip),
        r.read_only == (a.read_only || parent_read_only),
        r.widget == editor_widget_spec(a),
{
    FieldPlan {
        label: field_label(&a.name, ident, fallback),
        tooltip: tooltip_of(&a.tooltip),
        read_only: a.read_only || parent_read_only,
        widget: editor_widget(a),
    }
}

} // verus!
