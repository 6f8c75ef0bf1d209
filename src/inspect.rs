use vstd::prelude::*;

use crate::editor::{tooltip_of, tooltip_text, DateOptions};
use crate::names::{field_label, field_label_spec, opt_view};

verus! {

/// The value of a date option left unset: on.
pub fn default_true() -> (r: bool)
    ensures
        r,
{
    true
}

/// The date format used when none is set.
pub fn default_format() -> (r: String)
    ensures
        r@ == "%Y-%m-%d"@,
{
    "%Y-%m-%d".to_owned()
}

/// The attributes written on one field or variant for the inspector. Numeric bounds
/// themselves are not held here: `range` says whether a pair was given.
pub struct InspectAttrs {
    /// The label to show instead of one made from the identifier.
    pub name: Option<String>,
    /// No widget at all.
    pub hidden: bool,
    /// Shown but not editable.
    pub read_only: bool,
    /// A slider; it needs a range.
    pub slider: bool,
    /// A text box of this many rows.
    pub multiline: Option<u8>,
    /// A color picker.
    pub color: bool,
    /// A number limited to bounds.
    pub range: bool,
    /// Text shown on hover.
    pub tooltip: Option<String>,
    /// Date picker options.
    pub date: Option<DateOptions>,
}

impl InspectAttrs {
    /// No attribute given.
    pub open spec fn is_empty(&self) -> bool {
        &&& self.name is None
        &&& !self.hidden
        &&& !self.read_only
        &&& !self.slider
        &&& self.multiline is None
        &&& !self.color
        &&& !self.range
        &&& self.tooltip is None
        &&& self.date is None
    }
}

impl Default for InspectAttrs {
    fn default() -> (r: Self)
        ensures
            r.is_empty(),
    {
        InspectAttrs {
            name: None,
            hidden: false,
            read_only: false,
            slider: false,
            multiline: None,
            color: false,
            range: false,
            tooltip: None,
            date: None,
        }
    }
}

/// The widget that the inspector generates for a field.
#[derive(PartialEq, Eq, Structural, Debug, Clone, Copy)]
pub enum InspectWidget {
    /// A slider between the given bounds.
    Slider,
    /// A number limited to the given bounds.
    BoundedNumber,
    /// A multi-line text box with this many rows.
    Multiline(u8),
    /// A color picker.
    Color,
    /// The field type's own inspector.
    Inspect,
}

/// An attribute combination that the inspector refuses.
#[derive(PartialEq, Eq, Structural, Debug, Clone, Copy)]
pub enum AttrError {
    /// `slider` was given without a range.
    SliderWithoutRange,
}

impl AttrError {
    /// The message reported at the field.
    pub fn message(&self) -> (r: String)
        ensures
            r@ == "range is mandatory with slider"@,
    {
        match self {
            AttrError::SliderWithoutRange => "range is mandatory with slider".to_owned(),
        }
    }
}

/// A slider needs a range; with one it wins. Then a range, multi-line text, color;
/// with none of them, the type's own inspector.
pub open spec fn inspect_widget_spec(a: &InspectAttrs) -> Result<InspectWidget, AttrError> {
    if a.slider {
        if a.range {
            Ok(InspectWidget::Slider)
        } else {
            Err(AttrError::SliderWithoutRange)
        }
    } else if a.range {
        Ok(InspectWidget::BoundedNumber)
    } else if a.multiline is Some {
        Ok(InspectWidget::Multiline(a.multiline->0))
    } else if a.color {
        Ok(InspectWidget::Color)
    } else {
        Ok(InspectWidget::Inspect)
    }
}

/// The widget generated for a field with attributes `a`, or the error reported there.
pub fn inspect_widget(a: &InspectAttrs) -> (r: Result<InspectWidget, AttrError>)
    ensures
        r == inspect_widget_spec(a),
        r is Err <==> (a.slider && !a.range),
{
    if a.slider {
        if a.range {
            Ok(InspectWidget::Slider)
        } else {
            Err(AttrError::SliderWithoutRange)
        }
    } else if a.range {
        Ok(InspectWidget::BoundedNumber)
    } else if let Some(n) = a.multiline {
        Ok(InspectWidget::Multiline(n))
    } else if a.color {
        Ok(InspectWidget::Color)
    } else {
        Ok(InspectWidget::Inspect)
    }
}

/// What the generated code for one field is made from.
pub struct InspectPlan {
    /// The label shown beside the widget.
    pub label: String,
    /// The text shown on hover; empty for none.
    pub tooltip: String,
    /// Whether the field's attributes, or those of the variant holding it, make it read only.
    pub read_only: bool,
    /// The widget.
    pub widget: InspectWidget,
}

/// The plan for a field that is not hidden, or the error reported at it. `ident` is
/// its identifier where it has one, `fallback` the name used where it has none, and
/// `parent_read_only` whether the enum variant holding it is read only.
pub fn plan_inspect_field(
    a: &InspectAttrs,
    ident: &Option<String>,
    fallback: &str,
    parent_read_only: bool,
) -> (r: Result<InspectPlan, AttrError>)
    ensures
        r is Err <==> (a.slider && !a.range),
        r is Err ==> r->Err_0 == AttrError::SliderWithoutRange,
        r is Ok ==> {
            &&& r->Ok_0.label@ == field_label_spec(opt_view(a.name), opt_view(*ident), fallback@)
            &&& r->Ok_0.tooltip@ == tooltip_text(a.tooltip)
            &&& r->Ok_0.read_only == (a.read_only || parent_read_only)
            &&& inspect_widget_spec(a) == Ok::<InspectWidget, AttrError>(r->Ok_0.widget)
        },
{
    match inspect_widget(a) {
        Ok(widget) => Ok(
            InspectPlan {
                label: field_label(&a.name, ident, fallback),
                tooltip: tooltip_of(&a.tooltip),
                read_only: a.read_only || parent_read_only,
                widget,
            },
        ),
        Err(e) => Err(e),
    }
}

} // verus!
