use vstd::prelude::*;

use crate::inspect::InspectAttrs;
use crate::text::same_text;

verus! {

/// Whether a field type, written as a path, is one that the generator edits with a
/// dedicated widget rather than through the type's own inspector.
pub open spec fn internally_handled(p: Seq<char>) -> bool {
    ||| p == "f32"@
    ||| p == "f64"@
    ||| p == "u8"@
    ||| p == "i8"@
    ||| p == "u16"@
    ||| p == "i16"@
    ||| p == "u32"@
    ||| p == "i32"@
    ||| p == "u64"@
    ||| p == "i64"@
    ||| p == "usize"@
    ||| p == "isize"@
    ||| p == "bool"@
    ||| p == "String"@
    ||| p == "str"@
    ||| p == "Vec3"@
    ||| p == "Vec4"@
}

/// The numeric types that get a number widget of their own.
pub open spec fn is_number_path(p: Seq<char>) -> bool {
    ||| p == "f64"@
    ||| p == "f32"@
    ||| p == "u8"@
    ||| p == "i8"@
    ||| p == "u16"@
    ||| p == "i16"@
    ||| p == "u32"@
    ||| p == "i32"@
    ||| p == "u64"@
    ||| p == "i64"@
}

/// The vector types that may be shown as a color.
pub open spec fn is_color_vec_path(p: Seq<char>) -> bool {
    ||| p == "Vec3"@
    ||| p == "Vec4"@
    ||| p == "U8Vec3"@
    ||| p == "U8Vec4"@
}

/// Which dedicated widget family a type path is edited with.
#[derive(PartialEq, Eq, Structural, Debug, Clone, Copy)]
pub enum InternalPath {
    Number,
    Text,
    ColorVec,
}

/// The widget family of a type path: numbers, `String`, and the float vectors; the
/// other handled types and every unhandled one have none.
pub open spec fn internal_path_spec(p: Seq<char>) -> Option<InternalPath> {
    if !internally_handled(p) {
        None
    } else if is_number_path(p) {
        Some(InternalPath::Number)
    } else if p == "String"@ {
        Some(InternalPath::Text)
    } else if is_color_vec_path(p) {
        Some(InternalPath::ColorVec)
    } else {
        None
    }
}

/// Whether `path_str` names a type edited with a dedicated widget.
pub fn path_is_internally_handled(path_str: &str) -> (r: bool)
    ensures
        r == internally_handled(path_str@),
{
    same_text(path_str, "f32") || same_text(path_str, "f64") || same_text(path_str, "u8")
        || same_text(path_str, "i8") || same_text(path_str, "u16") || same_text(path_str, "i16")
        || same_text(path_str, "u32") || same_text(path_str, "i32") || same_text(path_str, "u64")
        || same_text(path_str, "i64") || same_text(path_str, "usize") || same_text(
        path_str,
        "isize",
    ) || same_text(path_str, "bool") || same_text(path_str, "String") || same_text(
        path_str,
        "str",
    ) || same_text(path_str, "Vec3") || same_text(path_str, "Vec4")
}

/// Whether `p` names a numeric type with a number widget.
fn is_number_type(p: &str) -> (r: bool)
    ensures
        r == is_number_path(p@),
{
    same_text(p, "f64") || same_text(p, "f32") || same_text(p, "u8") || same_text(p, "i8")
        || same_text(p, "u16") || same_text(p, "i16") || same_text(p, "u32") || same_text(p, "i32")
        || same_text(p, "u64") || same_text(p, "i64")
}

/// Whether `p` names a vector type that may be shown as a color.
fn is_color_vec_type(p: &str) -> (r: bool)
    ensures
        r == is_color_vec_path(p@),
{
    same_text(p, "Vec3") || same_text(p, "Vec4") || same_text(p, "U8Vec3") || same_text(
        p,
        "U8Vec4",
    )
}

/// The widget family for a field of type `path_str`, or `None` where the type's own
/// inspector is used. Of the handled types, `bool`, `str`, `usize` and `isize` get no
/// dedicated family.
pub fn internal_path_kind(path_str: &str) -> (r: Option<InternalPath>)
    ensures
        r == internal_path_spec(path_str@),
{
    if !path_is_internally_handled(path_str) {
        None
    } else if is_number_type(path_str) {
        Some(InternalPath::Number)
    } else if same_text(path_str, "String") {
        Some(InternalPath::Text)
    } else if is_color_vec_type(path_str) {
        Some(InternalPath::ColorVec)
    } else {
        None
    }
}

/// The dedicated widget for a field whose type has a widget family.
#[derive(PartialEq, Eq, Structural, Debug, Clone, Copy)]
pub enum InternalWidget {
    /// A number on a slider between bounds.
    NumberSlider,
    /// A number dragged within bounds.
    NumberBounded,
    /// A number dragged freely.
    NumberFree,
    /// A multi-line text box.
    TextMultiline,
    /// A one-line text box.
    TextSingleline,
    /// A color picker over the vector.
    ColorPicker,
    /// The vector's own inspector.
    Inspect,
}

/// A number gets a slider where both `slider` and a range are given, else bounded
/// dragging where a range is given, else free dragging; text is multi-line where asked;
/// a vector is a color where asked.
pub open spec fn internal_widget_spec(kind: InternalPath, a: &InspectAttrs) -> InternalWidget {
    match kind {
        InternalPath::Number => if a.slider && a.range {
            InternalWidget::NumberSlider
        } else if a.range {
            InternalWidget::NumberBounded
        } else {
            InternalWidget::NumberFree
        },
        InternalPath::Text => if a.multiline is Some {
            InternalWidget::TextMultiline
        } else {
            InternalWidget::TextSingleline
        },
        InternalPath::ColorVec => if a.color {
            InternalWidget::ColorPicker
        } else {
            InternalWidget::Inspect
        },
    }
}

/// The dedicated widget for a field of type `path_str` with attributes `a`, or `None`
/// where the type has no widget family.
pub fn internal_widget(path_str: &str, a: &InspectAttrs) -> (r: Option<InternalWidget>)
    ensures
        r == match internal_path_spec(path_str@) {
            Some(k) => Some(internal_widget_spec(k, a)),
            None => None,
        },
{
    match internal_path_kind(path_str) {
        None => None,
        Some(InternalPath::Number) => Some(
            if a.slider && a.range {
                InternalWidget::NumberSlider
            } else if a.range {
                InternalWidget::NumberBounded
            } else {
                InternalWidget::NumberFree
            },
        ),
        Some(InternalPath::Text) => Some(
            if a.multiline.is_some() {
                InternalWidget::TextMultiline
            } else {
                InternalWidget::TextSingleline
            },
        ),
        Some(InternalPath::ColorVec) => Some(
            if a.color {
                InternalWidget::ColorPicker
            } else {
                InternalWidget::Inspect
            },
        ),
    }
}

} // verus!
