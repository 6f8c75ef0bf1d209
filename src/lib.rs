//! The decisions behind generated egui inspectors, verified: how a field's label is
//! made from its identifier, which widget a field's attributes select, which field
//! types have a dedicated widget, which fields and variants are shown, and the
//! one-character text buffer used to edit a `char`.

/// A text buffer holding exactly one character.
pub mod char_buffer;
/// Field attributes of the field editor and the widget they select.
pub mod editor;
/// Field attributes of the inspector and the widget they select.
pub mod inspect;
/// Which fields and variants get a widget.
pub mod layout;
/// Labels and generated names.
pub mod names;
/// Options of an inspector panel.
pub mod options;
/// Field types that have a dedicated widget.
pub mod paths;
/// Character-level string helpers.
pub mod text;
