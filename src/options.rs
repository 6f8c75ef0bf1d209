use vstd::prelude::*;

verus! {

/// How an inspector panel is shown: an optional title above it, and whether every
/// widget in it is read only.
pub struct InspectorOptions {
    pub title: Option<String>,
    pub read_only: bool,
}

impl InspectorOptions {
    /// No title, editable.
    pub fn new() -> (r: Self)
        ensures
            r.title is None,
            !r.read_only,
    {
        InspectorOptions { title: None, read_only: false }
    }

    /// No title, read only.
    pub fn new_read_only() -> (r: Self)
        ensures
            r.title is None,
            r.read_only,
    {
        InspectorOptions { title: None, read_only: true }
    }

    /// The same options, read only.
    pub fn read_only(self) -> (r: Self)
        ensures
            r.title == self.title,
            r.read_only,
    {
        InspectorOptions { title: self.title, read_only: true }
    }

    /// The same options, with `title` shown above the panel.
    pub fn with_title(self, title: &str) -> (r: Self)
        ensures
            r.title is Some,
            r.title->0@ == title@,
            r.read_only == self.read_only,
    {
        InspectorOptions { title: Some(title.to_owned()), read_only: self.read_only }
    }
}

} // verus!
