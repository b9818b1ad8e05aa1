//! A window, known by its label.

use vstd::prelude::*;

verus! {

/// A window that hosts webviews.
#[derive(Debug)]
pub struct Window {
    label: String,
}

impl View for Window {
    type V = Seq<char>;

    closed spec fn view(&self) -> Seq<char> {
        self.label@
    }
}

impl Window {
    /// The window with this label.
    pub fn new(label: String) -> (window: Self)
        ensures
            window@ == label@,
    {
        Window { label }
    }

    /// The window's label.
    pub fn label(&self) -> (label: &str)
        ensures
            label@ == self@,
    {
        self.label.as_str()
    }
}

} // verus!
