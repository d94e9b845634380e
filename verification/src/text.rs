//! A text element: the leaf that renders a plain string.

use vstd::prelude::*;

verus! {

/// A piece of text to be rendered as-is.
pub struct Text {
    pub raw_text: String,
}

impl Text {
    /// A text element holding exactly `text`.
    pub fn new(text: &str) -> (r: Text)
        ensures
            r.raw_text@ == text@,
    {
        Text { raw_text: String::from_str(text) }
    }
}

} // verus!
