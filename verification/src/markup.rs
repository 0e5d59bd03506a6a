//! Fragments of page content that a page decides on.

use vstd::prelude::*;

verus! {

/// A line of text with the class that styles it.
#[derive(Debug)]
pub struct StatusText {
    pub class: &'static str,
    pub text: String,
}

impl StatusText {
    /// The line has this class and this text.
    pub open spec fn shows(self, class: Seq<char>, text: Seq<char>) -> bool {
        self.class@ == class && self.text@ == text
    }

    /// A line of fixed text.
    pub fn fixed(class: &'static str, text: &str) -> (r: Self)
        ensures
            r.shows(class@, text@),
    {
        StatusText { class, text: text.to_owned() }
    }
}

/// The string form of a switch for an ARIA attribute.
pub fn aria_bool(value: bool) -> (r: &'static str)
    ensures
        r@ == (if value {
            "true"@
        } else {
            "false"@
        }),
{
    if value {
        "true"
    } else {
        "false"
    }
}

} // verus!
