//! The scope a client is granted.

use vstd::prelude::*;

verus! {

/// A scope, held as the text it was written as.
pub struct Scope {
    text: String,
}

impl View for Scope {
    type V = Seq<char>;

    closed spec fn view(&self) -> Seq<char> {
        self.text@
    }
}

impl Scope {
    /// A scope written as `text`.
    pub fn new(text: &str) -> (r: Scope)
        ensures
            r@ == text@,
    {
        Scope { text: text.to_owned() }
    }

    /// The text of this scope.
    pub fn as_str(&self) -> (r: &str)
        ensures
            r@ == self@,
    {
        self.text.as_str()
    }
}

impl Clone for Scope {
    fn clone(&self) -> (r: Scope)
        ensures
            r@ == self@,
    {
        Scope { text: self.text.clone() }
    }
}

} // verus!
