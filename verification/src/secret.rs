//! Values that must not be shown.

use vstd::prelude::*;

verus! {

/// A secret text. It has no printable form; the text is handed out only on
/// request.
pub struct Secret {
    inner: String,
}

impl View for Secret {
    type V = Seq<char>;

    closed spec fn view(&self) -> Seq<char> {
        self.inner@
    }
}

impl Secret {
    /// Wraps a text.
    pub fn new(text: String) -> (res: Self)
        ensures
            res@ == text@,
    {
        Secret { inner: text }
    }

    /// Looks at the secret text.
    pub fn peek(&self) -> (text: &str)
        ensures
            text@ == self@,
    {
        self.inner.as_str()
    }

    /// Gives up the secret text.
    pub fn expose(self) -> (text: String)
        ensures
            text@ == self@,
    {
        self.inner
    }
}

impl Clone for Secret {
    fn clone(&self) -> (res: Self)
        ensures
            res == *self,
    {
        Secret { inner: self.inner.clone() }
    }
}

} // verus!
