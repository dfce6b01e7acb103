//! Keeping a text that must not outlive its use.

use vstd::prelude::*;
use zeroize::Zeroize;

verus! {

/// Calls `Zeroize::zeroize` of the `zeroize` crate on a `String`, which
/// overwrites the bytes of the text with zeros and then empties it. Taken on
/// trust: the text is empty afterwards, and the call does not panic.
#[verifier::external_body]
fn zeroize_text(text: &mut String)
    ensures
        final(text)@ == Seq::<char>::empty(),
    opens_invariants none
    no_unwind
{
    text.zeroize()
}

/// A text that is kept from view and overwritten in memory when its owner
/// lets go of it, on whatever path that happens.
pub struct Scrubbed {
    text: String,
}

impl View for Scrubbed {
    type V = Seq<char>;

    closed spec fn view(&self) -> Seq<char> {
        self.text@
    }
}

impl Scrubbed {
    /// Take `text` into keeping.
    pub fn new(text: String) -> (kept: Self)
        ensures
            kept@ == text@,
    {
        Scrubbed { text }
    }

    /// The text that is kept.
    pub fn as_str(&self) -> (text: &str)
        ensures
            text@ == self@,
    {
        self.text.as_str()
    }

    /// Overwrite the text now. Nothing of it is left.
    pub fn wipe(&mut self)
        ensures
            final(self)@ == Seq::<char>::empty(),
    {
        zeroize_text(&mut self.text);
    }
}

impl Drop for Scrubbed {
    fn drop(&mut self)
        ensures
            final(self)@ == Seq::<char>::empty(),
        opens_invariants none
        no_unwind
    {
        zeroize_text(&mut self.text);
    }
}

} // verus!
