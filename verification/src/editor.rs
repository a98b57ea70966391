//! The program text being edited.

use vstd::prelude::*;

verus! {

/// The editor's text.
pub struct EditorView {
    text: String,
}

impl View for EditorView {
    type V = Seq<char>;

    closed spec fn view(&self) -> Seq<char> {
        self.text@
    }
}

impl Default for EditorView {
    fn default() -> (r: Self)
        ensures
            r@ == Seq::<char>::empty(),
    {
        EditorView { text: String::new() }
    }
}

impl EditorView {
    /// Replaces the text with `s`.
    pub fn set_text(&mut self, s: &str)
        ensures
            final(self)@ == s@,
    {
        self.text = s.to_owned();
    }

    /// A copy of the text.
    pub fn get_text(&self) -> (r: String)
        ensures
            r@ == self@,
    {
        self.text.clone()
    }
}

} // verus!
