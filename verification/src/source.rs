//! Source records.

use vstd::prelude::*;

verus! {

/// A named piece of source text. The name identifies the record; the text is
/// what a compile pass reads.
pub struct SourceDetails {
    name: String,
    text: String,
}

impl SourceDetails {
    /// The name, as a sequence of characters.
    pub closed spec fn name_view(&self) -> Seq<char> {
        self.name@
    }

    /// The text, as a sequence of characters.
    pub closed spec fn text_view(&self) -> Seq<char> {
        self.text@
    }

    pub fn new(name: String, text: String) -> (s: Self)
        ensures
            s.name_view() == name@,
            s.text_view() == text@,
    {
        SourceDetails { name, text }
    }

    pub fn get_name(&self) -> (r: String)
        ensures
            r@ == self.name_view(),
    {
        self.name.clone()
    }

    pub fn set_name(&mut self, name: String)
        ensures
            final(self).name_view() == name@,
            final(self).text_view() == old(self).text_view(),
    {
        self.name = name;
    }

    pub fn get_text(&self) -> (r: String)
        ensures
            r@ == self.text_view(),
    {
        self.text.clone()
    }

    pub fn set_text(&mut self, text: String)
        ensures
            final(self).text_view() == text@,
            final(self).name_view() == old(self).name_view(),
    {
        self.text = text;
    }

    pub fn name(&self) -> (r: &String)
        ensures
            r@ == self.name_view(),
    {
        &self.name
    }

    pub fn text(&self) -> (r: &String)
        ensures
            r@ == self.text_view(),
    {
        &self.text
    }
}

} // verus!
