//! Source units: one chunk of input text and where it came from.

use vstd::prelude::*;

verus! {

/// Where a chunk of input came from. Diagnostics are tagged with it.
#[derive(Clone, Copy, Debug, PartialEq, Eq, Structural)]
pub enum Origin {
    /// Entered at the interactive prompt.
    Prompt,
    /// Given inline on the command line.
    Inline,
    /// Read from a script file.
    File,
}

/// What a source unit is, for contracts.
pub ghost struct SourceView {
    pub origin: Origin,
    pub text: Seq<char>,
}

/// One chunk of input text with its origin. It cannot be changed once made.
#[derive(Clone, Debug, PartialEq, Eq)]
pub struct SourceUnit {
    origin: Origin,
    text: String,
}

impl View for SourceUnit {
    type V = SourceView;

    closed spec fn view(&self) -> SourceView {
        SourceView { origin: self.origin, text: self.text@ }
    }
}

impl SourceUnit {
    /// A unit holding `text`, tagged with `origin`.
    pub fn new(origin: Origin, text: String) -> (unit: Self)
        ensures
            unit@ == (SourceView { origin, text: text@ }),
    {
        SourceUnit { origin, text }
    }

    /// Where the text came from.
    pub fn origin(&self) -> (origin: Origin)
        ensures
            origin == self@.origin,
    {
        self.origin
    }

    /// The text.
    pub fn text(&self) -> (text: &str)
        ensures
            text@ == self@.text,
    {
        self.text.as_str()
    }

    /// Takes the text out of the unit.
    pub fn into_text(self) -> (text: String)
        ensures
            text@ == self@.text,
    {
        self.text
    }
}

} // verus!
