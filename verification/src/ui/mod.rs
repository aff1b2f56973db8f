//! What is on screen, as text and places. Drawing it is left to the program around
//! the library.

pub mod address_book;
pub mod laws;
pub mod popup;
pub mod terminal_view;

use vstd::prelude::*;

verus! {

/// How a piece of text stands out.
#[derive(Debug, Clone, Copy, PartialEq, Eq, Structural)]
pub enum Tone {
    Plain,
    Bold,
    /// A key to press.
    Key,
    /// An answer that goes on.
    Yes,
    /// An answer that holds back or destroys.
    No,
}

/// A piece of text.
#[derive(Debug)]
pub struct Segment {
    pub text: String,
    pub tone: Tone,
}

/// What a piece of text says.
#[verifier::ext_equal]
pub ghost struct SegmentModel {
    pub text: Seq<char>,
    pub tone: Tone,
}

/// A line of text in pieces.
#[derive(Debug)]
pub struct TextLine {
    pub segments: Vec<Segment>,
}

impl Segment {
    /// What it holds.
    pub open spec fn view(&self) -> SegmentModel {
        SegmentModel { text: self.text@, tone: self.tone }
    }

    pub fn new(text: &str, tone: Tone) -> (segment: Self)
        ensures
            segment@ == (SegmentModel { text: text@, tone }),
    {
        Segment { text: text.to_owned(), tone }
    }
}

/// Plain text.
pub open spec fn plain(text: Seq<char>) -> SegmentModel {
    SegmentModel { text, tone: Tone::Plain }
}

/// Text that stands out.
pub open spec fn toned(text: Seq<char>, tone: Tone) -> SegmentModel {
    SegmentModel { text, tone }
}

impl TextLine {
    /// What it holds.
    pub open spec fn view(&self) -> Seq<SegmentModel> {
        Seq::new(self.segments@.len(), |i: int| self.segments@[i]@)
    }

    /// A line of plain text.
    pub fn plain(text: &str) -> (line: Self)
        ensures
            line@ == seq![plain(text@)],
    {
        let line = TextLine { segments: vec![Segment::new(text, Tone::Plain)] };
        assert(line@ =~= seq![plain(text@)]);
        line
    }

    /// The line with another piece at its end.
    pub fn with(self, text: &str, tone: Tone) -> (line: Self)
        ensures
            line@ == self@.push(toned(text@, tone)),
    {
        let mut segments = self.segments;
        segments.push(Segment::new(text, tone));
        let line = TextLine { segments };
        assert(line@ =~= self@.push(toned(text@, tone)));
        line
    }
}

/// What lines say.
pub open spec fn line_models(lines: Seq<TextLine>) -> Seq<Seq<SegmentModel>> {
    Seq::new(lines.len(), |i: int| lines[i]@)
}

/// A part of the screen.
#[derive(Debug, Clone, Copy, PartialEq, Eq, Structural)]
pub struct Area {
    pub x: u16,
    pub y: u16,
    pub width: u16,
    pub height: u16,
}

} // verus!
