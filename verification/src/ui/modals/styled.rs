//! Text drawn in pieces, each with its own look.

use vstd::prelude::*;

verus! {

/// How a piece of a window's text is drawn.
#[derive(Debug, Clone, Copy, PartialEq, Eq, Structural)]
pub enum Tone {
    Plain,
    Strong,
    Link,
    Muted,
    Warning,
    Success,
    Danger,
    Key,
    Emphasis,
    Address,
    Highlight,
    Positive,
    Brand,
    Alarm,
    Heading,
    Failure,
    Accent,
}

/// A line of a window: pieces of text, each drawn its own way.
pub type Segments = Vec<(String, Tone)>;

/// The text of a line, piece by piece.
pub open spec fn segments_view(l: Segments) -> Seq<(Seq<char>, Tone)> {
    l@.map_values(|p: (String, Tone)| (p.0@, p.1))
}

/// The text of a line of fixed pieces.
pub open spec fn pieces_view(l: Seq<(&'static str, Tone)>) -> Seq<(Seq<char>, Tone)> {
    l.map_values(|p: (&'static str, Tone)| (p.0@, p.1))
}

/// The text of several lines.
pub open spec fn lines_view(ls: Seq<Segments>) -> Seq<Seq<(Seq<char>, Tone)>> {
    ls.map_values(|l: Segments| segments_view(l))
}

/// A line of one piece.
pub fn one(s: String, t: Tone) -> (r: Segments)
    ensures
        segments_view(r) == seq![(s@, t)],
{
    let r = vec![(s, t)];
    assert(segments_view(r) =~= seq![(s@, t)]);
    r
}

/// A line of one piece of fixed text.
pub fn text(s: &'static str, t: Tone) -> (r: Segments)
    ensures
        segments_view(r) == seq![(s@, t)],
{
    one(String::from_str(s), t)
}

/// An empty line.
pub fn blank() -> (r: Segments)
    ensures
        segments_view(r) == Seq::<(Seq<char>, Tone)>::empty(),
{
    let r: Segments = Vec::new();
    assert(segments_view(r) =~= Seq::<(Seq<char>, Tone)>::empty());
    r
}

} // verus!
