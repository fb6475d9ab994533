use ansi_parser::{AnsiParser, AnsiSequence, Output};
use vstd::prelude::*;
use vstd::string::*;

verus! {

/// One piece of console text, as the escape sequences in it divide it.
#[derive(Debug, PartialEq, Eq, Clone)]
pub enum Piece {
    /// A run of text without an escape sequence.
    Text(String),
    /// The escape sequence that sets the graphics mode, with its parameters.
    Graphics(Vec<u8>),
    /// Any other escape sequence.
    Other,
}

/// A piece, with its text as a sequence of characters.
pub enum PieceView {
    Text(Seq<char>),
    Graphics(Seq<u8>),
    Other,
}

impl View for Piece {
    type V = PieceView;

    open spec fn view(&self) -> PieceView {
        match self {
            Piece::Text(text) => PieceView::Text(text@),
            Piece::Graphics(modes) => PieceView::Graphics(modes@),
            Piece::Other => PieceView::Other,
        }
    }
}

/// The views of `pieces`, one for one.
pub open spec fn piece_views(pieces: Seq<Piece>) -> Seq<PieceView> {
    pieces.map_values(|piece: Piece| piece@)
}

/// The pieces into which the parser for escape sequences divides `text`.
pub uninterp spec fn ansi_pieces(text: Seq<char>) -> Seq<PieceView>;

/// Calls `AnsiParser::ansi_parse` of the crate `ansi_parser` on `text` and
/// collects what the iterator gives: text blocks as they are, the sequence
/// that sets the graphics mode with its parameters, every other sequence
/// without them. The result is a function of `text` alone and is known here
/// by name only.
#[verifier::external_body]
pub(crate) fn parse_ansi(text: &str) -> (pieces: Vec<Piece>)
    ensures
        piece_views(pieces@) == ansi_pieces(text@),
{
    text.ansi_parse().map(
        |output| match output {
            Output::TextBlock(block) => Piece::Text(block.to_string()),
            Output::Escape(AnsiSequence::SetGraphicsMode(modes)) => Piece::Graphics(modes.to_vec()),
            Output::Escape(_) => Piece::Other,
        },
    ).collect()
}

/// The colours in which the console shows text.
#[derive(Debug, PartialEq, Eq, Clone, Copy, Structural)]
pub enum ConsoleColour {
    Gray,
    Red,
    Green,
    Yellow,
    Blue,
    Magenta,
    Cyan,
    White,
}

/// The colour that a graphics mode with these parameters stands for. The
/// second parameter decides; without one, or with one that names no colour,
/// the text is gray.
pub open spec fn colour_for(modes: Seq<u8>) -> ConsoleColour {
    if modes.len() > 1 {
        if modes[1] == 31 {
            ConsoleColour::Red
        } else if modes[1] == 32 {
            ConsoleColour::Green
        } else if modes[1] == 33 {
            ConsoleColour::Yellow
        } else if modes[1] == 34 {
            ConsoleColour::Blue
        } else if modes[1] == 35 {
            ConsoleColour::Magenta
        } else if modes[1] == 36 {
            ConsoleColour::Cyan
        } else if modes[1] == 37 {
            ConsoleColour::White
        } else {
            ConsoleColour::Gray
        }
    } else {
        ConsoleColour::Gray
    }
}

/// The colour in which text that follows `pieces` is shown: that of the last
/// escape sequence among them, which is gray unless it sets a graphics mode
/// that names a colour, and gray where there is none.
pub open spec fn colour_after(pieces: Seq<PieceView>) -> ConsoleColour
    decreases pieces.len(),
{
    if pieces.len() == 0 {
        ConsoleColour::Gray
    } else {
        match pieces.last() {
            PieceView::Text(_) => colour_after(pieces.drop_last()),
            PieceView::Graphics(modes) => colour_for(modes),
            PieceView::Other => ConsoleColour::Gray,
        }
    }
}

/// A run of text in one colour.
#[derive(Debug, PartialEq, Eq, Clone)]
pub struct Span {
    pub text: String,
    pub colour: ConsoleColour,
}

/// A span, with its text as a sequence of characters.
pub struct SpanView {
    pub text: Seq<char>,
    pub colour: ConsoleColour,
}

impl View for Span {
    type V = SpanView;

    open spec fn view(&self) -> SpanView {
        SpanView { text: self.text@, colour: self.colour }
    }
}

/// The views of `spans`, one for one.
pub open spec fn span_views(spans: Seq<Span>) -> Seq<SpanView> {
    spans.map_values(|span: Span| span@)
}

/// The spans that `pieces` are shown as: one for each run of text, in the
/// colour that holds where the run begins.
pub open spec fn spans_of(pieces: Seq<PieceView>) -> Seq<SpanView>
    decreases pieces.len(),
{
    if pieces.len() == 0 {
        Seq::empty()
    } else {
        match pieces.last() {
            PieceView::Text(text) => spans_of(pieces.drop_last()).push(
                SpanView { text, colour: colour_after(pieces.drop_last()) },
            ),
            _ => spans_of(pieces.drop_last()),
        }
    }
}

/// The text of `pieces` without its escape sequences.
pub open spec fn plain_of(pieces: Seq<PieceView>) -> Seq<char>
    decreases pieces.len(),
{
    if pieces.len() == 0 {
        Seq::empty()
    } else {
        match pieces.last() {
            PieceView::Text(text) => plain_of(pieces.drop_last()) + text,
            _ => plain_of(pieces.drop_last()),
        }
    }
}

/// The colour that a graphics mode with these parameters stands for.
pub fn colour_of(modes: &Vec<u8>) -> (colour: ConsoleColour)
    ensures
        colour == colour_for(modes@),
{
    if modes.len() > 1 {
        let code: u8 = modes[1];
        if code == 31 {
            ConsoleColour::Red
        } else if code == 32 {
            ConsoleColour::Green
        } else if code == 33 {
            ConsoleColour::Yellow
        } else if code == 34 {
            ConsoleColour::Blue
        } else if code == 35 {
            ConsoleColour::Magenta
        } else if code == 36 {
            ConsoleColour::Cyan
        } else if code == 37 {
            ConsoleColour::White
        } else {
            ConsoleColour::Gray
        }
    } else {
        ConsoleColour::Gray
    }
}

/// Lays out `pieces` as coloured spans.
pub fn spans(pieces: &Vec<Piece>) -> (laid_out: Vec<Span>)
    ensures
        span_views(laid_out@) == spans_of(piece_views(pieces@)),
{
    let ghost views = piece_views(pieces@);
    let mut laid_out: Vec<Span> = Vec::new();
    let mut colour = ConsoleColour::Gray;
    let mut i: usize = 0;
    assert(views.take(0) =~= Seq::<PieceView>::empty());
    while i < pieces.len()
        invariant
            i <= pieces@.len(),
            views == piece_views(pieces@),
            colour == colour_after(views.take(i as int)),
            span_views(laid_out@) =~= spans_of(views.take(i as int)),
        decreases pieces@.len() - i,
    {
        proof {
            assert(views.take(i + 1).drop_last() =~= views.take(i as int));
            assert(views.take(i + 1).last() == pieces@[i as int]@);
        }
        let ghost before = laid_out@;
        match &pieces[i] {
            Piece::Text(text) => {
                laid_out.push(Span { text: text.clone(), colour });
                assert(span_views(laid_out@) =~= span_views(before).push(laid_out@.last()@));
            },
            Piece::Graphics(modes) => {
                colour = colour_of(modes);
            },
            Piece::Other => {
                colour = ConsoleColour::Gray;
            },
        }
        i = i + 1;
    }
    assert(views.take(pieces@.len() as int) =~= views);
    laid_out
}

/// Joins the text of `pieces`, leaving the escape sequences out.
pub fn plain_text(pieces: &Vec<Piece>) -> (text: String)
    ensures
        text@ == plain_of(piece_views(pieces@)),
{
    let ghost views = piece_views(pieces@);
    let mut text = String::new();
    let mut i: usize = 0;
    assert(views.take(0) =~= Seq::<PieceView>::empty());
    while i < pieces.len()
        invariant
            i <= pieces@.len(),
            views == piece_views(pieces@),
            text@ =~= plain_of(views.take(i as int)),
        decreases pieces@.len() - i,
    {
        proof {
            assert(views.take(i + 1).drop_last() =~= views.take(i as int));
            assert(views.take(i + 1).last() == pieces@[i as int]@);
        }
        match &pieces[i] {
            Piece::Text(block) => {
                text.append(block.as_str());
            },
            Piece::Graphics(_) => {},
            Piece::Other => {},
        }
        i = i + 1;
    }
    assert(views.take(pieces@.len() as int) =~= views);
    text
}

} // verus!
