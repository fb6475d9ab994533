use crate::ansi::{
    ansi_pieces, parse_ansi, plain_of, plain_text, span_views, spans, spans_of, Span,
};
use crate::channel::{try_recv_line, Polled};
use std::sync::mpsc::Receiver;
use vstd::prelude::*;
use vstd::string::*;

verus! {

/// The display buffer after it has taken in what a look into the channel
/// found: a line is put at its end, anything else leaves it as it was.
pub open spec fn console_after(buffer: Seq<char>, polled: Polled) -> Seq<char> {
    match polled {
        Polled::Line(line) => buffer + line@,
        Polled::Empty => buffer,
        Polled::Disconnected => buffer,
    }
}

/// The display buffer after it has taken in each of `lines`, first to last.
pub open spec fn console_after_all(buffer: Seq<char>, lines: Seq<Seq<char>>) -> Seq<char>
    decreases lines.len(),
{
    if lines.len() == 0 {
        buffer
    } else {
        console_after_all(buffer, lines.drop_last()) + lines.last()
    }
}

/// The console shows lines in the order in which it took them in: taking in
/// one run of lines and then another gives the same text as taking in both
/// in one go, and a look that finds nothing adds nothing.
pub proof fn lemma_console_keeps_order(
    buffer: Seq<char>,
    first: Seq<Seq<char>>,
    second: Seq<Seq<char>>,
)
    ensures
        console_after_all(console_after_all(buffer, first), second) == console_after_all(
            buffer,
            first + second,
        ),
        console_after(buffer, Polled::Empty) == buffer,
        console_after(buffer, Polled::Disconnected) == buffer,
    decreases second.len(),
{
    if second.len() == 0 {
        assert(first + second =~= first);
    } else {
        assert((first + second).drop_last() =~= first + second.drop_last());
        assert((first + second).last() == second.last());
        lemma_console_keeps_order(buffer, first, second.drop_last());
    }
}

/// Taking lines in never changes what the console showed before: the text
/// shown before stays at the front.
pub proof fn lemma_console_only_grows(buffer: Seq<char>, lines: Seq<Seq<char>>)
    ensures
        buffer.is_prefix_of(console_after_all(buffer, lines)),
    decreases lines.len(),
{
    if lines.len() > 0 {
        lemma_console_only_grows(buffer, lines.drop_last());
        let shorter = console_after_all(buffer, lines.drop_last());
        assert((shorter + lines.last()).subrange(0, buffer.len() as int) =~= shorter.subrange(
            0,
            buffer.len() as int,
        ));
    } else {
        assert(buffer.subrange(0, buffer.len() as int) =~= buffer);
    }
}

/// Puts what a look into the channel found at the end of `buffer`, and says
/// whether that was a line.
pub fn absorb(buffer: &mut String, polled: Polled) -> (appended: bool)
    ensures
        final(buffer)@ == console_after(old(buffer)@, polled),
        appended == (polled is Line),
{
    match polled {
        Polled::Line(line) => {
            buffer.append(line.as_str());
            true
        },
        Polled::Empty => false,
        Polled::Disconnected => false,
    }
}

/// The console of the panel: the text shown so far and the receiving end of
/// the channel that the output of the service arrives on.
pub struct MainConsole {
    pub input: String,
    pub input_receiver: Receiver<String>,
}

impl MainConsole {
    /// An empty console that reads from `input_receiver`.
    pub fn new(input_receiver: Receiver<String>) -> (console: Self)
        ensures
            console.input@ == Seq::<char>::empty(),
            console.input_receiver == input_receiver,
    {
        MainConsole { input: String::new(), input_receiver }
    }

    /// Takes in what a look into the channel found.
    pub fn absorb(&mut self, polled: Polled) -> (appended: bool)
        ensures
            final(self).input@ == console_after(old(self).input@, polled),
            final(self).input_receiver == old(self).input_receiver,
            appended == (polled is Line),
    {
        absorb(&mut self.input, polled)
    }

    /// One tick of the console: looks into the channel once, without
    /// waiting, and takes in what the look found, as `absorb` does. The
    /// result says whether that was a line. The text shown before stays in
    /// front, and without a line nothing changes.
    pub fn update(&mut self) -> (appended: bool)
        ensures
            exists|polled: Polled|
                final(self).input@ == #[trigger] console_after(old(self).input@, polled)
                    && appended == (polled is Line),
            old(self).input@.is_prefix_of(final(self).input@),
            !appended ==> final(self).input@ == old(self).input@,
            final(self).input_receiver == old(self).input_receiver,
    {
        let polled = try_recv_line(&self.input_receiver);
        let ghost found = polled;
        let appended = self.absorb(polled);
        assert(self.input@ == console_after(old(self).input@, found));
        appended
    }

    /// The text of the console without its escape sequences, for the
    /// clipboard.
    pub fn copy_to_clipboard(&self) -> (copied: String)
        ensures
            copied@ == plain_of(ansi_pieces(self.input@)),
    {
        let pieces = parse_ansi(self.input.as_str());
        plain_text(&pieces)
    }

    /// Empties the display.
    pub fn clear(&mut self)
        ensures
            final(self).input@ == Seq::<char>::empty(),
            final(self).input_receiver == old(self).input_receiver,
    {
        self.input = String::new();
    }
}

/// The text of `console`, laid out as coloured spans.
pub fn special_text_area(console: &MainConsole) -> (shown: Vec<Span>)
    ensures
        span_views(shown@) == spans_of(ansi_pieces(console.input@)),
{
    let pieces = parse_ansi(console.input.as_str());
    spans(&pieces)
}

/// The input and output section of the panel.
pub struct Io {
    pub main_console: MainConsole,
}

impl Io {
    /// The section with an empty console that reads from `input_receiver`.
    pub fn new(input_receiver: Receiver<String>) -> (io: Self)
        ensures
            io.main_console.input@ == Seq::<char>::empty(),
            io.main_console.input_receiver == input_receiver,
    {
        Io { main_console: MainConsole::new(input_receiver) }
    }
}

} // verus!
