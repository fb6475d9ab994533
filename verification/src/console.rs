use crate::ansi::{ansi_pieces, parse_ansi, span_views, spans, spans_of, Span};
use crate::channel::{try_recv_line, Polled};
use crate::io::{
    absorb, console_after, console_after_all, lemma_console_keeps_order, lemma_console_only_grows,
};
use crate::pump::{lemma_delivery_keeps_reading_order, PumpState, Signal};
use crate::rex_app::RexApp;
use vstd::prelude::*;

verus! {

/// From the pipe to the screen nothing changes place: a console that takes in
/// what the channel took from a pump, in the order in which the channel took
/// it, shows at every moment a front part of the text that the pump has read,
/// empty reads left out, after what it showed before.
pub proof fn lemma_console_follows_output(
    state: PumpState,
    signals: Seq<Signal>,
    buffer: Seq<char>,
)
    requires
        !(state.phase is Sending),
    ensures
        buffer.is_prefix_of(console_after_all(buffer, state.delivered(signals))),
        console_after_all(buffer, state.delivered(signals)).is_prefix_of(
            console_after_all(buffer, state.accepted(signals)),
        ),
{
    lemma_delivery_keeps_reading_order(state, signals);
    let delivered = state.delivered(signals);
    let accepted = state.accepted(signals);
    let rest = accepted.subrange(delivered.len() as int, accepted.len() as int);
    assert(accepted =~= delivered + rest);
    lemma_console_keeps_order(buffer, delivered, rest);
    lemma_console_only_grows(buffer, delivered);
    lemma_console_only_grows(console_after_all(buffer, delivered), rest);
}

/// Shows what a look into the output channel found: a line is put after the
/// text shown so far, anything else changes nothing. The result is the whole
/// text of the console, laid out as coloured spans.
pub fn show(state: &mut RexApp, polled: Polled) -> (shown: Vec<Span>)
    ensures
        final(state).console@ == console_after(old(state).console@, polled),
        final(state).same_but_console(old(state)),
        span_views(shown@) == spans_of(ansi_pieces(final(state).console@)),
{
    absorb(&mut state.console, polled);
    let pieces = parse_ansi(state.console.as_str());
    spans(&pieces)
}

/// One tick of the console of the panel: looks into the output channel
/// without waiting, shows the line that was there, if any, after the text
/// shown so far, and lays the whole text out as coloured spans.
pub fn update(state: &mut RexApp) -> (shown: Vec<Span>)
    ensures
        old(state).console@.is_prefix_of(final(state).console@),
        final(state).same_but_console(old(state)),
        span_views(shown@) == spans_of(ansi_pieces(final(state).console@)),
{
    let polled = try_recv_line(&state.stdout_receiver);
    show(state, polled)
}

} // verus!
