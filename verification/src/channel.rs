use std::sync::mpsc::{Receiver, SyncSender, TryRecvError};
use vstd::prelude::*;

verus! {

/// The sending half of the bounded channel of the standard library. Nothing
/// is known of a value of it but that it can be sent on and duplicated.
#[verifier::external_type_specification]
#[verifier::external_body]
#[verifier::reject_recursive_types(T)]
pub struct ExSyncSender<T>(SyncSender<T>);

/// The receiving half of the channel of the standard library, as opaque as
/// the sending half.
#[verifier::external_type_specification]
#[verifier::external_body]
#[verifier::reject_recursive_types(T)]
pub struct ExReceiver<T>(Receiver<T>);

/// The number of lines that the output channel holds before a sender has to
/// wait.
pub const OUTPUT_CHANNEL_CAPACITY: usize = 64000;

/// What one look into the output channel found.
#[derive(Debug, PartialEq, Eq, Clone)]
pub enum Polled {
    /// The oldest line that was waiting.
    Line(String),
    /// Nothing is waiting.
    Empty,
    /// Nothing is waiting and no sender is left.
    Disconnected,
}

/// The number of lines that the channel which `sender` sends into was made to
/// hold.
pub uninterp spec fn channel_limit(sender: SyncSender<String>) -> nat;

/// Whether `receiver` is the receiving end of the channel that `sender`
/// sends into.
pub uninterp spec fn feeds(sender: SyncSender<String>, receiver: Receiver<String>) -> bool;

/// Calls `std::sync::mpsc::sync_channel`, which makes a channel that holds up
/// to `capacity` values before a sender has to wait, and gives back its two
/// ends. The claim is that the channel of the sender that comes back was made
/// with that limit, and that the receiver that comes back is the other end of
/// that same channel.
#[verifier::external_body]
pub(crate) fn bounded_channel(capacity: usize) -> (halves: (SyncSender<String>, Receiver<String>))
    ensures
        channel_limit(halves.0) == capacity,
        feeds(halves.0, halves.1),
{
    std::sync::mpsc::sync_channel(capacity)
}

/// Calls `SyncSender::send`, which waits while the channel is full and fails
/// once the receiver is gone. The result says whether the line was taken; it
/// depends on the other side, so nothing more is claimed.
#[verifier::external_body]
pub(crate) fn send_line(sender: &SyncSender<String>, line: String) -> (delivered: bool) {
    sender.send(line).is_ok()
}

/// Calls `SyncSender::clone`, which gives another sender into the same
/// channel. The claim is that the copy equals the sender it was made from:
/// of a sender nothing is known but the channel it sends into, so that
/// equality says no more than that the two send into one channel.
#[verifier::external_body]
pub(crate) fn another_sender(sender: &SyncSender<String>) -> (copy: SyncSender<String>)
    ensures
        copy == *sender,
{
    sender.clone()
}

/// Calls `Receiver::try_recv`, which never waits. What comes back depends on
/// what the senders have done, so nothing is claimed of it.
#[verifier::external_body]
pub(crate) fn try_recv_line(receiver: &Receiver<String>) -> (polled: Polled) {
    match receiver.try_recv() {
        Ok(line) => Polled::Line(line),
        Err(TryRecvError::Empty) => Polled::Empty,
        Err(TryRecvError::Disconnected) => Polled::Disconnected,
    }
}

} // verus!
