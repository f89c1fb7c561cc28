//! The packet writer's decisions: what to do next after each thing that
//! can happen to it.
//!
//! Whoever runs the writer performs each action, by waiting or by writing to
//! the transport, and reports how that ended. Everything the writer has to
//! decide, and every look it takes at the mailbox, happens here.
//!
//! A message that is still in the mailbox when the transport goes away stays
//! there: it, or whatever overwrites it in the meantime, is the first message
//! written after the transport is back.

use vstd::prelude::*;
use crate::edge::edge_message;
use crate::edge::Level;
use crate::mailbox::SignalMailbox;
use crate::mailbox::slot_after_signal;
use crate::mailbox::slot_after_wait;
use crate::mailbox::wait_outcome;
use crate::packet::Packet;

verus! {

/// Why the transport refused a write.
#[derive(Clone, Copy, Debug, PartialEq, Eq)]
pub enum TransportError {
    /// The packet is larger than the transport takes in one write.
    BufferOverflow,
    /// The transport is not connected.
    Disabled,
}

/// What happened to the writer.
#[derive(Clone, Copy, Debug, PartialEq, Eq)]
pub enum WriterEvent {
    /// The transport is connected.
    Connected,
    /// Something was signaled into the mailbox while the writer was
    /// suspended on it.
    Signaled,
    /// The transport took the last write.
    Written,
    /// The transport refused the last write.
    WriteFailed(TransportError),
}

/// What the writer does next.
pub enum WriterAction {
    /// Wait until the transport is connected.
    WaitForConnection,
    /// Suspend until something is signaled into the mailbox.
    WaitForSignal,
    /// Write this packet's bytes to the transport.
    Write(Packet),
    /// Stop for good: the fault cannot be recovered from.
    Halt,
}

/// An action as contracts see it: a packet stands for its bytes.
pub ghost enum WriterActionView {
    WaitForConnection,
    WaitForSignal,
    Write(Seq<u8>),
    Halt,
}

impl View for WriterAction {
    type V = WriterActionView;

    open spec fn view(&self) -> WriterActionView {
        match *self {
            WriterAction::WaitForConnection => WriterActionView::WaitForConnection,
            WriterAction::WaitForSignal => WriterActionView::WaitForSignal,
            WriterAction::Write(packet) => WriterActionView::Write(packet@),
            WriterAction::Halt => WriterActionView::Halt,
        }
    }
}

/// Whether the writer waits on the mailbox after `event`: it does whenever
/// the transport is there and idle.
pub open spec fn waits_on_mailbox(event: WriterEvent) -> bool {
    event is Connected || event is Signaled || event is Written
}

/// The action that answers `event` when the mailbox holds `slot`.
///
/// With the transport there and idle the writer waits on the mailbox: it
/// forwards the message it finds, unchanged, and suspends where there is
/// none. A write refused because the transport is gone sends it back to
/// waiting for a connection; one refused as too large stops it.
pub open spec fn writer_response(event: WriterEvent, slot: Option<Seq<u8>>) -> WriterActionView {
    match event {
        WriterEvent::WriteFailed(TransportError::Disabled) => WriterActionView::WaitForConnection,
        WriterEvent::WriteFailed(TransportError::BufferOverflow) => WriterActionView::Halt,
        _ => match wait_outcome(slot) {
            Some(message) => WriterActionView::Write(message),
            None => WriterActionView::WaitForSignal,
        },
    }
}

/// What the mailbox holds after the writer answered `event`: nothing where
/// the writer waited on it, and otherwise what it held before.
pub open spec fn slot_after_writer(event: WriterEvent, slot: Option<Seq<u8>>) -> Option<Seq<u8>> {
    if waits_on_mailbox(event) {
        slot_after_wait(slot)
    } else {
        slot
    }
}

/// The action that the writer starts with.
pub fn writer_start() -> (action: WriterAction)
    ensures
        action@ == WriterActionView::WaitForConnection,
{
    WriterAction::WaitForConnection
}

/// Decides what the writer does after `event`, taking the next message out
/// of the mailbox where it is the mailbox's turn.
pub fn writer_step(event: WriterEvent, mailbox: &mut SignalMailbox) -> (action: WriterAction)
    ensures
        action@ == writer_response(event, old(mailbox)@),
        final(mailbox)@ == slot_after_writer(event, old(mailbox)@),
{
    match event {
        WriterEvent::WriteFailed(TransportError::Disabled) => WriterAction::WaitForConnection,
        WriterEvent::WriteFailed(TransportError::BufferOverflow) => WriterAction::Halt,
        _ => match mailbox.try_wait() {
            Some(packet) => WriterAction::Write(packet),
            None => WriterAction::WaitForSignal,
        },
    }
}

/// A writer that finds the mailbox empty suspends and leaves it empty; when
/// it is woken after the next signal it writes exactly what was signaled.
pub proof fn lemma_suspended_writer_resumes_with_message(event: WriterEvent, message: Seq<u8>)
    requires
        waits_on_mailbox(event),
    ensures
        writer_response(event, None) == WriterActionView::WaitForSignal,
        slot_after_writer(event, None) is None,
        writer_response(
            WriterEvent::Signaled,
            slot_after_signal(slot_after_writer(event, None), message),
        ) == WriterActionView::Write(message),
{
}

/// An edge that is reported and drained before the next one goes out as one
/// write of its own message, after which the writer has nothing left to
/// write.
pub proof fn lemma_drained_edge_is_written_once(slot: Option<Seq<u8>>, level: Level)
    ensures
        writer_response(WriterEvent::Signaled, slot_after_signal(slot, edge_message(level)))
            == WriterActionView::Write(edge_message(level)),
        writer_response(
            WriterEvent::Written,
            slot_after_writer(WriterEvent::Signaled, slot_after_signal(slot, edge_message(level))),
        ) == WriterActionView::WaitForSignal,
{
}

/// Of two edges reported with no drain between them only the second goes
/// out, once.
pub proof fn lemma_undrained_edges_collapse(slot: Option<Seq<u8>>, first: Level, second: Level)
    ensures
        writer_response(
            WriterEvent::Signaled,
            slot_after_signal(slot_after_signal(slot, edge_message(first)), edge_message(second)),
        ) == WriterActionView::Write(edge_message(second)),
        writer_response(
            WriterEvent::Written,
            slot_after_writer(
                WriterEvent::Signaled,
                slot_after_signal(
                    slot_after_signal(slot, edge_message(first)),
                    edge_message(second),
                ),
            ),
        ) == WriterActionView::WaitForSignal,
{
}

/// A disconnection loses nothing that is in the mailbox: what was pending
/// when the write failed is what the writer writes first once the transport
/// is back.
pub proof fn lemma_pending_message_outlives_disconnection(slot: Option<Seq<u8>>)
    ensures
        writer_response(WriterEvent::WriteFailed(TransportError::Disabled), slot)
            == WriterActionView::WaitForConnection,
        slot_after_writer(WriterEvent::WriteFailed(TransportError::Disabled), slot) == slot,
        slot matches Some(message) ==> writer_response(
            WriterEvent::Connected,
            slot_after_writer(WriterEvent::WriteFailed(TransportError::Disabled), slot),
        ) == WriterActionView::Write(message),
{
}

} // verus!
