//! The edge watcher's part: which message an edge on the input gives.

use vstd::prelude::*;
use crate::mailbox::SignalMailbox;
use crate::mailbox::slot_after_signal;
use crate::packet::Packet;

verus! {

/// The level of the input right after an edge.
#[derive(Clone, Copy, Debug, PartialEq, Eq)]
pub enum Level {
    Low,
    High,
}

/// The message for a falling edge: `pulsing...` and a line feed.
pub open spec fn falling_message() -> Seq<u8> {
    seq![112u8, 117u8, 108u8, 115u8, 105u8, 110u8, 103u8, 46u8, 46u8, 46u8, 10u8]
}

/// The message for a rising edge: `pausing...` and a line feed.
pub open spec fn rising_message() -> Seq<u8> {
    seq![112u8, 97u8, 117u8, 115u8, 105u8, 110u8, 103u8, 46u8, 46u8, 46u8, 10u8]
}

/// The message for an edge after which the input is at `level`: the falling
/// one where it is low, the rising one where it is high.
pub open spec fn edge_message(level: Level) -> Seq<u8> {
    match level {
        Level::Low => falling_message(),
        Level::High => rising_message(),
    }
}

/// Classifies an edge by the level that the input is at after it.
pub fn edge_packet(level: Level) -> (packet: Packet)
    ensures
        packet@ == edge_message(level),
{
    let message: [u8; 11] = match level {
        Level::Low => [112, 117, 108, 115, 105, 110, 103, 46, 46, 46, 10],
        Level::High => [112, 97, 117, 115, 105, 110, 103, 46, 46, 46, 10],
    };
    assert(message@ =~= edge_message(level));
    Packet::from(message.as_slice())
}

/// Reports an edge: signals its message, over whatever the mailbox held.
pub fn report_edge(mailbox: &mut SignalMailbox, level: Level)
    ensures
        final(mailbox)@ == slot_after_signal(old(mailbox)@, edge_message(level)),
{
    mailbox.signal(edge_packet(level));
}

} // verus!
