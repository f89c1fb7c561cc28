//! The single-slot, last-write-wins mailbox between the producers and the
//! one consumer.
//!
//! The slot is an `embassy_sync` signal. A producer overwrites whatever is
//! in it; the consumer takes what is there and leaves it empty. Nothing is
//! queued: a message that is overwritten before it is taken is lost.

use vstd::prelude::*;
use embassy_sync::blocking_mutex::raw::CriticalSectionRawMutex;
use embassy_sync::signal::Signal;
use crate::packet::Packet;
use crate::packet::PACKET_CAPACITY;

verus! {

/// The mailbox: one `embassy_sync` signal that carries packets.
///
/// `Signal` is generic over a raw-mutex trait that the verifier knows nothing
/// of, so the struct that holds it is opaque to the verifier. What the
/// mailbox holds goes by the name `mailbox_pending`, and this module alone
/// touches the signal: through `Signal::new`, `Signal::signal` and
/// `Signal::try_take`, each with exclusive access.
#[verifier::external_body]
pub struct SignalMailbox {
    channel: Signal<CriticalSectionRawMutex, Packet>,
}

/// What the mailbox holds: the message that was signaled last and has not
/// been taken yet, if there is one.
pub uninterp spec fn mailbox_pending(mailbox: SignalMailbox) -> Option<Seq<u8>>;

impl View for SignalMailbox {
    type V = Option<Seq<u8>>;

    open spec fn view(&self) -> Option<Seq<u8>> {
        mailbox_pending(*self)
    }
}

/// Calls `Signal::new`. A new signal holds nothing.
#[verifier::external_body]
fn channel_new() -> (mailbox: SignalMailbox)
    ensures
        mailbox_pending(mailbox) is None,
{
    SignalMailbox { channel: Signal::new() }
}

/// Calls `Signal::signal`. The signal then holds `value`, whatever it held
/// before.
#[verifier::external_body]
fn channel_signal(mailbox: &mut SignalMailbox, value: Packet)
    ensures
        mailbox_pending(*final(mailbox)) == Some(value@),
{
    mailbox.channel.signal(value)
}

/// Calls `Signal::try_take`. It hands out the value that the signal holds
/// and leaves the signal empty; on an empty signal it returns `None` and the
/// signal stays empty.
#[verifier::external_body]
fn channel_try_take(mailbox: &mut SignalMailbox) -> (taken: Option<Packet>)
    ensures
        mailbox_pending(*final(mailbox)) is None,
        match taken {
            Some(packet) => mailbox_pending(*old(mailbox)) == Some(packet@),
            None => mailbox_pending(*old(mailbox)) is None,
        },
{
    mailbox.channel.try_take()
}

/// The slot after `message` was signaled into it: the message, whatever
/// the slot held before.
pub open spec fn slot_after_signal(slot: Option<Seq<u8>>, message: Seq<u8>) -> Option<Seq<u8>> {
    Some(message)
}

/// What a wait on the slot yields at once: the message in it, or `None`
/// where the slot is empty and the consumer has to suspend.
pub open spec fn wait_outcome(slot: Option<Seq<u8>>) -> Option<Seq<u8>> {
    slot
}

/// The slot after a wait looked at it: empty.
pub open spec fn slot_after_wait(slot: Option<Seq<u8>>) -> Option<Seq<u8>> {
    None
}

/// The slot after `chunks` were signaled into it one by one: it holds the
/// last of them, or what it held before if there were none.
pub open spec fn slot_after_chunks(slot: Option<Seq<u8>>, chunks: Seq<Vec<u8>>) -> Option<
    Seq<u8>,
> {
    if chunks.len() == 0 {
        slot
    } else {
        Some(chunks.last()@)
    }
}

/// Whether `chunks` are `bytes` handed out one byte to a chunk, in order.
pub open spec fn chunks_hold(chunks: Seq<Vec<u8>>, bytes: Seq<u8>) -> bool {
    &&& chunks.len() == bytes.len()
    &&& forall|i: int| 0 <= i < chunks.len() ==> (#[trigger] chunks[i])@ == seq![bytes[i]]
}

/// The slot after `bytes` were signaled into it one by one, each as a
/// message of its own: it holds the last byte, or what it held before if
/// there were none.
pub open spec fn slot_after_bytes(slot: Option<Seq<u8>>, bytes: Seq<u8>) -> Option<Seq<u8>> {
    if bytes.len() == 0 {
        slot
    } else {
        Some(seq![bytes.last()])
    }
}

impl SignalMailbox {
    /// An empty mailbox.
    pub fn new() -> (mailbox: SignalMailbox)
        ensures
            mailbox@ is None,
    {
        channel_new()
    }

    /// Stores `value`, discarding a message that was not taken yet. Never
    /// blocks and never fails.
    pub fn signal(&mut self, value: Packet)
        ensures
            final(self)@ == slot_after_signal(old(self)@, value@),
    {
        channel_signal(self, value);
    }

    /// One look at the slot on behalf of the consumer: takes the message
    /// and clears the slot, or returns `None` where there is nothing to
    /// take and the consumer has to suspend until the next `signal`.
    pub fn try_wait(&mut self) -> (taken: Option<Packet>)
        ensures
            final(self)@ == slot_after_wait(old(self)@),
            match taken {
                Some(packet) => wait_outcome(old(self)@) == Some(packet@),
                None => wait_outcome(old(self)@) is None,
            },
    {
        channel_try_take(self)
    }
}

/// Signals a copy of `b` as one message.
pub fn signal_bytes(mailbox: &mut SignalMailbox, b: &[u8])
    requires
        b@.len() <= PACKET_CAPACITY,
    ensures
        final(mailbox)@ == slot_after_signal(old(mailbox)@, b@),
{
    mailbox.signal(Packet::from(b));
}

/// Signals each chunk as a message of its own, first to last.
pub fn signal_chunks(mailbox: &mut SignalMailbox, chunks: &Vec<Vec<u8>>)
    requires
        forall|i: int|
            0 <= i < chunks@.len() ==> (#[trigger] chunks@[i])@.len() <= PACKET_CAPACITY,
    ensures
        final(mailbox)@ == slot_after_chunks(old(mailbox)@, chunks@),
{
    let mut i: usize = 0;
    while i < chunks.len()
        invariant
            i <= chunks@.len(),
            forall|k: int|
                0 <= k < chunks@.len() ==> (#[trigger] chunks@[k])@.len() <= PACKET_CAPACITY,
            mailbox@ == slot_after_chunks(old(mailbox)@, chunks@.take(i as int)),
        decreases chunks@.len() - i,
    {
        signal_bytes(mailbox, chunks[i].as_slice());
        i += 1;
    }
    assert(chunks@.take(i as int) == chunks@);
}

/// Of two messages signaled with no wait between them, the consumer sees
/// the second and never the first.
pub proof fn lemma_last_signal_wins(slot: Option<Seq<u8>>, first: Seq<u8>, second: Seq<u8>)
    ensures
        wait_outcome(slot_after_signal(slot_after_signal(slot, first), second)) == Some(second),
        slot_after_wait(slot_after_signal(slot_after_signal(slot, first), second)) is None,
        wait_outcome(slot_after_wait(slot_after_signal(slot_after_signal(slot, first), second)))
            is None,
{
}

/// The consumer sees a message at most once: after a wait has looked at the
/// slot, a second wait with no signal in between finds nothing.
pub proof fn lemma_message_is_taken_once(slot: Option<Seq<u8>>)
    ensures
        wait_outcome(slot_after_wait(slot)) is None,
{
}

/// A wait on an empty slot yields nothing and leaves it empty; the first
/// wait after the next signal yields exactly what was signaled.
pub proof fn lemma_wait_before_signal(message: Seq<u8>)
    ensures
        wait_outcome(None) is None,
        slot_after_wait(None) is None,
        wait_outcome(slot_after_signal(slot_after_wait(None), message)) == Some(message),
{
}

/// A message that is signaled and then waited for arrives unchanged: the
/// same bytes, and as many of them.
pub proof fn lemma_round_trip(slot: Option<Seq<u8>>, message: Seq<u8>)
    ensures
        wait_outcome(slot_after_signal(slot, message)) == Some(message),
        wait_outcome(slot_after_signal(slot, message))->0.len() == message.len(),
        forall|i: int|
            0 <= i < message.len() ==> wait_outcome(slot_after_signal(slot, message))->0[i]
                == message[i],
{
}

} // verus!
