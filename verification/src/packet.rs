//! The fixed-capacity message that travels through the mailbox.

use vstd::prelude::*;
use vstd::slice::slice_subrange;

verus! {

/// Largest number of bytes one packet can carry.
pub const PACKET_CAPACITY: usize = 64;

/// A short message: a fixed buffer and the number of bytes in use.
///
/// The message proper is the first `len` bytes of the buffer; that prefix is
/// the packet's view. The rest of the buffer is spare: no function hands it
/// out.
pub struct Packet {
    data: [u8; PACKET_CAPACITY],
    len: usize,
}

impl View for Packet {
    type V = Seq<u8>;

    closed spec fn view(&self) -> Seq<u8> {
        self.data@.subrange(0, self.len as int)
    }
}

impl Packet {
    /// The part of the buffer behind the message.
    pub closed spec fn spare(&self) -> Seq<u8> {
        self.data@.subrange(self.len as int, PACKET_CAPACITY as int)
    }

    #[verifier::type_invariant]
    spec fn in_capacity(self) -> bool {
        self.len <= PACKET_CAPACITY
    }

    /// Copies `value` into a new packet, whose spare bytes are zero. A
    /// packet has room for `PACKET_CAPACITY` bytes; longer input has no
    /// packet.
    pub fn from(value: &[u8]) -> (packet: Packet)
        requires
            value@.len() <= PACKET_CAPACITY,
        ensures
            packet@ == value@,
            packet.spare().len() == PACKET_CAPACITY - value@.len(),
            forall|i: int| 0 <= i < packet.spare().len() ==> packet.spare()[i] == 0,
    {
        let mut data = [0u8; PACKET_CAPACITY];
        let mut i: usize = 0;
        while i < value.len()
            invariant
                i <= value@.len() <= PACKET_CAPACITY,
                forall|k: int| 0 <= k < i ==> data@[k] == value@[k],
                forall|k: int| i <= k < PACKET_CAPACITY ==> data@[k] == 0,
            decreases value@.len() - i,
        {
            data[i] = value[i];
            i += 1;
        }
        let packet = Packet { data, len: value.len() };
        assert(packet@ =~= value@);
        packet
    }

    /// The bytes of the message, exactly as they were given: no more of
    /// them and no fewer, and never more than a packet's capacity.
    pub fn get_data<'a>(&'a self) -> (bytes: &'a [u8])
        ensures
            bytes@ == self@,
            bytes@.len() <= PACKET_CAPACITY,
    {
        proof {
            use_type_invariant(self);
        }
        slice_subrange(self.data.as_slice(), 0, self.len)
    }
}

} // verus!
