//! The Enhanced ShockBurst packet, as it lies in RAM for the radio's DMA.

use vstd::prelude::*;

verus! {

/// The largest payload, in bytes, that a [`Packet`] holds.
pub const MAX_PAYLOAD_LEN: u8 = 252;

/// The bytes of a packet in RAM: LENGTH, S1 and the payload area.
pub const PACKET_SIZE: usize = 254;

/// An Enhanced ShockBurst packet.
///
/// Byte 0 is the LENGTH field, byte 1 the S1 field (bit 0: NO_ACK, bits 1 and
/// 2: the packet identifier), and the payload starts at byte 2.
#[derive(Clone, Copy, Debug)]
pub struct Packet {
    buffer: [u8; PACKET_SIZE],
}

impl View for Packet {
    type V = Seq<u8>;

    /// The payload.
    open spec fn view(&self) -> Seq<u8> {
        self.bytes().subrange(2, 2 + self.spec_len())
    }
}

impl Packet {
    /// All bytes of the packet, in the order in which they lie in RAM.
    pub closed spec fn bytes(&self) -> Seq<u8> {
        self.buffer@
    }

    /// Every packet has [`PACKET_SIZE`] bytes.
    pub proof fn lemma_size(&self)
        ensures
            self.bytes().len() == PACKET_SIZE,
    {
    }

    /// All bytes are zero, as they are in a new packet.
    pub open spec fn is_zeroed(&self) -> bool {
        self.bytes() == Seq::new(PACKET_SIZE as nat, |i: int| 0u8)
    }

    /// A packet that is all zero has only zeros, and is empty.
    pub proof fn lemma_zeroed(&self)
        requires
            self.is_zeroed(),
        ensures
            forall|i: int| 0 <= i < PACKET_SIZE ==> #[trigger] self.bytes()[i] == 0,
            self@.len() == 0,
    {
    }

    /// The LENGTH field.
    pub open spec fn spec_len(&self) -> int {
        self.bytes()[0] as int
    }

    /// The packet identifier of the S1 field.
    pub open spec fn spec_pid(&self) -> int {
        (self.bytes()[1] as int / 2) % 4
    }

    /// The NO_ACK flag of the S1 field.
    pub open spec fn spec_no_ack(&self) -> bool {
        self.bytes()[1] as int % 2 == 1
    }

    /// The LENGTH field stays within the payload area.
    ///
    /// Whatever this library writes keeps this; a packet that was filled by
    /// the radio need not have it.
    pub open spec fn wf(&self) -> bool {
        &&& self.bytes().len() == PACKET_SIZE
        &&& self.spec_len() <= MAX_PAYLOAD_LEN
    }

    /// Returns an empty packet (length = 0).
    pub fn new() -> (r: Self)
        ensures
            r.is_zeroed(),
            r.wf(),
            r@ == Seq::<u8>::empty(),
    {
        let r = Packet { buffer: [0; PACKET_SIZE] };
        assert(r.bytes() =~= Seq::new(PACKET_SIZE as nat, |i: int| 0u8));
        r
    }

    /// The RAM of the packet.
    pub fn as_bytes(&self) -> (r: &[u8; PACKET_SIZE])
        ensures
            r@ == self.bytes(),
    {
        &self.buffer
    }

    /// The RAM of the packet, for the radio to write to.
    pub fn as_mut_bytes(&mut self) -> (r: &mut [u8; PACKET_SIZE])
        ensures
            r@ == old(self).bytes(),
            final(self).bytes() == final(r)@,
    {
        &mut self.buffer
    }

    /// Fills the packet payload with given `src` data.
    ///
    /// The S1 field and the bytes behind the payload keep their values.
    pub fn copy_from_slice(&mut self, src: &[u8])
        requires
            src@.len() <= MAX_PAYLOAD_LEN,
        ensures
            final(self).wf(),
            final(self)@ == src@,
            final(self).spec_len() == src@.len(),
            final(self).spec_pid() == old(self).spec_pid(),
            final(self).spec_no_ack() == old(self).spec_no_ack(),
            final(self).bytes() == seq![src@.len() as u8, old(self).bytes()[1]] + src@
                + old(self).bytes().subrange(2 + src@.len() as int, PACKET_SIZE as int),
    {
        let n: usize = src.len();
        let mut i: usize = 0;
        while i < n
            invariant
                i <= n,
                n == src@.len(),
                n <= MAX_PAYLOAD_LEN,
                self.bytes().len() == PACKET_SIZE,
                old(self).bytes().len() == PACKET_SIZE,
                forall|j: int|
                    0 <= j < PACKET_SIZE ==> self.bytes()[j] == if 2 <= j < 2 + i {
                        src@[j - 2]
                    } else {
                        old(self).bytes()[j]
                    },
            decreases n - i,
        {
            self.buffer[2 + i] = src[i];
            i += 1;
        }
        self.set_len(n as u8);
        assert(self@ =~= src@);
        assert(self.bytes() =~= seq![src@.len() as u8, old(self).bytes()[1]] + src@
            + old(self).bytes().subrange(2 + src@.len() as int, PACKET_SIZE as int));
    }

    /// Returns the size of this packet's payload.
    pub fn len(&self) -> (r: u8)
        ensures
            r == self.bytes()[0],
            r == self.spec_len(),
    {
        self.buffer[0]
    }

    /// Whether the payload is empty.
    pub fn is_empty(&self) -> (r: bool)
        ensures
            r <==> self.bytes()[0] == 0,
            r <==> self.spec_len() == 0,
    {
        self.buffer[0] == 0
    }

    /// Changes the size of the packet's payload.
    ///
    /// A payload that grows takes in the bytes that lay behind it.
    pub fn set_len(&mut self, len: u8)
        requires
            len <= MAX_PAYLOAD_LEN,
        ensures
            final(self).wf(),
            final(self).spec_len() == len,
            final(self).bytes() == old(self).bytes().update(0, len),
            final(self)@ == old(self).bytes().subrange(2, 2 + len),
    {
        self.buffer[0] = len;
        assert(self@ =~= old(self).bytes().subrange(2, 2 + len));
    }

    /// Writes the S1 field.
    pub(crate) fn set_s1(&mut self, s1: u8)
        ensures
            final(self).bytes() == old(self).bytes().update(1, s1),
            final(self).spec_pid() == (s1 as int / 2) % 4,
            final(self).spec_no_ack() == (s1 as int % 2 == 1),
            old(self).wf() ==> final(self).wf() && final(self)@ == old(self)@,
    {
        self.buffer[1] = s1;
        assert(old(self).wf() ==> self@ =~= old(self)@);
    }

    /// The packet identifier.
    pub fn pid(&self) -> (r: u8)
        ensures
            r == (self.bytes()[1] / 2) % 4,
            r == self.spec_pid(),
    {
        let s1: u8 = self.buffer[1];
        assert((s1 >> 1) & 0b11 == (s1 / 2) % 4) by (bit_vector);
        (s1 >> 1) & 0b11
    }

    /// Whether the sender asks for no acknowledgement.
    pub fn no_ack(&self) -> (r: bool)
        ensures
            r <==> self.bytes()[1] % 2 == 1,
            r == self.spec_no_ack(),
    {
        let s1: u8 = self.buffer[1];
        assert(s1 & 1 == s1 % 2) by (bit_vector);
        (s1 & 1) == 1
    }

    /// The payload.
    pub fn deref(&self) -> (r: &[u8])
        requires
            self.wf(),
        ensures
            r@ == self@,
    {
        let end: usize = 2 + self.len() as usize;
        &self.buffer[2..end]
    }

    /// The payload, for writing in place.
    pub fn deref_mut(&mut self) -> (r: &mut [u8])
        requires
            old(self).wf(),
        ensures
            r@ == old(self)@,
            final(self).bytes() == old(self).bytes().subrange(0, 2) + final(r)@
                + old(self).bytes().subrange(2 + old(self).spec_len(), PACKET_SIZE as int),
            final(r)@.len() == r@.len() ==> final(self).wf() && final(self)@ == final(r)@,
    {
        let len: usize = self.len() as usize;
        let all: &mut [u8] = &mut self.buffer;
        let (_, area) = all.split_at_mut(2);
        let (payload, _) = area.split_at_mut(len);
        payload
    }
}

impl Default for Packet {
    fn default() -> (r: Self)
        ensures
            r.is_zeroed(),
            r.wf(),
            r@ == Seq::<u8>::empty(),
    {
        Self::new()
    }
}

} // verus!
