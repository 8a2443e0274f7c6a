use crate::common::{session_message_bytes, PayloadMessage, SessionMessage};
use crate::wire::{u32_be_bytes, u32_from_be};
use vstd::prelude::*;

verus! {

/// A run of `n` zero bytes: the body of every benchmark packet.
pub open spec fn zero_bytes(n: nat) -> Seq<u8> {
    Seq::new(n, |i: int| 0u8)
}

/// The wire form of one benchmark packet: its body length as four
/// network-order bytes, then that many zero bytes.
pub open spec fn payload_frame_bytes(length: u32) -> Seq<u8> {
    u32_be_bytes(length) + zero_bytes(length as nat)
}

/// The sending side of the throughput benchmark session: it announces a
/// count of packets and a body length, then produces exactly that many
/// packets, each acknowledged before the next is sent.
pub struct Transmitter {
    count: u32,
    length: u32,
    sent: u32,
}

impl Transmitter {
    pub closed spec fn count_spec(self) -> u32 {
        self.count
    }

    pub closed spec fn length_spec(self) -> u32 {
        self.length
    }

    /// Packets handed out so far.
    pub closed spec fn sent_spec(self) -> u32 {
        self.sent
    }

    /// A transmitter never produces more packets than it announced.
    pub open spec fn wf(self) -> bool {
        self.sent_spec() <= self.count_spec()
    }

    pub fn new(count: u32, length: u32) -> (t: Transmitter)
        ensures
            t.wf(),
            t.count_spec() == count,
            t.length_spec() == length,
            t.sent_spec() == 0,
    {
        Transmitter { count, length, sent: 0 }
    }

    /// The session header that opens the exchange: the announced count and
    /// length, in their eight wire bytes.
    pub fn session_header(&self) -> (r: Vec<u8>)
        ensures
            r@ == session_message_bytes(
                SessionMessage { count: self.count_spec(), length: self.length_spec() },
            ),
            r@.len() == 8,
    {
        let m = SessionMessage { count: self.count, length: self.length };
        m.encode()
    }

    /// Whether another packet is owed.
    pub fn has_next(&self) -> (r: bool)
        ensures
            r == (self.sent_spec() < self.count_spec()),
    {
        self.sent < self.count
    }

    /// Produces the next packet, exactly as it goes on the wire: the body
    /// length in network order, then a fresh all-zero body.
    pub fn next_frame(&mut self) -> (frame: Vec<u8>)
        requires
            old(self).wf(),
            old(self).sent_spec() < old(self).count_spec(),
        ensures
            final(self).wf(),
            frame@ == payload_frame_bytes(old(self).length_spec()),
            final(self).sent_spec() == old(self).sent_spec() + 1,
            final(self).count_spec() == old(self).count_spec(),
            final(self).length_spec() == old(self).length_spec(),
    {
        let mut frame: Vec<u8> = Vec::new();
        crate::wire::put_u32_be(&mut frame, self.length);
        let mut payload = PayloadMessage::new(self.length);
        frame.append(&mut payload.data);
        self.sent = self.sent + 1;
        assert(frame@ =~= payload_frame_bytes(self.length));
        frame
    }
}

/// The receiving side of the throughput benchmark session: it learns the
/// announced count and length from the session header, then checks each
/// packet's length prefix against the announcement and echoes the prefix
/// back as the acknowledgement.
pub struct Receiver {
    count: u32,
    length: u32,
    received: u32,
}

impl Receiver {
    pub closed spec fn count_spec(self) -> u32 {
        self.count
    }

    pub closed spec fn length_spec(self) -> u32 {
        self.length
    }

    /// Packets accepted so far.
    pub closed spec fn received_spec(self) -> u32 {
        self.received
    }

    /// A receiver never accepts more packets than were announced.
    pub open spec fn wf(self) -> bool {
        self.received_spec() <= self.count_spec()
    }

    /// Opens a session from the eight header bytes the peer sent.
    pub fn from_header(b: &Vec<u8>) -> (r: Receiver)
        requires
            b@.len() == 8,
        ensures
            r.wf(),
            r.count_spec() == u32_from_be(b@.subrange(0, 4)),
            r.length_spec() == u32_from_be(b@.subrange(4, 8)),
            r.received_spec() == 0,
    {
        let m = SessionMessage::decode(b);
        Receiver { count: m.count, length: m.length, received: 0 }
    }

    /// Whether every announced packet has arrived.
    pub fn is_done(&self) -> (r: bool)
        ensures
            r == (self.received_spec() == self.count_spec()),
    {
        self.received == self.count
    }

    /// The announced packet count.
    pub fn expected_count(&self) -> (r: u32)
        ensures
            r == self.count_spec(),
    {
        self.count
    }

    /// The announced body length, which every packet must repeat.
    pub fn expected_length(&self) -> (r: u32)
        ensures
            r == self.length_spec(),
    {
        self.length
    }

    /// Judges one packet by its length prefix. A prefix equal to the
    /// announced length accepts the packet and yields the four-byte
    /// acknowledgement to echo back; any other prefix is a protocol
    /// violation, yields nothing, and leaves the session untouched.
    pub fn on_payload_header(&mut self, payload_length: u32) -> (ack: Option<Vec<u8>>)
        requires
            old(self).wf(),
            old(self).received_spec() < old(self).count_spec(),
        ensures
            final(self).wf(),
            final(self).count_spec() == old(self).count_spec(),
            final(self).length_spec() == old(self).length_spec(),
            ack is Some <==> payload_length == old(self).length_spec(),
            ack matches Some(a) ==> {
                &&& a@ == u32_be_bytes(payload_length)
                &&& final(self).received_spec() == old(self).received_spec() + 1
            },
            ack is None ==> *final(self) == *old(self),
    {
        if payload_length == self.length {
            self.received = self.received + 1;
            let mut a: Vec<u8> = Vec::new();
            crate::wire::put_u32_be(&mut a, payload_length);
            assert(a@ =~= u32_be_bytes(payload_length));
            Some(a)
        } else {
            None
        }
    }

    /// The total payload bytes a completed session moved: the announced
    /// count times the announced body length.
    pub fn total_payload_bytes(&self) -> (r: u64)
        ensures
            r == self.count_spec() * self.length_spec(),
    {
        proof {
            let c = self.count;
            let l = self.length;
            assert((c as u64) * (l as u64) <= u64::MAX && (c as u64) * (l as u64) == (
            c as int) * (l as int)) by (nonlinear_arith)
                requires
                    c <= u32::MAX,
                    l <= u32::MAX,
            ;
        }
        (self.count as u64) * (self.length as u64)
    }
}

} // verus!
