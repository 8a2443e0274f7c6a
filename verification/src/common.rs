use crate::wire::{put_u32_be, u32_be_bytes, u32_from_be};
use vstd::prelude::*;

verus! {

/// The shared command line of the throughput tools: either receive on a
/// port, or transmit to a server. A validated value holds exactly one of
/// the two roles.
pub struct Args {
    port: u16,
    transmit: Option<String>,
    recv: bool,
    length: u32,
    count: u32,
}

impl Args {
    pub closed spec fn port_spec(self) -> u16 {
        self.port
    }

    pub closed spec fn transmit_spec(self) -> Option<String> {
        self.transmit
    }

    pub closed spec fn recv_spec(self) -> bool {
        self.recv
    }

    pub closed spec fn length_spec(self) -> u32 {
        self.length
    }

    pub closed spec fn count_spec(self) -> u32 {
        self.count
    }

    /// Validates a raw argument set. The receive role must name no server
    /// to transmit to, and the transmit role must name one; any other
    /// combination is rejected and no tool runs.
    pub fn new(port: u16, transmit: Option<String>, recv: bool, length: u32, count: u32) -> (r:
        Option<Args>)
        ensures
            r is Some <==> (recv <==> transmit is None),
            r matches Some(a) ==> {
                &&& a.port_spec() == port
                &&& a.transmit_spec() == transmit
                &&& a.recv_spec() == recv
                &&& a.length_spec() == length
                &&& a.count_spec() == count
            },
    {
        if recv {
            if transmit.is_some() {
                return None;
            }
        } else {
            if transmit.is_none() {
                return None;
            }
        }
        Some(Args { port, transmit, recv, length, count })
    }

    pub fn is_receive(&self) -> (r: bool)
        ensures
            r == self.recv_spec(),
    {
        self.recv
    }

    pub fn is_transmit(&self) -> (r: bool)
        ensures
            r == !self.recv_spec(),
    {
        !self.recv
    }

    /// The server to dial, or the loopback address when none was named.
    /// There is always an address to use.
    pub fn get_server_address(&self) -> (r: Option<&str>)
        ensures
            r is Some,
            self.transmit_spec() matches Some(t) ==> (r matches Some(s) && s@ == t@),
            self.transmit_spec() is None ==> (r matches Some(s) && s@ == "127.0.0.1"@),
    {
        match &self.transmit {
            Some(s) => Some(s.as_str()),
            None => Some("127.0.0.1"),
        }
    }

    pub fn get_port(&self) -> (r: u16)
        ensures
            r == self.port_spec(),
    {
        self.port
    }

    pub fn get_packet_size(&self) -> (r: u32)
        ensures
            r == self.length_spec(),
    {
        self.length
    }

    pub fn get_packet_count(&self) -> (r: u32)
        ensures
            r == self.count_spec(),
    {
        self.count
    }
}

/// The throughput session header: how many packets will follow and how
/// long each one's body is. On the wire it is two 32-bit fields in network
/// order, count first.
#[derive(Clone, Copy, Debug, PartialEq, Eq, Structural)]
pub struct SessionMessage {
    pub count: u32,
    pub length: u32,
}

/// The eight bytes a session header occupies on the wire.
pub open spec fn session_message_bytes(m: SessionMessage) -> Seq<u8> {
    u32_be_bytes(m.count) + u32_be_bytes(m.length)
}

impl SessionMessage {
    /// The wire form of this header.
    pub fn encode(&self) -> (r: Vec<u8>)
        ensures
            r@ == session_message_bytes(*self),
            r@.len() == 8,
    {
        let mut r: Vec<u8> = Vec::new();
        put_u32_be(&mut r, self.count);
        put_u32_be(&mut r, self.length);
        assert(r@ =~= session_message_bytes(*self));
        r
    }

    /// Reads a header back from its eight wire bytes.
    pub fn decode(b: &Vec<u8>) -> (r: SessionMessage)
        requires
            b@.len() == 8,
        ensures
            r.count == u32_from_be(b@.subrange(0, 4)),
            r.length == u32_from_be(b@.subrange(4, 8)),
    {
        let count = crate::wire::get_u32_be(b, 0);
        let length = crate::wire::get_u32_be(b, 4);
        SessionMessage { count, length }
    }
}

/// Decoding the wire form of a session header gives the header back:
/// the session protocol's framing loses nothing.
pub proof fn lemma_session_message_round_trip(m: SessionMessage)
    ensures
        u32_from_be(session_message_bytes(m).subrange(0, 4)) == m.count,
        u32_from_be(session_message_bytes(m).subrange(4, 8)) == m.length,
{
    assert(session_message_bytes(m).subrange(0, 4) =~= u32_be_bytes(m.count));
    assert(session_message_bytes(m).subrange(4, 8) =~= u32_be_bytes(m.length));
    crate::wire::lemma_u32_be_round_trip(m.count);
    crate::wire::lemma_u32_be_round_trip(m.length);
}

/// One packet body of the throughput benchmark: `length` zero bytes,
/// allocated fresh for each send or receive.
pub struct PayloadMessage {
    pub length: u32,
    pub data: Vec<u8>,
}

impl PayloadMessage {
    pub fn new(length: u32) -> (r: PayloadMessage)
        ensures
            r.length == length,
            r.data@.len() == length,
            forall|i: int| 0 <= i < r.data@.len() ==> r.data@[i] == 0u8,
    {
        let mut data: Vec<u8> = Vec::new();
        let mut i: u32 = 0;
        while i < length
            invariant
                i <= length,
                data@.len() == i,
                forall|j: int| 0 <= j < data@.len() ==> data@[j] == 0u8,
            decreases length - i,
        {
            data.push(0u8);
            i = i + 1;
        }
        PayloadMessage { length, data }
    }
}

} // verus!
