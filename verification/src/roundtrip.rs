use crate::wire::{get_i64_be, i64_be_bytes, put_i64_be, u64_from_be, u64_to_i64_bits};
use vstd::prelude::*;

verus! {

/// The command line of the round-trip-time probe: act as the reflecting
/// server, or as the probing client, against a host and port.
pub struct RoundTripArgs {
    server: bool,
    host: String,
    port: u16,
}

impl RoundTripArgs {
    pub closed spec fn server_spec(self) -> bool {
        self.server
    }

    pub closed spec fn host_spec(self) -> Seq<char> {
        self.host@
    }

    pub closed spec fn port_spec(self) -> u16 {
        self.port
    }

    pub fn new(server: bool, host: String, port: u16) -> (a: RoundTripArgs)
        ensures
            a.server_spec() == server,
            a.host_spec() == host@,
            a.port_spec() == port,
    {
        RoundTripArgs { server, host, port }
    }

    pub fn is_server(&self) -> (r: bool)
        ensures
            r == self.server_spec(),
    {
        self.server
    }

    pub fn host(&self) -> (r: &str)
        ensures
            r@ == self.host_spec(),
    {
        self.host.as_str()
    }

    pub fn port(&self) -> (r: u16)
        ensures
            r == self.port_spec(),
    {
        self.port
    }
}

/// One probe frame: two timestamps in microseconds. The client stamps `t1`
/// when it sends; the server stamps `t2` when it reflects the frame back.
/// On the wire the frame is sixteen bytes, two signed 64-bit fields in
/// network order, `t1` first.
#[derive(Clone, Copy, Debug, PartialEq, Eq, Structural)]
pub struct RTTFrame {
    t1: i64,
    t2: i64,
}

/// The sixteen bytes a probe frame occupies on the wire.
pub open spec fn rtt_frame_bytes(f: RTTFrame) -> Seq<u8> {
    i64_be_bytes(f.t1_spec()) + i64_be_bytes(f.t2_spec())
}

impl Default for RTTFrame {
    /// A frame with both timestamps unset.
    fn default() -> (r: RTTFrame)
        ensures
            r.t1_spec() == 0,
            r.t2_spec() == 0,
    {
        RTTFrame { t1: 0, t2: 0 }
    }
}

impl RTTFrame {
    pub closed spec fn t1_spec(self) -> i64 {
        self.t1
    }

    pub closed spec fn t2_spec(self) -> i64 {
        self.t2
    }

    pub fn new(t1: i64, t2: i64) -> (r: RTTFrame)
        ensures
            r.t1_spec() == t1,
            r.t2_spec() == t2,
    {
        RTTFrame { t1, t2 }
    }

    pub fn t1(&self) -> (r: i64)
        ensures
            r == self.t1_spec(),
    {
        self.t1
    }

    pub fn t2(&self) -> (r: i64)
        ensures
            r == self.t2_spec(),
    {
        self.t2
    }

    /// The wire form of this frame.
    pub fn encode(&self) -> (r: Vec<u8>)
        ensures
            r@ == rtt_frame_bytes(*self),
            r@.len() == 16,
    {
        let mut r: Vec<u8> = Vec::new();
        put_i64_be(&mut r, self.t1);
        put_i64_be(&mut r, self.t2);
        assert(r@ =~= rtt_frame_bytes(*self));
        r
    }

    /// Reads a frame back from its sixteen wire bytes.
    pub fn decode(b: &Vec<u8>) -> (r: RTTFrame)
        requires
            b@.len() == 16,
        ensures
            r.t1_spec() == u64_to_i64_bits(u64_from_be(b@.subrange(0, 8))),
            r.t2_spec() == u64_to_i64_bits(u64_from_be(b@.subrange(8, 16))),
    {
        let t1 = get_i64_be(b, 0);
        let t2 = get_i64_be(b, 8);
        RTTFrame { t1, t2 }
    }

    /// Stamps `t1` with the wall clock. Whatever the clock said, `t2` is
    /// untouched.
    pub fn set_t1_to_now(&mut self)
        ensures
            final(self).t2_spec() == old(self).t2_spec(),
    {
        self.t1 = crate::clock::now_timestamp_micros();
    }

    /// Stamps `t2` with the wall clock. Whatever the clock said, `t1` is
    /// untouched — the reflected frame still carries the client's own send
    /// stamp.
    pub fn set_t2_to_now(&mut self)
        ensures
            final(self).t1_spec() == old(self).t1_spec(),
    {
        self.t2 = crate::clock::now_timestamp_micros();
    }
}

/// Decoding the wire form of a probe frame gives the frame back: the
/// probe's sixteen-byte format loses neither timestamp.
pub proof fn lemma_rtt_frame_round_trip(f: RTTFrame)
    ensures
        u64_to_i64_bits(u64_from_be(rtt_frame_bytes(f).subrange(0, 8))) == f.t1_spec(),
        u64_to_i64_bits(u64_from_be(rtt_frame_bytes(f).subrange(8, 16))) == f.t2_spec(),
{
    assert(rtt_frame_bytes(f).subrange(0, 8) =~= i64_be_bytes(f.t1));
    assert(rtt_frame_bytes(f).subrange(8, 16) =~= i64_be_bytes(f.t2));
    crate::wire::lemma_i64_be_round_trip(f.t1);
    crate::wire::lemma_i64_be_round_trip(f.t2);
}

/// The round-trip time a returned frame shows: the clock now, minus the
/// send stamp the frame carried out and back.
pub fn rtt_micros(t1: i64, t3: i64) -> (r: i64)
    requires
        0 <= t1 <= t3,
    ensures
        r == t3 - t1,
{
    t3 - t1
}

/// The reflecting clock's apparent offset: its stamp `t2`, minus the
/// midpoint of the probing clock's send stamp `t1` and receive stamp `t3`.
pub fn clock_offset_micros(t1: i64, t2: i64, t3: i64) -> (r: i64)
    requires
        0 <= t1,
        0 <= t2,
        0 <= t3,
        t1 + t3 <= i64::MAX,
    ensures
        r == t2 - (t3 + t1) / 2,
{
    let mid = (((t3 as u64) + (t1 as u64)) / 2) as i64;
    assert(mid == (t3 + t1) / 2);
    t2 - mid
}

} // verus!
