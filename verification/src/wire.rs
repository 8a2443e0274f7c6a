use vstd::prelude::*;

verus! {

/// The four bytes of `x` in network (big-endian) order.
pub open spec fn u32_be_bytes(x: u32) -> Seq<u8> {
    seq![
        ((x >> 24) & 0xff) as u8,
        ((x >> 16) & 0xff) as u8,
        ((x >> 8) & 0xff) as u8,
        (x & 0xff) as u8,
    ]
}

/// The value carried by four network-order bytes.
pub open spec fn u32_from_be(b: Seq<u8>) -> u32
    recommends
        b.len() == 4,
{
    ((b[0] as u32) << 24) | ((b[1] as u32) << 16) | ((b[2] as u32) << 8) | (b[3] as u32)
}

/// The eight bytes of `x` in network (big-endian) order.
pub open spec fn u64_be_bytes(x: u64) -> Seq<u8> {
    seq![
        ((x >> 56) & 0xff) as u8,
        ((x >> 48) & 0xff) as u8,
        ((x >> 40) & 0xff) as u8,
        ((x >> 32) & 0xff) as u8,
        ((x >> 24) & 0xff) as u8,
        ((x >> 16) & 0xff) as u8,
        ((x >> 8) & 0xff) as u8,
        (x & 0xff) as u8,
    ]
}

/// The value carried by eight network-order bytes.
pub open spec fn u64_from_be(b: Seq<u8>) -> u64
    recommends
        b.len() == 8,
{
    ((b[0] as u64) << 56) | ((b[1] as u64) << 48) | ((b[2] as u64) << 40) | ((b[3] as u64)
        << 32) | ((b[4] as u64) << 24) | ((b[5] as u64) << 16) | ((b[6] as u64) << 8) | (
    b[7] as u64)
}

/// The unsigned number with the same two's-complement bit pattern as `x`.
pub open spec fn i64_to_u64_bits(x: i64) -> u64 {
    if x >= 0 {
        x as u64
    } else {
        (x + 0x1_0000_0000_0000_0000) as u64
    }
}

/// The signed number with the same two's-complement bit pattern as `x`.
pub open spec fn u64_to_i64_bits(x: u64) -> i64 {
    if x < 0x8000_0000_0000_0000 {
        x as i64
    } else {
        (x - 0x1_0000_0000_0000_0000) as i64
    }
}

/// The eight bytes of a signed 64-bit number in network order.
pub open spec fn i64_be_bytes(x: i64) -> Seq<u8> {
    u64_be_bytes(i64_to_u64_bits(x))
}

/// Reinterpreting a signed value as unsigned and back loses nothing.
pub proof fn lemma_i64_u64_bits_round_trip(x: i64)
    ensures
        u64_to_i64_bits(i64_to_u64_bits(x)) == x,
{
}

/// Appends the four network-order bytes of `x`.
pub fn put_u32_be(out: &mut Vec<u8>, x: u32)
    ensures
        final(out)@ == old(out)@ + u32_be_bytes(x),
{
    proof {
        assert((x >> 24) & 0xff < 256 && (x >> 16) & 0xff < 256 && (x >> 8) & 0xff < 256 && x
            & 0xff < 256) by (bit_vector);
    }
    out.push(((x >> 24) & 0xff) as u8);
    out.push(((x >> 16) & 0xff) as u8);
    out.push(((x >> 8) & 0xff) as u8);
    out.push((x & 0xff) as u8);
    assert(out@ =~= old(out)@ + u32_be_bytes(x));
}

/// Reads a 32-bit value from four network-order bytes at `start`.
pub fn get_u32_be(b: &Vec<u8>, start: usize) -> (r: u32)
    requires
        start + 4 <= b@.len(),
    ensures
        r == u32_from_be(b@.subrange(start as int, start as int + 4)),
{
    let n: usize = b.len();
    assert(start + 4 <= n);
    let r = ((b[start] as u32) << 24) | ((b[start + 1] as u32) << 16) | ((b[start + 2] as u32)
        << 8) | (b[start + 3] as u32);
    proof {
        let s = b@.subrange(start as int, start as int + 4);
        assert(s[0] == b@[start as int] && s[1] == b@[start as int + 1] && s[2] == b@[start as int
            + 2] && s[3] == b@[start as int + 3]);
    }
    r
}

/// Appends the eight network-order bytes of `x`.
pub fn put_u64_be(out: &mut Vec<u8>, x: u64)
    ensures
        final(out)@ == old(out)@ + u64_be_bytes(x),
{
    proof {
        assert((x >> 56) & 0xff < 256 && (x >> 48) & 0xff < 256 && (x >> 40) & 0xff < 256 && (x
            >> 32) & 0xff < 256 && (x >> 24) & 0xff < 256 && (x >> 16) & 0xff < 256 && (x >> 8)
            & 0xff < 256 && x & 0xff < 256) by (bit_vector);
    }
    out.push(((x >> 56) & 0xff) as u8);
    out.push(((x >> 48) & 0xff) as u8);
    out.push(((x >> 40) & 0xff) as u8);
    out.push(((x >> 32) & 0xff) as u8);
    out.push(((x >> 24) & 0xff) as u8);
    out.push(((x >> 16) & 0xff) as u8);
    out.push(((x >> 8) & 0xff) as u8);
    out.push((x & 0xff) as u8);
    assert(out@ =~= old(out)@ + u64_be_bytes(x));
}

/// Reads a 64-bit value from eight network-order bytes at `start`.
pub fn get_u64_be(b: &Vec<u8>, start: usize) -> (r: u64)
    requires
        start + 8 <= b@.len(),
    ensures
        r == u64_from_be(b@.subrange(start as int, start as int + 8)),
{
    let n: usize = b.len();
    assert(start + 8 <= n);
    let r = ((b[start] as u64) << 56) | ((b[start + 1] as u64) << 48) | ((b[start + 2] as u64)
        << 40) | ((b[start + 3] as u64) << 32) | ((b[start + 4] as u64) << 24) | ((b[start
        + 5] as u64) << 16) | ((b[start + 6] as u64) << 8) | (b[start + 7] as u64);
    proof {
        let s = b@.subrange(start as int, start as int + 8);
        assert(s[0] == b@[start as int] && s[1] == b@[start as int + 1] && s[2] == b@[start as int
            + 2] && s[3] == b@[start as int + 3] && s[4] == b@[start as int + 4] && s[5] == b@[
            start as int + 5] && s[6] == b@[start as int + 6] && s[7] == b@[start as int + 7]);
    }
    r
}

/// The unsigned reinterpretation of `x`, computed without a narrowing cast.
pub fn i64_bits(x: i64) -> (r: u64)
    ensures
        r == i64_to_u64_bits(x),
{
    if x >= 0 {
        x as u64
    } else {
        let y: i64 = -(x + 1);
        u64::MAX - (y as u64)
    }
}

/// The signed reinterpretation of `x`, computed without a narrowing cast.
pub fn u64_bits_signed(x: u64) -> (r: i64)
    ensures
        r == u64_to_i64_bits(x),
{
    if x < 0x8000_0000_0000_0000 {
        x as i64
    } else {
        let y: u64 = u64::MAX - x;
        -(y as i64) - 1
    }
}

/// Appends the eight network-order bytes of a signed 64-bit value.
pub fn put_i64_be(out: &mut Vec<u8>, x: i64)
    ensures
        final(out)@ == old(out)@ + i64_be_bytes(x),
{
    let u = i64_bits(x);
    put_u64_be(out, u);
}

/// Reads a signed 64-bit value from eight network-order bytes at `start`.
pub fn get_i64_be(b: &Vec<u8>, start: usize) -> (r: i64)
    requires
        start + 8 <= b@.len(),
    ensures
        r == u64_to_i64_bits(u64_from_be(b@.subrange(start as int, start as int + 8))),
{
    let u = get_u64_be(b, start);
    u64_bits_signed(u)
}

/// Encoding a 32-bit value and decoding the bytes gives the value back.
pub proof fn lemma_u32_be_round_trip(x: u32)
    ensures
        u32_from_be(u32_be_bytes(x)) == x,
{
    let b0: u8 = ((x >> 24) & 0xff) as u8;
    let b1: u8 = ((x >> 16) & 0xff) as u8;
    let b2: u8 = ((x >> 8) & 0xff) as u8;
    let b3: u8 = (x & 0xff) as u8;
    assert(((b0 as u32) << 24) | ((b1 as u32) << 16) | ((b2 as u32) << 8) | (b3 as u32)
        == x) by (bit_vector)
        requires
            b0 == ((x >> 24) & 0xff) as u8,
            b1 == ((x >> 16) & 0xff) as u8,
            b2 == ((x >> 8) & 0xff) as u8,
            b3 == (x & 0xff) as u8,
    ;
}

/// Encoding a 64-bit value and decoding the bytes gives the value back.
pub proof fn lemma_u64_be_round_trip(x: u64)
    ensures
        u64_from_be(u64_be_bytes(x)) == x,
{
    let b0: u8 = ((x >> 56) & 0xff) as u8;
    let b1: u8 = ((x >> 48) & 0xff) as u8;
    let b2: u8 = ((x >> 40) & 0xff) as u8;
    let b3: u8 = ((x >> 32) & 0xff) as u8;
    let b4: u8 = ((x >> 24) & 0xff) as u8;
    let b5: u8 = ((x >> 16) & 0xff) as u8;
    let b6: u8 = ((x >> 8) & 0xff) as u8;
    let b7: u8 = (x & 0xff) as u8;
    assert(((b0 as u64) << 56) | ((b1 as u64) << 48) | ((b2 as u64) << 40) | ((b3 as u64)
        << 32) | ((b4 as u64) << 24) | ((b5 as u64) << 16) | ((b6 as u64) << 8) | (b7 as u64)
        == x) by (bit_vector)
        requires
            b0 == ((x >> 56) & 0xff) as u8,
            b1 == ((x >> 48) & 0xff) as u8,
            b2 == ((x >> 40) & 0xff) as u8,
            b3 == ((x >> 32) & 0xff) as u8,
            b4 == ((x >> 24) & 0xff) as u8,
            b5 == ((x >> 16) & 0xff) as u8,
            b6 == ((x >> 8) & 0xff) as u8,
            b7 == (x & 0xff) as u8,
    ;
}

/// Encoding a signed 64-bit value and decoding the bytes gives the value back.
pub proof fn lemma_i64_be_round_trip(x: i64)
    ensures
        u64_to_i64_bits(u64_from_be(i64_be_bytes(x))) == x,
{
    lemma_u64_be_round_trip(i64_to_u64_bits(x));
    lemma_i64_u64_bits_round_trip(x);
}

} // verus!
