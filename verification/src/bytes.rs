//! Byte-order helpers.
//!
//! Security Manager fields travel least significant octet first, while the
//! cryptographic toolbox reads every value most significant octet first. A
//! field on the wire is therefore the reversal of the value it carries, and
//! decoding is the same reversal again.

use vstd::prelude::*;

verus! {

/// Appends `bytes` to `out` unchanged.
pub fn push_all(out: &mut Vec<u8>, bytes: &[u8])
    ensures
        final(out)@ == old(out)@ + bytes@,
{
    let n: usize = bytes.len();
    let mut i: usize = 0;
    while i < n
        invariant
            n == bytes@.len(),
            i <= n,
            out@ == old(out)@ + bytes@.subrange(0, i as int),
        decreases n - i,
    {
        out.push(bytes[i]);
        i += 1;
    }
    assert(bytes@.subrange(0, n as int) == bytes@);
}

/// Appends `bytes` to `out` in opposite order: the wire form of a value.
pub fn push_reversed(out: &mut Vec<u8>, bytes: &[u8])
    ensures
        final(out)@ == old(out)@ + bytes@.reverse(),
{
    let n: usize = bytes.len();
    let mut i: usize = 0;
    while i < n
        invariant
            n == bytes@.len(),
            i <= n,
            out@ == old(out)@ + bytes@.reverse().subrange(0, i as int),
        decreases n - i,
    {
        out.push(bytes[n - 1 - i]);
        i += 1;
    }
    assert(bytes@.reverse().subrange(0, n as int) == bytes@.reverse());
}

/// Reads the 32-octet value whose wire form starts at `start`.
pub fn read_reversed32(src: &[u8], start: usize) -> (value: [u8; 32])
    requires
        start + 32 <= src@.len(),
    ensures
        value@ == src@.subrange(start as int, start + 32).reverse(),
{
    let len: usize = src.len();
    let mut value: [u8; 32] = [0u8; 32];
    let mut i: usize = 0;
    while i < 32
        invariant
            i <= 32,
            len == src@.len(),
            start + 32 <= len,
            forall|k: int| 0 <= k < i ==> value@[k] == src@[start + 31 - k],
        decreases 32 - i,
    {
        value[i] = src[start + 31 - i];
        i += 1;
    }
    assert(value@ == src@.subrange(start as int, start + 32).reverse());
    value
}

/// Reads the 16-octet value whose wire form starts at `start`.
pub fn read_reversed16(src: &[u8], start: usize) -> (value: [u8; 16])
    requires
        start + 16 <= src@.len(),
    ensures
        value@ == src@.subrange(start as int, start + 16).reverse(),
{
    let len: usize = src.len();
    let mut value: [u8; 16] = [0u8; 16];
    let mut i: usize = 0;
    while i < 16
        invariant
            i <= 16,
            len == src@.len(),
            start + 16 <= len,
            forall|k: int| 0 <= k < i ==> value@[k] == src@[start + 15 - k],
        decreases 16 - i,
    {
        value[i] = src[start + 15 - i];
        i += 1;
    }
    assert(value@ == src@.subrange(start as int, start + 16).reverse());
    value
}

/// The number that sixteen octets spell, most significant octet first.
pub open spec fn be_value(block: Seq<u8>) -> u128
    recommends
        block.len() == 16,
{
    vstd::bytes::spec_u128_from_le_bytes(block.reverse())
}

/// Reads sixteen octets, most significant first, as a number.
pub fn value_of(block: &[u8; 16]) -> (value: u128)
    ensures
        value == be_value(block@),
{
    let mut wire: Vec<u8> = Vec::new();
    push_reversed(&mut wire, block.as_slice());
    vstd::bytes::u128_from_le_bytes(wire.as_slice())
}

/// Reversing twice gives back the sequence: decoding a wire field that was
/// encoded from a value yields that value, whatever its octets are.
pub proof fn lemma_reverse_twice(value: Seq<u8>)
    ensures
        value.reverse().reverse() == value,
        value.reverse().len() == value.len(),
{
    assert(value.reverse().reverse() =~= value);
}

} // verus!
