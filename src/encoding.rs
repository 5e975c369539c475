//! Canonical byte encodings, written with bincode's fixed-width little-endian format.
use vstd::prelude::*;

verus! {

/// The `n` low-order bytes of `v`, least significant first.
pub open spec fn le_bytes(v: nat, n: nat) -> Seq<u8>
    decreases n,
{
    if n == 0 {
        Seq::empty()
    } else {
        seq![(v % 256) as u8] + le_bytes(v / 256, (n - 1) as nat)
    }
}

/// A variable-size byte string: its length as eight bytes, then the bytes.
pub open spec fn length_prefixed(b: Seq<u8>) -> Seq<u8> {
    le_bytes(b.len(), 8) + b
}

/// Relies on bincode::serialize: a u32 is written as its four little-endian bytes.
#[verifier::external_body]
fn bincode_u32(v: u32) -> (r: Vec<u8>)
    ensures
        r@ == le_bytes(v as nat, 4),
{
    bincode::serialize(&v).unwrap()
}

/// Relies on bincode::serialize: a u64 is written as its eight little-endian bytes.
#[verifier::external_body]
fn bincode_u64(v: u64) -> (r: Vec<u8>)
    ensures
        r@ == le_bytes(v as nat, 8),
{
    bincode::serialize(&v).unwrap()
}

/// Relies on bincode::serialize: a `Vec<u8>` is written as its length (a u64)
/// followed by its bytes.
#[verifier::external_body]
fn bincode_bytes(b: &Vec<u8>) -> (r: Vec<u8>)
    ensures
        r@ == length_prefixed(b@),
{
    bincode::serialize(b).unwrap()
}

/// Appends the encoding of a u32.
pub fn put_u32(out: &mut Vec<u8>, v: u32)
    ensures
        final(out)@ == old(out)@ + le_bytes(v as nat, 4),
{
    let mut e = bincode_u32(v);
    out.append(&mut e);
}

/// Appends the encoding of a u64.
pub fn put_u64(out: &mut Vec<u8>, v: u64)
    ensures
        final(out)@ == old(out)@ + le_bytes(v as nat, 8),
{
    let mut e = bincode_u64(v);
    out.append(&mut e);
}

/// Appends a variable-size byte string.
pub fn put_bytes(out: &mut Vec<u8>, b: &Vec<u8>)
    ensures
        final(out)@ == old(out)@ + length_prefixed(b@),
{
    let mut e = bincode_bytes(b);
    out.append(&mut e);
}

/// Appends a byte sequence as it stands, as fixed-size arrays are encoded.
pub fn put_raw(out: &mut Vec<u8>, b: &[u8])
    ensures
        final(out)@ == old(out)@ + b@,
{
    let ghost start = out@;
    let mut i: usize = 0;
    while i < b.len()
        invariant
            i <= b@.len(),
            out@ == start + b@.subrange(0, i as int),
        decreases b@.len() - i,
    {
        out.push(b[i]);
        i = i + 1;
        proof {
            assert(b@.subrange(0, i as int) == b@.subrange(0, i - 1) + seq![b@[i - 1]]);
        }
    }
    assert(b@.subrange(0, b@.len() as int) == b@);
}

/// Appends a flag as one byte, 1 for true and 0 for false.
pub fn put_bool(out: &mut Vec<u8>, v: bool)
    ensures
        final(out)@ == old(out)@ + seq![if v { 1u8 } else { 0u8 }],
{
    if v {
        out.push(1u8);
    } else {
        out.push(0u8);
    }
}

} // verus!
