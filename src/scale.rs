//! SCALE encoding of the few values this library stores or hashes.
//!
//! Integers encode as their little-endian bytes, byte arrays as their bytes,
//! and `Option` as a tag byte followed by the encoded value. A tuple or a
//! struct encodes as the concatenation of its fields' encodings; that part is
//! written out in the callers.
use parity_scale_codec::{Decode, Encode};
use vstd::prelude::*;

verus! {

/// The `n` low bytes of `x`, least significant first.
pub open spec fn le_bytes(x: nat, n: nat) -> Seq<u8>
    decreases n,
{
    if n == 0 {
        Seq::empty()
    } else {
        seq![(x % 256) as u8] + le_bytes(x / 256, (n - 1) as nat)
    }
}

/// The number whose little-endian bytes are `b`.
pub open spec fn le_value(b: Seq<u8>) -> nat
    decreases b.len(),
{
    if b.len() == 0 {
        0
    } else {
        b[0] as nat + 256 * le_value(b.subrange(1, b.len() as int))
    }
}

/// The encoding of an optional `u32`: tag 0, or tag 1 and the value.
pub open spec fn option_u32_bytes(x: Option<u32>) -> Seq<u8> {
    match x {
        None => seq![0u8],
        Some(v) => seq![1u8] + le_bytes(v as nat, 4),
    }
}

/// Relies on parity_scale_codec's `Encode` for `[u8; N]`: the bytes, with no length prefix.
#[verifier::external_body]
pub(crate) fn encode_bytes<const N: usize>(a: &[u8; N]) -> (r: Vec<u8>)
    ensures
        r@ == a@,
{
    a.encode()
}

/// Relies on parity_scale_codec's `Encode` for `u64`: its eight little-endian bytes.
#[verifier::external_body]
pub(crate) fn encode_u64(x: u64) -> (r: Vec<u8>)
    ensures
        r@ == le_bytes(x as nat, 8),
{
    x.encode()
}

/// Relies on parity_scale_codec's `Encode` for `Option<u32>`: a tag byte, then the value.
#[verifier::external_body]
pub(crate) fn encode_option_u32(x: Option<u32>) -> (r: Vec<u8>)
    ensures
        r@ == option_u32_bytes(x),
{
    x.encode()
}

/// Relies on parity_scale_codec's `Decode` for `[u8; N]` on a byte slice: the first `N`
/// bytes, or an error when fewer are left.
#[verifier::external_body]
pub(crate) fn decode_bytes<const N: usize>(input: &[u8]) -> (r: Option<[u8; N]>)
    ensures
        input@.len() >= N ==> r is Some && r->0@ == input@.subrange(0, N as int),
        input@.len() < N ==> r is None,
{
    let mut cursor = input;
    <[u8; N]>::decode(&mut cursor).ok()
}

} // verus!
