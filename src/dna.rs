//! Gene data: the seed drawn for each new kitty and the combination of two
//! parents' genes under that seed.
use crate::currency::AccountId;
use crate::scale::{encode_bytes, encode_option_u32, encode_u64, le_bytes, option_u32_bytes};
use vstd::prelude::*;

verus! {

/// Gene data of a kitty.
pub type Dna = [u8; 16];

/// What the host supplies for drawing a seed: the output of its randomness
/// source with the block it belongs to, and the index of the current
/// extrinsic in the block, if any.
#[derive(Clone, Copy, Debug, PartialEq, Eq)]
pub struct SeedSource {
    pub random_seed: [u8; 32],
    pub block_number: u64,
    pub extrinsic_index: Option<u32>,
}

/// The 128-bit Blake2 digest of `data`.
pub uninterp spec fn blake2_128_of(data: Seq<u8>) -> Seq<u8>;

/// Relies on sp_io::hashing::blake2_128: the 128-bit Blake2b digest of the bytes, which
/// depends on the bytes alone.
#[verifier::external_body]
fn blake2_128(data: &Vec<u8>) -> (r: [u8; 16])
    ensures
        r@ == blake2_128_of(data@),
{
    sp_io::hashing::blake2_128(data)
}

/// The bytes hashed into a seed: the encoding of
/// `((random_seed, block_number), who, extrinsic_index)`.
pub open spec fn seed_payload(source: SeedSource, who: AccountId) -> Seq<u8> {
    source.random_seed@ + le_bytes(source.block_number as nat, 8) + le_bytes(who as nat, 8)
        + option_u32_bytes(source.extrinsic_index)
}

/// The seed drawn for `who`.
pub open spec fn seed_of(source: SeedSource, who: AccountId) -> Seq<u8> {
    blake2_128_of(seed_payload(source, who))
}

/// Draws the 16-byte seed for a call made by `who`: the digest of the
/// randomness output, the caller and the extrinsic index.
pub fn random_value(source: &SeedSource, who: AccountId) -> (r: Dna)
    ensures
        r@ == seed_of(*source, who),
{
    let mut payload = encode_bytes(&source.random_seed);
    let mut block = encode_u64(source.block_number);
    let mut sender = encode_u64(who);
    let mut index = encode_option_u32(source.extrinsic_index);
    payload.append(&mut block);
    payload.append(&mut sender);
    payload.append(&mut index);
    blake2_128(&payload)
}

/// One byte of a child's genes: the bits of the seed byte that either parent carries.
pub open spec fn combine_byte(a: u8, b: u8, s: u8) -> u8 {
    (a & s) | (b & s)
}

/// The child's genes from two parents' genes and a seed, byte by byte.
pub open spec fn combined(a: Seq<u8>, b: Seq<u8>, s: Seq<u8>) -> Seq<u8> {
    Seq::new(16, |i: int| combine_byte(a[i], b[i], s[i]))
}

/// Derives a child's genes from the genes of its two parents under `seed`.
pub fn combine_dna(a: &Dna, b: &Dna, seed: &Dna) -> (r: Dna)
    ensures
        r@ == combined(a@, b@, seed@),
{
    let mut data: Dna = [0u8; 16];
    let mut i: usize = 0;
    while i < 16
        invariant
            0 <= i <= 16,
            data@.len() == 16,
            forall|j: int| 0 <= j < i ==> data@[j] == combine_byte(a@[j], b@[j], seed@[j]),
        decreases 16 - i,
    {
        data[i] = (a[i] & seed[i]) | (b[i] & seed[i]);
        i = i + 1;
    }
    assert(data@ =~= combined(a@, b@, seed@));
    data
}

/// The combination of one byte is the seed masking the union of the parents' bits.
pub proof fn lemma_combine_byte(a: u8, b: u8, s: u8)
    ensures
        combine_byte(a, b, s) == s & (a | b),
        combine_byte(a, b, s) == combine_byte(b, a, s),
{
    assert((a & s) | (b & s) == s & (a | b)) by (bit_vector);
    assert((a & s) | (b & s) == (b & s) | (a & s)) by (bit_vector);
}

/// Swapping the two parents gives the same child: for all genes `a`, `b` and
/// every seed `s`, combining `a` with `b` equals combining `b` with `a`.
pub proof fn lemma_combine_symmetric(a: Seq<u8>, b: Seq<u8>, s: Seq<u8>)
    ensures
        combined(a, b, s) == combined(b, a, s),
{
    assert forall|i: int| 0 <= i < 16 implies #[trigger] combined(a, b, s)[i] == combined(
        b,
        a,
        s,
    )[i] by {
        lemma_combine_byte(a[i], b[i], s[i]);
    }
    assert(combined(a, b, s) =~= combined(b, a, s));
}

} // verus!
