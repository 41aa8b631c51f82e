//! Addresses that are derived from seeds and from the address of a program.

use vstd::prelude::*;
use crate::address::{Address, MAX_SEEDS};

verus! {

/// The bytes that close the text from which a program's address is derived.
pub const PDA_MARKER: [u8; 21] = [
    80, 114, 111, 103, 114, 97, 109, 68, 101, 114, 105, 118, 101, 100, 65, 100, 100, 114, 101, 115,
    115,
];

/// The SHA-256 digest of a message: what `Sha256` of sha2_const_stable
/// gives for it.
pub uninterp spec fn sha256_digest(message: Seq<u8>) -> Seq<u8>;

/// Calls `Sha256::new`, `update` and `finalize` of sha2_const_stable on the
/// message: the result is the SHA-256 digest of the message, which depends
/// on the bytes of the message alone.
#[verifier::external_body]
fn sha256(message: &[u8]) -> (digest: [u8; 32])
    ensures
        digest@ == sha256_digest(message@),
{
    sha2_const_stable::Sha256::new().update(message).finalize()
}

/// The seeds one after the other.
pub open spec fn concat(seeds: Seq<Seq<u8>>) -> Seq<u8>
    decreases seeds.len(),
{
    if seeds.len() == 0 {
        Seq::empty()
    } else {
        concat(seeds.drop_last()) + seeds.last()
    }
}

/// The text whose digest is the derived address: the seeds, the bump if
/// there is one, the address of the program, and the closing bytes.
pub open spec fn derive_message(seeds: Seq<Seq<u8>>, bump: Option<u8>, program_id: Seq<u8>) -> Seq<
    u8,
> {
    concat(seeds) + (match bump {
        Some(b) => seq![b],
        None => Seq::empty(),
    }) + program_id + PDA_MARKER@
}

/// The seeds, each as its bytes.
pub open spec fn seed_bytes(seeds: Seq<&[u8]>) -> Seq<Seq<u8>> {
    Seq::new(seeds.len(), |i: int| seeds[i]@)
}

/// Puts `bytes` at the end of `message`.
fn append(message: &mut Vec<u8>, bytes: &[u8])
    ensures
        final(message)@ == old(message)@ + bytes@,
{
    let mut i: usize = 0;
    while i < bytes.len()
        invariant
            i <= bytes@.len(),
            message@ == old(message)@ + bytes@.subrange(0, i as int),
        decreases bytes@.len() - i,
    {
        message.push(bytes[i]);
        i += 1;
        assert(bytes@.subrange(0, i as int) == bytes@.subrange(0, i - 1).push(bytes@[i - 1]));
    }
    assert(bytes@.subrange(0, i as int) == bytes@);
}

/// The address that `digest` spells, for a digest that was computed from
/// the right text.
pub fn address_of_digest(digest: [u8; 32]) -> (address: Address)
    ensures
        address@ == digest@,
{
    Address::new_from_array(digest)
}

/// Derives the address of a program from the seeds, the bump if there is
/// one, and the address of the program: the SHA-256 digest of all of them
/// and of the closing bytes, in that order.
///
/// Nothing is checked of the address: it need not lie off the curve.
pub fn derive_address_const<const N: usize>(
    seeds: &[&[u8]; N],
    bump: Option<u8>,
    program_id: &Address,
) -> (address: Address)
    requires
        N < MAX_SEEDS,
    ensures
        address@ == sha256_digest(derive_message(seed_bytes(seeds@), bump, program_id@)),
{
    let mut message: Vec<u8> = Vec::new();
    let mut i: usize = 0;
    while i < N
        invariant
            i <= N,
            seeds@.len() == N,
            message@ == concat(seed_bytes(seeds@).subrange(0, i as int)),
        decreases N - i,
    {
        append(&mut message, seeds[i]);
        i += 1;
        proof {
            let all = seed_bytes(seeds@);
            assert(all.subrange(0, i as int).drop_last() == all.subrange(0, i - 1));
            assert(all.subrange(0, i as int).last() == seeds@[i - 1]@);
        }
    }
    assert(seed_bytes(seeds@).subrange(0, N as int) == seed_bytes(seeds@));
    if let Some(b) = bump {
        message.push(b);
        assert(message@ == concat(seed_bytes(seeds@)) + seq![b]);
    } else {
        assert(message@ == concat(seed_bytes(seeds@)) + Seq::<u8>::empty());
    }
    append(&mut message, program_id.as_array().as_slice());
    append(&mut message, PDA_MARKER.as_slice());
    address_of_digest(sha256(message.as_slice()))
}

/// Derives the address of a program from the seeds, the bump if there is
/// one, and the address of the program. See `derive_address_const`.
pub fn derive_address<const N: usize>(
    seeds: &[&[u8]; N],
    bump: Option<u8>,
    program_id: &Address,
) -> (address: Address)
    requires
        N < MAX_SEEDS,
    ensures
        address@ == sha256_digest(derive_message(seed_bytes(seeds@), bump, program_id@)),
{
    derive_address_const(seeds, bump, program_id)
}

} // verus!
