//! A fast hasher for addresses: eight bytes of the address, taken at an
//! offset, are the hash.

use vstd::prelude::*;
use rand::Rng;
use crate::address::ADDRESS_BYTES;

verus! {

/// The largest offset at which eight bytes still lie within an address.
pub const MAX_OFFSET: usize = 24;

/// The number that the bytes spell with the lowest byte first.
pub open spec fn le_value(bytes: Seq<u8>) -> nat
    decreases bytes.len(),
{
    if bytes.len() == 0 {
        0
    } else {
        bytes[0] as nat + 256 * le_value(bytes.drop_first())
    }
}

/// The number that the bytes spell with the highest byte first.
pub open spec fn be_value(bytes: Seq<u8>) -> nat {
    le_value(bytes.reverse())
}

/// Whether `value` is what the eight bytes spell in one of the two byte
/// orders that a machine can have.
pub open spec fn is_native_value(bytes: Seq<u8>, value: u64) -> bool {
    value == le_value(bytes) || value == be_value(bytes)
}

/// Calls `u64::from_ne_bytes` of std: the result is the number that the
/// eight bytes spell in the byte order of the machine, which is one of the
/// two orders.
#[verifier::external_body]
fn u64_from_ne_bytes(bytes: [u8; 8]) -> (value: u64)
    ensures
        is_native_value(bytes@, value),
{
    u64::from_ne_bytes(bytes)
}

/// Calls `gen_range` of rand on the generator of the thread, with the range
/// of the offsets below `MAX_OFFSET`: the result lies in that range, and
/// nothing more is known of it.
#[verifier::external_body]
fn draw_offset() -> (offset: usize)
    ensures
        offset < MAX_OFFSET,
{
    rand::thread_rng().gen_range(0..MAX_OFFSET)
}

/// The offset that follows `offset`: one more, and zero after the largest.
pub open spec fn next_offset(offset: usize) -> usize {
    if offset < MAX_OFFSET {
        (offset + 1) as usize
    } else {
        0
    }
}

/// A hasher whose hash is made of eight bytes of the address that was
/// written last.
pub struct PubkeyHasher {
    offset: usize,
    state: u64,
}

impl PubkeyHasher {
    /// The offset at which the hasher takes its eight bytes.
    pub closed spec fn offset(self) -> usize {
        self.offset
    }

    /// The hash as it stands.
    pub closed spec fn state(self) -> u64 {
        self.state
    }

    /// The eight bytes fit into an address.
    #[verifier::type_invariant]
    spec fn inv(self) -> bool {
        self.offset <= MAX_OFFSET
    }

    /// The hash as it stands.
    pub fn finish(&self) -> (hash: u64)
        ensures
            hash == self.state(),
    {
        self.state
    }

    /// Takes the hash from the address `bytes`: the eight bytes at the
    /// hasher's offset, as a number in the machine's byte order.
    pub fn write(&mut self, bytes: &[u8])
        requires
            bytes@.len() == ADDRESS_BYTES,
        ensures
            final(self).offset() == old(self).offset(),
            old(self).offset() <= MAX_OFFSET,
            is_native_value(
                bytes@.subrange(old(self).offset() as int, old(self).offset() + 8),
                final(self).state(),
            ),
    {
        proof {
            use_type_invariant(&*self);
        }
        let o = self.offset;
        let chunk: [u8; 8] = [
            bytes[o],
            bytes[o + 1],
            bytes[o + 2],
            bytes[o + 3],
            bytes[o + 4],
            bytes[o + 5],
            bytes[o + 6],
            bytes[o + 7],
        ];
        assert(chunk@ =~= bytes@.subrange(o as int, o + 8));
        self.state = u64_from_ne_bytes(chunk);
    }
}

impl Default for PubkeyHasher {
    /// The hasher that takes the first eight bytes and has hashed nothing.
    fn default() -> (hasher: PubkeyHasher)
        ensures
            hasher.offset() == 0,
            hasher.state() == 0,
    {
        PubkeyHasher { offset: 0, state: 0 }
    }
}

/// A maker of hashers that all take their eight bytes at one offset.
#[derive(Clone, Copy)]
pub struct PubkeyHasherBuilder {
    offset: usize,
}

impl PubkeyHasherBuilder {
    /// The offset that the builder gives to its hashers.
    pub closed spec fn offset(self) -> usize {
        self.offset
    }

    /// The eight bytes fit into an address.
    #[verifier::type_invariant]
    spec fn inv(self) -> bool {
        self.offset <= MAX_OFFSET
    }

    /// The offset that follows `offset`.
    pub fn following_offset(offset: usize) -> (next: usize)
        ensures
            next == next_offset(offset),
            next <= MAX_OFFSET,
    {
        if offset < MAX_OFFSET {
            offset + 1
        } else {
            0
        }
    }

    /// A builder whose offset follows one that is drawn at random.
    pub fn random() -> (builder: PubkeyHasherBuilder)
        ensures
            1 <= builder.offset() <= MAX_OFFSET,
    {
        PubkeyHasherBuilder { offset: PubkeyHasherBuilder::following_offset(draw_offset()) }
    }

    /// The builder whose offset follows that of this one, so that the two
    /// take different bytes.
    pub fn next(&self) -> (builder: PubkeyHasherBuilder)
        ensures
            builder.offset() == next_offset(self.offset()),
            builder.offset() <= MAX_OFFSET,
            builder.offset() != self.offset(),
    {
        PubkeyHasherBuilder { offset: PubkeyHasherBuilder::following_offset(self.offset) }
    }

    /// A hasher that takes its bytes at the builder's offset and has hashed
    /// nothing.
    pub fn build_hasher(&self) -> (hasher: PubkeyHasher)
        ensures
            hasher.offset() == self.offset(),
            hasher.state() == 0,
    {
        proof {
            use_type_invariant(self);
        }
        PubkeyHasher { offset: self.offset, state: 0 }
    }
}

} // verus!
