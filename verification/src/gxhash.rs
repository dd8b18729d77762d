//! The hash itself: a message is compressed into one register, the register
//! is whitened by three AES rounds, and the digest is cut from the result.

pub mod aes;
pub mod common;

pub use self::aes::{get_partial, get_partial_safe, get_partial_unsafe};
pub use self::common::load_unaligned;

use vstd::prelude::*;
use self::aes::empty::lemma_zero_register_whitened;
use self::aes::round::aes_round_last;
use self::aes::{aes_encrypt_last, compress_all, compress_all_lanes, finalize_lanes};
use self::common::{zero_lanes, State};

verus! {

/// The 32-bit integer whose little-endian bytes are the first four lanes.
pub open spec fn low_u32(lanes: Seq<u8>) -> u32 {
    (lanes[0] as u32) | (lanes[1] as u32) << 8 | (lanes[2] as u32) << 16 | (lanes[3] as u32) << 24
}

/// The digest of a message: its compressed state, whitened, cut to 32 bits.
/// It is a function of the message's bytes and of nothing else.
pub open spec fn digest(input: Seq<u8>) -> u32 {
    low_u32(finalize_lanes(compress_all_lanes(input)))
}

/// The register to start from: all zero.
pub fn create_empty() -> (state: State)
    ensures
        state@ == zero_lanes(),
{
    State::new()
}

/// Folds the block `b` into the accumulator `a` by one last AES round of `a`
/// keyed with `b`.
pub fn compress(a: State, b: State) -> (state: State)
    ensures
        state@ == aes_round_last(a@, b@),
{
    aes_encrypt_last(a, b)
}

/// Whitens a compressed state by the three closing AES rounds and cuts the
/// result to the digest's width.
pub fn finalize(hash: State) -> (out: u32)
    ensures
        out == low_u32(finalize_lanes(hash@)),
{
    let hash = self::aes::finalize(hash);
    let b = &hash.bytes.0;
    (b[0] as u32) | (b[1] as u32) << 8 | (b[2] as u32) << 16 | (b[3] as u32) << 24
}

/// Hashes a message of any length, the empty one included.
pub fn gxhash(input: &[u8]) -> (out: u32)
    ensures
        out == digest(input@),
{
    finalize(compress_all(input))
}

/// Messages with the same bytes have the same digest, wherever they lie in
/// memory and whenever they are hashed.
pub proof fn lemma_digest_deterministic(a: Seq<u8>, b: Seq<u8>)
    requires
        a =~= b,
    ensures
        digest(a) == digest(b),
{
}

/// The empty message has a digest of its own, and it is not zero.
pub proof fn lemma_empty_digest()
    ensures
        digest(Seq::<u8>::empty()) == 0x0b409934u32,
{
    lemma_zero_register_whitened();
}

} // verus!
