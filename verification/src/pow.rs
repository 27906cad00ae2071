//! The proof-of-work engine: a parallel nonce search with cooperative
//! cancellation.
//!
//! The search fans out over rayon worker threads; each candidate nonce
//! first polls the shared cancel flag, then hashes the header bytes with
//! the decimal nonce appended. Whatever nonce the scheduler surfaces, the
//! result is re-checked here, so a `true` outcome certifies the nonce.

use core::sync::atomic::{AtomicBool, Ordering};
use rayon::iter::{IntoParallelIterator, ParallelIterator};
use vstd::prelude::*;

use crate::block::{header_bytes, header_input, Block};
use crate::bytes::{clone_bytes, has_prefix, starts_with};
use crate::encode::{dec_bytes, push_dec_u128};
use crate::hashing::{sha256, sha256_of};

verus! {

/// Whether nonce `n` solves the puzzle for the header bytes `header` under
/// `difficulty`.
pub open spec fn solves(header: Seq<u8>, difficulty: Seq<u8>, n: nat) -> bool {
    has_prefix(sha256_of(header + dec_bytes(n)), difficulty)
}

/// SHA-256 of the header bytes followed by the decimal nonce.
pub fn hash_add_n(s: &Vec<u8>, nonce: u128) -> (r: Vec<u8>)
    ensures
        r@ == sha256_of(s@ + dec_bytes(nonce as nat)),
        r@.len() == 32,
{
    let mut input = clone_bytes(s);
    push_dec_u128(&mut input, nonce);
    sha256(&input)
}

/// The per-nonce test the search runs: give up once the cancel flag reads
/// `false`, stop when the nonce solves the puzzle. A solving nonce stops
/// the search whatever the flag read.
fn pow_poll(
    header: &Vec<u8>,
    difficulty: &Vec<u8>,
    cancel_flag: &AtomicBool,
    nonce: u128,
) -> (stop: bool)
    ensures
        solves(header@, difficulty@, nonce as nat) ==> stop,
{
    if !cancel_flag.load(Ordering::Relaxed) {
        return true;
    }
    let h = hash_add_n(header, nonce);
    starts_with(&h, difficulty)
}

/// Relies on rayon's into_par_iter().find_any over the nonce space: it
/// yields some nonce at which `pow_poll` returned true, or nothing. Which
/// nonce surfaces depends on scheduling and on the cancel flag, so nothing
/// is promised of the result; the caller re-checks it.
#[verifier::external_body]
fn par_find_nonce(header: &Vec<u8>, difficulty: &Vec<u8>, cancel_flag: &AtomicBool) -> Option<u128> {
    (0..u128::MAX).into_par_iter().find_any(|n| pow_poll(header, difficulty, cancel_flag, *n))
}

/// Searches the nonce space for `block`'s header under `difficulty`,
/// stopping early when `cancel_flag` is cleared. A `true` second component
/// certifies the nonce: the header hashed with it meets the difficulty
/// prefix. On `false` the search was cancelled and the nonce carries no
/// meaning.
pub fn pow_search(block: &Block, difficulty: &Vec<u8>, cancel_flag: &AtomicBool) -> (r: (u128, bool))
    ensures
        r.1 ==> solves(header_input(block@), difficulty@, r.0 as nat),
{
    let header = header_bytes(block);
    match par_find_nonce(&header, difficulty, cancel_flag) {
        None => (0, false),
        Some(n) => {
            let h = hash_add_n(&header, n);
            let solved = cancel_flag.load(Ordering::Relaxed) && starts_with(&h, difficulty);
            (n, solved)
        },
    }
}

/// Searches under the network's fixed difficulty prefix.
pub fn pow_v2(block: Block, atomicbool: &AtomicBool) -> (r: (u128, bool))
    ensures
        r.1 ==> solves(
            header_input(block@),
            crate::protocol::spec_difficulty_prefix(),
            r.0 as nat,
        ),
{
    let difficulty = crate::protocol::difficulty_prefix();
    pow_search(&block, &difficulty, atomicbool)
}

} // verus!
