//! SHA-256 digests and Merkle roots over payload lists.
//!
//! The digest itself comes from the sha2 crate and the tree from rs_merkle;
//! both are named rather than re-implemented, and everything layered on top
//! of them is verified against those names.

use vstd::prelude::*;

use crate::encode::push_str_bytes;
use core::convert::TryInto;
use sha2::Digest;

verus! {

/// The SHA-256 digest of `data`, named; the digest is a pure function of its
/// input, the same in every process and on every machine.
pub uninterp spec fn sha256_of(data: Seq<u8>) -> Seq<u8>;

/// The root of an rs_merkle SHA-256 tree built over `leaves`, named; it is a
/// pure function of the leaf sequence.
pub uninterp spec fn merkle_root_of(leaves: Seq<Seq<u8>>) -> Seq<u8>;

/// Relies on sha2::Sha256 via Digest::digest: a 32-byte digest that depends
/// on the input bytes alone.
#[verifier::external_body]
pub fn sha256(data: &Vec<u8>) -> (r: Vec<u8>)
    ensures
        r@ == sha256_of(data@),
        r@.len() == 32,
{
    sha2::Sha256::digest(data.as_slice()).to_vec()
}

/// Relies on rs_merkle::MerkleTree::<Sha256>::from_leaves and root: for a
/// non-empty committed leaf set the root exists, is 32 bytes, and depends on
/// the leaf sequence alone; a tree of one leaf has that leaf as its root.
#[verifier::external_body]
fn merkle_root_raw(leaves: &Vec<Vec<u8>>) -> (r: Vec<u8>)
    requires
        leaves@.len() >= 1,
        forall|i: int| 0 <= i < leaves@.len() ==> (#[trigger] leaves@[i])@.len() == 32,
    ensures
        r@ == merkle_root_of(leaves@.map_values(|l: Vec<u8>| l@)),
        r@.len() == 32,
        leaves@.len() == 1 ==> r@ == leaves@[0]@,
{
    let arr: Vec<[u8; 32]> = leaves.iter().map(|l| l.as_slice().try_into().unwrap()).collect();
    let tree = rs_merkle::MerkleTree::<rs_merkle::algorithms::Sha256>::from_leaves(&arr);
    tree.root().unwrap().to_vec()
}

/// The Merkle leaf of one payload: the SHA-256 digest of its UTF-8 bytes.
pub open spec fn payload_leaf(payload: Seq<char>) -> Seq<u8> {
    sha256_of(vstd::utf8::encode_utf8(payload))
}

/// The leaves of a payload list, in order.
pub open spec fn payload_leaves(payloads: Seq<Seq<char>>) -> Seq<Seq<u8>> {
    payloads.map_values(|p: Seq<char>| payload_leaf(p))
}

/// The root recorded for an empty payload list: a fixed all-zero sentinel,
/// so that empty blocks validate identically across peers.
pub open spec fn empty_payload_root() -> Seq<u8> {
    Seq::new(32, |i: int| 0u8)
}

/// The Merkle root recorded in a block for its payload list.
pub open spec fn spec_merkle_root(payloads: Seq<Seq<char>>) -> Seq<u8> {
    if payloads.len() == 0 {
        empty_payload_root()
    } else {
        merkle_root_of(payload_leaves(payloads))
    }
}

/// Computes the Merkle root of a payload list: each leaf is the SHA-256
/// digest of one payload's bytes; an empty list yields the fixed sentinel;
/// a single payload yields that payload's digest itself.
pub fn merkle_root(payloads: &Vec<String>) -> (r: Vec<u8>)
    ensures
        r@ == spec_merkle_root(payloads.deep_view()),
        r@.len() == 32,
        payloads@.len() == 1 ==> r@ == payload_leaf(payloads.deep_view()[0]),
{
    if payloads.len() == 0 {
        let r = vec![0u8; 32];
        assert(r@ =~= empty_payload_root());
        r
    } else {
        let n = payloads.len();
        let mut leaves: Vec<Vec<u8>> = Vec::new();
        for i in 0..n
            invariant
                n == payloads@.len(),
                leaves@.len() == i,
                forall|j: int|
                    0 <= j < i ==> (#[trigger] leaves@[j])@ == payload_leaf(
                        payloads.deep_view()[j],
                    ) && leaves@[j]@.len() == 32,
        {
            let mut pb: Vec<u8> = Vec::new();
            push_str_bytes(&mut pb, payloads[i].as_str());
            let leaf = sha256(&pb);
            proof {
                assert(payloads.deep_view()[i as int] == payloads@[i as int]@);
                assert(pb@ =~= vstd::utf8::encode_utf8(payloads.deep_view()[i as int]));
            }
            leaves.push(leaf);
        }
        let r = merkle_root_raw(&leaves);
        proof {
            let pv = payloads.deep_view();
            assert(pv.len() == payloads@.len());
            assert(leaves@.map_values(|l: Vec<u8>| l@) =~= payload_leaves(pv));
            if payloads@.len() == 1 {
                assert(leaves@[0]@ == payload_leaf(pv[0]));
            }
        }
        r
    }
}

} // verus!
