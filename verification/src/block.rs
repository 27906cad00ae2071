//! Blocks and the in-memory chain.
//!
//! A block is modelled by [`BlockData`], the mathematical image of its
//! fields; every contract speaks of that model. The chain keeps the
//! invariants of the ledger: a fixed genesis block first, then a run of
//! blocks each of which links to its predecessor's hash, meets the
//! difficulty prefix, increments the height, and records the Merkle root of
//! its own payload list.

use vstd::prelude::*;

use crate::bytes::{bytes_eq, clone_bytes, has_prefix, starts_with};
use crate::encode::{dec_bytes, push_dec_u128, push_rendered_bytes, push_str_bytes, render_bytes};
use crate::hashing::{merkle_root, payload_leaf, sha256, sha256_of, spec_merkle_root};

verus! {

/// One block of the chain. The payload list rides along; the hash covers
/// the header fields only (height, previous hash, timestamp, Merkle root,
/// nonce), the payloads being bound through the Merkle root.
pub struct Block {
    pub height: usize,
    pub previous_hash: Vec<u8>,
    pub timestamp: String,
    pub merkle_root: Vec<u8>,
    pub nonce: u128,
    pub upinfo: Vec<String>,
}

/// The mathematical image of a block.
#[verifier::ext_equal]
pub ghost struct BlockData {
    pub height: nat,
    pub previous_hash: Seq<u8>,
    pub timestamp: Seq<char>,
    pub merkle_root: Seq<u8>,
    pub nonce: nat,
    pub upinfo: Seq<Seq<char>>,
}

impl View for Block {
    type V = BlockData;

    open spec fn view(&self) -> BlockData {
        BlockData {
            height: self.height as nat,
            previous_hash: self.previous_hash@,
            timestamp: self.timestamp@,
            merkle_root: self.merkle_root@,
            nonce: self.nonce as nat,
            upinfo: self.upinfo.deep_view(),
        }
    }
}

impl Clone for Block {
    /// A clone has the same model.
    fn clone(&self) -> (r: Self)
        ensures
            r@ == self@,
    {
        let r = Block {
            height: self.height,
            previous_hash: clone_bytes(&self.previous_hash),
            timestamp: self.timestamp.clone(),
            merkle_root: clone_bytes(&self.merkle_root),
            nonce: self.nonce,
            upinfo: clone_strings(&self.upinfo),
        };
        proof {
            assert(r@ =~~= self@);
        }
        r
    }
}

/// An element-for-element copy of a payload list.
pub(crate) fn clone_strings(v: &Vec<String>) -> (r: Vec<String>)
    ensures
        r@ =~= v@,
{
    let n = v.len();
    let mut r: Vec<String> = Vec::new();
    for i in 0..n
        invariant
            n == v@.len(),
            r@ =~= v@.take(i as int),
    {
        r.push(v[i].clone());
        assert(r@ =~= v@.take(i + 1));
    }
    assert(r@ =~= v@);
    r
}

/// The models of a run of blocks, in order.
pub open spec fn block_models(s: Seq<Block>) -> Seq<BlockData> {
    s.map_values(|b: Block| b@)
}

/// The canonical bytes of a block header without the nonce.
pub open spec fn header_input(b: BlockData) -> Seq<u8> {
    dec_bytes(b.height) + render_bytes(b.previous_hash) + vstd::utf8::encode_utf8(b.timestamp)
        + render_bytes(b.merkle_root)
}

/// The canonical bytes that the block hash digests.
pub open spec fn hash_input(b: BlockData) -> Seq<u8> {
    header_input(b) + dec_bytes(b.nonce)
}

/// The SHA-256 block hash over the canonical header bytes.
pub open spec fn spec_block_hash(b: BlockData) -> Seq<u8> {
    sha256_of(hash_input(b))
}

/// Renders the canonical header bytes of `block`, without the nonce.
pub fn header_bytes(block: &Block) -> (r: Vec<u8>)
    ensures
        r@ == header_input(block@),
{
    let mut out: Vec<u8> = Vec::new();
    push_dec_u128(&mut out, block.height as u128);
    push_rendered_bytes(&mut out, &block.previous_hash);
    push_str_bytes(&mut out, block.timestamp.as_str());
    push_rendered_bytes(&mut out, &block.merkle_root);
    proof {
        assert(out@ =~= header_input(block@));
    }
    out
}

/// The seed payload of the genesis block.
pub open spec fn genesis_seed() -> Seq<char> {
    "This is RunChain's first block"@
}

/// The fixed timestamp recorded in the genesis block; it must be identical
/// across all peers or their genesis hashes diverge and the network
/// partitions.
pub open spec fn genesis_timestamp() -> Seq<char> {
    "1970-01-01 00:00:00 UTC"@
}

/// The fixed 32-byte sentinel standing where the genesis block's
/// predecessor hash would be.
pub open spec fn genesis_prev_hash() -> Seq<u8> {
    seq![
        202u8, 151u8, 129u8, 18u8, 202u8, 27u8, 189u8, 202u8, 250u8, 194u8, 49u8, 179u8, 154u8,
        35u8, 220u8, 77u8, 167u8, 134u8, 239u8, 248u8, 20u8, 124u8, 78u8, 114u8, 185u8, 128u8,
        119u8, 133u8, 175u8, 238u8, 72u8, 187u8,
    ]
}

/// The genesis block every node constructs at start-up: height 0, the fixed
/// predecessor sentinel, the fixed timestamp, the seed payload and its
/// Merkle root (the digest of the seed itself), nonce 0.
pub open spec fn genesis_data() -> BlockData {
    BlockData {
        height: 0,
        previous_hash: genesis_prev_hash(),
        timestamp: genesis_timestamp(),
        merkle_root: payload_leaf(genesis_seed()),
        nonce: 0,
        upinfo: seq![genesis_seed()],
    }
}

/// Whether `b` may follow `prev` on a chain mining under `difficulty`:
/// it links to `prev`'s hash, its own hash meets the difficulty prefix, its
/// height is the successor, and its Merkle root matches its payload list.
pub open spec fn valid_link(prev: BlockData, b: BlockData, difficulty: Seq<u8>) -> bool {
    &&& b.previous_hash == spec_block_hash(prev)
    &&& has_prefix(spec_block_hash(b), difficulty)
    &&& b.height == prev.height + 1
    &&& b.merkle_root == spec_merkle_root(b.upinfo)
}

/// The chain invariants: the genesis block first, then validly linked
/// blocks throughout.
pub open spec fn wf_blocks(s: Seq<BlockData>, difficulty: Seq<u8>) -> bool {
    &&& s.len() >= 1
    &&& s[0] == genesis_data()
    &&& forall|i: int| 1 <= i < s.len() ==> valid_link(s[i - 1], #[trigger] s[i], difficulty)
}

/// On a well-formed chain every block's height equals its position.
pub proof fn lemma_wf_heights(s: Seq<BlockData>, difficulty: Seq<u8>)
    requires
        wf_blocks(s, difficulty),
    ensures
        forall|i: int| 0 <= i < s.len() ==> (#[trigger] s[i]).height == i,
{
    assert forall|i: int| 0 <= i < s.len() implies (#[trigger] s[i]).height == i by {
        lemma_wf_height_at(s, difficulty, i);
    }
}

proof fn lemma_wf_height_at(s: Seq<BlockData>, difficulty: Seq<u8>, i: int)
    requires
        wf_blocks(s, difficulty),
        0 <= i < s.len(),
    ensures
        s[i].height == i,
    decreases i,
{
    if i > 0 {
        lemma_wf_height_at(s, difficulty, i - 1);
    }
}

/// The in-memory chain: a non-empty run of blocks starting at genesis,
/// together with the difficulty prefix it mines under.
pub struct Chain {
    blocks: Vec<Block>,
    difficulty: Vec<u8>,
}

impl Chain {
    /// The mathematical image of the chain: its blocks' models in order.
    pub closed spec fn model(self) -> Seq<BlockData> {
        block_models(self.blocks@)
    }

    /// The difficulty prefix this chain validates against.
    pub closed spec fn spec_difficulty(self) -> Seq<u8> {
        self.difficulty@
    }

    /// The chain invariants, as a whole.
    pub open spec fn wf(self) -> bool {
        wf_blocks(self.model(), self.spec_difficulty())
    }

    /// Constructs a chain holding only the genesis block, mining under the
    /// network's fixed difficulty prefix.
    pub fn new() -> (c: Chain)
        ensures
            c.wf(),
            c.model().len() == 1,
            c.spec_difficulty() == crate::protocol::spec_difficulty_prefix(),
    {
        Chain::with_difficulty(crate::protocol::difficulty_prefix())
    }

    /// Constructs a chain holding only the genesis block, mining under the
    /// given difficulty prefix.
    pub fn with_difficulty(difficulty: Vec<u8>) -> (c: Chain)
        ensures
            c.wf(),
            c.model().len() == 1,
            c.model()[0] == genesis_data(),
            c.spec_difficulty() == difficulty@,
    {
        let seed: String = "This is RunChain's first block".to_owned();
        let mut upinfo: Vec<String> = Vec::new();
        upinfo.push(seed);
        proof {
            assert(upinfo.deep_view() =~= seq![genesis_seed()]);
        }
        let merkle_root = merkle_root(&upinfo);
        let genesis_block = Block {
            height: 0,
            previous_hash: genesis_prev_vec(),
            timestamp: "1970-01-01 00:00:00 UTC".to_owned(),
            merkle_root,
            nonce: 0,
            upinfo,
        };
        proof {
            assert(genesis_block@ =~~= genesis_data());
        }
        let mut blocks: Vec<Block> = Vec::new();
        blocks.push(genesis_block);
        let c = Chain { blocks, difficulty };
        proof {
            assert(c.model() =~= seq![genesis_data()]);
        }
        c
    }

    /// The difficulty prefix this chain mines under, as bytes.
    pub fn difficulty(&self) -> (r: &Vec<u8>)
        ensures
            r@ == self.spec_difficulty(),
    {
        &self.difficulty
    }

    /// The number of blocks held, genesis included; one more than the tip's
    /// height on a well-formed chain.
    pub fn block_height(&self) -> (r: usize)
        ensures
            r == self.model().len(),
    {
        self.blocks.len()
    }

    /// A reference to the newest block.
    pub fn last_block(&self) -> (r: &Block)
        requires
            self.model().len() >= 1,
        ensures
            r@ == self.model().last(),
    {
        let i = self.blocks.len() - 1;
        &self.blocks[i]
    }

    /// The hash of the genesis block; on a well-formed chain this is the
    /// same fixed value on every node.
    pub fn genesis_hash(&self) -> (r: Vec<u8>)
        requires
            self.model().len() >= 1,
        ensures
            r@ == spec_block_hash(self.model()[0]),
            r@.len() == 32,
            self.wf() ==> r@ == spec_block_hash(genesis_data()),
    {
        let genesis_block = &self.blocks[0];
        self.calculate_hash(genesis_block)
    }

    /// The SHA-256 hash of `block`'s canonical header bytes.
    pub fn calculate_hash(&self, block: &Block) -> (r: Vec<u8>)
        ensures
            r@ == spec_block_hash(block@),
            r@.len() == 32,
    {
        let mut input = header_bytes(block);
        push_dec_u128(&mut input, block.nonce);
        proof {
            assert(input@ =~= hash_input(block@));
        }
        sha256(&input)
    }

    /// Whether `block` may be appended: it must link to the current tip,
    /// meet the difficulty prefix, carry the successor height, and record
    /// the Merkle root of its own payload list.
    pub fn is_block_vaild(&self, block: &Block) -> (r: bool)
        requires
            self.model().len() >= 1,
        ensures
            r == valid_link(self.model().last(), block@, self.spec_difficulty()),
    {
        let previous_block = self.last_block();
        let previous_block_hash = self.calculate_hash(previous_block);
        if !bytes_eq(&block.previous_hash, &previous_block_hash) {
            return false;
        }
        let h = self.calculate_hash(block);
        if !starts_with(&h, &self.difficulty) {
            return false;
        }
        if previous_block.height == usize::MAX || block.height != previous_block.height + 1 {
            return false;
        }
        let expected_root = merkle_root(&block.upinfo);
        if !bytes_eq(&block.merkle_root, &expected_root) {
            return false;
        }
        true
    }

    /// Appends `block` iff it is valid on the current tip; on rejection the
    /// chain is unchanged. Appending is the chain's only mutation, so the
    /// invariants hold after any run of calls.
    pub fn try_add_a_block(&mut self, block: Block) -> (r: Result<(), &'static str>)
        requires
            old(self).model().len() >= 1,
        ensures
            final(self).spec_difficulty() == old(self).spec_difficulty(),
            r is Ok ==> valid_link(
                old(self).model().last(),
                block@,
                old(self).spec_difficulty(),
            ) && final(self).model() == old(self).model().push(block@),
            r is Err ==> !valid_link(old(self).model().last(), block@, old(self).spec_difficulty())
                && *final(self) == *old(self),
            old(self).wf() ==> final(self).wf(),
    {
        if self.is_block_vaild(&block) {
            let ghost pre = self.model();
            let ghost b = block@;
            self.blocks.push(block);
            proof {
                assert(self.model() =~= pre.push(b));
                if wf_blocks(pre, self.spec_difficulty()) {
                    let post = self.model();
                    assert forall|i: int|
                        1 <= i < post.len() implies valid_link(
                        post[i - 1],
                        #[trigger] post[i],
                        self.spec_difficulty(),
                    ) by {
                        if i < pre.len() {
                            assert(valid_link(pre[i - 1], pre[i], self.spec_difficulty()));
                        } else {
                            assert(post[i] == b);
                            assert(post[i - 1] == pre.last());
                        }
                    }
                }
            }
            return Ok(());
        }
        Err("add a block error because it is not a vaild block")
    }

    /// Copies of the final `n` blocks, oldest first.
    pub fn last_n_blocks(&self, n: usize) -> (r: Vec<Block>)
        requires
            n <= self.model().len(),
        ensures
            block_models(r@) == self.model().skip(self.model().len() - n as int),
    {
        let len = self.blocks.len();
        let start = len - n;
        let mut r: Vec<Block> = Vec::new();
        for i in start..len
            invariant
                start == len - n,
                n <= len == self.blocks@.len(),
                r@.len() == i - start,
                forall|k: int|
                    0 <= k < r@.len() ==> (#[trigger] r@[k])@ == self.model()[start + k],
        {
            let b = self.blocks[i].clone();
            proof {
                assert(b@ == self.model()[i as int]);
            }
            r.push(b);
        }
        proof {
            let ghost target = self.model().skip(self.model().len() - n as int);
            assert forall|k: int| 0 <= k < r@.len() implies block_models(r@)[k] == target[k] by {
                assert(r@[k]@ == self.model()[start + k]);
            }
            assert(block_models(r@) =~= target);
        }
        r
    }
}

fn genesis_prev_vec() -> (r: Vec<u8>)
    ensures
        r@ == genesis_prev_hash(),
{
    let a: [u8; 32] = [
        202, 151, 129, 18, 202, 27, 189, 202, 250, 194, 49, 179, 154, 35, 220, 77, 167, 134, 239,
        248, 20, 124, 78, 114, 185, 128, 119, 133, 175, 238, 72, 187,
    ];
    let r = vstd::slice::slice_to_vec(a.as_slice());
    proof {
        assert(r@ =~= genesis_prev_hash());
    }
    r
}

/// The chain invariants spelled out: genesis first; each height equal to
/// its position; each block linked to its predecessor's hash; each hash
/// meeting the difficulty prefix; each Merkle root matching its payload
/// list. Appends being the only mutation, these hold for any run of
/// `try_add_a_block` calls.
pub proof fn lemma_chain_invariants(c: Chain)
    requires
        c.wf(),
    ensures
        c.model().len() >= 1,
        c.model()[0] == genesis_data(),
        forall|i: int| 0 <= i < c.model().len() ==> (#[trigger] c.model()[i]).height == i,
        forall|i: int|
            1 <= i < c.model().len() ==> (#[trigger] c.model()[i]).previous_hash
                == spec_block_hash(c.model()[i - 1]),
        forall|i: int|
            1 <= i < c.model().len() ==> has_prefix(
                spec_block_hash(#[trigger] c.model()[i]),
                c.spec_difficulty(),
            ),
        forall|i: int|
            1 <= i < c.model().len() ==> (#[trigger] c.model()[i]).merkle_root
                == spec_merkle_root(c.model()[i].upinfo),
{
    lemma_wf_heights(c.model(), c.spec_difficulty());
}

/// The block hash reads exactly the header fields: two blocks that agree on
/// height, previous hash, timestamp, Merkle root and nonce hash alike,
/// whatever their payload lists.
pub proof fn lemma_block_hash_header_only(b1: BlockData, b2: BlockData)
    requires
        b1.height == b2.height,
        b1.previous_hash == b2.previous_hash,
        b1.timestamp == b2.timestamp,
        b1.merkle_root == b2.merkle_root,
        b1.nonce == b2.nonce,
    ensures
        spec_block_hash(b1) == spec_block_hash(b2),
{
    assert(hash_input(b1) == hash_input(b2));
}

} // verus!
