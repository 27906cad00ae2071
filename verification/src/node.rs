//! The node's decision logic: what the network adapter, the miner loop and
//! the control loop decide, separated from the queues, clocks and sockets
//! that drive them.
//!
//! The surrounding runtime drains queues and performs I/O; every choice of
//! consequence — routing a frame, keeping a payload, building and
//! appending a candidate, answering an advertisement or a block request,
//! absorbing a sync response — is made here under contract.

use core::sync::atomic::AtomicBool;
use vstd::prelude::*;

use crate::block::{
    block_models, clone_strings, lemma_wf_heights, spec_block_hash, valid_link, wf_blocks, Block,
    BlockData, Chain, genesis_data,
};
use crate::bytes::bytes_eq;
use crate::cryptography::{spec_verify, verify};
use crate::hashing::spec_merkle_root;
use crate::pow::pow_search;
use crate::protocol::{
    payload_models, spec_topic, topic_string, ChainInfo, EventMod, MessageEvent, NewUPINFO,
    PayloadData, RequestNewBlocks, ResponseBlock,
};

verus! {

/// The queue a decoded gossip frame is routed to: chain advertisements and
/// block requests feed the control loop, sync responses feed the waiting
/// sync, wallet submissions feed the miner.
pub enum QueueTag {
    Control,
    BlockResponse,
    Payload,
}

/// Where each message kind belongs.
pub open spec fn spec_classify(m: MessageEvent) -> QueueTag {
    match m {
        MessageEvent::ChainInfo(_) => QueueTag::Control,
        MessageEvent::RequestNewBlocks(_) => QueueTag::Control,
        MessageEvent::ResponseBlock(_) => QueueTag::BlockResponse,
        MessageEvent::NewUPINFO(_) => QueueTag::Payload,
    }
}

/// Routes a decoded gossip frame to its queue.
pub fn classify_message(msg: &MessageEvent) -> (q: QueueTag)
    ensures
        q == spec_classify(*msg),
{
    match msg {
        MessageEvent::ChainInfo(_) => QueueTag::Control,
        MessageEvent::RequestNewBlocks(_) => QueueTag::Control,
        MessageEvent::ResponseBlock(_) => QueueTag::BlockResponse,
        MessageEvent::NewUPINFO(_) => QueueTag::Payload,
    }
}

/// Whether a wallet submission carries a valid signature.
pub open spec fn payload_ok(p: PayloadData) -> bool {
    spec_verify(p.public_key, p.upinfo, p.signature)
}

/// The submissions whose signatures verify, in their original order.
pub open spec fn valid_payloads(ps: Seq<PayloadData>) -> Seq<PayloadData> {
    ps.filter(|p: PayloadData| payload_ok(p))
}

/// Retains, in order, exactly the submissions whose signatures verify;
/// the rest are dropped and never mined.
pub fn filter_valid_upinfos(infos: Vec<NewUPINFO>) -> (r: Vec<NewUPINFO>)
    ensures
        payload_models(r@) == valid_payloads(payload_models(infos@)),
{
    let n = infos.len();
    let mut r: Vec<NewUPINFO> = Vec::new();
    for i in 0..n
        invariant
            n == infos@.len(),
            payload_models(r@) =~= valid_payloads(payload_models(infos@).take(i as int)),
    {
        let ghost mv = payload_models(infos@);
        let ghost r_pre = payload_models(r@);
        let keep = verify(&infos[i].public_key, &infos[i].upinfo, &infos[i].signature);
        if keep {
            let p = infos[i].clone();
            r.push(p);
        }
        proof {
            reveal(Seq::filter);
            assert(mv.take(i + 1).drop_last() =~= mv.take(i as int));
            assert(mv.take(i + 1).last() == mv[i as int]);
            assert(mv[i as int] == infos@[i as int]@);
            assert(keep == payload_ok(mv[i as int]));
            if keep {
                assert(payload_models(r@) =~= r_pre.push(mv[i as int]));
                assert(valid_payloads(mv.take(i + 1)) == valid_payloads(mv.take(i as int)).push(
                    mv[i as int],
                ));
            } else {
                assert(valid_payloads(mv.take(i + 1)) == valid_payloads(mv.take(i as int)));
            }
            assert(payload_models(r@) =~= valid_payloads(mv.take(i + 1)));
        }
    }
    proof {
        assert(payload_models(infos@).take(n as int) =~= payload_models(infos@));
    }
    r
}

/// The payload texts of a run of submissions, in order.
pub open spec fn payload_texts(ps: Seq<PayloadData>) -> Seq<Seq<char>> {
    ps.map_values(|p: PayloadData| p.upinfo)
}

/// Builds the candidate block the miner will search a nonce for: successor
/// height, the tip's hash, the given timestamp, the payloads' Merkle root,
/// nonce zero.
pub fn build_candidate(chain: &Chain, payloads: &Vec<String>, timestamp: String) -> (b: Block)
    requires
        chain.wf(),
    ensures
        b@.height == chain.model().len(),
        b@.previous_hash == spec_block_hash(chain.model().last()),
        b@.timestamp == timestamp@,
        b@.merkle_root == spec_merkle_root(payloads.deep_view()),
        b@.nonce == 0,
        b@.upinfo == payloads.deep_view(),
{
    proof {
        lemma_wf_heights(chain.model(), chain.spec_difficulty());
    }
    let len = chain.block_height();
    let tip = chain.last_block();
    proof {
        assert(tip@.height == len - 1);
    }
    let height = tip.height + 1;
    let previous_hash = chain.calculate_hash(tip);
    let merkle_root = crate::hashing::merkle_root(payloads);
    Block {
        height,
        previous_hash,
        timestamp,
        merkle_root,
        nonce: 0,
        upinfo: clone_strings(payloads),
    }
}

/// Runs the proof-of-work search on a fresh candidate. `Some(b)` certifies
/// that `b` is valid on the chain's current tip and carries exactly the
/// given payloads and timestamp; `None` means the search was cancelled and
/// nothing was produced.
pub fn mine_block(
    chain: &Chain,
    payloads: &Vec<String>,
    timestamp: String,
    cancel_flag: &AtomicBool,
) -> (r: Option<Block>)
    requires
        chain.wf(),
    ensures
        r is Some ==> valid_link(chain.model().last(), r->0@, chain.spec_difficulty()),
        r is Some ==> r->0@.upinfo == payloads.deep_view(),
        r is Some ==> r->0@.timestamp == timestamp@,
        r is Some ==> r->0@.height == chain.model().len(),
{
    let mut candidate = build_candidate(chain, payloads, timestamp);
    let (nonce, solved) = pow_search(&candidate, chain.difficulty(), cancel_flag);
    if solved {
        let ghost before = candidate@;
        candidate.nonce = nonce;
        proof {
            assert(crate::block::header_input(candidate@) == crate::block::header_input(before));
            assert(crate::block::hash_input(candidate@) == crate::block::header_input(before)
                + crate::encode::dec_bytes(nonce as nat));
            lemma_wf_heights(chain.model(), chain.spec_difficulty());
        }
        Some(candidate)
    } else {
        None
    }
}

/// What one turn of the miner loop produced.
pub enum MinerOutcome {
    /// A block was mined and appended; it must be broadcast before the next
    /// turn.
    Mined(Block),
    /// The search was cancelled from outside; the verified payloads went
    /// back into the mempool to be mined after the sync.
    Cancelled,
}

/// One turn of the miner loop over an already-batched mempool: verify the
/// pending submissions (dropping the rest for good), build a candidate on
/// the current tip, search for a nonce, and on success append the block.
/// On cancellation the chain is untouched and the verified submissions are
/// restored to the mempool.
pub fn miner_iteration(
    chain: &mut Chain,
    mempool: &mut Vec<NewUPINFO>,
    cancel_flag: &AtomicBool,
) -> (r: MinerOutcome)
    requires
        old(chain).wf(),
    ensures
        final(chain).wf(),
        final(chain).spec_difficulty() == old(chain).spec_difficulty(),
        r is Mined ==> {
            let b = r->0;
            &&& valid_link(old(chain).model().last(), b@, old(chain).spec_difficulty())
            &&& final(chain).model() == old(chain).model().push(b@)
            &&& b@.upinfo == payload_texts(valid_payloads(payload_models(old(mempool)@)))
            &&& final(mempool)@.len() == 0
        },
        r is Cancelled ==> *final(chain) == *old(chain) && payload_models(final(mempool)@)
            == valid_payloads(payload_models(old(mempool)@)),
{
    let pool = mempool.split_off(0);
    proof {
        assert(pool@ =~= old(mempool)@);
        assert(mempool@ =~= Seq::<NewUPINFO>::empty());
    }
    let verified = filter_valid_upinfos(pool);
    let mut payload_strings: Vec<String> = Vec::new();
    let vn = verified.len();
    for i in 0..vn
        invariant
            vn == verified@.len(),
            payload_strings@.len() == i,
            forall|k: int|
                0 <= k < i ==> (#[trigger] payload_strings@[k])@ == verified@[k]@.upinfo,
    {
        payload_strings.push(verified[i].upinfo.clone());
    }
    proof {
        let ghost filtered = valid_payloads(payload_models(old(mempool)@));
        assert(payload_models(verified@) == filtered);
        assert forall|k: int|
            0 <= k < payload_strings@.len() implies payload_strings.deep_view()[k]
            == payload_texts(filtered)[k] by {
            assert(payload_strings@[k]@ == verified@[k]@.upinfo);
            assert(payload_models(verified@)[k] == verified@[k]@);
        }
        assert(payload_strings.deep_view() =~= payload_texts(filtered));
    }
    let timestamp = current_timestamp();
    match mine_block(chain, &payload_strings, timestamp, cancel_flag) {
        Some(b) => {
            let mined = b.clone();
            let result = chain.try_add_a_block(b);
            proof {
                assert(result is Ok);
            }
            MinerOutcome::Mined(mined)
        },
        None => {
            *mempool = verified;
            MinerOutcome::Cancelled
        },
    }
}

/// Relies on chrono::Utc::now: the current wall-clock time rendered as a
/// string. No two calls need agree, so nothing is promised of the value.
#[verifier::external_body]
pub fn current_timestamp() -> (r: String) {
    format!("{}", chrono::Utc::now())
}

/// Assembles this node's chain advertisement: its peer id, the shared
/// topic, the genesis hash and the current height (the number of blocks
/// held, genesis included).
pub fn current_chain_info(chain: &Chain, my_peer_id: &String) -> (r: ChainInfo)
    requires
        chain.wf(),
    ensures
        r.peer_id@ == my_peer_id@,
        r.topic@ == spec_topic(),
        r.genesis_hash@ == spec_block_hash(genesis_data()),
        r.block_height == chain.model().len(),
{
    ChainInfo {
        peer_id: my_peer_id.clone(),
        topic: topic_string(),
        genesis_hash: chain.genesis_hash(),
        block_height: chain.block_height(),
    }
}

/// Whether a sync response is addressed to this node; responses for other
/// peers are passed over while awaiting one's own.
pub fn response_addressed_to(resp: &ResponseBlock, my_peer_id: &String) -> (r: bool)
    ensures
        r == (resp.event_mod.receiver() == my_peer_id@),
{
    match &resp.event_mod {
        EventMod::ONE((_, to)) => *to == *my_peer_id,
    }
}

/// What the control loop does with a peer's chain advertisement.
pub enum ChainInfoAction {
    /// Another network or another genesis: drop the advertisement.
    Ignore,
    /// The peer's chain is longer: stop mining and request this many
    /// blocks from it.
    RequestBlocks { count: usize },
    /// The peer's chain is no longer than ours: republish our own state so
    /// lagging peers catch up.
    Republish,
}

/// Decides on a peer's chain advertisement: ignore it unless topic and
/// genesis match; request the missing blocks when the peer's chain is
/// longer; otherwise republish our own state.
pub fn handle_chain_info(chain: &Chain, remote: &ChainInfo) -> (r: ChainInfoAction)
    requires
        chain.wf(),
    ensures
        remote.topic@ != spec_topic() || remote.genesis_hash@ != spec_block_hash(genesis_data())
            ==> r == ChainInfoAction::Ignore,
        remote.topic@ == spec_topic() && remote.genesis_hash@ == spec_block_hash(genesis_data())
            && remote.block_height > chain.model().len() ==> r == (ChainInfoAction::RequestBlocks {
            count: (remote.block_height - chain.model().len()) as usize,
        }),
        remote.topic@ == spec_topic() && remote.genesis_hash@ == spec_block_hash(genesis_data())
            && remote.block_height <= chain.model().len() ==> r == ChainInfoAction::Republish,
{
    let topic = topic_string();
    let genesis = chain.genesis_hash();
    if !(remote.topic == topic) || !bytes_eq(&remote.genesis_hash, &genesis) {
        return ChainInfoAction::Ignore;
    }
    let local = chain.block_height();
    if remote.block_height > local {
        ChainInfoAction::RequestBlocks { count: remote.block_height - local }
    } else {
        ChainInfoAction::Republish
    }
}

/// Answers a peer's block request: when it is addressed to this node and
/// asks for no more blocks than the chain holds, the newest blocks are
/// packed into a response addressed back to the requester; anything else
/// is ignored.
pub fn handle_request(chain: &Chain, req: &RequestNewBlocks, my_peer_id: &String) -> (r: Option<
    ResponseBlock,
>)
    requires
        chain.wf(),
    ensures
        r is Some <==> req.event_mod.receiver() == my_peer_id@ && req.num_of_blocks
            <= chain.model().len(),
        r is Some ==> {
            let resp = r->0;
            &&& block_models(resp.blocks@) == chain.model().skip(
                chain.model().len() - req.num_of_blocks,
            )
            &&& resp.num_of_blocks == req.num_of_blocks
            &&& resp.event_mod.sender() == my_peer_id@
            &&& resp.event_mod.receiver() == req.event_mod.sender()
        },
{
    match &req.event_mod {
        EventMod::ONE((from, to)) => {
            if !(*to == *my_peer_id) {
                return None;
            }
            if req.num_of_blocks > chain.block_height() {
                return None;
            }
            let blocks = chain.last_n_blocks(req.num_of_blocks);
            Some(
                ResponseBlock {
                    event_mod: EventMod::ONE((my_peer_id.clone(), from.clone())),
                    num_of_blocks: req.num_of_blocks,
                    blocks,
                },
            )
        },
    }
}

/// The chain that results from appending a run of blocks one by one,
/// stopping at the first that does not validly extend what stands.
pub open spec fn extend_valid(s: Seq<BlockData>, bs: Seq<BlockData>, difficulty: Seq<u8>) -> Seq<
    BlockData,
>
    recommends
        s.len() >= 1,
    decreases bs.len(),
{
    if bs.len() == 0 {
        s
    } else if valid_link(s.last(), bs.first(), difficulty) {
        extend_valid(s.push(bs.first()), bs.drop_first(), difficulty)
    } else {
        s
    }
}

/// Absorbs a sync response: appends the returned blocks in order through
/// the chain's validity check, aborting at the first invalid block so that
/// a malformed peer cannot corrupt the chain. Returns whether every block
/// was accepted.
#[verifier::rlimit(50)]
pub fn apply_response_blocks(chain: &mut Chain, blocks: &Vec<Block>) -> (ok: bool)
    requires
        old(chain).wf(),
    ensures
        final(chain).wf(),
        final(chain).spec_difficulty() == old(chain).spec_difficulty(),
        final(chain).model() == extend_valid(
            old(chain).model(),
            block_models(blocks@),
            old(chain).spec_difficulty(),
        ),
        ok <==> final(chain).model().len() == old(chain).model().len() + blocks@.len(),
{
    let ghost orig = chain.model();
    let ghost diff = chain.spec_difficulty();
    let ghost bvs = block_models(blocks@);
    proof {
        assert(bvs.skip(0) =~= bvs);
    }
    let n = blocks.len();
    let mut i: usize = 0;
    while i < n
        invariant
            i <= n,
            n == blocks@.len(),
            bvs == block_models(blocks@),
            orig == old(chain).model(),
            diff == old(chain).spec_difficulty(),
            chain.wf(),
            chain.spec_difficulty() == diff,
            chain.model().len() == orig.len() + i,
            extend_valid(orig, bvs, diff) == extend_valid(chain.model(), bvs.skip(i as int), diff),
        decreases n - i,
    {
        let b = blocks[i].clone();
        let ghost pre = chain.model();
        proof {
            assert(b@ == bvs[i as int]);
            assert(bvs.skip(i as int).first() == bvs[i as int]);
            assert(bvs.skip(i as int).drop_first() =~= bvs.skip(i as int + 1));
        }
        match chain.try_add_a_block(b) {
            Ok(()) => {
                proof {
                    assert(extend_valid(pre, bvs.skip(i as int), diff) == extend_valid(
                        chain.model(),
                        bvs.skip(i as int + 1),
                        diff,
                    ));
                }
                i = i + 1;
            },
            Err(_) => {
                proof {
                    assert(extend_valid(pre, bvs.skip(i as int), diff) == pre);
                }
                return false;
            },
        }
    }
    proof {
        assert(bvs.skip(n as int) =~= Seq::<BlockData>::empty());
        assert(extend_valid(chain.model(), bvs.skip(n as int), diff) == chain.model());
    }
    true
}

/// Longest-chain convergence: a node whose chain is a prefix of a peer's
/// well-formed chain accepts the peer's remaining blocks wholesale and
/// ends with exactly the peer's chain.
pub proof fn lemma_sync_convergence(a: Seq<BlockData>, m: int, difficulty: Seq<u8>)
    requires
        wf_blocks(a, difficulty),
        1 <= m <= a.len(),
    ensures
        extend_valid(a.take(m), a.skip(m), difficulty) == a,
    decreases a.len() - m,
{
    if m == a.len() {
        assert(a.skip(m) =~= Seq::<BlockData>::empty());
        assert(a.take(m) =~= a);
    } else {
        assert(valid_link(a[m - 1], a[m], difficulty));
        assert(a.take(m).last() == a[m - 1]);
        assert(a.skip(m).first() == a[m]);
        assert(a.take(m).push(a[m]) =~= a.take(m + 1));
        assert(a.skip(m).drop_first() =~= a.skip(m + 1));
        lemma_sync_convergence(a, m + 1, difficulty);
    }
}

} // verus!
