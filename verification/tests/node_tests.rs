use std::sync::atomic::AtomicBool;

use ed25519_dalek::Signer;
use sha2::Digest;
use runchain::block::Chain;
use runchain::node::{
    apply_response_blocks, classify_message, current_chain_info, filter_valid_upinfos,
    handle_chain_info, handle_request, miner_iteration, mine_block, response_addressed_to,
    ChainInfoAction, MinerOutcome, QueueTag,
};
use runchain::protocol::{
    topic_string, ChainInfo, EventMod, MessageEvent, NewUPINFO, RequestNewBlocks,
};

fn submission(message: &str) -> NewUPINFO {
    let secret: [u8; 32] = [9; 32];
    let key = ed25519_dalek::SigningKey::from_bytes(&secret);
    NewUPINFO {
        upinfo: String::from(message),
        signature: key.sign(message.as_bytes()).to_bytes().to_vec(),
        public_key: key.verifying_key().to_bytes().to_vec(),
    }
}

fn mine_one(chain: &mut Chain, payloads: Vec<String>) {
    let flag = AtomicBool::new(true);
    let block = mine_block(
        chain,
        &payloads,
        String::from("2024-01-02 03:04:05 UTC"),
        &flag,
    )
    .expect("an uncancelled search under a one-byte prefix solves");
    chain.try_add_a_block(block).unwrap();
}

#[test]
fn classify_routes_each_message_kind() {
    let info = MessageEvent::ChainInfo(ChainInfo {
        peer_id: String::from("a"),
        topic: topic_string(),
        genesis_hash: vec![],
        block_height: 1,
    });
    assert!(matches!(classify_message(&info), QueueTag::Control));
    let req = MessageEvent::RequestNewBlocks(RequestNewBlocks {
        event_mod: EventMod::ONE((String::from("a"), String::from("b"))),
        num_of_blocks: 1,
    });
    assert!(matches!(classify_message(&req), QueueTag::Control));
    let payload = MessageEvent::NewUPINFO(submission("x"));
    assert!(matches!(classify_message(&payload), QueueTag::Payload));
}

#[test]
fn filter_drops_tampered_submissions() {
    let good = submission("pay alice");
    let mut bad = submission("pay bob");
    bad.signature[0] ^= 1;
    let kept = filter_valid_upinfos(vec![good, bad]);
    assert_eq!(kept.len(), 1);
    assert_eq!(kept[0].upinfo, "pay alice");
}

#[test]
fn miner_iteration_mines_the_verified_payload() {
    let mut chain = Chain::with_difficulty(vec![0]);
    let mut mempool = vec![submission("pay alice")];
    let flag = AtomicBool::new(true);
    match miner_iteration(&mut chain, &mut mempool, &flag) {
        MinerOutcome::Mined(block) => {
            assert_eq!(block.height, 1);
            assert_eq!(block.upinfo, vec![String::from("pay alice")]);
            let expected: Vec<u8> = sha2::Sha256::digest("pay alice".as_bytes()).to_vec();
            assert_eq!(block.merkle_root, expected);
            let hash = chain.calculate_hash(&block);
            assert_eq!(hash[0], 0);
        }
        MinerOutcome::Cancelled => panic!("the search was not cancelled"),
    }
    assert_eq!(chain.block_height(), 2);
    assert!(mempool.is_empty());
}

#[test]
fn mined_block_omits_invalid_submissions() {
    let mut chain = Chain::with_difficulty(vec![0]);
    let mut tampered = submission("pay mallory");
    tampered.signature[10] ^= 0xff;
    let mut mempool = vec![tampered, submission("pay alice")];
    let flag = AtomicBool::new(true);
    match miner_iteration(&mut chain, &mut mempool, &flag) {
        MinerOutcome::Mined(block) => {
            assert_eq!(block.upinfo, vec![String::from("pay alice")]);
        }
        MinerOutcome::Cancelled => panic!("the search was not cancelled"),
    }
}

#[test]
fn cancelled_iteration_restores_the_mempool_and_resumes() {
    let mut chain = Chain::with_difficulty(vec![0]);
    let mut mempool = vec![submission("pay alice")];
    let flag = AtomicBool::new(false);
    match miner_iteration(&mut chain, &mut mempool, &flag) {
        MinerOutcome::Mined(_) => panic!("a cleared flag must cancel the search"),
        MinerOutcome::Cancelled => {}
    }
    assert_eq!(chain.block_height(), 1);
    assert_eq!(mempool.len(), 1);
    assert_eq!(mempool[0].upinfo, "pay alice");

    // Resumption: the flag is set again and the same mempool mines.
    flag.store(true, std::sync::atomic::Ordering::Relaxed);
    match miner_iteration(&mut chain, &mut mempool, &flag) {
        MinerOutcome::Mined(block) => assert_eq!(block.upinfo, vec![String::from("pay alice")]),
        MinerOutcome::Cancelled => panic!("the search was not cancelled"),
    }
    assert_eq!(chain.block_height(), 2);
}

#[test]
fn chain_info_for_other_networks_is_ignored() {
    let chain = Chain::new();
    let mut remote = ChainInfo {
        peer_id: String::from("peer-a"),
        topic: String::from("SOMEOTHERNET"),
        genesis_hash: chain.genesis_hash(),
        block_height: 10,
    };
    assert!(matches!(handle_chain_info(&chain, &remote), ChainInfoAction::Ignore));
    remote.topic = topic_string();
    remote.genesis_hash = vec![0u8; 32];
    assert!(matches!(handle_chain_info(&chain, &remote), ChainInfoAction::Ignore));
}

#[test]
fn longer_remote_chains_trigger_a_request() {
    let chain = Chain::new();
    let remote = ChainInfo {
        peer_id: String::from("peer-a"),
        topic: topic_string(),
        genesis_hash: chain.genesis_hash(),
        block_height: 4,
    };
    match handle_chain_info(&chain, &remote) {
        ChainInfoAction::RequestBlocks { count } => assert_eq!(count, 3),
        _ => panic!("a longer chain must be requested from"),
    }
}

#[test]
fn shorter_remote_chains_trigger_a_republish() {
    let chain = Chain::new();
    let remote = ChainInfo {
        peer_id: String::from("peer-a"),
        topic: topic_string(),
        genesis_hash: chain.genesis_hash(),
        block_height: 1,
    };
    assert!(matches!(handle_chain_info(&chain, &remote), ChainInfoAction::Republish));
}

#[test]
fn requests_addressed_elsewhere_are_ignored() {
    let chain = Chain::new();
    let me = String::from("me");
    let req = RequestNewBlocks {
        event_mod: EventMod::ONE((String::from("peer-a"), String::from("someone else"))),
        num_of_blocks: 1,
    };
    assert!(handle_request(&chain, &req, &me).is_none());
    let oversized = RequestNewBlocks {
        event_mod: EventMod::ONE((String::from("peer-a"), me.clone())),
        num_of_blocks: 2,
    };
    assert!(handle_request(&chain, &oversized, &me).is_none());
}

#[test]
fn requests_addressed_here_are_answered() {
    let chain = Chain::new();
    let me = String::from("me");
    let req = RequestNewBlocks {
        event_mod: EventMod::ONE((String::from("peer-a"), me.clone())),
        num_of_blocks: 1,
    };
    let resp = handle_request(&chain, &req, &me).expect("a well-sized request is answered");
    assert_eq!(resp.num_of_blocks, 1);
    assert_eq!(resp.blocks.len(), 1);
    assert_eq!(resp.blocks[0].height, 0);
    match resp.event_mod {
        EventMod::ONE((from, to)) => {
            assert_eq!(from, "me");
            assert_eq!(to, "peer-a");
        }
    }
}

#[test]
fn chain_info_advertises_the_current_state() {
    let mut chain = Chain::with_difficulty(vec![0]);
    mine_one(&mut chain, vec![String::from("pay alice")]);
    let me = String::from("me");
    let info = current_chain_info(&chain, &me);
    assert_eq!(info.peer_id, "me");
    assert_eq!(info.topic, topic_string());
    assert_eq!(info.genesis_hash, chain.genesis_hash());
    assert_eq!(info.block_height, 2);
}

#[test]
fn responses_are_matched_by_receiver() {
    let chain = Chain::new();
    let me = String::from("me");
    let req = RequestNewBlocks {
        event_mod: EventMod::ONE((String::from("asker"), me.clone())),
        num_of_blocks: 1,
    };
    let resp = handle_request(&chain, &req, &me).unwrap();
    assert!(response_addressed_to(&resp, &String::from("asker")));
    assert!(!response_addressed_to(&resp, &me));
}

#[test]
fn two_nodes_converge_after_one_sync_round() {
    let mut node_a = Chain::with_difficulty(vec![0]);
    let node_a_id = String::from("node-a");
    let mut node_b = Chain::with_difficulty(vec![0]);
    let node_b_id = String::from("node-b");

    for i in 0..5 {
        mine_one(&mut node_a, vec![format!("payload {}", i)]);
    }
    assert_eq!(node_a.block_height(), 6);
    assert_eq!(node_b.block_height(), 1);

    // Node B hears A's advertisement and asks for the missing blocks.
    let advert = ChainInfo {
        peer_id: node_a_id.clone(),
        topic: topic_string(),
        genesis_hash: node_a.genesis_hash(),
        block_height: node_a.block_height(),
    };
    let count = match handle_chain_info(&node_b, &advert) {
        ChainInfoAction::RequestBlocks { count } => count,
        _ => panic!("node A's chain is longer"),
    };
    assert_eq!(count, 5);

    // Node A answers the request; node B absorbs the blocks.
    let req = RequestNewBlocks {
        event_mod: EventMod::ONE((node_b_id, node_a_id.clone())),
        num_of_blocks: count,
    };
    let resp = handle_request(&node_a, &req, &node_a_id).expect("the request names node A");
    assert!(apply_response_blocks(&mut node_b, &resp.blocks));

    assert_eq!(node_b.block_height(), 6);
    let tip_a = node_a.calculate_hash(node_a.last_block());
    let tip_b = node_b.calculate_hash(node_b.last_block());
    assert_eq!(tip_a, tip_b);
}

#[test]
fn forged_sync_responses_are_rejected() {
    let mut node_a = Chain::with_difficulty(vec![0]);
    let mut node_b = Chain::with_difficulty(vec![0]);
    mine_one(&mut node_a, vec![String::from("real")]);

    let mut blocks = node_a.last_n_blocks(1);
    blocks[0].upinfo = vec![String::from("forged payload list")];
    assert!(!apply_response_blocks(&mut node_b, &blocks));
    assert_eq!(node_b.block_height(), 1);
}
