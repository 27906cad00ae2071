use std::sync::atomic::AtomicBool;

use sha2::Digest;

use runchain::block::{Block, Chain};
use runchain::pow::{hash_add_n, pow_search, pow_v2};

fn candidate_on(chain: &Chain) -> Block {
    let tip = chain.last_block();
    let previous_hash = chain.calculate_hash(tip);
    Block {
        height: tip.height + 1,
        previous_hash,
        timestamp: String::from("2024-01-02 03:04:05 UTC"),
        merkle_root: vec![0u8; 32],
        nonce: 0,
        upinfo: vec![],
    }
}

#[test]
fn search_finds_a_solving_nonce() {
    let chain = Chain::with_difficulty(vec![0]);
    let mut candidate = candidate_on(&chain);
    let flag = AtomicBool::new(true);
    let (nonce, solved) = pow_search(&candidate, &vec![0u8], &flag);
    assert!(solved);
    candidate.nonce = nonce;
    let hash = chain.calculate_hash(&candidate);
    assert_eq!(hash[0], 0);
}

#[test]
fn solved_candidate_is_accepted_by_the_chain() {
    let mut chain = Chain::with_difficulty(vec![0]);
    let mut candidate = candidate_on(&chain);
    let flag = AtomicBool::new(true);
    let (nonce, solved) = pow_search(&candidate, &vec![0u8], &flag);
    assert!(solved);
    candidate.nonce = nonce;
    assert!(chain.try_add_a_block(candidate).is_ok());
    assert_eq!(chain.block_height(), 2);
}

#[test]
fn cleared_flag_cancels_the_search() {
    let chain = Chain::with_difficulty(vec![0]);
    let candidate = candidate_on(&chain);
    let flag = AtomicBool::new(false);
    // Even a trivially satisfiable difficulty is not reported as solved
    // once the flag forbids mining.
    let (_, solved) = pow_search(&candidate, &vec![0u8], &flag);
    assert!(!solved);
    let candidate = candidate_on(&chain);
    let (_, solved_v2) = pow_v2(candidate, &flag);
    assert!(!solved_v2);
}

#[test]
fn hash_add_n_appends_the_decimal_nonce() {
    let header: Vec<u8> = b"header".to_vec();
    let expected: Vec<u8> = sha2::Sha256::digest(b"header12345".as_slice()).to_vec();
    assert_eq!(hash_add_n(&header, 12345), expected);
}

#[test]
fn hash_add_n_renders_edge_nonces_in_decimal() {
    let header: Vec<u8> = b"h".to_vec();
    let zero: Vec<u8> = sha2::Sha256::digest(b"h0".as_slice()).to_vec();
    assert_eq!(hash_add_n(&header, 0), zero);
    let rendered = format!("h{}", u128::MAX);
    let largest: Vec<u8> = sha2::Sha256::digest(rendered.as_bytes()).to_vec();
    assert_eq!(hash_add_n(&header, u128::MAX), largest);
}
