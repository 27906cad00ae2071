//! An in-memory proof-of-work blockchain node core: canonical block encoding,
//! SHA-256 block hashes and Merkle roots, Ed25519 payload verification, a
//! cancellable nonce search, and the decision logic of the miner and control
//! loops. Network transport and clocks live outside; the logic here is
//! verified against mathematical models of the chain.

pub mod block;
pub mod bytes;
pub mod cryptography;
pub mod encode;
pub mod hashing;
pub mod node;
pub mod pow;
pub mod protocol;
