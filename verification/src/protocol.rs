//! Protocol constants and the gossip message vocabulary.
//!
//! Every node of one network shares the topic string and the difficulty
//! prefix; all four message kinds travel over the single pub-sub topic and
//! are filtered by content.

use vstd::prelude::*;

use crate::block::Block;

verus! {

/// The difficulty prefix all peers enforce: a valid block hash must begin
/// with these bytes.
pub open spec fn spec_difficulty_prefix() -> Seq<u8> {
    seq![0u8, 0u8, 0u8]
}

/// The shared difficulty prefix, as a byte vector.
pub fn difficulty_prefix() -> (r: Vec<u8>)
    ensures
        r@ == spec_difficulty_prefix(),
{
    let mut r: Vec<u8> = Vec::new();
    r.push(0);
    r.push(0);
    r.push(0);
    proof {
        assert(r@ =~= spec_difficulty_prefix());
    }
    r
}

/// The pub-sub topic identifier shared by all peers of one network.
pub open spec fn spec_topic() -> Seq<char> {
    "RUNCHAINNET"@
}

/// The shared topic string.
pub fn topic_string() -> (r: String)
    ensures
        r@ == spec_topic(),
{
    "RUNCHAINNET".to_owned()
}

/// Addressing for a directed request or response: the sender's peer id
/// followed by the intended receiver's peer id.
pub enum EventMod {
    ONE((String, String)),
}

/// A broadcast advertisement of one node's chain state.
pub struct ChainInfo {
    pub peer_id: String,
    pub topic: String,
    pub genesis_hash: Vec<u8>,
    pub block_height: usize,
}

/// A broadcast request that a specific peer send back its newest blocks.
pub struct RequestNewBlocks {
    pub event_mod: EventMod,
    pub num_of_blocks: usize,
}

/// A broadcast answer to [`RequestNewBlocks`], carrying the blocks.
pub struct ResponseBlock {
    pub event_mod: EventMod,
    pub num_of_blocks: usize,
    pub blocks: Vec<Block>,
}

/// A wallet's submission: a payload with its Ed25519 signature and the
/// signer's public key.
pub struct NewUPINFO {
    pub upinfo: String,
    pub signature: Vec<u8>,
    pub public_key: Vec<u8>,
}

/// The mathematical image of a wallet submission.
#[verifier::ext_equal]
pub ghost struct PayloadData {
    pub upinfo: Seq<char>,
    pub signature: Seq<u8>,
    pub public_key: Seq<u8>,
}

impl View for NewUPINFO {
    type V = PayloadData;

    open spec fn view(&self) -> PayloadData {
        PayloadData {
            upinfo: self.upinfo@,
            signature: self.signature@,
            public_key: self.public_key@,
        }
    }
}

/// The models of a run of wallet submissions, in order.
pub open spec fn payload_models(s: Seq<NewUPINFO>) -> Seq<PayloadData> {
    s.map_values(|p: NewUPINFO| p@)
}

/// The tagged union that travels on the gossip topic.
pub enum MessageEvent {
    ChainInfo(ChainInfo),
    RequestNewBlocks(RequestNewBlocks),
    ResponseBlock(ResponseBlock),
    NewUPINFO(NewUPINFO),
}

impl Clone for NewUPINFO {
    /// A clone has the same model.
    fn clone(&self) -> (r: Self)
        ensures
            r@ == self@,
            r.upinfo == self.upinfo,
    {
        let r = NewUPINFO {
            upinfo: self.upinfo.clone(),
            signature: crate::bytes::clone_bytes(&self.signature),
            public_key: crate::bytes::clone_bytes(&self.public_key),
        };
        proof {
            assert(r@ =~~= self@);
        }
        r
    }
}

impl EventMod {
    /// The peer id of the sender.
    pub open spec fn sender(self) -> Seq<char> {
        match self {
            EventMod::ONE((from, _)) => from@,
        }
    }

    /// The peer id of the intended receiver.
    pub open spec fn receiver(self) -> Seq<char> {
        match self {
            EventMod::ONE((_, to)) => to@,
        }
    }
}

} // verus!
