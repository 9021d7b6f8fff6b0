//! The client of the node: what the facade asks of it, and the values that
//! pass between the two. The values are those of the `bitcoincore_rpc` and
//! `bitcoincore_rpc_json` crates; the facade hands them on and never looks
//! inside.

use vstd::prelude::*;
use bitcoincore_rpc::bitcoin::{Block, BlockHash, BlockHeader};
use bitcoincore_rpc_json::{
    GetBlockHeaderResult, GetBlockchainInfoResult, GetMiningInfoResult, GetNetTotalsResult,
    GetNetworkInfoResult, GetPeerInfoResult, GetTxOutSetInfoResult, GetWalletInfoResult,
};

verus! {

/// The failure that the client of the node reports: a transport failure, a
/// refusal by the node, or a reply that could not be read.
#[verifier::external_type_specification]
#[verifier::external_body]
pub struct ExClientError(bitcoincore_rpc::Error);

/// The identifier of a block, as the client of the node takes and returns it.
#[verifier::external_type_specification]
#[verifier::external_body]
pub struct ExBlockHash(BlockHash);

/// A block: its header and its transactions.
#[verifier::external_type_specification]
#[verifier::external_body]
pub struct ExBlock(Block);

/// The header of a block.
#[verifier::external_type_specification]
#[verifier::external_body]
pub struct ExBlockHeader(BlockHeader);

/// The header of a block together with its place in the chain.
#[verifier::external_type_specification]
#[verifier::external_body]
pub struct ExGetBlockHeaderResult(GetBlockHeaderResult);

/// The state of the chain as the node sees it.
#[verifier::external_type_specification]
#[verifier::external_body]
pub struct ExGetBlockchainInfoResult(GetBlockchainInfoResult);

/// The state of mining as the node sees it.
#[verifier::external_type_specification]
#[verifier::external_body]
pub struct ExGetMiningInfoResult(GetMiningInfoResult);

/// The traffic of the node, in both directions.
#[verifier::external_type_specification]
#[verifier::external_body]
pub struct ExGetNetTotalsResult(GetNetTotalsResult);

/// The state of the node's networking.
#[verifier::external_type_specification]
#[verifier::external_body]
pub struct ExGetNetworkInfoResult(GetNetworkInfoResult);

/// One peer of the node.
#[verifier::external_type_specification]
#[verifier::external_body]
pub struct ExGetPeerInfoResult(GetPeerInfoResult);

/// Statistics on the set of unspent outputs.
#[verifier::external_type_specification]
#[verifier::external_body]
pub struct ExGetTxOutSetInfoResult(GetTxOutSetInfoResult);

/// The state of the wallet that the node has loaded.
#[verifier::external_type_specification]
#[verifier::external_body]
pub struct ExGetWalletInfoResult(GetWalletInfoResult);

/// What the facade asks of a client of the node: one operation for each of
/// its own, with the parameters already in their typed form.
///
/// Nothing is promised of what an operation answers: that is for the node to
/// decide, and two calls may get two answers. Beside each operation stands a
/// relation, named `answers_` and the operation, that says which answers the
/// client may give to a request. A client that says nothing of itself leaves
/// it as it is: every answer may come. The facade states its own results
/// over these relations, and is verified for every client.
pub trait BitcoinApi {
    /// The difficulty of finding a block, in the representation of the client.
    type Difficulty;

    /// Whether the client may give this answer when asked for the state of the
    /// wallet.
    open spec fn answers_get_wallet_info(
        &self,
        answer: Result<GetWalletInfoResult, bitcoincore_rpc::Error>,
    ) -> bool {
        true
    }

    /// Asks for the state of the wallet that the node has loaded.
    fn get_wallet_info(&self) -> (answer: Result<GetWalletInfoResult, bitcoincore_rpc::Error>)
        ensures
            self.answers_get_wallet_info(answer),
    ;

    /// Whether the client may give this answer when asked for the names of the
    /// wallets.
    open spec fn answers_list_wallets(
        &self,
        answer: Result<Vec<String>, bitcoincore_rpc::Error>,
    ) -> bool {
        true
    }

    /// Asks for the names of the wallets that the node has loaded.
    fn list_wallets(&self) -> (answer: Result<Vec<String>, bitcoincore_rpc::Error>)
        ensures
            self.answers_list_wallets(answer),
    ;

    /// Whether the client may give this answer when asked for the seconds since
    /// the node started.
    open spec fn answers_uptime(
        &self,
        answer: Result<u64, bitcoincore_rpc::Error>,
    ) -> bool {
        true
    }

    /// Asks for the seconds since the node started.
    fn uptime(&self) -> (answer: Result<u64, bitcoincore_rpc::Error>)
        ensures
            self.answers_uptime(answer),
    ;

    /// Whether the client may give this answer when asked for the state of the
    /// networking.
    open spec fn answers_get_network_info(
        &self,
        answer: Result<GetNetworkInfoResult, bitcoincore_rpc::Error>,
    ) -> bool {
        true
    }

    /// Asks for the state of the node's networking.
    fn get_network_info(&self) -> (answer: Result<GetNetworkInfoResult, bitcoincore_rpc::Error>)
        ensures
            self.answers_get_network_info(answer),
    ;

    /// Whether the client may give this answer when asked for the number of
    /// connections.
    open spec fn answers_get_connection_count(
        &self,
        answer: Result<usize, bitcoincore_rpc::Error>,
    ) -> bool {
        true
    }

    /// Asks for the number of connections to other nodes.
    fn get_connection_count(&self) -> (answer: Result<usize, bitcoincore_rpc::Error>)
        ensures
            self.answers_get_connection_count(answer),
    ;

    /// Whether the client may give this answer when asked for the peers.
    open spec fn answers_get_peer_info(
        &self,
        answer: Result<Vec<GetPeerInfoResult>, bitcoincore_rpc::Error>,
    ) -> bool {
        true
    }

    /// Asks for the peers of the node.
    fn get_peer_info(&self) -> (answer: Result<Vec<GetPeerInfoResult>, bitcoincore_rpc::Error>)
        ensures
            self.answers_get_peer_info(answer),
    ;

    /// Whether the client may give this answer when asked whether the node is
    /// there.
    open spec fn answers_ping(
        &self,
        answer: Result<(), bitcoincore_rpc::Error>,
    ) -> bool {
        true
    }

    /// Asks the node whether it is there.
    fn ping(&self) -> (answer: Result<(), bitcoincore_rpc::Error>)
        ensures
            self.answers_ping(answer),
    ;

    /// Whether the client may give this answer when asked for the traffic.
    open spec fn answers_get_net_totals(
        &self,
        answer: Result<GetNetTotalsResult, bitcoincore_rpc::Error>,
    ) -> bool {
        true
    }

    /// Asks for the traffic of the node.
    fn get_net_totals(&self) -> (answer: Result<GetNetTotalsResult, bitcoincore_rpc::Error>)
        ensures
            self.answers_get_net_totals(answer),
    ;

    /// Whether the client may give this answer when asked for the block with this
    /// hash.
    open spec fn answers_get_block(
        &self,
        hash: BlockHash,
        answer: Result<Block, bitcoincore_rpc::Error>,
    ) -> bool {
        true
    }

    /// Asks for the block with this hash.
    fn get_block(&self, hash: &BlockHash) -> (answer: Result<Block, bitcoincore_rpc::Error>)
        ensures
            self.answers_get_block(*hash, answer),
    ;

    /// Whether the client may give this answer when asked for the hash of the
    /// block at this height.
    open spec fn answers_get_block_hash(
        &self,
        height: u64,
        answer: Result<BlockHash, bitcoincore_rpc::Error>,
    ) -> bool {
        true
    }

    /// Asks for the hash of the block at this height of the best chain.
    fn get_block_hash(&self, height: u64) -> (answer: Result<BlockHash, bitcoincore_rpc::Error>)
        ensures
            self.answers_get_block_hash(height, answer),
    ;

    /// Whether the client may give this answer when asked for the header of the
    /// block with this hash.
    open spec fn answers_get_block_header(
        &self,
        hash: BlockHash,
        answer: Result<BlockHeader, bitcoincore_rpc::Error>,
    ) -> bool {
        true
    }

    /// Asks for the header of the block with this hash.
    fn get_block_header(&self, hash: &BlockHash) -> (answer: Result<
        BlockHeader,
        bitcoincore_rpc::Error,
    >)
        ensures
            self.answers_get_block_header(*hash, answer),
    ;

    /// Whether the client may give this answer when asked for the header of the
    /// block with this hash and its place in the chain.
    open spec fn answers_get_block_header_info(
        &self,
        hash: BlockHash,
        answer: Result<GetBlockHeaderResult, bitcoincore_rpc::Error>,
    ) -> bool {
        true
    }

    /// Asks for the header of the block with this hash and its place in the
    /// chain.
    fn get_block_header_info(&self, hash: &BlockHash) -> (answer: Result<
        GetBlockHeaderResult,
        bitcoincore_rpc::Error,
    >)
        ensures
            self.answers_get_block_header_info(*hash, answer),
    ;

    /// Whether the client may give this answer when asked for the difficulty.
    open spec fn answers_get_difficulty(
        &self,
        answer: Result<Self::Difficulty, bitcoincore_rpc::Error>,
    ) -> bool {
        true
    }

    /// Asks for the difficulty of finding a block.
    fn get_difficulty(&self) -> (answer: Result<Self::Difficulty, bitcoincore_rpc::Error>)
        ensures
            self.answers_get_difficulty(answer),
    ;

    /// Whether the client may give this answer when asked for the state of the
    /// chain.
    open spec fn answers_get_blockchain_info(
        &self,
        answer: Result<GetBlockchainInfoResult, bitcoincore_rpc::Error>,
    ) -> bool {
        true
    }

    /// Asks for the state of the chain.
    fn get_blockchain_info(&self) -> (answer: Result<
        GetBlockchainInfoResult,
        bitcoincore_rpc::Error,
    >)
        ensures
            self.answers_get_blockchain_info(answer),
    ;

    /// Whether the client may give this answer when asked for the number of
    /// blocks.
    open spec fn answers_get_block_count(
        &self,
        answer: Result<u64, bitcoincore_rpc::Error>,
    ) -> bool {
        true
    }

    /// Asks for the number of blocks in the best chain.
    fn get_block_count(&self) -> (answer: Result<u64, bitcoincore_rpc::Error>)
        ensures
            self.answers_get_block_count(answer),
    ;

    /// Whether the client may give this answer when asked for the hash of the
    /// best block.
    open spec fn answers_get_best_block_hash(
        &self,
        answer: Result<BlockHash, bitcoincore_rpc::Error>,
    ) -> bool {
        true
    }

    /// Asks for the hash of the last block of the best chain.
    fn get_best_block_hash(&self) -> (answer: Result<BlockHash, bitcoincore_rpc::Error>)
        ensures
            self.answers_get_best_block_hash(answer),
    ;

    /// Whether the client may give this answer when asked for statistics on the
    /// unspent outputs.
    open spec fn answers_get_tx_out_set_info(
        &self,
        answer: Result<GetTxOutSetInfoResult, bitcoincore_rpc::Error>,
    ) -> bool {
        true
    }

    /// Asks for statistics on the set of unspent outputs.
    fn get_tx_out_set_info(&self) -> (answer: Result<GetTxOutSetInfoResult, bitcoincore_rpc::Error>)
        ensures
            self.answers_get_tx_out_set_info(answer),
    ;

    /// Whether the client may give this answer when asked for the state of
    /// mining.
    open spec fn answers_get_mining_info(
        &self,
        answer: Result<GetMiningInfoResult, bitcoincore_rpc::Error>,
    ) -> bool {
        true
    }

    /// Asks for the state of mining.
    fn get_mining_info(&self) -> (answer: Result<GetMiningInfoResult, bitcoincore_rpc::Error>)
        ensures
            self.answers_get_mining_info(answer),
    ;
}

} // verus!
