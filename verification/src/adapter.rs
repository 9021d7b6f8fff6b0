//! The facade itself: the operations that it offers, and the adapter that
//! carries each of them out on a client of the node.

use vstd::prelude::*;
use bitcoincore_rpc::bitcoin::{Block, BlockHash, BlockHeader};
use bitcoincore_rpc_json::{
    GetBlockHeaderResult, GetBlockchainInfoResult, GetMiningInfoResult, GetNetTotalsResult,
    GetNetworkInfoResult, GetPeerInfoResult, GetTxOutSetInfoResult, GetWalletInfoResult,
};
use crate::client::BitcoinApi;
use crate::error::{forward, forwards, RpcError, RpcErrorCode};
use crate::hash::{
    block_hash_fault, is_block_hash_text, lemma_block_hash_text, parse_error_view,
    parsed_block_hash, to_block_hash,
};

verus! {

/// What holds of the outcome of every operation: it is a value or an
/// envelope, and an envelope reports a failure of the client.
pub open spec fn reports_client_failure<T>(r: Result<T, RpcError>) -> bool {
    r matches Err(e) ==> e.is_internal()
}

/// What holds of the outcome of an operation that takes a block hash as text.
/// A text that does not stand for a hash gives the parse failure that names
/// the text and the fault, whatever the client would have said; any other
/// failure is a failure of the client.
pub open spec fn reports_hash_or_client_failure<T>(
    block_hash: Seq<char>,
    r: Result<T, RpcError>,
) -> bool {
    match block_hash_fault(block_hash) {
        Some(fault) => r is Err && r->Err_0@ == parse_error_view(block_hash, fault),
        None => reports_client_failure(r),
    }
}

/// A text that is not made of 64 hexadecimal digits is answered with a parse
/// failure, whatever the operation and whatever the client: the envelope has
/// the classification for parse failures and no data, and its message holds
/// the text itself, after the 20 characters that introduce it.
pub proof fn lemma_bad_hash_is_a_parse_failure<T>(block_hash: Seq<char>, r: Result<T, RpcError>)
    requires
        reports_hash_or_client_failure(block_hash, r),
        !is_block_hash_text(block_hash),
    ensures
        r is Err,
        r->Err_0.code == RpcErrorCode::ParseError,
        r->Err_0.data is None,
        r->Err_0.message@.len() >= 20 + block_hash.len(),
        r->Err_0.message@.subrange(20, 20 + block_hash.len() as int) == block_hash,
{
    lemma_block_hash_text(block_hash);
    reveal_strlit("cannot convert hash ");
    let message = r->Err_0.message@;
    assert(message.subrange(20, 20 + block_hash.len() as int) =~= block_hash);
}

/// The answer to a text that is not made of 64 hexadecimal digits owes
/// nothing to the client: whatever the operation, and whatever client the
/// adapter holds, the envelope is the same.
pub proof fn lemma_bad_hash_is_answered_without_the_client<T, U>(
    block_hash: Seq<char>,
    r1: Result<T, RpcError>,
    r2: Result<U, RpcError>,
)
    requires
        reports_hash_or_client_failure(block_hash, r1),
        reports_hash_or_client_failure(block_hash, r2),
        !is_block_hash_text(block_hash),
    ensures
        r1 is Err,
        r2 is Err,
        r1->Err_0@ == r2->Err_0@,
{
    lemma_block_hash_text(block_hash);
}

/// A text made of 64 hexadecimal digits is never answered with a parse
/// failure: if the operation fails, the client has failed.
pub proof fn lemma_good_hash_is_no_parse_failure<T>(block_hash: Seq<char>, r: Result<T, RpcError>)
    requires
        reports_hash_or_client_failure(block_hash, r),
        is_block_hash_text(block_hash),
    ensures
        r is Err ==> r->Err_0.is_internal(),
{
    lemma_block_hash_text(block_hash);
}

/// The operations of the facade, by category. Each is listed in the
/// registry, as a [`Method`](crate::registry::Method), with its name on the
/// wire.
///
/// Whoever implements the facade owes its callers this much: a failure is
/// reported as an envelope and never beside a value; a block hash given as
/// text is checked before anything else, and a text that stands for no hash
/// gives the parse failure that names it; every other failure is reported
/// as a failure of the client.
pub trait BitcoinJsonRPCApi {
    /// The difficulty of finding a block, in the representation of the client.
    type Difficulty;

    // Wallet.

    /// The state of the wallet that the node has loaded.
    fn get_wallet_info(&self) -> (r: Result<GetWalletInfoResult, RpcError>)
        ensures
            reports_client_failure(r),
    ;

    /// The names of the wallets that the node has loaded.
    fn list_wallets(&self) -> (r: Result<Vec<String>, RpcError>)
        ensures
            reports_client_failure(r),
    ;

    // Control.

    /// The seconds since the node started.
    fn uptime(&self) -> (r: Result<u64, RpcError>)
        ensures
            reports_client_failure(r),
    ;

    // Network.

    /// The state of the node's networking.
    fn get_network_info(&self) -> (r: Result<GetNetworkInfoResult, RpcError>)
        ensures
            reports_client_failure(r),
    ;

    /// The number of connections to other nodes.
    fn get_connection_count(&self) -> (r: Result<usize, RpcError>)
        ensures
            reports_client_failure(r),
    ;

    /// The peers of the node.
    fn get_peer_info(&self) -> (r: Result<Vec<GetPeerInfoResult>, RpcError>)
        ensures
            reports_client_failure(r),
    ;

    /// Asks the node whether it is there. Success carries no value.
    fn ping(&self) -> (r: Result<(), RpcError>)
        ensures
            reports_client_failure(r),
    ;

    /// The traffic of the node, in both directions.
    fn get_net_totals(&self) -> (r: Result<GetNetTotalsResult, RpcError>)
        ensures
            reports_client_failure(r),
    ;

    // Blockchain.

    /// The block with the given hash.
    fn get_block(&self, block_hash: String) -> (r: Result<Block, RpcError>)
        ensures
            reports_hash_or_client_failure(block_hash@, r),
    ;

    /// The hash of the block at the given height of the best chain.
    fn get_block_hash(&self, height: u64) -> (r: Result<BlockHash, RpcError>)
        ensures
            reports_client_failure(r),
    ;

    /// The header of the block with the given hash.
    fn get_block_header(&self, block_hash: String) -> (r: Result<BlockHeader, RpcError>)
        ensures
            reports_hash_or_client_failure(block_hash@, r),
    ;

    /// The header of the block with the given hash, with its place in the
    /// chain.
    fn get_block_header_info(&self, block_hash: String) -> (r: Result<
        GetBlockHeaderResult,
        RpcError,
    >)
        ensures
            reports_hash_or_client_failure(block_hash@, r),
    ;

    /// The difficulty of finding a block.
    fn get_difficulty(&self) -> (r: Result<Self::Difficulty, RpcError>)
        ensures
            reports_client_failure(r),
    ;

    /// The state of the chain as the node sees it.
    fn get_blockchain_info(&self) -> (r: Result<GetBlockchainInfoResult, RpcError>)
        ensures
            reports_client_failure(r),
    ;

    /// The number of blocks in the best chain.
    fn get_block_count(&self) -> (r: Result<u64, RpcError>)
        ensures
            reports_client_failure(r),
    ;

    /// The hash of the last block of the best chain.
    fn get_best_block_hash(&self) -> (r: Result<BlockHash, RpcError>)
        ensures
            reports_client_failure(r),
    ;

    /// Statistics on the set of unspent outputs.
    fn get_tx_out_set_info(&self) -> (r: Result<GetTxOutSetInfoResult, RpcError>)
        ensures
            reports_client_failure(r),
    ;

    // Mining.

    /// The state of mining as the node sees it.
    fn get_mining_info(&self) -> (r: Result<GetMiningInfoResult, RpcError>)
        ensures
            reports_client_failure(r),
    ;
}

/// The adapter: it holds a client of the node and carries each operation of
/// the facade out on it. It keeps nothing from one call to the next.
pub struct BitcoinConfig<C>(C);

impl<C> BitcoinConfig<C> {
    /// The client that the adapter holds.
    pub closed spec fn client(&self) -> C {
        self.0
    }

    /// Gives the client back.
    pub fn into_inner(self) -> (inner: C)
        ensures
            inner == self.client(),
    {
        self.0
    }

    /// Makes the adapter of a client.
    pub fn new(inner: C) -> (config: BitcoinConfig<C>)
        ensures
            config.client() == inner,
    {
        BitcoinConfig(inner)
    }
}

/// The adapter holds its client and nothing else: two adapters of one client
/// are one adapter, and no state of their own can make them answer apart.
pub proof fn lemma_adapter_is_its_client<C>(a: BitcoinConfig<C>, b: BitcoinConfig<C>)
    requires
        a.client() == b.client(),
    ensures
        a == b,
{
}

/// The result of each operation is what [`forwards`] makes of an answer of
/// the client to the request that the caller made. Where the caller gives a
/// block hash as text, the request is for the hash that the text stands for;
/// a text that stands for none is answered without the client.
impl<C: BitcoinApi> BitcoinJsonRPCApi for BitcoinConfig<C> {
    type Difficulty = C::Difficulty;

    fn get_wallet_info(&self) -> (r: Result<GetWalletInfoResult, RpcError>)
        ensures
            exists|answer: Result<GetWalletInfoResult, bitcoincore_rpc::Error>|
                #[trigger] self.client().answers_get_wallet_info(answer) && forwards(answer, r),
    {
        let answer = self.0.get_wallet_info();
        assert(self.client().answers_get_wallet_info(answer));
        forward(answer)
    }

    fn list_wallets(&self) -> (r: Result<Vec<String>, RpcError>)
        ensures
            exists|answer: Result<Vec<String>, bitcoincore_rpc::Error>|
                #[trigger] self.client().answers_list_wallets(answer) && forwards(answer, r),
    {
        let answer = self.0.list_wallets();
        assert(self.client().answers_list_wallets(answer));
        forward(answer)
    }

    fn uptime(&self) -> (r: Result<u64, RpcError>)
        ensures
            exists|answer: Result<u64, bitcoincore_rpc::Error>|
                #[trigger] self.client().answers_uptime(answer) && forwards(answer, r),
    {
        let answer = self.0.uptime();
        assert(self.client().answers_uptime(answer));
        forward(answer)
    }

    fn get_network_info(&self) -> (r: Result<GetNetworkInfoResult, RpcError>)
        ensures
            exists|answer: Result<GetNetworkInfoResult, bitcoincore_rpc::Error>|
                #[trigger] self.client().answers_get_network_info(answer) && forwards(answer, r),
    {
        let answer = self.0.get_network_info();
        assert(self.client().answers_get_network_info(answer));
        forward(answer)
    }

    fn get_connection_count(&self) -> (r: Result<usize, RpcError>)
        ensures
            exists|answer: Result<usize, bitcoincore_rpc::Error>|
                #[trigger] self.client().answers_get_connection_count(answer)
                    && forwards(answer, r),
    {
        let answer = self.0.get_connection_count();
        assert(self.client().answers_get_connection_count(answer));
        forward(answer)
    }

    fn get_peer_info(&self) -> (r: Result<Vec<GetPeerInfoResult>, RpcError>)
        ensures
            exists|answer: Result<Vec<GetPeerInfoResult>, bitcoincore_rpc::Error>|
                #[trigger] self.client().answers_get_peer_info(answer) && forwards(answer, r),
    {
        let answer = self.0.get_peer_info();
        assert(self.client().answers_get_peer_info(answer));
        forward(answer)
    }

    fn ping(&self) -> (r: Result<(), RpcError>)
        ensures
            exists|answer: Result<(), bitcoincore_rpc::Error>|
                #[trigger] self.client().answers_ping(answer) && forwards(answer, r),
    {
        let answer = self.0.ping();
        assert(self.client().answers_ping(answer));
        forward(answer)
    }

    fn get_net_totals(&self) -> (r: Result<GetNetTotalsResult, RpcError>)
        ensures
            exists|answer: Result<GetNetTotalsResult, bitcoincore_rpc::Error>|
                #[trigger] self.client().answers_get_net_totals(answer) && forwards(answer, r),
    {
        let answer = self.0.get_net_totals();
        assert(self.client().answers_get_net_totals(answer));
        forward(answer)
    }

    fn get_block(&self, block_hash: String) -> (r: Result<Block, RpcError>)
        ensures
            block_hash_fault(block_hash@) is None ==> exists|
                answer: Result<Block, bitcoincore_rpc::Error>,
            |
                #[trigger] self.client().answers_get_block(parsed_block_hash(block_hash@), answer)
                    && forwards(answer, r),
    {
        match to_block_hash(block_hash) {
            Ok(hash) => {
                let answer = self.0.get_block(&hash);
                assert(self.client().answers_get_block(hash, answer));
                forward(answer)
            },
            Err(e) => Err(e),
        }
    }

    fn get_block_hash(&self, height: u64) -> (r: Result<BlockHash, RpcError>)
        ensures
            exists|answer: Result<BlockHash, bitcoincore_rpc::Error>|
                #[trigger] self.client().answers_get_block_hash(height, answer)
                    && forwards(answer, r),
    {
        let answer = self.0.get_block_hash(height);
        assert(self.client().answers_get_block_hash(height, answer));
        forward(answer)
    }

    fn get_block_header(&self, block_hash: String) -> (r: Result<BlockHeader, RpcError>)
        ensures
            block_hash_fault(block_hash@) is None ==> exists|
                answer: Result<BlockHeader, bitcoincore_rpc::Error>,
            |
                #[trigger] self.client().answers_get_block_header(
                    parsed_block_hash(block_hash@),
                    answer,
                )
                    && forwards(answer, r),
    {
        match to_block_hash(block_hash) {
            Ok(hash) => {
                let answer = self.0.get_block_header(&hash);
                assert(self.client().answers_get_block_header(hash, answer));
                forward(answer)
            },
            Err(e) => Err(e),
        }
    }

    fn get_block_header_info(&self, block_hash: String) -> (r: Result<
        GetBlockHeaderResult,
        RpcError,
    >)
        ensures
            block_hash_fault(block_hash@) is None ==> exists|
                answer: Result<GetBlockHeaderResult, bitcoincore_rpc::Error>,
            |
                #[trigger] self.client().answers_get_block_header_info(
                    parsed_block_hash(block_hash@),
                    answer,
                )
                    && forwards(answer, r),
    {
        match to_block_hash(block_hash) {
            Ok(hash) => {
                let answer = self.0.get_block_header_info(&hash);
                assert(self.client().answers_get_block_header_info(hash, answer));
                forward(answer)
            },
            Err(e) => Err(e),
        }
    }

    fn get_difficulty(&self) -> (r: Result<C::Difficulty, RpcError>)
        ensures
            exists|answer: Result<C::Difficulty, bitcoincore_rpc::Error>|
                #[trigger] self.client().answers_get_difficulty(answer) && forwards(answer, r),
    {
        let answer = self.0.get_difficulty();
        assert(self.client().answers_get_difficulty(answer));
        forward(answer)
    }

    fn get_blockchain_info(&self) -> (r: Result<GetBlockchainInfoResult, RpcError>)
        ensures
            exists|answer: Result<GetBlockchainInfoResult, bitcoincore_rpc::Error>|
                #[trigger] self.client().answers_get_blockchain_info(answer) && forwards(answer, r),
    {
        let answer = self.0.get_blockchain_info();
        assert(self.client().answers_get_blockchain_info(answer));
        forward(answer)
    }

    fn get_block_count(&self) -> (r: Result<u64, RpcError>)
        ensures
            exists|answer: Result<u64, bitcoincore_rpc::Error>|
                #[trigger] self.client().answers_get_block_count(answer) && forwards(answer, r),
    {
        let answer = self.0.get_block_count();
        assert(self.client().answers_get_block_count(answer));
        forward(answer)
    }

    fn get_best_block_hash(&self) -> (r: Result<BlockHash, RpcError>)
        ensures
            exists|answer: Result<BlockHash, bitcoincore_rpc::Error>|
                #[trigger] self.client().answers_get_best_block_hash(answer) && forwards(answer, r),
    {
        let answer = self.0.get_best_block_hash();
        assert(self.client().answers_get_best_block_hash(answer));
        forward(answer)
    }

    fn get_tx_out_set_info(&self) -> (r: Result<GetTxOutSetInfoResult, RpcError>)
        ensures
            exists|answer: Result<GetTxOutSetInfoResult, bitcoincore_rpc::Error>|
                #[trigger] self.client().answers_get_tx_out_set_info(answer) && forwards(answer, r),
    {
        let answer = self.0.get_tx_out_set_info();
        assert(self.client().answers_get_tx_out_set_info(answer));
        forward(answer)
    }

    fn get_mining_info(&self) -> (r: Result<GetMiningInfoResult, RpcError>)
        ensures
            exists|answer: Result<GetMiningInfoResult, bitcoincore_rpc::Error>|
                #[trigger] self.client().answers_get_mining_info(answer) && forwards(answer, r),
    {
        let answer = self.0.get_mining_info();
        assert(self.client().answers_get_mining_info(answer));
        forward(answer)
    }
}

} // verus!
