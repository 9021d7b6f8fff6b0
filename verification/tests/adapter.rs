use std::collections::HashMap;
use std::str::FromStr;

use bitcoin_rpc_api::adapter::{BitcoinConfig, BitcoinJsonRPCApi};
use bitcoin_rpc_api::client::BitcoinApi;
use bitcoin_rpc_api::{RpcError, RpcErrorCode};
use bitcoincore_rpc::bitcoin::blockdata::constants::genesis_block;
use bitcoincore_rpc::bitcoin::{Amount, Block, BlockHash, BlockHeader, Network};
use bitcoincore_rpc::Error as ClientError;
use bitcoincore_rpc_json::{
    GetBlockHeaderResult, GetBlockchainInfoResult, GetMiningInfoResult, GetNetTotalsResult,
    GetNetTotalsResultUploadTarget, GetNetworkInfoResult, GetPeerInfoResult,
    GetTxOutSetInfoResult, GetWalletInfoResult,
};

const GENESIS: &str = "000000000019d6689c085ae165831e934ff763ae46a2a6c172b3f1b60a8ce26f";
const SECOND: &str = "00000000839a8e6886ab5951d76f411475428afc90947ee320161bbf18eb6048";

fn wallet_info() -> GetWalletInfoResult {
    GetWalletInfoResult {
        wallet_name: "main".to_string(),
        wallet_version: 169900,
        balance: Amount::from_sat(150_000_000),
        unconfirmed_balance: Amount::from_sat(0),
        immature_balance: Amount::from_sat(5_000_000_000),
        tx_count: 12,
        keypool_oldest: Some(1_600_000_000),
        keypool_size: 1000,
        keypool_size_hd_internal: 1000,
        unlocked_until: None,
        pay_tx_fee: Amount::from_sat(0),
        hd_seed_id: None,
        private_keys_enabled: true,
        avoid_reuse: Some(false),
        scanning: None,
    }
}

fn network_info() -> GetNetworkInfoResult {
    GetNetworkInfoResult {
        version: 220000,
        subversion: "/Satoshi:22.0.0/".to_string(),
        protocol_version: 70016,
        local_services: "0000000000000409".to_string(),
        local_relay: true,
        time_offset: -1,
        connections: 10,
        connections_in: Some(2),
        connections_out: Some(8),
        network_active: true,
        networks: Vec::new(),
        relay_fee: Amount::from_sat(1000),
        incremental_fee: Amount::from_sat(1000),
        local_addresses: Vec::new(),
        warnings: String::new(),
    }
}

fn peer(id: u64) -> GetPeerInfoResult {
    GetPeerInfoResult {
        id,
        addr: "203.0.113.7:8333".to_string(),
        addrbind: "192.0.2.1:51234".to_string(),
        addrlocal: None,
        network: None,
        services: "0000000000000409".to_string(),
        relaytxes: true,
        lastsend: 1_700_000_000,
        lastrecv: 1_700_000_001,
        last_transaction: None,
        last_block: None,
        bytessent: 1024,
        bytesrecv: 2048,
        conntime: 1_699_999_000,
        timeoffset: 0,
        pingtime: Some(0.25),
        minping: None,
        pingwait: None,
        version: 70016,
        subver: "/Satoshi:22.0.0/".to_string(),
        inbound: false,
        addnode: None,
        startingheight: 700_000,
        banscore: None,
        synced_headers: 700_100,
        synced_blocks: 700_100,
        inflight: vec![700_101],
        whitelisted: None,
        min_fee_filter: None,
        bytessent_per_msg: HashMap::new(),
        bytesrecv_per_msg: HashMap::new(),
        connection_type: None,
    }
}

fn net_totals() -> GetNetTotalsResult {
    GetNetTotalsResult {
        total_bytes_recv: 7_000,
        total_bytes_sent: 9_000,
        time_millis: 1_700_000_000_000,
        upload_target: GetNetTotalsResultUploadTarget {
            time_frame: 86_400,
            target: 0,
            target_reached: false,
            serve_historical_blocks: true,
            bytes_left_in_cycle: 0,
            time_left_in_cycle: 0,
        },
    }
}

fn header_info(hash: &BlockHash) -> GetBlockHeaderResult {
    let genesis = genesis_block(Network::Bitcoin);
    GetBlockHeaderResult {
        hash: *hash,
        confirmations: 3,
        height: 0,
        version: 1,
        version_hex: None,
        merkle_root: genesis.header.merkle_root,
        time: 1_231_006_505,
        median_time: None,
        nonce: 2_083_236_893,
        bits: "1d00ffff".to_string(),
        difficulty: 1.0,
        chainwork: vec![1, 0, 1, 0, 1],
        n_tx: 1,
        previous_block_hash: None,
        next_block_hash: Some(BlockHash::from_str(SECOND).unwrap()),
    }
}

fn blockchain_info() -> GetBlockchainInfoResult {
    GetBlockchainInfoResult {
        chain: "main".to_string(),
        blocks: 700_100,
        headers: 700_100,
        best_block_hash: BlockHash::from_str(SECOND).unwrap(),
        difficulty: 1.5,
        median_time: 1_700_000_000,
        verification_progress: 0.75,
        initial_block_download: false,
        chain_work: vec![9, 9],
        size_on_disk: 400_000_000_000,
        pruned: false,
        prune_height: None,
        automatic_pruning: None,
        prune_target_size: None,
        softforks: HashMap::new(),
        warnings: String::new(),
    }
}

fn tx_out_set_info() -> GetTxOutSetInfoResult {
    GetTxOutSetInfoResult {
        height: 700_100,
        best_block: BlockHash::from_str(SECOND).unwrap(),
        transactions: Some(40_000_000),
        tx_outs: 75_000_000,
        bogosize: 5_000_000_000,
        hash_serialized_2: None,
        muhash: None,
        disk_size: Some(4_500_000_000),
        total_amount: Amount::from_sat(1_875_000_000_000_000),
        total_unspendable_amount: None,
        block_info: None,
    }
}

fn mining_info() -> GetMiningInfoResult {
    GetMiningInfoResult {
        blocks: 700_100,
        current_block_weight: Some(4000),
        current_block_tx: Some(1),
        difficulty: 2.5,
        network_hash_ps: 1.25e20,
        pooled_tx: 42,
        chain: "main".to_string(),
        warnings: String::new(),
    }
}

/// A client that answers from memory. Where `down` is set, every operation
/// fails as a node does that cannot be reached.
struct Scripted {
    down: bool,
}

impl Scripted {
    fn reply<T>(&self, value: T) -> Result<T, ClientError> {
        if self.down {
            Err(ClientError::ReturnedError("connection refused".to_string()))
        } else {
            Ok(value)
        }
    }
}

impl BitcoinApi for Scripted {
    type Difficulty = f64;

    fn get_wallet_info(&self) -> Result<GetWalletInfoResult, ClientError> {
        self.reply(wallet_info())
    }

    fn list_wallets(&self) -> Result<Vec<String>, ClientError> {
        self.reply(vec!["main".to_string(), "cold".to_string()])
    }

    fn uptime(&self) -> Result<u64, ClientError> {
        self.reply(86_400)
    }

    fn get_network_info(&self) -> Result<GetNetworkInfoResult, ClientError> {
        self.reply(network_info())
    }

    fn get_connection_count(&self) -> Result<usize, ClientError> {
        self.reply(10)
    }

    fn get_peer_info(&self) -> Result<Vec<GetPeerInfoResult>, ClientError> {
        self.reply(vec![peer(1), peer(2)])
    }

    fn ping(&self) -> Result<(), ClientError> {
        self.reply(())
    }

    fn get_net_totals(&self) -> Result<GetNetTotalsResult, ClientError> {
        self.reply(net_totals())
    }

    fn get_block(&self, hash: &BlockHash) -> Result<Block, ClientError> {
        let genesis = genesis_block(Network::Bitcoin);
        if *hash == genesis.block_hash() {
            self.reply(genesis)
        } else {
            Err(ClientError::ReturnedError(format!("Block not found: {}", hash)))
        }
    }

    fn get_block_hash(&self, height: u64) -> Result<BlockHash, ClientError> {
        if height == 0 {
            self.reply(genesis_block(Network::Bitcoin).block_hash())
        } else {
            Err(ClientError::ReturnedError("Block height out of range".to_string()))
        }
    }

    fn get_block_header(&self, hash: &BlockHash) -> Result<BlockHeader, ClientError> {
        let genesis = genesis_block(Network::Bitcoin);
        if *hash == genesis.block_hash() {
            self.reply(genesis.header)
        } else {
            Err(ClientError::ReturnedError(format!("Block not found: {}", hash)))
        }
    }

    fn get_block_header_info(&self, hash: &BlockHash) -> Result<GetBlockHeaderResult, ClientError> {
        self.reply(header_info(hash))
    }

    fn get_difficulty(&self) -> Result<f64, ClientError> {
        self.reply(2.5)
    }

    fn get_blockchain_info(&self) -> Result<GetBlockchainInfoResult, ClientError> {
        self.reply(blockchain_info())
    }

    fn get_block_count(&self) -> Result<u64, ClientError> {
        self.reply(700_100)
    }

    fn get_best_block_hash(&self) -> Result<BlockHash, ClientError> {
        self.reply(BlockHash::from_str(SECOND).unwrap())
    }

    fn get_tx_out_set_info(&self) -> Result<GetTxOutSetInfoResult, ClientError> {
        self.reply(tx_out_set_info())
    }

    fn get_mining_info(&self) -> Result<GetMiningInfoResult, ClientError> {
        self.reply(mining_info())
    }
}

/// A client that must never be asked anything.
struct Untouchable;

impl BitcoinApi for Untouchable {
    type Difficulty = f64;

    fn get_wallet_info(&self) -> Result<GetWalletInfoResult, ClientError> {
        panic!("the client was asked for the wallet")
    }

    fn list_wallets(&self) -> Result<Vec<String>, ClientError> {
        panic!("the client was asked for the wallets")
    }

    fn uptime(&self) -> Result<u64, ClientError> {
        panic!("the client was asked for the uptime")
    }

    fn get_network_info(&self) -> Result<GetNetworkInfoResult, ClientError> {
        panic!("the client was asked for the network")
    }

    fn get_connection_count(&self) -> Result<usize, ClientError> {
        panic!("the client was asked for the connections")
    }

    fn get_peer_info(&self) -> Result<Vec<GetPeerInfoResult>, ClientError> {
        panic!("the client was asked for the peers")
    }

    fn ping(&self) -> Result<(), ClientError> {
        panic!("the client was pinged")
    }

    fn get_net_totals(&self) -> Result<GetNetTotalsResult, ClientError> {
        panic!("the client was asked for the traffic")
    }

    fn get_block(&self, hash: &BlockHash) -> Result<Block, ClientError> {
        panic!("the client was asked for block {}", hash)
    }

    fn get_block_hash(&self, height: u64) -> Result<BlockHash, ClientError> {
        panic!("the client was asked for the hash at {}", height)
    }

    fn get_block_header(&self, hash: &BlockHash) -> Result<BlockHeader, ClientError> {
        panic!("the client was asked for header {}", hash)
    }

    fn get_block_header_info(&self, hash: &BlockHash) -> Result<GetBlockHeaderResult, ClientError> {
        panic!("the client was asked about header {}", hash)
    }

    fn get_difficulty(&self) -> Result<f64, ClientError> {
        panic!("the client was asked for the difficulty")
    }

    fn get_blockchain_info(&self) -> Result<GetBlockchainInfoResult, ClientError> {
        panic!("the client was asked for the chain")
    }

    fn get_block_count(&self) -> Result<u64, ClientError> {
        panic!("the client was asked for the count")
    }

    fn get_best_block_hash(&self) -> Result<BlockHash, ClientError> {
        panic!("the client was asked for the best block")
    }

    fn get_tx_out_set_info(&self) -> Result<GetTxOutSetInfoResult, ClientError> {
        panic!("the client was asked for the outputs")
    }

    fn get_mining_info(&self) -> Result<GetMiningInfoResult, ClientError> {
        panic!("the client was asked about mining")
    }
}

fn up() -> BitcoinConfig<Scripted> {
    BitcoinConfig::new(Scripted { down: false })
}

fn down() -> BitcoinConfig<Scripted> {
    BitcoinConfig::new(Scripted { down: true })
}

fn refused() -> RpcError {
    RpcError {
        code: RpcErrorCode::InternalError,
        message: "the daemon returned an error string: connection refused".to_string(),
        data: None,
    }
}

fn bad_hash(text: &str, fault: &str) -> RpcError {
    RpcError {
        code: RpcErrorCode::ParseError,
        message: format!("cannot convert hash {} to BlockHash structure; {}", text, fault),
        data: None,
    }
}

#[test]
fn adapter_gives_its_client_back() {
    let config = BitcoinConfig::new(Scripted { down: true });
    let client = config.into_inner();
    assert!(client.down);
    let config = BitcoinConfig::new(17u8);
    assert_eq!(config.into_inner(), 17);
}

#[test]
fn genesis_hash_is_returned_for_height_zero() {
    let hash = up().get_block_hash(0).unwrap();
    assert_eq!(hash, BlockHash::from_str(GENESIS).unwrap());
    assert_eq!(hash.to_string(), GENESIS);
}

#[test]
fn unknown_height_is_an_internal_error() {
    let e = up().get_block_hash(1).unwrap_err();
    assert_eq!(e.code, RpcErrorCode::InternalError);
    assert_eq!(e.message, "the daemon returned an error string: Block height out of range");
    assert_eq!(e.data, None);
}

#[test]
fn get_block_rejects_text_that_is_no_hex() {
    let e = up().get_block("not-a-hex-string".to_string()).unwrap_err();
    assert_eq!(e.code, RpcErrorCode::ParseError);
    assert!(e.message.contains("not-a-hex-string"));
    assert_eq!(e, bad_hash("not-a-hex-string", "InvalidLength(64, 16)"));
}

#[test]
fn bad_hash_never_reaches_the_client() {
    let config = BitcoinConfig::new(Untouchable);
    assert_eq!(
        config.get_block("not-a-hex-string".to_string()),
        Err(bad_hash("not-a-hex-string", "InvalidLength(64, 16)"))
    );
    assert_eq!(
        config.get_block_header("abc".to_string()),
        Err(bad_hash("abc", "OddLengthString(3)"))
    );
    let text = "000000000019d6689c085ae165831e934ff763ae46a2a6c172b3f1b60a8ce2 f";
    let e = config.get_block_header_info(text.to_string()).unwrap_err();
    assert_eq!(e, bad_hash(text, "InvalidChar(32)"));
}

#[test]
fn bad_hash_is_reported_even_when_the_node_is_down() {
    assert_eq!(down().get_block("zz".to_string()), Err(bad_hash("zz", "InvalidLength(64, 2)")));
    assert_eq!(
        down().get_block_header("zz".to_string()),
        Err(bad_hash("zz", "InvalidLength(64, 2)"))
    );
    assert_eq!(
        down().get_block_header_info("zz".to_string()).unwrap_err(),
        bad_hash("zz", "InvalidLength(64, 2)")
    );
}

#[test]
fn get_block_hands_the_parsed_hash_to_the_client() {
    let block = up().get_block(GENESIS.to_string()).unwrap();
    assert_eq!(block, genesis_block(Network::Bitcoin));
    assert_eq!(block.block_hash().to_string(), GENESIS);
    let e = up().get_block(SECOND.to_string()).unwrap_err();
    assert_eq!(e.code, RpcErrorCode::InternalError);
    assert_eq!(
        e.message,
        format!("the daemon returned an error string: Block not found: {}", SECOND)
    );
}

#[test]
fn get_block_header_hands_the_parsed_hash_to_the_client() {
    let header = up().get_block_header(GENESIS.to_string()).unwrap();
    assert_eq!(header, genesis_block(Network::Bitcoin).header);
    let e = up().get_block_header(SECOND.to_string()).unwrap_err();
    assert_eq!(
        e.message,
        format!("the daemon returned an error string: Block not found: {}", SECOND)
    );
}

#[test]
fn get_block_header_info_hands_the_parsed_hash_to_the_client() {
    let info = up().get_block_header_info(SECOND.to_string()).unwrap();
    assert_eq!(info.hash.to_string(), SECOND);
    assert_eq!(info.hash[0], 0x48);
    assert_eq!(info, header_info(&BlockHash::from_str(SECOND).unwrap()));
}

#[test]
fn ping_succeeds_without_a_value() {
    assert_eq!(up().ping(), Ok(()));
}

#[test]
fn ping_fails_as_every_other_operation_does() {
    assert_eq!(down().ping(), Err(refused()));
    assert_eq!(down().uptime(), Err(refused()));
    assert_eq!(down().get_block_count(), Err(refused()));
}

#[test]
fn values_come_back_as_the_client_gave_them() {
    let config = up();
    assert_eq!(config.get_wallet_info(), Ok(wallet_info()));
    assert_eq!(config.list_wallets(), Ok(vec!["main".to_string(), "cold".to_string()]));
    assert_eq!(config.uptime(), Ok(86_400));
    assert_eq!(config.get_network_info(), Ok(network_info()));
    assert_eq!(config.get_connection_count(), Ok(10));
    assert_eq!(config.get_net_totals(), Ok(net_totals()));
    assert_eq!(config.get_difficulty(), Ok(2.5));
    assert_eq!(config.get_block_count(), Ok(700_100));
    assert_eq!(config.get_best_block_hash(), Ok(BlockHash::from_str(SECOND).unwrap()));
    assert_eq!(config.get_tx_out_set_info(), Ok(tx_out_set_info()));
    assert_eq!(config.get_mining_info(), Ok(mining_info()));
}

#[test]
fn peers_come_back_as_the_client_gave_them() {
    let peers = up().get_peer_info().unwrap();
    assert_eq!(peers.len(), 2);
    assert_eq!(format!("{:?}", peers), format!("{:?}", vec![peer(1), peer(2)]));
}

#[test]
fn chain_state_comes_back_as_the_client_gave_it() {
    let info = up().get_blockchain_info().unwrap();
    assert_eq!(format!("{:?}", info), format!("{:?}", blockchain_info()));
    assert_eq!(info.blocks, 700_100);
}

#[test]
fn every_operation_reports_a_failure_of_the_client() {
    let config = down();
    assert_eq!(config.get_wallet_info(), Err(refused()));
    assert_eq!(config.list_wallets(), Err(refused()));
    assert_eq!(config.uptime(), Err(refused()));
    assert_eq!(config.get_network_info(), Err(refused()));
    assert_eq!(config.get_connection_count(), Err(refused()));
    assert_eq!(config.get_peer_info().unwrap_err(), refused());
    assert_eq!(config.ping(), Err(refused()));
    assert_eq!(config.get_net_totals(), Err(refused()));
    assert_eq!(config.get_block(GENESIS.to_string()), Err(refused()));
    assert_eq!(config.get_block_hash(0), Err(refused()));
    assert_eq!(config.get_block_header(GENESIS.to_string()), Err(refused()));
    assert_eq!(config.get_block_header_info(GENESIS.to_string()), Err(refused()));
    assert_eq!(config.get_difficulty(), Err(refused()));
    assert_eq!(config.get_blockchain_info().unwrap_err(), refused());
    assert_eq!(config.get_block_count(), Err(refused()));
    assert_eq!(config.get_best_block_hash(), Err(refused()));
    assert_eq!(config.get_tx_out_set_info(), Err(refused()));
    assert_eq!(config.get_mining_info(), Err(refused()));
}

#[test]
fn calls_do_not_depend_on_one_another() {
    let config = up();
    let first = config.get_block_hash(0);
    let _ = config.get_block("zz".to_string());
    let _ = config.get_block_hash(5);
    let second = config.get_block_hash(0);
    assert_eq!(first, second);
}

#[test]
fn two_adapters_of_like_clients_answer_alike() {
    let one = up();
    let two = up();
    assert_eq!(one.get_block_hash(0), two.get_block_hash(0));
    assert_eq!(one.uptime(), two.uptime());
    assert_eq!(one.get_block("zz".to_string()), two.get_block("zz".to_string()));
    assert_eq!(one.get_wallet_info(), two.get_wallet_info());
}
