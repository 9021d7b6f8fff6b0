//! The registry: the operations that the facade offers, each with its name
//! on the wire, its category and the parameter that it takes.

use vstd::prelude::*;

verus! {

/// The part of the node that an operation asks about.
#[derive(Clone, Copy, Debug, PartialEq, Eq, Structural)]
pub enum Category {
    Wallet,
    Control,
    Network,
    Blockchain,
    Mining,
}

/// What an operation takes from its caller.
#[derive(Clone, Copy, Debug, PartialEq, Eq, Structural)]
pub enum Parameter {
    /// Nothing.
    Nothing,
    /// The hash of a block, as text.
    BlockHashText,
    /// The height of a block.
    Height,
}

/// An operation of the facade.
#[derive(Clone, Copy, Debug, PartialEq, Eq, Structural)]
pub enum Method {
    GetWalletInfo,
    ListWallets,
    Uptime,
    GetNetworkInfo,
    GetConnectionCount,
    GetPeerInfo,
    Ping,
    GetNetTotals,
    GetBlock,
    GetBlockHash,
    GetBlockHeader,
    GetBlockHeaderInfo,
    GetDifficulty,
    GetBlockchainInfo,
    GetBlockCount,
    GetBestBlockHash,
    GetTxOutSetInfo,
    GetMiningInfo,
}

impl Method {
    /// The name under which a caller asks for this operation.
    pub open spec fn name_text(self) -> Seq<char> {
        match self {
            Method::GetWalletInfo => "getwalletinfo"@,
            Method::ListWallets => "listwallets"@,
            Method::Uptime => "uptime"@,
            Method::GetNetworkInfo => "getnetworkinfo"@,
            Method::GetConnectionCount => "getconnectioncount"@,
            Method::GetPeerInfo => "getpeerinfo"@,
            Method::Ping => "ping"@,
            Method::GetNetTotals => "getnettotals"@,
            Method::GetBlock => "getblock"@,
            Method::GetBlockHash => "getblockhash"@,
            Method::GetBlockHeader => "getblockheader"@,
            Method::GetBlockHeaderInfo => "getblockheaderinfo"@,
            Method::GetDifficulty => "getdifficulty"@,
            Method::GetBlockchainInfo => "getblockchaininfo"@,
            Method::GetBlockCount => "getblockcount"@,
            Method::GetBestBlockHash => "getbestblockhash"@,
            Method::GetTxOutSetInfo => "gettxoutsetinfo"@,
            Method::GetMiningInfo => "getmininginfo"@,
        }
    }

    /// Returns the name under which a caller asks for this operation.
    pub fn name(&self) -> (name: &'static str)
        ensures
            name@ == self.name_text(),
    {
        match self {
            Method::GetWalletInfo => "getwalletinfo",
            Method::ListWallets => "listwallets",
            Method::Uptime => "uptime",
            Method::GetNetworkInfo => "getnetworkinfo",
            Method::GetConnectionCount => "getconnectioncount",
            Method::GetPeerInfo => "getpeerinfo",
            Method::Ping => "ping",
            Method::GetNetTotals => "getnettotals",
            Method::GetBlock => "getblock",
            Method::GetBlockHash => "getblockhash",
            Method::GetBlockHeader => "getblockheader",
            Method::GetBlockHeaderInfo => "getblockheaderinfo",
            Method::GetDifficulty => "getdifficulty",
            Method::GetBlockchainInfo => "getblockchaininfo",
            Method::GetBlockCount => "getblockcount",
            Method::GetBestBlockHash => "getbestblockhash",
            Method::GetTxOutSetInfo => "gettxoutsetinfo",
            Method::GetMiningInfo => "getmininginfo",
        }
    }

    /// The category of this operation.
    pub open spec fn category_of(self) -> Category {
        match self {
            Method::GetWalletInfo | Method::ListWallets => Category::Wallet,
            Method::Uptime => Category::Control,
            Method::GetNetworkInfo
            | Method::GetConnectionCount
            | Method::GetPeerInfo
            | Method::Ping
            | Method::GetNetTotals => Category::Network,
            Method::GetBlock
            | Method::GetBlockHash
            | Method::GetBlockHeader
            | Method::GetBlockHeaderInfo
            | Method::GetDifficulty
            | Method::GetBlockchainInfo
            | Method::GetBlockCount
            | Method::GetBestBlockHash
            | Method::GetTxOutSetInfo => Category::Blockchain,
            Method::GetMiningInfo => Category::Mining,
        }
    }

    /// Returns the category of this operation.
    pub fn category(&self) -> (category: Category)
        ensures
            category == self.category_of(),
    {
        match self {
            Method::GetWalletInfo | Method::ListWallets => Category::Wallet,
            Method::Uptime => Category::Control,
            Method::GetNetworkInfo
            | Method::GetConnectionCount
            | Method::GetPeerInfo
            | Method::Ping
            | Method::GetNetTotals => Category::Network,
            Method::GetBlock
            | Method::GetBlockHash
            | Method::GetBlockHeader
            | Method::GetBlockHeaderInfo
            | Method::GetDifficulty
            | Method::GetBlockchainInfo
            | Method::GetBlockCount
            | Method::GetBestBlockHash
            | Method::GetTxOutSetInfo => Category::Blockchain,
            Method::GetMiningInfo => Category::Mining,
        }
    }

    /// What this operation takes from its caller.
    pub open spec fn parameter_of(self) -> Parameter {
        match self {
            Method::GetBlock | Method::GetBlockHeader | Method::GetBlockHeaderInfo => {
                Parameter::BlockHashText
            },
            Method::GetBlockHash => Parameter::Height,
            _ => Parameter::Nothing,
        }
    }

    /// Returns what this operation takes from its caller.
    pub fn parameter(&self) -> (parameter: Parameter)
        ensures
            parameter == self.parameter_of(),
    {
        match self {
            Method::GetBlock | Method::GetBlockHeader | Method::GetBlockHeaderInfo => {
                Parameter::BlockHashText
            },
            Method::GetBlockHash => Parameter::Height,
            _ => Parameter::Nothing,
        }
    }
}

/// The length of the name of an operation, its first letter and its fourth.
/// No two operations agree in all three.
spec fn name_shape(m: Method) -> (nat, char, char) {
    match m {
        Method::GetWalletInfo => (13, 'g', 'w'),
        Method::ListWallets => (11, 'l', 't'),
        Method::Uptime => (6, 'u', 'i'),
        Method::GetNetworkInfo => (14, 'g', 'n'),
        Method::GetConnectionCount => (18, 'g', 'c'),
        Method::GetPeerInfo => (11, 'g', 'p'),
        Method::Ping => (4, 'p', 'g'),
        Method::GetNetTotals => (12, 'g', 'n'),
        Method::GetBlock => (8, 'g', 'b'),
        Method::GetBlockHash => (12, 'g', 'b'),
        Method::GetBlockHeader => (14, 'g', 'b'),
        Method::GetBlockHeaderInfo => (18, 'g', 'b'),
        Method::GetDifficulty => (13, 'g', 'd'),
        Method::GetBlockchainInfo => (17, 'g', 'b'),
        Method::GetBlockCount => (13, 'g', 'b'),
        Method::GetBestBlockHash => (16, 'g', 'b'),
        Method::GetTxOutSetInfo => (15, 'g', 't'),
        Method::GetMiningInfo => (13, 'g', 'm'),
    }
}

proof fn lemma_name_shape(m: Method)
    ensures
        name_shape(m) == (m.name_text().len(), m.name_text()[0], m.name_text()[3]),
{
    reveal_strlit("getwalletinfo");
    reveal_strlit("listwallets");
    reveal_strlit("uptime");
    reveal_strlit("getnetworkinfo");
    reveal_strlit("getconnectioncount");
    reveal_strlit("getpeerinfo");
    reveal_strlit("ping");
    reveal_strlit("getnettotals");
    reveal_strlit("getblock");
    reveal_strlit("getblockhash");
    reveal_strlit("getblockheader");
    reveal_strlit("getblockheaderinfo");
    reveal_strlit("getdifficulty");
    reveal_strlit("getblockchaininfo");
    reveal_strlit("getblockcount");
    reveal_strlit("getbestblockhash");
    reveal_strlit("gettxoutsetinfo");
    reveal_strlit("getmininginfo");
}

/// No two operations share a name.
pub proof fn lemma_names_are_unique(a: Method, b: Method)
    requires
        a.name_text() == b.name_text(),
    ensures
        a == b,
{
    lemma_name_shape(a);
    lemma_name_shape(b);
}

} // verus!
