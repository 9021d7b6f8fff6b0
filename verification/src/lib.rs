//! A typed facade over the RPC interface of a bitcoin node.
//!
//! The facade offers a fixed set of operations, listed in [`registry`]. The
//! adapter, [`BitcoinConfig`], carries each of them out on a client of the
//! node, any type that implements [`BitcoinApi`]: it converts a parameter
//! given as text to its typed form, asks the client, and hands the answer on.
//! A value comes back as the client gave it. A failure, whatever its origin,
//! comes back as one [`RpcError`]: a code, a message and optional data.

pub mod adapter;
pub mod client;
pub mod error;
pub mod hash;
pub mod registry;

pub use adapter::{BitcoinConfig, BitcoinJsonRPCApi};
pub use client::BitcoinApi;
pub use error::{RpcError, RpcErrorCode};
pub use registry::Method;
