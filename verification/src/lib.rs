//! Synchronisation core of an execution-layer client.
//!
//! The crate holds the two strategies that keep local chain state in step
//! with the network and the rules that choose between them:
//!
//! * [`backfill`]: replaying a contiguous range of historical blocks in
//!   batches and handing out committed chain segments;
//! * [`engine`]: the orchestrator that drives either live processing or
//!   backfill, never both, and the adapters it steers.
//!
//! State access, block lookup and block execution are capabilities that the
//! caller supplies ([`provider`], [`evm`]). [`rpc`] holds helper types of
//! the RPC side of a node. Every function here is verified against the
//! contract written on it; the few calls into other crates stand behind
//! items whose contracts are taken on trust, and say so.
pub mod primitives;
pub mod transaction;
pub mod block;
pub mod range;
pub mod clock;
pub mod thresholds;
pub mod error;
pub mod provider;
pub mod evm;
pub mod prune;
pub mod chain;
pub mod backfill;
pub mod engine;
pub mod rpc;
