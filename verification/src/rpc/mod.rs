//! Helper types of the RPC side of a node.
pub mod block_id;
pub mod pending_block;
pub mod auth;
