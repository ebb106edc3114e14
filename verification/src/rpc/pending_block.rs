//! The pending block: the block that is being built on top of the latest.
use crate::block::{RecoveredBlock, SealedHeader};
use alloy_eips::{BlockId, BlockNumberOrTag, RpcBlockHash};
use alloy_primitives::B256;
use std::sync::Arc;
use std::time::Instant;
use vstd::prelude::*;

verus! {

/// The environment that a pending block is built in, and where it comes
/// from.
#[derive(Debug, Clone)]
pub struct PendingBlockEnv<T, R, Env> {
    /// The environment of the EVM for the pending block.
    pub evm_env: Env,
    /// Where the environment comes from.
    pub origin: PendingBlockEnvOrigin<T, R>,
}

impl<T, R, Env> PendingBlockEnv<T, R, Env> {
    /// Puts an environment and its origin together.
    pub fn new(evm_env: Env, origin: PendingBlockEnvOrigin<T, R>) -> (env: Self)
        ensures
            env.evm_env == evm_env,
            env.origin == origin,
    {
        PendingBlockEnv { evm_env, origin }
    }
}

/// Where the environment of a pending block comes from.
#[derive(Debug, Clone)]
pub enum PendingBlockEnvOrigin<T, R> {
    /// The pending block as the consensus layer sent it, with its
    /// receipts.
    ActualPending(Arc<RecoveredBlock<T>>, Arc<Vec<R>>),
    /// The header of the latest block. The pending block is derived from
    /// it: a later timestamp, the next number, other fees.
    DerivedFromLatest(SealedHeader),
}

impl<T, R> PendingBlockEnvOrigin<T, R> {
    /// Whether the origin is the pending block as the consensus layer sent
    /// it.
    pub fn is_actual_pending(&self) -> (actual: bool)
        ensures
            actual == self is ActualPending,
    {
        match self {
            PendingBlockEnvOrigin::ActualPending(_, _) => true,
            PendingBlockEnvOrigin::DerivedFromLatest(_) => false,
        }
    }

    /// Gives up the origin for the pending block, where it holds one.
    pub fn into_actual_pending(self) -> (block: Option<Arc<RecoveredBlock<T>>>)
        ensures
            block == (match self {
                PendingBlockEnvOrigin::ActualPending(pending, _) => Some(pending),
                PendingBlockEnvOrigin::DerivedFromLatest(_) => None,
            }),
    {
        match self {
            PendingBlockEnvOrigin::ActualPending(block, _) => Some(block),
            PendingBlockEnvOrigin::DerivedFromLatest(_) => None,
        }
    }

    /// The identifier of the block whose state the pending block starts
    /// from: the tag "pending" for a pending block as it was sent, and the
    /// hash of the latest block for one that is derived from it.
    pub fn state_block_id(&self) -> (id: BlockId)
        ensures
            id == (match *self {
                PendingBlockEnvOrigin::ActualPending(_, _) => BlockId::Number(
                    BlockNumberOrTag::Pending,
                ),
                PendingBlockEnvOrigin::DerivedFromLatest(latest) => BlockId::Hash(
                    RpcBlockHash { block_hash: latest.spec_hash(), require_canonical: None },
                ),
            }),
    {
        match self {
            PendingBlockEnvOrigin::ActualPending(_, _) => BlockId::from(BlockNumberOrTag::Pending),
            PendingBlockEnvOrigin::DerivedFromLatest(latest) => BlockId::Hash(
                RpcBlockHash::from(latest.hash()),
            ),
        }
    }

    /// The hash of the block that the pending block is built on: the
    /// parent of a pending block as it was sent, and the latest block
    /// itself for one that is derived from it.
    pub fn build_target_hash(&self) -> (hash: B256)
        ensures
            hash == (match *self {
                PendingBlockEnvOrigin::ActualPending(block, _) => block.spec_header().parent_hash,
                PendingBlockEnvOrigin::DerivedFromLatest(latest) => latest.spec_hash(),
            }),
    {
        match self {
            PendingBlockEnvOrigin::ActualPending(block, _) => block.header().parent_hash,
            PendingBlockEnvOrigin::DerivedFromLatest(latest) => latest.hash(),
        }
    }
}

/// A pending block that was built here, for the tag "pending".
#[derive(Debug)]
pub struct PendingBlock<T, R> {
    /// When the block counts as outdated.
    pub expires_at: Instant,
    /// The block.
    pub block: Arc<RecoveredBlock<T>>,
    /// The receipts of the block.
    pub receipts: Arc<Vec<R>>,
}

impl<T, R> PendingBlock<T, R> {
    /// Puts a pending block together.
    pub fn new(expires_at: Instant, block: Arc<RecoveredBlock<T>>, receipts: Arc<Vec<R>>) -> (pending:
        Self)
        ensures
            pending.expires_at == expires_at,
            pending.block == block,
            pending.receipts == receipts,
    {
        PendingBlock { expires_at, block, receipts }
    }
}

} // verus!
