//! Block identifiers.
//!
//! The identifiers are those of `alloy_eips`: plain data, all of whose
//! fields are public, so that they are built and compared here as they
//! are. The two conversions that this crate calls are specified below as
//! their source has them.
use alloy_eips::{BlockId, BlockNumberOrTag, RpcBlockHash};
use alloy_primitives::B256;
use vstd::prelude::*;

verus! {

/// `alloy_eips::BlockNumberOrTag`: a block number, or one of the tags
/// "latest", "finalized", "safe", "earliest" and "pending".
#[verifier::external_type_specification]
pub struct ExBlockNumberOrTag(BlockNumberOrTag);

/// `alloy_eips::RpcBlockHash`: a block hash, and whether the block has to
/// be canonical.
#[verifier::external_type_specification]
pub struct ExRpcBlockHash(RpcBlockHash);

/// `alloy_eips::BlockId`: a block by its hash, or by its number or tag.
#[verifier::external_type_specification]
pub struct ExBlockId(BlockId);

/// `From<BlockNumberOrTag> for BlockId`: the identifier that holds the
/// number or tag.
pub assume_specification[ <BlockId as From<BlockNumberOrTag>>::from ](num: BlockNumberOrTag) -> (id:
    BlockId)
    ensures
        id == BlockId::Number(num),
;

/// `From<B256> for RpcBlockHash`: the hash, with nothing said on whether
/// the block has to be canonical.
pub assume_specification[ <RpcBlockHash as From<B256>>::from ](value: B256) -> (hash: RpcBlockHash)
    ensures
        hash == (RpcBlockHash { block_hash: value, require_canonical: None }),
;

} // verus!
