//! Sealed blocks and blocks with recovered senders.

use alloy_primitives::{Address, B256};
use vstd::prelude::*;

verus! {

/// What the core reads of a block header.
#[derive(Debug, Clone, PartialEq, Eq)]
pub struct Header {
    /// The hash of the parent block's header.
    pub parent_hash: B256,
    /// The block's number: the count of its ancestors.
    pub number: u64,
    /// The most gas that the block's transactions may use together.
    pub gas_limit: u64,
    /// The gas that the block's transactions used together.
    pub gas_used: u64,
    /// Seconds since the Unix epoch at which the block was made.
    pub timestamp: u64,
}

/// A header together with its hash. Once made it is not changed, so the hash
/// is never computed twice.
#[derive(Debug, Clone, PartialEq, Eq)]
pub struct SealedHeader {
    header: Header,
    hash: B256,
}

impl SealedHeader {
    /// The header under the seal.
    pub closed spec fn spec_header(&self) -> Header {
        self.header
    }

    /// The hash under the seal.
    pub closed spec fn spec_hash(&self) -> B256 {
        self.hash
    }

    /// Seals `header` with the hash that the caller has computed for it.
    pub fn new(header: Header, hash: B256) -> (sealed: Self)
        ensures
            sealed.spec_header() == header,
            sealed.spec_hash() == hash,
    {
        SealedHeader { header, hash }
    }

    /// The header.
    pub fn header(&self) -> (header: &Header)
        ensures
            *header == self.spec_header(),
    {
        &self.header
    }

    /// The header's hash.
    pub fn hash(&self) -> (hash: B256)
        ensures
            hash == self.spec_hash(),
    {
        self.hash
    }

    /// The hash of the parent header.
    pub fn parent_hash(&self) -> (hash: B256)
        ensures
            hash == self.spec_header().parent_hash,
    {
        self.header.parent_hash
    }

    /// The block number.
    pub fn number(&self) -> (number: u64)
        ensures
            number == self.spec_header().number,
    {
        self.header.number
    }

    /// The gas that the block used.
    pub fn gas_used(&self) -> (gas: u64)
        ensures
            gas == self.spec_header().gas_used,
    {
        self.header.gas_used
    }
}

/// A sealed header with the block's transactions.
#[derive(Debug, Clone, PartialEq, Eq)]
pub struct SealedBlock<T> {
    header: SealedHeader,
    body: Vec<T>,
}

impl<T> SealedBlock<T> {
    /// The sealed header of the block.
    pub closed spec fn spec_sealed_header(&self) -> SealedHeader {
        self.header
    }

    /// The transactions of the block, in order.
    pub closed spec fn spec_body(&self) -> Vec<T> {
        self.body
    }

    /// Puts a sealed header and a body together.
    pub fn new_sealed(header: SealedHeader, body: Vec<T>) -> (block: Self)
        ensures
            block.spec_sealed_header() == header,
            block.spec_body() == body,
    {
        SealedBlock { header, body }
    }

    /// Takes the block apart into its sealed header and its body.
    pub fn split_sealed_header_body(self) -> (parts: (SealedHeader, Vec<T>))
        ensures
            parts.0 == self.spec_sealed_header(),
            parts.1 == self.spec_body(),
    {
        (self.header, self.body)
    }

    /// Pairs the block with the senders of its transactions.
    pub fn with_senders(self, senders: Vec<Address>) -> (block: RecoveredBlock<T>)
        ensures
            block.spec_sealed_block() == self,
            block.spec_senders() == senders,
    {
        RecoveredBlock { block: self, senders }
    }

    /// A sealed block is no more than its header and its body: two sealed
    /// blocks that agree on both are the same.
    pub proof fn lemma_same_parts(self, other: Self)
        requires
            self.spec_sealed_header() == other.spec_sealed_header(),
            self.spec_body() == other.spec_body(),
        ensures
            self == other,
    {
    }

    /// The sealed header.
    pub fn sealed_header(&self) -> (header: &SealedHeader)
        ensures
            *header == self.spec_sealed_header(),
    {
        &self.header
    }

    /// The transactions.
    pub fn body(&self) -> (body: &Vec<T>)
        ensures
            *body == self.spec_body(),
    {
        &self.body
    }
}

/// A sealed block with the sender of each transaction, recovered from the
/// signatures.
#[derive(Debug, Clone, PartialEq, Eq)]
pub struct RecoveredBlock<T> {
    block: SealedBlock<T>,
    senders: Vec<Address>,
}

impl<T> RecoveredBlock<T> {
    /// The sealed block.
    pub closed spec fn spec_sealed_block(&self) -> SealedBlock<T> {
        self.block
    }

    /// The senders of the transactions, in the order of the transactions.
    pub closed spec fn spec_senders(&self) -> Vec<Address> {
        self.senders
    }

    /// The header of the block.
    pub open spec fn spec_header(&self) -> Header {
        self.spec_sealed_block().spec_sealed_header().spec_header()
    }

    /// The hash of the block.
    pub open spec fn spec_hash(&self) -> B256 {
        self.spec_sealed_block().spec_sealed_header().spec_hash()
    }

    /// The gas that the block used.
    pub open spec fn spec_gas_used(&self) -> u64 {
        self.spec_header().gas_used
    }

    /// Takes the block apart into the sealed block and the senders.
    pub fn split_sealed(self) -> (parts: (SealedBlock<T>, Vec<Address>))
        ensures
            parts.0 == self.spec_sealed_block(),
            parts.1 == self.spec_senders(),
    {
        (self.block, self.senders)
    }

    /// The sealed block.
    pub fn sealed_block(&self) -> (block: &SealedBlock<T>)
        ensures
            *block == self.spec_sealed_block(),
    {
        &self.block
    }

    /// The senders.
    pub fn senders(&self) -> (senders: &Vec<Address>)
        ensures
            *senders == self.spec_senders(),
    {
        &self.senders
    }

    /// The header of the block.
    pub fn header(&self) -> (header: &Header)
        ensures
            *header == self.spec_header(),
    {
        self.block.header.header()
    }

    /// The hash of the block.
    pub fn hash(&self) -> (hash: B256)
        ensures
            hash == self.spec_hash(),
    {
        self.block.header.hash()
    }

    /// The block number.
    pub fn number(&self) -> (number: u64)
        ensures
            number == self.spec_header().number,
    {
        self.block.header.number()
    }

    /// The gas that the block used.
    pub fn gas_used(&self) -> (gas: u64)
        ensures
            gas == self.spec_gas_used(),
    {
        self.block.header.gas_used()
    }

    /// A block is no more than its sealed block and its senders: two blocks
    /// that agree on both are the same block.
    pub proof fn lemma_same_parts(self, other: Self)
        requires
            self.spec_sealed_block() == other.spec_sealed_block(),
            self.spec_senders() == other.spec_senders(),
        ensures
            self == other,
    {
    }
}

/// How much of each transaction a block lookup has to bring.
#[derive(Debug, Clone, Copy, PartialEq, Eq, Structural)]
pub enum TransactionVariant {
    /// The transactions without their hashes.
    NoHash,
    /// The transactions with their hashes.
    WithHash,
}

} // verus!
