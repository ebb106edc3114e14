use alloy_primitives::{Address, B256};
use chain_sync::block::{Header, RecoveredBlock, SealedBlock, SealedHeader};
use chain_sync::chain::{Chain, ExecutionOutcome};
use chain_sync::evm::BlockExecutionResult;
use chain_sync::range::{after, empty_range};

fn block(number: u64) -> RecoveredBlock<u32> {
    let header = Header {
        parent_hash: B256::repeat_byte(1),
        number,
        gas_limit: 100,
        gas_used: 10 * number,
        timestamp: 0,
    };
    SealedBlock::new_sealed(SealedHeader::new(header, B256::repeat_byte(2)), vec![1, 2])
        .with_senders(vec![Address::ZERO, Address::ZERO])
}

fn result(gas_used: u64) -> BlockExecutionResult<u8> {
    BlockExecutionResult { receipts: vec![1], gas_used }
}

#[test]
fn block_parts_round_trip() {
    let whole = block(4);
    assert_eq!(whole.number(), 4);
    assert_eq!(whole.gas_used(), 40);
    assert_eq!(whole.hash(), B256::repeat_byte(2));
    assert_eq!(whole.header().parent_hash, B256::repeat_byte(1));
    assert_eq!(whole.sealed_block().sealed_header().parent_hash(), B256::repeat_byte(1));
    assert_eq!(whole.sealed_block().sealed_header().gas_used(), 40);
    assert_eq!(whole.senders().len(), 2);
    let (sealed, senders) = whole.clone().split_sealed();
    let (header, body) = sealed.split_sealed_header_body();
    assert_eq!(header.number(), 4);
    assert_eq!(header.hash(), B256::repeat_byte(2));
    assert_eq!(body, vec![1, 2]);
    assert_eq!(SealedBlock::new_sealed(header, body).with_senders(senders), whole);
}

#[test]
fn chain_finds_blocks_by_number() {
    let outcome = ExecutionOutcome::from_blocks(5, "bundle", vec![result(50), result(60), result(70)]);
    assert_eq!(outcome.len(), 3);
    assert!(!outcome.is_empty());
    assert_eq!(outcome.result_of(4), None);
    assert_eq!(outcome.result_of(5), Some(&result(50)));
    assert_eq!(outcome.result_of(7), Some(&result(70)));
    assert_eq!(outcome.result_of(8), None);

    let chain = Chain::new(vec![block(5), block(6), block(7)], outcome.clone());
    assert_eq!(chain.len(), 3);
    assert_eq!(chain.first(), &block(5));
    assert_eq!(chain.tip(), &block(7));
    assert_eq!(chain.block(4), None);
    assert_eq!(chain.block(6), Some(&block(6)));
    assert_eq!(chain.block(8), None);
    assert_eq!(chain.block(u64::MAX), None);
    assert_eq!(chain.execution_outcome(), &outcome);
    let (blocks, parts) = chain.into_inner();
    assert_eq!(blocks.len(), 3);
    assert_eq!(parts.bundle, "bundle");

    // Blocks and results make a segment only if they fit.
    let fits = |blocks: Vec<RecoveredBlock<u32>>, first: u64, results: usize| -> bool {
        let results = (0..results).map(|_| result(1)).collect();
        Chain::try_new(blocks, ExecutionOutcome::from_blocks(first, (), results)).is_some()
    };
    assert!(fits(vec![block(5), block(6)], 5, 2));
    assert!(fits(vec![block(u64::MAX)], u64::MAX, 1));
    assert!(!fits(vec![], 5, 0));
    assert!(!fits(vec![block(5), block(6)], 5, 1));
    assert!(!fits(vec![block(5), block(6)], 4, 2));
    assert!(!fits(vec![block(5), block(7)], 5, 2));
    assert!(!fits(vec![block(6), block(5)], 5, 2));
    assert!(!fits(vec![block(u64::MAX), block(0)], u64::MAX, 2));

    let empty: ExecutionOutcome<u8, ()> = ExecutionOutcome::from_blocks(0, (), vec![]);
    assert!(empty.is_empty());
    assert_eq!(empty.result_of(0), None);
}

#[test]
fn rest_of_a_range() {
    assert_eq!(after(4, 9), 5..=9);
    assert_eq!(after(9, 9), 10..=9);
    assert!(after(9, 9).is_empty());
    assert!(after(u64::MAX, u64::MAX).is_empty());
    assert_eq!(after(u64::MAX - 1, u64::MAX), u64::MAX..=u64::MAX);
    assert!(empty_range().is_empty());
}
