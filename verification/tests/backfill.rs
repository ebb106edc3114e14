use alloy_primitives::{Address, B256};
use chain_sync::backfill::factory::BackfillJobFactory;
use chain_sync::block::{Header, RecoveredBlock, SealedBlock, SealedHeader, TransactionVariant};
use chain_sync::error::{BackfillError, BlockExecutionError, DegenerateThresholds, ProviderError};
use chain_sync::prune::{PruneMode, PruneModes};
use std::time::Duration;
use chain_sync::evm::{BlockExecutionOutput, BlockExecutionResult, ConfigureEvm, Executor};
use chain_sync::provider::{BlockReader, StateProviderFactory};
use chain_sync::thresholds::ExecutionStageThresholds;
use chain_sync::transaction::InMemorySize;
use std::collections::BTreeMap;

/// A transfer of `value` from one account to another; it costs `gas`.
#[derive(Debug, Clone, PartialEq, Eq, Hash)]
struct Transfer {
    from: u8,
    to: u8,
    value: u64,
    gas: u64,
}

impl InMemorySize for Transfer {
    fn size(&self) -> usize {
        std::mem::size_of::<Transfer>()
    }
}

/// What a transfer left behind.
#[derive(Debug, Clone, PartialEq, Eq)]
struct Receipt {
    cumulative_gas: u64,
}

/// The balance of each account.
type Balances = BTreeMap<u8, u64>;

fn apply(balances: &Balances, block: &RecoveredBlock<Transfer>) -> Result<(Balances, Vec<Receipt>), BlockExecutionError> {
    let mut next = balances.clone();
    let mut receipts = Vec::new();
    let mut gas = 0u64;
    for tx in block.sealed_block().body() {
        let have = next.get(&tx.from).copied().unwrap_or(0);
        if have < tx.value {
            return Err(BlockExecutionError::Validation(format!("account {} is short", tx.from)));
        }
        next.insert(tx.from, have - tx.value);
        let got = next.get(&tx.to).copied().unwrap_or(0);
        next.insert(tx.to, got + tx.value);
        gas += tx.gas;
        receipts.push(Receipt { cumulative_gas: gas });
    }
    Ok((next, receipts))
}

/// An executor over a snapshot of balances. The bundle is the balance of
/// each account that a block has touched.
#[derive(Debug, Clone, PartialEq, Eq)]
struct LedgerExecutor {
    base: Balances,
    changed: Balances,
}

impl LedgerExecutor {
    fn current(&self) -> Balances {
        let mut all = self.base.clone();
        for (account, balance) in &self.changed {
            all.insert(*account, *balance);
        }
        all
    }
}

impl Executor<Transfer> for LedgerExecutor {
    type Receipt = Receipt;
    type Bundle = Balances;

    fn spec_execute_one(&self, block: &RecoveredBlock<Transfer>) -> Result<BlockExecutionResult<Receipt>, BlockExecutionError> {
        let (_, receipts) = apply(&self.current(), block)?;
        let gas_used = receipts.last().map(|r| r.cumulative_gas).unwrap_or(0);
        Ok(BlockExecutionResult { receipts, gas_used })
    }

    fn spec_after(&self, block: &RecoveredBlock<Transfer>) -> Self {
        let mut after = self.clone();
        if let Ok((next, _)) = apply(&self.current(), block) {
            for tx in block.sealed_block().body() {
                after.changed.insert(tx.from, next[&tx.from]);
                after.changed.insert(tx.to, next[&tx.to]);
            }
        }
        after
    }

    fn spec_size_hint(&self) -> usize {
        self.changed.len()
    }

    fn spec_into_state(&self) -> Balances {
        self.changed.clone()
    }

    fn execute_one(&mut self, block: &RecoveredBlock<Transfer>) -> Result<BlockExecutionResult<Receipt>, BlockExecutionError> {
        let result = self.spec_execute_one(block)?;
        *self = self.spec_after(block);
        Ok(result)
    }

    fn size_hint(&self) -> usize {
        self.spec_size_hint()
    }

    fn into_state(self) -> Balances {
        self.spec_into_state()
    }
}

#[derive(Debug, Clone, PartialEq, Eq)]
struct LedgerEvm;

impl ConfigureEvm<Balances, Transfer> for LedgerEvm {
    type Executor = LedgerExecutor;

    fn spec_batch_executor(&self, db: Balances) -> LedgerExecutor {
        LedgerExecutor { base: db, changed: Balances::new() }
    }

    fn batch_executor(&self, db: Balances) -> LedgerExecutor {
        self.spec_batch_executor(db)
    }
}

/// A chain held in memory: the balances at genesis and the blocks from
/// number 1 on. A block can be hidden to stand for a gap.
#[derive(Debug, Clone, PartialEq, Eq)]
struct Ledger {
    genesis: Balances,
    blocks: Vec<RecoveredBlock<Transfer>>,
    hidden: Option<u64>,
    no_state_at: Option<u64>,
}

impl BlockReader for Ledger {
    type Transaction = Transfer;

    fn spec_block(&self, number: u64) -> Result<Option<RecoveredBlock<Transfer>>, ProviderError> {
        if self.hidden == Some(number) || number == 0 {
            return Ok(None);
        }
        Ok(self.blocks.get(number as usize - 1).cloned())
    }

    fn sealed_block_with_senders(&self, number: u64, _variant: TransactionVariant) -> Result<Option<RecoveredBlock<Transfer>>, ProviderError> {
        self.spec_block(number)
    }

    fn recovered_block(&self, number: u64, _variant: TransactionVariant) -> Result<Option<RecoveredBlock<Transfer>>, ProviderError> {
        self.spec_block(number)
    }
}

impl StateProviderFactory for Ledger {
    type Snapshot = Balances;

    fn spec_history(&self, number: u64) -> Result<Balances, ProviderError> {
        if self.no_state_at == Some(number) {
            return Err(ProviderError::StateAtBlockPruned(number));
        }
        let mut balances = self.genesis.clone();
        for block in self.blocks.iter().take(number as usize) {
            match apply(&balances, block) {
                Ok((next, _)) => balances = next,
                Err(_) => return Err(ProviderError::StateForNumberNotFound(number)),
            }
        }
        Ok(balances)
    }

    fn history_by_block_number(&self, number: u64) -> Result<Balances, ProviderError> {
        self.spec_history(number)
    }
}

fn block(number: u64, transfers: Vec<Transfer>) -> RecoveredBlock<Transfer> {
    let gas_used = transfers.iter().map(|t| t.gas).sum();
    let header = Header {
        parent_hash: B256::repeat_byte(number as u8),
        number,
        gas_limit: 30_000_000,
        gas_used,
        timestamp: 1_700_000_000 + 12 * number,
    };
    let senders = transfers.iter().map(|t| Address::repeat_byte(t.from)).collect();
    let sealed = SealedHeader::new(header, B256::repeat_byte(number as u8 + 1));
    SealedBlock::new_sealed(sealed, transfers).with_senders(senders)
}

fn transfer(from: u8, to: u8, value: u64) -> Transfer {
    Transfer { from, to, value, gas: 21_000 }
}

/// One funded sender and two blocks.
fn ledger() -> Ledger {
    let mut genesis = Balances::new();
    genesis.insert(1, 1_000);
    Ledger {
        genesis,
        blocks: vec![
            block(1, vec![transfer(1, 2, 100)]),
            block(2, vec![transfer(1, 3, 50), transfer(2, 3, 30)]),
        ],
        hidden: None,
        no_state_at: None,
    }
}

fn unbounded(factory: BackfillJobFactory<LedgerEvm, Ledger>) -> BackfillJobFactory<LedgerEvm, Ledger> {
    factory.with_thresholds(ExecutionStageThresholds::unbounded()).unwrap()
}

fn balances(entries: &[(u8, u64)]) -> Balances {
    entries.iter().copied().collect()
}

#[test]
fn test_backfill() {
    let ledger = ledger();
    let block1 = ledger.blocks[0].clone();

    // The first block, executed directly.
    let executor = LedgerEvm.batch_executor(ledger.history_by_block_number(0).unwrap());
    let expected = chain_sync::evm::execute(executor, &block1).unwrap();

    let factory = BackfillJobFactory::new(LedgerEvm, ledger);
    let mut job = factory.backfill(1..=1);
    let mut chains = Vec::new();
    while let Some(chain) = job.next() {
        chains.push(chain.unwrap());
    }

    assert_eq!(chains.len(), 1);
    let chain = chains.into_iter().next().unwrap();
    assert_eq!(chain.blocks(), &vec![block1]);
    assert_eq!(chain.execution_outcome().first_block, 1);
    assert_eq!(chain.execution_outcome().results, vec![expected.result]);
    assert_eq!(chain.execution_outcome().bundle, expected.state);
    assert_eq!(chain.execution_outcome().bundle, balances(&[(1, 900), (2, 100)]));
}

#[test]
fn test_single_block_backfill() {
    let ledger = ledger();
    let block1 = ledger.blocks[0].clone();
    let executor = LedgerEvm.batch_executor(ledger.history_by_block_number(0).unwrap());
    let expected = chain_sync::evm::execute(executor, &block1).unwrap();

    let factory = BackfillJobFactory::new(LedgerEvm, ledger);
    let job = factory.backfill(1..=1);
    let mut single_job = job.into_single_blocks();

    let mut blocks_and_outputs = Vec::new();
    while let Some(item) = single_job.next() {
        blocks_and_outputs.push(item);
    }
    assert_eq!(blocks_and_outputs.len(), 1);

    for res in blocks_and_outputs {
        let (block, output) = res.unwrap();
        assert_eq!(block, block1);
        assert_eq!(output, expected);
        assert_eq!(
            output,
            BlockExecutionOutput {
                result: BlockExecutionResult {
                    receipts: vec![Receipt { cumulative_gas: 21_000 }],
                    gas_used: 21_000,
                },
                state: balances(&[(1, 900), (2, 100)]),
            }
        );
    }
}

#[test]
fn test_backfill_with_batch_threshold() {
    let ledger = ledger();
    let block1 = ledger.blocks[0].clone();
    let block2 = ledger.blocks[1].clone();
    let output1 = chain_sync::evm::execute(
        LedgerEvm.batch_executor(ledger.history_by_block_number(0).unwrap()),
        &block1,
    )
    .unwrap();
    let output2 = chain_sync::evm::execute(
        LedgerEvm.batch_executor(ledger.history_by_block_number(1).unwrap()),
        &block2,
    )
    .unwrap();

    // With at most one block in a batch, two segments come out.
    let factory = BackfillJobFactory::new(LedgerEvm, ledger)
        .with_thresholds(ExecutionStageThresholds { max_blocks: Some(1), ..Default::default() })
        .unwrap();
    let mut job = factory.backfill(1..=2);
    let mut chains = Vec::new();
    while let Some(chain) = job.next() {
        chains.push(chain.unwrap());
    }

    assert_eq!(chains.len(), 2);

    let chain1 = chains[0].clone();
    assert_eq!(chain1.blocks(), &vec![block1]);
    assert_eq!(chain1.execution_outcome().first_block, 1);
    assert_eq!(chain1.execution_outcome().results, vec![output1.result]);
    assert_eq!(chain1.execution_outcome().bundle, output1.state);

    let chain2 = chains[1].clone();
    assert_eq!(chain2.blocks(), &vec![block2]);
    assert_eq!(chain2.execution_outcome().first_block, 2);
    assert_eq!(chain2.execution_outcome().results, vec![output2.result]);
    assert_eq!(chain2.execution_outcome().bundle, output2.state);
}

/// A longer chain: `count` blocks, each moving one unit from account 1 to
/// account 2.
fn long_ledger(count: u64) -> Ledger {
    let mut genesis = Balances::new();
    genesis.insert(1, 1_000_000);
    Ledger {
        genesis,
        blocks: (1..=count).map(|n| block(n, vec![transfer(1, 2, 1)])).collect(),
        hidden: None,
        no_state_at: None,
    }
}

fn thresholds(max_blocks: Option<u64>, max_changes: Option<u64>, max_gas: Option<u64>) -> ExecutionStageThresholds {
    ExecutionStageThresholds {
        max_blocks,
        max_changes,
        max_cumulative_gas: max_gas,
        max_duration: None,
    }
}

fn run(ledger: Ledger, limits: ExecutionStageThresholds, first: u64, last: u64) -> Vec<chain_sync::chain::Chain<Transfer, Receipt, Balances>> {
    BackfillJobFactory::new(LedgerEvm, ledger)
        .with_thresholds(limits)
        .unwrap()
        .backfill(first..=last)
        .collect()
        .unwrap()
}

#[test]
fn empty_range_yields_nothing() {
    let factory = unbounded(BackfillJobFactory::new(LedgerEvm, ledger()));
    let mut job = factory.backfill(2..=1);
    assert!(job.next().is_none());
    assert!(job.next().is_none());
    assert_eq!(factory.backfill(2..=1).collect().unwrap().len(), 0);
    let mut single = factory.backfill(5..=4).into_single_blocks();
    assert!(single.next().is_none());
}

#[test]
fn unbounded_job_yields_one_segment_with_both_blocks() {
    let ledger = ledger();
    let blocks = ledger.blocks.clone();
    let factory = unbounded(BackfillJobFactory::new(LedgerEvm, ledger));
    let mut job = factory.backfill(1..=2);
    let chain = job.next().unwrap().unwrap();
    assert!(job.next().is_none());
    assert_eq!(chain.blocks(), &blocks);
    assert_eq!(chain.len(), 2);
    assert_eq!(chain.execution_outcome().first_block, 1);
    assert_eq!(chain.execution_outcome().len(), 2);
    assert_eq!(chain.execution_outcome().results[0].gas_used, 21_000);
    assert_eq!(chain.execution_outcome().results[1].gas_used, 42_000);
    // 1 paid 100 and 50, 2 got 100 and paid 30, 3 got 50 and 30.
    assert_eq!(chain.execution_outcome().bundle, balances(&[(1, 850), (2, 70), (3, 80)]));
}

#[test]
fn batches_concatenate_to_the_unbounded_segment() {
    let ledger = ledger();
    let whole = run(ledger.clone(), ExecutionStageThresholds::unbounded(), 1, 2);
    let pieces = run(ledger, thresholds(Some(1), None, None), 1, 2);

    assert_eq!(whole.len(), 1);
    assert_eq!(pieces.len(), 2);

    let mut blocks = Vec::new();
    let mut results = Vec::new();
    for piece in &pieces {
        assert_eq!(piece.len(), 1);
        blocks.extend(piece.blocks().iter().cloned());
        results.extend(piece.execution_outcome().results.iter().cloned());
    }
    assert_eq!(&blocks, whole[0].blocks());
    assert_eq!(results, whole[0].execution_outcome().results);

    // Ascending order, each batch starting where the one before ended.
    assert_eq!(pieces[0].execution_outcome().first_block, 1);
    assert_eq!(pieces[1].execution_outcome().first_block, 2);
    assert_eq!(pieces[0].first().number(), 1);
    assert_eq!(pieces[1].tip().number(), 2);
}

#[test]
fn batching_changes_grouping_only() {
    let ledger = long_ledger(10);
    let whole = run(ledger.clone(), ExecutionStageThresholds::unbounded(), 1, 10);
    assert_eq!(whole.len(), 1);
    assert_eq!(whole[0].len(), 10);

    for limits in [
        thresholds(Some(1), None, None),
        thresholds(Some(3), None, None),
        thresholds(Some(4), None, Some(50_000)),
        thresholds(None, None, Some(63_000)),
        thresholds(None, Some(1), None),
        thresholds(Some(100), None, None),
    ] {
        let pieces = run(ledger.clone(), limits, 1, 10);
        let blocks: Vec<_> = pieces.iter().flat_map(|c| c.blocks().iter().cloned()).collect();
        let results: Vec<_> = pieces
            .iter()
            .flat_map(|c| c.execution_outcome().results.iter().cloned())
            .collect();
        assert_eq!(&blocks, whole[0].blocks());
        assert_eq!(results, whole[0].execution_outcome().results);

        // The state that the last batch leaves is the state that the one
        // batch leaves: the snapshot of the last batch under its changes.
        let last = pieces.last().unwrap();
        let base = ledger.history_by_block_number(last.execution_outcome().first_block - 1).unwrap();
        let mut end = base.clone();
        for (account, balance) in &last.execution_outcome().bundle {
            end.insert(*account, *balance);
        }
        assert_eq!(end, balances(&[(1, 999_990), (2, 10)]));
        let mut whole_end = ledger.genesis.clone();
        for (account, balance) in &whole[0].execution_outcome().bundle {
            whole_end.insert(*account, *balance);
        }
        assert_eq!(end, whole_end);
    }
}

#[test]
fn batch_sizes_follow_the_limits() {
    let ledger = long_ledger(10);
    let sizes = |limits| -> Vec<usize> {
        run(ledger.clone(), limits, 1, 10).iter().map(|c| c.len()).collect()
    };
    assert_eq!(sizes(thresholds(Some(3), None, None)), vec![3, 3, 3, 1]);
    assert_eq!(sizes(thresholds(Some(10), None, None)), vec![10]);
    assert_eq!(sizes(thresholds(Some(11), None, None)), vec![10]);
    // Each block uses 21000 gas: the third block reaches 63000.
    assert_eq!(sizes(thresholds(None, None, Some(63_000))), vec![3, 3, 3, 1]);
    assert_eq!(sizes(thresholds(None, None, Some(63_001))), vec![4, 4, 2]);
    // A limit that the first block reaches still lets that block through.
    assert_eq!(sizes(thresholds(None, None, Some(1))), vec![1; 10]);
    // The executor holds two changed accounts after any block.
    assert_eq!(sizes(thresholds(None, Some(2), None)), vec![1; 10]);
    assert_eq!(sizes(thresholds(None, Some(3), None)), vec![10]);
    // The limit that is reached first ends the batch.
    assert_eq!(sizes(thresholds(Some(4), None, Some(63_000))), vec![3, 3, 3, 1]);
    assert_eq!(sizes(thresholds(Some(2), None, Some(63_000))), vec![2; 5]);
}

#[test]
fn single_and_batched_agree_block_by_block() {
    let ledger = long_ledger(6);
    let pieces = run(ledger.clone(), thresholds(Some(4), None, None), 1, 6);
    let results: Vec<_> = pieces
        .iter()
        .flat_map(|c| c.execution_outcome().results.iter().cloned())
        .collect();
    let blocks: Vec<_> = pieces.iter().flat_map(|c| c.blocks().iter().cloned()).collect();

    let singles = BackfillJobFactory::new(LedgerEvm, ledger)
        .backfill(1..=6)
        .into_single_blocks()
        .collect()
        .unwrap();
    assert_eq!(singles.len(), 6);
    for (i, (block, output)) in singles.into_iter().enumerate() {
        assert_eq!(block, blocks[i]);
        assert_eq!(output.result, results[i]);
        assert_eq!(output.state, balances(&[(1, 1_000_000 - 1 - i as u64), (2, 1 + i as u64)]));
    }
}

#[test]
fn failed_batch_leaves_the_range() {
    // Block 2 is missing.
    let mut ledger = long_ledger(3);
    ledger.hidden = Some(2);
    let factory = unbounded(BackfillJobFactory::new(LedgerEvm, ledger));

    // The batch from block 2 fails at its first block.
    let mut job = factory.backfill(2..=3);
    let expected = BackfillError {
        error: BlockExecutionError::Provider(ProviderError::HeaderNotFound(2)),
        block_number: 2,
        blocks_attempted: 0,
        cumulative_gas: 0,
    };
    assert_eq!(job.next(), Some(Err(expected.clone())));
    assert_eq!(job.range(), &(2..=3));
    // Trying again gives the same failure: nothing was taken off the range.
    assert_eq!(job.next(), Some(Err(expected)));
    assert_eq!(job.range(), &(2..=3));

    // The batch from block 1 fails at its second block, and block 1 is not
    // committed: the batch is all or nothing.
    let mut job = factory.backfill(1..=3);
    assert_eq!(
        job.next(),
        Some(Err(BackfillError {
            error: BlockExecutionError::Provider(ProviderError::HeaderNotFound(2)),
            block_number: 2,
            blocks_attempted: 1,
            cumulative_gas: 21_000,
        }))
    );
    assert_eq!(job.range(), &(1..=3));

    // With one block to a batch, block 1 is committed before block 2 fails.
    let factory = factory.with_thresholds(thresholds(Some(1), None, None)).unwrap();
    let mut job = factory.backfill(1..=3);
    assert_eq!(job.next().unwrap().unwrap().len(), 1);
    assert_eq!(job.range(), &(2..=3));
    assert!(job.next().unwrap().is_err());
    assert_eq!(job.range(), &(2..=3));
    assert!(factory.backfill(1..=3).collect().is_err());
}

#[test]
fn failed_single_block_leaves_the_range() {
    let mut ledger = long_ledger(3);
    ledger.hidden = Some(2);
    let mut job = BackfillJobFactory::new(LedgerEvm, ledger).backfill(1..=3).into_single_blocks();
    assert!(job.next().unwrap().is_ok());
    assert_eq!(job.range(), &(2..=3));
    let failure = job.next().unwrap().unwrap_err();
    assert_eq!(failure.error, BlockExecutionError::Provider(ProviderError::HeaderNotFound(2)));
    assert_eq!(failure.block_number, 2);
    assert_eq!(job.range(), &(2..=3));
    assert_eq!(job.execute_block(3).unwrap().0.number(), 3);
}

#[test]
fn missing_parent_state_is_fatal_to_the_batch() {
    let mut ledger = long_ledger(3);
    ledger.no_state_at = Some(1);
    let factory = unbounded(BackfillJobFactory::new(LedgerEvm, ledger));
    let mut job = factory.backfill(2..=3);
    assert_eq!(
        job.next(),
        Some(Err(BackfillError {
            error: BlockExecutionError::Provider(ProviderError::StateAtBlockPruned(1)),
            block_number: 2,
            blocks_attempted: 0,
            cumulative_gas: 0,
        }))
    );
    assert_eq!(job.range(), &(2..=3));
    // A batch from block 1 reads the state of block 0 only.
    assert_eq!(factory.backfill(1..=3).collect().unwrap().len(), 1);

    // A single block is fetched before its state is.
    let failure = factory.backfill(2..=2).into_single_blocks().next().unwrap().unwrap_err();
    assert_eq!(failure.error, BlockExecutionError::Provider(ProviderError::StateAtBlockPruned(1)));
    assert_eq!(failure.blocks_attempted, 0);
    assert_eq!(failure.cumulative_gas, 21_000);
}

#[test]
fn execution_failure_reports_block_and_statistics() {
    // Account 9 has nothing to give in block 3.
    let mut ledger = long_ledger(2);
    ledger.blocks.push(block(3, vec![transfer(9, 1, 5)]));
    let factory = unbounded(BackfillJobFactory::new(LedgerEvm, ledger));
    let mut job = factory.backfill(1..=3);
    assert_eq!(
        job.next(),
        Some(Err(BackfillError {
            error: BlockExecutionError::Validation("account 9 is short".to_string()),
            block_number: 3,
            blocks_attempted: 3,
            cumulative_gas: 63_000,
        }))
    );
    assert_eq!(job.range(), &(1..=3));

    let failure = factory.backfill(3..=3).into_single_blocks().next().unwrap().unwrap_err();
    assert_eq!(failure.blocks_attempted, 1);
    assert_eq!(failure.cumulative_gas, 21_000);
    assert_eq!(failure.block_number, 3);
}

#[test]
fn block_with_the_wrong_number_is_refused() {
    let mut ledger = long_ledger(3);
    ledger.blocks[1] = block(7, vec![transfer(1, 2, 1)]);
    let factory = unbounded(BackfillJobFactory::new(LedgerEvm, ledger));
    let mut job = factory.backfill(1..=3);
    assert_eq!(
        job.next(),
        Some(Err(BackfillError {
            error: BlockExecutionError::Provider(ProviderError::UnexpectedBlock { requested: 2, found: 7 }),
            block_number: 2,
            blocks_attempted: 1,
            cumulative_gas: 21_000,
        }))
    );
    let failure = factory.backfill(2..=2).into_single_blocks().next().unwrap().unwrap_err();
    assert_eq!(
        failure.error,
        BlockExecutionError::Provider(ProviderError::UnexpectedBlock { requested: 2, found: 7 })
    );
}

#[test]
fn cumulative_gas_is_capped() {
    let mut ledger = long_ledger(0);
    let mut heavy = transfer(1, 2, 1);
    heavy.gas = u64::MAX - 10;
    ledger.blocks.push(block(1, vec![heavy.clone()]));
    ledger.blocks.push(block(2, vec![Transfer { gas: 100, ..heavy }]));
    ledger.blocks.push(block(3, vec![transfer(9, 1, 5)]));
    let factory = unbounded(BackfillJobFactory::new(LedgerEvm, ledger));
    let failure = factory.backfill(1..=3).next().unwrap().unwrap_err();
    assert_eq!(failure.block_number, 3);
    assert_eq!(failure.cumulative_gas, u64::MAX);
}

#[test]
fn job_over_the_last_block_number_ends() {
    // No block is stored that high: the job fails and keeps its range.
    let factory = unbounded(BackfillJobFactory::new(LedgerEvm, long_ledger(1)));
    let mut job = factory.backfill(u64::MAX..=u64::MAX);
    let failure = job.next().unwrap().unwrap_err();
    assert_eq!(failure.block_number, u64::MAX);
    assert_eq!(job.range(), &(u64::MAX..=u64::MAX));
}

#[test]
fn conversions_carry_the_remaining_range() {
    let factory = BackfillJobFactory::new(LedgerEvm, long_ledger(5))
        .with_thresholds(thresholds(Some(2), None, None))
        .unwrap();
    let mut job = factory.backfill(1..=5);
    assert_eq!(job.next().unwrap().unwrap().len(), 2);
    let mut single = job.into_single_blocks();
    assert_eq!(single.range(), &(3..=5));
    let (block, _) = single.next().unwrap().unwrap();
    assert_eq!(block.number(), 3);
    let rest = single.collect().unwrap();
    assert_eq!(rest.iter().map(|(b, _)| b.number()).collect::<Vec<_>>(), vec![4, 5]);
}

#[test]
fn degenerate_thresholds_are_refused() {
    let factory = || BackfillJobFactory::new(LedgerEvm, ledger());
    assert_eq!(factory().with_thresholds(thresholds(Some(0), None, None)).err(), Some(DegenerateThresholds {}));
    assert_eq!(factory().with_thresholds(thresholds(None, Some(0), None)).err(), Some(DegenerateThresholds {}));
    assert_eq!(factory().with_thresholds(thresholds(None, None, Some(0))).err(), Some(DegenerateThresholds {}));
    let zero_time = ExecutionStageThresholds { max_duration: Some(Duration::ZERO), ..ExecutionStageThresholds::unbounded() };
    assert_eq!(factory().with_thresholds(zero_time).err(), Some(DegenerateThresholds {}));
    let some_time = ExecutionStageThresholds { max_duration: Some(Duration::from_nanos(1)), ..ExecutionStageThresholds::unbounded() };
    assert!(factory().with_thresholds(some_time).is_ok());
    assert!(factory().with_thresholds(thresholds(Some(1), Some(1), Some(1))).is_ok());
    assert!(thresholds(Some(1), None, None).is_non_degenerate());
    assert!(!thresholds(Some(0), None, None).is_non_degenerate());
    assert!(ExecutionStageThresholds::default().is_non_degenerate());
}

#[test]
fn time_limit_that_has_passed_ends_every_batch_after_one_block() {
    // Any time that has passed is at least one nanosecond... unless the
    // clock has not moved, in which case the batch goes on. Either way every
    // block is handed out once and in order.
    let limits = ExecutionStageThresholds { max_duration: Some(Duration::from_nanos(1)), ..ExecutionStageThresholds::unbounded() };
    let ledger = long_ledger(5);
    let pieces = run(ledger.clone(), limits, 1, 5);
    let blocks: Vec<_> = pieces.iter().flat_map(|c| c.blocks().iter().cloned()).collect();
    assert_eq!(blocks, ledger.blocks);
    assert!(pieces.iter().all(|c| c.len() >= 1));
}

#[test]
fn timed_batch_is_the_batch() {
    let factory = BackfillJobFactory::new(LedgerEvm, long_ledger(5))
        .with_thresholds(thresholds(Some(2), None, None))
        .unwrap();
    let mut plain = factory.backfill(1..=5);
    let mut timed = factory.backfill(1..=5);
    let mut batch = factory.backfill(1..=5);
    loop {
        let expected = plain.next();
        let (item, _) = timed.next_timed();
        assert_eq!(item, expected);
        assert_eq!(timed.range(), plain.range());
        if expected.is_none() {
            break;
        }
        let (result, _) = batch.execute_range();
        assert_eq!(Some(result), expected);
        assert_eq!(batch.range(), plain.range());
    }
    assert!(batch.range().is_empty());

    // The clock is read after the last block of the range as well: a time
    // limit does not change what a batch of one block gives.
    let limits = ExecutionStageThresholds {
        max_duration: Some(Duration::from_nanos(1)),
        ..ExecutionStageThresholds::unbounded()
    };
    let mut last = factory.with_thresholds(limits).unwrap().backfill(5..=5);
    assert_eq!(last.next().unwrap().unwrap().len(), 1);
    assert!(last.next().is_none());
}

#[test]
fn stream_hands_out_lookups_within_its_window() {
    let factory = BackfillJobFactory::new(LedgerEvm, long_ledger(10))
        .with_thresholds(thresholds(Some(2), None, None))
        .unwrap()
        .with_stream_parallelism(3);
    let mut stream = factory.backfill(1..=10).into_stream();
    assert_eq!(stream.window().parallelism, 3);
    assert_eq!(stream.next_lookup(), Some(1));
    assert_eq!(stream.next_lookup(), Some(2));
    assert_eq!(stream.next_lookup(), Some(3));
    // Three lookups are in flight.
    assert_eq!(stream.next_lookup(), None);
    assert!(stream.lookup_done());
    // Block 4 would be three blocks ahead of block 1.
    assert_eq!(stream.next_lookup(), None);
    assert_eq!(stream.next().unwrap().unwrap().len(), 2);
    assert_eq!(stream.job().range(), &(3..=10));
    assert_eq!(stream.next_lookup(), Some(4));
    assert_eq!(stream.next_lookup(), None);
    assert!(stream.lookup_done());
    assert!(stream.lookup_done());
    assert!(stream.lookup_done());
    assert!(!stream.lookup_done());
    assert_eq!(stream.next_lookup(), Some(5));

    // The stream hands out what the job hands out.
    let mut plain = factory.backfill(3..=10);
    loop {
        let from_stream = stream.next();
        let from_job = plain.next();
        assert_eq!(from_stream, from_job);
        if from_job.is_none() {
            break;
        }
    }
    assert_eq!(stream.next_lookup(), None);

    let mut singles = factory.backfill(9..=10).into_single_blocks().into_stream();
    assert_eq!(singles.next_lookup(), Some(9));
    assert_eq!(singles.next_lookup(), Some(10));
    assert_eq!(singles.next_lookup(), None);
    assert_eq!(singles.next().unwrap().unwrap().0.number(), 9);
    assert_eq!(singles.next().unwrap().unwrap().0.number(), 10);
    assert!(singles.next().is_none());
    let widened = singles.with_parallelism(8);
    assert_eq!(widened.window().parallelism, 8);
}

#[test]
fn factory_defaults() {
    let factory = BackfillJobFactory::new(LedgerEvm, ledger());
    let job = factory.backfill(1..=2);
    assert_eq!(job.range(), &(1..=2));
    assert_eq!(job.stream_parallelism(), 4);
    assert_eq!(job.prune_modes(), PruneModes::none());
    // The usual limits, but for the time: thirty seconds.
    assert_eq!(
        job.thresholds(),
        ExecutionStageThresholds {
            max_duration: Some(Duration::from_secs(30)),
            ..ExecutionStageThresholds::default()
        }
    );
    assert_eq!(job.into_stream().window().parallelism, 4);
    assert_eq!(
        ExecutionStageThresholds::default(),
        ExecutionStageThresholds {
            max_blocks: Some(500_000),
            max_changes: Some(5_000_000),
            max_cumulative_gas: Some(1_500_000_000_000),
            max_duration: Some(Duration::from_secs(600)),
        }
    );
    assert_eq!(PruneModes::none().receipts, None);
    let rules = PruneModes { receipts: Some(PruneMode::Distance(64)), ..PruneModes::none() };
    let pruned = factory.with_prune_modes(rules).with_stream_parallelism(9);
    assert_eq!(pruned.backfill(1..=1).prune_modes(), rules);
    assert_eq!(pruned.backfill(1..=1).stream_parallelism(), 9);
    assert_eq!(pruned.backfill(1..=1).collect().unwrap().len(), 1);
}

#[test]
fn end_of_batch_is_exact() {
    let limits = ExecutionStageThresholds {
        max_blocks: Some(10),
        max_changes: Some(20),
        max_cumulative_gas: Some(30),
        max_duration: Some(Duration::from_secs(40)),
    };
    let under = Duration::from_nanos(39_999_999_999);
    assert!(!limits.is_end_of_batch(9, 19, 29, under));
    assert!(limits.is_end_of_batch(10, 19, 29, under));
    assert!(limits.is_end_of_batch(9, 20, 29, under));
    assert!(limits.is_end_of_batch(9, 19, 30, under));
    assert!(limits.is_end_of_batch(9, 19, 29, Duration::from_secs(40)));
    assert!(limits.is_end_of_batch(11, 0, 0, Duration::ZERO));
    let none = ExecutionStageThresholds::unbounded();
    assert!(!none.is_end_of_batch(u64::MAX, u64::MAX, u64::MAX, Duration::MAX));
}
