//! End-to-end tests of the pending-block provider: environment derivation,
//! fork-gated assembly, fallback loading, and cross-checks of every
//! cryptographic commitment against the outside crates computing the
//! canonical values directly.

use op_pending_block::assemble::assemble_block;
use op_pending_block::env::{next_env_attributes, next_env_attributes_with};
use op_pending_block::forks::ChainForks;
use op_pending_block::model::{
    Address, Block, BlockBody, Bytes32, ExecEnv, ExecutionResult, Header, LogEntry, PendingBlock,
    Receipt, SealedHeader, SignedTx,
};
use op_pending_block::roots::{receipts_root_no_memo, transactions_root};
use op_pending_block::slot::PendingSlot;
use op_pending_block::store::{BlockId, ChainStore, LookupError, StoredBlock, local_pending_block};

use alloy_consensus::constants::{EMPTY_OMMER_ROOT_HASH, EMPTY_RECEIPTS, EMPTY_TRANSACTIONS, EMPTY_WITHDRAWALS};
use alloy_consensus::proofs::{calculate_receipt_root, calculate_transaction_root};
use alloy_consensus::{SignableTransaction, TxEnvelope, TxLegacy};
use alloy_eips::eip2718::Encodable2718;
use alloy_eips::eip7685::EMPTY_REQUESTS_HASH;
use alloy_primitives::{Bytes, Signature, TxKind, U256};
use op_alloy_consensus::{OpReceiptEnvelope, OpTxType};

fn word(b: u8) -> Bytes32 {
    Bytes32 { bytes: vec![b; 32] }
}

fn addr(b: u8) -> Address {
    Address { bytes: vec![b; 20] }
}

fn no_forks() -> ChainForks {
    ChainForks { shanghai: None, cancun: None, prague: None, regolith: None, canyon: None }
}

fn zero_header() -> Header {
    Header {
        parent_hash: word(0),
        ommers_hash: word(0),
        beneficiary: addr(0),
        state_root: word(0),
        transactions_root: word(0),
        receipts_root: word(0),
        withdrawals_root: None,
        logs_bloom: vec![0u8; 256],
        difficulty: 0,
        number: 0,
        gas_limit: 30_000_000,
        gas_used: 0,
        timestamp: 0,
        mix_hash: word(0),
        nonce: 0,
        base_fee_per_gas: Some(7),
        blob_gas_used: None,
        excess_blob_gas: None,
        parent_beacon_block_root: None,
        requests_hash: None,
        extra_data: Vec::new(),
    }
}

fn parent_with(timestamp: u64) -> SealedHeader {
    let mut header = zero_header();
    header.timestamp = timestamp;
    SealedHeader { hash: word(0x11), header }
}

fn env_at(timestamp: u64) -> ExecEnv {
    ExecEnv {
        number: 5,
        beneficiary: addr(0xAA),
        timestamp,
        gas_limit: 30_000_000,
        basefee: 7,
        prevrandao: Some(word(0xCC)),
        blob_excess_gas: None,
    }
}

fn model_log(a: u8, topic: u8, data: Vec<u8>) -> LogEntry {
    LogEntry { address: addr(a), topics: vec![word(topic)], data }
}

fn alloy_log(l: &LogEntry) -> alloy_primitives::Log {
    alloy_primitives::Log::new_unchecked(
        alloy_primitives::Address::from_slice(&l.address.bytes),
        l.topics.iter().map(|t| alloy_primitives::B256::from_slice(&t.bytes)).collect(),
        Bytes::copy_from_slice(&l.data),
    )
}

fn simple_receipt(tx_type: u8, cumulative_gas_used: u64, logs: Vec<LogEntry>) -> Receipt {
    Receipt {
        tx_type,
        status: true,
        cumulative_gas_used,
        logs,
        deposit_nonce: None,
        deposit_receipt_version: None,
    }
}

#[test]
fn derived_timestamp_moves_one_slot() {
    let env = next_env_attributes_with(&parent_with(1000), word(0xCC));
    assert_eq!(env.timestamp, 1012);
}

#[test]
fn derived_timestamp_saturates_at_maximum() {
    let env = next_env_attributes_with(&parent_with(u64::MAX - 12), word(0xCC));
    assert_eq!(env.timestamp, u64::MAX);
    let env = next_env_attributes_with(&parent_with(u64::MAX - 11), word(0xCC));
    assert_eq!(env.timestamp, u64::MAX);
    let env = next_env_attributes_with(&parent_with(u64::MAX), word(0xCC));
    assert_eq!(env.timestamp, u64::MAX);
    let env = next_env_attributes_with(&parent_with(u64::MAX - 13), word(0xCC));
    assert_eq!(env.timestamp, u64::MAX - 1);
}

#[test]
fn derived_environment_example() {
    // Parent {timestamp 1000, gas limit 30M, beneficiary 0xAA.., beacon
    // root 0xBB..} yields {1012, 30M, 0xAA.., Some(0xBB..)}.
    let mut header = zero_header();
    header.timestamp = 1000;
    header.gas_limit = 30_000_000;
    header.beneficiary = addr(0xAA);
    header.parent_beacon_block_root = Some(word(0xBB));
    header.extra_data = vec![1, 2, 3];
    let parent = SealedHeader { hash: word(0x11), header };

    let env = next_env_attributes_with(&parent, word(0xCC));
    assert_eq!(env.timestamp, 1012);
    assert_eq!(env.gas_limit, 30_000_000);
    assert_eq!(env.suggested_fee_recipient.bytes, vec![0xAA; 20]);
    assert_eq!(env.parent_beacon_block_root.as_ref().unwrap().bytes, vec![0xBB; 32]);
    assert_eq!(env.prev_randao.bytes, vec![0xCC; 32]);
    assert_eq!(env.extra_data, vec![1, 2, 3]);
}

#[test]
fn derived_environment_draws_32_byte_randao() {
    let env = next_env_attributes(&parent_with(1000));
    assert_eq!(env.prev_randao.bytes.len(), 32);
    assert_eq!(env.timestamp, 1012);
}

#[test]
fn empty_assembly_carries_canonical_empty_values() {
    // Zero transactions and zero receipts: both roots are the canonical
    // empty-set roots, the bloom is all-zero, and blob gas is zero under
    // an active Cancun gate.
    let forks =
        ChainForks { shanghai: None, cancun: Some(0), prague: None, regolith: None, canyon: None };
    let env = env_at(1012);
    let result = ExecutionResult { receipts: Vec::new(), gas_used: 0 };
    let parent = parent_with(1000);
    let b = assemble_block(&env, &result, &parent, word(0x22), Vec::new(), &forks);

    assert_eq!(b.header.transactions_root.bytes.as_slice(), EMPTY_TRANSACTIONS.as_slice());
    assert_eq!(b.header.receipts_root.bytes.as_slice(), EMPTY_RECEIPTS.as_slice());
    assert_eq!(b.header.logs_bloom, vec![0u8; 256]);
    assert_eq!(b.header.blob_gas_used, Some(0));
    assert_eq!(b.header.ommers_hash.bytes.as_slice(), EMPTY_OMMER_ROOT_HASH.as_slice());
    assert_eq!(b.header.nonce, 0);
    assert_eq!(b.header.difficulty, 0);
    assert_eq!(b.header.parent_hash.bytes, parent.hash.bytes);
    assert_eq!(b.header.state_root.bytes, vec![0x22; 32]);
    assert_eq!(b.header.mix_hash.bytes, vec![0xCC; 32]);
    assert_eq!(b.header.number, 5);
    assert_eq!(b.header.gas_limit, 30_000_000);
    assert_eq!(b.header.base_fee_per_gas, Some(7));
    assert!(b.header.extra_data.is_empty());
    assert!(b.body.transactions.is_empty());
    assert!(b.body.ommers.is_empty());
    assert!(b.body.withdrawals.is_none());
}

#[test]
fn withdrawals_root_present_iff_shanghai_active() {
    let forks = ChainForks {
        shanghai: Some(2000),
        cancun: None,
        prague: None,
        regolith: None,
        canyon: None,
    };
    let result = ExecutionResult { receipts: Vec::new(), gas_used: 0 };
    let parent = parent_with(1000);

    let before =
        assemble_block(&env_at(1999), &result, &parent, word(0x22), Vec::new(), &forks);
    assert!(before.header.withdrawals_root.is_none());

    let at = assemble_block(&env_at(2000), &result, &parent, word(0x22), Vec::new(), &forks);
    assert_eq!(
        at.header.withdrawals_root.as_ref().unwrap().bytes.as_slice(),
        EMPTY_WITHDRAWALS.as_slice()
    );
}

#[test]
fn cancun_and_prague_gates_are_independent() {
    let forks = ChainForks {
        shanghai: None,
        cancun: Some(3000),
        prague: Some(4000),
        regolith: None,
        canyon: None,
    };
    let result = ExecutionResult { receipts: Vec::new(), gas_used: 0 };
    let parent = parent_with(1000);

    let b = assemble_block(&env_at(2999), &result, &parent, word(0x22), Vec::new(), &forks);
    assert!(b.header.parent_beacon_block_root.is_none());
    assert!(b.header.blob_gas_used.is_none());
    assert!(b.header.requests_hash.is_none());

    let b = assemble_block(&env_at(3000), &result, &parent, word(0x22), Vec::new(), &forks);
    assert_eq!(b.header.parent_beacon_block_root.as_ref().unwrap().bytes, vec![0u8; 32]);
    assert_eq!(b.header.blob_gas_used, Some(0));
    assert!(b.header.requests_hash.is_none());

    let b = assemble_block(&env_at(4000), &result, &parent, word(0x22), Vec::new(), &forks);
    assert_eq!(b.header.parent_beacon_block_root.as_ref().unwrap().bytes, vec![0u8; 32]);
    assert_eq!(
        b.header.requests_hash.as_ref().unwrap().bytes.as_slice(),
        EMPTY_REQUESTS_HASH.as_slice()
    );
}

#[test]
fn blob_gas_used_sums_individual_usage() {
    let forks =
        ChainForks { shanghai: None, cancun: Some(0), prague: None, regolith: None, canyon: None };
    let result = ExecutionResult { receipts: Vec::new(), gas_used: 0 };
    let parent = parent_with(1000);
    let txs = vec![
        SignedTx { encoded: vec![1, 2, 3], blob_gas_used: Some(131072) },
        SignedTx { encoded: vec![4, 5], blob_gas_used: None },
        SignedTx { encoded: vec![6], blob_gas_used: Some(262144) },
    ];
    let b = assemble_block(&env_at(1012), &result, &parent, word(0x22), txs, &forks);
    assert_eq!(b.header.blob_gas_used, Some(393216));

    let plain = vec![
        SignedTx { encoded: vec![1, 2, 3], blob_gas_used: None },
        SignedTx { encoded: vec![4, 5], blob_gas_used: None },
    ];
    let b = assemble_block(&env_at(1012), &result, &parent, word(0x22), plain, &forks);
    assert_eq!(b.header.blob_gas_used, Some(0));

    let off = no_forks();
    let b = assemble_block(
        &env_at(1012),
        &result,
        &parent,
        word(0x22),
        vec![SignedTx { encoded: vec![9], blob_gas_used: Some(131072) }],
        &off,
    );
    assert!(b.header.blob_gas_used.is_none());
}

#[test]
fn blob_gas_total_reports_overflow() {
    let fits = vec![
        SignedTx { encoded: vec![1], blob_gas_used: Some(131072) },
        SignedTx { encoded: vec![2], blob_gas_used: Some(262144) },
    ];
    assert_eq!(op_pending_block::assemble::try_total_blob_gas(&fits), Some(393216));

    let overflows = vec![
        SignedTx { encoded: vec![1], blob_gas_used: Some(u64::MAX) },
        SignedTx { encoded: vec![2], blob_gas_used: Some(1) },
    ];
    assert_eq!(op_pending_block::assemble::try_total_blob_gas(&overflows), None);
}

#[test]
fn assembly_is_deterministic() {
    let forks = ChainForks {
        shanghai: Some(0),
        cancun: Some(0),
        prague: None,
        regolith: Some(0),
        canyon: None,
    };
    let parent = parent_with(1000);
    let build = || {
        let receipts = vec![
            simple_receipt(2, 21000, vec![model_log(0x01, 0x02, vec![3, 4])]),
            Receipt {
                tx_type: 126,
                status: true,
                cumulative_gas_used: 42000,
                logs: vec![model_log(0x05, 0x06, vec![])],
                deposit_nonce: Some(9),
                deposit_receipt_version: None,
            },
        ];
        let result = ExecutionResult { receipts, gas_used: 42000 };
        let txs = vec![
            SignedTx { encoded: vec![0x02, 0xf8, 0x01], blob_gas_used: None },
            SignedTx { encoded: vec![0x7e, 0x01, 0x02], blob_gas_used: None },
        ];
        assemble_block(&env_at(1012), &result, &parent, word(0x22), txs, &forks)
    };
    let a = build();
    let b = build();
    assert_eq!(a.header.transactions_root.bytes, b.header.transactions_root.bytes);
    assert_eq!(a.header.receipts_root.bytes, b.header.receipts_root.bytes);
    assert_eq!(a.header.logs_bloom, b.header.logs_bloom);
}

#[test]
fn transactions_root_matches_canonical_computation() {
    // A real signed legacy transaction: the root over its network
    // encoding must equal the canonical transaction root.
    let tx = TxLegacy {
        chain_id: None,
        nonce: 0,
        gas_price: 1,
        gas_limit: 21000,
        to: TxKind::Call(alloy_primitives::Address::from_slice(&[0x11; 20])),
        value: U256::from(1u64),
        input: Bytes::new(),
    };
    let sig = Signature::new(U256::from(1u64), U256::from(1u64), false);
    let envelope = TxEnvelope::Legacy(tx.into_signed(sig));
    let expected = calculate_transaction_root(&[envelope.clone()]);

    let ours = transactions_root(&vec![SignedTx {
        encoded: envelope.encoded_2718(),
        blob_gas_used: None,
    }]);
    assert_eq!(ours.bytes.as_slice(), expected.as_slice());
    assert_ne!(ours.bytes.as_slice(), EMPTY_TRANSACTIONS.as_slice());
}

#[test]
fn receipts_root_matches_canonical_computation() {
    let log = model_log(0x01, 0x02, vec![3, 4, 5]);
    let receipts = vec![simple_receipt(2, 21000, vec![log.duplicate()])];
    let ours = receipts_root_no_memo(&receipts, &no_forks(), 1000);

    let envelope = OpReceiptEnvelope::from_parts(
        true,
        21000,
        [&alloy_log(&log)],
        OpTxType::Eip1559,
        None,
        None,
    );
    let expected = calculate_receipt_root(&[envelope]);
    assert_eq!(ours.bytes.as_slice(), expected.as_slice());
}

#[test]
fn deposit_nonce_stripped_between_regolith_and_canyon() {
    let deposit = Receipt {
        tx_type: 126,
        status: true,
        cumulative_gas_used: 31000,
        logs: Vec::new(),
        deposit_nonce: Some(7),
        deposit_receipt_version: None,
    };
    let receipts = vec![deposit];

    let stripped_env: OpReceiptEnvelope =
        OpReceiptEnvelope::from_parts(true, 31000, std::iter::empty(), OpTxType::Deposit, None, None);
    let kept_env: OpReceiptEnvelope =
        OpReceiptEnvelope::from_parts(true, 31000, std::iter::empty(), OpTxType::Deposit, Some(7), None);
    let stripped_root = calculate_receipt_root(&[stripped_env]);
    let kept_root = calculate_receipt_root(&[kept_env]);
    assert_ne!(stripped_root, kept_root);

    // Regolith active, Canyon not: the nonce is left out.
    let window = ChainForks {
        shanghai: None,
        cancun: None,
        prague: None,
        regolith: Some(0),
        canyon: None,
    };
    let ours = receipts_root_no_memo(&receipts, &window, 1000);
    assert_eq!(ours.bytes.as_slice(), stripped_root.as_slice());

    // Canyon active too: the nonce is kept.
    let canyon = ChainForks {
        shanghai: None,
        cancun: None,
        prague: None,
        regolith: Some(0),
        canyon: Some(500),
    };
    let ours = receipts_root_no_memo(&receipts, &canyon, 1000);
    assert_eq!(ours.bytes.as_slice(), kept_root.as_slice());

    // No Regolith at all: the nonce is kept as well.
    let ours = receipts_root_no_memo(&receipts, &no_forks(), 1000);
    assert_eq!(ours.bytes.as_slice(), kept_root.as_slice());
}

#[test]
fn logs_bloom_matches_canonical_fold() {
    let l1 = model_log(0x01, 0x02, vec![9]);
    let l2 = model_log(0x03, 0x04, vec![]);
    let receipts = vec![
        simple_receipt(0, 21000, vec![l1.duplicate()]),
        simple_receipt(2, 42000, vec![l2.duplicate()]),
    ];
    let result = ExecutionResult { receipts, gas_used: 42000 };
    let b = assemble_block(
        &env_at(1012),
        &result,
        &parent_with(1000),
        word(0x22),
        Vec::new(),
        &no_forks(),
    );

    let expected = alloy_primitives::logs_bloom([&alloy_log(&l1), &alloy_log(&l2)]);
    assert_eq!(b.header.logs_bloom.as_slice(), expected.as_slice());
    assert_ne!(b.header.logs_bloom, vec![0u8; 256]);
}

fn stored_entry(hash: Bytes32, block: Option<Block>, receipts: Option<Vec<Receipt>>) -> StoredBlock {
    StoredBlock { hash, header: zero_header(), block, receipts }
}

fn empty_block() -> Block {
    Block {
        header: zero_header(),
        body: BlockBody { transactions: Vec::new(), ommers: Vec::new(), withdrawals: None },
    }
}

#[test]
fn fallback_fails_header_not_found_on_empty_store() {
    let store = ChainStore::new();
    match local_pending_block(&store) {
        Err(LookupError::HeaderNotFound(BlockId::Latest)) => {},
        _ => panic!("expected HeaderNotFound for the latest tag"),
    }
}

#[test]
fn fallback_fails_header_not_found_on_missing_body() {
    let mut store = ChainStore::new();
    assert!(store.commit(stored_entry(word(0x11), None, None)));
    match local_pending_block(&store) {
        Err(LookupError::HeaderNotFound(BlockId::ByHash(h))) => {
            assert_eq!(h.bytes, vec![0x11; 32]);
        },
        _ => panic!("expected HeaderNotFound by hash"),
    }
}

#[test]
fn fallback_fails_receipts_not_found_on_missing_receipts() {
    let mut store = ChainStore::new();
    assert!(store.commit(stored_entry(word(0x11), Some(empty_block()), None)));
    match local_pending_block(&store) {
        Err(LookupError::ReceiptsNotFound(BlockId::ByHash(h))) => {
            assert_eq!(h.bytes, vec![0x11; 32]);
        },
        _ => panic!("expected ReceiptsNotFound by hash"),
    }
}

#[test]
fn fallback_serves_latest_block_and_receipts() {
    let mut store = ChainStore::new();
    assert!(store.commit(stored_entry(word(0x11), Some(empty_block()), Some(Vec::new()))));
    let mut newer = empty_block();
    newer.header.number = 9;
    let receipts = vec![simple_receipt(0, 21000, Vec::new())];
    assert!(store.commit(stored_entry(word(0x12), Some(newer), Some(receipts))));

    match local_pending_block(&store) {
        Ok(Some((block, receipts))) => {
            assert_eq!(block.header.number, 9);
            assert_eq!(receipts.len(), 1);
            assert_eq!(receipts[0].cumulative_gas_used, 21000);
        },
        _ => panic!("expected the latest block with its receipts"),
    }
}

#[test]
fn store_refuses_duplicate_hashes() {
    let mut store = ChainStore::new();
    assert!(store.commit(stored_entry(word(0x11), None, None)));
    assert!(!store.commit(stored_entry(word(0x11), None, None)));
    assert!(!store.commit(stored_entry(Bytes32 { bytes: vec![1, 2] }, None, None)));
    assert!(store.commit(stored_entry(word(0x12), None, None)));
}

#[test]
fn slot_installs_and_takes_pending_block() {
    let mut slot = PendingSlot::new();
    assert!(!slot.is_filled());
    assert!(slot.pending_block().is_none());

    let pb = PendingBlock { block: empty_block(), receipts: Vec::new() };
    slot.install(pb);
    assert!(slot.is_filled());
    assert!(slot.pending_block().is_some());

    let taken = slot.take_value();
    assert!(taken.is_some());
    assert!(!slot.is_filled());
    assert!(slot.take_value().is_none());
}
