//! Canonical commitments over the included transaction and receipt sets:
//! ordered trie roots, the rollup-specific receipt encoding rule, and the
//! logs-bloom fold.
//!
//! The cryptographic work — trie hashing, receipt envelope encoding, bloom
//! accumulation — is done by outside crates behind small trusted wrappers;
//! everything around it (ordering, the fork-gated deposit-nonce rule, the
//! flattening of logs) is verified here.

use vstd::prelude::*;
use op_alloy_consensus::{OpReceiptEnvelope, OpTxType};
use crate::forks::{ChainForks, active_at};
use crate::model::{
    Bytes32, LogEntry, LogV, Receipt, ReceiptV, SignedTx, SignedTxV, copy_bytes,
    BLOOM_BYTES, DEPOSIT_TX_TYPE,
};

verus! {

broadcast use
    vstd::prelude::Seq::lemma_push_map_commute,
    vstd::prelude::Seq::lemma_map_take_succ;

/// Root of the empty ordered trie: the keccak-256 hash of the RLP empty
/// string, the canonical value for empty transaction, receipt and
/// withdrawal sets.
pub open spec fn empty_trie_root_seq() -> Seq<u8> {
    seq![
        0x56u8, 0xe8u8, 0x1fu8, 0x17u8, 0x1bu8, 0xccu8, 0x55u8, 0xa6u8,
        0xffu8, 0x83u8, 0x45u8, 0xe6u8, 0x92u8, 0xc0u8, 0xf8u8, 0x6eu8,
        0x5bu8, 0x48u8, 0xe0u8, 0x1bu8, 0x99u8, 0x6cu8, 0xadu8, 0xc0u8,
        0x01u8, 0x62u8, 0x2fu8, 0xb5u8, 0xe3u8, 0x63u8, 0xb4u8, 0x21u8,
    ]
}

/// Root of an empty ommer list: the keccak-256 hash of the RLP-encoded
/// empty list. This chain family has no ommers, so every assembled header
/// carries this value.
pub open spec fn empty_ommers_root_seq() -> Seq<u8> {
    seq![
        0x1du8, 0xccu8, 0x4du8, 0xe8u8, 0xdeu8, 0xc7u8, 0x5du8, 0x7au8,
        0xabu8, 0x85u8, 0xb5u8, 0x67u8, 0xb6u8, 0xccu8, 0xd4u8, 0x1au8,
        0xd3u8, 0x12u8, 0x45u8, 0x1bu8, 0x94u8, 0x8au8, 0x74u8, 0x13u8,
        0xf0u8, 0xa1u8, 0x42u8, 0xfdu8, 0x40u8, 0xd4u8, 0x93u8, 0x47u8,
    ]
}

/// The fixed requests hash of an empty request set: the SHA-256 hash of
/// the empty string.
pub open spec fn empty_requests_hash_seq() -> Seq<u8> {
    seq![
        0xe3u8, 0xb0u8, 0xc4u8, 0x42u8, 0x98u8, 0xfcu8, 0x1cu8, 0x14u8,
        0x9au8, 0xfbu8, 0xf4u8, 0xc8u8, 0x99u8, 0x6fu8, 0xb9u8, 0x24u8,
        0x27u8, 0xaeu8, 0x41u8, 0xe4u8, 0x64u8, 0x9bu8, 0x93u8, 0x4cu8,
        0xa4u8, 0x95u8, 0x99u8, 0x1bu8, 0x78u8, 0x52u8, 0xb8u8, 0x55u8,
    ]
}

/// The all-zero 32-byte word.
pub open spec fn zero_word_seq() -> Seq<u8> {
    Seq::new(32, |i: int| 0u8)
}

/// The all-zero logs bloom.
pub open spec fn zero_bloom_seq() -> Seq<u8> {
    Seq::new(BLOOM_BYTES as nat, |i: int| 0u8)
}

/// The empty-trie root as a word.
pub fn empty_trie_root() -> (r: Bytes32)
    ensures
        r@ == empty_trie_root_seq(),
        r.wf(),
{
    let bytes: Vec<u8> = vec![
        0x56u8, 0xe8u8, 0x1fu8, 0x17u8, 0x1bu8, 0xccu8, 0x55u8, 0xa6u8,
        0xffu8, 0x83u8, 0x45u8, 0xe6u8, 0x92u8, 0xc0u8, 0xf8u8, 0x6eu8,
        0x5bu8, 0x48u8, 0xe0u8, 0x1bu8, 0x99u8, 0x6cu8, 0xadu8, 0xc0u8,
        0x01u8, 0x62u8, 0x2fu8, 0xb5u8, 0xe3u8, 0x63u8, 0xb4u8, 0x21u8,
    ];
    assert(bytes@ =~= empty_trie_root_seq());
    Bytes32 { bytes }
}

/// The empty-ommer-list root as a word.
pub fn empty_ommers_root() -> (r: Bytes32)
    ensures
        r@ == empty_ommers_root_seq(),
        r.wf(),
{
    let bytes: Vec<u8> = vec![
        0x1du8, 0xccu8, 0x4du8, 0xe8u8, 0xdeu8, 0xc7u8, 0x5du8, 0x7au8,
        0xabu8, 0x85u8, 0xb5u8, 0x67u8, 0xb6u8, 0xccu8, 0xd4u8, 0x1au8,
        0xd3u8, 0x12u8, 0x45u8, 0x1bu8, 0x94u8, 0x8au8, 0x74u8, 0x13u8,
        0xf0u8, 0xa1u8, 0x42u8, 0xfdu8, 0x40u8, 0xd4u8, 0x93u8, 0x47u8,
    ];
    assert(bytes@ =~= empty_ommers_root_seq());
    Bytes32 { bytes }
}

/// The empty-request-set hash as a word.
pub fn empty_requests_hash() -> (r: Bytes32)
    ensures
        r@ == empty_requests_hash_seq(),
        r.wf(),
{
    let bytes: Vec<u8> = vec![
        0xe3u8, 0xb0u8, 0xc4u8, 0x42u8, 0x98u8, 0xfcu8, 0x1cu8, 0x14u8,
        0x9au8, 0xfbu8, 0xf4u8, 0xc8u8, 0x99u8, 0x6fu8, 0xb9u8, 0x24u8,
        0x27u8, 0xaeu8, 0x41u8, 0xe4u8, 0x64u8, 0x9bu8, 0x93u8, 0x4cu8,
        0xa4u8, 0x95u8, 0x99u8, 0x1bu8, 0x78u8, 0x52u8, 0xb8u8, 0x55u8,
    ];
    assert(bytes@ =~= empty_requests_hash_seq());
    Bytes32 { bytes }
}

/// The all-zero word.
pub fn zero_word() -> (r: Bytes32)
    ensures
        r@ == zero_word_seq(),
        r.wf(),
{
    let r = Bytes32::zero();
    assert(r@ =~= zero_word_seq());
    r
}

/// The root of the canonical ordered Merkle-Patricia trie whose leaves are
/// the given already-encoded items, keyed by their RLP-encoded position.
pub uninterp spec fn ordered_trie_root_of(items: Seq<Seq<u8>>) -> Seq<u8>;

/// The canonical typed (EIP-2718) envelope encoding of a rollup receipt:
/// the type flag when not legacy, then the RLP of the receipt with its
/// freshly recomputed logs bloom; the deposit nonce and version are
/// encoded exactly when present.
pub uninterp spec fn receipt_envelope_bytes(r: ReceiptV) -> Seq<u8>;

/// The 2048-bit logs-bloom filter accumulated over the given logs.
pub uninterp spec fn logs_bloom_of(logs: Seq<LogV>) -> Seq<u8>;

/// Relies on `alloy_consensus::proofs::ordered_trie_root_encoded`: the
/// ordered trie root over already-encoded items. Its result depends on the
/// items alone, and over an empty list it is the fixed empty-trie root.
#[verifier::external_body]
fn trie_root_encoded(items: &Vec<Vec<u8>>) -> (r: Bytes32)
    ensures
        r.wf(),
        r@ == ordered_trie_root_of(items@.map_values(|v: Vec<u8>| v@)),
        items@.len() == 0 ==> r@ == empty_trie_root_seq(),
{
    let root = alloy_consensus::proofs::ordered_trie_root_encoded(items.as_slice());
    Bytes32 { bytes: root.0.to_vec() }
}

/// Relies on `op_alloy_consensus::OpReceiptEnvelope::from_parts` and
/// `alloy_eips::eip2718::Encodable2718::encoded_2718` (as exposed through
/// `op_alloy_consensus`): the canonical typed envelope encoding of a
/// rollup receipt, with its logs bloom recomputed from the logs. The
/// result depends on the receipt's content alone.
#[verifier::external_body]
fn encode_receipt_2718(r: &Receipt) -> (out: Vec<u8>)
    requires
        r.wf(),
    ensures
        out@ == receipt_envelope_bytes(r@),
{
    let logs: Vec<alloy_primitives::Log> = r.logs.iter().map(|l| alloy_primitives::Log::new_unchecked(
        alloy_primitives::Address::from_slice(&l.address.bytes),
        l.topics.iter().map(|t| alloy_primitives::B256::from_slice(&t.bytes)).collect(),
        alloy_primitives::Bytes::copy_from_slice(&l.data))).collect();
    let tx_type = match r.tx_type {
        1 => OpTxType::Eip2930, 2 => OpTxType::Eip1559, 4 => OpTxType::Eip7702,
        125 => OpTxType::PostExec, 126 => OpTxType::Deposit, _ => OpTxType::Legacy,
    };
    let envelope = OpReceiptEnvelope::from_parts(r.status, r.cumulative_gas_used, logs.iter(),
        tx_type, r.deposit_nonce, r.deposit_receipt_version);
    alloy_eips::eip2718::Encodable2718::encoded_2718(&envelope)
}

/// Relies on `alloy_primitives::logs_bloom`: the bloom filter obtained by
/// accruing each log's address and topics into the all-zero filter, in
/// order. The result is 256 bytes, depends on the logs alone, and over no
/// logs it is the all-zero filter.
#[verifier::external_body]
pub(crate) fn logs_bloom_fold(logs: &Vec<LogEntry>) -> (r: Vec<u8>)
    requires
        forall|i: int| 0 <= i < logs@.len() ==> (#[trigger] logs@[i]).wf(),
    ensures
        r@.len() == BLOOM_BYTES,
        r@ == logs_bloom_of(logs@.map_values(|l: LogEntry| l@)),
        logs@.len() == 0 ==> r@ == zero_bloom_seq(),
{
    let ls: Vec<alloy_primitives::Log> = logs.iter().map(|l| alloy_primitives::Log::new_unchecked(
        alloy_primitives::Address::from_slice(&l.address.bytes),
        l.topics.iter().map(|t| alloy_primitives::B256::from_slice(&t.bytes)).collect(),
        alloy_primitives::Bytes::copy_from_slice(&l.data),
    )).collect();
    alloy_primitives::logs_bloom(ls.iter()).0.to_vec()
}

/// The transactions root of an included set: the ordered trie root over
/// each transaction's network encoding, in execution order.
pub open spec fn transactions_root_spec(txs: Seq<SignedTxV>) -> Seq<u8> {
    ordered_trie_root_of(txs.map_values(|t: SignedTxV| t.encoded))
}

/// Computes the transactions root of the included set.
pub fn transactions_root(txs: &Vec<SignedTx>) -> (r: Bytes32)
    ensures
        r.wf(),
        r@ == transactions_root_spec(txs@.map_values(|t: SignedTx| t@)),
        txs@.len() == 0 ==> r@ == empty_trie_root_seq(),
{
    let mut enc: Vec<Vec<u8>> = Vec::new();
    let mut i: usize = 0;
    while i < txs.len()
        invariant
            i <= txs@.len(),
            enc@.map_values(|v: Vec<u8>| v@) =~= txs@.take(i as int).map_values(
                |t: SignedTx| t@.encoded,
            ),
        decreases txs@.len() - i,
    {
        enc.push(copy_bytes(&txs[i].encoded));
        assert(enc@.map_values(|v: Vec<u8>| v@) =~= txs@.take(i + 1).map_values(
            |t: SignedTx| t@.encoded,
        ));
        i = i + 1;
    }
    assert(txs@.take(txs@.len() as int) =~= txs@);
    assert(enc@.map_values(|v: Vec<u8>| v@) =~= txs@.map_values(|t: SignedTx| t@).map_values(
        |t: SignedTxV| t.encoded,
    ));
    trie_root_encoded(&enc)
}

/// The receipt as it enters the root computation: in the window where
/// Regolith is active but Canyon is not, the deposit nonce is left out of
/// deposit receipts; everywhere else the receipt is unchanged.
pub open spec fn encoding_form(r: ReceiptV, strip_nonce: bool) -> ReceiptV {
    if strip_nonce && r.tx_type == DEPOSIT_TX_TYPE {
        ReceiptV { deposit_nonce: Option::None, ..r }
    } else {
        r
    }
}

/// Whether the deposit nonce is left out of receipt encodings at `ts`:
/// exactly when Regolith is active and Canyon is not.
pub open spec fn strips_deposit_nonce(forks: ChainForks, ts: u64) -> bool {
    active_at(forks.regolith, ts) && !active_at(forks.canyon, ts)
}

/// The rollup-specific receipts root: the ordered trie root over the
/// canonical envelope encodings of the receipts, each first put into its
/// fork-gated encoding form, with every bloom recomputed fresh.
pub open spec fn receipts_root_spec(rs: Seq<ReceiptV>, forks: ChainForks, ts: u64) -> Seq<u8> {
    ordered_trie_root_of(
        rs.map_values(|r: ReceiptV| receipt_envelope_bytes(encoding_form(r, strips_deposit_nonce(forks, ts)))),
    )
}

/// Computes the rollup-specific receipts root of the executed set at the
/// candidate timestamp.
pub fn receipts_root_no_memo(receipts: &Vec<Receipt>, forks: &ChainForks, ts: u64) -> (r: Bytes32)
    requires
        forall|i: int| 0 <= i < receipts@.len() ==> (#[trigger] receipts@[i]).wf(),
    ensures
        r.wf(),
        r@ == receipts_root_spec(receipts@.map_values(|x: Receipt| x@), *forks, ts),
        receipts@.len() == 0 ==> r@ == empty_trie_root_seq(),
{
    let strip = forks.is_regolith_active_at(ts) && !forks.is_canyon_active_at(ts);
    let ghost strip_s = strips_deposit_nonce(*forks, ts);
    let mut enc: Vec<Vec<u8>> = Vec::new();
    let mut i: usize = 0;
    while i < receipts.len()
        invariant
            i <= receipts@.len(),
            strip == strip_s,
            strip_s == strips_deposit_nonce(*forks, ts),
            forall|k: int| 0 <= k < receipts@.len() ==> (#[trigger] receipts@[k]).wf(),
            enc@.map_values(|v: Vec<u8>| v@) =~= receipts@.take(i as int).map_values(
                |x: Receipt| receipt_envelope_bytes(encoding_form(x@, strip_s)),
            ),
        decreases receipts@.len() - i,
    {
        if strip && receipts[i].tx_type == DEPOSIT_TX_TYPE {
            let mut stripped = receipts[i].duplicate();
            stripped.deposit_nonce = Option::None;
            assert(stripped@ == encoding_form(receipts@[i as int]@, strip_s));
            enc.push(encode_receipt_2718(&stripped));
        } else {
            enc.push(encode_receipt_2718(&receipts[i]));
        }
        assert(enc@.map_values(|v: Vec<u8>| v@) =~= receipts@.take(i + 1).map_values(
            |x: Receipt| receipt_envelope_bytes(encoding_form(x@, strip_s)),
        ));
        i = i + 1;
    }
    assert(receipts@.take(receipts@.len() as int) =~= receipts@);
    assert(enc@.map_values(|v: Vec<u8>| v@) =~= receipts@.map_values(|x: Receipt| x@).map_values(
        |r2: ReceiptV| receipt_envelope_bytes(encoding_form(r2, strips_deposit_nonce(*forks, ts))),
    ));
    trie_root_encoded(&enc)
}

} // verus!
