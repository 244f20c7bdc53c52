//! Plain-value models of the chain data that the provider reads and builds.
//!
//! Hashes and roots are 32-byte strings, accounts are 20-byte strings, and
//! the logs bloom is a 256-byte string; each is held as a `Vec<u8>` with its
//! length pinned by a well-formedness predicate. A transaction is carried as
//! its network (typed, EIP-2718) encoding together with the one field the
//! assembler reads from it, its blob gas usage.

use vstd::prelude::*;

verus! {

broadcast use
    vstd::prelude::Seq::lemma_push_map_commute,
    vstd::prelude::Seq::lemma_map_take_succ;

/// Number of bytes in a hash, root, or randomness word.
pub const HASH_BYTES: usize = 32;

/// Number of bytes in an account address.
pub const ADDRESS_BYTES: usize = 20;

/// Number of bytes in a logs-bloom filter.
pub const BLOOM_BYTES: usize = 256;

/// Type flag of a rollup deposit transaction and of its receipt.
pub const DEPOSIT_TX_TYPE: u8 = 126;

/// A 32-byte word: a block hash, a trie root, a beacon root, or a
/// randomness value.
pub struct Bytes32 {
    pub bytes: Vec<u8>,
}

impl View for Bytes32 {
    type V = Seq<u8>;

    open spec fn view(&self) -> Seq<u8> {
        self.bytes@
    }
}

impl Bytes32 {
    pub open spec fn wf(&self) -> bool {
        self@.len() == HASH_BYTES
    }

    /// The all-zero word, the post-merge placeholder value.
    pub fn zero() -> (r: Bytes32)
        ensures
            r.wf(),
            forall|i: int| 0 <= i < HASH_BYTES ==> r@[i] == 0u8,
    {
        let mut bytes: Vec<u8> = Vec::new();
        let mut i: usize = 0;
        while i < HASH_BYTES
            invariant
                i <= HASH_BYTES,
                bytes@.len() == i,
                forall|j: int| 0 <= j < i ==> bytes@[j] == 0u8,
            decreases HASH_BYTES - i,
        {
            bytes.push(0u8);
            i = i + 1;
        }
        Bytes32 { bytes }
    }

    /// A fresh copy of the same word.
    pub fn duplicate(&self) -> (r: Bytes32)
        ensures
            r@ == self@,
    {
        Bytes32 { bytes: copy_bytes(&self.bytes) }
    }
}

/// A 20-byte account address.
pub struct Address {
    pub bytes: Vec<u8>,
}

impl View for Address {
    type V = Seq<u8>;

    open spec fn view(&self) -> Seq<u8> {
        self.bytes@
    }
}

impl Address {
    pub open spec fn wf(&self) -> bool {
        self@.len() == ADDRESS_BYTES
    }

    /// A fresh copy of the same address.
    pub fn duplicate(&self) -> (r: Address)
        ensures
            r@ == self@,
    {
        Address { bytes: copy_bytes(&self.bytes) }
    }
}

/// A fresh copy of a byte string.
pub fn copy_bytes(v: &Vec<u8>) -> (r: Vec<u8>)
    ensures
        r@ == v@,
{
    let mut r: Vec<u8> = Vec::new();
    let mut i: usize = 0;
    while i < v.len()
        invariant
            i <= v@.len(),
            r@ == v@.take(i as int),
        decreases v@.len() - i,
    {
        r.push(v[i]);
        assert(r@ =~= v@.take(i + 1));
        i = i + 1;
    }
    assert(v@.take(v@.len() as int) =~= v@);
    r
}

/// The view of an optional 32-byte word.
pub open spec fn opt_word_view(o: Option<Bytes32>) -> Option<Seq<u8>> {
    match o {
        Option::Some(b) => Option::Some(b@),
        Option::None => Option::None,
    }
}

/// A well-formed 32-byte word at the spec level.
pub open spec fn word_wf(s: Seq<u8>) -> bool {
    s.len() == HASH_BYTES
}

/// A well-formed 20-byte address at the spec level.
pub open spec fn addr_wf(s: Seq<u8>) -> bool {
    s.len() == ADDRESS_BYTES
}

/// Well-formedness of an optional 32-byte word: absent, or 32 bytes long.
pub open spec fn opt_word_wf(o: Option<Seq<u8>>) -> bool {
    match o {
        Option::Some(b) => word_wf(b),
        Option::None => true,
    }
}

/// One emitted event log: the emitting account, its indexed topics, and
/// the opaque payload.
pub struct LogEntry {
    pub address: Address,
    pub topics: Vec<Bytes32>,
    pub data: Vec<u8>,
}

/// Mathematical content of a log entry.
pub struct LogV {
    pub address: Seq<u8>,
    pub topics: Seq<Seq<u8>>,
    pub data: Seq<u8>,
}

impl View for LogEntry {
    type V = LogV;

    open spec fn view(&self) -> LogV {
        LogV {
            address: self.address@,
            topics: self.topics@.map_values(|t: Bytes32| t@),
            data: self.data@,
        }
    }
}

impl LogV {
    pub open spec fn wf(&self) -> bool {
        &&& addr_wf(self.address)
        &&& forall|i: int| 0 <= i < self.topics.len() ==> word_wf(#[trigger] self.topics[i])
    }
}

impl LogEntry {
    pub open spec fn wf(&self) -> bool {
        self@.wf()
    }
}

/// The outcome of one executed transaction: its type flag, success status,
/// running gas total, emitted logs, and — for rollup deposit transactions
/// only — the recorded deposit nonce and receipt version.
pub struct Receipt {
    /// EIP-2718 type flag of the transaction this receipt belongs to.
    pub tx_type: u8,
    /// Success (`true`) or revert (`false`).
    pub status: bool,
    /// Gas used by the block up to and including this transaction.
    pub cumulative_gas_used: u64,
    /// Logs emitted by the transaction, in emission order.
    pub logs: Vec<LogEntry>,
    /// Deposit nonce; set only on deposit receipts.
    pub deposit_nonce: Option<u64>,
    /// Deposit receipt version; set only on deposit receipts.
    pub deposit_receipt_version: Option<u64>,
}

/// Mathematical content of a receipt.
pub struct ReceiptV {
    pub tx_type: u8,
    pub status: bool,
    pub cumulative_gas_used: u64,
    pub logs: Seq<LogV>,
    pub deposit_nonce: Option<u64>,
    pub deposit_receipt_version: Option<u64>,
}

impl View for Receipt {
    type V = ReceiptV;

    open spec fn view(&self) -> ReceiptV {
        ReceiptV {
            tx_type: self.tx_type,
            status: self.status,
            cumulative_gas_used: self.cumulative_gas_used,
            logs: self.logs@.map_values(|l: LogEntry| l@),
            deposit_nonce: self.deposit_nonce,
            deposit_receipt_version: self.deposit_receipt_version,
        }
    }
}

/// The type flags a rollup receipt may carry: the four base transaction
/// types, the synthetic post-execution type, and the deposit type.
pub open spec fn valid_tx_type(t: u8) -> bool {
    t == 0 || t == 1 || t == 2 || t == 4 || t == 125 || t == DEPOSIT_TX_TYPE
}

impl ReceiptV {
    pub open spec fn wf(&self) -> bool {
        &&& valid_tx_type(self.tx_type)
        &&& self.tx_type != DEPOSIT_TX_TYPE ==> self.deposit_nonce is None
            && self.deposit_receipt_version is None
        &&& forall|i: int| 0 <= i < self.logs.len() ==> (#[trigger] self.logs[i]).wf()
    }
}

impl Receipt {
    pub open spec fn wf(&self) -> bool {
        self@.wf()
    }
}

/// A signed transaction, carried as its network (typed, EIP-2718)
/// encoding plus the one field the assembler reads: its blob gas usage,
/// present only on blob-carrying transactions.
pub struct SignedTx {
    pub encoded: Vec<u8>,
    pub blob_gas_used: Option<u64>,
}

/// Mathematical content of a signed transaction.
pub struct SignedTxV {
    pub encoded: Seq<u8>,
    pub blob_gas_used: Option<u64>,
}

impl View for SignedTx {
    type V = SignedTxV;

    open spec fn view(&self) -> SignedTxV {
        SignedTxV { encoded: self.encoded@, blob_gas_used: self.blob_gas_used }
    }
}

/// Byte-for-byte equality of two byte strings.
pub fn bytes_eq(a: &Vec<u8>, b: &Vec<u8>) -> (r: bool)
    ensures
        r == (a@ == b@),
{
    if a.len() != b.len() {
        assert(a@ != b@) by {
            assert(a@.len() != b@.len());
        }
        return false;
    }
    let mut i: usize = 0;
    while i < a.len()
        invariant
            i <= a@.len(),
            a@.len() == b@.len(),
            forall|j: int| 0 <= j < i ==> a@[j] == b@[j],
        decreases a@.len() - i,
    {
        if a[i] != b[i] {
            return false;
        }
        i = i + 1;
    }
    assert(a@ =~= b@);
    true
}

/// A fresh copy of an optional 32-byte word.
pub fn copy_opt_word(o: &Option<Bytes32>) -> (r: Option<Bytes32>)
    ensures
        opt_word_view(r) == opt_word_view(*o),
{
    match o {
        Option::Some(b) => Option::Some(b.duplicate()),
        Option::None => Option::None,
    }
}

impl LogEntry {
    /// A fresh copy of the same log entry.
    pub fn duplicate(&self) -> (r: LogEntry)
        ensures
            r@ == self@,
    {
        let mut topics: Vec<Bytes32> = Vec::new();
        let mut i: usize = 0;
        while i < self.topics.len()
            invariant
                i <= self.topics@.len(),
                topics@.map_values(|t: Bytes32| t@) =~= self.topics@.take(i as int).map_values(
                    |t: Bytes32| t@,
                ),
            decreases self.topics@.len() - i,
        {
            topics.push(self.topics[i].duplicate());
            assert(topics@.map_values(|t: Bytes32| t@) =~= self.topics@.take(
                i + 1,
            ).map_values(|t: Bytes32| t@));
            i = i + 1;
        }
        assert(self.topics@.take(self.topics@.len() as int) =~= self.topics@);
        let r = LogEntry {
            address: self.address.duplicate(),
            topics,
            data: copy_bytes(&self.data),
        };
        assert(r@.topics =~= self@.topics);
        r
    }
}

impl Receipt {
    /// A fresh copy of the same receipt.
    pub fn duplicate(&self) -> (r: Receipt)
        ensures
            r@ == self@,
    {
        let mut logs: Vec<LogEntry> = Vec::new();
        let mut i: usize = 0;
        while i < self.logs.len()
            invariant
                i <= self.logs@.len(),
                logs@.map_values(|l: LogEntry| l@) =~= self.logs@.take(i as int).map_values(
                    |l: LogEntry| l@,
                ),
            decreases self.logs@.len() - i,
        {
            logs.push(self.logs[i].duplicate());
            assert(logs@.map_values(|l: LogEntry| l@) =~= self.logs@.take(i + 1).map_values(
                |l: LogEntry| l@,
            ));
            i = i + 1;
        }
        assert(self.logs@.take(self.logs@.len() as int) =~= self.logs@);
        let r = Receipt {
            tx_type: self.tx_type,
            status: self.status,
            cumulative_gas_used: self.cumulative_gas_used,
            logs,
            deposit_nonce: self.deposit_nonce,
            deposit_receipt_version: self.deposit_receipt_version,
        };
        assert(r@.logs =~= self@.logs);
        r
    }
}

/// A fresh copy of a receipt list.
pub fn copy_receipts(rs: &Vec<Receipt>) -> (r: Vec<Receipt>)
    ensures
        r@.map_values(|x: Receipt| x@) == rs@.map_values(|x: Receipt| x@),
{
    let mut out: Vec<Receipt> = Vec::new();
    let mut i: usize = 0;
    while i < rs.len()
        invariant
            i <= rs@.len(),
            out@.map_values(|x: Receipt| x@) =~= rs@.take(i as int).map_values(|x: Receipt| x@),
        decreases rs@.len() - i,
    {
        out.push(rs[i].duplicate());
        assert(out@.map_values(|x: Receipt| x@) =~= rs@.take(i + 1).map_values(|x: Receipt| x@));
        i = i + 1;
    }
    assert(rs@.take(rs@.len() as int) =~= rs@);
    assert(out@.map_values(|x: Receipt| x@) =~= rs@.map_values(|x: Receipt| x@));
    out
}

impl SignedTx {
    /// A fresh copy of the same transaction.
    pub fn duplicate(&self) -> (r: SignedTx)
        ensures
            r@ == self@,
    {
        SignedTx { encoded: copy_bytes(&self.encoded), blob_gas_used: self.blob_gas_used }
    }
}

/// Block metadata and roots.
pub struct Header {
    pub parent_hash: Bytes32,
    pub ommers_hash: Bytes32,
    pub beneficiary: Address,
    pub state_root: Bytes32,
    pub transactions_root: Bytes32,
    pub receipts_root: Bytes32,
    pub withdrawals_root: Option<Bytes32>,
    pub logs_bloom: Vec<u8>,
    pub difficulty: u64,
    pub number: u64,
    pub gas_limit: u64,
    pub gas_used: u64,
    pub timestamp: u64,
    pub mix_hash: Bytes32,
    pub nonce: u64,
    pub base_fee_per_gas: Option<u64>,
    pub blob_gas_used: Option<u64>,
    pub excess_blob_gas: Option<u64>,
    pub parent_beacon_block_root: Option<Bytes32>,
    pub requests_hash: Option<Bytes32>,
    pub extra_data: Vec<u8>,
}

/// Mathematical content of a header.
pub struct HeaderV {
    pub parent_hash: Seq<u8>,
    pub ommers_hash: Seq<u8>,
    pub beneficiary: Seq<u8>,
    pub state_root: Seq<u8>,
    pub transactions_root: Seq<u8>,
    pub receipts_root: Seq<u8>,
    pub withdrawals_root: Option<Seq<u8>>,
    pub logs_bloom: Seq<u8>,
    pub difficulty: u64,
    pub number: u64,
    pub gas_limit: u64,
    pub gas_used: u64,
    pub timestamp: u64,
    pub mix_hash: Seq<u8>,
    pub nonce: u64,
    pub base_fee_per_gas: Option<u64>,
    pub blob_gas_used: Option<u64>,
    pub excess_blob_gas: Option<u64>,
    pub parent_beacon_block_root: Option<Seq<u8>>,
    pub requests_hash: Option<Seq<u8>>,
    pub extra_data: Seq<u8>,
}

impl View for Header {
    type V = HeaderV;

    open spec fn view(&self) -> HeaderV {
        HeaderV {
            parent_hash: self.parent_hash@,
            ommers_hash: self.ommers_hash@,
            beneficiary: self.beneficiary@,
            state_root: self.state_root@,
            transactions_root: self.transactions_root@,
            receipts_root: self.receipts_root@,
            withdrawals_root: opt_word_view(self.withdrawals_root),
            logs_bloom: self.logs_bloom@,
            difficulty: self.difficulty,
            number: self.number,
            gas_limit: self.gas_limit,
            gas_used: self.gas_used,
            timestamp: self.timestamp,
            mix_hash: self.mix_hash@,
            nonce: self.nonce,
            base_fee_per_gas: self.base_fee_per_gas,
            blob_gas_used: self.blob_gas_used,
            excess_blob_gas: self.excess_blob_gas,
            parent_beacon_block_root: opt_word_view(self.parent_beacon_block_root),
            requests_hash: opt_word_view(self.requests_hash),
            extra_data: self.extra_data@,
        }
    }
}

impl Header {
    /// A fresh copy of the same header.
    pub fn duplicate(&self) -> (r: Header)
        ensures
            r@ == self@,
    {
        Header {
            parent_hash: self.parent_hash.duplicate(),
            ommers_hash: self.ommers_hash.duplicate(),
            beneficiary: self.beneficiary.duplicate(),
            state_root: self.state_root.duplicate(),
            transactions_root: self.transactions_root.duplicate(),
            receipts_root: self.receipts_root.duplicate(),
            withdrawals_root: copy_opt_word(&self.withdrawals_root),
            logs_bloom: copy_bytes(&self.logs_bloom),
            difficulty: self.difficulty,
            number: self.number,
            gas_limit: self.gas_limit,
            gas_used: self.gas_used,
            timestamp: self.timestamp,
            mix_hash: self.mix_hash.duplicate(),
            nonce: self.nonce,
            base_fee_per_gas: self.base_fee_per_gas,
            blob_gas_used: self.blob_gas_used,
            excess_blob_gas: self.excess_blob_gas,
            parent_beacon_block_root: copy_opt_word(&self.parent_beacon_block_root),
            requests_hash: copy_opt_word(&self.requests_hash),
            extra_data: copy_bytes(&self.extra_data),
        }
    }

    pub open spec fn wf(&self) -> bool {
        self@.wf()
    }
}

impl HeaderV {
    pub open spec fn wf(&self) -> bool {
        &&& word_wf(self.parent_hash)
        &&& word_wf(self.ommers_hash)
        &&& addr_wf(self.beneficiary)
        &&& word_wf(self.state_root)
        &&& word_wf(self.transactions_root)
        &&& word_wf(self.receipts_root)
        &&& opt_word_wf(self.withdrawals_root)
        &&& self.logs_bloom.len() == BLOOM_BYTES
        &&& word_wf(self.mix_hash)
        &&& opt_word_wf(self.parent_beacon_block_root)
        &&& opt_word_wf(self.requests_hash)
    }
}

/// The latest committed header together with its hash; the read-only
/// basis for deriving the next block.
pub struct SealedHeader {
    pub hash: Bytes32,
    pub header: Header,
}

impl SealedHeader {
    pub open spec fn wf(&self) -> bool {
        &&& self.hash.wf()
        &&& self.header.wf()
    }
}

/// A validator withdrawal, as carried in a post-Shanghai block body.
pub struct Withdrawal {
    pub index: u64,
    pub validator_index: u64,
    pub address: Address,
    pub amount: u64,
}

/// Mathematical content of a withdrawal.
pub struct WithdrawalV {
    pub index: u64,
    pub validator_index: u64,
    pub address: Seq<u8>,
    pub amount: u64,
}

impl View for Withdrawal {
    type V = WithdrawalV;

    open spec fn view(&self) -> WithdrawalV {
        WithdrawalV {
            index: self.index,
            validator_index: self.validator_index,
            address: self.address@,
            amount: self.amount,
        }
    }
}

impl Withdrawal {
    /// A fresh copy of the same withdrawal.
    pub fn duplicate(&self) -> (r: Withdrawal)
        ensures
            r@ == self@,
    {
        Withdrawal {
            index: self.index,
            validator_index: self.validator_index,
            address: self.address.duplicate(),
            amount: self.amount,
        }
    }
}

/// Ordered transactions, ommer headers, and optional withdrawals.
pub struct BlockBody {
    pub transactions: Vec<SignedTx>,
    pub ommers: Vec<Header>,
    pub withdrawals: Option<Vec<Withdrawal>>,
}

/// Mathematical content of a block body.
pub struct BlockBodyV {
    pub transactions: Seq<SignedTxV>,
    pub ommers: Seq<HeaderV>,
    pub withdrawals: Option<Seq<WithdrawalV>>,
}

impl View for BlockBody {
    type V = BlockBodyV;

    open spec fn view(&self) -> BlockBodyV {
        BlockBodyV {
            transactions: self.transactions@.map_values(|t: SignedTx| t@),
            ommers: self.ommers@.map_values(|h: Header| h@),
            withdrawals: match self.withdrawals {
                Option::Some(ws) => Option::Some(ws@.map_values(|w: Withdrawal| w@)),
                Option::None => Option::None,
            },
        }
    }
}

impl BlockBody {
    /// A fresh copy of the same body.
    pub fn duplicate(&self) -> (r: BlockBody)
        ensures
            r@ == self@,
    {
        let mut transactions: Vec<SignedTx> = Vec::new();
        let mut i: usize = 0;
        while i < self.transactions.len()
            invariant
                i <= self.transactions@.len(),
                transactions@.map_values(|t: SignedTx| t@) =~= self.transactions@.take(
                    i as int,
                ).map_values(|t: SignedTx| t@),
            decreases self.transactions@.len() - i,
        {
            transactions.push(self.transactions[i].duplicate());
            assert(transactions@.map_values(|t: SignedTx| t@) =~= self.transactions@.take(
                i + 1,
            ).map_values(|t: SignedTx| t@));
            i = i + 1;
        }
        assert(self.transactions@.take(self.transactions@.len() as int) =~= self.transactions@);
        let mut ommers: Vec<Header> = Vec::new();
        let mut j: usize = 0;
        while j < self.ommers.len()
            invariant
                j <= self.ommers@.len(),
                ommers@.map_values(|h: Header| h@) =~= self.ommers@.take(j as int).map_values(
                    |h: Header| h@,
                ),
            decreases self.ommers@.len() - j,
        {
            ommers.push(self.ommers[j].duplicate());
            assert(ommers@.map_values(|h: Header| h@) =~= self.ommers@.take(j + 1).map_values(
                |h: Header| h@,
            ));
            j = j + 1;
        }
        assert(self.ommers@.take(self.ommers@.len() as int) =~= self.ommers@);
        let withdrawals = match &self.withdrawals {
            Option::Some(ws) => {
                let mut out: Vec<Withdrawal> = Vec::new();
                let mut k: usize = 0;
                while k < ws.len()
                    invariant
                        k <= ws@.len(),
                        out@.map_values(|w: Withdrawal| w@) =~= ws@.take(k as int).map_values(
                            |w: Withdrawal| w@,
                        ),
                    decreases ws@.len() - k,
                {
                    out.push(ws[k].duplicate());
                    assert(out@.map_values(|w: Withdrawal| w@) =~= ws@.take(k + 1).map_values(
                        |w: Withdrawal| w@,
                    ));
                    k = k + 1;
                }
                assert(ws@.take(ws@.len() as int) =~= ws@);
                Option::Some(out)
            },
            Option::None => Option::None,
        };
        let r = BlockBody { transactions, ommers, withdrawals };
        assert(r@.transactions =~= self@.transactions);
        assert(r@.ommers =~= self@.ommers);
        r
    }
}

/// A header sealed together with its body.
pub struct Block {
    pub header: Header,
    pub body: BlockBody,
}

/// Mathematical content of a block.
pub struct BlockV {
    pub header: HeaderV,
    pub body: BlockBodyV,
}

impl View for Block {
    type V = BlockV;

    open spec fn view(&self) -> BlockV {
        BlockV { header: self.header@, body: self.body@ }
    }
}

impl Block {
    /// A fresh copy of the same block.
    pub fn duplicate(&self) -> (r: Block)
        ensures
            r@ == self@,
    {
        Block { header: self.header.duplicate(), body: self.body.duplicate() }
    }
}

/// Aggregated outcome of executing a candidate transaction set.
pub struct ExecutionResult {
    /// One receipt per executed transaction, in execution order.
    pub receipts: Vec<Receipt>,
    /// Total gas used by the candidate set.
    pub gas_used: u64,
}

/// The execution context the next block is built in: what the execution
/// engine consumed while running the candidate transaction set.
pub struct ExecEnv {
    pub number: u64,
    pub beneficiary: Address,
    pub timestamp: u64,
    pub gas_limit: u64,
    pub basefee: u64,
    pub prevrandao: Option<Bytes32>,
    pub blob_excess_gas: Option<u64>,
}

impl ExecEnv {
    pub open spec fn wf(&self) -> bool {
        &&& self.beneficiary.wf()
        &&& opt_word_wf(opt_word_view(self.prevrandao))
    }
}

/// The deterministic attributes handed to the execution engine for the
/// next block, derived from the parent header.
pub struct NextBlockEnv {
    pub timestamp: u64,
    pub suggested_fee_recipient: Address,
    pub prev_randao: Bytes32,
    pub gas_limit: u64,
    pub parent_beacon_block_root: Option<Bytes32>,
    pub extra_data: Vec<u8>,
}

/// The externally visible speculative unit: a block with its receipts.
pub struct PendingBlock {
    pub block: Block,
    pub receipts: Vec<Receipt>,
}

} // verus!
