//! Assembly of a fully populated, fork-gated header and body from
//! post-execution results: the consensus-critical piece. Every header
//! field is pinned by the contract; the fork gates are evaluated against
//! the candidate's own timestamp, never the parent's.

use vstd::prelude::*;
use crate::forks::{ChainForks, active_at};
use crate::model::{
    Block, BlockBody, Bytes32, ExecEnv, ExecutionResult, LogEntry, LogV, Receipt, ReceiptV,
    SealedHeader, SignedTx, SignedTxV, Header, opt_word_view,
};
use crate::roots::{
    empty_ommers_root, empty_ommers_root_seq, empty_requests_hash, empty_requests_hash_seq,
    empty_trie_root, empty_trie_root_seq, logs_bloom_of, receipts_root_no_memo,
    receipts_root_spec, transactions_root, transactions_root_spec, zero_bloom_seq, zero_word,
    zero_word_seq,
};

verus! {

broadcast use
    vstd::prelude::Seq::lemma_push_map_commute,
    vstd::prelude::Seq::lemma_map_take_succ;

/// The fixed post-merge header nonce marker.
pub const BEACON_NONCE: u64 = 0;

/// Total blob gas of a transaction list: the sum of each transaction's
/// blob gas usage, counting transactions without blob data as zero.
pub open spec fn blob_gas_sum(txs: Seq<SignedTxV>) -> int
    decreases txs.len(),
{
    if txs.len() == 0 {
        0
    } else {
        blob_gas_sum(txs.drop_last()) + (match txs.last().blob_gas_used {
            Option::Some(g) => g as int,
            Option::None => 0int,
        })
    }
}

/// The blob gas total never goes below zero.
pub proof fn lemma_blob_gas_sum_nonneg(txs: Seq<SignedTxV>)
    ensures
        blob_gas_sum(txs) >= 0,
    decreases txs.len(),
{
    if txs.len() > 0 {
        lemma_blob_gas_sum_nonneg(txs.drop_last());
    }
}

/// Every prefix's blob gas total is bounded by the whole list's.
pub proof fn lemma_blob_gas_sum_prefix(txs: Seq<SignedTxV>, i: int)
    requires
        0 <= i <= txs.len(),
    ensures
        blob_gas_sum(txs.take(i)) <= blob_gas_sum(txs),
    decreases txs.len() - i,
{
    if i < txs.len() {
        assert(txs.take(i + 1).drop_last() =~= txs.take(i));
        assert(txs.take(i + 1).last() == txs[i]);
        lemma_blob_gas_sum_prefix(txs, i + 1);
    } else {
        assert(txs.take(i) =~= txs);
    }
}

/// When no transaction carries blob data, the blob gas total is zero.
pub proof fn lemma_blob_gas_sum_zero(txs: Seq<SignedTxV>)
    requires
        forall|i: int| 0 <= i < txs.len() ==> (#[trigger] txs[i]).blob_gas_used is None,
    ensures
        blob_gas_sum(txs) == 0,
    decreases txs.len(),
{
    if txs.len() > 0 {
        lemma_blob_gas_sum_zero(txs.drop_last());
    }
}

/// Computes the total blob gas of the included transactions.
pub fn total_blob_gas(txs: &Vec<SignedTx>) -> (r: u64)
    requires
        blob_gas_sum(txs@.map_values(|t: SignedTx| t@)) <= u64::MAX,
    ensures
        r == blob_gas_sum(txs@.map_values(|t: SignedTx| t@)),
{
    let ghost tv = txs@.map_values(|t: SignedTx| t@);
    let mut sum: u64 = 0;
    let mut i: usize = 0;
    while i < txs.len()
        invariant
            i <= txs@.len(),
            tv == txs@.map_values(|t: SignedTx| t@),
            blob_gas_sum(tv) <= u64::MAX,
            sum == blob_gas_sum(tv.take(i as int)),
        decreases txs@.len() - i,
    {
        proof {
            assert(tv.take(i + 1).drop_last() =~= tv.take(i as int));
            assert(tv.take(i + 1).last() == tv[i as int]);
            lemma_blob_gas_sum_prefix(tv, i + 1);
            lemma_blob_gas_sum_nonneg(tv.take(i as int));
        }
        let g = match txs[i].blob_gas_used {
            Option::Some(g) => g,
            Option::None => 0,
        };
        sum = sum + g;
        i = i + 1;
    }
    proof {
        assert(tv.take(tv.len() as int) =~= tv);
    }
    sum
}

/// Computes the total blob gas of the included transactions, or reports
/// that it does not fit in 64 bits: the checked front door for callers
/// that cannot establish the bound themselves.
pub fn try_total_blob_gas(txs: &Vec<SignedTx>) -> (r: Option<u64>)
    ensures
        (match r {
            Option::Some(s) => blob_gas_sum(txs@.map_values(|t: SignedTx| t@)) <= u64::MAX && s
                == blob_gas_sum(txs@.map_values(|t: SignedTx| t@)),
            Option::None => blob_gas_sum(txs@.map_values(|t: SignedTx| t@)) > u64::MAX,
        }),
{
    let ghost tv = txs@.map_values(|t: SignedTx| t@);
    let mut sum: u64 = 0;
    let mut i: usize = 0;
    while i < txs.len()
        invariant
            i <= txs@.len(),
            tv == txs@.map_values(|t: SignedTx| t@),
            sum == blob_gas_sum(tv.take(i as int)),
        decreases txs@.len() - i,
    {
        proof {
            assert(tv.take(i + 1).drop_last() =~= tv.take(i as int));
            assert(tv.take(i + 1).last() == tv[i as int]);
        }
        let g = match txs[i].blob_gas_used {
            Option::Some(g) => g,
            Option::None => 0,
        };
        if g > u64::MAX - sum {
            proof {
                lemma_blob_gas_sum_prefix(tv, i + 1);
            }
            return Option::None;
        }
        sum = sum + g;
        i = i + 1;
    }
    proof {
        assert(tv.take(tv.len() as int) =~= tv);
    }
    Option::Some(sum)
}

/// The logs of an executed set, flattened in receipt order with each
/// receipt's logs kept in emission order.
pub open spec fn logs_of(rs: Seq<ReceiptV>) -> Seq<LogV>
    decreases rs.len(),
{
    if rs.len() == 0 {
        Seq::empty()
    } else {
        logs_of(rs.drop_last()) + rs.last().logs
    }
}

/// Flattens the receipts' logs into one list, in receipt order.
pub fn collect_logs(receipts: &Vec<Receipt>) -> (out: Vec<LogEntry>)
    requires
        forall|i: int| 0 <= i < receipts@.len() ==> (#[trigger] receipts@[i]).wf(),
    ensures
        out@.map_values(|l: LogEntry| l@) == logs_of(receipts@.map_values(|x: Receipt| x@)),
        forall|i: int| 0 <= i < out@.len() ==> (#[trigger] out@[i]).wf(),
{
    let ghost rv = receipts@.map_values(|x: Receipt| x@);
    let mut out: Vec<LogEntry> = Vec::new();
    let mut i: usize = 0;
    while i < receipts.len()
        invariant
            i <= receipts@.len(),
            rv == receipts@.map_values(|x: Receipt| x@),
            forall|k: int| 0 <= k < receipts@.len() ==> (#[trigger] receipts@[k]).wf(),
            out@.map_values(|l: LogEntry| l@) =~= logs_of(rv.take(i as int)),
            forall|k: int| 0 <= k < out@.len() ==> (#[trigger] out@[k]).wf(),
        decreases receipts@.len() - i,
    {
        let r = &receipts[i];
        let mut j: usize = 0;
        while j < r.logs.len()
            invariant
                i < receipts@.len(),
                j <= r.logs@.len(),
                r == &receipts@[i as int],
                rv == receipts@.map_values(|x: Receipt| x@),
                forall|k: int| 0 <= k < receipts@.len() ==> (#[trigger] receipts@[k]).wf(),
                out@.map_values(|l: LogEntry| l@) =~= logs_of(rv.take(i as int)) + r@.logs.take(
                    j as int,
                ),
                forall|k: int| 0 <= k < out@.len() ==> (#[trigger] out@[k]).wf(),
            decreases r.logs@.len() - j,
        {
            out.push(r.logs[j].duplicate());
            assert(out@.map_values(|l: LogEntry| l@) =~= logs_of(rv.take(i as int))
                + r@.logs.take(j + 1));
            assert(r.logs@[j as int].wf()) by {
                assert(r@.logs[j as int] == r.logs@[j as int]@);
            }
            j = j + 1;
        }
        proof {
            assert(r@.logs.take(r@.logs.len() as int) =~= r@.logs);
            assert(rv.take(i + 1).drop_last() =~= rv.take(i as int));
            assert(rv.take(i + 1).last() == rv[i as int]);
        }
        i = i + 1;
    }
    proof {
        assert(rv.take(rv.len() as int) =~= rv);
    }
    out
}

/// Assembles the pending block: a fully populated, fork-gated header
/// sealed with the included transactions, no ommers and no withdrawals.
///
/// Every field of the result is pinned: continuity fields come verbatim
/// from the execution environment, the three commitments
/// (transactions-root, receipts-root, logs-bloom) are recomputed fresh
/// from the final included set, and each fork gate is evaluated
/// independently against the candidate's own timestamp. Extra data is
/// reset to empty here, unlike in environment derivation; that asymmetry
/// is the defined behavior for freshly assembled blocks.
pub fn assemble_block(
    env: &ExecEnv,
    result: &ExecutionResult,
    parent: &SealedHeader,
    state_root: Bytes32,
    transactions: Vec<SignedTx>,
    forks: &ChainForks,
) -> (b: Block)
    requires
        forall|i: int| 0 <= i < result.receipts@.len() ==> (#[trigger] result.receipts@[i]).wf(),
        blob_gas_sum(transactions@.map_values(|t: SignedTx| t@)) <= u64::MAX,
    ensures
        b.header.parent_hash@ == parent.hash@,
        b.header.ommers_hash@ == empty_ommers_root_seq(),
        b.header.beneficiary@ == env.beneficiary@,
        b.header.state_root@ == state_root@,
        b.header.transactions_root@ == transactions_root_spec(
            transactions@.map_values(|t: SignedTx| t@),
        ),
        b.header.receipts_root@ == receipts_root_spec(
            result.receipts@.map_values(|x: Receipt| x@),
            *forks,
            env.timestamp,
        ),
        opt_word_view(b.header.withdrawals_root) == (if active_at(forks.shanghai, env.timestamp) {
            Option::Some(empty_trie_root_seq())
        } else {
            Option::<Seq<u8>>::None
        }),
        b.header.logs_bloom@ == logs_bloom_of(logs_of(result.receipts@.map_values(|x: Receipt| x@))),
        b.header.difficulty == 0,
        b.header.number == env.number,
        b.header.gas_limit == env.gas_limit,
        b.header.gas_used == result.gas_used,
        b.header.timestamp == env.timestamp,
        b.header.mix_hash@ == (match env.prevrandao {
            Option::Some(p) => p@,
            Option::None => zero_word_seq(),
        }),
        b.header.nonce == BEACON_NONCE,
        b.header.base_fee_per_gas == Option::Some(env.basefee),
        b.header.blob_gas_used == (if active_at(forks.cancun, env.timestamp) {
            Option::Some(blob_gas_sum(transactions@.map_values(|t: SignedTx| t@)) as u64)
        } else {
            Option::<u64>::None
        }),
        b.header.excess_blob_gas == env.blob_excess_gas,
        b.header.extra_data@.len() == 0,
        opt_word_view(b.header.parent_beacon_block_root) == (if active_at(
            forks.cancun,
            env.timestamp,
        ) {
            Option::Some(zero_word_seq())
        } else {
            Option::<Seq<u8>>::None
        }),
        opt_word_view(b.header.requests_hash) == (if active_at(forks.prague, env.timestamp) {
            Option::Some(empty_requests_hash_seq())
        } else {
            Option::<Seq<u8>>::None
        }),
        b.body.transactions@.map_values(|t: SignedTx| t@) == transactions@.map_values(
            |t: SignedTx| t@,
        ),
        b.body.ommers@.len() == 0,
        b.body.withdrawals is None,
        transactions@.len() == 0 ==> b.header.transactions_root@ == empty_trie_root_seq(),
        result.receipts@.len() == 0 ==> b.header.receipts_root@ == empty_trie_root_seq(),
        result.receipts@.len() == 0 ==> b.header.logs_bloom@ == zero_bloom_seq(),
{
    let timestamp = env.timestamp;

    let txs_root = transactions_root(&transactions);
    let rcpts_root = receipts_root_no_memo(&result.receipts, forks, timestamp);

    let logs = collect_logs(&result.receipts);
    proof {
        if result.receipts@.len() == 0 {
            assert(result.receipts@.map_values(|x: Receipt| x@).len() == 0);
            assert(logs@.len() == 0) by {
                assert(logs@.map_values(|l: LogEntry| l@).len() == 0);
            }
        }
    }
    let bloom = crate::roots::logs_bloom_fold(&logs);

    let is_cancun = forks.is_cancun_active_at(timestamp);
    let is_prague = forks.is_prague_active_at(timestamp);
    let is_shanghai = forks.is_shanghai_active_at(timestamp);

    let blob_gas_used = if is_cancun {
        Option::Some(total_blob_gas(&transactions))
    } else {
        Option::None
    };

    let header = Header {
        parent_hash: parent.hash.duplicate(),
        ommers_hash: empty_ommers_root(),
        beneficiary: env.beneficiary.duplicate(),
        state_root,
        transactions_root: txs_root,
        receipts_root: rcpts_root,
        withdrawals_root: if is_shanghai {
            Option::Some(empty_trie_root())
        } else {
            Option::None
        },
        logs_bloom: bloom,
        difficulty: 0,
        number: env.number,
        gas_limit: env.gas_limit,
        gas_used: result.gas_used,
        timestamp,
        mix_hash: match &env.prevrandao {
            Option::Some(p) => p.duplicate(),
            Option::None => zero_word(),
        },
        nonce: BEACON_NONCE,
        base_fee_per_gas: Option::Some(env.basefee),
        blob_gas_used,
        excess_blob_gas: env.blob_excess_gas,
        parent_beacon_block_root: if is_cancun {
            Option::Some(zero_word())
        } else {
            Option::None
        },
        requests_hash: if is_prague {
            Option::Some(empty_requests_hash())
        } else {
            Option::None
        },
        extra_data: Vec::new(),
    };

    Block {
        header,
        body: BlockBody { transactions, ommers: Vec::new(), withdrawals: Option::None },
    }
}

/// Assembly is deterministic: the three commitments a header carries —
/// transactions-root, receipts-root and logs-bloom — are functions of the
/// included transactions, the receipts, the fork schedule and the
/// candidate timestamp alone, so identical inputs yield identical values.
pub proof fn lemma_assembly_deterministic(
    txs1: Seq<SignedTxV>,
    txs2: Seq<SignedTxV>,
    rs1: Seq<ReceiptV>,
    rs2: Seq<ReceiptV>,
    forks: ChainForks,
    ts: u64,
)
    requires
        txs1 == txs2,
        rs1 == rs2,
    ensures
        transactions_root_spec(txs1) == transactions_root_spec(txs2),
        receipts_root_spec(rs1, forks, ts) == receipts_root_spec(rs2, forks, ts),
        logs_bloom_of(logs_of(rs1)) == logs_bloom_of(logs_of(rs2)),
{
}

} // verus!
