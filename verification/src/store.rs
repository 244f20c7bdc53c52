//! The chain-state store as the provider sees it, and the local fallback
//! loader that serves the latest committed block as the pending result.
//!
//! The store is read-only for the loader: a list of committed blocks in
//! commit order, keyed by hash, where the newest entry is the latest. A
//! header is always present for a committed entry, but its full body or
//! its receipts may be missing (pruning or store inconsistency); the
//! loader reports exactly which piece was absent.

use vstd::prelude::*;
use crate::model::{
    Block, Bytes32, Header, Receipt, SealedHeader, bytes_eq, copy_receipts, HASH_BYTES,
};

verus! {

/// How a block is referred to when a lookup fails: by the symbolic
/// "latest" tag, or by its hash.
pub enum BlockId {
    Latest,
    ByHash(Bytes32),
}

/// The failures the fallback loader can report. Both propagate unchanged
/// to the caller; there is no local retry or recovery.
pub enum LookupError {
    /// No latest header exists, or the referenced block is missing.
    HeaderNotFound(BlockId),
    /// The block exists but its receipts do not.
    ReceiptsNotFound(BlockId),
}

/// One committed block as the store holds it: its hash, its header, and
/// — unless pruned or inconsistent — its full body and its receipts.
pub struct StoredBlock {
    pub hash: Bytes32,
    pub header: Header,
    pub block: Option<Block>,
    pub receipts: Option<Vec<Receipt>>,
}

/// The committed chain state the provider reads: blocks in commit order,
/// keyed by hash, the newest last.
pub struct ChainStore {
    pub entries: Vec<StoredBlock>,
}

impl ChainStore {
    /// Hashes are well-formed and pairwise distinct.
    pub open spec fn wf(&self) -> bool {
        &&& forall|i: int| 0 <= i < self.entries@.len() ==> (#[trigger] self.entries@[i]).hash.wf()
        &&& forall|i: int, j: int|
            0 <= i < self.entries@.len() && 0 <= j < self.entries@.len() && i != j
                ==> (#[trigger] self.entries@[i]).hash@ != (#[trigger] self.entries@[j]).hash@
    }

    /// Whether some committed entry carries the hash `h`.
    pub open spec fn has_hash(&self, h: Seq<u8>) -> bool {
        exists|i: int| 0 <= i < self.entries@.len() && (#[trigger] self.entries@[i]).hash@ == h
    }

    /// The committed entry carrying the hash `h`.
    pub open spec fn entry_at_hash(&self, h: Seq<u8>) -> StoredBlock {
        self.entries@[choose|i: int|
            0 <= i < self.entries@.len() && (#[trigger] self.entries@[i]).hash@ == h]
    }

    /// In a well-formed store the latest entry is the one its own hash
    /// leads to.
    pub proof fn lemma_latest_entry(&self)
        requires
            self.wf(),
            self.entries@.len() > 0,
        ensures
            self.has_hash(self.entries@.last().hash@),
            self.entry_at_hash(self.entries@.last().hash@) == self.entries@.last(),
    {
        let n = self.entries@.len() as int;
        assert(self.entries@[n - 1].hash@ == self.entries@.last().hash@);
        let i = choose|i: int|
            0 <= i < self.entries@.len() && (#[trigger] self.entries@[i]).hash@
                == self.entries@.last().hash@;
        assert(i == n - 1);
    }

    /// Decides well-formedness at run time: every hash 32 bytes long and
    /// no two entries sharing one.
    pub fn check_wf(&self) -> (r: bool)
        ensures
            r == self.wf(),
    {
        let mut i: usize = 0;
        while i < self.entries.len()
            invariant
                i <= self.entries@.len(),
                forall|k: int| 0 <= k < i ==> (#[trigger] self.entries@[k]).hash.wf(),
                forall|k: int, l: int|
                    0 <= k < i && 0 <= l < i && k != l
                        ==> (#[trigger] self.entries@[k]).hash@
                            != (#[trigger] self.entries@[l]).hash@,
            decreases self.entries@.len() - i,
        {
            if self.entries[i].hash.bytes.len() != HASH_BYTES {
                return false;
            }
            let mut j: usize = 0;
            while j < i
                invariant
                    j <= i,
                    i < self.entries@.len(),
                    forall|k: int| 0 <= k < j ==> (#[trigger] self.entries@[k]).hash@
                        != self.entries@[i as int].hash@,
                decreases i - j,
            {
                if bytes_eq(&self.entries[j].hash.bytes, &self.entries[i].hash.bytes) {
                    return false;
                }
                j = j + 1;
            }
            i = i + 1;
        }
        true
    }

    /// An empty store.
    pub fn new() -> (s: ChainStore)
        ensures
            s.wf(),
            s.entries@.len() == 0,
    {
        ChainStore { entries: Vec::new() }
    }

    /// Commits one more block at the tip. Refuses an entry whose hash is
    /// ill-formed or already present, leaving the store unchanged.
    pub fn commit(&mut self, entry: StoredBlock) -> (ok: bool)
        requires
            old(self).wf(),
        ensures
            final(self).wf(),
            ok ==> final(self).entries@ == old(self).entries@.push(entry),
            !ok ==> final(self).entries@ == old(self).entries@,
            ok == (entry.hash.wf() && !old(self).has_hash(entry.hash@)),
    {
        if entry.hash.bytes.len() != HASH_BYTES {
            return false;
        }
        let mut i: usize = 0;
        while i < self.entries.len()
            invariant
                self == old(self),
                self.wf(),
                i <= self.entries@.len(),
                forall|j: int| 0 <= j < i ==> (#[trigger] self.entries@[j]).hash@ != entry.hash@,
            decreases self.entries@.len() - i,
        {
            if bytes_eq(&self.entries[i].hash.bytes, &entry.hash.bytes) {
                assert(self.has_hash(entry.hash@));
                return false;
            }
            i = i + 1;
        }
        assert(!self.has_hash(entry.hash@));
        self.entries.push(entry);
        true
    }

    /// The latest committed header, sealed with its hash; absent exactly
    /// when the store is empty.
    pub fn latest_header(&self) -> (r: Option<SealedHeader>)
        ensures
            (match r {
                Option::Some(h) => self.entries@.len() > 0 && h.hash@
                    == self.entries@.last().hash@ && h.header@ == self.entries@.last().header@,
                Option::None => self.entries@.len() == 0,
            }),
    {
        if self.entries.len() == 0 {
            return Option::None;
        }
        let e = &self.entries[self.entries.len() - 1];
        Option::Some(SealedHeader { hash: e.hash.duplicate(), header: e.header.duplicate() })
    }

    /// The full block carrying the hash `h`, if the store holds one.
    pub fn block_by_hash(&self, h: &Bytes32) -> (r: Option<Block>)
        requires
            self.wf(),
        ensures
            (match r {
                Option::Some(b) => self.has_hash(h@) && (match self.entry_at_hash(h@).block {
                    Option::Some(sb) => b@ == sb@,
                    Option::None => false,
                }),
                Option::None => !self.has_hash(h@) || self.entry_at_hash(h@).block is None,
            }),
    {
        let mut i: usize = 0;
        while i < self.entries.len()
            invariant
                self.wf(),
                i <= self.entries@.len(),
                forall|j: int| 0 <= j < i ==> (#[trigger] self.entries@[j]).hash@ != h@,
            decreases self.entries@.len() - i,
        {
            if bytes_eq(&self.entries[i].hash.bytes, &h.bytes) {
                proof {
                    let k = choose|k: int|
                        0 <= k < self.entries@.len() && (#[trigger] self.entries@[k]).hash@ == h@;
                    assert(k == i as int);
                }
                return match &self.entries[i].block {
                    Option::Some(b) => Option::Some(b.duplicate()),
                    Option::None => Option::None,
                };
            }
            i = i + 1;
        }
        Option::None
    }

    /// The receipts of the block carrying the hash `h`, if the store
    /// holds them.
    pub fn receipts_by_hash(&self, h: &Bytes32) -> (r: Option<Vec<Receipt>>)
        requires
            self.wf(),
        ensures
            (match r {
                Option::Some(rs) => self.has_hash(h@) && (match self.entry_at_hash(h@).receipts {
                    Option::Some(stored) => rs@.map_values(|x: Receipt| x@)
                        == stored@.map_values(|x: Receipt| x@),
                    Option::None => false,
                }),
                Option::None => !self.has_hash(h@) || self.entry_at_hash(h@).receipts is None,
            }),
    {
        let mut i: usize = 0;
        while i < self.entries.len()
            invariant
                self.wf(),
                i <= self.entries@.len(),
                forall|j: int| 0 <= j < i ==> (#[trigger] self.entries@[j]).hash@ != h@,
            decreases self.entries@.len() - i,
        {
            if bytes_eq(&self.entries[i].hash.bytes, &h.bytes) {
                proof {
                    let k = choose|k: int|
                        0 <= k < self.entries@.len() && (#[trigger] self.entries@[k]).hash@ == h@;
                    assert(k == i as int);
                }
                return match &self.entries[i].receipts {
                    Option::Some(rs) => Option::Some(copy_receipts(rs)),
                    Option::None => Option::None,
                };
            }
            i = i + 1;
        }
        Option::None
    }
}

/// Serves the latest committed block and its receipts as the pending
/// result: resolves the latest header, loads the full block by that
/// header's hash, then the receipts by the same hash. Fails with
/// `HeaderNotFound` when the store is empty or the block body is missing,
/// and with `ReceiptsNotFound` when the block exists but its receipts do
/// not; read-only, no side effects.
pub fn local_pending_block(store: &ChainStore) -> (r: Result<
    Option<(Block, Vec<Receipt>)>,
    LookupError,
>)
    requires
        store.wf(),
    ensures
        (match r {
            Result::Ok(opt) => (match opt {
                Option::Some(p) => store.entries@.len() > 0 && (match (
                    store.entries@.last().block,
                    store.entries@.last().receipts,
                ) {
                    (Option::Some(sb), Option::Some(srs)) => p.0@ == sb@ && p.1@.map_values(
                        |x: Receipt| x@,
                    ) == srs@.map_values(|x: Receipt| x@),
                    _ => false,
                }),
                Option::None => false,
            }),
            Result::Err(e) => (match e {
                LookupError::HeaderNotFound(id) => (match id {
                    BlockId::Latest => store.entries@.len() == 0,
                    BlockId::ByHash(h) => store.entries@.len() > 0 && h@
                        == store.entries@.last().hash@ && store.entries@.last().block is None,
                }),
                LookupError::ReceiptsNotFound(id) => (match id {
                    BlockId::Latest => false,
                    BlockId::ByHash(h) => store.entries@.len() > 0 && h@
                        == store.entries@.last().hash@ && store.entries@.last().block is Some
                        && store.entries@.last().receipts is None,
                }),
            }),
        }),
{
    let latest = match store.latest_header() {
        Option::Some(h) => h,
        Option::None => {
            return Result::Err(LookupError::HeaderNotFound(BlockId::Latest));
        },
    };
    proof {
        store.lemma_latest_entry();
    }
    let block = match store.block_by_hash(&latest.hash) {
        Option::Some(b) => b,
        Option::None => {
            return Result::Err(LookupError::HeaderNotFound(BlockId::ByHash(latest.hash)));
        },
    };
    let receipts = match store.receipts_by_hash(&latest.hash) {
        Option::Some(rs) => rs,
        Option::None => {
            return Result::Err(LookupError::ReceiptsNotFound(BlockId::ByHash(latest.hash)));
        },
    };
    Result::Ok(Option::Some((block, receipts)))
}

} // verus!
