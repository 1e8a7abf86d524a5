//! The cached data provider: a fact cache with read-through/write-back
//! composition over a chain data source, serving the historical facts a
//! replay needs, deterministically once warm.

use vstd::prelude::*;

use crate::error::Error;
use crate::transactions::TransactionKind;
use crate::types::{Address, B256};
use crate::u256::U256;

verus! {

/// A block identified by height.
#[derive(Clone, Copy, Debug, PartialEq, Eq, Structural)]
pub struct BlockQuery {
    pub block_no: u64,
}

/// An account fact at a height.
#[derive(Clone, Copy, Debug, PartialEq, Eq, Structural)]
pub struct AccountQuery {
    pub block_no: u64,
    pub address: Address,
}

/// A storage slot of an account at a height.
#[derive(Clone, Copy, Debug, PartialEq, Eq, Structural)]
pub struct StorageQuery {
    pub block_no: u64,
    pub address: Address,
    pub index: U256,
}

/// An account proof at a height.
#[derive(Clone, Copy, Debug, PartialEq, Eq, Structural)]
pub struct ProofQuery {
    pub block_no: u64,
    pub address: Address,
}

/// A log filter: an address over a block range.
#[derive(Clone, Copy, Debug, PartialEq, Eq, Structural)]
pub struct LogsQuery {
    pub address: Address,
    pub from_block: u64,
    pub to_block: u64,
}

/// A transaction by hash, with an optional height hint that lets a cached
/// block answer without a live call.
#[derive(Clone, Copy, Debug)]
pub struct TxQuery {
    pub tx_hash: B256,
    pub block_no: Option<u64>,
}

/// The immutable key of one historical fact.
#[derive(Clone, Copy, Debug, PartialEq, Eq, Structural)]
pub enum Query {
    FullBlock(BlockQuery),
    PartialBlock(BlockQuery),
    Receipts(BlockQuery),
    Proof(ProofQuery),
    TxCount(AccountQuery),
    Balance(AccountQuery),
    Code(AccountQuery),
    Storage(StorageQuery),
    Logs(LogsQuery),
    Transaction(B256),
}

/// A transaction as a block or a lookup reports it.
#[derive(Clone, Copy, Debug, PartialEq, Eq, Structural)]
pub struct ProviderTx {
    pub hash: B256,
    pub from: Address,
    pub to: TransactionKind,
    pub value: U256,
    pub nonce: u64,
}

/// A block header without its transaction bodies.
#[derive(Clone, Copy, Debug, PartialEq, Eq, Structural)]
pub struct PartialBlockData {
    pub block_no: u64,
    pub hash: B256,
    pub parent_hash: B256,
    pub gas_limit: U256,
    pub timestamp: u64,
}

/// A block with its transactions.
#[derive(Clone, Debug, PartialEq, Eq)]
pub struct BlockData {
    pub block_no: u64,
    pub hash: B256,
    pub parent_hash: B256,
    pub gas_limit: U256,
    pub timestamp: u64,
    pub transactions: Vec<ProviderTx>,
}

/// One transaction receipt.
#[derive(Clone, Copy, Debug, PartialEq, Eq, Structural)]
pub struct Receipt {
    pub tx_hash: B256,
    pub success: bool,
    pub gas_used: U256,
}

/// The account facts an account proof attests.
#[derive(Clone, Copy, Debug, PartialEq, Eq, Structural)]
pub struct ProofData {
    pub address: Address,
    pub balance: U256,
    pub nonce: u64,
    pub code_hash: B256,
    pub storage_root: B256,
}

/// One log record.
#[derive(Clone, Copy, Debug, PartialEq, Eq, Structural)]
pub struct LogEntry {
    pub address: Address,
    pub block_no: u64,
    pub topic: B256,
}

/// One historical fact, tagged by kind.
#[derive(Clone, Debug, PartialEq, Eq)]
pub enum Fact {
    FullBlock(BlockData),
    PartialBlock(PartialBlockData),
    Receipts(Vec<Receipt>),
    Proof(ProofData),
    TxCount(U256),
    Balance(U256),
    Code(Vec<u8>),
    Storage(B256),
    Logs(Vec<LogEntry>),
    Transaction(ProviderTx),
}

/// The content of a block with transactions.
#[verifier::ext_equal]
pub struct BlockDataModel {
    pub block_no: u64,
    pub hash: B256,
    pub parent_hash: B256,
    pub gas_limit: U256,
    pub timestamp: u64,
    pub transactions: Seq<ProviderTx>,
}

/// The mathematical content of a fact.
#[verifier::ext_equal]
pub enum FactModel {
    FullBlock(BlockDataModel),
    PartialBlock(PartialBlockData),
    Receipts(Seq<Receipt>),
    Proof(ProofData),
    TxCount(U256),
    Balance(U256),
    Code(Seq<u8>),
    Storage(B256),
    Logs(Seq<LogEntry>),
    Transaction(ProviderTx),
}

/// The content of a block value.
pub open spec fn block_model(b: BlockData) -> BlockDataModel {
    BlockDataModel {
        block_no: b.block_no,
        hash: b.hash,
        parent_hash: b.parent_hash,
        gas_limit: b.gas_limit,
        timestamp: b.timestamp,
        transactions: b.transactions@,
    }
}

/// The content of a fact value.
pub open spec fn fact_model(f: Fact) -> FactModel {
    match f {
        Fact::FullBlock(b) => FactModel::FullBlock(block_model(b)),
        Fact::PartialBlock(b) => FactModel::PartialBlock(b),
        Fact::Receipts(v) => FactModel::Receipts(v@),
        Fact::Proof(p) => FactModel::Proof(p),
        Fact::TxCount(n) => FactModel::TxCount(n),
        Fact::Balance(v) => FactModel::Balance(v),
        Fact::Code(c) => FactModel::Code(c@),
        Fact::Storage(w) => FactModel::Storage(w),
        Fact::Logs(v) => FactModel::Logs(v@),
        Fact::Transaction(t) => FactModel::Transaction(t),
    }
}

/// Whether a fact is of the kind its key announces.
pub open spec fn kind_ok(q: Query, f: FactModel) -> bool {
    match q {
        Query::FullBlock(_) => f is FullBlock,
        Query::PartialBlock(_) => f is PartialBlock,
        Query::Receipts(_) => f is Receipts,
        Query::Proof(_) => f is Proof,
        Query::TxCount(_) => f is TxCount,
        Query::Balance(_) => f is Balance,
        Query::Code(_) => f is Code,
        Query::Storage(_) => f is Storage,
        Query::Logs(_) => f is Logs,
        Query::Transaction(_) => f is Transaction,
    }
}

/// Check that a fact is of the kind its key announces.
pub fn kind_matches(q: &Query, f: &Fact) -> (r: bool)
    ensures
        r == kind_ok(*q, fact_model(*f)),
{
    match (q, f) {
        (Query::FullBlock(_), Fact::FullBlock(_)) => true,
        (Query::PartialBlock(_), Fact::PartialBlock(_)) => true,
        (Query::Receipts(_), Fact::Receipts(_)) => true,
        (Query::Proof(_), Fact::Proof(_)) => true,
        (Query::TxCount(_), Fact::TxCount(_)) => true,
        (Query::Balance(_), Fact::Balance(_)) => true,
        (Query::Code(_), Fact::Code(_)) => true,
        (Query::Storage(_), Fact::Storage(_)) => true,
        (Query::Logs(_), Fact::Logs(_)) => true,
        (Query::Transaction(_), Fact::Transaction(_)) => true,
        _ => false,
    }
}

/// Copy a fact, preserving its content.
fn dup_fact(f: &Fact) -> (r: Fact)
    ensures
        fact_model(r) == fact_model(*f),
{
    match f {
        Fact::FullBlock(b) => {
            let txs = b.transactions.clone();
            let copy = Fact::FullBlock(
                BlockData {
                    block_no: b.block_no,
                    hash: b.hash,
                    parent_hash: b.parent_hash,
                    gas_limit: b.gas_limit,
                    timestamp: b.timestamp,
                    transactions: txs,
                },
            );
            proof {
                assert(txs@ =~= b.transactions@);
                assert(fact_model(copy) =~= fact_model(*f));
            }
            copy
        },
        Fact::PartialBlock(b) => Fact::PartialBlock(*b),
        Fact::Receipts(v) => {
            let copy = Fact::Receipts(v.clone());
            proof {
                assert(fact_model(copy) =~= fact_model(*f));
            }
            copy
        },
        Fact::Proof(p) => Fact::Proof(*p),
        Fact::TxCount(n) => Fact::TxCount(*n),
        Fact::Balance(v) => Fact::Balance(*v),
        Fact::Code(c) => {
            let copy = Fact::Code(c.clone());
            proof {
                assert(fact_model(copy) =~= fact_model(*f));
            }
            copy
        },
        Fact::Storage(w) => Fact::Storage(*w),
        Fact::Logs(v) => {
            let copy = Fact::Logs(v.clone());
            proof {
                assert(fact_model(copy) =~= fact_model(*f));
            }
            copy
        },
        Fact::Transaction(t) => Fact::Transaction(*t),
    }
}

/// The entries a load keeps: those whose fact is of their key's kind,
/// later entries winning.
pub open spec fn kept_entries(s: Seq<(Query, Fact)>) -> Map<Query, FactModel>
    decreases s.len(),
{
    if s.len() == 0 {
        Map::empty()
    } else {
        let prefix = kept_entries(s.drop_last());
        if kind_ok(s.last().0, fact_model(s.last().1)) {
            prefix.insert(s.last().0, fact_model(s.last().1))
        } else {
            prefix
        }
    }
}

/// The key-value entries of a fact list, later entries winning.
pub open spec fn fact_entries(s: Seq<(Query, Fact)>) -> Map<Query, FactModel>
    decreases s.len(),
{
    if s.len() == 0 {
        Map::empty()
    } else {
        fact_entries(s.drop_last()).insert(s.last().0, fact_model(s.last().1))
    }
}

/// Whether a fact list holds each key at most once.
pub open spec fn unique_queries(s: Seq<(Query, Fact)>) -> bool {
    forall|i: int, j: int|
        0 <= i < j < s.len() ==> (#[trigger] s[i]).0 != (#[trigger] s[j]).0
}

/// Whether every entry's fact is of its key's kind.
pub open spec fn kinds_ok(s: Seq<(Query, Fact)>) -> bool {
    forall|i: int| 0 <= i < s.len() ==> kind_ok((#[trigger] s[i]).0, fact_model(s[i].1))
}

/// A key occurs in the list exactly when the entry map holds it.
pub proof fn lemma_fact_entries_contains(s: Seq<(Query, Fact)>, q: Query)
    ensures
        fact_entries(s).contains_key(q) <==> (exists|i: int|
            0 <= i < s.len() && (#[trigger] s[i]).0 == q),
    decreases s.len(),
{
    if s.len() > 0 {
        let prefix = s.drop_last();
        lemma_fact_entries_contains(prefix, q);
        if s.last().0 == q {
            assert(s[s.len() - 1].0 == q);
        } else {
            if fact_entries(s).contains_key(q) {
                let i = choose|i: int| 0 <= i < prefix.len() && (#[trigger] prefix[i]).0 == q;
                assert(s[i].0 == q);
            }
            if exists|i: int| 0 <= i < s.len() && (#[trigger] s[i]).0 == q {
                let i = choose|i: int| 0 <= i < s.len() && (#[trigger] s[i]).0 == q;
                assert(i < s.len() - 1);
                assert(prefix[i].0 == q);
            }
        }
    }
}

/// In a list with unique keys, the entry at any index is what the entry
/// map holds for its key.
pub proof fn lemma_fact_entries_at(s: Seq<(Query, Fact)>, i: int)
    requires
        unique_queries(s),
        0 <= i < s.len(),
    ensures
        fact_entries(s).contains_key(s[i].0),
        fact_entries(s)[s[i].0] == fact_model(s[i].1),
    decreases s.len(),
{
    if i < s.len() - 1 {
        let prefix = s.drop_last();
        assert(unique_queries(prefix)) by {
            assert(forall|x: int| 0 <= x < prefix.len() ==> prefix[x] == s[x]);
        }
        lemma_fact_entries_at(prefix, i);
        assert(s.last().0 != s[i].0);
    }
}

/// Updating the entry at an index replaces exactly that key's fact.
pub proof fn lemma_fact_entries_update(s: Seq<(Query, Fact)>, i: int, f: Fact)
    requires
        unique_queries(s),
        0 <= i < s.len(),
    ensures
        fact_entries(s.update(i, (s[i].0, f))) == fact_entries(s).insert(s[i].0, fact_model(f)),
    decreases s.len(),
{
    let t = s.update(i, (s[i].0, f));
    if i == s.len() - 1 {
        assert(t.drop_last() =~= s.drop_last());
        assert(t.last() == (s[i].0, f));
        assert(fact_entries(t) =~= fact_entries(s).insert(s[i].0, fact_model(f)));
    } else {
        let prefix = s.drop_last();
        assert(unique_queries(prefix)) by {
            assert(forall|x: int| 0 <= x < prefix.len() ==> prefix[x] == s[x]);
        }
        lemma_fact_entries_update(prefix, i, f);
        assert(t.drop_last() =~= prefix.update(i, (s[i].0, f)));
        assert(t.last() == s.last());
        assert(s.last().0 != s[i].0);
        assert(fact_entries(t) =~= fact_entries(s).insert(s[i].0, fact_model(f)));
    }
}

/// The fact cache: a key-value table of previously observed facts.
pub struct FactCache {
    pub entries: Vec<(Query, Fact)>,
}

impl FactCache {
    /// The facts this cache holds.
    pub open spec fn view(self) -> Map<Query, FactModel> {
        fact_entries(self.entries@)
    }

    /// Well-formedness: unique keys, each fact of its key's kind.
    pub open spec fn wf(self) -> bool {
        unique_queries(self.entries@) && kinds_ok(self.entries@)
    }

    /// An empty cache.
    pub fn empty() -> (r: FactCache)
        ensures
            r.wf(),
            r.view() == Map::<Query, FactModel>::empty(),
    {
        FactCache { entries: Vec::new() }
    }

    /// Build a cache from loaded entries, dropping any entry whose fact is
    /// not of its key's kind (a corrupt load is non-fatal). A later entry
    /// for a key overrides an earlier one.
    pub fn from_entries(entries: Vec<(Query, Fact)>) -> (r: FactCache)
        ensures
            r.wf(),
            r.view() == kept_entries(entries@),
    {
        let mut cache = FactCache::empty();
        let n = entries.len();
        let mut i: usize = 0;
        while i < n
            invariant
                n == entries@.len(),
                i <= n,
                cache.wf(),
                cache.view() == kept_entries(entries@.take(i as int)),
            decreases n - i,
        {
            let (q, f) = (entries[i].0, dup_fact(&entries[i].1));
            proof {
                assert(entries@.take(i + 1).drop_last() =~= entries@.take(i as int));
                assert(entries@.take(i + 1).last() == entries@[i as int]);
            }
            if kind_matches(&q, &f) {
                cache.insert(q, f);
            }
            i = i + 1;
        }
        proof {
            assert(entries@.take(n as int) =~= entries@);
        }
        cache
    }

    /// The stored entries, for persistence at the boundary.
    pub fn entries(&self) -> (r: &Vec<(Query, Fact)>)
        ensures
            r == &self.entries,
    {
        &self.entries
    }

    /// The index holding a key, if any.
    fn find_index(&self, q: &Query) -> (r: Option<usize>)
        ensures
            match r {
                Some(i) => i < self.entries@.len() && self.entries@[i as int].0 == *q,
                None => forall|j: int|
                    0 <= j < self.entries@.len() ==> (#[trigger] self.entries@[j]).0 != *q,
            },
    {
        let n = self.entries.len();
        let mut k: usize = 0;
        while k < n
            invariant
                n == self.entries@.len(),
                k <= n,
                forall|j: int| 0 <= j < k ==> (#[trigger] self.entries@[j]).0 != *q,
            decreases n - k,
        {
            if self.entries[k].0 == *q {
                return Some(k);
            }
            k = k + 1;
        }
        None
    }

    /// Look a key up: `Some` exactly on a hit, with the cached fact.
    pub fn lookup(&self, q: &Query) -> (r: Option<&Fact>)
        requires
            self.wf(),
        ensures
            match r {
                Some(f) => self.view().contains_key(*q) && fact_model(*f) == self.view()[*q]
                    && kind_ok(*q, fact_model(*f)),
                None => !self.view().contains_key(*q),
            },
    {
        proof {
            lemma_fact_entries_contains(self.entries@, *q);
        }
        match self.find_index(q) {
            Some(i) => {
                proof {
                    lemma_fact_entries_at(self.entries@, i as int);
                }
                Some(&self.entries[i].1)
            },
            None => None,
        }
    }

    /// Insert a fact under a key: idempotent in the sense that re-inserting
    /// a key simply overwrites its entry.
    pub fn insert(&mut self, q: Query, f: Fact)
        requires
            old(self).wf(),
            kind_ok(q, fact_model(f)),
        ensures
            final(self).wf(),
            final(self).view() == old(self).view().insert(q, fact_model(f)),
    {
        let ghost s0 = self.entries@;
        match self.find_index(&q) {
            Some(i) => {
                self.entries.set(i, (q, f));
                proof {
                    assert(self.entries@ =~= s0.update(i as int, (s0[i as int].0, f)));
                    lemma_fact_entries_update(s0, i as int, f);
                    assert(unique_queries(self.entries@) && kinds_ok(self.entries@)) by {
                        assert(forall|x: int|
                            0 <= x < s0.len() && x != i ==> (#[trigger] self.entries@[x]) == s0[x]);
                        assert(self.entries@[i as int].0 == s0[i as int].0);
                    }
                }
            },
            None => {
                self.entries.push((q, f));
                proof {
                    assert(self.entries@.drop_last() =~= s0);
                    assert(self.entries@.last() == (q, f));
                    assert(unique_queries(self.entries@) && kinds_ok(self.entries@)) by {
                        assert(forall|x: int|
                            0 <= x < s0.len() ==> (#[trigger] self.entries@[x]) == s0[x]);
                    }
                }
            },
        }
    }
}

/// The chain data source: the deterministic table of historical facts a
/// live endpoint would serve, with a count of the live fetches made.
pub struct ChainDataSource {
    pub facts: FactCache,
    pub fetch_count: u64,
}

impl ChainDataSource {
    /// The facts the source can serve.
    pub open spec fn view(self) -> Map<Query, FactModel> {
        self.facts.view()
    }

    /// Well-formedness of the fact table.
    pub open spec fn wf(self) -> bool {
        self.facts.wf()
    }

    /// A source over a fact table, with no fetches made yet.
    pub fn new(facts: FactCache) -> (r: ChainDataSource)
        ensures
            r.wf() == facts.wf(),
            r.view() == facts.view(),
            r.fetch_count == 0,
    {
        ChainDataSource { facts, fetch_count: 0 }
    }

    /// Perform one live fetch: always counted, successful exactly when the
    /// source knows the fact.
    pub fn fetch(&mut self, q: &Query) -> (r: Result<Fact, Error>)
        requires
            old(self).wf(),
            old(self).fetch_count < u64::MAX,
        ensures
            final(self).wf(),
            final(self).view() == old(self).view(),
            final(self).fetch_count == old(self).fetch_count + 1,
            match r {
                Ok(f) => old(self).view().contains_key(*q) && fact_model(f) == old(self).view()[*q]
                    && kind_ok(*q, fact_model(f)),
                Err(e) => !old(self).view().contains_key(*q) && e == Error::ProviderFailure,
            },
    {
        self.fetch_count = self.fetch_count + 1;
        match self.facts.lookup(q) {
            Some(f) => Ok(dup_fact(f)),
            None => Err(Error::ProviderFailure),
        }
    }
}

/// What a read-through get resolves to: a cache hit, a fact fetched live,
/// or a failure because neither side knows the fact.
#[verifier::ext_equal]
pub enum ReadOutcome {
    Hit(FactModel),
    Fetched(FactModel),
    Failed,
}

/// The read-through resolution: the cache takes precedence, even over a
/// live source that would answer differently; only on a miss is the source
/// consulted.
pub open spec fn read_through(
    cache: Map<Query, FactModel>,
    source: Map<Query, FactModel>,
    q: Query,
) -> ReadOutcome {
    if cache.contains_key(q) {
        ReadOutcome::Hit(cache[q])
    } else if source.contains_key(q) {
        ReadOutcome::Fetched(source[q])
    } else {
        ReadOutcome::Failed
    }
}

/// Cache idempotence: after a fact is inserted, a lookup for its key
/// resolves to exactly that fact, whatever the source holds.
pub proof fn lemma_cache_idempotence(
    cache: Map<Query, FactModel>,
    source: Map<Query, FactModel>,
    q: Query,
    f: FactModel,
)
    ensures
        read_through(cache.insert(q, f), source, q) == ReadOutcome::Hit(f),
{
}

/// Cache precedence: once a key is cached, the resolution is the cached
/// fact and does not depend on the source at all.
pub proof fn lemma_cache_precedence(
    cache: Map<Query, FactModel>,
    source1: Map<Query, FactModel>,
    source2: Map<Query, FactModel>,
    q: Query,
)
    requires
        cache.contains_key(q),
    ensures
        read_through(cache, source1, q) == ReadOutcome::Hit(cache[q]),
        read_through(cache, source1, q) == read_through(cache, source2, q),
{
}

/// The cached provider: fact cache composed with the chain data source.
pub struct CachedRpcProvider {
    pub cache: FactCache,
    pub rpc: ChainDataSource,
}

/// The first transaction with a hash in a block's list, front to back.
pub open spec fn find_tx(txs: Seq<ProviderTx>, h: B256) -> Option<ProviderTx>
    decreases txs.len(),
{
    if txs.len() == 0 {
        None
    } else if txs.first().hash == h {
        Some(txs.first())
    } else {
        find_tx(txs.drop_first(), h)
    }
}

/// The transaction a cached full block can answer for a query, if any.
pub open spec fn block_search(cache: Map<Query, FactModel>, q: TxQuery) -> Option<ProviderTx> {
    match q.block_no {
        Some(bn) => {
            let key = Query::FullBlock(BlockQuery { block_no: bn });
            if cache.contains_key(key) {
                match cache[key] {
                    FactModel::FullBlock(bd) => find_tx(bd.transactions, q.tx_hash),
                    _ => None,
                }
            } else {
                None
            }
        },
        None => None,
    }
}

/// What a transaction get resolves to: when a height hint names a cached
/// full block holding the hash, that block's list answers first (no live
/// call for a block already cached); otherwise the ordinary read-through.
pub open spec fn tx_read_through(
    cache: Map<Query, FactModel>,
    source: Map<Query, FactModel>,
    q: TxQuery,
) -> ReadOutcome {
    match block_search(cache, q) {
        Some(t) => ReadOutcome::Hit(FactModel::Transaction(t)),
        None => read_through(cache, source, Query::Transaction(q.tx_hash)),
    }
}

impl CachedRpcProvider {
    /// Well-formedness of both sides.
    pub open spec fn wf(self) -> bool {
        self.cache.wf() && self.rpc.wf()
    }

    /// Compose a cache (as loaded at startup; empty when the load failed)
    /// with a chain data source.
    pub fn new(cache: FactCache, rpc: ChainDataSource) -> (r: CachedRpcProvider)
        requires
            cache.wf(),
            rpc.wf(),
        ensures
            r.wf(),
            r.cache.view() == cache.view(),
            r.rpc.view() == rpc.view(),
            r.rpc.fetch_count == rpc.fetch_count,
    {
        CachedRpcProvider { cache, rpc }
    }

    /// Read-through get of one fact: on a hit the cached fact is returned
    /// unchanged and nothing is fetched; on a miss exactly one live fetch
    /// is made and, on success, exactly one entry inserted.
    fn get_fact(&mut self, q: &Query) -> (r: Result<Fact, Error>)
        requires
            old(self).wf(),
            old(self).rpc.fetch_count < u64::MAX,
        ensures
            final(self).wf(),
            final(self).rpc.view() == old(self).rpc.view(),
            match read_through(old(self).cache.view(), old(self).rpc.view(), *q) {
                ReadOutcome::Hit(fm) => r matches Ok(f) && fact_model(f) == fm && kind_ok(*q, fm)
                    && final(self).cache.view() == old(self).cache.view() && final(self).rpc.fetch_count == old(self).rpc.fetch_count,
                ReadOutcome::Fetched(fm) => r matches Ok(f) && fact_model(f) == fm && kind_ok(
                    *q,
                    fm,
                ) && final(self).cache.view() == old(self).cache.view().insert(*q, fm) && final(self).rpc.fetch_count == old(self).rpc.fetch_count + 1,
                ReadOutcome::Failed => r == Err::<Fact, Error>(Error::ProviderFailure) && final(self).cache.view() == old(self).cache.view() && final(self).rpc.fetch_count == old(self).rpc.fetch_count + 1,
            },
    {
        match self.cache.lookup(q) {
            Some(f) => {
                let copy = dup_fact(f);
                return Ok(copy);
            },
            None => {
            },
        }
        match self.rpc.fetch(q) {
            Ok(f) => {
                let copy = dup_fact(&f);
                self.cache.insert(*q, f);
                Ok(copy)
            },
            Err(e) => Err(e),
        }
    }

    /// Get a block with its transactions.
    pub fn get_full_block(&mut self, query: &BlockQuery) -> (r: Result<BlockData, Error>)
        requires
            old(self).wf(),
            old(self).rpc.fetch_count < u64::MAX,
        ensures
            final(self).wf(),
            final(self).rpc.view() == old(self).rpc.view(),
            match read_through(
                old(self).cache.view(),
                old(self).rpc.view(),
                Query::FullBlock(*query),
            ) {
                ReadOutcome::Hit(fm) => r matches Ok(b) && fm == FactModel::FullBlock(
                    block_model(b),
                ) && final(self).cache.view() == old(self).cache.view() && final(self).rpc.fetch_count == old(self).rpc.fetch_count,
                ReadOutcome::Fetched(fm) => r matches Ok(b) && fm == FactModel::FullBlock(
                    block_model(b),
                ) && final(self).cache.view() == old(self).cache.view().insert(
                    Query::FullBlock(*query),
                    fm,
                ) && final(self).rpc.fetch_count == old(self).rpc.fetch_count + 1,
                ReadOutcome::Failed => r == Err::<BlockData, Error>(Error::ProviderFailure)
                    && final(self).cache.view() == old(self).cache.view() && final(self).rpc.fetch_count == old(self).rpc.fetch_count + 1,
            },
    {
        match self.get_fact(&Query::FullBlock(*query)) {
            Ok(f) => match f {
                Fact::FullBlock(b) => Ok(b),
                _ => {
                    proof {
                        assert(false);
                    }
                    Err(Error::DatabaseInconsistency)
                },
            },
            Err(e) => Err(e),
        }
    }

    /// Get a block header.
    pub fn get_partial_block(&mut self, query: &BlockQuery) -> (r: Result<PartialBlockData, Error>)
        requires
            old(self).wf(),
            old(self).rpc.fetch_count < u64::MAX,
        ensures
            final(self).wf(),
            final(self).rpc.view() == old(self).rpc.view(),
            match read_through(
                old(self).cache.view(),
                old(self).rpc.view(),
                Query::PartialBlock(*query),
            ) {
                ReadOutcome::Hit(fm) => r matches Ok(b) && fm == FactModel::PartialBlock(b)
                    && final(self).cache.view() == old(self).cache.view() && final(self).rpc.fetch_count == old(self).rpc.fetch_count,
                ReadOutcome::Fetched(fm) => r matches Ok(b) && fm == FactModel::PartialBlock(b)
                    && final(self).cache.view() == old(self).cache.view().insert(
                    Query::PartialBlock(*query),
                    fm,
                ) && final(self).rpc.fetch_count == old(self).rpc.fetch_count + 1,
                ReadOutcome::Failed => r == Err::<PartialBlockData, Error>(Error::ProviderFailure)
                    && final(self).cache.view() == old(self).cache.view() && final(self).rpc.fetch_count == old(self).rpc.fetch_count + 1,
            },
    {
        match self.get_fact(&Query::PartialBlock(*query)) {
            Ok(f) => match f {
                Fact::PartialBlock(b) => Ok(b),
                _ => {
                    proof {
                        assert(false);
                    }
                    Err(Error::DatabaseInconsistency)
                },
            },
            Err(e) => Err(e),
        }
    }

    /// Get a block's receipts.
    pub fn get_block_receipts(&mut self, query: &BlockQuery) -> (r: Result<Vec<Receipt>, Error>)
        requires
            old(self).wf(),
            old(self).rpc.fetch_count < u64::MAX,
        ensures
            final(self).wf(),
            final(self).rpc.view() == old(self).rpc.view(),
            match read_through(
                old(self).cache.view(),
                old(self).rpc.view(),
                Query::Receipts(*query),
            ) {
                ReadOutcome::Hit(fm) => r matches Ok(v) && fm == FactModel::Receipts(v@) && final(self).cache.view() == old(self).cache.view() && final(self).rpc.fetch_count == old(self).rpc.fetch_count,
                ReadOutcome::Fetched(fm) => r matches Ok(v) && fm == FactModel::Receipts(v@)
                    && final(self).cache.view() == old(self).cache.view().insert(
                    Query::Receipts(*query),
                    fm,
                ) && final(self).rpc.fetch_count == old(self).rpc.fetch_count + 1,
                ReadOutcome::Failed => r == Err::<Vec<Receipt>, Error>(Error::ProviderFailure)
                    && final(self).cache.view() == old(self).cache.view() && final(self).rpc.fetch_count == old(self).rpc.fetch_count + 1,
            },
    {
        match self.get_fact(&Query::Receipts(*query)) {
            Ok(f) => match f {
                Fact::Receipts(v) => {
                    proof {
                        assert(FactModel::Receipts(v@) =~= fact_model(Fact::Receipts(v)));
                    }
                    Ok(v)
                },
                _ => {
                    proof {
                        assert(false);
                    }
                    Err(Error::DatabaseInconsistency)
                },
            },
            Err(e) => Err(e),
        }
    }

    /// Get an account proof.
    pub fn get_proof(&mut self, query: &ProofQuery) -> (r: Result<ProofData, Error>)
        requires
            old(self).wf(),
            old(self).rpc.fetch_count < u64::MAX,
        ensures
            final(self).wf(),
            final(self).rpc.view() == old(self).rpc.view(),
            match read_through(old(self).cache.view(), old(self).rpc.view(), Query::Proof(*query)) {
                ReadOutcome::Hit(fm) => r matches Ok(p) && fm == FactModel::Proof(p) && final(self).cache.view() == old(self).cache.view() && final(self).rpc.fetch_count == old(self).rpc.fetch_count,
                ReadOutcome::Fetched(fm) => r matches Ok(p) && fm == FactModel::Proof(p) && final(self).cache.view() == old(self).cache.view().insert(Query::Proof(*query), fm) && final(self).rpc.fetch_count == old(self).rpc.fetch_count + 1,
                ReadOutcome::Failed => r == Err::<ProofData, Error>(Error::ProviderFailure)
                    && final(self).cache.view() == old(self).cache.view() && final(self).rpc.fetch_count == old(self).rpc.fetch_count + 1,
            },
    {
        match self.get_fact(&Query::Proof(*query)) {
            Ok(f) => match f {
                Fact::Proof(p) => Ok(p),
                _ => {
                    proof {
                        assert(false);
                    }
                    Err(Error::DatabaseInconsistency)
                },
            },
            Err(e) => Err(e),
        }
    }

    /// Get an account's transaction count.
    pub fn get_transaction_count(&mut self, query: &AccountQuery) -> (r: Result<U256, Error>)
        requires
            old(self).wf(),
            old(self).rpc.fetch_count < u64::MAX,
        ensures
            final(self).wf(),
            final(self).rpc.view() == old(self).rpc.view(),
            match read_through(
                old(self).cache.view(),
                old(self).rpc.view(),
                Query::TxCount(*query),
            ) {
                ReadOutcome::Hit(fm) => r matches Ok(n) && fm == FactModel::TxCount(n) && final(self).cache.view() == old(self).cache.view() && final(self).rpc.fetch_count == old(self).rpc.fetch_count,
                ReadOutcome::Fetched(fm) => r matches Ok(n) && fm == FactModel::TxCount(n) && final(self).cache.view() == old(self).cache.view().insert(Query::TxCount(*query), fm)
                    && final(self).rpc.fetch_count == old(self).rpc.fetch_count + 1,
                ReadOutcome::Failed => r == Err::<U256, Error>(Error::ProviderFailure) && final(self).cache.view() == old(self).cache.view() && final(self).rpc.fetch_count == old(self).rpc.fetch_count + 1,
            },
    {
        match self.get_fact(&Query::TxCount(*query)) {
            Ok(f) => match f {
                Fact::TxCount(n) => Ok(n),
                _ => {
                    proof {
                        assert(false);
                    }
                    Err(Error::DatabaseInconsistency)
                },
            },
            Err(e) => Err(e),
        }
    }

    /// Get an account's balance.
    pub fn get_balance(&mut self, query: &AccountQuery) -> (r: Result<U256, Error>)
        requires
            old(self).wf(),
            old(self).rpc.fetch_count < u64::MAX,
        ensures
            final(self).wf(),
            final(self).rpc.view() == old(self).rpc.view(),
            match read_through(
                old(self).cache.view(),
                old(self).rpc.view(),
                Query::Balance(*query),
            ) {
                ReadOutcome::Hit(fm) => r matches Ok(v) && fm == FactModel::Balance(v) && final(self).cache.view() == old(self).cache.view() && final(self).rpc.fetch_count == old(self).rpc.fetch_count,
                ReadOutcome::Fetched(fm) => r matches Ok(v) && fm == FactModel::Balance(v) && final(self).cache.view() == old(self).cache.view().insert(Query::Balance(*query), fm)
                    && final(self).rpc.fetch_count == old(self).rpc.fetch_count + 1,
                ReadOutcome::Failed => r == Err::<U256, Error>(Error::ProviderFailure) && final(self).cache.view() == old(self).cache.view() && final(self).rpc.fetch_count == old(self).rpc.fetch_count + 1,
            },
    {
        match self.get_fact(&Query::Balance(*query)) {
            Ok(f) => match f {
                Fact::Balance(v) => Ok(v),
                _ => {
                    proof {
                        assert(false);
                    }
                    Err(Error::DatabaseInconsistency)
                },
            },
            Err(e) => Err(e),
        }
    }

    /// Get an account's code.
    pub fn get_code(&mut self, query: &AccountQuery) -> (r: Result<Vec<u8>, Error>)
        requires
            old(self).wf(),
            old(self).rpc.fetch_count < u64::MAX,
        ensures
            final(self).wf(),
            final(self).rpc.view() == old(self).rpc.view(),
            match read_through(old(self).cache.view(), old(self).rpc.view(), Query::Code(*query)) {
                ReadOutcome::Hit(fm) => r matches Ok(c) && fm == FactModel::Code(c@) && final(self).cache.view() == old(self).cache.view() && final(self).rpc.fetch_count == old(self).rpc.fetch_count,
                ReadOutcome::Fetched(fm) => r matches Ok(c) && fm == FactModel::Code(c@) && final(self).cache.view() == old(self).cache.view().insert(Query::Code(*query), fm) && final(self).rpc.fetch_count == old(self).rpc.fetch_count + 1,
                ReadOutcome::Failed => r == Err::<Vec<u8>, Error>(Error::ProviderFailure) && final(self).cache.view() == old(self).cache.view() && final(self).rpc.fetch_count == old(self).rpc.fetch_count + 1,
            },
    {
        match self.get_fact(&Query::Code(*query)) {
            Ok(f) => match f {
                Fact::Code(c) => {
                    proof {
                        assert(FactModel::Code(c@) =~= fact_model(Fact::Code(c)));
                    }
                    Ok(c)
                },
                _ => {
                    proof {
                        assert(false);
                    }
                    Err(Error::DatabaseInconsistency)
                },
            },
            Err(e) => Err(e),
        }
    }

    /// Get a storage slot.
    pub fn get_storage(&mut self, query: &StorageQuery) -> (r: Result<B256, Error>)
        requires
            old(self).wf(),
            old(self).rpc.fetch_count < u64::MAX,
        ensures
            final(self).wf(),
            final(self).rpc.view() == old(self).rpc.view(),
            match read_through(
                old(self).cache.view(),
                old(self).rpc.view(),
                Query::Storage(*query),
            ) {
                ReadOutcome::Hit(fm) => r matches Ok(w) && fm == FactModel::Storage(w) && final(self).cache.view() == old(self).cache.view() && final(self).rpc.fetch_count == old(self).rpc.fetch_count,
                ReadOutcome::Fetched(fm) => r matches Ok(w) && fm == FactModel::Storage(w) && final(self).cache.view() == old(self).cache.view().insert(Query::Storage(*query), fm)
                    && final(self).rpc.fetch_count == old(self).rpc.fetch_count + 1,
                ReadOutcome::Failed => r == Err::<B256, Error>(Error::ProviderFailure) && final(self).cache.view() == old(self).cache.view() && final(self).rpc.fetch_count == old(self).rpc.fetch_count + 1,
            },
    {
        match self.get_fact(&Query::Storage(*query)) {
            Ok(f) => match f {
                Fact::Storage(w) => Ok(w),
                _ => {
                    proof {
                        assert(false);
                    }
                    Err(Error::DatabaseInconsistency)
                },
            },
            Err(e) => Err(e),
        }
    }

    /// Get the logs matching a filter.
    pub fn get_logs(&mut self, query: &LogsQuery) -> (r: Result<Vec<LogEntry>, Error>)
        requires
            old(self).wf(),
            old(self).rpc.fetch_count < u64::MAX,
        ensures
            final(self).wf(),
            final(self).rpc.view() == old(self).rpc.view(),
            match read_through(old(self).cache.view(), old(self).rpc.view(), Query::Logs(*query)) {
                ReadOutcome::Hit(fm) => r matches Ok(v) && fm == FactModel::Logs(v@) && final(self).cache.view() == old(self).cache.view() && final(self).rpc.fetch_count == old(self).rpc.fetch_count,
                ReadOutcome::Fetched(fm) => r matches Ok(v) && fm == FactModel::Logs(v@) && final(self).cache.view() == old(self).cache.view().insert(Query::Logs(*query), fm) && final(self).rpc.fetch_count == old(self).rpc.fetch_count + 1,
                ReadOutcome::Failed => r == Err::<Vec<LogEntry>, Error>(Error::ProviderFailure)
                    && final(self).cache.view() == old(self).cache.view() && final(self).rpc.fetch_count == old(self).rpc.fetch_count + 1,
            },
    {
        match self.get_fact(&Query::Logs(*query)) {
            Ok(f) => match f {
                Fact::Logs(v) => {
                    proof {
                        assert(FactModel::Logs(v@) =~= fact_model(Fact::Logs(v)));
                    }
                    Ok(v)
                },
                _ => {
                    proof {
                        assert(false);
                    }
                    Err(Error::DatabaseInconsistency)
                },
            },
            Err(e) => Err(e),
        }
    }

    /// Get a transaction by hash. When the query names a block that is
    /// already cached in full, that block's transaction list answers the
    /// query without a live call; only otherwise does the ordinary
    /// read-through happen.
    #[verifier::loop_isolation(false)]
    pub fn get_transaction(&mut self, query: &TxQuery) -> (r: Result<ProviderTx, Error>)
        requires
            old(self).wf(),
            old(self).rpc.fetch_count < u64::MAX,
        ensures
            final(self).wf(),
            final(self).rpc.view() == old(self).rpc.view(),
            match tx_read_through(old(self).cache.view(), old(self).rpc.view(), *query) {
                ReadOutcome::Hit(fm) => r matches Ok(t) && fm == FactModel::Transaction(t) && final(self).cache.view() == old(self).cache.view() && final(self).rpc.fetch_count == old(self).rpc.fetch_count,
                ReadOutcome::Fetched(fm) => r matches Ok(t) && fm == FactModel::Transaction(t)
                    && final(self).cache.view() == old(self).cache.view().insert(
                    Query::Transaction(query.tx_hash),
                    fm,
                ) && final(self).rpc.fetch_count == old(self).rpc.fetch_count + 1,
                ReadOutcome::Failed => r == Err::<ProviderTx, Error>(Error::ProviderFailure)
                    && final(self).cache.view() == old(self).cache.view() && final(self).rpc.fetch_count == old(self).rpc.fetch_count + 1,
            },
    {
        if let Some(block_no) = query.block_no {
            match self.cache.lookup(&Query::FullBlock(BlockQuery { block_no })) {
                Some(f) => match f {
                    Fact::FullBlock(bd) => {
                        let txs = &bd.transactions;
                        let n = txs.len();
                        let mut k: usize = 0;
                        proof {
                            assert(txs@.skip(0) =~= txs@);
                        }
                        while k < n
                            invariant
                                n == txs@.len(),
                                k <= n,
                                find_tx(txs@, query.tx_hash) == find_tx(
                                    txs@.skip(k as int),
                                    query.tx_hash,
                                ),
                            decreases n - k,
                        {
                            proof {
                                assert(txs@.skip(k as int).first() == txs@[k as int]);
                                assert(txs@.skip(k as int).drop_first() =~= txs@.skip(k + 1));
                            }
                            if txs[k].hash == query.tx_hash {
                                return Ok(txs[k]);
                            }
                            k = k + 1;
                        }
                        proof {
                            assert(txs@.skip(n as int) =~= Seq::<ProviderTx>::empty());
                        }
                    },
                    _ => {
                        proof {
                            assert(false);
                        }
                        return Err(Error::DatabaseInconsistency);
                    },
                },
                None => {
                },
            }
        }
        match self.cache.lookup(&Query::Transaction(query.tx_hash)) {
            Some(f) => match f {
                Fact::Transaction(t) => {
                    return Ok(*t);
                },
                _ => {
                    proof {
                        assert(false);
                    }
                    return Err(Error::DatabaseInconsistency);
                },
            },
            None => {
            },
        }
        match self.rpc.fetch(&Query::Transaction(query.tx_hash)) {
            Ok(f) => {
                let t = match &f {
                    Fact::Transaction(t) => *t,
                    _ => {
                        proof {
                            assert(false);
                        }
                        return Err(Error::DatabaseInconsistency);
                    },
                };
                self.cache.insert(Query::Transaction(query.tx_hash), f);
                Ok(t)
            },
            Err(e) => Err(e),
        }
    }
}

} // verus!
