//! The cached provider: idempotence, precedence, and fetch counting.

use block_replay::error::Error;
use block_replay::provider::{
    AccountQuery, BlockData, BlockQuery, CachedRpcProvider, ChainDataSource, Fact, FactCache,
    ProviderTx, Query, TxQuery,
};
use block_replay::transactions::TransactionKind;
use block_replay::types::{Address, B256};
use block_replay::u256::U256;

fn addr(n: u128) -> Address {
    Address { hi: 0, lo: n }
}

fn hash(n: u128) -> B256 {
    B256 { hi: 0, lo: n }
}

fn balance_query(block_no: u64, a: Address) -> AccountQuery {
    AccountQuery { block_no, address: a }
}

fn source_with_balance(block_no: u64, a: Address, v: u128) -> ChainDataSource {
    let mut table = FactCache::empty();
    table.insert(
        Query::Balance(AccountQuery { block_no, address: a }),
        Fact::Balance(U256::from_u128(v)),
    );
    ChainDataSource::new(table)
}

#[test]
fn miss_fetches_once_and_inserts_once() {
    // a cache miss on a balance query: one live fetch, one insert;
    // an identical query afterwards: zero live fetches
    let a = addr(1);
    let mut provider = CachedRpcProvider::new(FactCache::empty(), source_with_balance(5, a, 42));
    let v = provider.get_balance(&balance_query(5, a)).unwrap();
    assert_eq!(v, U256::from_u128(42));
    assert_eq!(provider.rpc.fetch_count, 1);
    assert_eq!(provider.cache.entries().len(), 1);

    let v2 = provider.get_balance(&balance_query(5, a)).unwrap();
    assert_eq!(v2, U256::from_u128(42));
    assert_eq!(provider.rpc.fetch_count, 1);
    assert_eq!(provider.cache.entries().len(), 1);
}

#[test]
fn cache_insert_then_lookup_hits_with_inserted_value() {
    let mut cache = FactCache::empty();
    let q = Query::Balance(balance_query(9, addr(2)));
    assert!(cache.lookup(&q).is_none());
    cache.insert(q, Fact::Balance(U256::from_u128(77)));
    match cache.lookup(&q) {
        Some(Fact::Balance(v)) => assert_eq!(*v, U256::from_u128(77)),
        _ => panic!("expected the inserted balance"),
    }
    // overwriting the same key keeps exactly one entry
    cache.insert(q, Fact::Balance(U256::from_u128(78)));
    assert_eq!(cache.entries().len(), 1);
    match cache.lookup(&q) {
        Some(Fact::Balance(v)) => assert_eq!(*v, U256::from_u128(78)),
        _ => panic!("expected the overwritten balance"),
    }
}

#[test]
fn cached_value_takes_precedence_over_a_differing_source() {
    let a = addr(3);
    let mut cache = FactCache::empty();
    cache.insert(Query::Balance(balance_query(5, a)), Fact::Balance(U256::from_u128(5)));
    // the simulated live source would answer differently
    let mut provider = CachedRpcProvider::new(cache, source_with_balance(5, a, 7));
    let v = provider.get_balance(&balance_query(5, a)).unwrap();
    assert_eq!(v, U256::from_u128(5));
    assert_eq!(provider.rpc.fetch_count, 0);
}

#[test]
fn unknown_fact_is_a_provider_failure() {
    let mut provider = CachedRpcProvider::new(FactCache::empty(), ChainDataSource::new(FactCache::empty()));
    let r = provider.get_balance(&balance_query(5, addr(4)));
    assert_eq!(r, Err(Error::ProviderFailure));
    assert_eq!(provider.rpc.fetch_count, 1);
}

fn block_with_txs(block_no: u64, txs: Vec<ProviderTx>) -> Fact {
    Fact::FullBlock(BlockData {
        block_no,
        hash: hash(1000 + block_no as u128),
        parent_hash: hash(999 + block_no as u128),
        gas_limit: U256::from_u64(30_000_000),
        timestamp: 1,
        transactions: txs,
    })
}

fn provider_tx(h: B256) -> ProviderTx {
    ProviderTx {
        hash: h,
        from: addr(50),
        to: TransactionKind::Call(addr(51)),
        value: U256::from_u128(1),
        nonce: 0,
    }
}

#[test]
fn cached_block_answers_transaction_query_without_fetch() {
    let wanted = hash(0xabc);
    let mut cache = FactCache::empty();
    cache.insert(
        Query::FullBlock(BlockQuery { block_no: 7 }),
        block_with_txs(7, vec![provider_tx(hash(0x111)), provider_tx(wanted)]),
    );
    let mut provider = CachedRpcProvider::new(cache, ChainDataSource::new(FactCache::empty()));
    let t = provider
        .get_transaction(&TxQuery { tx_hash: wanted, block_no: Some(7) })
        .unwrap();
    assert_eq!(t.hash, wanted);
    assert_eq!(provider.rpc.fetch_count, 0);
    // the block search does not insert a transaction entry
    assert_eq!(provider.cache.entries().len(), 1);
}

#[test]
fn transaction_query_falls_back_to_live_fetch() {
    let wanted = hash(0xdef);
    let mut table = FactCache::empty();
    table.insert(Query::Transaction(wanted), Fact::Transaction(provider_tx(wanted)));
    let mut provider = CachedRpcProvider::new(FactCache::empty(), ChainDataSource::new(table));
    let t = provider
        .get_transaction(&TxQuery { tx_hash: wanted, block_no: None })
        .unwrap();
    assert_eq!(t.hash, wanted);
    assert_eq!(provider.rpc.fetch_count, 1);
    assert_eq!(provider.cache.entries().len(), 1);

    // now cached: a second query makes no live call
    let t2 = provider
        .get_transaction(&TxQuery { tx_hash: wanted, block_no: None })
        .unwrap();
    assert_eq!(t2.hash, wanted);
    assert_eq!(provider.rpc.fetch_count, 1);
}

#[test]
fn corrupt_entries_are_dropped_on_load() {
    // a balance key carrying a storage fact is not of its key's kind
    let entries = vec![
        (Query::Balance(balance_query(1, addr(1))), Fact::Storage(hash(1))),
        (Query::Balance(balance_query(2, addr(2))), Fact::Balance(U256::from_u128(9))),
    ];
    let cache = FactCache::from_entries(entries);
    assert_eq!(cache.entries().len(), 1);
    assert!(cache.lookup(&Query::Balance(balance_query(2, addr(2)))).is_some());
}
