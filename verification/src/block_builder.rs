//! The block builder: resolves the active rule-set, then drives the
//! selected execution strategy over the block's transactions.

use vstd::prelude::*;

use crate::chain_spec::ChainSpec;
use crate::error::Error;
use crate::exec_db::{AccountModel, ExecDb};
use crate::strategy::{execute_transactions, replay, ExecutionStrategy};
use crate::transactions::Transaction;
use crate::types::Address;

verus! {

/// The builder for one block: the chain specification, the height being
/// built, and the execution database the strategy owns for the replay.
pub struct BlockBuilder {
    pub chain_spec: ChainSpec,
    pub block_no: u64,
    pub db: ExecDb,
}

impl BlockBuilder {
    /// Whether the builder's database is well-formed.
    pub open spec fn wf(self) -> bool {
        self.db.wf()
    }

    /// Assemble a builder.
    pub fn new(chain_spec: ChainSpec, block_no: u64, db: ExecDb) -> (r: BlockBuilder)
        ensures
            r.chain_spec == chain_spec,
            r.block_no == block_no,
            r.db == db,
    {
        BlockBuilder { chain_spec, block_no, db }
    }

    /// Replay the block's transactions under the selected strategy. A
    /// height at which no fork is active yet cannot be built. On success
    /// the returned builder holds exactly the replayed state; on an error
    /// the builder is consumed and no partial state survives.
    pub fn execute_transactions(
        self,
        strategy: ExecutionStrategy,
        txs: &Vec<Transaction>,
    ) -> (r: Result<BlockBuilder, Error>)
        requires
            self.wf(),
        ensures
            match r {
                Ok(b2) => self.chain_spec.spec_active_fork(self.block_no) is Some && b2.chain_spec
                    == self.chain_spec && b2.block_no == self.block_no && b2.wf() && replay(
                    self.db.view(),
                    txs@,
                    strategy,
                ) == Ok::<Map<Address, AccountModel>, Error>(b2.db.view()),
                Err(e) => (self.chain_spec.spec_active_fork(self.block_no) is None && e
                    == Error::InvalidTransaction) || (self.chain_spec.spec_active_fork(
                    self.block_no,
                ) is Some && replay(self.db.view(), txs@, strategy) == Err::<
                    Map<Address, AccountModel>,
                    Error,
                >(e)),
            },
    {
        if self.chain_spec.active_fork(self.block_no).is_none() {
            return Err(Error::InvalidTransaction);
        }
        let BlockBuilder { chain_spec, block_no, db } = self;
        match execute_transactions(db, strategy, txs) {
            Ok(db2) => Ok(BlockBuilder { chain_spec, block_no, db: db2 }),
            Err(e) => Err(e),
        }
    }
}

} // verus!
