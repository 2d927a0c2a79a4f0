//! ERC-20 queries of the first prover version.

use vstd::prelude::*;
use crate::manager::ProverError;

verus! {

/// The ERC-20 query task runner.
pub struct Query<P> {
    prover: P,
}

impl<P> Query<P> {
    pub fn new(prover: P) -> (r: Self)
        ensures
            r.prover() == prover,
    {
        Query { prover }
    }

    pub closed spec fn prover(&self) -> P {
        self.prover
    }
}

/// The dummy ERC-20 query prover.
pub struct DummyProver;

/// A query task, as far as the planner reads it.
pub enum QueryTaskKind {
    StorageLeaf { block_number: u64, position: u64 },
    StorageBranch { block_number: u64, position: u64 },
    StateEntry { block_number: u64 },
    BlockPartialNode { position: u64 },
    BlockFullNode { position: u64 },
    Revelation,
}

/// The key a query proof is stored under.
#[derive(Debug)]
pub enum QueryProofKey {
    StorageEntry(String, u64, u64),
    StateDatabase(String, u64),
    Aggregation(String, u64),
    Revelation(String),
}

/// The circuit that proves a query task.
#[derive(Clone, Copy, Debug, PartialEq, Eq, Structural)]
pub enum QueryCircuit {
    StorageLeaf,
    StorageBranch,
    StateDb,
    BlockPartialNode,
    BlockFullNode,
    Revelation,
}

/// The key and circuit of a task of query `query_id`: storage proofs are
/// keyed by block and position, state proofs by block, block-tree proofs by
/// position, the revelation by the query alone.
pub open spec fn query_plan_matches(query_id: Seq<char>, task: QueryTaskKind, r: (QueryProofKey, QueryCircuit)) -> bool {
    match task {
        QueryTaskKind::StorageLeaf { block_number, position } => (r.0 matches QueryProofKey::StorageEntry(q, b, p)
            && q@ == query_id && b == block_number && p == position) && r.1 == QueryCircuit::StorageLeaf,
        QueryTaskKind::StorageBranch { block_number, position } => (r.0 matches QueryProofKey::StorageEntry(
            q,
            b,
            p,
        ) && q@ == query_id && b == block_number && p == position) && r.1 == QueryCircuit::StorageBranch,
        QueryTaskKind::StateEntry { block_number } => (r.0 matches QueryProofKey::StateDatabase(q, b) && q@
            == query_id && b == block_number) && r.1 == QueryCircuit::StateDb,
        QueryTaskKind::BlockPartialNode { position } => (r.0 matches QueryProofKey::Aggregation(q, p) && q@
            == query_id && p == position) && r.1 == QueryCircuit::BlockPartialNode,
        QueryTaskKind::BlockFullNode { position } => (r.0 matches QueryProofKey::Aggregation(q, p) && q@
            == query_id && p == position) && r.1 == QueryCircuit::BlockFullNode,
        QueryTaskKind::Revelation => (r.0 matches QueryProofKey::Revelation(q) && q@ == query_id) && r.1
            == QueryCircuit::Revelation,
    }
}

/// Plans a task of query `query_id`.
pub fn plan_query_task(query_id: &str, task: &QueryTaskKind) -> (r: (QueryProofKey, QueryCircuit))
    ensures
        query_plan_matches(query_id@, *task, r),
{
    let q = String::from_str(query_id);
    match task {
        QueryTaskKind::StorageLeaf { block_number, position } => (
            QueryProofKey::StorageEntry(q, *block_number, *position),
            QueryCircuit::StorageLeaf,
        ),
        QueryTaskKind::StorageBranch { block_number, position } => (
            QueryProofKey::StorageEntry(q, *block_number, *position),
            QueryCircuit::StorageBranch,
        ),
        QueryTaskKind::StateEntry { block_number } => (
            QueryProofKey::StateDatabase(q, *block_number),
            QueryCircuit::StateDb,
        ),
        QueryTaskKind::BlockPartialNode { position } => (
            QueryProofKey::Aggregation(q, *position),
            QueryCircuit::BlockPartialNode,
        ),
        QueryTaskKind::BlockFullNode { position } => (
            QueryProofKey::Aggregation(q, *position),
            QueryCircuit::BlockFullNode,
        ),
        QueryTaskKind::Revelation => (QueryProofKey::Revelation(q), QueryCircuit::Revelation),
    }
}

/// The reply to a query task: the chain it is for (always 0 for these
/// queries), and the proof under its key.
#[derive(Debug)]
pub struct QueryReply {
    pub chain_id: u64,
    pub proof: Option<(QueryProofKey, Vec<u8>)>,
}

/// Answers a query task given its key and the outcome of its circuit: the
/// proof under the key, or the circuit's error as it is.
pub fn query_reply(key: QueryProofKey, outcome: Result<Vec<u8>, ProverError>) -> (r: Result<QueryReply, ProverError>)
    ensures
        match outcome {
            Ok(p) => r matches Ok(w) && w.chain_id == 0 && w.proof == Some((key, p)),
            Err(e) => r == Err::<QueryReply, ProverError>(e),
        },
{
    match outcome {
        Ok(p) => Ok(QueryReply { chain_id: 0, proof: Some((key, p)) }),
        Err(e) => Err(e),
    }
}

} // verus!
