//! ERC-721 queries of the first prover version.

use vstd::prelude::*;
use crate::manager::{ProverError, TaskError};

verus! {

/// The ERC-721 query task runner.
pub struct Query<P> {
    prover: P,
}

impl<P> Query<P> {
    pub fn new(prover: P) -> (r: Self)
        ensures
            r.prover() == prover,
    {
        Query { prover }
    }

    pub closed spec fn prover(&self) -> P {
        self.prover
    }
}

/// The dummy ERC-721 query prover.
pub struct DummyProver;

/// A storage query task, as far as the planner reads it.
pub enum QueryTaskKind {
    StorageEntry { block_nr: u64, position: u64 },
    StateEntry { block_number: u64 },
    BlockFullNode { position: u64, left_child_proof: Vec<u8>, right_child_proof: Vec<u8> },
    BlockPartialNode { position: u64 },
    Revelation,
}

/// The key a query proof is stored under.
#[derive(Debug)]
pub enum QueryProofKey {
    StorageEntry(String, u64, [u8; 20], u64),
    StateDatabase(String, u64, [u8; 20]),
    Aggregation(String, u64),
    Revelation(String),
}

/// The circuit that proves a query task.
#[derive(Clone, Copy, Debug, PartialEq, Eq, Structural)]
pub enum QueryCircuit {
    StorageEntry,
    StateDb,
    BlockFullNode,
    BlockPartialNode,
    Revelation,
}

/// What the circuit of a query task is handed: the task's own data, or the
/// proofs of the two children of a full block node, left first.
pub enum QueryInputs {
    TaskData,
    Children(Vec<u8>, Vec<u8>),
}

/// The inputs of the circuit of a task.
pub open spec fn query_inputs_match(task: QueryTaskKind, inputs: QueryInputs) -> bool {
    match task {
        QueryTaskKind::BlockFullNode { left_child_proof, right_child_proof, .. } => (inputs matches QueryInputs::Children(
            a,
            b,
        ) && a@ == left_child_proof@ && b@ == right_child_proof@),
        _ => inputs is TaskData,
    }
}

/// The key and circuit of a task of query `query_id` on `contract`.
pub open spec fn query_plan_matches(
    query_id: Seq<char>,
    contract: [u8; 20],
    task: QueryTaskKind,
    r: (QueryProofKey, QueryCircuit),
) -> bool {
    match task {
        QueryTaskKind::StorageEntry { block_nr, position } => (r.0 matches QueryProofKey::StorageEntry(
            q,
            b,
            c,
            p,
        ) && q@ == query_id && b == block_nr && c == contract && p == position) && r.1
            == QueryCircuit::StorageEntry,
        QueryTaskKind::StateEntry { block_number } => (r.0 matches QueryProofKey::StateDatabase(q, b, c)
            && q@ == query_id && b == block_number && c == contract) && r.1 == QueryCircuit::StateDb,
        QueryTaskKind::BlockFullNode { position, .. } => (r.0 matches QueryProofKey::Aggregation(q, p) && q@
            == query_id && p == position) && r.1 == QueryCircuit::BlockFullNode,
        QueryTaskKind::BlockPartialNode { position } => (r.0 matches QueryProofKey::Aggregation(q, p) && q@
            == query_id && p == position) && r.1 == QueryCircuit::BlockPartialNode,
        QueryTaskKind::Revelation => (r.0 matches QueryProofKey::Revelation(q) && q@ == query_id) && r.1
            == QueryCircuit::Revelation,
    }
}

/// Plans a task of query `query_id` on `contract`.
pub fn plan_query_task(query_id: &str, contract: [u8; 20], task: &QueryTaskKind) -> (r: (
    QueryProofKey,
    QueryCircuit,
    QueryInputs,
))
    ensures
        query_plan_matches(query_id@, contract, *task, (r.0, r.1)),
        query_inputs_match(*task, r.2),
{
    let q = String::from_str(query_id);
    match task {
        QueryTaskKind::StorageEntry { block_nr, position } => (
            QueryProofKey::StorageEntry(q, *block_nr, contract, *position),
            QueryCircuit::StorageEntry,
            QueryInputs::TaskData,
        ),
        QueryTaskKind::StateEntry { block_number } => (
            QueryProofKey::StateDatabase(q, *block_number, contract),
            QueryCircuit::StateDb,
            QueryInputs::TaskData,
        ),
        QueryTaskKind::BlockFullNode { position, left_child_proof, right_child_proof } => (
            QueryProofKey::Aggregation(q, *position),
            QueryCircuit::BlockFullNode,
            QueryInputs::Children(left_child_proof.clone(), right_child_proof.clone()),
        ),
        QueryTaskKind::BlockPartialNode { position } => (
            QueryProofKey::Aggregation(q, *position),
            QueryCircuit::BlockPartialNode,
            QueryInputs::TaskData,
        ),
        QueryTaskKind::Revelation => (
            QueryProofKey::Revelation(q),
            QueryCircuit::Revelation,
            QueryInputs::TaskData,
        ),
    }
}

/// The reply to a query task: the chain it is for, and the proof under its
/// key.
#[derive(Debug)]
pub struct QueryReply {
    pub chain_id: u64,
    pub proof: Option<(QueryProofKey, Vec<u8>)>,
}

/// The context reported with a failure of a query circuit.
pub open spec fn query_failure_context(c: QueryCircuit) -> Seq<char> {
    match c {
        QueryCircuit::StorageEntry => "while running prove_storage_entry"@,
        QueryCircuit::StateDb => "while running prove_state_db"@,
        QueryCircuit::BlockFullNode => "while running prove_block_full_node"@,
        QueryCircuit::BlockPartialNode => "while running prove_block_partial_node"@,
        QueryCircuit::Revelation => "while running prove_revelation"@,
    }
}

/// Answers a query task of chain `chain_id`, given its key and circuit and
/// the outcome of the circuit: the proof under the key, or the circuit's
/// error with its context.
pub fn query_reply(chain_id: u64, key: QueryProofKey, circuit: QueryCircuit, outcome: Result<Vec<u8>, ProverError>) -> (r:
    Result<QueryReply, TaskError>)
    ensures
        match outcome {
            Ok(p) => r matches Ok(w) && w.chain_id == chain_id && w.proof == Some((key, p)),
            Err(e) => r matches Err(te) && te.cause == e && te.context@ == query_failure_context(circuit),
        },
{
    match outcome {
        Ok(p) => Ok(QueryReply { chain_id, proof: Some((key, p)) }),
        Err(cause) => {
            let context = match circuit {
                QueryCircuit::StorageEntry => String::from_str("while running prove_storage_entry"),
                QueryCircuit::StateDb => String::from_str("while running prove_state_db"),
                QueryCircuit::BlockFullNode => String::from_str("while running prove_block_full_node"),
                QueryCircuit::BlockPartialNode => String::from_str("while running prove_block_partial_node"),
                QueryCircuit::Revelation => String::from_str("while running prove_revelation"),
            };
            Err(TaskError { context, cause })
        },
    }
}

} // verus!
