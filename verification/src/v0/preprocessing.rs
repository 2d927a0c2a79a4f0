//! Storage preprocessing tasks of the first prover version: for each kind of
//! task, the key its proof is stored under, the circuit that proves it, and
//! whether a failure of that circuit is reported or aborts the worker.

use vstd::prelude::*;
use super::encode_hash;
use crate::encoding::hex_lower;
use crate::manager::{ProverError, TaskError};

verus! {

/// A storage preprocessing task, as far as the planner reads it.
pub enum TaskKind {
    MptLeaf { contract: [u8; 20], hash: [u8; 32] },
    MptBranch { contract: [u8; 20], hash: [u8; 32] },
    StorageDbLeaf { contract: [u8; 20], position: u64 },
    StorageDbBranch { contract: [u8; 20], position: u64, left_child_proof: Vec<u8>, right_child_proof: Vec<u8> },
    LengthExtract { contract: [u8; 20] },
    LengthMatch { contract: [u8; 20], mapping_proof: Vec<u8>, length_extract_proof: Vec<u8> },
    Equivalence { contract: [u8; 20], storage_proof: Vec<u8>, length_match_proof: Vec<u8> },
    BlockLinking,
    StateDbLeaf { position: u64, block_linking_proof: Vec<u8> },
    StateDbBranch { position: u64, left_proof: Vec<u8>, right_proof: Vec<u8> },
    BlocksDb { leaf_index: u64 },
}

/// The key a proof is stored under. The MPT key holds the short form of the
/// node hash.
#[derive(Debug)]
pub enum ProofKey {
    MptInclusion(u64, [u8; 20], String),
    StorageDb(u64, [u8; 20], u64),
    LengthSlot(u64, [u8; 20]),
    Bridge(u64, [u8; 20]),
    Equivalence(u64, [u8; 20]),
    BlockLinking(u64),
    State(u64, u64),
    BlocksDb(u64, u64),
}

/// The circuit that proves a task.
#[derive(Clone, Copy, Debug, PartialEq, Eq, Structural)]
pub enum Circuit {
    MptLeaf,
    MptBranch,
    StorageDbLeaf,
    StorageDbBranch,
    LengthExtract,
    LengthMatch,
    Equivalence,
    BlockNumberLinking,
    StateDbLeaf,
    StateDbBranch,
    BlocksDbFirst,
    BlocksDbSubsequent,
}

/// What a failure of the circuit leads to.
#[derive(Clone, Copy, Debug, PartialEq, Eq, Structural)]
pub enum OnFailure {
    /// The failure is reported as the task's error.
    Report,
    /// The failure aborts the worker.
    Abort,
}

/// What the circuit is handed: the task's own data, or proofs the task
/// carries, in this order.
pub enum CircuitInputs {
    TaskData,
    One(Vec<u8>),
    Two(Vec<u8>, Vec<u8>),
}

/// How a task of block `block_nr` is proven.
pub struct TaskPlan {
    pub key: ProofKey,
    pub circuit: Circuit,
    pub inputs: CircuitInputs,
    pub on_failure: OnFailure,
}

/// The inputs handed to the circuit of a task: the child proofs of a
/// storage or state branch, left first; the mapping and length-extraction
/// proofs of a length match; the storage and length-match proofs of an
/// equivalence; the block-linking proof of a state leaf; the task's own data
/// otherwise.
pub open spec fn inputs_match(task: TaskKind, inputs: CircuitInputs) -> bool {
    match task {
        TaskKind::StorageDbBranch { left_child_proof, right_child_proof, .. } => (inputs matches CircuitInputs::Two(
            a,
            b,
        ) && a@ == left_child_proof@ && b@ == right_child_proof@),
        TaskKind::StateDbBranch { left_proof, right_proof, .. } => (inputs matches CircuitInputs::Two(a, b) && a@
            == left_proof@ && b@ == right_proof@),
        TaskKind::LengthMatch { mapping_proof, length_extract_proof, .. } => (inputs matches CircuitInputs::Two(
            a,
            b,
        ) && a@ == mapping_proof@ && b@ == length_extract_proof@),
        TaskKind::Equivalence { storage_proof, length_match_proof, .. } => (inputs matches CircuitInputs::Two(
            a,
            b,
        ) && a@ == storage_proof@ && b@ == length_match_proof@),
        TaskKind::StateDbLeaf { block_linking_proof, .. } => (inputs matches CircuitInputs::One(a) && a@
            == block_linking_proof@),
        _ => inputs is TaskData,
    }
}

/// The plan of a task: keys are made of the block number and the task's
/// identifying fields; a failure of the MPT leaf, storage, block linking and
/// state circuits aborts, the others are reported.
pub open spec fn plan_matches(block_nr: u64, task: TaskKind, p: TaskPlan) -> bool {
    match task {
        TaskKind::MptLeaf { contract, hash } => (p.key matches ProofKey::MptInclusion(b, c, h) && b == block_nr
            && c == contract && h@ == hex_lower(hash@).subrange(0, 8)) && p.circuit == Circuit::MptLeaf
            && p.on_failure == OnFailure::Abort,
        TaskKind::MptBranch { contract, hash } => (p.key matches ProofKey::MptInclusion(b, c, h) && b
            == block_nr && c == contract && h@ == hex_lower(hash@).subrange(0, 8)) && p.circuit
            == Circuit::MptBranch && p.on_failure == OnFailure::Report,
        TaskKind::StorageDbLeaf { contract, position } => (p.key matches ProofKey::StorageDb(b, c, q) && b
            == block_nr && c == contract && q == position) && p.circuit == Circuit::StorageDbLeaf
            && p.on_failure == OnFailure::Abort,
        TaskKind::StorageDbBranch { contract, position, .. } => (p.key matches ProofKey::StorageDb(b, c, q) && b
            == block_nr && c == contract && q == position) && p.circuit == Circuit::StorageDbBranch
            && p.on_failure == OnFailure::Abort,
        TaskKind::LengthExtract { contract } => (p.key matches ProofKey::LengthSlot(b, c) && b == block_nr
            && c == contract) && p.circuit == Circuit::LengthExtract && p.on_failure == OnFailure::Report,
        TaskKind::LengthMatch { contract, .. } => (p.key matches ProofKey::Bridge(b, c) && b == block_nr && c
            == contract) && p.circuit == Circuit::LengthMatch && p.on_failure == OnFailure::Report,
        TaskKind::Equivalence { contract, .. } => (p.key matches ProofKey::Equivalence(b, c) && b == block_nr
            && c == contract) && p.circuit == Circuit::Equivalence && p.on_failure == OnFailure::Report,
        TaskKind::BlockLinking => (p.key matches ProofKey::BlockLinking(b) && b == block_nr) && p.circuit
            == Circuit::BlockNumberLinking && p.on_failure == OnFailure::Abort,
        TaskKind::StateDbLeaf { position, .. } => (p.key matches ProofKey::State(b, q) && b == block_nr && q
            == position) && p.circuit == Circuit::StateDbLeaf && p.on_failure == OnFailure::Abort,
        TaskKind::StateDbBranch { position, .. } => (p.key matches ProofKey::State(b, q) && b == block_nr && q
            == position) && p.circuit == Circuit::StateDbBranch && p.on_failure == OnFailure::Abort,
        TaskKind::BlocksDb { leaf_index } => (p.key matches ProofKey::BlocksDb(b, l) && b == block_nr && l
            == leaf_index) && p.circuit == (if leaf_index == 0 {
            Circuit::BlocksDbFirst
        } else {
            Circuit::BlocksDbSubsequent
        }) && p.on_failure == OnFailure::Report,
    }
}

/// Plans a storage preprocessing task of block `block_nr`.
pub fn plan_task(block_nr: u64, task: &TaskKind) -> (r: TaskPlan)
    ensures
        plan_matches(block_nr, *task, r),
        inputs_match(*task, r.inputs),
{
    match task {
        TaskKind::MptLeaf { contract, hash } => TaskPlan {
            key: ProofKey::MptInclusion(block_nr, *contract, encode_hash(hash)),
            circuit: Circuit::MptLeaf,
            inputs: CircuitInputs::TaskData,
            on_failure: OnFailure::Abort,
        },
        TaskKind::MptBranch { contract, hash } => TaskPlan {
            key: ProofKey::MptInclusion(block_nr, *contract, encode_hash(hash)),
            circuit: Circuit::MptBranch,
            inputs: CircuitInputs::TaskData,
            on_failure: OnFailure::Report,
        },
        TaskKind::StorageDbLeaf { contract, position } => TaskPlan {
            key: ProofKey::StorageDb(block_nr, *contract, *position),
            circuit: Circuit::StorageDbLeaf,
            inputs: CircuitInputs::TaskData,
            on_failure: OnFailure::Abort,
        },
        TaskKind::StorageDbBranch { contract, position, left_child_proof, right_child_proof } => TaskPlan {
            key: ProofKey::StorageDb(block_nr, *contract, *position),
            circuit: Circuit::StorageDbBranch,
            inputs: CircuitInputs::Two(left_child_proof.clone(), right_child_proof.clone()),
            on_failure: OnFailure::Abort,
        },
        TaskKind::LengthExtract { contract } => TaskPlan {
            key: ProofKey::LengthSlot(block_nr, *contract),
            circuit: Circuit::LengthExtract,
            inputs: CircuitInputs::TaskData,
            on_failure: OnFailure::Report,
        },
        TaskKind::LengthMatch { contract, mapping_proof, length_extract_proof } => TaskPlan {
            key: ProofKey::Bridge(block_nr, *contract),
            circuit: Circuit::LengthMatch,
            inputs: CircuitInputs::Two(mapping_proof.clone(), length_extract_proof.clone()),
            on_failure: OnFailure::Report,
        },
        TaskKind::Equivalence { contract, storage_proof, length_match_proof } => TaskPlan {
            key: ProofKey::Equivalence(block_nr, *contract),
            circuit: Circuit::Equivalence,
            inputs: CircuitInputs::Two(storage_proof.clone(), length_match_proof.clone()),
            on_failure: OnFailure::Report,
        },
        TaskKind::BlockLinking => TaskPlan {
            key: ProofKey::BlockLinking(block_nr),
            circuit: Circuit::BlockNumberLinking,
            inputs: CircuitInputs::TaskData,
            on_failure: OnFailure::Abort,
        },
        TaskKind::StateDbLeaf { position, block_linking_proof } => TaskPlan {
            key: ProofKey::State(block_nr, *position),
            circuit: Circuit::StateDbLeaf,
            inputs: CircuitInputs::One(block_linking_proof.clone()),
            on_failure: OnFailure::Abort,
        },
        TaskKind::StateDbBranch { position, left_proof, right_proof } => TaskPlan {
            key: ProofKey::State(block_nr, *position),
            circuit: Circuit::StateDbBranch,
            inputs: CircuitInputs::Two(left_proof.clone(), right_proof.clone()),
            on_failure: OnFailure::Abort,
        },
        TaskKind::BlocksDb { leaf_index } => TaskPlan {
            key: ProofKey::BlocksDb(block_nr, *leaf_index),
            circuit: if *leaf_index == 0 {
                Circuit::BlocksDbFirst
            } else {
                Circuit::BlocksDbSubsequent
            },
            inputs: CircuitInputs::TaskData,
            on_failure: OnFailure::Report,
        },
    }
}

/// The reply to a storage preprocessing task: the chain and block it is for,
/// and the proof under its key.
#[derive(Debug)]
pub struct WorkerReply {
    pub chain_id: u64,
    pub block_nr: u64,
    pub proof: Option<(ProofKey, Vec<u8>)>,
}

/// The context reported with a failure of a circuit whose failures are
/// reported.
pub open spec fn failure_context(c: Circuit) -> Seq<char> {
    match c {
        Circuit::MptBranch => "running prove_mpt_branch"@,
        Circuit::LengthExtract => "running prove_length_extract"@,
        Circuit::LengthMatch => "runnning prove_length_match"@,
        Circuit::Equivalence => "runnning prove_equivalence"@,
        Circuit::BlocksDbFirst => "running prove_blocks_db_first"@,
        Circuit::BlocksDbSubsequent => "running prove_blocks_db_subsequent"@,
        _ => ""@,
    }
}

fn failure_context_of(c: Circuit) -> (r: String)
    ensures
        r@ == failure_context(c),
{
    match c {
        Circuit::MptBranch => String::from_str("running prove_mpt_branch"),
        Circuit::LengthExtract => String::from_str("running prove_length_extract"),
        Circuit::LengthMatch => String::from_str("runnning prove_length_match"),
        Circuit::Equivalence => String::from_str("runnning prove_equivalence"),
        Circuit::BlocksDbFirst => String::from_str("running prove_blocks_db_first"),
        Circuit::BlocksDbSubsequent => String::from_str("running prove_blocks_db_subsequent"),
        _ => String::from_str(""),
    }
}

/// Answers a storage preprocessing task of chain `chain_id` and block
/// `block_nr`, given the plan of the task and the outcome of its circuit: the
/// proof under the plan's key, or the circuit's error with its context. A
/// circuit whose failure aborts must have succeeded.
pub fn task_reply(chain_id: u64, block_nr: u64, plan: TaskPlan, outcome: Result<Vec<u8>, ProverError>) -> (r: Result<
    WorkerReply,
    TaskError,
>)
    requires
        plan.on_failure == OnFailure::Abort ==> outcome is Ok,
    ensures
        match outcome {
            Ok(p) => r matches Ok(w) && w.chain_id == chain_id && w.block_nr == block_nr && w.proof == Some(
                (plan.key, p),
            ),
            Err(e) => r matches Err(te) && te.cause == e && te.context@ == failure_context(plan.circuit),
        },
{
    match outcome {
        Ok(p) => Ok(WorkerReply { chain_id, block_nr, proof: Some((plan.key, p)) }),
        Err(cause) => Err(TaskError { context: failure_context_of(plan.circuit), cause }),
    }
}

} // verus!
