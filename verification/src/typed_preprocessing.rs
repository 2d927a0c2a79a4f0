//! Planning of typed preprocessing tasks: extraction tasks (trie nodes,
//! length and contract paths, block headers, final extraction) and database
//! tasks (cells, rows, the block index, the IVC step).
//!
//! Most of these tasks are proven by one circuit. Three are batches: the
//! length path proves its leaf and then each further node on top of the leaf
//! proof, keeping the leaf proof as the result; the contract path chains its
//! nodes in order and keeps the last proof; the block index proceeds as in
//! the batched index update.

use vstd::prelude::*;
use crate::manager::ProverError;
use crate::preprocessing::{CircuitRequest, DbBlockType, index_request, index_batch_runnable};

verus! {

/// The circuits that prove a task on their own.
#[derive(Clone, Copy, Debug, PartialEq, Eq, Structural)]
pub enum SingleCircuit {
    VariableLeaf,
    MappingLeaf,
    MappingBranch,
    VariableBranch,
    Block,
    FinalSimple,
    FinalLengthed,
    FinalMerge,
    FinalOffchain,
    CellLeaf,
    CellPartial,
    CellFull,
    RowLeaf,
    RowPartial,
    RowFull,
    Ivc,
}

/// A typed preprocessing task, as far as the planner reads it: which single
/// circuit proves it, or the size of its batch.
pub enum TypedTask {
    Single(SingleCircuit),
    /// A length path of `nodes` trie nodes, leaf first.
    Length { nodes: usize, length_slot: usize, variable_slot: usize },
    /// A contract path of `nodes` trie nodes, leaf first.
    Contract { nodes: usize },
    /// A block index update.
    Index(Vec<DbBlockType>),
}

/// A circuit to run for a typed task.
#[derive(Clone, Copy, Debug, PartialEq, Eq, Structural)]
pub enum TypedRequest {
    Single(SingleCircuit),
    Batch(CircuitRequest),
}

/// What to do next for a typed task.
#[derive(Clone, Copy, Debug, PartialEq, Eq, Structural)]
pub enum TypedStep {
    Prove(TypedRequest),
    /// The task is complete; its result is the proof at this position.
    Done(usize),
}

/// The circuits a typed task runs, in order.
pub open spec fn typed_requests(task: TypedTask) -> Seq<TypedRequest> {
    match task {
        TypedTask::Single(c) => seq![TypedRequest::Single(c)],
        TypedTask::Length { nodes, length_slot, variable_slot } => Seq::new(
            nodes as nat,
            |i: int|
                if i == 0 {
                    TypedRequest::Batch(
                        CircuitRequest::LengthLeaf {
                            node: 0,
                            length_slot: length_slot as u8,
                            variable_slot: variable_slot as u8,
                        },
                    )
                } else {
                    TypedRequest::Batch(CircuitRequest::LengthBranch { node: i as usize, child: 0 })
                },
        ),
        TypedTask::Contract { nodes } => Seq::new(
            nodes as nat,
            |i: int|
                if i == 0 {
                    TypedRequest::Batch(CircuitRequest::ContractLeaf { node: 0 })
                } else {
                    TypedRequest::Batch(CircuitRequest::ContractBranch { node: i as usize, child: (i - 1) as usize })
                },
        ),
        TypedTask::Index(inputs) => Seq::new(
            inputs@.len(),
            |i: int| TypedRequest::Batch(index_request(inputs@, i)),
        ),
    }
}

/// The position of the task's result among its proofs: the leaf proof for a
/// length path, the last proof otherwise.
pub open spec fn typed_result(task: TypedTask) -> int {
    match task {
        TypedTask::Length { .. } => 0,
        _ => typed_requests(task).len() - 1,
    }
}

/// A typed task can be run: batches are not empty, and a block index update
/// does not start with a membership node.
pub open spec fn typed_runnable(task: TypedTask) -> bool {
    match task {
        TypedTask::Single(_) => true,
        TypedTask::Length { nodes, .. } => nodes > 0,
        TypedTask::Contract { nodes } => nodes > 0,
        TypedTask::Index(inputs) => index_batch_runnable(inputs@),
    }
}

/// The step that follows `done` proofs of a typed task.
pub open spec fn typed_step_after(task: TypedTask, done: int) -> TypedStep {
    if done < typed_requests(task).len() {
        TypedStep::Prove(typed_requests(task)[done])
    } else {
        TypedStep::Done(typed_result(task) as usize)
    }
}

/// Decides what to do after `done` proofs of a typed task have been
/// produced, in the order in which this function requested them.
pub fn next_typed_step(task: &TypedTask, done: usize) -> (r: TypedStep)
    requires
        typed_runnable(*task),
        done <= typed_requests(*task).len(),
    ensures
        r == typed_step_after(*task, done as int),
        *task matches TypedTask::Single(c) ==> (done == 0 ==> r == TypedStep::Prove(TypedRequest::Single(c))) && (
        done == 1 ==> r == TypedStep::Done(0)),
{
    match task {
        TypedTask::Single(c) => {
            if done == 0 {
                TypedStep::Prove(TypedRequest::Single(*c))
            } else {
                TypedStep::Done(0)
            }
        },
        TypedTask::Length { nodes, length_slot, variable_slot } => {
            if done == 0 {
                TypedStep::Prove(
                    TypedRequest::Batch(
                        CircuitRequest::LengthLeaf {
                            node: 0,
                            length_slot: *length_slot as u8,
                            variable_slot: *variable_slot as u8,
                        },
                    ),
                )
            } else if done < *nodes {
                TypedStep::Prove(TypedRequest::Batch(CircuitRequest::LengthBranch { node: done, child: 0 }))
            } else {
                TypedStep::Done(0)
            }
        },
        TypedTask::Contract { nodes } => {
            if done == 0 {
                TypedStep::Prove(TypedRequest::Batch(CircuitRequest::ContractLeaf { node: 0 }))
            } else if done < *nodes {
                TypedStep::Prove(
                    TypedRequest::Batch(CircuitRequest::ContractBranch { node: done, child: done - 1 }),
                )
            } else {
                TypedStep::Done(*nodes - 1)
            }
        },
        TypedTask::Index(inputs) => {
            if done < inputs.len() {
                let req = match &inputs[done] {
                    DbBlockType::Leaf(_) => CircuitRequest::IndexLeaf { input: done },
                    DbBlockType::Parent(_) => CircuitRequest::IndexParent { input: done },
                    DbBlockType::Membership(_) => CircuitRequest::IndexMembership {
                        input: done,
                        child: done - 1,
                    },
                };
                TypedStep::Prove(TypedRequest::Batch(req))
            } else {
                TypedStep::Done(inputs.len() - 1)
            }
        },
    }
}

/// What follows a proving step of a typed task: `outcome` is how the circuit
/// that `next_typed_step(task, done)` requested ended. A success moves on to
/// the step that follows `done + 1` proofs; the first failure ends the task
/// with the circuit's error.
pub fn after_typed_step(task: &TypedTask, done: usize, outcome: Result<(), ProverError>) -> (r: Result<
    TypedStep,
    ProverError,
>)
    requires
        typed_runnable(*task),
        done < typed_requests(*task).len(),
    ensures
        match outcome {
            Ok(()) => r == Ok::<TypedStep, ProverError>(typed_step_after(*task, done + 1)),
            Err(e) => r == Err::<TypedStep, ProverError>(e),
        },
{
    match outcome {
        Ok(()) => {
            let bound: usize = match task {
                TypedTask::Single(_) => 1,
                TypedTask::Length { nodes, .. } => *nodes,
                TypedTask::Contract { nodes } => *nodes,
                TypedTask::Index(inputs) => inputs.len(),
            };
            assert(done < bound);
            Ok(next_typed_step(task, done + 1))
        },
        Err(e) => Err(e),
    }
}

/// A single-circuit task is proven by its own circuit, once: its first step
/// runs exactly that circuit, and after it the task is done with that proof.
pub proof fn lemma_single_circuit_is_its_own(c: SingleCircuit)
    ensures
        typed_requests(TypedTask::Single(c)).len() == 1,
        typed_step_after(TypedTask::Single(c), 0) == TypedStep::Prove(TypedRequest::Single(c)),
        typed_step_after(TypedTask::Single(c), 1) == TypedStep::Done(0),
        forall|d: SingleCircuit| d != c ==> typed_step_after(TypedTask::Single(c), 0) != TypedStep::Prove(
            TypedRequest::Single(d),
        ),
{
}

/// Every further node of a length path is proven on top of the leaf proof,
/// and the leaf proof is the task's result: the proofs of the further nodes
/// are made and left unused.
pub proof fn lemma_length_keeps_leaf(nodes: usize, length_slot: usize, variable_slot: usize)
    requires
        nodes > 0,
    ensures
        ({
            let task = TypedTask::Length { nodes, length_slot, variable_slot };
            &&& typed_requests(task).len() == nodes
            &&& forall|i: int|
                1 <= i < nodes ==> #[trigger] typed_requests(task)[i] == TypedRequest::Batch(
                    CircuitRequest::LengthBranch { node: i as usize, child: 0 },
                )
            &&& typed_step_after(task, nodes as int) == TypedStep::Done(0)
        }),
{
}

/// A contract path is chained in order: node `i` is proven on top of the
/// proof of node `i - 1`, and the proof of the last node is the result.
pub proof fn lemma_contract_chain(nodes: usize)
    requires
        nodes > 0,
    ensures
        ({
            let task = TypedTask::Contract { nodes };
            &&& typed_requests(task).len() == nodes
            &&& forall|i: int|
                1 <= i < nodes ==> #[trigger] typed_requests(task)[i] == TypedRequest::Batch(
                    CircuitRequest::ContractBranch { node: i as usize, child: (i - 1) as usize },
                )
            &&& typed_step_after(task, nodes as int) == TypedStep::Done((nodes - 1) as usize)
        }),
{
}

} // verus!
