//! The first version of the provers: a Groth16 wrapper around an aggregated
//! proof, preprocessing of storage, and ERC-20 / ERC-721 queries. What each
//! prover does before calling its circuits is here; the circuits are outside.

use vstd::prelude::*;
use crate::encoding::{hex_encode, hex_lower};
use crate::manager::{ProverError, TaskError, TaskEnvelope};

pub mod erc20;
pub mod erc721;
pub mod preprocessing;

verus! {

/// A Groth16 prover: wraps an aggregated proof into a proof that can be
/// checked on chain.
pub trait Prover {
    /// Whether `r` is a result the prover may give for `aggregated_proof`. A
    /// prover that states nothing of its results keeps this default.
    open spec fn wraps(&self, aggregated_proof: Seq<u8>, r: Result<Vec<u8>, ProverError>) -> bool {
        true
    }

    fn prove(&self, aggregated_proof: &[u8]) -> (r: Result<Vec<u8>, ProverError>)
        ensures
            self.wraps(aggregated_proof@, r),
    ;
}

/// The key of a Groth16 proof: the query it answers.
#[derive(Debug)]
pub struct Groth16ProofKey {
    pub query_id: String,
}

/// The Groth16 task runner; its prover is initialised once.
pub struct Groth16<GP> {
    prover: GP,
}

impl<GP: Prover> Groth16<GP> {
    pub fn new(prover: GP) -> (r: Groth16<GP>)
        ensures
            r.prover() == prover,
    {
        Groth16 { prover }
    }

    pub closed spec fn prover(&self) -> GP {
        self.prover
    }

    /// Wraps the aggregated proof of task `task_id` of query `query_id`, and
    /// keys the result by the query. A failure of the prover is returned with
    /// a context that names the query and the task.
    pub fn generate_proof(&self, query_id: &str, task_id: &str, aggregated_proof: &[u8]) -> (r: Result<
        (Groth16ProofKey, Vec<u8>),
        TaskError,
    >)
        ensures
            match r {
                Ok(p) => p.0.query_id@ == query_id@ && self.prover().wraps(aggregated_proof@, Ok(p.1)),
                Err(e) => e.context@ == groth16_failure_context(query_id@, task_id@)
                    && self.prover().wraps(aggregated_proof@, Err(e.cause)),
            },
    {
        let key = Groth16ProofKey { query_id: String::from_str(query_id) };
        match self.prover.prove(aggregated_proof) {
            Ok(proof) => Ok((key, proof)),
            Err(cause) => {
                let mut context = String::from_str(" Failed to generate the Groth16 proof: query_id = ");
                context.append(query_id);
                context.append(", task_id = ");
                context.append(task_id);
                Err(TaskError { context, cause })
            },
        }
    }
}

/// The context of a failed Groth16 proof of task `task_id` of query
/// `query_id`.
pub open spec fn groth16_failure_context(query_id: Seq<char>, task_id: Seq<char>) -> Seq<char> {
    " Failed to generate the Groth16 proof: query_id = "@ + query_id + ", task_id = "@ + task_id
}

/// Creates the Groth16 task runner around an initialised prover.
pub fn create_prover<GP: Prover>(prover: GP) -> (r: Groth16<GP>)
    ensures
        r.prover() == prover,
{
    Groth16::new(prover)
}

/// The storage preprocessing task runner.
pub struct Preprocessing<P> {
    prover: P,
}

impl<P> Preprocessing<P> {
    pub fn new(prover: P) -> (r: Self)
        ensures
            r.prover() == prover,
    {
        Preprocessing { prover }
    }

    pub closed spec fn prover(&self) -> P {
        self.prover
    }
}

/// A task of the first protocol version, by kind: the payloads are those of
/// the respective runners.
pub enum V0TaskType<P, Q, E, G> {
    StoragePreprocess(P),
    StorageQuery(Q),
    Erc20Query(E),
    StorageGroth16(G),
}

/// The storage preprocessing task an envelope carries, for the
/// preprocessing runner; any other task is refused as unexpected.
pub fn preprocessing_task<P, Q, E, G>(env: &TaskEnvelope<V0TaskType<P, Q, E, G>>) -> (r: Result<&P, ProverError>)
    ensures
        match env.task {
            V0TaskType::StoragePreprocess(t) => r matches Ok(x) && *x == t,
            _ => r matches Err(e) && e.message@ == "Received unexpected task"@,
        },
{
    match &env.task {
        V0TaskType::StoragePreprocess(t) => Ok(t),
        _ => Err(ProverError { message: String::from_str("Received unexpected task") }),
    }
}

/// The ERC-721 (storage) query task an envelope carries, for the ERC-721
/// query runner; any other task is refused.
pub fn storage_query_task<P, Q, E, G>(env: &TaskEnvelope<V0TaskType<P, Q, E, G>>) -> (r: Result<&Q, ProverError>)
    ensures
        match env.task {
            V0TaskType::StorageQuery(t) => r matches Ok(x) && *x == t,
            _ => r matches Err(e) && e.message@ == "Unexpected task type"@,
        },
{
    match &env.task {
        V0TaskType::StorageQuery(t) => Ok(t),
        _ => Err(ProverError { message: String::from_str("Unexpected task type") }),
    }
}

/// The ERC-20 query task an envelope carries, for the ERC-20 query runner;
/// any other task is refused.
pub fn erc20_query_task<P, Q, E, G>(env: &TaskEnvelope<V0TaskType<P, Q, E, G>>) -> (r: Result<&E, ProverError>)
    ensures
        match env.task {
            V0TaskType::Erc20Query(t) => r matches Ok(x) && *x == t,
            _ => r matches Err(e) && e.message@ == "Unexpected task type"@,
        },
{
    match &env.task {
        V0TaskType::Erc20Query(t) => Ok(t),
        _ => Err(ProverError { message: String::from_str("Unexpected task type") }),
    }
}

/// The Groth16 task an envelope carries, for the Groth16 runner; any other
/// task is refused.
pub fn groth16_task<P, Q, E, G>(env: &TaskEnvelope<V0TaskType<P, Q, E, G>>) -> (r: Result<&G, ProverError>)
    ensures
        match env.task {
            V0TaskType::StorageGroth16(t) => r matches Ok(x) && *x == t,
            _ => r matches Err(e) && e.message@ == "Unexpected task type"@,
        },
{
    match &env.task {
        V0TaskType::StorageGroth16(t) => Ok(t),
        _ => Err(ProverError { message: String::from_str("Unexpected task type") }),
    }
}

/// The short form of a hash in proof keys: its first 8 hexadecimal digits.
pub fn encode_hash(hash: &[u8; 32]) -> (r: String)
    ensures
        r@ == hex_lower(hash@).subrange(0, 8),
{
    let head: [u8; 4] = [hash[0], hash[1], hash[2], hash[3]];
    let r = hex_encode(&head);
    assert(r@ =~= hex_lower(hash@).subrange(0, 8));
    r
}

/// Whether the sibling at a tree position is the left child: positions with
/// an even index are left children.
pub fn sibling_is_left(index: u64) -> (r: bool)
    ensures
        r == (index % 2 == 0),
{
    index % 2 == 0
}

/// The sibling hashes of a state-tree path and, for each, whether it is the
/// left child.
pub fn state_db_path(proof: &Vec<(u64, [u8; 32])>) -> (r: (Vec<[u8; 32]>, Vec<bool>))
    ensures
        r.0@.len() == proof@.len(),
        r.1@.len() == proof@.len(),
        forall|i: int| 0 <= i < proof@.len() ==> r.0@[i] == proof@[i].1 && r.1@[i] == (proof@[i].0 % 2 == 0),
{
    let mut siblings: Vec<[u8; 32]> = Vec::new();
    let mut positions: Vec<bool> = Vec::new();
    let mut i: usize = 0;
    while i < proof.len()
        invariant
            i <= proof@.len(),
            siblings@.len() == i,
            positions@.len() == i,
            forall|j: int| 0 <= j < i ==> siblings@[j] == proof@[j].1 && positions@[j] == (proof@[j].0 % 2 == 0),
        decreases proof@.len() - i,
    {
        siblings.push(proof[i].1);
        positions.push(sibling_is_left(proof[i].0));
        i = i + 1;
    }
    (siblings, positions)
}

/// The two children of a partial storage node, left first: the proven child
/// goes to the side it is on, the hash of the other child to the other side.
pub fn partial_node_children<T>(proven_child: T, unproven_child: T, right_is_proven: bool) -> (r: (T, T))
    ensures
        right_is_proven ==> r == (unproven_child, proven_child),
        !right_is_proven ==> r == (proven_child, unproven_child),
{
    if right_is_proven {
        (unproven_child, proven_child)
    } else {
        (proven_child, unproven_child)
    }
}

/// Splits a block-tree Merkle path into its root (the last element) and the
/// path below the root.
pub fn split_merkle_path(path: &Vec<[u8; 32]>) -> (r: ([u8; 32], Vec<[u8; 32]>))
    requires
        path@.len() > 0,
    ensures
        r.0 == path@.last(),
        r.1@ == path@.drop_last(),
{
    let n = path.len();
    let root = path[n - 1];
    let mut below: Vec<[u8; 32]> = Vec::new();
    let mut i: usize = 0;
    while i < n - 1
        invariant
            n == path@.len(),
            n > 0,
            i <= n - 1,
            below@ =~= path@.subrange(0, i as int),
        decreases n - 1 - i,
    {
        below.push(path[i]);
        i = i + 1;
    }
    assert(below@ =~= path@.drop_last());
    (root, below)
}

/// Which block-database circuit proves a new leaf.
#[derive(Clone, Copy, Debug, PartialEq, Eq, Structural)]
pub enum BlocksDbCircuit {
    /// The tree is empty: the leaf is the first block.
    FirstBlock,
    /// The leaf follows earlier blocks.
    SubsequentBlock,
}

/// The circuit for the leaf at `leaf_index`: index 0 is the first block.
pub fn blocks_db_circuit(leaf_index: u64) -> (r: BlocksDbCircuit)
    ensures
        r == (if leaf_index == 0 {
            BlocksDbCircuit::FirstBlock
        } else {
            BlocksDbCircuit::SubsequentBlock
        }),
{
    if leaf_index == 0 {
        BlocksDbCircuit::FirstBlock
    } else {
        BlocksDbCircuit::SubsequentBlock
    }
}

/// Which mapping circuit proves an inner trie node.
#[derive(Clone, Copy, Debug, PartialEq, Eq, Structural)]
pub enum MptInnerCircuit {
    Extension,
    Branch,
}

/// Why an inner trie node cannot be proven.
#[derive(Clone, Copy, Debug, PartialEq, Eq, Structural)]
pub enum MptNodeError {
    /// The node's RLP list has neither 2 nor 17 items.
    InvalidRlpItemCount,
}

/// Chooses the circuit of an inner trie node from the number of items of its
/// RLP list (`None` when the node is not a list): 2 items make an extension
/// node, which has exactly one child proof; 17 items make a branch node.
pub fn mpt_inner_circuit(rlp_list_items: Option<usize>, child_proofs: usize) -> (r: Result<
    MptInnerCircuit,
    MptNodeError,
>)
    requires
        rlp_list_items == Some(2usize) ==> child_proofs == 1,
    ensures
        r == match rlp_list_items {
            Some(n) => if n == 2 {
                Ok::<MptInnerCircuit, MptNodeError>(MptInnerCircuit::Extension)
            } else if n == 17 {
                Ok(MptInnerCircuit::Branch)
            } else {
                Err(MptNodeError::InvalidRlpItemCount)
            },
            None => Err(MptNodeError::InvalidRlpItemCount),
        },
{
    match rlp_list_items {
        Some(2) => Ok(MptInnerCircuit::Extension),
        Some(17) => Ok(MptInnerCircuit::Branch),
        _ => Err(MptNodeError::InvalidRlpItemCount),
    }
}

} // verus!
