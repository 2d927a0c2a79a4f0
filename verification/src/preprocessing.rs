//! Planning of preprocessing tasks for the proving backend.
//!
//! A preprocessing task either carries a ready circuit input, or a batch of
//! inputs whose proofs are chained: every proof after the first feeds into the
//! next circuit. The planner decides, from the task and the number of proofs
//! produced so far, which circuit has to run next, on which part of the task,
//! and which earlier proof it consumes; or that the task is finished, and which
//! proof is its result; or that the task is malformed.
//!
//! The circuits themselves run outside the library: the caller proves each
//! requested circuit and asks again with one more proof done.

use vstd::prelude::*;
use crate::manager::ProverError;

verus! {

/// The shape of a Merkle-Patricia trie node, as read from its RLP encoding.
#[derive(Clone, Copy, Debug, PartialEq, Eq, Structural)]
pub enum NodeType {
    Leaf,
    Branch,
    Extension,
}

/// A trie node: its RLP bytes and its shape. `kind` is `None` when the node
/// could not be classified.
pub struct MptNode {
    pub kind: Option<NodeType>,
    pub rlp: Vec<u8>,
}

/// A leaf of the block (index) tree.
pub struct BlockLeafInput {
    pub block_id: u64,
    pub extraction_proof: Vec<u8>,
    pub rows_proof: Vec<u8>,
}

/// A parent node of the block (index) tree. 256-bit values are held as their
/// 32 big-endian bytes; an absent child hash means the empty subtree.
pub struct BlockParentInput {
    pub block_id: u64,
    pub old_block_number: [u8; 32],
    pub old_min: [u8; 32],
    pub old_max: [u8; 32],
    pub prev_left_child: Option<[u8; 32]>,
    pub prev_right_child: Option<[u8; 32]>,
    pub old_rows_tree_hash: [u8; 32],
    pub extraction_proof: Vec<u8>,
    pub rows_proof: Vec<u8>,
}

/// A membership node of the block (index) tree; its right child is the node
/// proven just before it.
pub struct MembershipInput {
    pub block_id: u64,
    pub index_value: [u8; 32],
    pub old_min: [u8; 32],
    pub old_max: [u8; 32],
    pub left_child: [u8; 32],
    pub rows_tree_hash: [u8; 32],
}

/// One step of a batched index (block tree) update.
pub enum DbBlockType {
    Leaf(BlockLeafInput),
    Parent(BlockParentInput),
    Membership(MembershipInput),
}

/// The trie path of a length slot, leaf first.
pub struct BatchedLength {
    pub length_slot: usize,
    pub variable_slot: usize,
    pub nodes: Vec<MptNode>,
}

/// The trie path of a contract account, leaf first.
pub struct BatchedContract {
    pub storage_root: Vec<u8>,
    pub contract: [u8; 20],
    pub nodes: Vec<MptNode>,
}

/// A preprocessing task. `C` is the circuit input that a task may carry ready
/// for proving; the planner never reads it.
pub enum WorkerTaskType<C> {
    CircuitInput(C),
    BatchedIndex(Vec<DbBlockType>),
    BatchedLength(BatchedLength),
    BatchedContract(BatchedContract),
}

/// The two kinds of trie-path extraction.
#[derive(Clone, Copy, Debug, PartialEq, Eq, Structural)]
pub enum Extraction {
    Length,
    Contract,
}

/// A circuit to run. Indices name the element of the task the circuit reads
/// (`input` in the index batch, `node` in the trie path) and, for `child`, the
/// position of an earlier proof among the proofs produced for the task.
#[derive(Clone, Copy, Debug, PartialEq, Eq, Structural)]
pub enum CircuitRequest {
    /// Prove the circuit input that the task carries.
    TaskCircuit,
    IndexLeaf { input: usize },
    IndexParent { input: usize },
    IndexMembership { input: usize, child: usize },
    /// The leaf of a length path, with the slots cut to a byte.
    LengthLeaf { node: usize, length_slot: u8, variable_slot: u8 },
    LengthBranch { node: usize, child: usize },
    LengthExtension { node: usize, child: usize },
    ContractLeaf { node: usize },
    ContractBranch { node: usize, child: usize },
    ContractExtension { node: usize, child: usize },
}

/// Why a task cannot be proven.
#[derive(Clone, Copy, Debug, PartialEq, Eq, Structural)]
pub enum PlanError {
    /// The trie path is empty.
    MissingLeafNode(Extraction),
    /// The first node of the trie path is not a leaf.
    FirstNodeNotLeaf(Extraction),
    /// A node after the first one is a leaf.
    LeafAfterFirst,
    /// A node could not be classified.
    UnknownNodeType,
}

/// What to do next for a task.
#[derive(Clone, Copy, Debug, PartialEq, Eq, Structural)]
pub enum Step {
    /// Run this circuit; its proof is the next one of the task.
    Prove(CircuitRequest),
    /// The task is complete; its result is the proof at this position.
    Done(usize),
    /// The task is malformed.
    Fail(PlanError),
}

/// A plan: the circuits to run in order, and the error met after them, if any.
pub struct Plan {
    pub requests: Seq<CircuitRequest>,
    pub error: Option<PlanError>,
}

/// The leaf request of a trie-path extraction on node 0.
pub open spec fn leaf_request(kind: Extraction, length_slot: usize, variable_slot: usize) -> CircuitRequest {
    match kind {
        Extraction::Length => CircuitRequest::LengthLeaf {
            node: 0,
            length_slot: length_slot as u8,
            variable_slot: variable_slot as u8,
        },
        Extraction::Contract => CircuitRequest::ContractLeaf { node: 0 },
    }
}

/// The request that proves an inner node on top of the proof `child`.
pub open spec fn inner_request(kind: Extraction, ty: NodeType, node: usize, child: usize) -> CircuitRequest {
    match (kind, ty) {
        (Extraction::Length, NodeType::Extension) => CircuitRequest::LengthExtension { node, child },
        (Extraction::Length, _) => CircuitRequest::LengthBranch { node, child },
        (Extraction::Contract, NodeType::Extension) => CircuitRequest::ContractExtension { node, child },
        (Extraction::Contract, _) => CircuitRequest::ContractBranch { node, child },
    }
}

/// The chained part of a trie-path extraction from step `k` on. Step `k`
/// (counting the leaf as step 0) proves node `n - k`: after the leaf, the
/// path is walked from its last node back towards the second.
pub open spec fn chain_from(kind: Extraction, kinds: Seq<Option<NodeType>>, k: int) -> Plan
    decreases kinds.len() - k,
{
    if k >= kinds.len() || k < 1 {
        Plan { requests: Seq::empty(), error: None }
    } else {
        let node = kinds.len() - k;
        match kinds[node] {
            Some(NodeType::Leaf) => Plan { requests: Seq::empty(), error: Some(PlanError::LeafAfterFirst) },
            None => Plan { requests: Seq::empty(), error: Some(PlanError::UnknownNodeType) },
            Some(ty) => {
                let rest = chain_from(kind, kinds, k + 1);
                Plan {
                    requests: seq![inner_request(kind, ty, node as usize, (k - 1) as usize)] + rest.requests,
                    error: rest.error,
                }
            },
        }
    }
}

/// The plan of a trie-path extraction over nodes of the given shapes.
pub open spec fn extraction_plan(
    kind: Extraction,
    kinds: Seq<Option<NodeType>>,
    length_slot: usize,
    variable_slot: usize,
) -> Plan {
    if kinds.len() == 0 {
        Plan { requests: Seq::empty(), error: Some(PlanError::MissingLeafNode(kind)) }
    } else if kinds[0] is None {
        Plan { requests: Seq::empty(), error: Some(PlanError::UnknownNodeType) }
    } else if kinds[0] != Some(NodeType::Leaf) {
        Plan { requests: Seq::empty(), error: Some(PlanError::FirstNodeNotLeaf(kind)) }
    } else {
        let rest = chain_from(kind, kinds, 1);
        Plan {
            requests: seq![leaf_request(kind, length_slot, variable_slot)] + rest.requests,
            error: rest.error,
        }
    }
}

/// The shapes of a trie path.
pub open spec fn node_kinds(nodes: Seq<MptNode>) -> Seq<Option<NodeType>> {
    nodes.map_values(|n: MptNode| n.kind)
}

/// The request for step `i` of a batched index update.
pub open spec fn index_request(inputs: Seq<DbBlockType>, i: int) -> CircuitRequest {
    match inputs[i] {
        DbBlockType::Leaf(_) => CircuitRequest::IndexLeaf { input: i as usize },
        DbBlockType::Parent(_) => CircuitRequest::IndexParent { input: i as usize },
        DbBlockType::Membership(_) => CircuitRequest::IndexMembership {
            input: i as usize,
            child: (i - 1) as usize,
        },
    }
}

/// A batched index update can be run: it has a first step, and that step
/// does not need an earlier proof.
pub open spec fn index_batch_runnable(inputs: Seq<DbBlockType>) -> bool {
    inputs.len() > 0 && !(inputs[0] is Membership)
}

/// The plan of a task.
pub open spec fn plan<C>(task: WorkerTaskType<C>) -> Plan {
    match task {
        WorkerTaskType::CircuitInput(_) => Plan { requests: seq![CircuitRequest::TaskCircuit], error: None },
        WorkerTaskType::BatchedIndex(inputs) => Plan {
            requests: Seq::new(inputs@.len(), |i: int| index_request(inputs@, i)),
            error: None,
        },
        WorkerTaskType::BatchedLength(b) => extraction_plan(
            Extraction::Length,
            node_kinds(b.nodes@),
            b.length_slot,
            b.variable_slot,
        ),
        WorkerTaskType::BatchedContract(b) => extraction_plan(
            Extraction::Contract,
            node_kinds(b.nodes@),
            0,
            0,
        ),
    }
}

/// A task that the planner accepts: a batched index update must be runnable
/// (the backend cannot prove a membership node without a proof before it,
/// nor return a result for an empty batch).
pub open spec fn task_runnable<C>(task: WorkerTaskType<C>) -> bool {
    match task {
        WorkerTaskType::BatchedIndex(inputs) => index_batch_runnable(inputs@),
        _ => true,
    }
}

/// The step that follows `done` proofs of a task.
pub open spec fn step_after(p: Plan, done: int) -> Step {
    if done < p.requests.len() {
        Step::Prove(p.requests[done])
    } else {
        match p.error {
            Some(e) => Step::Fail(e),
            None => Step::Done((done - 1) as usize),
        }
    }
}


/// A runnable task's plan has at least one request unless it fails.
proof fn lemma_plan_nonempty<C>(task: WorkerTaskType<C>)
    requires
        task_runnable(task),
    ensures
        plan(task).error is None ==> plan(task).requests.len() >= 1,
{
}

fn leaf_request_exec(kind: Extraction, length_slot: usize, variable_slot: usize) -> (r: CircuitRequest)
    ensures
        r == leaf_request(kind, length_slot, variable_slot),
{
    match kind {
        Extraction::Length => CircuitRequest::LengthLeaf {
            node: 0,
            length_slot: length_slot as u8,
            variable_slot: variable_slot as u8,
        },
        Extraction::Contract => CircuitRequest::ContractLeaf { node: 0 },
    }
}

fn inner_request_exec(kind: Extraction, ty: NodeType, node: usize, child: usize) -> (r: CircuitRequest)
    ensures
        r == inner_request(kind, ty, node, child),
{
    match (kind, ty) {
        (Extraction::Length, NodeType::Extension) => CircuitRequest::LengthExtension { node, child },
        (Extraction::Length, _) => CircuitRequest::LengthBranch { node, child },
        (Extraction::Contract, NodeType::Extension) => CircuitRequest::ContractExtension { node, child },
        (Extraction::Contract, _) => CircuitRequest::ContractBranch { node, child },
    }
}

/// Computes the plan of a trie-path extraction.
fn extraction_requests(
    kind: Extraction,
    nodes: &Vec<MptNode>,
    length_slot: usize,
    variable_slot: usize,
) -> (r: (Vec<CircuitRequest>, Option<PlanError>))
    ensures
        r.0@ == extraction_plan(kind, node_kinds(nodes@), length_slot, variable_slot).requests,
        r.1 == extraction_plan(kind, node_kinds(nodes@), length_slot, variable_slot).error,
{
    let ghost kinds = node_kinds(nodes@);
    let n = nodes.len();
    if n == 0 {
        return (Vec::new(), Some(PlanError::MissingLeafNode(kind)));
    }
    assert(kinds[0] == nodes@[0].kind);
    match nodes[0].kind {
        None => {
            return (Vec::new(), Some(PlanError::UnknownNodeType));
        },
        Some(NodeType::Leaf) => {},
        Some(_) => {
            return (Vec::new(), Some(PlanError::FirstNodeNotLeaf(kind)));
        },
    }
    let ghost full = chain_from(kind, kinds, 1);
    let mut reqs: Vec<CircuitRequest> = Vec::new();
    reqs.push(leaf_request_exec(kind, length_slot, variable_slot));
    let mut k: usize = 1;
    while k < n
        invariant
            n == nodes@.len(),
            n > 0,
            kinds == node_kinds(nodes@),
            kinds[0] == Some(NodeType::Leaf),
            full == chain_from(kind, kinds, 1),
            1 <= k <= n,
            reqs@.len() == k,
            seq![leaf_request(kind, length_slot, variable_slot)] + full.requests
                == reqs@ + chain_from(kind, kinds, k as int).requests,
            full.error == chain_from(kind, kinds, k as int).error,
        decreases n - k,
    {
        let node = n - k;
        assert(kinds[node as int] == nodes@[node as int].kind);
        match nodes[node].kind {
            Some(NodeType::Leaf) => {
                assert(reqs@ + chain_from(kind, kinds, k as int).requests =~= reqs@);
                return (reqs, Some(PlanError::LeafAfterFirst));
            },
            None => {
                assert(reqs@ + chain_from(kind, kinds, k as int).requests =~= reqs@);
                return (reqs, Some(PlanError::UnknownNodeType));
            },
            Some(ty) => {
                let req = inner_request_exec(kind, ty, node, k - 1);
                let ghost old_reqs = reqs@;
                reqs.push(req);
                assert(old_reqs + chain_from(kind, kinds, k as int).requests
                    =~= reqs@ + chain_from(kind, kinds, k as int + 1).requests);
                k = k + 1;
            },
        }
    }
    assert(reqs@ + chain_from(kind, kinds, k as int).requests =~= reqs@);
    (reqs, None)
}

/// Computes the plan of a runnable batched index update.
fn index_requests(inputs: &Vec<DbBlockType>) -> (r: Vec<CircuitRequest>)
    requires
        index_batch_runnable(inputs@),
    ensures
        r@ == Seq::new(inputs@.len(), |i: int| index_request(inputs@, i)),
{
    let mut reqs: Vec<CircuitRequest> = Vec::new();
    let mut i: usize = 0;
    while i < inputs.len()
        invariant
            i <= inputs@.len(),
            index_batch_runnable(inputs@),
            reqs@ =~= Seq::new(i as nat, |j: int| index_request(inputs@, j)),
        decreases inputs@.len() - i,
    {
        let req = match &inputs[i] {
            DbBlockType::Leaf(_) => CircuitRequest::IndexLeaf { input: i },
            DbBlockType::Parent(_) => CircuitRequest::IndexParent { input: i },
            DbBlockType::Membership(_) => CircuitRequest::IndexMembership {
                input: i,
                child: i - 1,
            },
        };
        reqs.push(req);
        i = i + 1;
    }
    reqs
}

/// Computes the plan of a task.
pub fn plan_requests<C>(task: &WorkerTaskType<C>) -> (r: (Vec<CircuitRequest>, Option<PlanError>))
    requires
        task_runnable(*task),
    ensures
        r.0@ == plan(*task).requests,
        r.1 == plan(*task).error,
{
    match task {
        WorkerTaskType::CircuitInput(_) => {
            let mut v: Vec<CircuitRequest> = Vec::new();
            v.push(CircuitRequest::TaskCircuit);
            assert(v@ =~= seq![CircuitRequest::TaskCircuit]);
            (v, None)
        },
        WorkerTaskType::BatchedIndex(inputs) => (index_requests(inputs), None),
        WorkerTaskType::BatchedLength(b) => extraction_requests(
            Extraction::Length,
            &b.nodes,
            b.length_slot,
            b.variable_slot,
        ),
        WorkerTaskType::BatchedContract(b) => extraction_requests(
            Extraction::Contract,
            &b.nodes,
            0,
            0,
        ),
    }
}

/// Decides what to do after `done` proofs of `task` have been produced, in
/// the order in which this function requested them.
pub fn next_step<C>(task: &WorkerTaskType<C>, done: usize) -> (r: Step)
    requires
        task_runnable(*task),
        done <= plan(*task).requests.len(),
    ensures
        r == step_after(plan(*task), done as int),
{
    proof {
        lemma_plan_nonempty(*task);
    }
    let (reqs, error) = plan_requests(task);
    if done < reqs.len() {
        Step::Prove(reqs[done])
    } else {
        match error {
            Some(e) => Step::Fail(e),
            None => Step::Done(done - 1),
        }
    }
}

/// What follows a proving step of a task: `outcome` is how the circuit that
/// `next_step(task, done)` requested ended. A success moves on to the step
/// that follows `done + 1` proofs; the first failure ends the task with the
/// circuit's error, and no further step is taken.
pub fn after_step<C>(task: &WorkerTaskType<C>, done: usize, outcome: Result<(), ProverError>) -> (r: Result<
    Step,
    ProverError,
>)
    requires
        task_runnable(*task),
        done < plan(*task).requests.len(),
    ensures
        match outcome {
            Ok(()) => r == Ok::<Step, ProverError>(step_after(plan(*task), done + 1)),
            Err(e) => r == Err::<Step, ProverError>(e),
        },
{
    match outcome {
        Ok(()) => {
            let (reqs, _) = plan_requests(task);
            assert(done < reqs.len());
            Ok(next_step(task, done + 1))
        },
        Err(e) => Err(e),
    }
}

/// The earlier proof a request consumes, if any.
pub open spec fn consumed_proof(r: CircuitRequest) -> Option<usize> {
    match r {
        CircuitRequest::IndexMembership { child, .. } => Some(child),
        CircuitRequest::LengthBranch { child, .. } => Some(child),
        CircuitRequest::LengthExtension { child, .. } => Some(child),
        CircuitRequest::ContractBranch { child, .. } => Some(child),
        CircuitRequest::ContractExtension { child, .. } => Some(child),
        _ => None,
    }
}

proof fn lemma_chain_consumes_previous(kind: Extraction, kinds: Seq<Option<NodeType>>, k: int)
    requires
        1 <= k,
        kinds.len() <= usize::MAX,
    ensures
        chain_from(kind, kinds, k).requests.len() <= (if k < kinds.len() {
            kinds.len() - k
        } else {
            0
        }),
        forall|i: int|
            0 <= i < chain_from(kind, kinds, k).requests.len() ==> consumed_proof(
                #[trigger] chain_from(kind, kinds, k).requests[i],
            ) == Some((k + i - 1) as usize),
    decreases kinds.len() - k,
{
    if k < kinds.len() {
        lemma_chain_consumes_previous(kind, kinds, k + 1);
        let c = chain_from(kind, kinds, k);
        let rest = chain_from(kind, kinds, k + 1);
        assert forall|i: int| 0 <= i < c.requests.len() implies consumed_proof(#[trigger] c.requests[i])
            == Some((k + i - 1) as usize) by {
            if i > 0 {
                assert(c.requests[i] == rest.requests[i - 1]);
            }
        }
    }
}

/// Every proof a task's circuit consumes is the one proven just before it:
/// request `i` of a plan consumes proof `i - 1` or none.
pub proof fn lemma_requests_consume_previous<C>(task: WorkerTaskType<C>)
    requires
        task_runnable(task),
    ensures
        forall|i: int|
            0 <= i < plan(task).requests.len() ==> match consumed_proof(#[trigger] plan(task).requests[i]) {
                Some(c) => i >= 1 && c as int == i - 1,
                None => true,
            },
{
    match task {
        WorkerTaskType::BatchedLength(b) => {
            let kinds = node_kinds(b.nodes@);
            assert(b.nodes.len() == b.nodes@.len());
            lemma_chain_consumes_previous(Extraction::Length, kinds, 1);
            let p = plan(task);
            assert forall|i: int| 0 <= i < p.requests.len() implies match consumed_proof(
                #[trigger] p.requests[i],
            ) {
                Some(c) => i >= 1 && c as int == i - 1,
                None => true,
            } by {
                if i > 0 {
                    assert(p.requests[i] == chain_from(Extraction::Length, kinds, 1).requests[i - 1]);
                }
            }
        },
        WorkerTaskType::BatchedContract(b) => {
            let kinds = node_kinds(b.nodes@);
            assert(b.nodes.len() == b.nodes@.len());
            lemma_chain_consumes_previous(Extraction::Contract, kinds, 1);
            let p = plan(task);
            assert forall|i: int| 0 <= i < p.requests.len() implies match consumed_proof(
                #[trigger] p.requests[i],
            ) {
                Some(c) => i >= 1 && c as int == i - 1,
                None => true,
            } by {
                if i > 0 {
                    assert(p.requests[i] == chain_from(Extraction::Contract, kinds, 1).requests[i - 1]);
                }
            }
        },
        WorkerTaskType::BatchedIndex(inputs) => {
            assert(inputs.len() == inputs@.len());
        },
        _ => {},
    }
}

/// A trie path is well formed: a leaf first, then branch or extension nodes.
pub open spec fn well_formed_path(kinds: Seq<Option<NodeType>>) -> bool {
    &&& kinds.len() > 0
    &&& kinds[0] == Some(NodeType::Leaf)
    &&& forall|i: int|
        1 <= i < kinds.len() ==> (#[trigger] kinds[i] == Some(NodeType::Branch) || kinds[i] == Some(
            NodeType::Extension,
        ))
}

proof fn lemma_chain_complete(kind: Extraction, kinds: Seq<Option<NodeType>>, k: int)
    requires
        well_formed_path(kinds),
        1 <= k <= kinds.len(),
    ensures
        chain_from(kind, kinds, k).error is None,
        chain_from(kind, kinds, k).requests.len() == kinds.len() - k,
        forall|i: int|
            0 <= i < kinds.len() - k ==> #[trigger] chain_from(kind, kinds, k).requests[i] == inner_request(
                kind,
                kinds[kinds.len() - k - i]->0,
                (kinds.len() - k - i) as usize,
                (k + i - 1) as usize,
            ),
    decreases kinds.len() - k,
{
    if k < kinds.len() {
        lemma_chain_complete(kind, kinds, k + 1);
        let c = chain_from(kind, kinds, k);
        let rest = chain_from(kind, kinds, k + 1);
        assert(kinds[kinds.len() - k] == Some(NodeType::Branch) || kinds[kinds.len() - k] == Some(
            NodeType::Extension,
        ));
        assert forall|i: int| 0 <= i < kinds.len() - k implies #[trigger] c.requests[i] == inner_request(
            kind,
            kinds[kinds.len() - k - i]->0,
            (kinds.len() - k - i) as usize,
            (k + i - 1) as usize,
        ) by {
            if i > 0 {
                assert(c.requests[i] == rest.requests[i - 1]);
            }
        }
    }
}

/// A well-formed trie path of `n` nodes is proven in `n` circuits without
/// error: the leaf first, then the nodes from the last one back to the
/// second, each on top of the proof before it. The task's result is the last
/// of these proofs.
pub proof fn lemma_extraction_complete(
    kind: Extraction,
    kinds: Seq<Option<NodeType>>,
    length_slot: usize,
    variable_slot: usize,
)
    requires
        well_formed_path(kinds),
    ensures
        ({
            let p = extraction_plan(kind, kinds, length_slot, variable_slot);
            &&& p.error is None
            &&& p.requests.len() == kinds.len()
            &&& p.requests[0] == leaf_request(kind, length_slot, variable_slot)
            &&& forall|k: int|
                1 <= k < kinds.len() ==> #[trigger] p.requests[k] == inner_request(
                    kind,
                    kinds[kinds.len() - k]->0,
                    (kinds.len() - k) as usize,
                    (k - 1) as usize,
                )
            &&& step_after(p, kinds.len() as int) == Step::Done((kinds.len() - 1) as usize)
        }),
{
    lemma_chain_complete(kind, kinds, 1);
    let p = extraction_plan(kind, kinds, length_slot, variable_slot);
    let c = chain_from(kind, kinds, 1);
    assert forall|k: int| 1 <= k < kinds.len() implies #[trigger] p.requests[k] == inner_request(
        kind,
        kinds[kinds.len() - k]->0,
        (kinds.len() - k) as usize,
        (k - 1) as usize,
    ) by {
        assert(p.requests[k] == c.requests[k - 1]);
    }
}

/// The trie node that a request of a path extraction proves.
pub open spec fn proven_node(r: CircuitRequest) -> Option<usize> {
    match r {
        CircuitRequest::LengthLeaf { node, .. } => Some(node),
        CircuitRequest::LengthBranch { node, .. } => Some(node),
        CircuitRequest::LengthExtension { node, .. } => Some(node),
        CircuitRequest::ContractLeaf { node } => Some(node),
        CircuitRequest::ContractBranch { node, .. } => Some(node),
        CircuitRequest::ContractExtension { node, .. } => Some(node),
        _ => None,
    }
}

/// The trie path of a length or contract extraction task, and its kind.
pub open spec fn task_path<C>(task: WorkerTaskType<C>) -> Option<(Extraction, Seq<Option<NodeType>>)> {
    match task {
        WorkerTaskType::BatchedLength(b) => Some((Extraction::Length, node_kinds(b.nodes@))),
        WorkerTaskType::BatchedContract(b) => Some((Extraction::Contract, node_kinds(b.nodes@))),
        _ => None,
    }
}

/// The plan of a task with a well-formed trie path, as the chain lays it out.
proof fn lemma_path_plan<C>(task: WorkerTaskType<C>)
    requires
        task_path(task) matches Some(p) && well_formed_path(p.1),
    ensures
        ({
            let (kind, kinds) = task_path(task)->0;
            let n = kinds.len();
            &&& n <= usize::MAX
            &&& plan(task).requests.len() == n
            &&& proven_node(plan(task).requests[0]) == Some(0usize)
            &&& forall|k: int|
                1 <= k < n ==> #[trigger] plan(task).requests[k] == inner_request(
                    kind,
                    kinds[n - k]->0,
                    (n - k) as usize,
                    (k - 1) as usize,
                )
        }),
{
    let (kind, kinds) = task_path(task)->0;
    match task {
        WorkerTaskType::BatchedLength(b) => {
            assert(b.nodes.len() == b.nodes@.len());
            lemma_extraction_complete(kind, kinds, b.length_slot, b.variable_slot);
        },
        WorkerTaskType::BatchedContract(b) => {
            assert(b.nodes.len() == b.nodes@.len());
            lemma_extraction_complete(kind, kinds, 0, 0);
        },
        _ => {},
    }
}

/// After the leaf, a well-formed trie path of `n` nodes is walked back from
/// its last node to its second: circuit `k` (`1 <= k < n`) of the task
/// proves node `n - k`, on top of proof `k - 1`, with the branch or
/// extension circuit of the path's kind as that node's shape says; circuit 0
/// proves the leaf, node 0.
pub proof fn lemma_path_walked_back<C>(task: WorkerTaskType<C>, k: int)
    requires
        task_path(task) matches Some(p) && well_formed_path(p.1) && 1 <= k < p.1.len(),
    ensures
        ({
            let (kind, kinds) = task_path(task)->0;
            let n = kinds.len();
            let r = plan(task).requests[k];
            &&& plan(task).requests.len() == n
            &&& proven_node(plan(task).requests[0]) == Some(0usize)
            &&& proven_node(r) == Some((n - k) as usize)
            &&& consumed_proof(r) == Some((k - 1) as usize)
            &&& match (kind, kinds[n - k]) {
                (Extraction::Length, Some(NodeType::Branch)) => r is LengthBranch,
                (Extraction::Length, Some(NodeType::Extension)) => r is LengthExtension,
                (Extraction::Contract, Some(NodeType::Branch)) => r is ContractBranch,
                (Extraction::Contract, Some(NodeType::Extension)) => r is ContractExtension,
                _ => false,
            }
        }),
{
    lemma_path_plan(task);
    let (kind, kinds) = task_path(task)->0;
    let n = kinds.len();
    assert(plan(task).requests[k] == inner_request(kind, kinds[n - k]->0, (n - k) as usize, (k - 1) as usize));
}

/// Every node of a well-formed trie path is proven exactly once: node `j`
/// (`1 <= j < n`) by circuit `n - j`, and no two circuits of the path prove
/// the same node.
pub proof fn lemma_path_nodes_once<C>(task: WorkerTaskType<C>)
    requires
        task_path(task) matches Some(p) && well_formed_path(p.1),
    ensures
        ({
            let n = (task_path(task)->0).1.len();
            let reqs = plan(task).requests;
            &&& reqs.len() == n
            &&& forall|j: int| 1 <= j < n ==> proven_node(#[trigger] reqs[n - j]) == Some(j as usize)
            &&& forall|k1: int, k2: int|
                0 <= k1 < n && 0 <= k2 < n && k1 != k2 ==> proven_node(#[trigger] reqs[k1]) != proven_node(
                    #[trigger] reqs[k2],
                )
        }),
{
    lemma_path_plan(task);
    let n = (task_path(task)->0).1.len();
    let reqs = plan(task).requests;
    assert forall|k: int| 1 <= k < n implies proven_node(#[trigger] reqs[k]) == Some((n - k) as usize) by {
        lemma_path_walked_back(task, k);
    }
    assert forall|j: int| 1 <= j < n implies proven_node(#[trigger] reqs[n - j]) == Some(j as usize) by {
        assert(proven_node(reqs[n - j]) == Some((n - (n - j)) as usize));
    }
}

/// A runnable batched index update is proven in one circuit per input, each
/// on its own input, without error; its result is the proof of the last
/// input.
pub proof fn lemma_index_batch_complete(inputs: Seq<DbBlockType>)
    requires
        index_batch_runnable(inputs),
        inputs.len() <= usize::MAX,
    ensures
        ({
            let p = Plan {
                requests: Seq::new(inputs.len(), |i: int| index_request(inputs, i)),
                error: None,
            };
            &&& p.requests.len() == inputs.len()
            &&& forall|i: int|
                0 <= i < inputs.len() ==> match #[trigger] p.requests[i] {
                    CircuitRequest::IndexLeaf { input } => input == i && inputs[i] is Leaf,
                    CircuitRequest::IndexParent { input } => input == i && inputs[i] is Parent,
                    CircuitRequest::IndexMembership { input, child } => input == i && child as int == i - 1
                        && inputs[i] is Membership,
                    _ => false,
                }
            &&& step_after(p, inputs.len() as int) == Step::Done((inputs.len() - 1) as usize)
        }),
{
}

} // verus!
