use lgn_worker::manager::ProverError;
use lgn_worker::preprocessing::{
    after_step, next_step, plan_requests, BatchedContract, BatchedLength, BlockLeafInput, BlockParentInput,
    CircuitRequest, DbBlockType, Extraction, MembershipInput, MptNode, NodeType, PlanError, Step,
    WorkerTaskType,
};
use lgn_worker::typed_preprocessing::{
    after_typed_step, next_typed_step, SingleCircuit, TypedRequest, TypedStep, TypedTask,
};

type Task = WorkerTaskType<u32>;

fn node(kind: Option<NodeType>) -> MptNode {
    MptNode {
        kind,
        rlp: vec![0xc0],
    }
}

fn leaf() -> DbBlockType {
    DbBlockType::Leaf(BlockLeafInput {
        block_id: 1,
        extraction_proof: vec![1],
        rows_proof: vec![2],
    })
}

fn parent() -> DbBlockType {
    DbBlockType::Parent(BlockParentInput {
        block_id: 2,
        old_block_number: [0; 32],
        old_min: [0; 32],
        old_max: [0; 32],
        prev_left_child: None,
        prev_right_child: Some([1; 32]),
        old_rows_tree_hash: [0; 32],
        extraction_proof: vec![],
        rows_proof: vec![],
    })
}

fn membership() -> DbBlockType {
    DbBlockType::Membership(MembershipInput {
        block_id: 3,
        index_value: [0; 32],
        old_min: [0; 32],
        old_max: [0; 32],
        left_child: [0; 32],
        rows_tree_hash: [0; 32],
    })
}

fn length_task(kinds: Vec<Option<NodeType>>) -> Task {
    WorkerTaskType::BatchedLength(BatchedLength {
        length_slot: 300,
        variable_slot: 5,
        nodes: kinds.into_iter().map(node).collect(),
    })
}

fn contract_task(kinds: Vec<Option<NodeType>>) -> Task {
    WorkerTaskType::BatchedContract(BatchedContract {
        storage_root: vec![0; 32],
        contract: [9; 20],
        nodes: kinds.into_iter().map(node).collect(),
    })
}

#[test]
fn circuit_input_is_one_proof() {
    let t: Task = WorkerTaskType::CircuitInput(5);
    let (reqs, err) = plan_requests(&t);
    assert_eq!(reqs, vec![CircuitRequest::TaskCircuit]);
    assert_eq!(err, None);
    assert_eq!(next_step(&t, 0), Step::Prove(CircuitRequest::TaskCircuit));
    assert_eq!(next_step(&t, 1), Step::Done(0));
}

#[test]
fn index_batch_chains_memberships() {
    let t: Task = WorkerTaskType::BatchedIndex(vec![leaf(), parent(), membership(), membership()]);
    let (reqs, err) = plan_requests(&t);
    assert_eq!(
        reqs,
        vec![
            CircuitRequest::IndexLeaf { input: 0 },
            CircuitRequest::IndexParent { input: 1 },
            CircuitRequest::IndexMembership { input: 2, child: 1 },
            CircuitRequest::IndexMembership { input: 3, child: 2 },
        ]
    );
    assert_eq!(err, None);
    assert_eq!(
        next_step(&t, 2),
        Step::Prove(CircuitRequest::IndexMembership { input: 2, child: 1 })
    );
    assert_eq!(next_step(&t, 4), Step::Done(3));
}

#[test]
fn length_path_walks_back_from_the_last_node() {
    let t = length_task(vec![
        Some(NodeType::Leaf),
        Some(NodeType::Branch),
        Some(NodeType::Extension),
    ]);
    let (reqs, err) = plan_requests(&t);
    assert_eq!(
        reqs,
        vec![
            CircuitRequest::LengthLeaf {
                node: 0,
                length_slot: 44,
                variable_slot: 5
            },
            CircuitRequest::LengthExtension { node: 2, child: 0 },
            CircuitRequest::LengthBranch { node: 1, child: 1 },
        ]
    );
    assert_eq!(err, None);
    assert_eq!(next_step(&t, 3), Step::Done(2));
}

#[test]
fn contract_path_walks_back_from_the_last_node() {
    let t = contract_task(vec![
        Some(NodeType::Leaf),
        Some(NodeType::Extension),
        Some(NodeType::Branch),
    ]);
    let (reqs, _) = plan_requests(&t);
    assert_eq!(
        reqs,
        vec![
            CircuitRequest::ContractLeaf { node: 0 },
            CircuitRequest::ContractBranch { node: 2, child: 0 },
            CircuitRequest::ContractExtension { node: 1, child: 1 },
        ]
    );
    let single = contract_task(vec![Some(NodeType::Leaf)]);
    assert_eq!(
        next_step(&single, 0),
        Step::Prove(CircuitRequest::ContractLeaf { node: 0 })
    );
    assert_eq!(next_step(&single, 1), Step::Done(0));
}

#[test]
fn malformed_paths_fail() {
    let t = length_task(vec![]);
    assert_eq!(
        next_step(&t, 0),
        Step::Fail(PlanError::MissingLeafNode(Extraction::Length))
    );
    let t = contract_task(vec![Some(NodeType::Branch), Some(NodeType::Leaf)]);
    assert_eq!(
        next_step(&t, 0),
        Step::Fail(PlanError::FirstNodeNotLeaf(Extraction::Contract))
    );
    let t = contract_task(vec![None]);
    assert_eq!(next_step(&t, 0), Step::Fail(PlanError::UnknownNodeType));

    // The last node is met first after the leaf.
    let t = length_task(vec![
        Some(NodeType::Leaf),
        Some(NodeType::Branch),
        Some(NodeType::Leaf),
    ]);
    let (reqs, err) = plan_requests(&t);
    assert_eq!(reqs.len(), 1);
    assert_eq!(err, Some(PlanError::LeafAfterFirst));
    assert_eq!(next_step(&t, 1), Step::Fail(PlanError::LeafAfterFirst));

    let t = length_task(vec![Some(NodeType::Leaf), None, Some(NodeType::Branch)]);
    let (reqs, err) = plan_requests(&t);
    assert_eq!(reqs.len(), 2);
    assert_eq!(err, Some(PlanError::UnknownNodeType));
    assert_eq!(
        next_step(&t, 1),
        Step::Prove(CircuitRequest::LengthBranch { node: 2, child: 0 })
    );
    assert_eq!(next_step(&t, 2), Step::Fail(PlanError::UnknownNodeType));
}

#[test]
fn typed_single_circuit() {
    let t = TypedTask::Single(SingleCircuit::Ivc);
    assert_eq!(
        next_typed_step(&t, 0),
        TypedStep::Prove(TypedRequest::Single(SingleCircuit::Ivc))
    );
    assert_eq!(next_typed_step(&t, 1), TypedStep::Done(0));
}

#[test]
fn typed_length_keeps_the_leaf_proof() {
    let t = TypedTask::Length {
        nodes: 3,
        length_slot: 1,
        variable_slot: 2,
    };
    assert_eq!(
        next_typed_step(&t, 0),
        TypedStep::Prove(TypedRequest::Batch(CircuitRequest::LengthLeaf {
            node: 0,
            length_slot: 1,
            variable_slot: 2
        }))
    );
    assert_eq!(
        next_typed_step(&t, 1),
        TypedStep::Prove(TypedRequest::Batch(CircuitRequest::LengthBranch {
            node: 1,
            child: 0
        }))
    );
    assert_eq!(
        next_typed_step(&t, 2),
        TypedStep::Prove(TypedRequest::Batch(CircuitRequest::LengthBranch {
            node: 2,
            child: 0
        }))
    );
    assert_eq!(next_typed_step(&t, 3), TypedStep::Done(0));
}

#[test]
fn typed_contract_chains_in_order() {
    let t = TypedTask::Contract { nodes: 3 };
    assert_eq!(
        next_typed_step(&t, 0),
        TypedStep::Prove(TypedRequest::Batch(CircuitRequest::ContractLeaf { node: 0 }))
    );
    assert_eq!(
        next_typed_step(&t, 2),
        TypedStep::Prove(TypedRequest::Batch(CircuitRequest::ContractBranch {
            node: 2,
            child: 1
        }))
    );
    assert_eq!(next_typed_step(&t, 3), TypedStep::Done(2));
}

#[test]
fn typed_index_update() {
    let t = TypedTask::Index(vec![parent(), membership()]);
    assert_eq!(
        next_typed_step(&t, 0),
        TypedStep::Prove(TypedRequest::Batch(CircuitRequest::IndexParent { input: 0 }))
    );
    assert_eq!(
        next_typed_step(&t, 1),
        TypedStep::Prove(TypedRequest::Batch(CircuitRequest::IndexMembership {
            input: 1,
            child: 0
        }))
    );
    assert_eq!(next_typed_step(&t, 2), TypedStep::Done(1));
}

fn failure() -> ProverError {
    ProverError {
        message: "proving failed".to_string(),
    }
}

#[test]
fn the_first_failed_step_ends_the_task() {
    let t = length_task(vec![
        Some(NodeType::Leaf),
        Some(NodeType::Branch),
        Some(NodeType::Extension),
    ]);
    assert_eq!(
        after_step(&t, 0, Ok(())).unwrap(),
        Step::Prove(CircuitRequest::LengthExtension { node: 2, child: 0 })
    );
    assert_eq!(after_step(&t, 2, Ok(())).unwrap(), Step::Done(2));
    assert_eq!(
        after_step(&t, 1, Err(failure())).unwrap_err().message,
        "proving failed"
    );
    let c: Task = WorkerTaskType::CircuitInput(1);
    assert_eq!(after_step(&c, 0, Ok(())).unwrap(), Step::Done(0));
    assert!(after_step(&c, 0, Err(failure())).is_err());

    let typed = TypedTask::Contract { nodes: 2 };
    assert_eq!(
        after_typed_step(&typed, 0, Ok(())).unwrap(),
        TypedStep::Prove(TypedRequest::Batch(CircuitRequest::ContractBranch {
            node: 1,
            child: 0
        }))
    );
    assert_eq!(after_typed_step(&typed, 1, Ok(())).unwrap(), TypedStep::Done(1));
    assert!(after_typed_step(&typed, 0, Err(failure())).is_err());
}
