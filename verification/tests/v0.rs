use lgn_worker::v0::erc20::{
    plan_query_task as plan20, query_reply as reply20, QueryCircuit as Circuit20, QueryProofKey as Key20,
    QueryTaskKind as Kind20,
};
use lgn_worker::manager::{ProverError, TaskEnvelope};
use lgn_worker::v0::erc721::{
    plan_query_task, query_reply, QueryCircuit, QueryInputs, QueryProofKey, QueryTaskKind,
};
use lgn_worker::v0::preprocessing::{
    plan_task, task_reply, Circuit, CircuitInputs, OnFailure, ProofKey, TaskKind,
};
use lgn_worker::v0::{
    blocks_db_circuit, create_prover, encode_hash, erc20, erc721, mpt_inner_circuit,
    partial_node_children, sibling_is_left, split_merkle_path, state_db_path, BlocksDbCircuit,
    erc20_query_task, groth16_task, preprocessing_task, storage_query_task, Groth16,
    MptInnerCircuit, MptNodeError, Preprocessing, Prover, V0TaskType,
};

struct Wrapper;

impl Prover for Wrapper {
    fn prove(&self, aggregated_proof: &[u8]) -> Result<Vec<u8>, ProverError> {
        if aggregated_proof.is_empty() {
            Err(ProverError {
                message: "empty proof".to_string(),
            })
        } else {
            Ok(aggregated_proof.iter().rev().cloned().collect())
        }
    }
}

#[test]
fn groth16_runner_keys_by_query() {
    let g = Groth16::new(Wrapper);
    let (key, proof) = g.generate_proof("q-100", "t-100", &[1, 2, 3]).unwrap();
    assert_eq!(key.query_id, "q-100");
    assert_eq!(proof, vec![3, 2, 1]);
    let err = g.generate_proof("q-100", "t-100", &[]).unwrap_err();
    assert_eq!(err.cause.message, "empty proof");
    assert_eq!(
        err.context,
        " Failed to generate the Groth16 proof: query_id = q-100, task_id = t-100"
    );
    let g = create_prover(Wrapper);
    assert!(g.generate_proof("q-100", "t-100", &[9]).is_ok());
}

#[test]
fn runners_hold_their_prover() {
    let _p = Preprocessing::new(5u8);
    let _q = erc20::Query::new(erc20::DummyProver);
    let _r = erc721::Query::new(erc721::DummyProver);
}

#[test]
fn short_hash_and_tree_positions() {
    let mut h = [0u8; 32];
    h[0] = 0xde;
    h[1] = 0xad;
    h[2] = 0xbe;
    h[3] = 0xef;
    h[4] = 0x11;
    assert_eq!(encode_hash(&h), "deadbeef");
    assert!(sibling_is_left(0));
    assert!(!sibling_is_left(7));
    let (siblings, positions) = state_db_path(&vec![(4, [1; 32]), (5, [2; 32])]);
    assert_eq!(siblings, vec![[1; 32], [2; 32]]);
    assert_eq!(positions, vec![true, false]);
    assert_eq!(partial_node_children(1, 2, true), (2, 1));
    assert_eq!(partial_node_children(1, 2, false), (1, 2));
    let (root, below) = split_merkle_path(&vec![[1; 32], [2; 32], [3; 32]]);
    assert_eq!(root, [3; 32]);
    assert_eq!(below, vec![[1; 32], [2; 32]]);
    let (root, below) = split_merkle_path(&vec![[4; 32]]);
    assert_eq!(root, [4; 32]);
    assert!(below.is_empty());
}

#[test]
fn circuit_choices() {
    assert_eq!(blocks_db_circuit(0), BlocksDbCircuit::FirstBlock);
    assert_eq!(blocks_db_circuit(3), BlocksDbCircuit::SubsequentBlock);
    assert_eq!(mpt_inner_circuit(Some(2), 1), Ok(MptInnerCircuit::Extension));
    assert_eq!(mpt_inner_circuit(Some(17), 3), Ok(MptInnerCircuit::Branch));
    assert_eq!(
        mpt_inner_circuit(Some(5), 0),
        Err(MptNodeError::InvalidRlpItemCount)
    );
    assert_eq!(
        mpt_inner_circuit(None, 0),
        Err(MptNodeError::InvalidRlpItemCount)
    );
}

#[test]
fn storage_task_plans() {
    let c = [7u8; 20];
    let mut h = [0u8; 32];
    h[0] = 0x01;
    h[3] = 0xff;
    let p = plan_task(10, &TaskKind::MptLeaf { contract: c, hash: h });
    match p.key {
        ProofKey::MptInclusion(b, k, s) => {
            assert_eq!((b, k), (10, c));
            assert_eq!(s, "010000ff");
        }
        other => panic!("unexpected {:?}", other),
    }
    assert_eq!(p.circuit, Circuit::MptLeaf);
    assert_eq!(p.on_failure, OnFailure::Abort);

    let p = plan_task(10, &TaskKind::MptBranch { contract: c, hash: h });
    assert_eq!(p.circuit, Circuit::MptBranch);
    assert_eq!(p.on_failure, OnFailure::Report);

    let p = plan_task(
        11,
        &TaskKind::StorageDbBranch {
            contract: c,
            position: 4,
            left_child_proof: vec![1],
            right_child_proof: vec![2],
        },
    );
    assert!(matches!(p.inputs, CircuitInputs::Two(ref a, ref b) if a == &vec![1] && b == &vec![2]));
    assert!(matches!(p.key, ProofKey::StorageDb(11, _, 4)));
    assert_eq!(p.on_failure, OnFailure::Abort);

    let p = plan_task(
        12,
        &TaskKind::LengthMatch {
            contract: c,
            mapping_proof: vec![3],
            length_extract_proof: vec![4],
        },
    );
    assert!(matches!(p.inputs, CircuitInputs::Two(ref a, ref b) if a == &vec![3] && b == &vec![4]));
    assert!(matches!(p.key, ProofKey::Bridge(12, _)));
    assert_eq!(p.circuit, Circuit::LengthMatch);

    let p = plan_task(13, &TaskKind::BlockLinking);
    assert!(matches!(p.key, ProofKey::BlockLinking(13)));
    assert_eq!(p.on_failure, OnFailure::Abort);

    let p = plan_task(14, &TaskKind::BlocksDb { leaf_index: 0 });
    assert!(matches!(p.key, ProofKey::BlocksDb(14, 0)));
    assert_eq!(p.circuit, Circuit::BlocksDbFirst);
    let p = plan_task(14, &TaskKind::BlocksDb { leaf_index: 2 });
    assert_eq!(p.circuit, Circuit::BlocksDbSubsequent);
    assert_eq!(p.on_failure, OnFailure::Report);

    let p = plan_task(
        15,
        &TaskKind::StateDbLeaf {
            position: 3,
            block_linking_proof: vec![5],
        },
    );
    assert!(matches!(p.inputs, CircuitInputs::One(ref a) if a == &vec![5]));
    assert!(matches!(p.key, ProofKey::State(15, 3)));
    assert_eq!(p.circuit, Circuit::StateDbLeaf);
}

#[test]
fn erc721_query_task_plans() {
    let c = [1u8; 20];
    let (k, circ, _) = plan_query_task(
        "q-1",
        c,
        &QueryTaskKind::StorageEntry {
            block_nr: 5,
            position: 9,
        },
    );
    match k {
        QueryProofKey::StorageEntry(q, b, cc, p) => {
            assert_eq!(q, "q-1");
            assert_eq!((b, cc, p), (5, c, 9));
        }
        other => panic!("unexpected {:?}", other),
    }
    assert_eq!(circ, QueryCircuit::StorageEntry);
    let (k, circ, inputs) =
        plan_query_task("q-1", c, &QueryTaskKind::BlockPartialNode { position: 2 });
    assert!(matches!(inputs, QueryInputs::TaskData));
    assert!(matches!(k, QueryProofKey::Aggregation(_, 2)));
    assert_eq!(circ, QueryCircuit::BlockPartialNode);
    let (k, circ, _) = plan_query_task("q-2", c, &QueryTaskKind::Revelation);
    assert!(matches!(k, QueryProofKey::Revelation(ref q) if q == "q-2"));
    assert_eq!(circ, QueryCircuit::Revelation);
}

#[test]
fn erc20_query_task_plans() {
    let (k, c) = plan20(
        "q-7",
        &Kind20::StorageBranch {
            block_number: 3,
            position: 4,
        },
    );
    match k {
        Key20::StorageEntry(q, b, p) => {
            assert_eq!(q, "q-7");
            assert_eq!((b, p), (3, 4));
        }
        other => panic!("unexpected {:?}", other),
    }
    assert_eq!(c, Circuit20::StorageBranch);
    let (k, c) = plan20("q-7", &Kind20::StateEntry { block_number: 8 });
    assert!(matches!(k, Key20::StateDatabase(_, 8)));
    assert_eq!(c, Circuit20::StateDb);
    let (k, c) = plan20("q-7", &Kind20::BlockFullNode { position: 1 });
    assert!(matches!(k, Key20::Aggregation(_, 1)));
    assert_eq!(c, Circuit20::BlockFullNode);
    let (_, c) = plan20(
        "q-7",
        &Kind20::StorageLeaf {
            block_number: 0,
            position: 0,
        },
    );
    assert_eq!(c, Circuit20::StorageLeaf);
}

#[test]
fn v0_task_inputs_and_replies() {
    let c = [2u8; 20];
    let p = plan_task(
        20,
        &TaskKind::Equivalence {
            contract: c,
            storage_proof: vec![8],
            length_match_proof: vec![9],
        },
    );
    assert!(matches!(p.inputs, CircuitInputs::Two(ref a, ref b) if a == &vec![8] && b == &vec![9]));
    let err = task_reply(
        1,
        20,
        p,
        Err(ProverError {
            message: "bad".to_string(),
        }),
    )
    .unwrap_err();
    assert_eq!(err.context, "runnning prove_equivalence");
    assert_eq!(err.cause.message, "bad");

    let p = plan_task(
        21,
        &TaskKind::StateDbBranch {
            position: 1,
            left_proof: vec![1],
            right_proof: vec![2],
        },
    );
    assert!(matches!(p.inputs, CircuitInputs::Two(ref a, ref b) if a == &vec![1] && b == &vec![2]));
    let w = task_reply(5, 21, p, Ok(vec![42])).unwrap();
    assert_eq!((w.chain_id, w.block_nr), (5, 21));
    assert!(matches!(w.proof, Some((ProofKey::State(21, 1), ref q)) if q == &vec![42]));

    let p = plan_task(22, &TaskKind::BlockLinking);
    assert!(matches!(p.inputs, CircuitInputs::TaskData));

    let (k, circ, inputs) = plan_query_task(
        "q-3",
        c,
        &QueryTaskKind::BlockFullNode {
            position: 6,
            left_child_proof: vec![10],
            right_child_proof: vec![11],
        },
    );
    assert!(matches!(inputs, QueryInputs::Children(ref a, ref b) if a == &vec![10] && b == &vec![11]));
    assert_eq!(circ, QueryCircuit::BlockFullNode);
    let err = query_reply(
        3,
        k,
        circ,
        Err(ProverError {
            message: "oops".to_string(),
        }),
    )
    .unwrap_err();
    assert_eq!(err.context, "while running prove_block_full_node");
    let (k, circ, _) = plan_query_task("q-3", c, &QueryTaskKind::Revelation);
    let w = query_reply(3, k, circ, Ok(vec![1])).unwrap();
    assert_eq!(w.chain_id, 3);
    assert!(matches!(w.proof, Some((QueryProofKey::Revelation(ref q), _)) if q == "q-3"));

    let (k, _) = plan20("q-4", &Kind20::Revelation);
    let w = reply20(k, Ok(vec![5])).unwrap();
    assert_eq!(w.chain_id, 0);
    let (k, _) = plan20("q-4", &Kind20::Revelation);
    let e = reply20(
        k,
        Err(ProverError {
            message: "x".to_string(),
        }),
    )
    .unwrap_err();
    assert_eq!(e.message, "x");
}

type V0 = V0TaskType<u8, u16, u32, u64>;

fn v0_env(task: V0) -> TaskEnvelope<V0> {
    TaskEnvelope {
        query_id: "q".to_string(),
        task_id: "t".to_string(),
        chain_id: 1,
        proof_key: String::new(),
        task,
    }
}

#[test]
fn v0_envelope_dispatch() {
    assert_eq!(preprocessing_task(&v0_env(V0::StoragePreprocess(3))).unwrap(), &3);
    assert_eq!(
        preprocessing_task(&v0_env(V0::Erc20Query(3))).unwrap_err().message,
        "Received unexpected task"
    );
    assert_eq!(storage_query_task(&v0_env(V0::StorageQuery(4))).unwrap(), &4);
    assert_eq!(erc20_query_task(&v0_env(V0::Erc20Query(5))).unwrap(), &5);
    assert_eq!(groth16_task(&v0_env(V0::StorageGroth16(6))).unwrap(), &6);
    assert_eq!(
        groth16_task(&v0_env(V0::StorageQuery(6))).unwrap_err().message,
        "Unexpected task type"
    );
    assert!(storage_query_task(&v0_env(V0::StoragePreprocess(1))).is_err());
    assert!(erc20_query_task(&v0_env(V0::StorageGroth16(1))).is_err());
}
