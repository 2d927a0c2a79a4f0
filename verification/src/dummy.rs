//! Provers that prove nothing: they answer the tasks of their kind with
//! random bytes shaped like a serialised proof, for testing the pipeline.

use vstd::prelude::*;
use crate::encoding::{bincode_bytes, u64_le};
use crate::manager::{LgnProver, ProverError, TaskType, task_kind, ProverType, TaskEnvelope, ReplyEnvelope};

verus! {

/// The size of a dummy preprocessing or query proof.
pub const PROOF_SIZE: usize = 120;
/// The size of a dummy Groth16 proof.
pub const GROTH16_PROOF_SIZE: usize = 32;

/// Draws a random byte with `rand::random`.
///
/// Trusted: nothing is stated of the byte.
#[verifier::external_body]
fn random_byte() -> u8 {
    rand::random::<u8>()
}

/// A dummy proof: `proof_size` random bytes, serialised with bincode.
pub fn dummy_proof(proof_size: usize) -> (r: Vec<u8>)
    ensures
        r@.len() == 8 + proof_size,
        r@.subrange(0, 8) == u64_le(proof_size as nat),
{
    let mut data: Vec<u8> = Vec::new();
    let mut i: usize = 0;
    while i < proof_size
        invariant
            i <= proof_size,
            data@.len() == i,
        decreases proof_size - i,
    {
        data.push(random_byte());
        i = i + 1;
    }
    let r = bincode_bytes(&data);
    assert(r@.subrange(0, 8) =~= u64_le(proof_size as nat));
    r
}

/// The answer of a dummy prover for tasks of kind `kind`, whose proofs have
/// `size` bytes: for a task of its kind, the reply for the task's query and
/// id, on the task's chain, with a serialised proof of that size under the
/// task's proof key; for a task of another kind, an error.
pub open spec fn dummy_answer<P, Q, G>(
    env: TaskEnvelope<TaskType<P, Q, G>>,
    kind: ProverType,
    size: usize,
    r: Result<ReplyEnvelope, ProverError>,
) -> bool {
    if task_kind(env.task) == kind {
        match r {
            Ok(reply) => {
                &&& reply.query_id@ == env.query_id@
                &&& reply.task_id@ == env.task_id@
                &&& reply.kind == kind
                &&& reply.chain_id == env.chain_id
                &&& match reply.proof {
                    Some(kp) => kp.0@ == env.proof_key@ && kp.1@.len() == 8 + size && kp.1@.subrange(0, 8)
                        == u64_le(size as nat),
                    None => false,
                }
            },
            Err(_) => false,
        }
    } else {
        r is Err
    }
}

/// Answers a task of kind `kind` with a dummy proof of `size` bytes, and
/// refuses a task of another kind with `refusal`.
fn dummy_run<P, Q, G>(
    env: &TaskEnvelope<TaskType<P, Q, G>>,
    kind: ProverType,
    size: usize,
    refusal: String,
) -> (r: Result<ReplyEnvelope, ProverError>)
    ensures
        dummy_answer(*env, kind, size, r),
        task_kind(env.task) != kind ==> (r matches Err(e) && e.message@ == refusal@),
{
    if env.task.to_prover_type() == kind {
        Ok(
            ReplyEnvelope {
                query_id: env.query_id.clone(),
                task_id: env.task_id.clone(),
                kind,
                chain_id: env.chain_id,
                proof: Some((env.proof_key.clone(), dummy_proof(size))),
            },
        )
    } else {
        Err(ProverError { message: refusal })
    }
}

/// The dummy query prover.
pub struct DummyProver;

/// The dummy preprocessing prover.
pub struct PreprocessingDummyProver;

/// The dummy Groth16 prover.
pub struct Groth16DummyProver;

impl<P, Q, G> LgnProver<TaskEnvelope<TaskType<P, Q, G>>, ReplyEnvelope> for DummyProver {
    open spec fn answers(&self, env: TaskEnvelope<TaskType<P, Q, G>>, r: Result<ReplyEnvelope, ProverError>) -> bool {
        dummy_answer(env, ProverType::V1Query, PROOF_SIZE, r)
    }

    fn run(&self, env: &TaskEnvelope<TaskType<P, Q, G>>) -> (r: Result<ReplyEnvelope, ProverError>) {
        dummy_run(env, ProverType::V1Query, PROOF_SIZE, String::from_str("Received unexpected task"))
    }
}

impl<P, Q, G> LgnProver<TaskEnvelope<TaskType<P, Q, G>>, ReplyEnvelope> for PreprocessingDummyProver {
    /// A refused task is named by its id in the error.
    open spec fn answers(&self, env: TaskEnvelope<TaskType<P, Q, G>>, r: Result<ReplyEnvelope, ProverError>) -> bool {
        &&& dummy_answer(env, ProverType::V1Preprocessing, PROOF_SIZE, r)
        &&& task_kind(env.task) != ProverType::V1Preprocessing ==> (r matches Err(e) && e.message@
            == "Unexpected task. task_id: "@ + env.task_id@)
    }

    fn run(&self, env: &TaskEnvelope<TaskType<P, Q, G>>) -> (r: Result<ReplyEnvelope, ProverError>) {
        let mut refusal = String::from_str("Unexpected task. task_id: ");
        refusal.append(env.task_id.as_str());
        dummy_run(env, ProverType::V1Preprocessing, PROOF_SIZE, refusal)
    }
}

impl<P, Q, G> LgnProver<TaskEnvelope<TaskType<P, Q, G>>, ReplyEnvelope> for Groth16DummyProver {
    open spec fn answers(&self, env: TaskEnvelope<TaskType<P, Q, G>>, r: Result<ReplyEnvelope, ProverError>) -> bool {
        dummy_answer(env, ProverType::V1Groth16, GROTH16_PROOF_SIZE, r)
    }

    fn run(&self, env: &TaskEnvelope<TaskType<P, Q, G>>) -> (r: Result<ReplyEnvelope, ProverError>) {
        dummy_run(env, ProverType::V1Groth16, GROTH16_PROOF_SIZE, String::from_str("Unexpected task type"))
    }
}

} // verus!
