//! The Groth16 prover of the second version: it wraps the revelation proof
//! of a query into a proof that can be checked on chain.

use vstd::prelude::*;
use crate::manager::ProverError;

verus! {

/// A Groth16 prover, implemented by the proving backend.
pub trait Prover {
    /// Whether `r` is a result the prover may give for `aggregated_proof`. A
    /// prover that states nothing of its results keeps this default.
    open spec fn wraps(&self, aggregated_proof: Seq<u8>, r: Result<Vec<u8>, ProverError>) -> bool {
        true
    }

    fn prove(&self, aggregated_proof: &[u8]) -> (r: Result<Vec<u8>, ProverError>)
        ensures
            self.wraps(aggregated_proof@, r),
    ;
}

/// Answers a Groth16 task of query `query_id`: the revelation proof is
/// wrapped by `prover`, and the result is keyed by the query.
pub fn groth16_reply<GP: Prover>(prover: &GP, query_id: &str, revelation_proof: &[u8]) -> (r: Result<
    (String, Vec<u8>),
    ProverError,
>)
    ensures
        match r {
            Ok(p) => p.0@ == query_id@ && prover.wraps(revelation_proof@, Ok(p.1)),
            Err(e) => prover.wraps(revelation_proof@, Err(e)),
        },
{
    match prover.prove(revelation_proof) {
        Ok(proof) => Ok((String::from_str(query_id), proof)),
        Err(e) => Err(e),
    }
}

} // verus!
