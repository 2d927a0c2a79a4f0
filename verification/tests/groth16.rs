use lgn_worker::groth16::{groth16_reply, Prover};
use lgn_worker::manager::ProverError;

struct Doubler;

impl Prover for Doubler {
    fn prove(&self, aggregated_proof: &[u8]) -> Result<Vec<u8>, ProverError> {
        if aggregated_proof.is_empty() {
            Err(ProverError {
                message: "nothing to wrap".to_string(),
            })
        } else {
            Ok(aggregated_proof.iter().map(|b| b.wrapping_mul(2)).collect())
        }
    }
}

#[test]
fn groth16_reply_is_keyed_by_query() {
    let (key, proof) = groth16_reply(&Doubler, "q-100", &[1, 2, 200]).unwrap();
    assert_eq!(key, "q-100");
    assert_eq!(proof, vec![2, 4, 144]);
    let err = groth16_reply(&Doubler, "q-100", &[]).unwrap_err();
    assert_eq!(err.message, "nothing to wrap");
}
