use lgn_worker::dummy::{dummy_proof, GROTH16_PROOF_SIZE, PROOF_SIZE};
use lgn_worker::encoding::left_pad32;
use lgn_worker::metrics::Metrics;

#[test]
fn left_padding_into_a_word() {
    let r = left_pad32(&[1, 2, 3]);
    let mut expected = [0u8; 32];
    expected[29] = 1;
    expected[30] = 2;
    expected[31] = 3;
    assert_eq!(r, expected);
    assert_eq!(left_pad32(&[]), [0u8; 32]);
    assert_eq!(left_pad32(&[7u8; 32]), [7u8; 32]);
}

#[test]
fn dummy_proofs_are_serialised_byte_vectors() {
    let p = dummy_proof(PROOF_SIZE);
    assert_eq!(p.len(), 128);
    assert_eq!(&p[0..8], &[120, 0, 0, 0, 0, 0, 0, 0]);
    let decoded: Vec<u8> = bincode::deserialize(&p).unwrap();
    assert_eq!(decoded.len(), PROOF_SIZE);
    assert_eq!(decoded[..], p[8..]);

    let g = dummy_proof(GROTH16_PROOF_SIZE);
    assert_eq!(g.len(), 40);
    assert_eq!(dummy_proof(0), vec![0u8; 8]);
    assert_eq!(dummy_proof(300)[0..8], [44, 1, 0, 0, 0, 0, 0, 0]);
}

#[test]
fn metrics_handle() {
    let _m = Metrics::new();
}
