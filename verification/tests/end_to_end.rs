use plonkup::prelude::BlsScalar;
use plonkup::prelude::Prover;
use plonkup::prelude::PublicParameters;
use plonkup::prelude::Verifier;
use rand_core::OsRng;
use xor_lookup::session::key_size;
use xor_lookup::session::prover_circuit;
use xor_lookup::session::verifier_circuit;
use xor_lookup::table::generate_xor_lookup_table_4bit;

#[test]
fn proof_of_179_xor_77_is_accepted() {
    let left: u8 = 179;
    let right: u8 = 77;
    let out: u8 = left ^ right;
    assert_eq!(out, 254);

    let parameters = PublicParameters::setup(512, &mut OsRng).unwrap();

    let mut prover = Prover::new(b"end-to-end");
    let table = prover_circuit(prover.composer_mut(), left, right, out);
    let size = key_size(prover.gates(), table.0.len()).unwrap();
    assert_eq!(size, 512);
    let (commit_key, _) = parameters.trim(size).unwrap();
    prover.preprocess(&commit_key).unwrap();
    let public_inputs = vec![BlsScalar::zero(); prover.gates()];
    let indexes = prover.composer_mut().public_input_indexes();
    assert!(indexes.is_empty());
    let proof = prover.prove(&commit_key, &mut OsRng).unwrap();

    let mut verifier = Verifier::new(b"end-to-end");
    verifier_circuit(verifier.composer_mut(), &table);
    let size = key_size(verifier.gates(), table.0.len()).unwrap();
    assert_eq!(size, 512);
    let (commit_key, opening_key) = parameters.trim(size).unwrap();
    verifier.preprocess(&commit_key).unwrap();
    let result = verifier.verify(&proof, &opening_key, &public_inputs, &indexes);
    assert!(result.is_ok());
}

#[test]
fn proof_is_rejected_under_an_altered_table() {
    let left: u8 = 179;
    let right: u8 = 77;
    let out: u8 = left ^ right;

    let parameters = PublicParameters::setup(512, &mut OsRng).unwrap();

    let mut prover = Prover::new(b"mismatch");
    let table = prover_circuit(prover.composer_mut(), left, right, out);
    let size = key_size(prover.gates(), table.0.len()).unwrap();
    let (commit_key, opening_key) = parameters.trim(size).unwrap();
    let public_inputs = vec![BlsScalar::zero(); prover.gates()];
    let indexes = prover.composer_mut().public_input_indexes();
    let proof = prover.prove(&commit_key, &mut OsRng).unwrap();

    let mut altered = generate_xor_lookup_table_4bit();
    altered.0[16 * 11 + 4][2] = BlsScalar::from(14u64);
    assert_ne!(altered, table);

    let mut verifier = Verifier::new(b"mismatch");
    verifier_circuit(verifier.composer_mut(), &altered);
    verifier.preprocess(&commit_key).unwrap();
    let result = verifier.verify(&proof, &opening_key, &public_inputs, &indexes);
    assert!(result.is_err());
}
