use plonkup::prelude::BlsScalar;
use plonkup::prelude::Prover;
use plonkup::prelude::Verifier;
use xor_lookup::circuit::example_circuit;
use xor_lookup::session::prover_circuit;
use xor_lookup::session::verifier_circuit;
use xor_lookup::table::generate_xor_lookup_table_4bit;

#[test]
fn circuit_adds_three_gates() {
    let mut prover = Prover::new(b"gates");
    let before = prover.gates();
    example_circuit(prover.composer_mut(), 179, 77, 254);
    assert_eq!(prover.gates(), before + 3);
}

#[test]
fn circuit_allocates_seven_witnesses_and_returns_the_last() {
    let mut prover = Prover::new(b"witnesses");
    let first_free = prover.composer_mut().append_witness(BlsScalar::zero()).index();
    let out = example_circuit(prover.composer_mut(), 179, 77, 254);
    assert_eq!(out.index(), first_free + 7);
    let next = prover.composer_mut().append_witness(BlsScalar::zero());
    assert_eq!(next.index(), first_free + 8);
}

#[test]
fn circuit_encodes_an_inconsistent_triple_as_given() {
    let mut prover = Prover::new(b"blind");
    let before = prover.gates();
    let first_free = prover.composer_mut().append_witness(BlsScalar::zero()).index();
    let out = example_circuit(prover.composer_mut(), 7, 2, 1);
    assert_eq!(prover.gates(), before + 3);
    assert_eq!(out.index(), first_free + 7);
}

#[test]
fn circuit_added_twice_adds_six_gates() {
    let mut prover = Prover::new(b"twice");
    let before = prover.gates();
    let first = example_circuit(prover.composer_mut(), 1, 2, 3);
    let second = example_circuit(prover.composer_mut(), 4, 5, 1);
    assert_eq!(prover.gates(), before + 6);
    assert_eq!(second.index(), first.index() + 7);
}

#[test]
fn prover_role_returns_the_xor_table() {
    let mut prover = Prover::new(b"role");
    let before = prover.gates();
    let table = prover_circuit(prover.composer_mut(), 179, 77, 254);
    assert_eq!(table, generate_xor_lookup_table_4bit());
    assert_eq!(prover.gates(), before + 3);
}

#[test]
fn both_roles_build_circuits_of_the_same_size() {
    let mut prover = Prover::new(b"shape");
    let table = prover_circuit(prover.composer_mut(), 200, 100, 200 ^ 100);
    let mut verifier = Verifier::new(b"shape");
    verifier_circuit(verifier.composer_mut(), &table);
    assert_eq!(prover.gates(), verifier.gates());
}
