use xor_lookup::session::advance;
use xor_lookup::session::domain_size;
use xor_lookup::session::first_step;
use xor_lookup::session::key_size;
use xor_lookup::session::total_size;
use xor_lookup::session::Action;
use xor_lookup::session::Outcome;
use xor_lookup::session::Step;
use xor_lookup::session::ENGINE_TABLE_ROWS;
use xor_lookup::session::PLACEHOLDER_LEFT;
use xor_lookup::session::PLACEHOLDER_OUT;
use xor_lookup::session::PLACEHOLDER_RIGHT;

#[test]
fn total_size_is_the_larger_of_gates_and_rows() {
    assert_eq!(total_size(6, 259), 259);
    assert_eq!(total_size(600, 259), 600);
    assert_eq!(total_size(0, 0), 0);
    assert_eq!(total_size(7, 7), 7);
}

#[test]
fn domain_size_is_the_next_power_of_two() {
    assert_eq!(domain_size(259), Some(512));
    assert_eq!(domain_size(6), Some(8));
    assert_eq!(domain_size(3), Some(4));
    assert_eq!(domain_size(257), Some(512));
    assert_eq!(domain_size(513), Some(1024));
}

#[test]
fn domain_size_of_a_power_of_two_is_itself() {
    assert_eq!(domain_size(1), Some(1));
    assert_eq!(domain_size(2), Some(2));
    assert_eq!(domain_size(256), Some(256));
    assert_eq!(domain_size(512), Some(512));
}

#[test]
fn domain_size_of_zero_is_one() {
    assert_eq!(domain_size(0), Some(1));
}

#[test]
fn domain_size_at_the_limit_of_usize() {
    let top = 1usize << (usize::BITS - 1);
    assert_eq!(domain_size(top), Some(top));
    assert_eq!(domain_size(top - 1), Some(top));
    assert_eq!(domain_size(top + 1), None);
    assert_eq!(domain_size(usize::MAX), None);
}

#[test]
fn domain_size_agrees_with_std_on_small_sizes() {
    for size in 0..5000usize {
        assert_eq!(domain_size(size), Some(size.next_power_of_two()));
    }
}

#[test]
fn both_roles_get_the_same_domain_size() {
    let prover = domain_size(total_size(6, 259));
    let verifier = domain_size(total_size(6, 259));
    assert_eq!(prover, verifier);
    assert_eq!(prover, Some(512));
}

#[test]
fn session_runs_its_steps_in_order() {
    let order = [
        Step::Setup,
        Step::BuildProver,
        Step::TrimProver,
        Step::PreprocessProver,
        Step::Capture,
        Step::Prove,
        Step::BuildVerifier,
        Step::TrimVerifier,
        Step::PreprocessVerifier,
        Step::Verify,
    ];
    let mut step = first_step();
    assert_eq!(step, Step::Setup);
    for position in 0..order.len() {
        assert_eq!(step, order[position]);
        match advance(step, true) {
            Action::Run(next) => {
                assert_eq!(next, order[position + 1]);
                step = next;
            }
            Action::Finish(outcome) => {
                assert_eq!(position, order.len() - 1);
                assert_eq!(outcome, Outcome::Accepted);
            }
        }
    }
}

#[test]
fn failed_check_of_the_proof_is_a_rejection() {
    assert_eq!(advance(Step::Verify, false), Action::Finish(Outcome::Rejected));
    assert_eq!(advance(Step::Verify, true), Action::Finish(Outcome::Accepted));
}

#[test]
fn any_other_failure_aborts_at_that_step() {
    let before_verify = [
        Step::Setup,
        Step::BuildProver,
        Step::TrimProver,
        Step::PreprocessProver,
        Step::Capture,
        Step::Prove,
        Step::BuildVerifier,
        Step::TrimVerifier,
        Step::PreprocessVerifier,
    ];
    for step in before_verify {
        assert_eq!(advance(step, false), Action::Finish(Outcome::Aborted(step)));
    }
}

#[test]
fn capture_comes_right_before_prove() {
    assert_eq!(advance(Step::PreprocessProver, true), Action::Run(Step::Capture));
    assert_eq!(advance(Step::Capture, true), Action::Run(Step::Prove));
}

#[test]
fn placeholder_triple_is_seven_two_one() {
    assert_eq!((PLACEHOLDER_LEFT, PLACEHOLDER_RIGHT, PLACEHOLDER_OUT), (7, 2, 1));
    assert_ne!(PLACEHOLDER_LEFT ^ PLACEHOLDER_RIGHT, PLACEHOLDER_OUT);
    assert_eq!(PLACEHOLDER_LEFT ^ PLACEHOLDER_RIGHT, 5);
}

#[test]
fn key_size_counts_the_rows_of_the_engine() {
    assert_eq!(ENGINE_TABLE_ROWS, 3);
    assert_eq!(key_size(6, 256), Some(512));
    assert_eq!(key_size(6, 253), Some(256));
    assert_eq!(key_size(6, 254), Some(512));
    assert_eq!(key_size(600, 256), Some(1024));
    assert_eq!(key_size(0, 0), Some(4));
    assert_eq!(key_size(5, 0), Some(8));
}

#[test]
fn key_size_that_does_not_fit() {
    assert_eq!(key_size(0, usize::MAX), None);
    assert_eq!(key_size(0, usize::MAX - 2), None);
    assert_eq!(key_size(usize::MAX, 0), None);
    let top = 1usize << (usize::BITS - 1);
    assert_eq!(key_size(top, 0), Some(top));
    assert_eq!(key_size(0, top - 3), Some(top));
    assert_eq!(key_size(0, top - 2), None);
}
