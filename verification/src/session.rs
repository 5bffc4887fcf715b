//! One proving and verifying session: what each role puts into its constraint
//! system, how large the keys have to be, and in which order the steps run.
//!
//! The steps themselves (parameter setup, key trimming, preprocessing, proving
//! and verifying) are the engine's work and are run by the caller. This module
//! decides what comes next and what a step's failure means.

use vstd::prelude::*;
use vstd::arithmetic::power2::lemma_pow2_strictly_increases;
use vstd::arithmetic::power2::lemma_pow2_unfold;
use vstd::arithmetic::power2::lemma2_to64;
use vstd::arithmetic::power2::pow2;
use plonkup::constraint_system::TurboComposer;
use plonkup::plonkup::LookupTable;
use crate::circuit::byte_xor_gates;
use crate::circuit::byte_xor_values;
use crate::circuit::circuit_holds;
use crate::circuit::example_circuit;
use crate::circuit::lemma_correct_xor_is_satisfied;
use crate::circuit::lemma_wrong_xor_fails_lookup;
use crate::engine::append_table;
use crate::engine::composer_gates;
use crate::engine::composer_table;
use crate::engine::composer_witnesses;
use crate::engine::table_rows;
use crate::gates::TableRow;
use crate::nibble::nibble_xor;
use crate::table::generate_xor_lookup_table_4bit;
use crate::table::lemma_xor_table_complete_and_sound;
use crate::table::xor_complete;
use crate::table::xor_row;
use crate::table::xor_sound;
use crate::table::xor_table;

verus! {

/// Left operand of the triple that the verifying role builds its circuit with.
pub const PLACEHOLDER_LEFT: u8 = 7;

/// Right operand of that triple.
pub const PLACEHOLDER_RIGHT: u8 = 2;

/// Result of that triple. It is not the XOR of the two operands: the verifying
/// role needs the shape of the circuit only.
pub const PLACEHOLDER_OUT: u8 = 1;

/// A table that ends in the XOR table has the XOR row of every pair of
/// nibbles. If the rows before it state nothing wrong, neither does the whole.
pub proof fn lemma_table_extended_by_xor(rows: Seq<TableRow>)
    ensures
        xor_complete(rows + xor_table()),
        xor_sound(rows) ==> xor_sound(rows + xor_table()),
{
    let all = rows + xor_table();
    lemma_xor_table_complete_and_sound();
    assert forall|i: int, j: int| 0 <= i < 16 && 0 <= j < 16 implies all.contains(
        #[trigger] xor_row(i, j),
    ) by {
        let k = choose|k: int| 0 <= k < xor_table().len() && xor_table()[k] == xor_row(i, j);
        assert(all[rows.len() + k] == xor_row(i, j));
    }
    if xor_sound(rows) {
        assert forall|k: int|
            0 <= k < all.len() && 0 <= (#[trigger] all[k]).a < 16 && 0 <= all[k].b < 16
                && all[k].d == 0 implies all[k].c == nibble_xor(all[k].a, all[k].b) by {
            if k < rows.len() {
                assert(all[k] == rows[k]);
            } else {
                assert(all[k] == xor_table()[k - rows.len()]);
            }
        }
    }
}

/// The proving role's constraint system: builds the XOR table, attaches it to
/// the composer and adds the circuit for the triple. Returns the table, which
/// is the one that the verifying role has to attach.
pub fn prover_circuit(composer: &mut TurboComposer, left: u8, right: u8, out: u8) -> (table:
    LookupTable)
    ensures
        table_rows(table) == xor_table(),
        composer_table(*final(composer)) == composer_table(*old(composer)) + xor_table(),
        composer_witnesses(*final(composer)) == composer_witnesses(*old(composer))
            + byte_xor_values(left, right, out),
        composer_gates(*final(composer)) == composer_gates(*old(composer)) + byte_xor_gates(
            composer_witnesses(*old(composer)).len() as int,
        ),
        out == left ^ right ==> circuit_holds(
            composer_witnesses(*old(composer)),
            composer_table(*final(composer)),
            left,
            right,
            out,
        ),
        out != left ^ right && xor_sound(composer_table(*old(composer))) ==> !circuit_holds(
            composer_witnesses(*old(composer)),
            composer_table(*final(composer)),
            left,
            right,
            out,
        ),
{
    let table = generate_xor_lookup_table_4bit();
    append_table(composer, &table);
    example_circuit(composer, left, right, out);
    proof {
        let before = composer_witnesses(*old(composer));
        lemma_table_extended_by_xor(composer_table(*old(composer)));
        if out == left ^ right {
            lemma_correct_xor_is_satisfied(before, composer_table(*composer), left, right);
        } else if xor_sound(composer_table(*old(composer))) {
            lemma_wrong_xor_fails_lookup(before, composer_table(*composer), left, right, out);
        }
    }
    table
}

/// The verifying role's constraint system: attaches the table that the proving
/// role built and adds the circuit for the placeholder triple, which has the
/// same gates as the prover's. Where the table is the XOR table, and the rows
/// that the composer had before state nothing wrong, the verifier's own
/// witnesses do not satisfy its circuit.
pub fn verifier_circuit(composer: &mut TurboComposer, table: &LookupTable)
    ensures
        composer_table(*final(composer)) == composer_table(*old(composer)) + table_rows(*table),
        composer_witnesses(*final(composer)) == composer_witnesses(*old(composer))
            + byte_xor_values(PLACEHOLDER_LEFT, PLACEHOLDER_RIGHT, PLACEHOLDER_OUT),
        composer_gates(*final(composer)) == composer_gates(*old(composer)) + byte_xor_gates(
            composer_witnesses(*old(composer)).len() as int,
        ),
        table_rows(*table) == xor_table() && xor_sound(composer_table(*old(composer)))
            ==> !circuit_holds(
            composer_witnesses(*old(composer)),
            composer_table(*final(composer)),
            PLACEHOLDER_LEFT,
            PLACEHOLDER_RIGHT,
            PLACEHOLDER_OUT,
        ),
{
    append_table(composer, table);
    example_circuit(composer, PLACEHOLDER_LEFT, PLACEHOLDER_RIGHT, PLACEHOLDER_OUT);
    proof {
        if table_rows(*table) == xor_table() && xor_sound(composer_table(*old(composer))) {
            lemma_table_extended_by_xor(composer_table(*old(composer)));
            assert(7u8 ^ 2u8 != 1u8) by (bit_vector);
            lemma_wrong_xor_fails_lookup(
                composer_witnesses(*old(composer)),
                composer_table(*composer),
                PLACEHOLDER_LEFT,
                PLACEHOLDER_RIGHT,
                PLACEHOLDER_OUT,
            );
        }
    }
}

/// The size of a circuit: the number of its gates or of the rows of its lookup
/// table, whichever is larger.
pub fn total_size(gates: usize, table_rows: usize) -> (size: usize)
    ensures
        size >= gates,
        size >= table_rows,
        size == gates || size == table_rows,
{
    if gates >= table_rows {
        gates
    } else {
        table_rows
    }
}

/// Rows that every composer of the engine has in its lookup table before a
/// table is attached to it.
pub const ENGINE_TABLE_ROWS: usize = 3;

/// `d` is the smallest power of two that is not below `size`.
pub open spec fn is_domain_size(d: int, size: int) -> bool {
    exists|e: nat| is_domain_size_with(d, size, e)
}

/// `d` is two to the `e`, not below `size`, and half of it is below `size`.
pub open spec fn is_domain_size_with(d: int, size: int, e: nat) -> bool {
    &&& d == pow2(e)
    &&& size <= d
    &&& (e > 0 ==> pow2((e - 1) as nat) < size)
}

/// No number has two domain sizes.
pub proof fn lemma_domain_size_unique(d1: int, d2: int, size: int)
    requires
        is_domain_size(d1, size),
        is_domain_size(d2, size),
    ensures
        d1 == d2,
{
    let e1 = choose|e: nat| is_domain_size_with(d1, size, e);
    let e2 = choose|e: nat| is_domain_size_with(d2, size, e);
    if e1 < e2 {
        if e1 < e2 - 1 {
            lemma_pow2_strictly_increases(e1, (e2 - 1) as nat);
        }
    } else if e2 < e1 {
        if e2 < e1 - 1 {
            lemma_pow2_strictly_increases(e2, (e1 - 1) as nat);
        }
    }
}

/// A domain size is not below the size that it is for.
pub proof fn lemma_domain_size_bounds()
    ensures
        forall|d: int, size: int| #[trigger] is_domain_size(d, size) ==> size <= d,
{
}

/// The size to which keys are trimmed for a circuit of the given size: the
/// next power of two, or the size itself if it is one. Both roles size their
/// keys by this rule. `None` where that power of two does not fit in `usize`.
pub fn domain_size(size: usize) -> (r: Option<usize>)
    ensures
        r matches Some(d) ==> is_domain_size(d as int, size as int),
        r is None ==> forall|d: int| #[trigger] is_domain_size(d, size as int) ==> d > usize::MAX,
{
    let mut d: usize = 1;
    let ghost mut e: nat = 0;
    proof {
        lemma2_to64();
    }
    while d < size
        invariant
            d >= 1,
            d == pow2(e),
            e > 0 ==> pow2((e - 1) as nat) < size,
        decreases usize::MAX - d,
    {
        if d > usize::MAX / 2 {
            proof {
                assert forall|other: int| is_domain_size(other, size as int) implies other
                    > usize::MAX by {
                    let f = choose|f: nat| is_domain_size_with(other, size as int, f);
                    if f <= e {
                        if f < e {
                            lemma_pow2_strictly_increases(f, e);
                        }
                    } else {
                        if e + 1 < f {
                            lemma_pow2_strictly_increases(e + 1, f);
                        }
                        lemma_pow2_unfold(e + 1);
                    }
                }
            }
            return None;
        }
        proof {
            lemma_pow2_unfold(e + 1);
            e = e + 1;
        }
        d = d * 2;
    }
    assert(is_domain_size_with(d as int, size as int, e));
    Some(d)
}

/// The size of a role's circuit: the number of its gates, or of the rows of
/// its lookup table, which are the engine's own and those of the attached
/// table, whichever is larger.
pub open spec fn session_size(gates: int, attached_rows: int) -> int {
    if gates >= attached_rows + ENGINE_TABLE_ROWS {
        gates
    } else {
        attached_rows + ENGINE_TABLE_ROWS
    }
}

/// The size to which a role trims its keys: the domain size of its circuit.
/// `None` where that size does not fit in `usize`.
pub fn key_size(gates: usize, attached_rows: usize) -> (r: Option<usize>)
    ensures
        r matches Some(d) ==> is_domain_size(
            d as int,
            session_size(gates as int, attached_rows as int),
        ),
        r is None ==> forall|d: int| #[trigger]
            is_domain_size(d, session_size(gates as int, attached_rows as int)) ==> d
                > usize::MAX,
{
    if attached_rows > usize::MAX - ENGINE_TABLE_ROWS {
        proof {
            lemma_domain_size_bounds();
        }
        return None;
    }
    domain_size(total_size(gates, attached_rows + ENGINE_TABLE_ROWS))
}

/// The steps of a session, in the order in which they run.
#[derive(Clone, Copy, Debug, PartialEq, Eq, Structural)]
pub enum Step {
    /// Make the public parameters.
    Setup,
    /// Build the proving role's constraint system.
    BuildProver,
    /// Trim the parameters to the proving role's commitment key.
    TrimProver,
    /// Preprocess the proving role's circuit.
    PreprocessProver,
    /// Take the public inputs and the lookup table out of the proving role.
    /// Proving clears them, so this comes first.
    Capture,
    /// Make the proof.
    Prove,
    /// Build the verifying role's constraint system.
    BuildVerifier,
    /// Trim the parameters to the verifying role's keys.
    TrimVerifier,
    /// Preprocess the verifying role's circuit.
    PreprocessVerifier,
    /// Check the proof.
    Verify,
}

/// How a session ends.
#[derive(Clone, Copy, Debug, PartialEq, Eq, Structural)]
pub enum Outcome {
    /// The proof was checked and found good.
    Accepted,
    /// The proof was checked and found bad.
    Rejected,
    /// The step failed, and no proof was checked.
    Aborted(Step),
}

/// What the caller does next.
#[derive(Clone, Copy, Debug, PartialEq, Eq, Structural)]
pub enum Action {
    /// Run the step, and come back with how it went.
    Run(Step),
    /// Report the outcome and stop.
    Finish(Outcome),
}

/// Position of a step in the session, from 0.
pub open spec fn step_rank(step: Step) -> int {
    match step {
        Step::Setup => 0,
        Step::BuildProver => 1,
        Step::TrimProver => 2,
        Step::PreprocessProver => 3,
        Step::Capture => 4,
        Step::Prove => 5,
        Step::BuildVerifier => 6,
        Step::TrimVerifier => 7,
        Step::PreprocessVerifier => 8,
        Step::Verify => 9,
    }
}

/// What follows a step that succeeded (`ok`) or failed. A failed check of the
/// proof is a rejection; any other failure ends the session without a verdict.
pub open spec fn next_action(step: Step, ok: bool) -> Action {
    if !ok {
        if step == Step::Verify {
            Action::Finish(Outcome::Rejected)
        } else {
            Action::Finish(Outcome::Aborted(step))
        }
    } else {
        match step {
            Step::Setup => Action::Run(Step::BuildProver),
            Step::BuildProver => Action::Run(Step::TrimProver),
            Step::TrimProver => Action::Run(Step::PreprocessProver),
            Step::PreprocessProver => Action::Run(Step::Capture),
            Step::Capture => Action::Run(Step::Prove),
            Step::Prove => Action::Run(Step::BuildVerifier),
            Step::BuildVerifier => Action::Run(Step::TrimVerifier),
            Step::TrimVerifier => Action::Run(Step::PreprocessVerifier),
            Step::PreprocessVerifier => Action::Run(Step::Verify),
            Step::Verify => Action::Finish(Outcome::Accepted),
        }
    }
}

/// The step with which a session starts.
pub fn first_step() -> (step: Step)
    ensures
        step == Step::Setup,
{
    Step::Setup
}

/// Decides what follows `step`, given whether it succeeded.
pub fn advance(step: Step, ok: bool) -> (action: Action)
    ensures
        action == next_action(step, ok),
{
    if !ok {
        match step {
            Step::Verify => Action::Finish(Outcome::Rejected),
            _ => Action::Finish(Outcome::Aborted(step)),
        }
    } else {
        match step {
            Step::Setup => Action::Run(Step::BuildProver),
            Step::BuildProver => Action::Run(Step::TrimProver),
            Step::TrimProver => Action::Run(Step::PreprocessProver),
            Step::PreprocessProver => Action::Run(Step::Capture),
            Step::Capture => Action::Run(Step::Prove),
            Step::Prove => Action::Run(Step::BuildVerifier),
            Step::BuildVerifier => Action::Run(Step::TrimVerifier),
            Step::TrimVerifier => Action::Run(Step::PreprocessVerifier),
            Step::PreprocessVerifier => Action::Run(Step::Verify),
            Step::Verify => Action::Finish(Outcome::Accepted),
        }
    }
}

/// A session runs its steps one after the other and ends: a step that
/// succeeds is followed by the step of the next rank, or, after the check of
/// the proof, by acceptance. A verdict on the proof comes from that check
/// alone, and every step that fails ends the session at once.
pub proof fn lemma_session_order(step: Step, ok: bool)
    ensures
        next_action(step, ok) matches Action::Run(next) ==> ok && step_rank(next) == step_rank(step)
            + 1,
        next_action(step, ok) == Action::Finish(Outcome::Accepted) <==> ok && step == Step::Verify,
        next_action(step, ok) == Action::Finish(Outcome::Rejected) <==> !ok && step
            == Step::Verify,
        !ok && step != Step::Verify ==> next_action(step, ok) == Action::Finish(
            Outcome::Aborted(step),
        ),
        step_rank(Step::Capture) < step_rank(Step::Prove),
{
}

} // verus!
