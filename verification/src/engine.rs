//! The constraint-system engine, as far as the circuit description needs it.
//!
//! Nothing in this file is proved. Each item states, over the mathematical
//! values of `gates`, what the engine's source shows of one of its functions;
//! the rest of the crate is verified against these statements.

use vstd::prelude::*;
use plonkup::constraint_system::Constraint;
use plonkup::constraint_system::TurboComposer;
use plonkup::constraint_system::Witness;
use plonkup::plonkup::LookupTable;
use plonkup::prelude::BlsScalar;
use crate::gates::field_neg;
use crate::gates::linear_gate;
use crate::gates::lookup_gate;
use crate::gates::GateRow;
use crate::gates::TableRow;

verus! {

/// `plonkup::constraint_system::Witness`: the handle of one allocated witness.
#[verifier::external_type_specification]
#[verifier::external_body]
pub struct ExWitness(Witness);

/// `plonkup::plonkup::LookupTable`: a list of rows of four scalars.
#[verifier::external_type_specification]
#[verifier::external_body]
pub struct ExLookupTable(LookupTable);

/// `plonkup::constraint_system::TurboComposer`: the constraint system under
/// construction.
#[verifier::external_type_specification]
#[verifier::external_body]
pub struct ExTurboComposer(TurboComposer);

/// The index of a witness, as `Witness::index` returns it: its position in the
/// list of witness values of the composer that allocated it.
pub uninterp spec fn witness_index(w: Witness) -> int;

/// The rows that a `LookupTable` holds, first to last, each scalar as the
/// integer below the field order that represents it.
pub uninterp spec fn table_rows(t: LookupTable) -> Seq<TableRow>;

/// The values of the witnesses that a composer has allocated, by witness index.
pub uninterp spec fn composer_witnesses(c: TurboComposer) -> Seq<int>;

/// The gates that a composer holds, first to last.
pub uninterp spec fn composer_gates(c: TurboComposer) -> Seq<GateRow>;

/// The rows of the lookup table that a composer holds, first to last.
pub uninterp spec fn composer_table(c: TurboComposer) -> Seq<TableRow>;

/// `LookupTable::new`: a table without rows.
#[verifier::external_body]
pub(crate) fn table_new() -> (table: LookupTable)
    ensures
        table_rows(table) == Seq::<TableRow>::empty(),
{
    LookupTable::new()
}

/// `LookupTable::insert_special_row`, on scalars made by `BlsScalar::from` of a
/// `u64`: the row of the four numbers is added after the last row.
#[verifier::external_body]
pub(crate) fn table_insert_row(table: &mut LookupTable, a: u64, b: u64, c: u64, d: u64)
    ensures
        table_rows(*final(table)) == table_rows(*old(table)).push(
            TableRow { a: a as int, b: b as int, c: c as int, d: d as int },
        ),
{
    table.insert_special_row(
        BlsScalar::from(a),
        BlsScalar::from(b),
        BlsScalar::from(c),
        BlsScalar::from(d),
    );
}

/// `TurboComposer::append_plonkup_table`: the rows of `table` are added, in
/// their order, after the rows that the composer already has. Witnesses and
/// gates stay as they are.
#[verifier::external_body]
pub(crate) fn append_table(composer: &mut TurboComposer, table: &LookupTable)
    ensures
        composer_table(*final(composer)) == composer_table(*old(composer)) + table_rows(*table),
        composer_witnesses(*final(composer)) == composer_witnesses(*old(composer)),
        composer_gates(*final(composer)) == composer_gates(*old(composer)),
{
    composer.append_plonkup_table(table);
}

/// `TurboComposer::constant_zero`: the witness with index 0. Every composer
/// allocates it first, with the value zero, when it is made; `composer` is
/// here only so that this can be said of it.
#[verifier::external_body]
pub(crate) fn zero_witness(composer: &TurboComposer) -> (zero: Witness)
    ensures
        witness_index(zero) == 0,
        witness_index(zero) < composer_witnesses(*composer).len(),
        composer_witnesses(*composer)[witness_index(zero)] == 0,
{
    TurboComposer::constant_zero()
}

/// `TurboComposer::append_witness`, on the scalar that `BlsScalar::from` makes
/// of a `u64`: the new witness gets the next free index and that value. Gates
/// and table stay as they are.
#[verifier::external_body]
pub(crate) fn append_witness(composer: &mut TurboComposer, value: u64) -> (w: Witness)
    ensures
        witness_index(w) == composer_witnesses(*old(composer)).len(),
        composer_witnesses(*final(composer)) == composer_witnesses(*old(composer)).push(
            value as int,
        ),
        composer_gates(*final(composer)) == composer_gates(*old(composer)),
        composer_table(*final(composer)) == composer_table(*old(composer)),
{
    composer.append_witness(BlsScalar::from(value))
}

/// `TurboComposer::append_plonkup_gate` without a public input: one gate is
/// added after the last, with the four witnesses on its wires, the lookup
/// selector 1 and every other selector 0. Witnesses and table stay as they
/// are. The engine panics on a witness that the composer has not allocated.
#[verifier::external_body]
pub(crate) fn append_lookup_gate(
    composer: &mut TurboComposer,
    a: Witness,
    b: Witness,
    c: Witness,
    d: Witness,
)
    requires
        0 <= witness_index(a) < composer_witnesses(*old(composer)).len(),
        0 <= witness_index(b) < composer_witnesses(*old(composer)).len(),
        0 <= witness_index(c) < composer_witnesses(*old(composer)).len(),
        0 <= witness_index(d) < composer_witnesses(*old(composer)).len(),
    ensures
        composer_gates(*final(composer)) == composer_gates(*old(composer)).push(
            lookup_gate(witness_index(a), witness_index(b), witness_index(c), witness_index(d)),
        ),
        composer_witnesses(*final(composer)) == composer_witnesses(*old(composer)),
        composer_table(*final(composer)) == composer_table(*old(composer)),
{
    composer.append_plonkup_gate(a, b, c, d, None);
}

/// `TurboComposer::append_gate`, on the `Constraint` with left selector `q_l`,
/// right selector `q_r`, output selector minus `q_o_negated`, and the wires
/// `a`, `b`, `o`: one arithmetic gate is added after the last. Its fourth wire
/// is the zero witness, and it has no public input. Witnesses and table stay
/// as they are. The engine panics on a witness that the composer has not
/// allocated.
#[verifier::external_body]
pub(crate) fn append_linear_gate(
    composer: &mut TurboComposer,
    a: Witness,
    b: Witness,
    o: Witness,
    q_l: u64,
    q_r: u64,
    q_o_negated: u64,
)
    requires
        0 <= witness_index(a) < composer_witnesses(*old(composer)).len(),
        0 <= witness_index(b) < composer_witnesses(*old(composer)).len(),
        0 <= witness_index(o) < composer_witnesses(*old(composer)).len(),
        0 < composer_witnesses(*old(composer)).len(),
    ensures
        composer_gates(*final(composer)) == composer_gates(*old(composer)).push(
            linear_gate(
                witness_index(a),
                witness_index(b),
                witness_index(o),
                0,
                q_l as int,
                q_r as int,
                field_neg(q_o_negated as int),
            ),
        ),
        composer_witnesses(*final(composer)) == composer_witnesses(*old(composer)),
        composer_table(*final(composer)) == composer_table(*old(composer)),
{
    let constraint = Constraint::new()
        .left(BlsScalar::from(q_l))
        .right(BlsScalar::from(q_r))
        .output(-BlsScalar::from(q_o_negated))
        .a(a)
        .b(b)
        .o(o);
    composer.append_gate(constraint);
}

} // verus!
