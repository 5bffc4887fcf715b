//! The byte-XOR relation as gates: both nibbles of the result are looked up in
//! the XOR table, and one arithmetic gate puts the result together again.

use vstd::prelude::*;
use plonkup::constraint_system::TurboComposer;
use plonkup::constraint_system::Witness;
use crate::engine::append_linear_gate;
use crate::engine::append_lookup_gate;
use crate::engine::append_witness;
use crate::engine::composer_gates;
use crate::engine::composer_table;
use crate::engine::composer_witnesses;
use crate::engine::witness_index;
use crate::engine::zero_witness;
use crate::gates::field_neg;
use crate::gates::gate_holds;
use crate::gates::lemma_linear_gate_holds;
use crate::gates::linear_gate;
use crate::gates::lookup_gate;
use crate::gates::GateRow;
use crate::gates::TableRow;
use crate::nibble::high_nibble;
use crate::nibble::lemma_xor_by_nibbles;
use crate::nibble::low_nibble;
use crate::nibble::nibble_xor;
use crate::nibble::split_byte;
use crate::table::lemma_xor_table_complete_and_sound;
use crate::table::lemma_xor_table_one_row_per_pair;
use crate::table::lemma_xor_table_rows;
use crate::table::xor_complete;
use crate::table::xor_row;
use crate::table::xor_sound;
use crate::table::xor_table;

verus! {

/// The values of the seven witnesses of the circuit, in the order in which
/// they are allocated: both nibbles of `left`, of `right` and of `out`, high
/// before low, and then `out` itself.
pub open spec fn byte_xor_values(left: u8, right: u8, out: u8) -> Seq<int> {
    seq![
        high_nibble(left),
        low_nibble(left),
        high_nibble(right),
        low_nibble(right),
        high_nibble(out),
        low_nibble(out),
        out as int,
    ]
}

/// The lookup gate on the high nibbles, where `base` is the index of the first
/// of the seven witnesses and the zero witness has index 0.
pub open spec fn high_lookup_gate(base: int) -> GateRow {
    lookup_gate(base, base + 2, base + 4, 0)
}

/// The lookup gate on the low nibbles.
pub open spec fn low_lookup_gate(base: int) -> GateRow {
    lookup_gate(base + 1, base + 3, base + 5, 0)
}

/// The arithmetic gate `16 * out_hi + out_lo - out = 0`.
pub open spec fn recompose_gate(base: int) -> GateRow {
    linear_gate(base + 4, base + 5, base + 6, 0, 16, 1, field_neg(1))
}

/// The three gates of the circuit, in the order in which they are emitted.
pub open spec fn byte_xor_gates(base: int) -> Seq<GateRow> {
    seq![high_lookup_gate(base), low_lookup_gate(base), recompose_gate(base)]
}

/// All three gates of the circuit for `(left, right, out)` hold, in a
/// constraint system that had the witness values `before` when the circuit was
/// added and that looks up in `table`.
pub open spec fn circuit_holds(
    before: Seq<int>,
    table: Seq<TableRow>,
    left: u8,
    right: u8,
    out: u8,
) -> bool {
    let values = before + byte_xor_values(left, right, out);
    let base = before.len() as int;
    &&& gate_holds(high_lookup_gate(base), values, table)
    &&& gate_holds(low_lookup_gate(base), values, table)
    &&& gate_holds(recompose_gate(base), values, table)
}

/// Adds the circuit for `left XOR right = out` to the composer: seven
/// witnesses, two lookup gates and one arithmetic gate. The triple is encoded
/// as it is given, whether or not `out` is the XOR. Returns the witness of
/// `out`.
pub fn example_circuit(composer: &mut TurboComposer, left: u8, right: u8, out: u8) -> (out_witness:
    Witness)
    ensures
        composer_witnesses(*final(composer)) == composer_witnesses(*old(composer))
            + byte_xor_values(left, right, out),
        composer_gates(*final(composer)) == composer_gates(*old(composer)) + byte_xor_gates(
            composer_witnesses(*old(composer)).len() as int,
        ),
        composer_table(*final(composer)) == composer_table(*old(composer)),
        witness_index(out_witness) == composer_witnesses(*old(composer)).len() + 6,
        composer_witnesses(*old(composer)).len() > 0,
        composer_witnesses(*old(composer))[0] == 0,
{
    let ghost before = composer_witnesses(*composer);
    let ghost gates_before = composer_gates(*composer);
    let ghost base = before.len() as int;

    let (left_hi, left_lo) = split_byte(left);
    let (right_hi, right_lo) = split_byte(right);
    let (out_hi, out_lo) = split_byte(out);

    let zero = zero_witness(composer);

    let left_hi_var = append_witness(composer, left_hi as u64);
    let left_lo_var = append_witness(composer, left_lo as u64);
    let right_hi_var = append_witness(composer, right_hi as u64);
    let right_lo_var = append_witness(composer, right_lo as u64);
    let out_hi_var = append_witness(composer, out_hi as u64);
    let out_lo_var = append_witness(composer, out_lo as u64);
    let out_var = append_witness(composer, out as u64);

    assert(composer_witnesses(*composer) == before + byte_xor_values(left, right, out));

    append_lookup_gate(composer, left_hi_var, right_hi_var, out_hi_var, zero);
    append_lookup_gate(composer, left_lo_var, right_lo_var, out_lo_var, zero);
    append_linear_gate(composer, out_hi_var, out_lo_var, out_var, 16, 1, 1);

    assert(composer_gates(*composer) == gates_before + byte_xor_gates(base));
    out_var
}

/// What the three gates ask of the values, once the zero witness is 0: both
/// nibble triples are rows of the table, and the nibbles of `out` recompose.
proof fn lemma_circuit_holds_unfolded(
    before: Seq<int>,
    table: Seq<TableRow>,
    left: u8,
    right: u8,
    out: u8,
)
    requires
        before.len() > 0,
        before[0] == 0,
    ensures
        gate_holds(
            high_lookup_gate(before.len() as int),
            before + byte_xor_values(left, right, out),
            table,
        ) <==> table.contains(
            TableRow { a: high_nibble(left), b: high_nibble(right), c: high_nibble(out), d: 0 },
        ),
        gate_holds(
            low_lookup_gate(before.len() as int),
            before + byte_xor_values(left, right, out),
            table,
        ) <==> table.contains(
            TableRow { a: low_nibble(left), b: low_nibble(right), c: low_nibble(out), d: 0 },
        ),
        gate_holds(
            recompose_gate(before.len() as int),
            before + byte_xor_values(left, right, out),
            table,
        ),
{
    let values = before + byte_xor_values(left, right, out);
    let base = before.len() as int;
    assert(values[0] == 0);
    assert(values[base] == high_nibble(left));
    assert(values[base + 1] == low_nibble(left));
    assert(values[base + 2] == high_nibble(right));
    assert(values[base + 3] == low_nibble(right));
    assert(values[base + 4] == high_nibble(out));
    assert(values[base + 5] == low_nibble(out));
    assert(values[base + 6] == out);
    lemma_linear_gate_holds(base + 4, base + 5, base + 6, 0, 16, 1, values);
}

/// Where `out` is the XOR of `left` and `right`, and the table has the XOR
/// row of every pair of nibbles, all three gates of the circuit hold.
pub proof fn lemma_correct_xor_is_satisfied(
    before: Seq<int>,
    table: Seq<TableRow>,
    left: u8,
    right: u8,
)
    requires
        before.len() > 0,
        before[0] == 0,
        xor_complete(table),
    ensures
        circuit_holds(before, table, left, right, left ^ right),
{
    let out = left ^ right;
    lemma_circuit_holds_unfolded(before, table, left, right, out);
    lemma_xor_by_nibbles(left, right);
    assert(table.contains(xor_row(high_nibble(left), high_nibble(right))));
    assert(table.contains(xor_row(low_nibble(left), low_nibble(right))));
}

/// Where `out` is not the XOR of `left` and `right`, and the table states of
/// no pair of nibbles anything but its XOR, the lookup gate of each nibble of
/// `out` that is wrong fails, and at least one nibble is wrong.
pub proof fn lemma_wrong_xor_fails_lookup(
    before: Seq<int>,
    table: Seq<TableRow>,
    left: u8,
    right: u8,
    out: u8,
)
    requires
        before.len() > 0,
        before[0] == 0,
        xor_sound(table),
        out != left ^ right,
    ensures
        high_nibble(out) != high_nibble(left ^ right) || low_nibble(out) != low_nibble(
            left ^ right,
        ),
        high_nibble(out) != high_nibble(left ^ right) ==> !gate_holds(
            high_lookup_gate(before.len() as int),
            before + byte_xor_values(left, right, out),
            table,
        ),
        low_nibble(out) != low_nibble(left ^ right) ==> !gate_holds(
            low_lookup_gate(before.len() as int),
            before + byte_xor_values(left, right, out),
            table,
        ),
        !circuit_holds(before, table, left, right, out),
{
    lemma_circuit_holds_unfolded(before, table, left, right, out);
    lemma_xor_by_nibbles(left, right);
    let high = TableRow {
        a: high_nibble(left),
        b: high_nibble(right),
        c: high_nibble(out),
        d: 0,
    };
    let low = TableRow { a: low_nibble(left), b: low_nibble(right), c: low_nibble(out), d: 0 };
    if table.contains(high) {
        let k = choose|k: int| 0 <= k < table.len() && table[k] == high;
        assert(table[k].c == nibble_xor(table[k].a, table[k].b));
    }
    if table.contains(low) {
        let k = choose|k: int| 0 <= k < table.len() && table[k] == low;
        assert(table[k].c == nibble_xor(table[k].a, table[k].b));
    }
}

/// Over the XOR table itself, the circuit holds exactly when `out` is the XOR
/// of `left` and `right`.
pub proof fn lemma_circuit_holds_iff_xor(before: Seq<int>, left: u8, right: u8, out: u8)
    requires
        before.len() > 0,
        before[0] == 0,
    ensures
        circuit_holds(before, xor_table(), left, right, out) <==> out == left ^ right,
{
    lemma_xor_table_complete_and_sound();
    if out == left ^ right {
        lemma_correct_xor_is_satisfied(before, xor_table(), left, right);
    } else {
        lemma_wrong_xor_fails_lookup(before, xor_table(), left, right, out);
    }
}

/// The lookup of the XOR of the nibbles `i` and `j` succeeds in the XOR table,
/// and fails once the row of `(i, j)` is taken out of it.
pub proof fn lemma_removed_row_fails_lookup(i: int, j: int)
    requires
        0 <= i < 16,
        0 <= j < 16,
    ensures
        xor_table().contains(xor_row(i, j)),
        !xor_table().remove(16 * i + j).contains(xor_row(i, j)),
{
    lemma_xor_table_rows(i, j);
    let k = 16 * i + j;
    let cut = xor_table().remove(k);
    if cut.contains(xor_row(i, j)) {
        let m = choose|m: int| 0 <= m < cut.len() && cut[m] == xor_row(i, j);
        if m < k {
            lemma_xor_table_one_row_per_pair(m, i, j);
        } else {
            lemma_xor_table_one_row_per_pair(m + 1, i, j);
        }
    }
}

/// The lookup of the XOR of the nibbles `i` and `j` fails once the row of
/// `(i, j)` in the XOR table is replaced by any other row.
pub proof fn lemma_altered_row_fails_lookup(i: int, j: int, row: TableRow)
    requires
        0 <= i < 16,
        0 <= j < 16,
        row != xor_row(i, j),
    ensures
        xor_table().contains(xor_row(i, j)),
        !xor_table().update(16 * i + j, row).contains(xor_row(i, j)),
{
    lemma_xor_table_rows(i, j);
    let k = 16 * i + j;
    let changed = xor_table().update(k, row);
    if changed.contains(xor_row(i, j)) {
        let m = choose|m: int| 0 <= m < changed.len() && changed[m] == xor_row(i, j);
        if m != k {
            lemma_xor_table_one_row_per_pair(m, i, j);
        }
    }
}

/// A circuit with the right XOR holds over the XOR table. It no longer holds
/// once the row of the high nibbles of `left` and `right`, or the row of their
/// low nibbles, is removed from the table.
pub proof fn lemma_removed_row_breaks_circuit(before: Seq<int>, left: u8, right: u8, high: bool)
    requires
        before.len() > 0,
        before[0] == 0,
    ensures
        circuit_holds(before, xor_table(), left, right, left ^ right),
        !circuit_holds(
            before,
            xor_table().remove(
                if high {
                    16 * high_nibble(left) + high_nibble(right)
                } else {
                    16 * low_nibble(left) + low_nibble(right)
                },
            ),
            left,
            right,
            left ^ right,
        ),
{
    let out = left ^ right;
    lemma_xor_table_complete_and_sound();
    lemma_correct_xor_is_satisfied(before, xor_table(), left, right);
    lemma_xor_by_nibbles(left, right);
    if high {
        let cut = xor_table().remove(16 * high_nibble(left) + high_nibble(right));
        lemma_circuit_holds_unfolded(before, cut, left, right, out);
        lemma_removed_row_fails_lookup(high_nibble(left), high_nibble(right));
    } else {
        let cut = xor_table().remove(16 * low_nibble(left) + low_nibble(right));
        lemma_circuit_holds_unfolded(before, cut, left, right, out);
        lemma_removed_row_fails_lookup(low_nibble(left), low_nibble(right));
    }
}

/// A circuit with the right XOR holds over the XOR table. It no longer holds
/// once the row of the high nibbles of `left` and `right`, or the row of their
/// low nibbles, is replaced by another row.
pub proof fn lemma_altered_row_breaks_circuit(
    before: Seq<int>,
    left: u8,
    right: u8,
    high: bool,
    row: TableRow,
)
    requires
        before.len() > 0,
        before[0] == 0,
        high ==> row != xor_row(high_nibble(left), high_nibble(right)),
        !high ==> row != xor_row(low_nibble(left), low_nibble(right)),
    ensures
        circuit_holds(before, xor_table(), left, right, left ^ right),
        !circuit_holds(
            before,
            xor_table().update(
                if high {
                    16 * high_nibble(left) + high_nibble(right)
                } else {
                    16 * low_nibble(left) + low_nibble(right)
                },
                row,
            ),
            left,
            right,
            left ^ right,
        ),
{
    let out = left ^ right;
    lemma_xor_table_complete_and_sound();
    lemma_correct_xor_is_satisfied(before, xor_table(), left, right);
    lemma_xor_by_nibbles(left, right);
    if high {
        let changed = xor_table().update(16 * high_nibble(left) + high_nibble(right), row);
        lemma_circuit_holds_unfolded(before, changed, left, right, out);
        lemma_altered_row_fails_lookup(high_nibble(left), high_nibble(right), row);
    } else {
        let changed = xor_table().update(16 * low_nibble(left) + low_nibble(right), row);
        lemma_circuit_holds_unfolded(before, changed, left, right, out);
        lemma_altered_row_fails_lookup(low_nibble(left), low_nibble(right), row);
    }
}

} // verus!
