//! Rows of a lookup table and gates of a constraint system, as mathematical
//! values, and what it means for a gate to hold.
//!
//! Every scalar of the field is written as the integer in `0..field_order()`
//! that represents it, and every witness as its index in the list of witness
//! values of the constraint system that allocated it.

use vstd::prelude::*;
use vstd::arithmetic::div_mod::lemma_mod_multiples_vanish;
use vstd::arithmetic::div_mod::lemma_small_mod;

verus! {

/// Order of the scalar field in which all wire values and selectors live.
pub open spec fn field_order() -> int {
    0x73eda753299d7d483339d80809a1d80553bda402fffe5bfeffffffff00000001int
}

/// The additive inverse in the field of the scalar that `v` represents.
pub open spec fn field_neg(v: int) -> int {
    if v == 0 {
        0
    } else {
        field_order() - v
    }
}

/// One row `(a, b, c, d)` of a lookup table of arity four.
pub struct TableRow {
    pub a: int,
    pub b: int,
    pub c: int,
    pub d: int,
}

/// One gate of a constraint system: the witnesses on its four wires, its
/// selectors, and its public input.
pub struct GateRow {
    pub a: int,
    pub b: int,
    pub c: int,
    pub d: int,
    pub q_m: int,
    pub q_l: int,
    pub q_r: int,
    pub q_o: int,
    pub q_4: int,
    pub q_c: int,
    pub q_k: int,
    pub q_arith: int,
    pub q_range: int,
    pub q_logic: int,
    pub q_fixed_group_add: int,
    pub q_variable_group_add: int,
    pub pi: int,
}

/// A gate that asks for the values on the wires `a`, `b`, `c`, `d` to be a
/// row of the lookup table: only the lookup selector is switched on.
pub open spec fn lookup_gate(a: int, b: int, c: int, d: int) -> GateRow {
    GateRow {
        a,
        b,
        c,
        d,
        q_m: 0,
        q_l: 0,
        q_r: 0,
        q_o: 0,
        q_4: 0,
        q_c: 0,
        q_k: 1,
        q_arith: 0,
        q_range: 0,
        q_logic: 0,
        q_fixed_group_add: 0,
        q_variable_group_add: 0,
        pi: 0,
    }
}

/// The arithmetic gate `q_l * a + q_r * b + q_o * o = 0` on three wires. The
/// fourth wire carries the witness `zero`, with selector 0.
pub open spec fn linear_gate(a: int, b: int, o: int, zero: int, q_l: int, q_r: int, q_o: int)
    -> GateRow {
    GateRow {
        a,
        b,
        c: o,
        d: zero,
        q_m: 0,
        q_l,
        q_r,
        q_o,
        q_4: 0,
        q_c: 0,
        q_k: 0,
        q_arith: 1,
        q_range: 0,
        q_logic: 0,
        q_fixed_group_add: 0,
        q_variable_group_add: 0,
        pi: 0,
    }
}

/// A gate that uses nothing but the arithmetic equation and the lookup.
pub open spec fn is_plain_gate(g: GateRow) -> bool {
    &&& g.q_range == 0
    &&& g.q_logic == 0
    &&& g.q_fixed_group_add == 0
    &&& g.q_variable_group_add == 0
    &&& (g.q_k == 0 || g.q_k == 1)
}

/// All four wires of a gate name witnesses that `values` has.
pub open spec fn wires_allocated(g: GateRow, values: Seq<int>) -> bool {
    &&& 0 <= g.a < values.len()
    &&& 0 <= g.b < values.len()
    &&& 0 <= g.c < values.len()
    &&& 0 <= g.d < values.len()
}

/// The values on the four wires of a gate, as a table row.
pub open spec fn wire_values(g: GateRow, values: Seq<int>) -> TableRow {
    TableRow { a: values[g.a], b: values[g.b], c: values[g.c], d: values[g.d] }
}

/// The wire values of a gate are a row of the table.
pub open spec fn lookup_holds(g: GateRow, values: Seq<int>, table: Seq<TableRow>) -> bool {
    table.contains(wire_values(g, values))
}

/// Left-hand side of the arithmetic equation of a gate, over the integers.
pub open spec fn arithmetic_sum(g: GateRow, values: Seq<int>) -> int {
    g.q_m * values[g.a] * values[g.b] + g.q_l * values[g.a] + g.q_r * values[g.b] + g.q_o
        * values[g.c] + g.q_4 * values[g.d] + g.q_c + g.pi
}

/// The arithmetic equation of a gate holds in the field.
pub open spec fn arithmetic_holds(g: GateRow, values: Seq<int>) -> bool {
    arithmetic_sum(g, values) % field_order() == 0
}

/// A plain gate holds: its arithmetic equation where the arithmetic selector is
/// 1, and its lookup where the lookup selector is 1.
pub open spec fn gate_holds(g: GateRow, values: Seq<int>, table: Seq<TableRow>) -> bool {
    &&& wires_allocated(g, values)
    &&& (g.q_arith == 1 ==> arithmetic_holds(g, values))
    &&& (g.q_k == 1 ==> lookup_holds(g, values, table))
}

/// Every gate from index `from` on holds.
pub open spec fn gates_hold_from(
    gates: Seq<GateRow>,
    from: int,
    values: Seq<int>,
    table: Seq<TableRow>,
) -> bool {
    forall|k: int| from <= k < gates.len() ==> gate_holds(#[trigger] gates[k], values, table)
}

/// A lookup gate holds exactly when its wire values are a row of the table.
pub proof fn lemma_lookup_gate_holds(
    a: int,
    b: int,
    c: int,
    d: int,
    values: Seq<int>,
    table: Seq<TableRow>,
)
    requires
        wires_allocated(lookup_gate(a, b, c, d), values),
    ensures
        is_plain_gate(lookup_gate(a, b, c, d)),
        gate_holds(lookup_gate(a, b, c, d), values, table) <==> table.contains(
            TableRow { a: values[a], b: values[b], c: values[c], d: values[d] },
        ),
{
}

/// With small values on its wires, a gate `q_l * a + q_r * b - o = 0` holds
/// in the field exactly when it holds over the integers.
pub proof fn lemma_linear_gate_holds(
    a: int,
    b: int,
    o: int,
    zero: int,
    q_l: int,
    q_r: int,
    values: Seq<int>,
)
    requires
        wires_allocated(linear_gate(a, b, o, zero, q_l, q_r, field_neg(1)), values),
        0 <= q_l < 0x1_0000_0000,
        0 <= q_r < 0x1_0000_0000,
        0 <= values[a] < 0x1_0000_0000,
        0 <= values[b] < 0x1_0000_0000,
        0 <= values[o] < 0x1_0000_0000,
    ensures
        is_plain_gate(linear_gate(a, b, o, zero, q_l, q_r, field_neg(1))),
        gate_holds(
            linear_gate(a, b, o, zero, q_l, q_r, field_neg(1)),
            values,
            Seq::<TableRow>::empty(),
        ) <==> q_l * values[a] + q_r * values[b] == values[o],
{
    let g = linear_gate(a, b, o, zero, q_l, q_r, field_neg(1));
    let p = field_order();
    let va = values[a];
    let vb = values[b];
    let vo = values[o];
    let x = q_l * va + q_r * vb - vo;
    assert(0 <= q_l * va <= 0xffff_ffff * 0xffff_ffff) by (nonlinear_arith)
        requires
            0 <= q_l <= 0xffff_ffff,
            0 <= va <= 0xffff_ffff,
    ;
    assert(0 <= q_r * vb <= 0xffff_ffff * 0xffff_ffff) by (nonlinear_arith)
        requires
            0 <= q_r <= 0xffff_ffff,
            0 <= vb <= 0xffff_ffff,
    ;
    assert(arithmetic_sum(g, values) == x + p * vo) by (nonlinear_arith)
        requires
            arithmetic_sum(g, values) == 0 * va * vb + q_l * va + q_r * vb + (p - 1) * vo + 0
                * values[zero] + 0 + 0,
            x == q_l * va + q_r * vb - vo,
    ;
    lemma_mod_multiples_vanish(vo, x, p);
    assert(arithmetic_sum(g, values) % p == x % p);
    if x >= 0 {
        lemma_small_mod(x as nat, p as nat);
    } else {
        lemma_mod_multiples_vanish(1, x, p);
        lemma_small_mod((x + p) as nat, p as nat);
    }
}

} // verus!
