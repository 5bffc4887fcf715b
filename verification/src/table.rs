//! The public lookup table of XOR on four-bit values.

use vstd::prelude::*;
use plonkup::plonkup::LookupTable;
use crate::engine::table_insert_row;
use crate::engine::table_new;
use crate::engine::table_rows;
use crate::gates::TableRow;
use crate::nibble::nibble_xor;

verus! {

/// The row that states `i XOR j` for the nibbles `i` and `j`.
pub open spec fn xor_row(i: int, j: int) -> TableRow {
    TableRow { a: i, b: j, c: nibble_xor(i, j), d: 0 }
}

/// The XOR table: the rows of all pairs `(i, j)` of nibbles, with `i` running
/// slowest, so that the row of `(i, j)` stands at index `16 * i + j`.
pub open spec fn xor_table() -> Seq<TableRow> {
    Seq::new(256, |k: int| xor_row(k / 16, k % 16))
}

/// Every row of the table that starts with two nibbles and ends in 0 states
/// their XOR.
pub open spec fn xor_sound(table: Seq<TableRow>) -> bool {
    forall|k: int|
        0 <= k < table.len() && 0 <= (#[trigger] table[k]).a < 16 && 0 <= table[k].b < 16
            && table[k].d == 0 ==> table[k].c == nibble_xor(table[k].a, table[k].b)
}

/// The table has the XOR row of every pair of nibbles.
pub open spec fn xor_complete(table: Seq<TableRow>) -> bool {
    forall|i: int, j: int|
        0 <= i < 16 && 0 <= j < 16 ==> table.contains(#[trigger] xor_row(i, j))
}

/// Builds the XOR table on four-bit values: 256 rows `(i, j, i XOR j, 0)`,
/// for `i` from 0 to 15 and, within each `i`, `j` from 0 to 15.
pub fn generate_xor_lookup_table_4bit() -> (table: LookupTable)
    ensures
        table_rows(table) == xor_table(),
{
    let mut table = table_new();
    let mut i: u64 = 0;
    while i < 16
        invariant
            i <= 16,
            table_rows(table) == xor_table().take(16 * i),
        decreases 16 - i,
    {
        let mut j: u64 = 0;
        while j < 16
            invariant
                i < 16,
                j <= 16,
                table_rows(table) == xor_table().take(16 * i + j),
            decreases 16 - j,
        {
            assert(i < 16 && j < 16 ==> (i ^ j) == ((i as u8) ^ (j as u8)) as u64) by (bit_vector);
            table_insert_row(&mut table, i, j, i ^ j, 0);
            proof {
                let k = 16 * i + j;
                assert(k / 16 == i && k % 16 == j);
                assert(xor_table()[k] == xor_row(i as int, j as int));
                assert(xor_table().take(k + 1) == xor_table().take(k).push(xor_table()[k]));
            }
            j += 1;
        }
        i += 1;
    }
    assert(xor_table().take(256) == xor_table());
    table
}

/// The XOR table has exactly 256 rows, and the row at index `16 * i + j` is
/// `(i, j, i XOR j, 0)`.
pub proof fn lemma_xor_table_rows(i: int, j: int)
    requires
        0 <= i < 16,
        0 <= j < 16,
    ensures
        xor_table().len() == 256,
        0 <= 16 * i + j < 256,
        xor_table()[16 * i + j] == xor_row(i, j),
        xor_table()[16 * i + j].c == nibble_xor(i, j),
        xor_table()[16 * i + j].d == 0,
{
    let k = 16 * i + j;
    assert(k / 16 == i && k % 16 == j);
}

/// Every row of the XOR table is the row of the one pair of nibbles that its
/// index stands for.
pub proof fn lemma_xor_table_row_at(k: int)
    requires
        0 <= k < 256,
    ensures
        0 <= k / 16 < 16,
        0 <= k % 16 < 16,
        xor_table()[k] == xor_row(k / 16, k % 16),
        16 * (k / 16) + k % 16 == k,
{
}

/// Each pair of nibbles has one row in the XOR table and no more: a row that
/// starts with `(i, j)` stands at index `16 * i + j`.
pub proof fn lemma_xor_table_one_row_per_pair(k: int, i: int, j: int)
    requires
        0 <= k < 256,
        xor_table()[k].a == i,
        xor_table()[k].b == j,
    ensures
        0 <= i < 16,
        0 <= j < 16,
        k == 16 * i + j,
        xor_table()[k] == xor_row(i, j),
{
}

/// The XOR table has the row of every pair of nibbles, and states of no pair
/// anything but its XOR.
pub proof fn lemma_xor_table_complete_and_sound()
    ensures
        xor_complete(xor_table()),
        xor_sound(xor_table()),
{
    assert forall|i: int, j: int| 0 <= i < 16 && 0 <= j < 16 implies xor_table().contains(
        #[trigger] xor_row(i, j),
    ) by {
        lemma_xor_table_rows(i, j);
    }
}

/// Building the table twice gives the same rows in the same order.
pub proof fn lemma_rebuild_is_identical(first: LookupTable, second: LookupTable)
    requires
        table_rows(first) == xor_table(),
        table_rows(second) == xor_table(),
    ensures
        table_rows(first) == table_rows(second),
        table_rows(first).len() == 256,
{
}

} // verus!
