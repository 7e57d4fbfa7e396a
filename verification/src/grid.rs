//! Layout of the initial particle block: a `side` x `side` lattice filled
//! column by column.

use vstd::prelude::*;

verus! {

/// One lattice slot of the initial block: `column` indexes the x axis and
/// `row` the y axis, both counted from the block's lower-left corner.
#[derive(Clone, Copy, Debug, PartialEq, Eq, Structural)]
pub struct GridSlot {
    pub column: usize,
    pub row: usize,
}

/// `s` is the slot of the `k`-th particle of a block with `side` slots per
/// column: particles fill a column bottom to top before the next column
/// starts.
pub open spec fn is_slot_of(s: GridSlot, side: nat, k: int) -> bool {
    &&& s.column as int == k / (side as int)
    &&& s.row as int == k % (side as int)
}

/// `g` lays out a `side` x `side` block, particle by particle.
pub open spec fn lays_out_block(g: Seq<GridSlot>, side: nat) -> bool {
    &&& g.len() == side * side
    &&& forall|k: int| 0 <= k < g.len() ==> is_slot_of(#[trigger] g[k], side, k)
}

proof fn lemma_index_of_slot(side: nat, column: int, row: int)
    requires
        0 <= column < side,
        0 <= row < side,
    ensures
        0 <= column * side + row < side * side,
        (column * side + row) / (side as int) == column,
        (column * side + row) % (side as int) == row,
{
    let k = column * side + row;
    assert(0 <= k < side * side && k / (side as int) == column && k % (side as int) == row)
        by (nonlinear_arith)
        requires
            0 <= column < side,
            0 <= row < side,
            k == column * side + row,
    ;
}

proof fn lemma_slot_of_index(side: nat, k: int)
    requires
        0 <= k < side * side,
    ensures
        k / (side as int) < side,
        k % (side as int) < side,
        (k / (side as int)) * side + k % (side as int) == k,
{
    assert(side > 0) by (nonlinear_arith)
        requires
            0 <= k < side * side,
    ;
    assert(k / (side as int) < side && k % (side as int) < side && (k / (side as int)) * side + k
        % (side as int) == k) by (nonlinear_arith)
        requires
            0 <= k < side * side,
            side > 0,
    ;
}

/// A block layout puts every particle on its own slot, and takes every
/// slot of the `side` x `side` square.
proof fn lemma_block_fills_once(g: Seq<GridSlot>, side: nat)
    requires
        lays_out_block(g, side),
    ensures
        g.no_duplicates(),
        forall|column: usize, row: usize|
            (column as nat) < side && (row as nat) < side ==> g.contains(GridSlot { column, row }),
{
    assert forall|a: int, b: int| 0 <= a < g.len() && 0 <= b < g.len() && a != b implies g[a]
        != g[b] by {
        lemma_slot_of_index(side, a);
        lemma_slot_of_index(side, b);
        assert(is_slot_of(g[a], side, a) && is_slot_of(g[b], side, b));
    }
    assert forall|column: usize, row: usize|
        (column as nat) < side && (row as nat) < side implies g.contains(
        GridSlot { column, row },
    ) by {
        lemma_index_of_slot(side, column as int, row as int);
        let k = column as int * side + row as int;
        assert(is_slot_of(g[k], side, k));
        assert(g[k] == GridSlot { column, row });
    }
}

/// The slots of a `side` x `side` initial block, in the order the
/// particles are created: for each column from left to right, each row
/// from bottom to top. Every slot of the square is taken by exactly one
/// particle.
pub fn initial_grid(side: usize) -> (grid: Vec<GridSlot>)
    requires
        side * side <= usize::MAX,
    ensures
        lays_out_block(grid@, side as nat),
        grid@.no_duplicates(),
        forall|column: usize, row: usize|
            column < side && row < side ==> grid@.contains(GridSlot { column, row }),
{
    let mut grid: Vec<GridSlot> = Vec::new();
    let mut i: usize = 0;
    while i < side
        invariant
            side * side <= usize::MAX,
            i <= side,
            grid@.len() == i * side,
            forall|k: int| 0 <= k < grid@.len() ==> is_slot_of(#[trigger] grid@[k], side as nat, k),
        decreases side - i,
    {
        let mut j: usize = 0;
        while j < side
            invariant
                side * side <= usize::MAX,
                i < side,
                j <= side,
                grid@.len() == i * side + j,
                forall|k: int|
                    0 <= k < grid@.len() ==> is_slot_of(#[trigger] grid@[k], side as nat, k),
            decreases side - j,
        {
            proof {
                lemma_index_of_slot(side as nat, i as int, j as int);
            }
            grid.push(GridSlot { column: i, row: j });
            j = j + 1;
        }
        assert((i + 1) * side == i * side + side) by (nonlinear_arith);
        i = i + 1;
    }
    proof {
        lemma_block_fills_once(grid@, side as nat);
    }
    grid
}

} // verus!
