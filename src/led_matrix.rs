//! The display state: one 64-bit bitmap, bit `y * 8 + x` for cell `(x, y)`.

use vstd::prelude::*;

verus! {

/// Width and height of the square grid.
pub const GRID_SIZE: u8 = 8;

/// Whether `(x, y)` names a cell of the grid.
pub open spec fn valid_cell(x: int, y: int) -> bool {
    0 <= x < 8 && 0 <= y < 8
}

/// Bit position of cell `(x, y)` in the bitmap.
pub open spec fn cell_index(x: int, y: int) -> int {
    y * 8 + x
}

/// Whether bit `i` of `bits` is one.
pub open spec fn bit_at(bits: u64, i: u64) -> bool {
    (bits >> i) & 1u64 == 1u64
}

/// Whether cell `(x, y)` is lit in `bits`.
pub open spec fn lit(bits: u64, x: int, y: int) -> bool {
    bit_at(bits, cell_index(x, y) as u64)
}

/// `bits` with bit `i` forced to `on`.
pub open spec fn with_bit(bits: u64, i: u64, on: bool) -> u64 {
    if on {
        bits | (1u64 << i)
    } else {
        bits & !(1u64 << i)
    }
}

/// The bitmap after a request to set cell `(x, y)` to `on`: the one bit of
/// that cell changes, and a request naming no cell of the grid changes nothing.
pub open spec fn set_cell(bits: u64, x: int, y: int, on: bool) -> u64 {
    if valid_cell(x, y) {
        with_bit(bits, cell_index(x, y) as u64, on)
    } else {
        bits
    }
}

/// The whole grid, held as a bitmap.
pub struct DisplayState {
    bits: u64,
}

impl View for DisplayState {
    type V = u64;

    closed spec fn view(&self) -> u64 {
        self.bits
    }
}

impl DisplayState {
    /// A grid with every cell off.
    pub fn new() -> (r: DisplayState)
        ensures
            r@ == 0u64,
    {
        DisplayState { bits: 0 }
    }

    /// A grid holding the given bitmap.
    pub fn from_bits(bits: u64) -> (r: DisplayState)
        ensures
            r@ == bits,
    {
        DisplayState { bits }
    }
}

/// The mask of cell `(x, y)`.
fn bit(x: u8, y: u8) -> (r: u64)
    requires
        valid_cell(x as int, y as int),
    ensures
        r == 1u64 << (cell_index(x as int, y as int) as u64),
{
    1u64 << (y * 8 + x)
}

/// Whether cell `(x, y)` is lit.
pub fn get(state: &DisplayState, x: u8, y: u8) -> (r: bool)
    requires
        valid_cell(x as int, y as int),
    ensures
        r == lit(state@, x as int, y as int),
{
    let i: u64 = (y * 8 + x) as u64;
    let b = state.bits;
    assert(b & (1u64 << i) != 0 <==> (b >> i) & 1u64 == 1u64) by (bit_vector)
        requires
            i < 64,
    ;
    state.bits & bit(x, y) != 0
}

/// Sets cell `(x, y)` to `on`; a cell outside the grid is left alone, and
/// no other bit changes.
pub fn set(state: &mut DisplayState, x: u8, y: u8, on: bool)
    ensures
        final(state)@ == set_cell(old(state)@, x as int, y as int, on),
{
    if x < GRID_SIZE && y < GRID_SIZE {
        let b = bit(x, y);
        if on {
            state.bits = state.bits | b;
        } else {
            state.bits = state.bits & !b;
        }
    }
}

/// The whole bitmap.
pub fn snapshot(state: &DisplayState) -> (r: u64)
    ensures
        r == state@,
{
    state.bits
}


proof fn lemma_with_bit(bits: u64, i: u64, j: u64, on: bool)
    requires
        i < 64,
        j < 64,
    ensures
        bit_at(with_bit(bits, i, on), j) == if i == j { on } else { bit_at(bits, j) },
{
    assert(bit_at(bits | (1u64 << i), j) == if i == j { true } else { bit_at(bits, j) })
        by (bit_vector)
        requires
            i < 64,
            j < 64,
    ;
    assert(bit_at(bits & !(1u64 << i), j) == if i == j { false } else { bit_at(bits, j) })
        by (bit_vector)
        requires
            i < 64,
            j < 64,
    ;
}

/// After setting a cell of the grid to `on`, that cell reads `on` and every
/// other bit of the bitmap is as before.
pub proof fn law_set_then_get(bits: u64, x: int, y: int, on: bool)
    requires
        valid_cell(x, y),
    ensures
        lit(set_cell(bits, x, y, on), x, y) == on,
        forall|i: u64|
            i < 64 && i != cell_index(x, y) ==> #[trigger] bit_at(set_cell(bits, x, y, on), i)
                == bit_at(bits, i),
{
    let c = cell_index(x, y) as u64;
    lemma_with_bit(bits, c, c, on);
    assert forall|i: u64| i < 64 && i != cell_index(x, y) implies #[trigger] bit_at(
        set_cell(bits, x, y, on),
        i,
    ) == bit_at(bits, i) by {
        lemma_with_bit(bits, c, i, on);
    }
}

/// The bitmap after applying a sequence of set requests `(x, y, on)` in order.
pub open spec fn apply_all(bits: u64, ops: Seq<(u8, u8, bool)>) -> u64
    decreases ops.len(),
{
    if ops.len() == 0 {
        bits
    } else {
        let (x, y, on) = ops.last();
        set_cell(apply_all(bits, ops.drop_last()), x as int, y as int, on)
    }
}

/// Bit `i` after the requests `ops`: the value of the last request that names
/// the cell at bit `i`, or the initial bit where no request names it.
pub open spec fn last_write(bits: u64, ops: Seq<(u8, u8, bool)>, i: u64) -> bool
    decreases ops.len(),
{
    if ops.len() == 0 {
        bit_at(bits, i)
    } else {
        let (x, y, on) = ops.last();
        if valid_cell(x as int, y as int) && cell_index(x as int, y as int) == i {
            on
        } else {
            last_write(bits, ops.drop_last(), i)
        }
    }
}

/// The bitmap is exactly what the set requests made of it, in the order they
/// were applied: each bit holds the last value written to it, or its initial
/// value where nothing was written to it.
pub proof fn law_last_write_wins(bits: u64, ops: Seq<(u8, u8, bool)>)
    ensures
        forall|i: u64| i < 64 ==> #[trigger] bit_at(apply_all(bits, ops), i) == last_write(bits, ops, i),
    decreases ops.len(),
{
    if ops.len() > 0 {
        let prev = ops.drop_last();
        law_last_write_wins(bits, prev);
        let (x, y, on) = ops.last();
        assert forall|i: u64| i < 64 implies #[trigger] bit_at(apply_all(bits, ops), i) == last_write(bits, ops, i) by {
            assert(bit_at(apply_all(bits, prev), i) == last_write(bits, prev, i));
            if valid_cell(x as int, y as int) {
                let c = cell_index(x as int, y as int);
                assert(0 <= c < 64);
                lemma_with_bit(apply_all(bits, prev), c as u64, i, on);
            }
        }
    }
}

/// Setting the same cell to the same value twice leaves the bitmap as one
/// such request does; of two requests on one cell, the later one decides.
pub proof fn law_set_idempotent(bits: u64, x: int, y: int, first: bool, on: bool)
    ensures
        set_cell(set_cell(bits, x, y, on), x, y, on) == set_cell(bits, x, y, on),
        set_cell(set_cell(bits, x, y, first), x, y, on) == set_cell(bits, x, y, on),
{
    if valid_cell(x, y) {
        let i = cell_index(x, y) as u64;
        assert(with_bit(with_bit(bits, i, first), i, on) == with_bit(bits, i, on)) by (bit_vector)
            requires
                i < 64,
        ;
        assert(with_bit(with_bit(bits, i, on), i, on) == with_bit(bits, i, on)) by (bit_vector)
            requires
                i < 64,
        ;
    }
}

} // verus!
