//! Row-major addressing of the pixel grid.
//!
//! The evaluator walks the grid as a flat index space; these functions fix
//! how a flat pixel index decomposes into a column and a row, and that the
//! decomposition inverts the row-major layout exactly.

use vstd::prelude::*;

verus! {

/// The column and row of a flat pixel index, by truncating division and
/// modulo, as the row-major layout demands: index `i` lands in column
/// `i % width` of row `i / width`.
pub fn pixel_coords(i: usize, width: usize) -> (c: (usize, usize))
    requires
        width > 0,
    ensures
        c.0 == i % width,
        c.1 == i / width,
        c.0 < width,
        i == c.1 * width + c.0,
{
    proof {
        let q = i as int / width as int;
        vstd::arithmetic::div_mod::lemma_fundamental_div_mod(i as int, width as int);
        vstd::arithmetic::div_mod::lemma_mod_division_less_than_divisor(i as int, width as int);
        assert(width as int * q == q * width as int) by (nonlinear_arith);
    }
    (i % width, i / width)
}

/// The flat index of the pixel in column `x` of row `y`: the inverse of
/// `pixel_coords` on in-range columns.
pub fn pixel_index(x: usize, y: usize, width: usize) -> (i: usize)
    requires
        x < width,
        y * width + x <= usize::MAX,
    ensures
        i == y * width + x,
        i % width == x,
        i / width == y,
{
    proof {
        vstd::arithmetic::div_mod::lemma_fundamental_div_mod_converse(
            (y * width + x) as int,
            width as int,
            y as int,
            x as int,
        );
    }
    y * width + x
}

} // verus!
