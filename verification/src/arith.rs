use vstd::prelude::*;

verus! {

/// Multiplying by a non-negative factor keeps the order.
pub proof fn lemma_mul_le(a: int, b: int, c: int)
    requires
        a <= b,
        0 <= c,
    ensures
        a * c <= b * c,
{
    assert(a * c <= b * c) by (nonlinear_arith)
        requires
            a <= b,
            0 <= c,
    ;
}

/// Multiplication distributes over subtraction.
pub proof fn lemma_mul_sub(a: int, b: int, c: int)
    ensures
        (a - b) * c == a * c - b * c,
{
    assert((a - b) * c == a * c - b * c) by (nonlinear_arith);
}

/// Multiplication distributes over addition.
pub proof fn lemma_mul_add(a: int, b: int, c: int)
    ensures
        (a + b) * c == a * c + b * c,
{
    assert((a + b) * c == a * c + b * c) by (nonlinear_arith);
}

/// A cell `(row, column)` of a grid with `columns` columns lies before the start of the
/// next row and before the end of a grid with more rows.
pub proof fn lemma_cell_in_grid(row: int, column: int, columns: int, rows: int)
    requires
        0 <= row < rows,
        0 <= column < columns,
    ensures
        0 <= row * columns + column < rows * columns,
        row * columns + column + 1 <= (row + 1) * columns,
        (row + 1) * columns <= rows * columns,
{
    lemma_mul_le(row + 1, rows, columns);
    lemma_mul_add(row, 1, columns);
    lemma_mul_le(0, row, columns);
}

} // verus!
