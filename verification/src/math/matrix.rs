//! Layout of 4x4 matrices: built from rows, handed to shaders column by
//! column.

use vstd::prelude::*;

verus! {

broadcast use vstd::array::group_array_axioms;

/// Represents a 4x4 matrix, stored as rows.
///
/// The entry type is left open; the renderer uses 32-bit floats.
#[derive(Clone, Copy, Debug)]
pub struct Matrix4x4<T> {
    /// Values of the matrix, represented in rows.
    pub rows: [[T; 4]; 4],
}

/// `cols` holds the entries of `rows` column by column: the entry in row `i`
/// and column `j` of `rows` is entry `i` of `cols[j]`.
pub open spec fn is_transpose<T>(rows: [[T; 4]; 4], cols: [[T; 4]; 4]) -> bool {
    forall|i: int, j: int| 0 <= i < 4 && 0 <= j < 4 ==> #[trigger] cols[j][i] == rows[i][j]
}

impl<T: Copy> Matrix4x4<T> {
    /// Creates a new 4x4 matrix from the given rows.
    pub fn from_rows(rows: [[T; 4]; 4]) -> (m: Self)
        ensures
            m.rows == rows,
    {
        Matrix4x4 { rows }
    }

    /// Converts this matrix into a WGSL-compatible one, passing columns
    /// first, then rows.
    pub fn to_wgsl_matrix(&self) -> (cols: [[T; 4]; 4])
        ensures
            is_transpose(self.rows, cols),
    {
        let r = &self.rows;
        let cols = [
            [r[0][0], r[1][0], r[2][0], r[3][0]],
            [r[0][1], r[1][1], r[2][1], r[3][1]],
            [r[0][2], r[1][2], r[2][2], r[3][2]],
            [r[0][3], r[1][3], r[2][3], r[3][3]],
        ];
        assert forall|i: int, j: int| 0 <= i < 4 && 0 <= j < 4 implies #[trigger] cols[j][i]
            == self.rows[i][j] by {
            assert(0 <= i < 4 && 0 <= j < 4);
        }
        cols
    }
}

/// Handing a matrix to shaders twice over gives back its rows: converting
/// the converted entries again restores the starting layout.
pub proof fn lemma_to_wgsl_twice<T>(rows: [[T; 4]; 4], once: [[T; 4]; 4], twice: [[T; 4]; 4])
    requires
        is_transpose(rows, once),
        is_transpose(once, twice),
    ensures
        twice == rows,
{
    assert forall|i: int| 0 <= i < 4 implies #[trigger] twice[i] == rows[i] by {
        assert forall|j: int| 0 <= j < 4 implies #[trigger] twice[i][j] == rows[i][j] by {
            assert(once[i][j] == rows[j][i]);
        }
        assert(twice[i] =~= rows[i]);
    }
    assert(twice =~= rows);
}

} // verus!
