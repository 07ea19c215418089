//! Square matrices of fixed-point scalars (sizes 2 to 4 in practice).
//!
//! The determinant is computed by cofactor expansion along the first row,
//! and the inverse entry `(i, j)` is `cofactor(j, i) / det`.

use vstd::prelude::*;
use crate::fx::{fx_add, fx_sub, fx_mul, fx_neg, fx_div, near_equal, spec_near, FX_ONE, FX_MAX};
use crate::tuple::Tuple;

verus! {

#[derive(Debug)]
pub struct Matrix {
    buffer: Vec<Vec<i64>>,
}

impl View for Matrix {
    type V = Seq<Seq<i64>>;

    closed spec fn view(&self) -> Seq<Seq<i64>> {
        self.buffer@.map_values(|row: Vec<i64>| row@)
    }
}

impl Clone for Matrix {
    fn clone(&self) -> (r: Self)
        ensures
            r@ == self@,
    {
        let n: usize = self.buffer.len();
        let mut buffer: Vec<Vec<i64>> = Vec::new();
        let mut y: usize = 0;
        while y < n
            invariant
                n == self@.len(),
                y <= n,
                buffer@.len() == y,
                forall|i: int| 0 <= i < y ==> (#[trigger] buffer@[i])@ == self@[i],
            decreases n - y,
        {
            proof {
                assert(self@[y as int] == self.buffer@[y as int]@);
            }
            let row_len: usize = self.buffer[y].len();
            let mut row: Vec<i64> = Vec::new();
            let mut x: usize = 0;
            while x < row_len
                invariant
                    n == self@.len(),
                    y < n,
                    row_len == self@[y as int].len(),
                    x <= row_len,
                    row@.len() == x,
                    forall|j: int| 0 <= j < x ==> #[trigger] row@[j] == self@[y as int][j],
                decreases row_len - x,
            {
                proof {
                    assert(self@[y as int] == self.buffer@[y as int]@);
                }
                row.push(self.buffer[y][x]);
                x = x + 1;
            }
            proof {
                assert(row@ =~= self@[y as int]);
            }
            buffer.push(row);
            y = y + 1;
        }
        let m = Matrix { buffer };
        proof {
            assert(m@ =~~= self@);
        }
        m
    }
}

/// A well-formed matrix is square with at least two rows.
pub open spec fn mat_wf(m: Seq<Seq<i64>>) -> bool {
    2 <= m.len() && forall|i: int| 0 <= i < m.len() ==> (#[trigger] m[i]).len() == m.len()
}

pub open spec fn spec_identity() -> Seq<Seq<i64>> {
    seq![
        seq![FX_ONE, 0i64, 0i64, 0i64],
        seq![0i64, FX_ONE, 0i64, 0i64],
        seq![0i64, 0i64, FX_ONE, 0i64],
        seq![0i64, 0i64, 0i64, FX_ONE],
    ]
}

pub open spec fn spec_transpose(m: Seq<Seq<i64>>) -> Seq<Seq<i64>> {
    Seq::new(m.len(), |i: int| Seq::new(m.len(), |j: int| m[j][i]))
}

/// `m` with row `r` and column `c` removed.
pub open spec fn spec_submatrix(m: Seq<Seq<i64>>, r: int, c: int) -> Seq<Seq<i64>> {
    Seq::new(
        (m.len() - 1) as nat,
        |i: int|
            Seq::new(
                (m.len() - 1) as nat,
                |j: int| m[if i < r { i } else { i + 1 }][if j < c { j } else { j + 1 }],
            ),
    )
}

/// Determinant: the 2x2 closed form, else cofactor expansion of the
/// first row, accumulated left to right.
#[verifier::opaque]
pub open spec fn spec_det(m: Seq<Seq<i64>>) -> i64
    decreases m.len(), 2int, 0int,
{
    if m.len() == 2 {
        fx_sub(fx_mul(m[0][0], m[1][1]), fx_mul(m[0][1], m[1][0]))
    } else {
        spec_det_sum(m, m.len() as int)
    }
}

/// Partial first-row cofactor expansion over columns `0 .. k`.
pub open spec fn spec_det_sum(m: Seq<Seq<i64>>, k: int) -> i64
    decreases m.len(), 1int, k,
{
    if k <= 0 {
        0
    } else {
        fx_add(spec_det_sum(m, k - 1), fx_mul(spec_cofactor(m, 0, k - 1), m[0][k - 1]))
    }
}

pub open spec fn spec_minor(m: Seq<Seq<i64>>, r: int, c: int) -> i64
    decreases m.len(), 0int, 1int,
{
    if m.len() == 0 {
        0
    } else {
        spec_det(spec_submatrix(m, r, c))
    }
}

pub open spec fn spec_cofactor(m: Seq<Seq<i64>>, r: int, c: int) -> i64
    decreases m.len(), 0int, 2int,
{
    if (r + c) % 2 == 0 {
        spec_minor(m, r, c)
    } else {
        fx_neg(spec_minor(m, r, c))
    }
}

/// Row-by-column product entry, accumulated over indices `0 .. k`.
pub open spec fn spec_mat_mul_dot(a: Seq<Seq<i64>>, b: Seq<Seq<i64>>, row: int, col: int, k: int) -> i64
    decreases k,
{
    if k <= 0 {
        0
    } else {
        fx_add(spec_mat_mul_dot(a, b, row, col, k - 1), fx_mul(a[row][k - 1], b[k - 1][col]))
    }
}

#[verifier::opaque]
pub open spec fn spec_mat_mul(a: Seq<Seq<i64>>, b: Seq<Seq<i64>>) -> Seq<Seq<i64>> {
    Seq::new(
        a.len(),
        |row: int| Seq::new(a.len(), |col: int| spec_mat_mul_dot(a, b, row, col, a.len() as int)),
    )
}

pub open spec fn spec_tuple_mul(m: Seq<Seq<i64>>, t: Tuple) -> Tuple {
    Tuple {
        x: spec_row_dot(m, 0, t),
        y: spec_row_dot(m, 1, t),
        z: spec_row_dot(m, 2, t),
        w: spec_row_dot(m, 3, t),
    }
}

pub open spec fn spec_row_dot(m: Seq<Seq<i64>>, row: int, t: Tuple) -> i64 {
    fx_add(
        fx_add(
            fx_add(fx_mul(m[row][0], t.x), fx_mul(m[row][1], t.y)),
            fx_mul(m[row][2], t.z),
        ),
        fx_mul(m[row][3], t.w),
    )
}

/// Inverse entry `(i, j)` is `cofactor(j, i) / det` (the transpose of the
/// cofactor grid, scaled by the determinant).
#[verifier::opaque]
pub open spec fn spec_inverse(m: Seq<Seq<i64>>) -> Seq<Seq<i64>> {
    Seq::new(
        m.len(),
        |i: int| Seq::new(m.len(), |j: int| fx_div(spec_cofactor(m, j, i), spec_det(m))),
    )
}

/// A well-formed 4x4 matrix with a nonzero determinant.
pub open spec fn mat4_invertible(m: Seq<Seq<i64>>) -> bool {
    mat_wf(m) && m.len() == 4 && spec_det(m) != 0
}

/// Same shape and every entry within `EPSILON`.
pub open spec fn spec_mat_near(a: Seq<Seq<i64>>, b: Seq<Seq<i64>>) -> bool {
    a.len() == b.len() && (forall|i: int|
        0 <= i < a.len() ==> (#[trigger] a[i]).len() == b[i].len()) && (forall|i: int, j: int|
        0 <= i < a.len() && 0 <= j < a[i].len() ==> spec_near(#[trigger] a[i][j], b[i][j]))
}

/// The identity matrix is invertible: its determinant is 1.0 exactly.
pub proof fn lemma_identity_invertible()
    ensures
        mat4_invertible(spec_identity()),
        spec_det(spec_identity()) == FX_ONE,
{
    reveal_with_fuel(spec_det, 4);
    reveal_with_fuel(spec_det_sum, 5);
    reveal_with_fuel(spec_minor, 4);
    reveal_with_fuel(spec_cofactor, 4);
    crate::fx::lemma_fx_mul_one(FX_ONE);
    crate::fx::lemma_fx_mul_zero(0i64);
    let m4 = spec_identity();
    let m3 = spec_submatrix(m4, 0, 0);
    let m2 = spec_submatrix(m3, 0, 0);
    assert(m2.len() == 2 && m3.len() == 3);
    assert(m2[0][0] == FX_ONE && m2[0][1] == 0i64 && m2[1][0] == 0i64 && m2[1][1] == FX_ONE);
    assert(spec_det(m2) == FX_ONE);
    assert(spec_minor(m3, 0, 0) == FX_ONE);
    assert(m3[0][0] == FX_ONE && m3[0][1] == 0i64 && m3[0][2] == 0i64);
    crate::fx::lemma_fx_mul_zero(spec_cofactor(m3, 0, 1));
    crate::fx::lemma_fx_mul_zero(spec_cofactor(m3, 0, 2));
    assert(spec_det(m3) == FX_ONE);
    assert(spec_minor(m4, 0, 0) == FX_ONE);
    assert(m4[0][0] == FX_ONE && m4[0][1] == 0i64 && m4[0][2] == 0i64 && m4[0][3] == 0i64);
    crate::fx::lemma_fx_mul_zero(spec_cofactor(m4, 0, 1));
    crate::fx::lemma_fx_mul_zero(spec_cofactor(m4, 0, 2));
    crate::fx::lemma_fx_mul_zero(spec_cofactor(m4, 0, 3));
    assert(spec_det(m4) == FX_ONE);
}

/// Every entry of `m` lies in the symmetric representable range that all
/// scalar operations produce.
pub open spec fn mat_in_range(m: Seq<Seq<i64>>) -> bool {
    forall|i: int, j: int|
        0 <= i < m.len() && 0 <= j < m[i].len() ==> -FX_MAX <= #[trigger] m[i][j]
}

/// Multiplying by the identity, on either side, leaves a 4x4 matrix
/// unchanged — exactly, with no rounding.
#[verifier::rlimit(100)]
#[verifier::spinoff_prover]
pub proof fn lemma_identity_multiply(m: Seq<Seq<i64>>)
    requires
        mat_wf(m),
        m.len() == 4,
        mat_in_range(m),
    ensures
        spec_mat_mul(spec_identity(), m) == m,
        spec_mat_mul(m, spec_identity()) == m,
{
    reveal(spec_mat_mul);
    reveal_with_fuel(spec_mat_mul_dot, 6);
    let id = spec_identity();
    assert forall|i: int, j: int| 0 <= i < 4 && 0 <= j < 4 implies spec_mat_mul_dot(id, m, i, j, 4)
        == m[i][j] by {
        crate::fx::lemma_fx_mul_one(m[i][j]);
        crate::fx::lemma_fx_mul_zero(m[0][j]);
        crate::fx::lemma_fx_mul_zero(m[1][j]);
        crate::fx::lemma_fx_mul_zero(m[2][j]);
        crate::fx::lemma_fx_mul_zero(m[3][j]);
        if i == 0 {
            assert(spec_mat_mul_dot(id, m, i, j, 4) == m[0][j]);
        } else if i == 1 {
            assert(spec_mat_mul_dot(id, m, i, j, 4) == m[1][j]);
        } else if i == 2 {
            assert(spec_mat_mul_dot(id, m, i, j, 4) == m[2][j]);
        } else {
            assert(spec_mat_mul_dot(id, m, i, j, 4) == m[3][j]);
        }
    }
    assert(spec_mat_mul(id, m) =~~= m);
    assert forall|i: int, j: int| 0 <= i < 4 && 0 <= j < 4 implies spec_mat_mul_dot(m, id, i, j, 4)
        == m[i][j] by {
        crate::fx::lemma_fx_mul_one(m[i][j]);
        crate::fx::lemma_fx_mul_zero(m[i][0]);
        crate::fx::lemma_fx_mul_zero(m[i][1]);
        crate::fx::lemma_fx_mul_zero(m[i][2]);
        crate::fx::lemma_fx_mul_zero(m[i][3]);
        if j == 0 {
            assert(spec_mat_mul_dot(m, id, i, j, 4) == m[i][0]);
        } else if j == 1 {
            assert(spec_mat_mul_dot(m, id, i, j, 4) == m[i][1]);
        } else if j == 2 {
            assert(spec_mat_mul_dot(m, id, i, j, 4) == m[i][2]);
        } else {
            assert(spec_mat_mul_dot(m, id, i, j, 4) == m[i][3]);
        }
    }
    assert(spec_mat_mul(m, id) =~~= m);
}

impl Matrix {
    pub fn new(data: Vec<Vec<i64>>) -> (r: Matrix)
        ensures
            r@ == data@.map_values(|row: Vec<i64>| row@),
    {
        Matrix { buffer: data }
    }

    pub fn get(&self, row: usize, col: usize) -> (r: i64)
        requires
            row < self@.len(),
            col < self@[row as int].len(),
        ensures
            r == self@[row as int][col as int],
    {
        self.buffer[row][col]
    }

    pub fn set(&mut self, row: usize, col: usize, val: i64)
        requires
            row < old(self)@.len(),
            col < old(self)@[row as int].len(),
        ensures
            final(self)@ == old(self)@.update(
                row as int,
                old(self)@[row as int].update(col as int, val),
            ),
    {
        let r: &mut Vec<i64> = &mut self.buffer[row];
        r[col] = val;
        proof {
            assert(self@ =~~= old(self)@.update(
                row as int,
                old(self)@[row as int].update(col as int, val),
            ));
        }
    }

    pub fn identity_matrix() -> (r: Matrix)
        ensures
            r@ == spec_identity(),
            mat_wf(r@),
    {
        let mut buffer: Vec<Vec<i64>> = Vec::new();
        let mut r0: Vec<i64> = Vec::new();
        r0.push(FX_ONE);
        r0.push(0);
        r0.push(0);
        r0.push(0);
        let mut r1: Vec<i64> = Vec::new();
        r1.push(0);
        r1.push(FX_ONE);
        r1.push(0);
        r1.push(0);
        let mut r2: Vec<i64> = Vec::new();
        r2.push(0);
        r2.push(0);
        r2.push(FX_ONE);
        r2.push(0);
        let mut r3: Vec<i64> = Vec::new();
        r3.push(0);
        r3.push(0);
        r3.push(0);
        r3.push(FX_ONE);
        buffer.push(r0);
        buffer.push(r1);
        buffer.push(r2);
        buffer.push(r3);
        let m = Matrix { buffer };
        proof {
            assert(m@ =~~= spec_identity());
        }
        m
    }

    pub fn transpose(&self) -> (r: Matrix)
        requires
            mat_wf(self@),
        ensures
            r@ == spec_transpose(self@),
            mat_wf(r@),
    {
        let n: usize = self.buffer.len();
        let mut result: Vec<Vec<i64>> = Vec::new();
        let mut y: usize = 0;
        while y < n
            invariant
                mat_wf(self@),
                n == self@.len(),
                y <= n,
                result@.len() == y,
                forall|i: int| 0 <= i < y ==> (#[trigger] result@[i])@ == spec_transpose(self@)[i],
            decreases n - y,
        {
            let mut row: Vec<i64> = Vec::new();
            let mut x: usize = 0;
            while x < n
                invariant
                    mat_wf(self@),
                    n == self@.len(),
                    y < n,
                    x <= n,
                    row@.len() == x,
                    forall|j: int| 0 <= j < x ==> row@[j] == self@[j][y as int],
                decreases n - x,
            {
                proof {
                    assert(self@[x as int] == self.buffer@[x as int]@);
                }
                row.push(self.buffer[x][y]);
                x = x + 1;
            }
            proof {
                assert(row@ =~= spec_transpose(self@)[y as int]);
            }
            result.push(row);
            y = y + 1;
        }
        let m = Matrix { buffer: result };
        proof {
            assert(m@ =~~= spec_transpose(self@));
        }
        m
    }

    pub fn submatrix(&self, row: usize, col: usize) -> (r: Matrix)
        requires
            mat_wf(self@),
            3 <= self@.len(),
            row < self@.len(),
            col < self@.len(),
        ensures
            r@ == spec_submatrix(self@, row as int, col as int),
            mat_wf(r@),
    {
        let n: usize = self.buffer.len();
        let ghost sub = spec_submatrix(self@, row as int, col as int);
        let mut result: Vec<Vec<i64>> = Vec::new();
        let mut y: usize = 0;
        while y < n
            invariant
                mat_wf(self@),
                n == self@.len(),
                row < n,
                col < n,
                y <= n,
                sub == spec_submatrix(self@, row as int, col as int),
                result@.len() == if y <= row {
                    y as int
                } else {
                    y - 1
                },
                forall|i: int| 0 <= i < result@.len() ==> (#[trigger] result@[i])@ == sub[i],
            decreases n - y,
        {
            if y != row {
                let ghost ti = if y < row {
                    y as int
                } else {
                    y - 1
                };
                let mut result_row: Vec<i64> = Vec::new();
                let mut x: usize = 0;
                while x < n
                    invariant
                        mat_wf(self@),
                        n == self@.len(),
                        row < n,
                        col < n,
                        y < n,
                        y != row,
                        x <= n,
                        sub == spec_submatrix(self@, row as int, col as int),
                        ti == if y < row {
                            y as int
                        } else {
                            y - 1
                        },
                        result_row@.len() == if x <= col {
                            x as int
                        } else {
                            x - 1
                        },
                        forall|j: int|
                            0 <= j < result_row@.len() ==> #[trigger] result_row@[j] == sub[ti][j],
                    decreases n - x,
                {
                    if x != col {
                        proof {
                            assert(self@[y as int] == self.buffer@[y as int]@);
                        }
                        result_row.push(self.buffer[y][x]);
                    }
                    x = x + 1;
                }
                proof {
                    assert(result_row@ =~= sub[ti]);
                }
                result.push(result_row);
            }
            y = y + 1;
        }
        let m = Matrix { buffer: result };
        proof {
            assert(m@ =~~= sub);
        }
        m
    }

    pub fn determinant(&self) -> (d: i64)
        requires
            mat_wf(self@),
        ensures
            d == spec_det(self@),
        decreases self@.len(), 2int, 0int,
    {
        proof {
            reveal(spec_det);
            assert(self@[0] == self.buffer@[0]@);
            assert(self@[1] == self.buffer@[1]@);
        }
        if self.buffer.len() == 2 {
            fx_sub(
                fx_mul(self.buffer[0][0], self.buffer[1][1]),
                fx_mul(self.buffer[0][1], self.buffer[1][0]),
            )
        } else {
            let n: usize = self.buffer.len();
            let mut d: i64 = 0;
            let mut idx: usize = 0;
            while idx < n
                invariant
                    mat_wf(self@),
                    3 <= n == self@.len(),
                    idx <= n,
                    d == spec_det_sum(self@, idx as int),
                decreases n - idx, 0int, 0int,
            {
                let c: i64 = self.cofactor(0, idx);
                proof {
                    reveal(spec_det);
                    assert(self@[0] == self.buffer@[0]@);
                }
                d = fx_add(d, fx_mul(c, self.buffer[0][idx]));
                idx = idx + 1;
            }
            d
        }
    }

    pub fn minor(&self, row: usize, col: usize) -> (r: i64)
        requires
            mat_wf(self@),
            3 <= self@.len(),
            row < self@.len(),
            col < self@.len(),
        ensures
            r == spec_minor(self@, row as int, col as int),
        decreases self@.len(), 0int, 1int,
    {
        let s = self.submatrix(row, col);
        proof {
            reveal(spec_det);
        }
        s.determinant()
    }

    pub fn cofactor(&self, row: usize, col: usize) -> (r: i64)
        requires
            mat_wf(self@),
            3 <= self@.len(),
            row < self@.len(),
            col < self@.len(),
        ensures
            r == spec_cofactor(self@, row as int, col as int),
        decreases self@.len(), 0int, 2int,
    {
        proof {
            reveal(spec_det);
        }
        let m: i64 = self.minor(row, col);
        let s: u128 = row as u128 + col as u128;
        if s % 2 == 0 {
            m
        } else {
            fx_neg(m)
        }
    }

    pub fn is_invertible(&self) -> (r: bool)
        requires
            mat_wf(self@),
        ensures
            r == (spec_det(self@) != 0),
    {
        self.determinant() != 0
    }

    /// The inverse, entry by entry: `cofactor(col, row) / det`. Callers must
    /// have checked `is_invertible` first.
    pub fn inverse(&self) -> (r: Matrix)
        requires
            mat_wf(self@),
            3 <= self@.len(),
            spec_det(self@) != 0,
        ensures
            r@ == spec_inverse(self@),
            mat_wf(r@),
            r@.len() == self@.len(),
    {
        let n: usize = self.buffer.len();
        let det: i64 = self.determinant();
        proof {
            reveal(spec_inverse);
        }
        let ghost inv = spec_inverse(self@);
        let mut result: Vec<Vec<i64>> = Vec::new();
        let mut i: usize = 0;
        while i < n
            invariant
                mat_wf(self@),
                3 <= n == self@.len(),
                spec_det(self@) != 0,
                det == spec_det(self@),
                inv == spec_inverse(self@),
                i <= n,
                result@.len() == i,
                forall|a: int| 0 <= a < i ==> (#[trigger] result@[a])@ == inv[a],
            decreases n - i,
        {
            proof {
                reveal(spec_inverse);
            }
            let mut result_row: Vec<i64> = Vec::new();
            let mut j: usize = 0;
            while j < n
                invariant
                    mat_wf(self@),
                    3 <= n == self@.len(),
                    spec_det(self@) != 0,
                    det == spec_det(self@),
                    inv == spec_inverse(self@),
                    i < n,
                    j <= n,
                    result_row@.len() == j,
                    forall|b: int| 0 <= b < j ==> #[trigger] result_row@[b] == inv[i as int][b],
                decreases n - j,
            {
                proof {
                    reveal(spec_inverse);
                }
                let c: i64 = self.cofactor(j, i);
                result_row.push(fx_div(c, det));
                j = j + 1;
            }
            proof {
                reveal(spec_inverse);
                assert(result_row@ =~= inv[i as int]);
            }
            result.push(result_row);
            i = i + 1;
        }
        let m = Matrix { buffer: result };
        proof {
            assert(m@ =~~= inv);
        }
        m
    }

    pub fn matrix_multiply(&self, rhs: &Matrix) -> (r: Matrix)
        requires
            mat_wf(self@),
            mat_wf(rhs@),
            rhs@.len() == self@.len(),
        ensures
            r@ == spec_mat_mul(self@, rhs@),
            mat_wf(r@),
            r@.len() == self@.len(),
    {
        let n: usize = self.buffer.len();
        proof {
            reveal(spec_mat_mul);
        }
        let ghost prod = spec_mat_mul(self@, rhs@);
        let mut result: Vec<Vec<i64>> = Vec::new();
        let mut row: usize = 0;
        while row < n
            invariant
                mat_wf(self@),
                mat_wf(rhs@),
                n == self@.len() == rhs@.len(),
                prod == spec_mat_mul(self@, rhs@),
                row <= n,
                result@.len() == row,
                forall|a: int| 0 <= a < row ==> (#[trigger] result@[a])@ == prod[a],
            decreases n - row,
        {
            proof {
                reveal(spec_mat_mul);
            }
            let mut result_row: Vec<i64> = Vec::new();
            let mut col: usize = 0;
            while col < n
                invariant
                    mat_wf(self@),
                    mat_wf(rhs@),
                    n == self@.len() == rhs@.len(),
                    prod == spec_mat_mul(self@, rhs@),
                    row < n,
                    col <= n,
                    result_row@.len() == col,
                    forall|b: int| 0 <= b < col ==> #[trigger] result_row@[b] == prod[row as int][b],
                decreases n - col,
            {
                let mut cur: i64 = 0;
                let mut i: usize = 0;
                while i < n
                    invariant
                        mat_wf(self@),
                        mat_wf(rhs@),
                        n == self@.len() == rhs@.len(),
                        row < n,
                        col < n,
                        i <= n,
                        cur == spec_mat_mul_dot(self@, rhs@, row as int, col as int, i as int),
                    decreases n - i,
                {
                    proof {
                        assert(self@[row as int] == self.buffer@[row as int]@);
                        assert(rhs@[i as int] == rhs.buffer@[i as int]@);
                    }
                    cur = fx_add(cur, fx_mul(self.buffer[row][i], rhs.buffer[i][col]));
                    i = i + 1;
                }
                result_row.push(cur);
                proof {
                    reveal(spec_mat_mul);
                }
                col = col + 1;
            }
            proof {
                reveal(spec_mat_mul);
                assert(result_row@ =~= prod[row as int]);
            }
            result.push(result_row);
            row = row + 1;
        }
        let m = Matrix { buffer: result };
        proof {
            assert(m@ =~~= prod);
        }
        m
    }

    pub fn tuple_multiply(&self, rhs: &Tuple) -> (r: Tuple)
        requires
            mat_wf(self@),
            self@.len() == 4,
        ensures
            r == spec_tuple_mul(self@, *rhs),
    {
        proof {
            assert(self@[0] == self.buffer@[0]@);
            assert(self@[1] == self.buffer@[1]@);
            assert(self@[2] == self.buffer@[2]@);
            assert(self@[3] == self.buffer@[3]@);
        }
        let x: i64 = fx_add(
            fx_add(
                fx_add(fx_mul(self.buffer[0][0], rhs.x), fx_mul(self.buffer[0][1], rhs.y)),
                fx_mul(self.buffer[0][2], rhs.z),
            ),
            fx_mul(self.buffer[0][3], rhs.w),
        );
        let y: i64 = fx_add(
            fx_add(
                fx_add(fx_mul(self.buffer[1][0], rhs.x), fx_mul(self.buffer[1][1], rhs.y)),
                fx_mul(self.buffer[1][2], rhs.z),
            ),
            fx_mul(self.buffer[1][3], rhs.w),
        );
        let z: i64 = fx_add(
            fx_add(
                fx_add(fx_mul(self.buffer[2][0], rhs.x), fx_mul(self.buffer[2][1], rhs.y)),
                fx_mul(self.buffer[2][2], rhs.z),
            ),
            fx_mul(self.buffer[2][3], rhs.w),
        );
        let w: i64 = fx_add(
            fx_add(
                fx_add(fx_mul(self.buffer[3][0], rhs.x), fx_mul(self.buffer[3][1], rhs.y)),
                fx_mul(self.buffer[3][2], rhs.z),
            ),
            fx_mul(self.buffer[3][3], rhs.w),
        );
        Tuple { x, y, z, w }
    }

    pub fn approx_eq(&self, other: &Matrix) -> (r: bool)
        ensures
            r == spec_mat_near(self@, other@),
    {
        if self.buffer.len() != other.buffer.len() {
            return false;
        }
        let n: usize = self.buffer.len();
        let mut y: usize = 0;
        while y < n
            invariant
                n == self@.len() == other@.len(),
                y <= n,
                forall|i: int| 0 <= i < y ==> (#[trigger] self@[i]).len() == other@[i].len(),
                forall|i: int, j: int|
                    0 <= i < y && 0 <= j < self@[i].len() ==> spec_near(
                        #[trigger] self@[i][j],
                        other@[i][j],
                    ),
            decreases n - y,
        {
            proof {
                assert(self@[y as int] == self.buffer@[y as int]@);
                assert(other@[y as int] == other.buffer@[y as int]@);
            }
            let row_len: usize = self.buffer[y].len();
            if row_len != other.buffer[y].len() {
                return false;
            }
            let mut x: usize = 0;
            while x < row_len
                invariant
                    n == self@.len() == other@.len(),
                    y < n,
                    row_len == self@[y as int].len() == other@[y as int].len(),
                    x <= row_len,
                    forall|j: int|
                        0 <= j < x ==> spec_near(#[trigger] self@[y as int][j], other@[y as int][j]),
                decreases row_len - x,
            {
                proof {
                    assert(self@[y as int] == self.buffer@[y as int]@);
                    assert(other@[y as int] == other.buffer@[y as int]@);
                }
                if !near_equal(self.buffer[y][x], other.buffer[y][x]) {
                    return false;
                }
                x = x + 1;
            }
            y = y + 1;
        }
        true
    }
}

} // verus!
