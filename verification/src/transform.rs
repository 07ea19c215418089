//! Affine transforms: a 4x4 matrix built compositionally. Every builder
//! call left-multiplies its primitive matrix onto the current one, so the
//! call written first is applied first to points.
//!
//! The rotation builders take the sine and cosine of the rotation angle as
//! scalars, since trigonometry is outside fixed-point arithmetic.

use vstd::prelude::*;
use crate::fx::{
    fx_neg, fx_add, fx_div, iabs, lemma_fx_mul_one, lemma_fx_mul_zero, lemma_fx_div_one, FX_ONE,
    FX_MAX,
};
use crate::matrix::{
    Matrix, mat_wf, spec_identity, spec_inverse, spec_transpose, spec_mat_mul, spec_tuple_mul,
    spec_det, spec_det_sum, spec_minor, spec_cofactor, spec_submatrix, spec_mat_near,
};
use crate::ray::Ray;
use crate::tuple::{Tuple, spec_sub, spec_normalize, spec_cross};

verus! {

#[derive(Debug)]
pub struct Transform {
    pub matrix: Matrix,
}

/// A transform holds a square 4x4 matrix.
pub open spec fn transform_wf(t: Transform) -> bool {
    mat_wf(t.matrix@) && t.matrix@.len() == 4
}

/// A transform whose matrix can be inverted.
pub open spec fn transform_invertible(t: Transform) -> bool {
    transform_wf(t) && spec_det(t.matrix@) != 0
}

pub open spec fn spec_translation(x: i64, y: i64, z: i64) -> Seq<Seq<i64>> {
    seq![
        seq![FX_ONE, 0i64, 0i64, x],
        seq![0i64, FX_ONE, 0i64, y],
        seq![0i64, 0i64, FX_ONE, z],
        seq![0i64, 0i64, 0i64, FX_ONE],
    ]
}

pub open spec fn spec_scaling(x: i64, y: i64, z: i64) -> Seq<Seq<i64>> {
    seq![
        seq![x, 0i64, 0i64, 0i64],
        seq![0i64, y, 0i64, 0i64],
        seq![0i64, 0i64, z, 0i64],
        seq![0i64, 0i64, 0i64, FX_ONE],
    ]
}

pub open spec fn spec_rotation_x(sin_r: i64, cos_r: i64) -> Seq<Seq<i64>> {
    seq![
        seq![FX_ONE, 0i64, 0i64, 0i64],
        seq![0i64, cos_r, fx_neg(sin_r), 0i64],
        seq![0i64, sin_r, cos_r, 0i64],
        seq![0i64, 0i64, 0i64, FX_ONE],
    ]
}

pub open spec fn spec_rotation_y(sin_r: i64, cos_r: i64) -> Seq<Seq<i64>> {
    seq![
        seq![cos_r, 0i64, sin_r, 0i64],
        seq![0i64, FX_ONE, 0i64, 0i64],
        seq![fx_neg(sin_r), 0i64, cos_r, 0i64],
        seq![0i64, 0i64, 0i64, FX_ONE],
    ]
}

pub open spec fn spec_rotation_z(sin_r: i64, cos_r: i64) -> Seq<Seq<i64>> {
    seq![
        seq![cos_r, fx_neg(sin_r), 0i64, 0i64],
        seq![sin_r, cos_r, 0i64, 0i64],
        seq![0i64, 0i64, FX_ONE, 0i64],
        seq![0i64, 0i64, 0i64, FX_ONE],
    ]
}

pub open spec fn spec_shearing(xy: i64, xz: i64, yx: i64, yz: i64, zx: i64, zy: i64) -> Seq<
    Seq<i64>,
> {
    seq![
        seq![FX_ONE, xy, xz, 0i64],
        seq![yx, FX_ONE, yz, 0i64],
        seq![zx, zy, FX_ONE, 0i64],
        seq![0i64, 0i64, 0i64, FX_ONE],
    ]
}

/// The camera orientation matrix for a view from `from` toward `to` with
/// the given up hint, composed with a translation by `-from`.
pub open spec fn spec_view_transform(from: Tuple, to: Tuple, up: Tuple) -> Seq<Seq<i64>> {
    let forward = spec_normalize(spec_sub(to, from));
    let upn = spec_normalize(up);
    let left = spec_cross(forward, upn);
    let true_up = spec_cross(left, forward);
    let orientation = seq![
        seq![left.x, left.y, left.z, 0i64],
        seq![true_up.x, true_up.y, true_up.z, 0i64],
        seq![fx_neg(forward.x), fx_neg(forward.y), fx_neg(forward.z), 0i64],
        seq![0i64, 0i64, 0i64, FX_ONE],
    ];
    spec_mat_mul(
        orientation,
        spec_mat_mul(
            spec_translation(fx_neg(from.x), fx_neg(from.y), fx_neg(from.z)),
            spec_identity(),
        ),
    )
}

/// The inverse of a translation is the opposite translation — exactly:
/// every cofactor and the determinant of a translation matrix evaluate
/// without rounding.
pub proof fn lemma_translation_inverse(x: i64, y: i64, z: i64)
    requires
        -FX_MAX <= x,
        -FX_MAX <= y,
        -FX_MAX <= z,
    ensures
        spec_inverse(spec_translation(x, y, z)) == spec_translation(
            fx_neg(x),
            fx_neg(y),
            fx_neg(z),
        ),
{
    reveal(spec_inverse);
    reveal_with_fuel(spec_det, 4);
    reveal_with_fuel(spec_det_sum, 6);
    reveal_with_fuel(spec_minor, 4);
    reveal_with_fuel(spec_cofactor, 4);
    lemma_fx_mul_one(FX_ONE);
    lemma_fx_mul_zero(FX_ONE);
    lemma_fx_mul_zero(0i64);
    lemma_fx_mul_one(x);
    lemma_fx_mul_one(y);
    lemma_fx_mul_one(z);
    lemma_fx_mul_zero(x);
    lemma_fx_mul_zero(y);
    lemma_fx_mul_zero(z);
    lemma_fx_mul_one(fx_neg(y));
    let t = spec_translation(x, y, z);
    assert forall|r: int, c: int| 0 <= r < 4 && 0 <= c < 4 implies spec_minor(t, r, c)
        == spec_minor_of_translation(x, y, z, r, c) by {
        let sub = spec_submatrix(t, r, c);
        assert(sub.len() == 3);
        lemma_fx_mul_zero(spec_cofactor(sub, 0, 0));
        lemma_fx_mul_zero(spec_cofactor(sub, 0, 1));
        lemma_fx_mul_zero(spec_cofactor(sub, 0, 2));
        if r == 3 && c == 1 {
            assert(spec_cofactor(sub, 0, 0) == fx_neg(y));
            assert(spec_minor(t, r, c) == fx_neg(y));
        } else if r == 3 && c == 2 {
            assert(spec_cofactor(sub, 0, 0) == z);
            assert(spec_minor(t, r, c) == z);
        } else {
            assert(spec_minor(t, r, c) == spec_minor_of_translation(x, y, z, r, c));
        }
    }
    lemma_fx_mul_zero(spec_cofactor(t, 0, 1));
    lemma_fx_mul_zero(spec_cofactor(t, 0, 2));
    assert(spec_minor(t, 0, 0) == FX_ONE);
    assert(spec_cofactor(t, 0, 0) == FX_ONE);
    assert(spec_cofactor(t, 0, 3) == fx_neg(spec_minor(t, 0, 3)));
    assert(spec_cofactor(t, 0, 3) == 0);
    assert(spec_det_sum(t, 1) == FX_ONE);
    assert(spec_det_sum(t, 2) == FX_ONE);
    assert(spec_det_sum(t, 3) == FX_ONE);
    assert(spec_det_sum(t, 4) == FX_ONE);
    assert(spec_det(t) == FX_ONE);
    lemma_fx_div_one(FX_ONE);
    lemma_fx_div_one(0i64);
    lemma_fx_div_one(fx_neg(x));
    lemma_fx_div_one(fx_neg(y));
    lemma_fx_div_one(fx_neg(z));
    let target = spec_translation(fx_neg(x), fx_neg(y), fx_neg(z));
    assert forall|i: int, j: int| 0 <= i < 4 && 0 <= j < 4 implies spec_inverse(t)[i][j]
        == target[i][j] by {
        assert(spec_inverse(t)[i][j] == fx_div(spec_cofactor(t, j, i), spec_det(t)));
        assert(spec_minor(t, j, i) == spec_minor_of_translation(x, y, z, j, i));
        if j == 3 && i == 0 {
            assert(spec_cofactor(t, 3, 0) == fx_neg(x));
        } else if j == 3 && i == 1 {
            assert(spec_cofactor(t, 3, 1) == fx_neg(y));
        } else if j == 3 && i == 2 {
            assert(spec_cofactor(t, 3, 2) == fx_neg(z));
        } else if i == j {
            assert(spec_cofactor(t, j, i) == FX_ONE);
        } else {
            assert(spec_minor(t, j, i) == 0);
            assert(spec_cofactor(t, j, i) == 0);
        }
    }
    assert(spec_inverse(t) =~~= target);
}

/// The minor grid of a translation matrix: ones on the diagonal, the
/// (possibly sign-flipped) offsets in the bottom row, zero elsewhere.
pub open spec fn spec_minor_of_translation(x: i64, y: i64, z: i64, r: int, c: int) -> i64 {
    if r == c {
        FX_ONE
    } else if r == 3 && c == 0 {
        x
    } else if r == 3 && c == 1 {
        fx_neg(y)
    } else if r == 3 && c == 2 {
        z
    } else {
        0i64
    }
}

/// A translation multiplied by its inverse is the identity — exactly, not
/// merely within tolerance.
pub proof fn lemma_translation_times_inverse(x: i64, y: i64, z: i64)
    requires
        -FX_MAX <= x,
        -FX_MAX <= y,
        -FX_MAX <= z,
    ensures
        spec_mat_mul(spec_translation(x, y, z), spec_inverse(spec_translation(x, y, z)))
            == spec_identity(),
{
    lemma_translation_inverse(x, y, z);
    reveal(spec_mat_mul);
    reveal_with_fuel(crate::matrix::spec_mat_mul_dot, 6);
    lemma_fx_mul_one(FX_ONE);
    lemma_fx_mul_zero(FX_ONE);
    lemma_fx_mul_zero(0i64);
    lemma_fx_mul_one(x);
    lemma_fx_mul_one(y);
    lemma_fx_mul_one(z);
    lemma_fx_mul_zero(x);
    lemma_fx_mul_zero(y);
    lemma_fx_mul_zero(z);
    lemma_fx_mul_one(fx_neg(x));
    lemma_fx_mul_one(fx_neg(y));
    lemma_fx_mul_one(fx_neg(z));
    lemma_fx_mul_zero(fx_neg(x));
    lemma_fx_mul_zero(fx_neg(y));
    lemma_fx_mul_zero(fx_neg(z));
    let t = spec_translation(x, y, z);
    let inv = spec_translation(fx_neg(x), fx_neg(y), fx_neg(z));
    assert forall|i: int, j: int| 0 <= i < 4 && 0 <= j < 4 implies crate::matrix::spec_mat_mul_dot(
        t,
        inv,
        i,
        j,
        4,
    ) == spec_identity()[i][j] by {
        if i == 0 && j == 3 {
            assert(fx_add(fx_neg(x), x) == 0);
            assert(crate::matrix::spec_mat_mul_dot(t, inv, i, j, 4) == 0);
        } else if i == 1 && j == 3 {
            assert(fx_add(fx_neg(y), y) == 0);
            assert(crate::matrix::spec_mat_mul_dot(t, inv, i, j, 4) == 0);
        } else if i == 2 && j == 3 {
            assert(fx_add(fx_neg(z), z) == 0);
            assert(crate::matrix::spec_mat_mul_dot(t, inv, i, j, 4) == 0);
        } else if i == j {
            assert(crate::matrix::spec_mat_mul_dot(t, inv, i, j, 4) == FX_ONE);
        } else {
            assert(crate::matrix::spec_mat_mul_dot(t, inv, i, j, 4) == 0);
        }
    }
    assert(spec_mat_mul(t, inv) =~~= spec_identity());
}

/// Applying a translation and then its inverse gives back the starting
/// tuple exactly, for any point or vector whose coordinates stay in range
/// after the translation.
pub proof fn lemma_translation_round_trip(x: i64, y: i64, z: i64, p: Tuple)
    requires
        iabs(p.x as int) + iabs(x as int) <= FX_MAX,
        iabs(p.y as int) + iabs(y as int) <= FX_MAX,
        iabs(p.z as int) + iabs(z as int) <= FX_MAX,
        p.w == FX_ONE || p.w == 0,
    ensures
        spec_tuple_mul(
            spec_inverse(spec_translation(x, y, z)),
            spec_tuple_mul(spec_translation(x, y, z), p),
        ) == p,
{
    lemma_translation_inverse(x, y, z);
    lemma_fx_mul_one(FX_ONE);
    lemma_fx_mul_zero(FX_ONE);
    lemma_fx_mul_one(p.x);
    lemma_fx_mul_one(p.y);
    lemma_fx_mul_one(p.z);
    lemma_fx_mul_zero(p.x);
    lemma_fx_mul_zero(p.y);
    lemma_fx_mul_zero(p.z);
    lemma_fx_mul_one(x);
    lemma_fx_mul_one(y);
    lemma_fx_mul_one(z);
    lemma_fx_mul_zero(x);
    lemma_fx_mul_zero(y);
    lemma_fx_mul_zero(z);
    lemma_fx_mul_one(fx_neg(x));
    lemma_fx_mul_one(fx_neg(y));
    lemma_fx_mul_one(fx_neg(z));
    lemma_fx_mul_zero(fx_neg(x));
    lemma_fx_mul_zero(fx_neg(y));
    lemma_fx_mul_zero(fx_neg(z));
    let q = spec_tuple_mul(spec_translation(x, y, z), p);
    if p.w == FX_ONE {
        assert(q.x == fx_add(p.x, x) && q.y == fx_add(p.y, y) && q.z == fx_add(p.z, z) && q.w
            == FX_ONE);
        lemma_fx_mul_one(fx_add(p.x, x));
        lemma_fx_mul_one(fx_add(p.y, y));
        lemma_fx_mul_one(fx_add(p.z, z));
        lemma_fx_mul_zero(fx_add(p.x, x));
        lemma_fx_mul_zero(fx_add(p.y, y));
        lemma_fx_mul_zero(fx_add(p.z, z));
    } else {
        assert(q == p);
    }
}

impl Transform {
    pub fn new() -> (r: Transform)
        ensures
            r.matrix@ == spec_identity(),
            transform_wf(r),
    {
        Transform { matrix: Matrix::identity_matrix() }
    }

    pub fn approx_eq(&self, other: &Transform) -> (r: bool)
        ensures
            r == spec_mat_near(self.matrix@, other.matrix@),
    {
        self.matrix.approx_eq(&other.matrix)
    }

    pub fn transform(&self, t: &Tuple) -> (r: Tuple)
        requires
            transform_wf(*self),
        ensures
            r == spec_tuple_mul(self.matrix@, *t),
    {
        self.matrix.tuple_multiply(t)
    }

    pub fn transform_ray(&self, r: &Ray) -> (res: Ray)
        requires
            transform_wf(*self),
        ensures
            res.origin == spec_tuple_mul(self.matrix@, r.origin),
            res.direction == spec_tuple_mul(self.matrix@, r.direction),
    {
        Ray { origin: self.transform(&r.origin), direction: self.transform(&r.direction) }
    }

    pub fn translate(&self, x: i64, y: i64, z: i64) -> (r: Transform)
        requires
            transform_wf(*self),
        ensures
            r.matrix@ == spec_mat_mul(spec_translation(x, y, z), self.matrix@),
            transform_wf(r),
    {
        let mut matrix = Matrix::identity_matrix();
        matrix.set(0, 3, x);
        matrix.set(1, 3, y);
        matrix.set(2, 3, z);
        proof {
            assert(matrix@ =~~= spec_translation(x, y, z));
        }
        Transform { matrix: matrix.matrix_multiply(&self.matrix) }
    }

    pub fn scale(&self, x: i64, y: i64, z: i64) -> (r: Transform)
        requires
            transform_wf(*self),
        ensures
            r.matrix@ == spec_mat_mul(spec_scaling(x, y, z), self.matrix@),
            transform_wf(r),
    {
        let mut matrix = Matrix::identity_matrix();
        matrix.set(0, 0, x);
        matrix.set(1, 1, y);
        matrix.set(2, 2, z);
        proof {
            assert(matrix@ =~~= spec_scaling(x, y, z));
        }
        Transform { matrix: matrix.matrix_multiply(&self.matrix) }
    }

    pub fn rotate_x(&self, sin_r: i64, cos_r: i64) -> (r: Transform)
        requires
            transform_wf(*self),
        ensures
            r.matrix@ == spec_mat_mul(spec_rotation_x(sin_r, cos_r), self.matrix@),
            transform_wf(r),
    {
        let mut matrix = Matrix::identity_matrix();
        matrix.set(1, 1, cos_r);
        matrix.set(1, 2, fx_neg(sin_r));
        matrix.set(2, 1, sin_r);
        matrix.set(2, 2, cos_r);
        proof {
            assert(matrix@ =~~= spec_rotation_x(sin_r, cos_r));
        }
        Transform { matrix: matrix.matrix_multiply(&self.matrix) }
    }

    pub fn rotate_y(&self, sin_r: i64, cos_r: i64) -> (r: Transform)
        requires
            transform_wf(*self),
        ensures
            r.matrix@ == spec_mat_mul(spec_rotation_y(sin_r, cos_r), self.matrix@),
            transform_wf(r),
    {
        let mut matrix = Matrix::identity_matrix();
        matrix.set(0, 0, cos_r);
        matrix.set(0, 2, sin_r);
        matrix.set(2, 0, fx_neg(sin_r));
        matrix.set(2, 2, cos_r);
        proof {
            assert(matrix@ =~~= spec_rotation_y(sin_r, cos_r));
        }
        Transform { matrix: matrix.matrix_multiply(&self.matrix) }
    }

    pub fn rotate_z(&self, sin_r: i64, cos_r: i64) -> (r: Transform)
        requires
            transform_wf(*self),
        ensures
            r.matrix@ == spec_mat_mul(spec_rotation_z(sin_r, cos_r), self.matrix@),
            transform_wf(r),
    {
        let mut matrix = Matrix::identity_matrix();
        matrix.set(0, 0, cos_r);
        matrix.set(0, 1, fx_neg(sin_r));
        matrix.set(1, 0, sin_r);
        matrix.set(1, 1, cos_r);
        proof {
            assert(matrix@ =~~= spec_rotation_z(sin_r, cos_r));
        }
        Transform { matrix: matrix.matrix_multiply(&self.matrix) }
    }

    pub fn shear(&self, xy: i64, xz: i64, yx: i64, yz: i64, zx: i64, zy: i64) -> (r: Transform)
        requires
            transform_wf(*self),
        ensures
            r.matrix@ == spec_mat_mul(spec_shearing(xy, xz, yx, yz, zx, zy), self.matrix@),
            transform_wf(r),
    {
        let mut matrix = Matrix::identity_matrix();
        matrix.set(0, 1, xy);
        matrix.set(0, 2, xz);
        matrix.set(1, 0, yx);
        matrix.set(1, 2, yz);
        matrix.set(2, 0, zx);
        matrix.set(2, 1, zy);
        proof {
            assert(matrix@ =~~= spec_shearing(xy, xz, yx, yz, zx, zy));
        }
        Transform { matrix: matrix.matrix_multiply(&self.matrix) }
    }

    /// Inverse of the underlying matrix; callers must have checked that the
    /// transform is invertible.
    pub fn inverse(&self) -> (r: Transform)
        requires
            transform_invertible(*self),
        ensures
            r.matrix@ == spec_inverse(self.matrix@),
            transform_wf(r),
    {
        Transform { matrix: self.matrix.inverse() }
    }

    pub fn transpose(&self) -> (r: Transform)
        requires
            transform_wf(*self),
        ensures
            r.matrix@ == spec_transpose(self.matrix@),
            transform_wf(r),
    {
        Transform { matrix: self.matrix.transpose() }
    }

    pub fn view_transform(from: &Tuple, to: &Tuple, up: &Tuple) -> (r: Transform)
        ensures
            r.matrix@ == spec_view_transform(*from, *to, *up),
            transform_wf(r),
    {
        let forward = to.sub(from).normalize();
        let upn = up.normalize();
        let left = forward.cross_product(&upn);
        let true_up = left.cross_product(&forward);
        let mut orientation = Matrix::identity_matrix();
        orientation.set(0, 0, left.x);
        orientation.set(0, 1, left.y);
        orientation.set(0, 2, left.z);
        orientation.set(1, 0, true_up.x);
        orientation.set(1, 1, true_up.y);
        orientation.set(1, 2, true_up.z);
        orientation.set(2, 0, fx_neg(forward.x));
        orientation.set(2, 1, fx_neg(forward.y));
        orientation.set(2, 2, fx_neg(forward.z));
        let translation = Transform::new().translate(fx_neg(from.x), fx_neg(from.y), fx_neg(from.z));
        proof {
            assert(orientation@ =~~= seq![
                seq![left.x, left.y, left.z, 0i64],
                seq![true_up.x, true_up.y, true_up.z, 0i64],
                seq![fx_neg(forward.x), fx_neg(forward.y), fx_neg(forward.z), 0i64],
                seq![0i64, 0i64, 0i64, FX_ONE],
            ]);
        }
        Transform { matrix: orientation.matrix_multiply(&translation.matrix) }
    }
}

impl Default for Transform {
    /// The identity transform.
    fn default() -> (r: Self)
        ensures
            r.matrix@ == spec_identity(),
            transform_wf(r),
    {
        Transform::new()
    }
}

} // verus!
