//! Three-by-three matrices, stored row by row.
//!
//! A matrix is viewed as the sequence of its nine entries: entry `(i, j)` stands
//! at index `3 * i + j`. The specification functions of this module work on
//! such sequences, so that they compose.

use crate::scalar::Scalar;
use crate::vector::Vector;
use vstd::prelude::*;

verus! {

/// Entry `(i, j)` of the matrix `m`.
pub open spec fn entry<S: Scalar>(m: Seq<S>, i: int, j: int) -> S {
    m[3 * i + j]
}

/// The transpose of `m`: entry `(i, j)` of the result is entry `(j, i)` of `m`.
pub open spec fn transposed<S: Scalar>(m: Seq<S>) -> Seq<S> {
    Seq::new(9, |k: int| entry(m, k % 3, k / 3))
}

/// Entry `(i, j)` of the product `a b`: row `i` of `a` times column `j` of `b`,
/// the three products summed from left to right.
pub open spec fn product_entry<S: Scalar>(a: Seq<S>, b: Seq<S>, i: int, j: int) -> S {
    entry(a, i, 0).product(entry(b, 0, j)).sum(entry(a, i, 1).product(entry(b, 1, j))).sum(
        entry(a, i, 2).product(entry(b, 2, j)),
    )
}

/// The matrix product `a b`.
pub open spec fn multiplied<S: Scalar>(a: Seq<S>, b: Seq<S>) -> Seq<S> {
    Seq::new(9, |k: int| product_entry(a, b, k / 3, k % 3))
}

/// Row `i` of `m` times the vector `v`.
pub open spec fn row_dot<S: Scalar>(m: Seq<S>, i: int, v: Vector<S>) -> S {
    entry(m, i, 0).product(v.x).sum(entry(m, i, 1).product(v.y)).sum(entry(m, i, 2).product(v.z))
}

/// The matrix-vector product `m v`.
pub open spec fn applied<S: Scalar>(m: Seq<S>, v: Vector<S>) -> Vector<S> {
    Vector { x: row_dot(m, 0, v), y: row_dot(m, 1, v), z: row_dot(m, 2, v) }
}

/// The smaller of the two indices in `0..3` other than `i`.
pub open spec fn low_other(i: int) -> int {
    if i == 0 {
        1
    } else {
        0
    }
}

/// The larger of the two indices in `0..3` other than `i`.
pub open spec fn high_other(i: int) -> int {
    if i == 2 {
        1
    } else {
        2
    }
}

/// The determinant of what is left of `m` without row `i` and column `j`.
pub open spec fn minor<S: Scalar>(m: Seq<S>, i: int, j: int) -> S {
    entry(m, low_other(i), low_other(j)).product(entry(m, high_other(i), high_other(j))).difference(
        entry(m, low_other(i), high_other(j)).product(entry(m, high_other(i), low_other(j))),
    )
}

/// The cofactor of entry `(i, j)`: the minor, negated where `i + j` is odd.
pub open spec fn cofactor<S: Scalar>(m: Seq<S>, i: int, j: int) -> S {
    if (i + j) % 2 == 0 {
        minor(m, i, j)
    } else {
        minor(m, i, j).negation()
    }
}

/// The determinant of `m`, expanded along its first row.
pub open spec fn determinant<S: Scalar>(m: Seq<S>) -> S {
    entry(m, 0, 0).product(cofactor(m, 0, 0)).sum(entry(m, 0, 1).product(cofactor(m, 0, 1))).sum(
        entry(m, 0, 2).product(cofactor(m, 0, 2)),
    )
}

/// Whether `m` is refused as singular: the absolute value of its determinant
/// does not exceed the tolerance.
pub open spec fn singular<S: Scalar>(m: Seq<S>) -> bool {
    !determinant(m).absolute().exceeds(S::tolerance())
}

/// The inverse of `m` by its adjugate: entry `(i, j)` is the cofactor of entry
/// `(j, i)` times the reciprocal of the determinant.
pub open spec fn inverted<S: Scalar>(m: Seq<S>) -> Seq<S> {
    Seq::new(
        9,
        |k: int| cofactor(m, k % 3, k / 3).product(S::of_int(1).quotient(determinant(m))),
    )
}

/// The identity matrix.
pub open spec fn identity<S: Scalar>() -> Seq<S> {
    Seq::new(
        9,
        |k: int|
            if k / 3 == k % 3 {
                S::of_int(1)
            } else {
                S::of_int(0)
            },
    )
}

/// A three-by-three matrix.
#[derive(Clone, Copy, Debug)]
pub struct Matrix<S: Scalar> {
    // row-major elements
    elems: [S; 9],
}

impl<S: Scalar> View for Matrix<S> {
    type V = Seq<S>;

    closed spec fn view(&self) -> Seq<S> {
        self.elems@
    }
}

impl<S: Scalar> Matrix<S> {
    /// The view of a matrix always has nine entries.
    pub proof fn lemma_len(self)
        ensures
            self@.len() == 9,
    {
    }

    /// The matrix of the nine entries `s`.
    pub closed spec fn of_entries(s: Seq<S>) -> Self {
        Matrix { elems: [s[0], s[1], s[2], s[3], s[4], s[5], s[6], s[7], s[8]] }
    }

    /// The entries of [`Matrix::of_entries`] are the ones given.
    pub proof fn lemma_of_entries(s: Seq<S>)
        requires
            s.len() == 9,
        ensures
            Self::of_entries(s)@ == s,
    {
        assert(Self::of_entries(s)@ =~= s);
    }

    /// Two matrices of the same entries are the same matrix.
    pub proof fn lemma_same_entries(a: Self, b: Self)
        requires
            a@ == b@,
        ensures
            a == b,
    {
        assert(a.elems =~= b.elems);
    }

    /// The matrix of the nine given entries, row by row.
    pub fn new(elems: [S; 9]) -> (r: Self)
        ensures
            r@ == elems@,
    {
        Matrix { elems }
    }

    /// The identity matrix.
    pub fn identity() -> (r: Self)
        ensures
            r@ == identity::<S>(),
    {
        let o = S::from_int(1);
        let z = S::from_int(0);
        let r = Matrix { elems: [o, z, z, z, o, z, z, z, o] };
        assert(r@ =~= identity::<S>());
        r
    }

    /// Entry `(i, j)`.
    pub fn at(&self, i: usize, j: usize) -> (r: S)
        requires
            i < 3,
            j < 3,
        ensures
            r == entry(self@, i as int, j as int),
    {
        self.elems[3 * i + j]
    }

    /// The transpose.
    pub fn transpose(&self) -> (r: Self)
        ensures
            r@ == transposed(self@),
    {
        let r = Matrix {
            elems: [
                self.elems[0],
                self.elems[3],
                self.elems[6],
                self.elems[1],
                self.elems[4],
                self.elems[7],
                self.elems[2],
                self.elems[5],
                self.elems[8],
            ],
        };
        assert(r@ =~= transposed(self@));
        r
    }

    fn product_at(&self, rhs: &Self, i: usize, j: usize) -> (r: S)
        requires
            i < 3,
            j < 3,
        ensures
            r == product_entry(self@, rhs@, i as int, j as int),
    {
        self.elems[3 * i].times(rhs.elems[j]).plus(
            self.elems[3 * i + 1].times(rhs.elems[3 + j]),
        ).plus(self.elems[3 * i + 2].times(rhs.elems[6 + j]))
    }

    /// The matrix product `self rhs`.
    pub fn mul(&self, rhs: &Self) -> (r: Self)
        ensures
            r@ == multiplied(self@, rhs@),
    {
        let r = Matrix {
            elems: [
                self.product_at(rhs, 0, 0),
                self.product_at(rhs, 0, 1),
                self.product_at(rhs, 0, 2),
                self.product_at(rhs, 1, 0),
                self.product_at(rhs, 1, 1),
                self.product_at(rhs, 1, 2),
                self.product_at(rhs, 2, 0),
                self.product_at(rhs, 2, 1),
                self.product_at(rhs, 2, 2),
            ],
        };
        assert(r@ =~= multiplied(self@, rhs@));
        r
    }

    fn row_times(&self, i: usize, v: &Vector<S>) -> (r: S)
        requires
            i < 3,
        ensures
            r == row_dot(self@, i as int, *v),
    {
        self.elems[3 * i].times(v.x).plus(self.elems[3 * i + 1].times(v.y)).plus(
            self.elems[3 * i + 2].times(v.z),
        )
    }

    /// The matrix-vector product `self v`.
    pub fn apply(&self, v: &Vector<S>) -> (r: Vector<S>)
        ensures
            r == applied(self@, *v),
    {
        Vector { x: self.row_times(0, v), y: self.row_times(1, v), z: self.row_times(2, v) }
    }

    fn cofactor_at(&self, i: usize, j: usize) -> (r: S)
        requires
            i < 3,
            j < 3,
        ensures
            r == cofactor(self@, i as int, j as int),
    {
        let i1: usize = if i == 0 {
            1
        } else {
            0
        };
        let i2: usize = if i == 2 {
            1
        } else {
            2
        };
        let j1: usize = if j == 0 {
            1
        } else {
            0
        };
        let j2: usize = if j == 2 {
            1
        } else {
            2
        };
        let m = self.elems[3 * i1 + j1].times(self.elems[3 * i2 + j2]).minus(
            self.elems[3 * i1 + j2].times(self.elems[3 * i2 + j1]),
        );
        if (i + j) % 2 == 0 {
            m
        } else {
            m.negated()
        }
    }

    /// The determinant, expanded along the first row.
    pub fn det(&self) -> (r: S)
        ensures
            r == determinant(self@),
    {
        self.elems[0].times(self.cofactor_at(0, 0)).plus(
            self.elems[1].times(self.cofactor_at(0, 1)),
        ).plus(self.elems[2].times(self.cofactor_at(0, 2)))
    }

    /// The inverse by cofactors, or `None` where the absolute value of the
    /// determinant does not exceed the tolerance.
    pub fn inverse(&self) -> (r: Option<Self>)
        ensures
            r is None <==> singular(self@),
            r matches Some(inv) ==> inv@ == inverted(self@),
    {
        let m = self.det();
        if m.abs().gt(S::epsilon()) {
            let im = S::from_int(1).over(m);
            let inv = Matrix {
                elems: [
                    self.cofactor_at(0, 0).times(im),
                    self.cofactor_at(1, 0).times(im),
                    self.cofactor_at(2, 0).times(im),
                    self.cofactor_at(0, 1).times(im),
                    self.cofactor_at(1, 1).times(im),
                    self.cofactor_at(2, 1).times(im),
                    self.cofactor_at(0, 2).times(im),
                    self.cofactor_at(1, 2).times(im),
                    self.cofactor_at(2, 2).times(im),
                ],
            };
            assert(inv@ =~= inverted(self@));
            Some(inv)
        } else {
            None
        }
    }
}

} // verus!
