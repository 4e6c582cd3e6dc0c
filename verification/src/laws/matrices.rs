//! Laws of the matrices: products and transposes by their values, and the
//! inverse.

use crate::exact::{all_exact, group_exact, values, Exact, VectorValue};
use crate::laws::algebra::{
    inverse_pair, lemma_adjugate_left, lemma_adjugate_right, lemma_inverse_unique,
    row_by_column,
};
use crate::matrix::{
    applied, cofactor, determinant, inverted, multiplied, singular, transposed,
};
use crate::vector::Vector;
use vstd::prelude::*;

verus! {

/// The product of a matrix of real numbers and a vector of real numbers.
pub open spec fn applied_values(m: Seq<real>, v: VectorValue) -> VectorValue {
    VectorValue {
        x: m[0] * v.x + m[1] * v.y + m[2] * v.z,
        y: m[3] * v.x + m[4] * v.y + m[5] * v.z,
        z: m[6] * v.x + m[7] * v.y + m[8] * v.z,
    }
}

/// An exact matrix-vector product has exact factors, and its value is the
/// product of their values.
#[verifier::spinoff_prover]
pub proof fn law_applied_values<S: Exact>(m: Seq<S>, v: Vector<S>)
    requires
        m.len() == 9,
        applied(m, v).exact(),
    ensures
        all_exact(m),
        v.exact(),
        applied(m, v).value() == applied_values(values(m), v.value()),
{
    broadcast use group_exact;

    assert(m[0].exact() && m[1].exact() && m[2].exact() && m[3].exact() && m[4].exact()
        && m[5].exact() && m[6].exact() && m[7].exact() && m[8].exact());
}

/// The product of two matrices of real numbers.
pub open spec fn multiplied_values(a: Seq<real>, b: Seq<real>) -> Seq<real> {
    Seq::new(
        9,
        |k: int|
            a[3 * (k / 3)] * b[k % 3] + a[3 * (k / 3) + 1] * b[3 + k % 3] + a[3 * (k / 3) + 2] * b[6
                + k % 3],
    )
}

/// The identity matrix of real numbers.
pub open spec fn identity_values() -> Seq<real> {
    seq![1real, 0real, 0real, 0real, 1real, 0real, 0real, 0real, 1real]
}

/// An exact matrix product has exact factors, and its value is the product
/// of their values.
#[verifier::spinoff_prover]
pub proof fn law_multiplied_values<S: Exact>(a: Seq<S>, b: Seq<S>)
    requires
        a.len() == 9,
        b.len() == 9,
        all_exact(multiplied(a, b)),
    ensures
        all_exact(a),
        all_exact(b),
        values(multiplied(a, b)) == multiplied_values(values(a), values(b)),
{
    let c = multiplied(a, b);
    assert(c[0].exact() && c[1].exact() && c[2].exact() && c[3].exact() && c[4].exact()
        && c[5].exact() && c[6].exact() && c[7].exact() && c[8].exact());
    assert(all_exact(a) && all_exact(b) && values(c) =~= multiplied_values(values(a), values(b)))
        by {
        broadcast use group_exact;

    }
}

/// The values of a transpose are the transpose of the values.
#[verifier::spinoff_prover]
pub proof fn law_transposed_values<S: Exact>(a: Seq<S>)
    requires
        a.len() == 9,
    ensures
        all_exact(transposed(a)) == all_exact(a),
        values(transposed(a)) == Seq::new(9, |k: int| values(a)[3 * (k % 3) + k / 3]),
{
    let t = transposed(a);
    assert(t[0] == a[0] && t[1] == a[3] && t[2] == a[6] && t[3] == a[1] && t[4] == a[4] && t[5]
        == a[7] && t[6] == a[2] && t[7] == a[5] && t[8] == a[8]);
    assert(values(t) =~= Seq::new(9, |k: int| values(a)[3 * (k % 3) + k / 3]));
    if all_exact(a) {
        assert(all_exact(t));
    }
    if all_exact(t) {
        assert(t[0].exact() && t[1].exact() && t[2].exact() && t[3].exact() && t[4].exact()
            && t[5].exact() && t[6].exact() && t[7].exact() && t[8].exact());
        assert(all_exact(a));
    }
}

/// The cofactors of a matrix of real numbers, row by row.
pub open spec fn cofactors_of(m: Seq<real>) -> Seq<real> {
    seq![
        m[4] * m[8] - m[5] * m[7],
        -(m[3] * m[8] - m[5] * m[6]),
        m[3] * m[7] - m[4] * m[6],
        -(m[1] * m[8] - m[2] * m[7]),
        m[0] * m[8] - m[2] * m[6],
        -(m[0] * m[7] - m[1] * m[6]),
        m[1] * m[5] - m[2] * m[4],
        -(m[0] * m[5] - m[2] * m[3]),
        m[0] * m[4] - m[1] * m[3],
    ]
}

/// The determinant of a matrix of real numbers, along its first row.
pub open spec fn determinant_of(m: Seq<real>) -> real {
    m[0] * cofactors_of(m)[0] + m[1] * cofactors_of(m)[1] + m[2] * cofactors_of(m)[2]
}

/// The reciprocal of the determinant that the inverse of `a` is scaled by.
pub open spec fn reciprocal<S: Exact>(a: Seq<S>) -> S {
    S::of_int(1).quotient(determinant(a))
}

/// An exact inverse comes from an exact matrix whose determinant has an
/// exact reciprocal, and its entries are the transposed cofactors times
/// that reciprocal.
#[verifier::spinoff_prover]
pub proof fn law_inverted_values<S: Exact>(a: Seq<S>)
    requires
        a.len() == 9,
        all_exact(inverted(a)),
    ensures
        all_exact(a),
        reciprocal(a).exact(),
        reciprocal(a).value() * determinant_of(values(a)) == 1real,
        values(inverted(a)) == Seq::new(
            9,
            |k: int| cofactors_of(values(a))[3 * (k % 3) + k / 3] * reciprocal(a).value(),
        ),
{
    let b = inverted(a);
    let m = values(a);
    let im = reciprocal(a);
    assert(b[0].exact() && b[1].exact() && b[2].exact() && b[3].exact() && b[4].exact()
        && b[5].exact() && b[6].exact() && b[7].exact() && b[8].exact());
    assert(b[0] == cofactor(a, 0, 0).product(im) && b[1] == cofactor(a, 1, 0).product(im) && b[2]
        == cofactor(a, 2, 0).product(im) && b[3] == cofactor(a, 0, 1).product(im) && b[4]
        == cofactor(a, 1, 1).product(im) && b[5] == cofactor(a, 2, 1).product(im) && b[6]
        == cofactor(a, 0, 2).product(im) && b[7] == cofactor(a, 1, 2).product(im) && b[8]
        == cofactor(a, 2, 2).product(im));
    let k = cofactors_of(m);
    assert(im.exact() && all_exact(a) && cofactor(a, 0, 0).value() == k[0] && cofactor(
        a,
        0,
        1,
    ).value() == k[1] && cofactor(a, 0, 2).value() == k[2] && cofactor(a, 1, 0).value() == k[3]
        && cofactor(a, 1, 1).value() == k[4] && cofactor(a, 1, 2).value() == k[5] && cofactor(
        a,
        2,
        0,
    ).value() == k[6] && cofactor(a, 2, 1).value() == k[7] && cofactor(a, 2, 2).value() == k[8])
        by {
        broadcast use group_exact;

    }
    assert(determinant(a).exact() && determinant(a).value() == determinant_of(m) && im.value()
        * determinant(a).value() == 1real) by {
        broadcast use group_exact;

    }
    assert(values(b) =~= Seq::new(
        9,
        |k: int| cofactors_of(m)[3 * (k % 3) + k / 3] * im.value(),
    )) by {
        broadcast use group_exact;

    }
}

/// The values of a matrix and of its exact inverse multiply to the identity.
#[verifier::spinoff_prover]
proof fn lemma_inverse_pair<S: Exact>(a: Seq<S>)
    requires
        a.len() == 9,
        all_exact(inverted(a)),
    ensures
        inverse_pair(values(a), values(inverted(a))),
{
    law_inverted_values(a);
    let m = values(a);
    let n = values(inverted(a));
    let k = cofactors_of(m);
    let im = reciprocal(a).value();
    assert(n[0] == k[0] * im && n[1] == k[3] * im && n[2] == k[6] * im && n[3] == k[1] * im
        && n[4] == k[4] * im && n[5] == k[7] * im && n[6] == k[2] * im && n[7] == k[5] * im
        && n[8] == k[8] * im);
    lemma_adjugate_right(m[0], m[1], m[2], m[3], m[4], m[5], m[6], m[7], m[8], im);
}

/// A matrix that is not refused as singular has a determinant other than
/// zero, where the comparison was made on exact scalars.
#[verifier::spinoff_prover]
pub proof fn law_accepted_determinant<S: Exact>(a: Seq<S>)
    requires
        a.len() == 9,
        determinant(a).absolute().exact(),
        S::tolerance().exact(),
        !singular(a),
    ensures
        all_exact(a),
        determinant_of(values(a)) != 0real,
{
    S::lemma_absolute(determinant(a));
    S::lemma_exceeds(determinant(a).absolute(), S::tolerance());
    S::lemma_tolerance();
    assert(all_exact(a) && determinant(a).value() == determinant_of(values(a))) by {
        broadcast use group_exact;

    }
}

/// A matrix times its inverse is the identity.
#[verifier::spinoff_prover]
pub proof fn law_inverse_right<S: Exact>(a: Seq<S>)
    requires
        a.len() == 9,
        all_exact(multiplied(a, inverted(a))),
    ensures
        values(multiplied(a, inverted(a))) == identity_values(),
{
    let b = inverted(a);
    law_multiplied_values(a, b);
    lemma_inverse_pair(a);
    let m = values(a);
    let n = values(b);
    let c = multiplied_values(m, n);
    assert(c[0] == row_by_column(m, n, 0, 0));
    assert(c[1] == row_by_column(m, n, 0, 1));
    assert(c[2] == row_by_column(m, n, 0, 2));
    assert(c[3] == row_by_column(m, n, 1, 0));
    assert(c[4] == row_by_column(m, n, 1, 1));
    assert(c[5] == row_by_column(m, n, 1, 2));
    assert(c[6] == row_by_column(m, n, 2, 0));
    assert(c[7] == row_by_column(m, n, 2, 1));
    assert(c[8] == row_by_column(m, n, 2, 2));
    assert(c =~= identity_values());
}

/// The inverse of a matrix times the matrix is the identity.
#[verifier::spinoff_prover]
pub proof fn law_inverse_left<S: Exact>(a: Seq<S>)
    requires
        a.len() == 9,
        all_exact(multiplied(inverted(a), a)),
    ensures
        values(multiplied(inverted(a), a)) == identity_values(),
{
    let b = inverted(a);
    law_multiplied_values(b, a);
    law_inverted_values(a);
    let m = values(a);
    let n = values(b);
    let k = cofactors_of(m);
    let im = reciprocal(a).value();
    assert(n[0] == k[0] * im && n[1] == k[3] * im && n[2] == k[6] * im && n[3] == k[1] * im
        && n[4] == k[4] * im && n[5] == k[7] * im && n[6] == k[2] * im && n[7] == k[5] * im
        && n[8] == k[8] * im);
    lemma_adjugate_left(m[0], m[1], m[2], m[3], m[4], m[5], m[6], m[7], m[8], im);
    let c = multiplied_values(n, m);
    assert(c[0] == row_by_column(n, m, 0, 0));
    assert(c[1] == row_by_column(n, m, 0, 1));
    assert(c[2] == row_by_column(n, m, 0, 2));
    assert(c[3] == row_by_column(n, m, 1, 0));
    assert(c[4] == row_by_column(n, m, 1, 1));
    assert(c[5] == row_by_column(n, m, 1, 2));
    assert(c[6] == row_by_column(n, m, 2, 0));
    assert(c[7] == row_by_column(n, m, 2, 1));
    assert(c[8] == row_by_column(n, m, 2, 2));
    assert(c =~= identity_values());
}

/// The inverse of the inverse of a matrix is the matrix.
#[verifier::spinoff_prover]
pub proof fn law_inverse_of_inverse<S: Exact>(a: Seq<S>)
    requires
        a.len() == 9,
        all_exact(inverted(inverted(a))),
    ensures
        all_exact(a),
        values(inverted(inverted(a))) == values(a),
{
    let b = inverted(a);
    let c = inverted(b);
    law_inverted_values(b);
    law_inverted_values(a);
    lemma_inverse_pair(b);
    lemma_inverse_pair(a);
    lemma_inverse_unique(values(a), values(b), values(c));
}

} // verus!
