//! Laws of the quaternions: the products of the units, normalization, and
//! the rotation matrix of a unit quaternion.

use crate::exact::{all_exact, group_exact, values, Exact, QuaternionValue};
use crate::laws::algebra::{
    lemma_conjugation_w, lemma_conjugation_x, lemma_conjugation_y, lemma_conjugation_z,
    lemma_quotients_unit, lemma_root_of_one, lemma_rotation_rows, lemma_times_zero, lemma_twice,
};
use crate::laws::matrices::{
    identity_values, law_applied_values, law_multiplied_values, law_transposed_values,
    multiplied_values,
};
use crate::matrix::{applied, multiplied, transposed};
use crate::quaternion::Quaternion;
use crate::scalar::Scalar;
use crate::vector::Vector;
use vstd::prelude::*;

verus! {

impl<S: Scalar> Quaternion<S> {
    /// The unit `i`.
    pub open spec fn unit_i() -> Self {
        Self::spec_coords(S::of_int(1), S::of_int(0), S::of_int(0), S::of_int(0))
    }

    /// The unit `j`.
    pub open spec fn unit_j() -> Self {
        Self::spec_coords(S::of_int(0), S::of_int(1), S::of_int(0), S::of_int(0))
    }

    /// The unit `k`.
    pub open spec fn unit_k() -> Self {
        Self::spec_coords(S::of_int(0), S::of_int(0), S::of_int(1), S::of_int(0))
    }
}

/// The square of the norm of a quaternion of real numbers.
pub open spec fn norm_squared(q: QuaternionValue) -> real {
    q.x * q.x + q.y * q.y + q.z * q.z + q.w * q.w
}

/// The Hamilton product of two quaternions of real numbers.
pub open spec fn hamilton(p: QuaternionValue, q: QuaternionValue) -> QuaternionValue {
    QuaternionValue {
        x: p.w * q.x + p.x * q.w + p.y * q.z - p.z * q.y,
        y: p.w * q.y + p.y * q.w + p.z * q.x - p.x * q.z,
        z: p.w * q.z + p.z * q.w + p.x * q.y - p.y * q.x,
        w: p.w * q.w - p.x * q.x - p.y * q.y - p.z * q.z,
    }
}

/// An exact quaternion product has exact factors, and its value is the
/// Hamilton product of theirs.
#[verifier::spinoff_prover]
pub proof fn law_product_is_hamilton<S: Exact>(p: Quaternion<S>, q: Quaternion<S>)
    requires
        p.spec_mul(q).exact(),
    ensures
        p.exact(),
        q.exact(),
        p.spec_mul(q).value() == hamilton(p.value(), q.value()),
{
    broadcast use group_exact;

}

/// The units multiply as Hamilton's do: `i i = j j = k k = -1`, `i j = k`,
/// `j k = i`, `k i = j`, and in the other order `j i = -k`, `k j = -i`,
/// `i k = -j`.
#[verifier::spinoff_prover]
pub proof fn law_unit_products<S: Exact>()
    ensures
        ({
            let i = Quaternion::<S>::unit_i();
            let j = Quaternion::<S>::unit_j();
            let k = Quaternion::<S>::unit_k();
            let minus_one = QuaternionValue { x: 0real, y: 0real, z: 0real, w: -1real };
            &&& i.spec_mul(i).exact() ==> i.spec_mul(i).value() == minus_one
            &&& j.spec_mul(j).exact() ==> j.spec_mul(j).value() == minus_one
            &&& k.spec_mul(k).exact() ==> k.spec_mul(k).value() == minus_one
            &&& i.spec_mul(j).exact() ==> i.spec_mul(j).value() == k.value()
            &&& j.spec_mul(k).exact() ==> j.spec_mul(k).value() == i.value()
            &&& k.spec_mul(i).exact() ==> k.spec_mul(i).value() == j.value()
            &&& j.spec_mul(i).exact() ==> j.spec_mul(i).value() == (QuaternionValue {
                x: 0real,
                y: 0real,
                z: -1real,
                w: 0real,
            })
            &&& k.spec_mul(j).exact() ==> k.spec_mul(j).value() == (QuaternionValue {
                x: -1real,
                y: 0real,
                z: 0real,
                w: 0real,
            })
            &&& i.spec_mul(k).exact() ==> i.spec_mul(k).value() == (QuaternionValue {
                x: 0real,
                y: -1real,
                z: 0real,
                w: 0real,
            })
        }),
{
    broadcast use group_exact;

    let i = Quaternion::<S>::unit_i();
    let j = Quaternion::<S>::unit_j();
    let k = Quaternion::<S>::unit_k();
    let vi = QuaternionValue { x: 1real, y: 0real, z: 0real, w: 0real };
    let vj = QuaternionValue { x: 0real, y: 1real, z: 0real, w: 0real };
    let vk = QuaternionValue { x: 0real, y: 0real, z: 1real, w: 0real };
    assert(i.exact() ==> i.value() == vi);
    assert(j.exact() ==> j.value() == vj);
    assert(k.exact() ==> k.value() == vk);
    assert(hamilton(vi, vi) == QuaternionValue { x: 0real, y: 0real, z: 0real, w: -1real });
    assert(hamilton(vj, vj) == QuaternionValue { x: 0real, y: 0real, z: 0real, w: -1real });
    assert(hamilton(vk, vk) == QuaternionValue { x: 0real, y: 0real, z: 0real, w: -1real });
    assert(hamilton(vi, vj) == vk);
    assert(hamilton(vj, vk) == vi);
    assert(hamilton(vk, vi) == vj);
    assert(hamilton(vj, vi) == QuaternionValue { x: 0real, y: 0real, z: -1real, w: 0real });
    assert(hamilton(vk, vj) == QuaternionValue { x: -1real, y: 0real, z: 0real, w: 0real });
    assert(hamilton(vi, vk) == QuaternionValue { x: 0real, y: -1real, z: 0real, w: 0real });
    if i.spec_mul(i).exact() {
        law_product_is_hamilton(i, i);
    }
    if j.spec_mul(j).exact() {
        law_product_is_hamilton(j, j);
    }
    if k.spec_mul(k).exact() {
        law_product_is_hamilton(k, k);
    }
    if i.spec_mul(j).exact() {
        law_product_is_hamilton(i, j);
    }
    if j.spec_mul(k).exact() {
        law_product_is_hamilton(j, k);
    }
    if k.spec_mul(i).exact() {
        law_product_is_hamilton(k, i);
    }
    if j.spec_mul(i).exact() {
        law_product_is_hamilton(j, i);
    }
    if k.spec_mul(j).exact() {
        law_product_is_hamilton(k, j);
    }
    if i.spec_mul(k).exact() {
        law_product_is_hamilton(i, k);
    }
}

/// A normalized quaternion is of norm one.
#[verifier::spinoff_prover]
pub proof fn law_normalize_unit<S: Exact>(q: Quaternion<S>)
    requires
        q.spec_normalize().exact(),
    ensures
        norm_squared(q.spec_normalize().value()) == 1real,
{
    broadcast use group_exact;

    let m = q.spec_magnitude();
    let n = q.spec_normalize();
    assert(n.v.x == q.v.x.quotient(m));
    assert(m.exact());
    assert(q.spec_dot(q).exact());
    lemma_quotients_unit(
        n.v.x.value(),
        n.v.y.value(),
        n.v.z.value(),
        n.w.value(),
        m.value(),
        q.v.x.value(),
        q.v.y.value(),
        q.v.z.value(),
        q.w.value(),
    );
}

/// Normalizing a quaternion of norm one leaves it as it is.
#[verifier::spinoff_prover]
pub proof fn law_normalize_keeps_unit<S: Exact>(q: Quaternion<S>)
    requires
        q.spec_normalize().exact(),
        q.exact() ==> norm_squared(q.value()) == 1real,
    ensures
        q.exact(),
        q.spec_normalize().value() == q.value(),
{
    broadcast use group_exact;

    let m = q.spec_magnitude();
    let n = q.spec_normalize();
    assert(n.v.x == q.v.x.quotient(m));
    assert(m.exact());
    assert(q.spec_dot(q).exact());
    lemma_root_of_one(m.value());
}

/// The rotation matrix of the quaternion `(x, y, z, w)` of real numbers, row by
/// row.
pub open spec fn rotation_of(q: QuaternionValue) -> Seq<real> {
    seq![
        1real - 2real * (q.y * q.y) - 2real * (q.z * q.z),
        2real * (q.x * q.y) - 2real * (q.w * q.z),
        2real * (q.x * q.z) + 2real * (q.w * q.y),
        2real * (q.x * q.y) + 2real * (q.w * q.z),
        1real - 2real * (q.x * q.x) - 2real * (q.z * q.z),
        2real * (q.y * q.z) - 2real * (q.w * q.x),
        2real * (q.x * q.z) - 2real * (q.w * q.y),
        2real * (q.y * q.z) + 2real * (q.w * q.x),
        1real - 2real * (q.x * q.x) - 2real * (q.y * q.y),
    ]
}

/// The entries of the rotation matrix of an exact quaternion are, where they
/// are exact, those of the rotation matrix of its value.
#[verifier::spinoff_prover]
pub proof fn law_rotation_values<S: Exact>(q: Quaternion<S>)
    requires
        all_exact(q.spec_rotation()),
    ensures
        q.exact(),
        values(q.spec_rotation()) == rotation_of(q.value()),
{
    let r = q.spec_rotation();
    let v = q.value();
    assert(r[0].exact() && r[1].exact() && r[2].exact() && r[3].exact() && r[4].exact()
        && r[5].exact() && r[6].exact() && r[7].exact() && r[8].exact());
    lemma_twice(v.x, v.y);
    lemma_twice(v.w, v.z);
    lemma_twice(v.x, v.z);
    lemma_twice(v.w, v.y);
    lemma_twice(v.y, v.z);
    lemma_twice(v.w, v.x);
    assert(q.exact() && r[0].value() == rotation_of(v)[0] && r[1].value() == rotation_of(v)[1]
        && r[2].value() == rotation_of(v)[2] && r[3].value() == rotation_of(v)[3]
        && r[4].value() == rotation_of(v)[4] && r[5].value() == rotation_of(v)[5]
        && r[6].value() == rotation_of(v)[6] && r[7].value() == rotation_of(v)[7]
        && r[8].value() == rotation_of(v)[8]) by {
        broadcast use group_exact;

    }
    assert(values(r) =~= rotation_of(v));
}

/// Turning a vector by the rotation matrix of a unit quaternion `q` gives the
/// vector part of `q v q*`, whose scalar part is zero.
#[verifier::spinoff_prover]
pub proof fn law_rotation_is_conjugation<S: Exact>(q: Quaternion<S>, v: Vector<S>)
    requires
        q.exact() ==> norm_squared(q.value()) == 1real,
        applied(q.spec_rotation(), v).exact(),
        q.spec_mul(Quaternion::spec_lift(v)).spec_mul(q.spec_conj()).exact(),
    ensures
        q.spec_mul(Quaternion::spec_lift(v)).spec_mul(q.spec_conj()).v.value() == applied(
            q.spec_rotation(),
            v,
        ).value(),
        q.spec_mul(Quaternion::spec_lift(v)).spec_mul(q.spec_conj()).w.value() == 0real,
{
    let t = q.spec_mul(Quaternion::spec_lift(v));
    let c = q.spec_conj();
    law_product_is_hamilton(t, c);
    law_product_is_hamilton(q, Quaternion::spec_lift(v));
    law_applied_values(q.spec_rotation(), v);
    law_rotation_values(q);
    let qv = q.value();
    let vv = v.value();
    assert(c.value() == QuaternionValue { x: -qv.x, y: -qv.y, z: -qv.z, w: qv.w }) by {
        broadcast use group_exact;

    }
    assert(Quaternion::spec_lift(v).value() == QuaternionValue {
        x: vv.x,
        y: vv.y,
        z: vv.z,
        w: 0real,
    }) by {
        broadcast use group_exact;

    }
    lemma_times_zero(0real, qv.x);
    lemma_times_zero(0real, qv.y);
    lemma_times_zero(0real, qv.z);
    lemma_times_zero(0real, qv.w);
    let tv = t.value();
    lemma_conjugation_x(qv.x, qv.y, qv.z, qv.w, vv.x, vv.y, vv.z, tv.x, tv.y, tv.z, tv.w);
    lemma_conjugation_y(qv.x, qv.y, qv.z, qv.w, vv.x, vv.y, vv.z, tv.x, tv.y, tv.z, tv.w);
    lemma_conjugation_z(qv.x, qv.y, qv.z, qv.w, vv.x, vv.y, vv.z, tv.x, tv.y, tv.z, tv.w);
    lemma_conjugation_w(qv.x, qv.y, qv.z, qv.w, vv.x, vv.y, vv.z, tv.x, tv.y, tv.z, tv.w);
}

/// The rotation matrix of a unit quaternion is orthonormal: times its
/// transpose it gives the identity.
#[verifier::spinoff_prover]
pub proof fn law_rotation_orthonormal<S: Exact>(q: Quaternion<S>)
    requires
        q.exact() ==> norm_squared(q.value()) == 1real,
        all_exact(multiplied(q.spec_rotation(), transposed(q.spec_rotation()))),
    ensures
        values(multiplied(q.spec_rotation(), transposed(q.spec_rotation()))) == identity_values(),
{
    let r = q.spec_rotation();
    let t = transposed(r);
    law_multiplied_values(r, t);
    law_transposed_values(r);
    law_rotation_values(q);
    let v = q.value();
    lemma_rotation_rows(v.x, v.y, v.z, v.w);
    let m = rotation_of(v);
    let tm = values(t);
    let c = multiplied_values(m, tm);
    assert(tm[0] == m[0] && tm[1] == m[3] && tm[2] == m[6] && tm[3] == m[1] && tm[4] == m[4]
        && tm[5] == m[7] && tm[6] == m[2] && tm[7] == m[5] && tm[8] == m[8]);
    assert(c[0] == m[0] * m[0] + m[1] * m[1] + m[2] * m[2]);
    assert(c[1] == m[0] * m[3] + m[1] * m[4] + m[2] * m[5]);
    assert(c[2] == m[0] * m[6] + m[1] * m[7] + m[2] * m[8]);
    assert(c[3] == m[3] * m[0] + m[4] * m[1] + m[5] * m[2]);
    assert(c[4] == m[3] * m[3] + m[4] * m[4] + m[5] * m[5]);
    assert(c[5] == m[3] * m[6] + m[4] * m[7] + m[5] * m[8]);
    assert(c[6] == m[6] * m[0] + m[7] * m[1] + m[8] * m[2]);
    assert(c[7] == m[6] * m[3] + m[7] * m[4] + m[8] * m[5]);
    assert(c[8] == m[6] * m[6] + m[7] * m[7] + m[8] * m[8]);
    assert(c =~= identity_values());
}

} // verus!
