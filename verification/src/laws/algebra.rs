//! Identities between polynomials over the real numbers, on which the laws rest.

use vstd::prelude::*;

verus! {

/// Four numbers that, each times `m`, give `x`, `y`, `z`, `w`, have squares
/// that sum to one where the squares of those four sum to the square of `m`.
#[verifier::spinoff_prover]
pub proof fn lemma_quotients_unit(
    a: real,
    b: real,
    c: real,
    d: real,
    m: real,
    x: real,
    y: real,
    z: real,
    w: real,
)
    requires
        m != 0real,
        a * m == x,
        b * m == y,
        c * m == z,
        d * m == w,
        x * x + y * y + z * z + w * w == m * m,
    ensures
        a * a + b * b + c * c + d * d == 1real,
{
    let s = a * a + b * b + c * c + d * d;
    let mm = m * m;
    assert((a * m) * (a * m) == (a * a) * mm) by (nonlinear_arith)
        requires
            mm == m * m,
    ;
    assert((b * m) * (b * m) == (b * b) * mm) by (nonlinear_arith)
        requires
            mm == m * m,
    ;
    assert((c * m) * (c * m) == (c * c) * mm) by (nonlinear_arith)
        requires
            mm == m * m,
    ;
    assert((d * m) * (d * m) == (d * d) * mm) by (nonlinear_arith)
        requires
            mm == m * m,
    ;
    assert(s * mm == (a * a) * mm + (b * b) * mm + (c * c) * mm + (d * d) * mm)
        by (nonlinear_arith)
        requires
            s == a * a + b * b + c * c + d * d,
    ;
    assert(s * mm == mm);
    assert(s == 1real) by (nonlinear_arith)
        requires
            s * mm == mm,
            mm == m * m,
            m != 0real,
    ;
}

/// A non-negative number whose square is one is one.
#[verifier::spinoff_prover]
pub proof fn lemma_root_of_one(m: real)
    requires
        m >= 0real,
        m * m == 1real,
    ensures
        m == 1real,
{
    assert(m == 1real) by (nonlinear_arith)
        requires
            m >= 0real,
            m * m == 1real,
    ;
}

/// The weights of the Runge-Kutta sum add up to the whole step: with
/// `6 s = dt` and `3 t = dt`, `p + f s + f t + f t + f s = p + dt f`.
#[verifier::spinoff_prover]
pub proof fn lemma_weights(p: real, f: real, s: real, t: real, dt: real)
    requires
        s * 6real == dt,
        t * 3real == dt,
    ensures
        p + f * s + f * t + f * t + f * s == p + dt * f,
{
    assert(f * s + f * t + f * t + f * s == f * (s + t + t + s)) by (nonlinear_arith);
    assert(s + t + t + s == dt);
    assert(f * dt == dt * f) by (nonlinear_arith);
}

/// `(n + 1) a = n a + a`.
#[verifier::spinoff_prover]
pub proof fn lemma_one_more(n: real, a: real)
    ensures
        (n + 1real) * a == n * a + a,
{
    assert((n + 1real) * a == n * a + a) by (nonlinear_arith);
}

/// `(2 a) b = 2 (a b)`.
#[verifier::spinoff_prover]
pub proof fn lemma_twice(a: real, b: real)
    ensures
        (2real * a) * b == 2real * (a * b),
{
    assert((2real * a) * b == 2real * (a * b)) by (nonlinear_arith);
}

/// The first coordinate of `q v q*` is the first row of the rotation matrix
/// of `q` times `v`, for `q = (x, y, z, w)` of norm one and `v = (a, b, c)`;
/// `(tx, ty, tz, tw)` is the product `q v`.
#[verifier::spinoff_prover]
pub proof fn lemma_conjugation_x(
    x: real,
    y: real,
    z: real,
    w: real,
    a: real,
    b: real,
    c: real,
    tx: real,
    ty: real,
    tz: real,
    tw: real,
)
    requires
        x * x + y * y + z * z + w * w == 1real,
        tx == w * a + y * c - z * b,
        ty == w * b + z * a - x * c,
        tz == w * c + x * b - y * a,
        tw == 0real - x * a - y * b - z * c,
    ensures
        tw * (-x) + tx * w + ty * (-z) - tz * (-y) == (1real - 2real * (y * y) - 2real * (z * z)) *
            a + (
            2real * (x * y) - 2real * (w * z)) * b + (2real * (x * z) + 2real * (w * y)) * c,
{
    assert(tw * (-x) == (x * a) * x + (y * b) * x + (z * c) * x) by (nonlinear_arith)
        requires
            tw == 0real - x * a - y * b - z * c,
    ;
    assert(tx * w == (w * a) * w + (y * c) * w - (z * b) * w) by (nonlinear_arith)
        requires
            tx == w * a + y * c - z * b,
    ;
    assert(ty * (-z) == 0real - (w * b) * z - (z * a) * z + (x * c) * z) by (nonlinear_arith)
        requires
            ty == w * b + z * a - x * c,
    ;
    assert(tz * (-y) == 0real - (w * c) * y - (x * b) * y + (y * a) * y) by (nonlinear_arith)
        requires
            tz == w * c + x * b - y * a,
    ;
    assert((1real - 2real * (y * y) - 2real * (z * z)) * a == a - 2real * ((y * y) * a) - 2real *
        ((z * z) * a)) by (nonlinear_arith);
    assert((2real * (x * y) - 2real * (w * z)) * b == 2real * ((x * y) * b) - 2real * ((w * z) *
        b)) by (nonlinear_arith);
    assert((2real * (x * z) + 2real * (w * y)) * c == 2real * ((x * z) * c) + 2real * ((w * y) *
        c)) by (nonlinear_arith);
    assert((x * x) * a + (y * y) * a + (z * z) * a + (w * w) * a == a) by (nonlinear_arith)
        requires
            x * x + y * y + z * z + w * w == 1real,
    ;
    assert((x * a) * x == (x * x) * a) by (nonlinear_arith);
    assert((w * a) * w == (w * w) * a) by (nonlinear_arith);
    assert((z * a) * z == (z * z) * a) by (nonlinear_arith);
    assert((y * a) * y == (y * y) * a) by (nonlinear_arith);
    assert((y * b) * x == (x * y) * b) by (nonlinear_arith);
    assert((x * b) * y == (x * y) * b) by (nonlinear_arith);
    assert((z * b) * w == (w * z) * b) by (nonlinear_arith);
    assert((w * b) * z == (w * z) * b) by (nonlinear_arith);
    assert((z * c) * x == (x * z) * c) by (nonlinear_arith);
    assert((x * c) * z == (x * z) * c) by (nonlinear_arith);
    assert((y * c) * w == (w * y) * c) by (nonlinear_arith);
    assert((w * c) * y == (w * y) * c) by (nonlinear_arith);
}

/// The second coordinate of `q v q*`.
#[verifier::spinoff_prover]
pub proof fn lemma_conjugation_y(
    x: real,
    y: real,
    z: real,
    w: real,
    a: real,
    b: real,
    c: real,
    tx: real,
    ty: real,
    tz: real,
    tw: real,
)
    requires
        x * x + y * y + z * z + w * w == 1real,
        tx == w * a + y * c - z * b,
        ty == w * b + z * a - x * c,
        tz == w * c + x * b - y * a,
        tw == 0real - x * a - y * b - z * c,
    ensures
        tw * (-y) + ty * w + tz * (-x) - tx * (-z) == (2real * (x * y) + 2real * (w * z)) * a +
            (1real
            - 2real * (x * x) - 2real * (z * z)) * b + (2real * (y * z) - 2real * (w * x)) * c,
{
    assert(tw * (-y) == (x * a) * y + (y * b) * y + (z * c) * y) by (nonlinear_arith)
        requires
            tw == 0real - x * a - y * b - z * c,
    ;
    assert(ty * w == (w * b) * w + (z * a) * w - (x * c) * w) by (nonlinear_arith)
        requires
            ty == w * b + z * a - x * c,
    ;
    assert(tz * (-x) == 0real - (w * c) * x - (x * b) * x + (y * a) * x) by (nonlinear_arith)
        requires
            tz == w * c + x * b - y * a,
    ;
    assert(tx * (-z) == 0real - (w * a) * z - (y * c) * z + (z * b) * z) by (nonlinear_arith)
        requires
            tx == w * a + y * c - z * b,
    ;
    assert((2real * (x * y) + 2real * (w * z)) * a == 2real * ((x * y) * a) + 2real * ((w * z) *
        a)) by (nonlinear_arith);
    assert((1real - 2real * (x * x) - 2real * (z * z)) * b == b - 2real * ((x * x) * b) - 2real *
        ((z * z) * b)) by (nonlinear_arith);
    assert((2real * (y * z) - 2real * (w * x)) * c == 2real * ((y * z) * c) - 2real * ((w * x) *
        c)) by (nonlinear_arith);
    assert((x * x) * b + (y * y) * b + (z * z) * b + (w * w) * b == b) by (nonlinear_arith)
        requires
            x * x + y * y + z * z + w * w == 1real,
    ;
    assert((x * a) * y == (x * y) * a) by (nonlinear_arith);
    assert((y * a) * x == (x * y) * a) by (nonlinear_arith);
    assert((z * a) * w == (w * z) * a) by (nonlinear_arith);
    assert((w * a) * z == (w * z) * a) by (nonlinear_arith);
    assert((y * b) * y == (y * y) * b) by (nonlinear_arith);
    assert((w * b) * w == (w * w) * b) by (nonlinear_arith);
    assert((x * b) * x == (x * x) * b) by (nonlinear_arith);
    assert((z * b) * z == (z * z) * b) by (nonlinear_arith);
    assert((z * c) * y == (y * z) * c) by (nonlinear_arith);
    assert((y * c) * z == (y * z) * c) by (nonlinear_arith);
    assert((x * c) * w == (w * x) * c) by (nonlinear_arith);
    assert((w * c) * x == (w * x) * c) by (nonlinear_arith);
}

/// The third coordinate of `q v q*`.
#[verifier::spinoff_prover]
pub proof fn lemma_conjugation_z(
    x: real,
    y: real,
    z: real,
    w: real,
    a: real,
    b: real,
    c: real,
    tx: real,
    ty: real,
    tz: real,
    tw: real,
)
    requires
        x * x + y * y + z * z + w * w == 1real,
        tx == w * a + y * c - z * b,
        ty == w * b + z * a - x * c,
        tz == w * c + x * b - y * a,
        tw == 0real - x * a - y * b - z * c,
    ensures
        tw * (-z) + tz * w + tx * (-y) - ty * (-x) == (2real * (x * z) - 2real * (w * y)) * a +
            (2real
            * (y * z) + 2real * (w * x)) * b + (1real - 2real * (x * x) - 2real * (y * y)) * c,
{
    assert(tw * (-z) == (x * a) * z + (y * b) * z + (z * c) * z) by (nonlinear_arith)
        requires
            tw == 0real - x * a - y * b - z * c,
    ;
    assert(tz * w == (w * c) * w + (x * b) * w - (y * a) * w) by (nonlinear_arith)
        requires
            tz == w * c + x * b - y * a,
    ;
    assert(tx * (-y) == 0real - (w * a) * y - (y * c) * y + (z * b) * y) by (nonlinear_arith)
        requires
            tx == w * a + y * c - z * b,
    ;
    assert(ty * (-x) == 0real - (w * b) * x - (z * a) * x + (x * c) * x) by (nonlinear_arith)
        requires
            ty == w * b + z * a - x * c,
    ;
    assert((2real * (x * z) - 2real * (w * y)) * a == 2real * ((x * z) * a) - 2real * ((w * y) *
        a)) by (nonlinear_arith);
    assert((2real * (y * z) + 2real * (w * x)) * b == 2real * ((y * z) * b) + 2real * ((w * x) *
        b)) by (nonlinear_arith);
    assert((1real - 2real * (x * x) - 2real * (y * y)) * c == c - 2real * ((x * x) * c) - 2real *
        ((y * y) * c)) by (nonlinear_arith);
    assert((x * x) * c + (y * y) * c + (z * z) * c + (w * w) * c == c) by (nonlinear_arith)
        requires
            x * x + y * y + z * z + w * w == 1real,
    ;
    assert((x * a) * z == (x * z) * a) by (nonlinear_arith);
    assert((z * a) * x == (x * z) * a) by (nonlinear_arith);
    assert((y * a) * w == (w * y) * a) by (nonlinear_arith);
    assert((w * a) * y == (w * y) * a) by (nonlinear_arith);
    assert((y * b) * z == (y * z) * b) by (nonlinear_arith);
    assert((z * b) * y == (y * z) * b) by (nonlinear_arith);
    assert((x * b) * w == (w * x) * b) by (nonlinear_arith);
    assert((w * b) * x == (w * x) * b) by (nonlinear_arith);
    assert((z * c) * z == (z * z) * c) by (nonlinear_arith);
    assert((w * c) * w == (w * w) * c) by (nonlinear_arith);
    assert((y * c) * y == (y * y) * c) by (nonlinear_arith);
    assert((x * c) * x == (x * x) * c) by (nonlinear_arith);
}

/// The scalar part of `q v q*` is zero.
#[verifier::spinoff_prover]
pub proof fn lemma_conjugation_w(
    x: real,
    y: real,
    z: real,
    w: real,
    a: real,
    b: real,
    c: real,
    tx: real,
    ty: real,
    tz: real,
    tw: real,
)
    requires
        tx == w * a + y * c - z * b,
        ty == w * b + z * a - x * c,
        tz == w * c + x * b - y * a,
        tw == 0real - x * a - y * b - z * c,
    ensures
        tw * w - tx * (-x) - ty * (-y) - tz * (-z) == 0real,
{
    assert(tw * w == 0real - x * a * w - y * b * w - z * c * w) by (nonlinear_arith)
        requires
            tw == 0real - x * a - y * b - z * c,
    ;
    assert(tx * (-x) == 0real - w * a * x - y * c * x + z * b * x) by (nonlinear_arith)
        requires
            tx == w * a + y * c - z * b,
    ;
    assert(ty * (-y) == 0real - w * b * y - z * a * y + x * c * y) by (nonlinear_arith)
        requires
            ty == w * b + z * a - x * c,
    ;
    assert(tz * (-z) == 0real - w * c * z - x * b * z + y * a * z) by (nonlinear_arith)
        requires
            tz == w * c + x * b - y * a,
    ;
    assert(x * a * w == w * a * x) by (nonlinear_arith);
    assert(y * b * w == w * b * y) by (nonlinear_arith);
    assert(z * c * w == w * c * z) by (nonlinear_arith);
    assert(y * c * x == x * c * y) by (nonlinear_arith);
    assert(z * b * x == x * b * z) by (nonlinear_arith);
    assert(z * a * y == y * a * z) by (nonlinear_arith);
}

/// The rows of a rotation matrix are of unit length and at right angles,
/// stated over the squares and products of the coordinates: with
/// `X = x x`, ..., `W = w w`, `P = x y`, `Q = w z`, `R = x z`, `T = w y`,
/// `U = y z`, `V = w x`, the relations between them, and `X + Y + Z + W = 1`.
#[verifier::spinoff_prover]
proof fn lemma_rows_over_products(
    xx: real,
    yy: real,
    zz: real,
    ww: real,
    p: real,
    q: real,
    r: real,
    t: real,
    u: real,
    v: real,
)
    requires
        xx + yy + zz + ww == 1real,
        p * p == xx * yy,
        q * q == ww * zz,
        r * r == xx * zz,
        t * t == ww * yy,
        u * u == yy * zz,
        v * v == ww * xx,
        p * q == r * t,
        p * q == u * v,
        r * t == u * v,
        r * u == zz * p,
        r * v == xx * q,
        t * u == yy * q,
        t * v == ww * p,
        p * u == yy * r,
        p * v == xx * t,
        q * u == zz * t,
        q * v == ww * r,
        p * r == xx * u,
        p * t == yy * v,
        q * r == zz * v,
        q * t == ww * u,
    ensures
        ({
            let r0 = 1real - 2real * yy - 2real * zz;
            let r1 = 2real * p - 2real * q;
            let r2 = 2real * r + 2real * t;
            let r3 = 2real * p + 2real * q;
            let r4 = 1real - 2real * xx - 2real * zz;
            let r5 = 2real * u - 2real * v;
            let r6 = 2real * r - 2real * t;
            let r7 = 2real * u + 2real * v;
            let r8 = 1real - 2real * xx - 2real * yy;
            &&& r0 * r0 + r1 * r1 + r2 * r2 == 1real
            &&& r3 * r3 + r4 * r4 + r5 * r5 == 1real
            &&& r6 * r6 + r7 * r7 + r8 * r8 == 1real
            &&& r0 * r3 + r1 * r4 + r2 * r5 == 0real
            &&& r0 * r6 + r1 * r7 + r2 * r8 == 0real
            &&& r3 * r6 + r4 * r7 + r5 * r8 == 0real
        }),
{
    let r0 = 1real - 2real * yy - 2real * zz;
    let r1 = 2real * p - 2real * q;
    let r2 = 2real * r + 2real * t;
    let r3 = 2real * p + 2real * q;
    let r4 = 1real - 2real * xx - 2real * zz;
    let r5 = 2real * u - 2real * v;
    let r6 = 2real * r - 2real * t;
    let r7 = 2real * u + 2real * v;
    let r8 = 1real - 2real * xx - 2real * yy;
    // the constraint, times each square and product that occurs
    assert(xx * xx + yy * xx + zz * xx + ww * xx == xx) by (nonlinear_arith)
        requires
            xx + yy + zz + ww == 1real,
    ;
    assert(xx * yy + yy * yy + zz * yy + ww * yy == yy) by (nonlinear_arith)
        requires
            xx + yy + zz + ww == 1real,
    ;
    assert(xx * zz + yy * zz + zz * zz + ww * zz == zz) by (nonlinear_arith)
        requires
            xx + yy + zz + ww == 1real,
    ;
    assert(xx * p + yy * p + zz * p + ww * p == p) by (nonlinear_arith)
        requires
            xx + yy + zz + ww == 1real,
    ;
    assert(xx * r + yy * r + zz * r + ww * r == r) by (nonlinear_arith)
        requires
            xx + yy + zz + ww == 1real,
    ;
    assert(xx * u + yy * u + zz * u + ww * u == u) by (nonlinear_arith)
        requires
            xx + yy + zz + ww == 1real,
    ;
    assert(yy * xx == xx * yy && zz * xx == xx * zz && zz * yy == yy * zz) by (nonlinear_arith);
    // the squares
    assert(r0 * r0 == 1real - 4real * yy - 4real * zz + 4real * (yy * yy) + 8real * (yy * zz) +
        4real * (zz * zz))
        by (nonlinear_arith)
        requires
            r0 == 1real - 2real * yy - 2real * zz,
    ;
    assert(r4 * r4 == 1real - 4real * xx - 4real * zz + 4real * (xx * xx) + 8real * (xx * zz) +
        4real * (zz * zz))
        by (nonlinear_arith)
        requires
            r4 == 1real - 2real * xx - 2real * zz,
    ;
    assert(r8 * r8 == 1real - 4real * xx - 4real * yy + 4real * (xx * xx) + 8real * (xx * yy) +
        4real * (yy * yy))
        by (nonlinear_arith)
        requires
            r8 == 1real - 2real * xx - 2real * yy,
    ;
    assert(r1 * r1 == 4real * (p * p) - 8real * (p * q) + 4real * (q * q)) by (nonlinear_arith)
        requires
            r1 == 2real * p - 2real * q,
    ;
    assert(r3 * r3 == 4real * (p * p) + 8real * (p * q) + 4real * (q * q)) by (nonlinear_arith)
        requires
            r3 == 2real * p + 2real * q,
    ;
    assert(r2 * r2 == 4real * (r * r) + 8real * (r * t) + 4real * (t * t)) by (nonlinear_arith)
        requires
            r2 == 2real * r + 2real * t,
    ;
    assert(r6 * r6 == 4real * (r * r) - 8real * (r * t) + 4real * (t * t)) by (nonlinear_arith)
        requires
            r6 == 2real * r - 2real * t,
    ;
    assert(r5 * r5 == 4real * (u * u) - 8real * (u * v) + 4real * (v * v)) by (nonlinear_arith)
        requires
            r5 == 2real * u - 2real * v,
    ;
    assert(r7 * r7 == 4real * (u * u) + 8real * (u * v) + 4real * (v * v)) by (nonlinear_arith)
        requires
            r7 == 2real * u + 2real * v,
    ;
    // the mixed products
    assert(r0 * r3 == 2real * p + 2real * q - 4real * (yy * p) - 4real * (yy * q) - 4real * (zz *
        p) - 4real * (zz * q))
        by (nonlinear_arith)
        requires
            r0 == 1real - 2real * yy - 2real * zz,
            r3 == 2real * p + 2real * q,
    ;
    assert(r1 * r4 == 2real * p - 2real * q - 4real * (xx * p) + 4real * (xx * q) - 4real * (zz *
        p) + 4real * (zz * q))
        by (nonlinear_arith)
        requires
            r1 == 2real * p - 2real * q,
            r4 == 1real - 2real * xx - 2real * zz,
    ;
    assert(r2 * r5 == 4real * (r * u) - 4real * (r * v) + 4real * (t * u) - 4real * (t * v)) by
        (nonlinear_arith)
        requires
            r2 == 2real * r + 2real * t,
            r5 == 2real * u - 2real * v,
    ;
    assert(r0 * r6 == 2real * r - 2real * t - 4real * (yy * r) + 4real * (yy * t) - 4real * (zz *
        r) + 4real * (zz * t))
        by (nonlinear_arith)
        requires
            r0 == 1real - 2real * yy - 2real * zz,
            r6 == 2real * r - 2real * t,
    ;
    assert(r1 * r7 == 4real * (p * u) + 4real * (p * v) - 4real * (q * u) - 4real * (q * v)) by
        (nonlinear_arith)
        requires
            r1 == 2real * p - 2real * q,
            r7 == 2real * u + 2real * v,
    ;
    assert(r2 * r8 == 2real * r + 2real * t - 4real * (xx * r) - 4real * (xx * t) - 4real * (yy *
        r) - 4real * (yy * t))
        by (nonlinear_arith)
        requires
            r2 == 2real * r + 2real * t,
            r8 == 1real - 2real * xx - 2real * yy,
    ;
    assert(r3 * r6 == 4real * (p * r) - 4real * (p * t) + 4real * (q * r) - 4real * (q * t)) by
        (nonlinear_arith)
        requires
            r3 == 2real * p + 2real * q,
            r6 == 2real * r - 2real * t,
    ;
    assert(r4 * r7 == 2real * u + 2real * v - 4real * (xx * u) - 4real * (xx * v) - 4real * (zz *
        u) - 4real * (zz * v))
        by (nonlinear_arith)
        requires
            r4 == 1real - 2real * xx - 2real * zz,
            r7 == 2real * u + 2real * v,
    ;
    assert(r5 * r8 == 2real * u - 2real * v - 4real * (xx * u) + 4real * (xx * v) - 4real * (yy *
        u) + 4real * (yy * v))
        by (nonlinear_arith)
        requires
            r5 == 2real * u - 2real * v,
            r8 == 1real - 2real * xx - 2real * yy,
    ;
}

/// The rows of the rotation matrix of a unit quaternion `(x, y, z, w)` are
/// of unit length and at right angles to one another.
#[verifier::spinoff_prover]
pub proof fn lemma_rotation_rows(x: real, y: real, z: real, w: real)
    requires
        x * x + y * y + z * z + w * w == 1real,
    ensures
        ({
            let r0 = 1real - 2real * (y * y) - 2real * (z * z);
            let r1 = 2real * (x * y) - 2real * (w * z);
            let r2 = 2real * (x * z) + 2real * (w * y);
            let r3 = 2real * (x * y) + 2real * (w * z);
            let r4 = 1real - 2real * (x * x) - 2real * (z * z);
            let r5 = 2real * (y * z) - 2real * (w * x);
            let r6 = 2real * (x * z) - 2real * (w * y);
            let r7 = 2real * (y * z) + 2real * (w * x);
            let r8 = 1real - 2real * (x * x) - 2real * (y * y);
            &&& r0 * r0 + r1 * r1 + r2 * r2 == 1real
            &&& r3 * r3 + r4 * r4 + r5 * r5 == 1real
            &&& r6 * r6 + r7 * r7 + r8 * r8 == 1real
            &&& r0 * r3 + r1 * r4 + r2 * r5 == 0real
            &&& r0 * r6 + r1 * r7 + r2 * r8 == 0real
            &&& r3 * r6 + r4 * r7 + r5 * r8 == 0real
            &&& r3 * r0 + r4 * r1 + r5 * r2 == 0real
            &&& r6 * r0 + r7 * r1 + r8 * r2 == 0real
            &&& r6 * r3 + r7 * r4 + r8 * r5 == 0real
        }),
{
    let xx = x * x;
    let yy = y * y;
    let zz = z * z;
    let ww = w * w;
    let p = x * y;
    let q = w * z;
    let r = x * z;
    let t = w * y;
    let u = y * z;
    let v = w * x;
    assert(p * p == xx * yy) by (nonlinear_arith)
        requires
            p == x * y,
            xx == x * x,
            yy == y * y,
    ;
    assert(q * q == ww * zz) by (nonlinear_arith)
        requires
            q == w * z,
            ww == w * w,
            zz == z * z,
    ;
    assert(r * r == xx * zz) by (nonlinear_arith)
        requires
            r == x * z,
            xx == x * x,
            zz == z * z,
    ;
    assert(t * t == ww * yy) by (nonlinear_arith)
        requires
            t == w * y,
            ww == w * w,
            yy == y * y,
    ;
    assert(u * u == yy * zz) by (nonlinear_arith)
        requires
            u == y * z,
            yy == y * y,
            zz == z * z,
    ;
    assert(v * v == ww * xx) by (nonlinear_arith)
        requires
            v == w * x,
            ww == w * w,
            xx == x * x,
    ;
    assert(p * q == r * t && p * q == u * v && r * t == u * v) by (nonlinear_arith)
        requires
            p == x * y,
            q == w * z,
            r == x * z,
            t == w * y,
            u == y * z,
            v == w * x,
    ;
    assert(r * u == zz * p && p * u == yy * r && p * r == xx * u) by (nonlinear_arith)
        requires
            p == x * y,
            r == x * z,
            u == y * z,
            xx == x * x,
            yy == y * y,
            zz == z * z,
    ;
    assert(r * v == xx * q && q * v == ww * r && q * r == zz * v) by (nonlinear_arith)
        requires
            q == w * z,
            r == x * z,
            v == w * x,
            xx == x * x,
            ww == w * w,
            zz == z * z,
    ;
    assert(t * u == yy * q && q * u == zz * t && q * t == ww * u) by (nonlinear_arith)
        requires
            q == w * z,
            t == w * y,
            u == y * z,
            yy == y * y,
            ww == w * w,
            zz == z * z,
    ;
    assert(t * v == ww * p && p * v == xx * t && p * t == yy * v) by (nonlinear_arith)
        requires
            p == x * y,
            t == w * y,
            v == w * x,
            xx == x * x,
            yy == y * y,
            ww == w * w,
    ;
    lemma_rows_over_products(xx, yy, zz, ww, p, q, r, t, u, v);
    let r0 = 1real - 2real * yy - 2real * zz;
    let r1 = 2real * p - 2real * q;
    let r2 = 2real * r + 2real * t;
    let r3 = 2real * p + 2real * q;
    let r4 = 1real - 2real * xx - 2real * zz;
    let r5 = 2real * u - 2real * v;
    let r6 = 2real * r - 2real * t;
    let r7 = 2real * u + 2real * v;
    let r8 = 1real - 2real * xx - 2real * yy;
    assert(r3 * r0 == r0 * r3 && r4 * r1 == r1 * r4 && r5 * r2 == r2 * r5) by (nonlinear_arith);
    assert(r6 * r0 == r0 * r6 && r7 * r1 == r1 * r7 && r8 * r2 == r2 * r8) by (nonlinear_arith);
    assert(r6 * r3 == r3 * r6 && r7 * r4 == r4 * r7 && r8 * r5 == r5 * r8) by (nonlinear_arith);
}

/// Laplace's expansions of the determinant of
/// `[[a, b, c], [d, e, f], [g, h, i]]`: a row times its own cofactors gives
/// the determinant, and times the cofactors of another row gives zero.
#[verifier::spinoff_prover]
pub proof fn lemma_laplace(a: real, b: real, c: real, d: real, e: real, f: real, g: real, h: real,
    i: real)
    ensures
        ({
            let c00 = e * i - f * h;
            let c01 = -(d * i - f * g);
            let c02 = d * h - e * g;
            let c10 = -(b * i - c * h);
            let c11 = a * i - c * g;
            let c12 = -(a * h - b * g);
            let c20 = b * f - c * e;
            let c21 = -(a * f - c * d);
            let c22 = a * e - b * d;
            let det = a * c00 + b * c01 + c * c02;
            &&& d * c10 + e * c11 + f * c12 == det
            &&& g * c20 + h * c21 + i * c22 == det
            &&& a * c10 + b * c11 + c * c12 == 0real
            &&& a * c20 + b * c21 + c * c22 == 0real
            &&& d * c00 + e * c01 + f * c02 == 0real
            &&& d * c20 + e * c21 + f * c22 == 0real
            &&& g * c00 + h * c01 + i * c02 == 0real
            &&& g * c10 + h * c11 + i * c12 == 0real
        }),
{
    let c00 = e * i - f * h;
    let c01 = -(d * i - f * g);
    let c02 = d * h - e * g;
    let c10 = -(b * i - c * h);
    let c11 = a * i - c * g;
    let c12 = -(a * h - b * g);
    let c20 = b * f - c * e;
    let c21 = -(a * f - c * d);
    let c22 = a * e - b * d;
    // a row times the cofactors of the first row
    lemma_pair(a, e, i, f, h, c00);
    lemma_pair(b, f, g, d, i, c01);
    lemma_pair(c, d, h, e, g, c02);
    lemma_pair(d, e, i, f, h, c00);
    lemma_pair(e, f, g, d, i, c01);
    lemma_pair(f, d, h, e, g, c02);
    lemma_pair(g, e, i, f, h, c00);
    lemma_pair(h, f, g, d, i, c01);
    lemma_pair(i, d, h, e, g, c02);
    // of the second row
    lemma_pair(a, c, h, b, i, c10);
    lemma_pair(b, a, i, c, g, c11);
    lemma_pair(c, b, g, a, h, c12);
    lemma_pair(d, c, h, b, i, c10);
    lemma_pair(e, a, i, c, g, c11);
    lemma_pair(f, b, g, a, h, c12);
    lemma_pair(g, c, h, b, i, c10);
    lemma_pair(h, a, i, c, g, c11);
    lemma_pair(i, b, g, a, h, c12);
    // of the third row
    lemma_pair(a, b, f, c, e, c20);
    lemma_pair(b, c, d, a, f, c21);
    lemma_pair(c, a, e, b, d, c22);
    lemma_pair(d, b, f, c, e, c20);
    lemma_pair(e, c, d, a, f, c21);
    lemma_pair(f, a, e, b, d, c22);
    lemma_pair(g, b, f, c, e, c20);
    lemma_pair(h, c, d, a, f, c21);
    lemma_pair(i, a, e, b, d, c22);
    // the second row against itself
    lemma_turn(e, a, i);
    lemma_turn(f, a, h);
    lemma_turn(d, b, i);
    lemma_turn(f, b, g);
    lemma_turn(d, c, h);
    lemma_turn(e, c, g);
    // the third row against itself
    lemma_turn(i, a, e);
    lemma_turn(h, a, f);
    lemma_turn(i, b, d);
    lemma_turn(g, b, f);
    lemma_turn(h, c, d);
    lemma_turn(g, c, e);
    // the first row against the others
    lemma_turn(a, b, i);
    lemma_turn(a, c, h);
    lemma_turn(b, c, g);
    lemma_turn(a, b, f);
    lemma_turn(a, c, e);
    lemma_turn(b, c, d);
    // the second row against the others
    lemma_turn(d, e, i);
    lemma_turn(d, f, h);
    lemma_turn(e, f, g);
    lemma_turn(d, b, f);
    lemma_turn(d, c, e);
    lemma_turn(e, a, f);
    // the third row against the others
    lemma_turn(g, e, i);
    lemma_turn(g, f, h);
    lemma_turn(h, d, i);
    lemma_turn(g, b, i);
    lemma_turn(g, c, h);
    lemma_turn(h, a, i);
}

/// Laplace's expansions along the columns of
/// `[[a, b, c], [d, e, f], [g, h, i]]`: a column times its own cofactors
/// gives the determinant, and times the cofactors of another column gives
/// zero.
#[verifier::spinoff_prover]
pub proof fn lemma_laplace_columns(
    a: real,
    b: real,
    c: real,
    d: real,
    e: real,
    f: real,
    g: real,
    h: real,
    i: real,
)
    ensures
        ({
            let c00 = e * i - f * h;
            let c01 = -(d * i - f * g);
            let c02 = d * h - e * g;
            let c10 = -(b * i - c * h);
            let c11 = a * i - c * g;
            let c12 = -(a * h - b * g);
            let c20 = b * f - c * e;
            let c21 = -(a * f - c * d);
            let c22 = a * e - b * d;
            let det = a * c00 + b * c01 + c * c02;
            &&& c00 * a + c10 * d + c20 * g == det
            &&& c00 * b + c10 * e + c20 * h == 0real
            &&& c00 * c + c10 * f + c20 * i == 0real
            &&& c01 * a + c11 * d + c21 * g == 0real
            &&& c01 * b + c11 * e + c21 * h == det
            &&& c01 * c + c11 * f + c21 * i == 0real
            &&& c02 * a + c12 * d + c22 * g == 0real
            &&& c02 * b + c12 * e + c22 * h == 0real
            &&& c02 * c + c12 * f + c22 * i == det
        }),
{
    let c00 = e * i - f * h;
    let c01 = -(d * i - f * g);
    let c02 = d * h - e * g;
    let c10 = -(b * i - c * h);
    let c11 = a * i - c * g;
    let c12 = -(a * h - b * g);
    let c20 = b * f - c * e;
    let c21 = -(a * f - c * d);
    let c22 = a * e - b * d;
    lemma_entry_by_cofactor(a, e, i, f, h, c00);
    lemma_entry_by_cofactor(b, f, g, d, i, c01);
    lemma_entry_by_cofactor(c, d, h, e, g, c02);
    lemma_entry_by_cofactor(a, e, i, f, h, c00);
    lemma_entry_by_cofactor(d, c, h, b, i, c10);
    lemma_entry_by_cofactor(g, b, f, c, e, c20);
    lemma_entry_by_cofactor(b, e, i, f, h, c00);
    lemma_entry_by_cofactor(e, c, h, b, i, c10);
    lemma_entry_by_cofactor(h, b, f, c, e, c20);
    lemma_entry_by_cofactor(c, e, i, f, h, c00);
    lemma_entry_by_cofactor(f, c, h, b, i, c10);
    lemma_entry_by_cofactor(i, b, f, c, e, c20);
    lemma_entry_by_cofactor(a, f, g, d, i, c01);
    lemma_entry_by_cofactor(d, a, i, c, g, c11);
    lemma_entry_by_cofactor(g, c, d, a, f, c21);
    lemma_entry_by_cofactor(b, f, g, d, i, c01);
    lemma_entry_by_cofactor(e, a, i, c, g, c11);
    lemma_entry_by_cofactor(h, c, d, a, f, c21);
    lemma_entry_by_cofactor(c, f, g, d, i, c01);
    lemma_entry_by_cofactor(f, a, i, c, g, c11);
    lemma_entry_by_cofactor(i, c, d, a, f, c21);
    lemma_entry_by_cofactor(a, d, h, e, g, c02);
    lemma_entry_by_cofactor(d, b, g, a, h, c12);
    lemma_entry_by_cofactor(g, a, e, b, d, c22);
    lemma_entry_by_cofactor(b, d, h, e, g, c02);
    lemma_entry_by_cofactor(e, b, g, a, h, c12);
    lemma_entry_by_cofactor(h, a, e, b, d, c22);
    lemma_entry_by_cofactor(c, d, h, e, g, c02);
    lemma_entry_by_cofactor(f, b, g, a, h, c12);
    lemma_entry_by_cofactor(i, a, e, b, d, c22);
}

/// An entry `k` times a cofactor `m`, multiplied out, with the products of
/// three in every order.
#[verifier::spinoff_prover]
proof fn lemma_entry_by_cofactor(k: real, p: real, q: real, r: real, s: real, m: real)
    ensures
        m == p * q - r * s ==> k * m == k * (p * q) - k * (r * s) && m * k == k * m,
        m == -(r * s - p * q) ==> k * m == k * (p * q) - k * (r * s) && m * k == k * m,
        k * (p * q) == p * (k * q),
        k * (p * q) == p * (q * k),
        k * (p * q) == q * (k * p),
        k * (p * q) == q * (p * k),
        k * (p * q) == k * (q * p),
        k * (r * s) == r * (k * s),
        k * (r * s) == r * (s * k),
        k * (r * s) == s * (k * r),
        k * (r * s) == s * (r * k),
        k * (r * s) == k * (s * r),
{
    lemma_pair(k, p, q, r, s, m);
    lemma_turn(k, p, q);
    lemma_turn(k, r, s);
    assert(m * k == k * m) by (nonlinear_arith);
}

/// `k` times a difference of two products, and times its negation.
#[verifier::spinoff_prover]
proof fn lemma_pair(k: real, p: real, q: real, r: real, s: real, m: real)
    ensures
        m == p * q - r * s ==> k * m == k * (p * q) - k * (r * s),
        m == -(r * s - p * q) ==> k * m == k * (p * q) - k * (r * s),
{
    assert(m == p * q - r * s ==> k * m == k * (p * q) - k * (r * s)) by (nonlinear_arith);
    assert(m == -(r * s - p * q) ==> k * m == k * (p * q) - k * (r * s)) by (nonlinear_arith);
}

/// The product of three numbers, in each grouping that the expansions use.
#[verifier::spinoff_prover]
proof fn lemma_turn(x: real, y: real, z: real)
    ensures
        x * (y * z) == y * (x * z),
        x * (y * z) == y * (z * x),
        x * (y * z) == z * (x * y),
        x * (y * z) == z * (y * x),
        x * (y * z) == x * (z * y),
{
    assert(x * (y * z) == y * (x * z)) by (nonlinear_arith);
    assert(x * (y * z) == y * (z * x)) by (nonlinear_arith);
    assert(x * (y * z) == z * (x * y)) by (nonlinear_arith);
    assert(x * (y * z) == z * (y * x)) by (nonlinear_arith);
    assert(x * (y * z) == x * (z * y)) by (nonlinear_arith);
}

/// A row times a row of cofactors that are each scaled by `m`.
#[verifier::spinoff_prover]
proof fn lemma_scaled_row(x1: real, k1: real, x2: real, k2: real, x3: real, k3: real, m: real)
    ensures
        x1 * (k1 * m) + x2 * (k2 * m) + x3 * (k3 * m) == (x1 * k1 + x2 * k2 + x3 * k3) * m,
{
    assert(x1 * (k1 * m) == (x1 * k1) * m) by (nonlinear_arith);
    assert(x2 * (k2 * m) == (x2 * k2) * m) by (nonlinear_arith);
    assert(x3 * (k3 * m) == (x3 * k3) * m) by (nonlinear_arith);
    assert((x1 * k1 + x2 * k2 + x3 * k3) * m == (x1 * k1) * m + (x2 * k2) * m + (x3 * k3) * m)
        by (nonlinear_arith);
}

/// The matrix `[[a, b, c], [d, e, f], [g, h, i]]` times the transpose of its
/// cofactors, each scaled by the reciprocal `m` of the determinant, is the
/// identity.
#[verifier::spinoff_prover]
pub proof fn lemma_adjugate_right(
    a: real,
    b: real,
    c: real,
    d: real,
    e: real,
    f: real,
    g: real,
    h: real,
    i: real,
    m: real,
)
    requires
        m * (a * (e * i - f * h) + b * (-(d * i - f * g)) + c * (d * h - e * g)) == 1real,
    ensures
        ({
            let c00 = e * i - f * h;
            let c01 = -(d * i - f * g);
            let c02 = d * h - e * g;
            let c10 = -(b * i - c * h);
            let c11 = a * i - c * g;
            let c12 = -(a * h - b * g);
            let c20 = b * f - c * e;
            let c21 = -(a * f - c * d);
            let c22 = a * e - b * d;
            &&& a * (c00 * m) + b * (c01 * m) + c * (c02 * m) == 1real
            &&& a * (c10 * m) + b * (c11 * m) + c * (c12 * m) == 0real
            &&& a * (c20 * m) + b * (c21 * m) + c * (c22 * m) == 0real
            &&& d * (c00 * m) + e * (c01 * m) + f * (c02 * m) == 0real
            &&& d * (c10 * m) + e * (c11 * m) + f * (c12 * m) == 1real
            &&& d * (c20 * m) + e * (c21 * m) + f * (c22 * m) == 0real
            &&& g * (c00 * m) + h * (c01 * m) + i * (c02 * m) == 0real
            &&& g * (c10 * m) + h * (c11 * m) + i * (c12 * m) == 0real
            &&& g * (c20 * m) + h * (c21 * m) + i * (c22 * m) == 1real
        }),
{
    let c00 = e * i - f * h;
    let c01 = -(d * i - f * g);
    let c02 = d * h - e * g;
    let c10 = -(b * i - c * h);
    let c11 = a * i - c * g;
    let c12 = -(a * h - b * g);
    let c20 = b * f - c * e;
    let c21 = -(a * f - c * d);
    let c22 = a * e - b * d;
    let det = a * c00 + b * c01 + c * c02;
    lemma_laplace(a, b, c, d, e, f, g, h, i);
    lemma_scaled_row(a, c00, b, c01, c, c02, m);
    lemma_scaled_row(a, c10, b, c11, c, c12, m);
    lemma_scaled_row(a, c20, b, c21, c, c22, m);
    lemma_scaled_row(d, c00, e, c01, f, c02, m);
    lemma_scaled_row(d, c10, e, c11, f, c12, m);
    lemma_scaled_row(d, c20, e, c21, f, c22, m);
    lemma_scaled_row(g, c00, h, c01, i, c02, m);
    lemma_scaled_row(g, c10, h, c11, i, c12, m);
    lemma_scaled_row(g, c20, h, c21, i, c22, m);
    assert(det * m == 1real) by (nonlinear_arith)
        requires
            m * det == 1real,
    ;
    assert(0real * m == 0real);
}

/// A column of cofactors that are each scaled by `m`, times a column.
#[verifier::spinoff_prover]
proof fn lemma_scaled_column(k1: real, x1: real, k2: real, x2: real, k3: real, x3: real, m: real)
    ensures
        (k1 * m) * x1 + (k2 * m) * x2 + (k3 * m) * x3 == (k1 * x1 + k2 * x2 + k3 * x3) * m,
{
    assert((k1 * m) * x1 == (k1 * x1) * m) by (nonlinear_arith);
    assert((k2 * m) * x2 == (k2 * x2) * m) by (nonlinear_arith);
    assert((k3 * m) * x3 == (k3 * x3) * m) by (nonlinear_arith);
    assert((k1 * x1 + k2 * x2 + k3 * x3) * m == (k1 * x1) * m + (k2 * x2) * m + (k3 * x3) * m)
        by (nonlinear_arith);
}

/// The transpose of the cofactors of `[[a, b, c], [d, e, f], [g, h, i]]`,
/// each scaled by the reciprocal `m` of the determinant, times the matrix is
/// the identity.
#[verifier::spinoff_prover]
pub proof fn lemma_adjugate_left(
    a: real,
    b: real,
    c: real,
    d: real,
    e: real,
    f: real,
    g: real,
    h: real,
    i: real,
    m: real,
)
    requires
        m * (a * (e * i - f * h) + b * (-(d * i - f * g)) + c * (d * h - e * g)) == 1real,
    ensures
        ({
            let c00 = e * i - f * h;
            let c01 = -(d * i - f * g);
            let c02 = d * h - e * g;
            let c10 = -(b * i - c * h);
            let c11 = a * i - c * g;
            let c12 = -(a * h - b * g);
            let c20 = b * f - c * e;
            let c21 = -(a * f - c * d);
            let c22 = a * e - b * d;
            &&& (c00 * m) * a + (c10 * m) * d + (c20 * m) * g == 1real
            &&& (c00 * m) * b + (c10 * m) * e + (c20 * m) * h == 0real
            &&& (c00 * m) * c + (c10 * m) * f + (c20 * m) * i == 0real
            &&& (c01 * m) * a + (c11 * m) * d + (c21 * m) * g == 0real
            &&& (c01 * m) * b + (c11 * m) * e + (c21 * m) * h == 1real
            &&& (c01 * m) * c + (c11 * m) * f + (c21 * m) * i == 0real
            &&& (c02 * m) * a + (c12 * m) * d + (c22 * m) * g == 0real
            &&& (c02 * m) * b + (c12 * m) * e + (c22 * m) * h == 0real
            &&& (c02 * m) * c + (c12 * m) * f + (c22 * m) * i == 1real
        }),
{
    let c00 = e * i - f * h;
    let c01 = -(d * i - f * g);
    let c02 = d * h - e * g;
    let c10 = -(b * i - c * h);
    let c11 = a * i - c * g;
    let c12 = -(a * h - b * g);
    let c20 = b * f - c * e;
    let c21 = -(a * f - c * d);
    let c22 = a * e - b * d;
    let det = a * c00 + b * c01 + c * c02;
    lemma_laplace_columns(a, b, c, d, e, f, g, h, i);
    lemma_scaled_column(c00, a, c10, d, c20, g, m);
    lemma_scaled_column(c00, b, c10, e, c20, h, m);
    lemma_scaled_column(c00, c, c10, f, c20, i, m);
    lemma_scaled_column(c01, a, c11, d, c21, g, m);
    lemma_scaled_column(c01, b, c11, e, c21, h, m);
    lemma_scaled_column(c01, c, c11, f, c21, i, m);
    lemma_scaled_column(c02, a, c12, d, c22, g, m);
    lemma_scaled_column(c02, b, c12, e, c22, h, m);
    lemma_scaled_column(c02, c, c12, f, c22, i, m);
    assert(det * m == 1real) by (nonlinear_arith)
        requires
            m * det == 1real,
    ;
    assert(0real * m == 0real);
}

/// One entry of an associative product: the row `(a0, a1, a2)` times the
/// matrix `b`, times the column `(c0, c1, c2)`, in both groupings.
#[verifier::spinoff_prover]
proof fn lemma_associative_entry(
    a0: real,
    a1: real,
    a2: real,
    b: Seq<real>,
    c0: real,
    c1: real,
    c2: real,
)
    requires
        b.len() == 9,
    ensures
        (a0 * b[0] + a1 * b[3] + a2 * b[6]) * c0 + (a0 * b[1] + a1 * b[4] + a2 * b[7]) * c1 + (a0
            * b[2] + a1 * b[5] + a2 * b[8]) * c2 == a0 * (b[0] * c0 + b[1] * c1 + b[2] * c2) + a1
            * (b[3] * c0 + b[4] * c1 + b[5] * c2) + a2 * (b[6] * c0 + b[7] * c1 + b[8] * c2),
{
    lemma_row_then_scale(a0, b[0], a1, b[3], a2, b[6], c0);
    lemma_row_then_scale(a0, b[1], a1, b[4], a2, b[7], c1);
    lemma_row_then_scale(a0, b[2], a1, b[5], a2, b[8], c2);
    lemma_scale_then_row(a0, b[0], c0, b[1], c1, b[2], c2);
    lemma_scale_then_row(a1, b[3], c0, b[4], c1, b[5], c2);
    lemma_scale_then_row(a2, b[6], c0, b[7], c1, b[8], c2);
}

/// `(x1 y1 + x2 y2 + x3 y3) c`, multiplied out.
#[verifier::spinoff_prover]
proof fn lemma_row_then_scale(x1: real, y1: real, x2: real, y2: real, x3: real, y3: real, c: real)
    ensures
        (x1 * y1 + x2 * y2 + x3 * y3) * c == x1 * (y1 * c) + x2 * (y2 * c) + x3 * (y3 * c),
{
    assert((x1 * y1 + x2 * y2 + x3 * y3) * c == (x1 * y1) * c + (x2 * y2) * c + (x3 * y3) * c)
        by (nonlinear_arith);
    assert((x1 * y1) * c == x1 * (y1 * c)) by (nonlinear_arith);
    assert((x2 * y2) * c == x2 * (y2 * c)) by (nonlinear_arith);
    assert((x3 * y3) * c == x3 * (y3 * c)) by (nonlinear_arith);
}

/// `a (y1 c1 + y2 c2 + y3 c3)`, multiplied out.
#[verifier::spinoff_prover]
proof fn lemma_scale_then_row(a: real, y1: real, c1: real, y2: real, c2: real, y3: real, c3: real)
    ensures
        a * (y1 * c1 + y2 * c2 + y3 * c3) == a * (y1 * c1) + a * (y2 * c2) + a * (y3 * c3),
{
    assert(a * (y1 * c1 + y2 * c2 + y3 * c3) == a * (y1 * c1) + a * (y2 * c2) + a * (y3 * c3))
        by (nonlinear_arith);
}

/// The row `(s0, s1, s2)` of the identity picks one of `(c0, c1, c2)`.
#[verifier::spinoff_prover]
proof fn lemma_pick(s0: real, s1: real, s2: real, c0: real, c1: real, c2: real)
    ensures
        s0 == 1real && s1 == 0real && s2 == 0real ==> s0 * c0 + s1 * c1 + s2 * c2 == c0 && c0 * s0
            + c1 * s1
            + c2 * s2 == c0,
        s0 == 0real && s1 == 1real && s2 == 0real ==> s0 * c0 + s1 * c1 + s2 * c2 == c1 && c0 * s0
            + c1 * s1
            + c2 * s2 == c1,
        s0 == 0real && s1 == 0real && s2 == 1real ==> s0 * c0 + s1 * c1 + s2 * c2 == c2 && c0 * s0
            + c1 * s1
            + c2 * s2 == c2,
{
    assert(s0 == 1real ==> s0 * c0 == c0 && c0 * s0 == c0) by (nonlinear_arith);
    assert(s0 == 0real ==> s0 * c0 == 0real && c0 * s0 == 0real) by (nonlinear_arith);
    assert(s1 == 1real ==> s1 * c1 == c1 && c1 * s1 == c1) by (nonlinear_arith);
    assert(s1 == 0real ==> s1 * c1 == 0real && c1 * s1 == 0real) by (nonlinear_arith);
    assert(s2 == 1real ==> s2 * c2 == c2 && c2 * s2 == c2) by (nonlinear_arith);
    assert(s2 == 0real ==> s2 * c2 == 0real && c2 * s2 == 0real) by (nonlinear_arith);
}

/// The product of the row `i` of `a` and the column `j` of `b`.
pub open spec fn row_by_column(a: Seq<real>, b: Seq<real>, i: int, j: int) -> real {
    a[3 * i] * b[j] + a[3 * i + 1] * b[3 + j] + a[3 * i + 2] * b[6 + j]
}

/// Whether `a b` is the identity.
pub open spec fn inverse_pair(a: Seq<real>, b: Seq<real>) -> bool {
    &&& row_by_column(a, b, 0, 0) == 1real
    &&& row_by_column(a, b, 0, 1) == 0real
    &&& row_by_column(a, b, 0, 2) == 0real
    &&& row_by_column(a, b, 1, 0) == 0real
    &&& row_by_column(a, b, 1, 1) == 1real
    &&& row_by_column(a, b, 1, 2) == 0real
    &&& row_by_column(a, b, 2, 0) == 0real
    &&& row_by_column(a, b, 2, 1) == 0real
    &&& row_by_column(a, b, 2, 2) == 1real
}

/// Entry `(i, j)` of the two matrices of [`lemma_inverse_unique`].
#[verifier::spinoff_prover]
proof fn lemma_inverse_unique_entry(a: Seq<real>, b: Seq<real>, c: Seq<real>, i: int, j: int)
    requires
        a.len() == 9,
        b.len() == 9,
        c.len() == 9,
        inverse_pair(a, b),
        inverse_pair(b, c),
        0 <= i < 3,
        0 <= j < 3,
    ensures
        c[3 * i + j] == a[3 * i + j],
{
    lemma_associative_entry(a[3 * i], a[3 * i + 1], a[3 * i + 2], b, c[j], c[3 + j], c[6 + j]);
    lemma_pick(
        row_by_column(a, b, i, 0),
        row_by_column(a, b, i, 1),
        row_by_column(a, b, i, 2),
        c[j],
        c[3 + j],
        c[6 + j],
    );
    lemma_pick(
        row_by_column(b, c, 0, j),
        row_by_column(b, c, 1, j),
        row_by_column(b, c, 2, j),
        a[3 * i],
        a[3 * i + 1],
        a[3 * i + 2],
    );
}

/// A matrix has one inverse only: where `a b` and `b c` are the identity,
/// `c` is `a`.
#[verifier::spinoff_prover]
pub proof fn lemma_inverse_unique(a: Seq<real>, b: Seq<real>, c: Seq<real>)
    requires
        a.len() == 9,
        b.len() == 9,
        c.len() == 9,
        inverse_pair(a, b),
        inverse_pair(b, c),
    ensures
        c == a,
{
    lemma_inverse_unique_entry(a, b, c, 0, 0);
    lemma_inverse_unique_entry(a, b, c, 0, 1);
    lemma_inverse_unique_entry(a, b, c, 0, 2);
    lemma_inverse_unique_entry(a, b, c, 1, 0);
    lemma_inverse_unique_entry(a, b, c, 1, 1);
    lemma_inverse_unique_entry(a, b, c, 1, 2);
    lemma_inverse_unique_entry(a, b, c, 2, 0);
    lemma_inverse_unique_entry(a, b, c, 2, 1);
    lemma_inverse_unique_entry(a, b, c, 2, 2);
    assert(c =~= a);
}

#[verifier::spinoff_prover]
pub proof fn lemma_scaled_sum(a: real, b: real, f: real)
    ensures
        (a + b) * f == a * f + b * f,
{
    assert((a + b) * f == a * f + b * f) by (nonlinear_arith);
}

#[verifier::spinoff_prover]
pub proof fn lemma_times_zero(f: real, h: real)
    requires
        f == 0real,
    ensures
        f * h == 0real,
        h * f == 0real,
{
    assert(f * h == 0real && h * f == 0real) by (nonlinear_arith)
        requires
            f == 0real,
    ;
}

/// Half of zero is zero.
#[verifier::spinoff_prover]
pub proof fn lemma_half_of_zero(c: real, two: real)
    ensures
        two == 2real && c * two == 0real ==> c == 0real,
{
    assert(two == 2real && c * two == 0real ==> c == 0real) by (nonlinear_arith);
}

/// One Runge-Kutta step under a constant force follows the parabola: with the
/// position `x`, the momentum `p`, the force `f`, the inverse mass `m`, and
/// the weights `h = dt / 2`, `t = dt / 3`, `s = dt / 6`.
#[verifier::spinoff_prover]
pub proof fn lemma_parabola_step(
    x: real,
    p: real,
    f: real,
    m: real,
    h: real,
    t: real,
    s: real,
    dt: real,
)
    requires
        h * 2real == dt,
        t * 3real == dt,
        s * 6real == dt,
    ensures
        x + (p * m) * s + ((p + f * h) * m) * t + ((p + f * h) * m) * t + ((p + f * dt) * m) * s
            == x + dt * (p * m) + ((dt * dt) * (f * m)) / 2real,
{
    let v = p * m;
    let a = f * m;
    assert((p + f * h) * m == v + h * a) by (nonlinear_arith)
        requires
            v == p * m,
            a == f * m,
    ;
    assert((p + f * dt) * m == v + dt * a) by (nonlinear_arith)
        requires
            v == p * m,
            a == f * m,
    ;
    assert((v + h * a) * t == v * t + (h * t) * a) by (nonlinear_arith);
    assert((v + dt * a) * s == v * s + (dt * s) * a) by (nonlinear_arith);
    assert(v * s + v * t + v * t + v * s == v * (s + t + t + s)) by (nonlinear_arith);
    assert(s + t + t + s == dt);
    assert(v * dt == dt * v) by (nonlinear_arith);
    let k = h * t;
    let n = dt * s;
    let dd = dt * dt;
    assert(k * 6real == dd) by (nonlinear_arith)
        requires
            k == h * t,
            dd == dt * dt,
            h * 2real == dt,
            t * 3real == dt,
    ;
    assert(n * 6real == dd) by (nonlinear_arith)
        requires
            n == dt * s,
            dd == dt * dt,
            s * 6real == dt,
    ;
    assert(k * a + k * a + n * a == (k + k + n) * a) by (nonlinear_arith);
    assert(k + k + n == dd / 2real);
    assert((dd / 2real) * a == (dd * a) / 2real) by (nonlinear_arith);
}

/// The parabola, one step further: from the time `t` to `t + dt`, where the
/// momentum at `t` is `p + t f`.
#[verifier::spinoff_prover]
pub proof fn lemma_parabola_more(x: real, p: real, f: real, m: real, t: real, dt: real)
    ensures
        (x + t * (p * m) + ((t * t) * (f * m)) / 2real) + dt * ((p + t * f) * m) + ((dt * dt) * (f
            * m)) / 2real == x + (t + dt) * (p * m) + (((t + dt) * (t + dt)) * (f * m)) / 2real,
{
    let v = p * m;
    let a = f * m;
    let tt = t * t;
    let dd = dt * dt;
    let td = dt * t;
    assert((p + t * f) * m == v + t * a) by (nonlinear_arith)
        requires
            v == p * m,
            a == f * m,
    ;
    assert(dt * (v + t * a) == dt * v + td * a) by (nonlinear_arith)
        requires
            td == dt * t,
    ;
    assert((t + dt) * v == t * v + dt * v) by (nonlinear_arith);
    assert((t + dt) * (t + dt) == tt + 2real * td + dd) by (nonlinear_arith)
        requires
            tt == t * t,
            dd == dt * dt,
            td == dt * t,
    ;
    assert((tt + 2real * td + dd) * a == tt * a + 2real * (td * a) + dd * a) by (nonlinear_arith);
}

} // verus!
