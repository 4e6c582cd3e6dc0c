//! Whole numbers with checked arithmetic: an exact scalar.

use crate::exact::Exact;
use crate::scalar::Scalar;
use vstd::prelude::*;

verus! {

/// A 64-bit integer, or the mark that a computation has left the integers of
/// that width: by overflow, by a division that does not come out even, by the
/// root of a number that is no square, by the sine or cosine of an angle other
/// than zero. Once lost, a value stays lost through every later operation,
/// and compares as greater than nothing.
#[derive(Clone, Copy, Debug)]
pub struct Whole {
    pub repr: Option<i64>,
}

/// Whether `r` is the non-negative square root of `n`.
pub open spec fn is_root(r: int, n: int) -> bool {
    r >= 0 && r * r == n
}

/// The whole number `n` where it fits in 64 bits, and the lost value where it
/// does not.
pub open spec fn fitting(n: int) -> Whole {
    if i64::MIN <= n <= i64::MAX {
        Whole { repr: Some(n as i64) }
    } else {
        Whole { repr: None }
    }
}

proof fn lemma_root_unique(r1: int, r2: int, n: int)
    requires
        is_root(r1, n),
        is_root(r2, n),
    ensures
        r1 == r2,
{
    assert(r1 == r2) by (nonlinear_arith)
        requires
            r1 >= 0,
            r2 >= 0,
            r1 * r1 == r2 * r2,
    ;
}

proof fn lemma_root_between(r: int, s: int, n: int)
    requires
        0 <= r,
        r * r <= n < (r + 1) * (r + 1),
        is_root(s, n),
    ensures
        s == r,
{
    assert(s == r) by (nonlinear_arith)
        requires
            0 <= r,
            0 <= s,
            r * r <= s * s < (r + 1) * (r + 1),
    ;
}

/// The product of two integers is the product of the same two real numbers.
proof fn lemma_real_product(a: int, b: int)
    ensures
        ((a * b) as real) == (a as real) * (b as real),
{
    assert(((a * b) as real) == (a as real) * (b as real)) by (nonlinear_arith);
}

/// The least integer whose square no longer fits in 64 bits.
const ROOT_BOUND: i64 = 3037000500;

/// The largest integer whose square is at most `n`.
fn floor_root(n: i64) -> (r: i64)
    requires
        n >= 0,
    ensures
        0 <= r,
        r * r <= n < (r + 1) * (r + 1),
{
    let mut lo: i64 = 0;
    let mut hi: i64 = ROOT_BOUND;
    while hi - lo > 1
        invariant
            0 <= lo < hi <= ROOT_BOUND,
            lo * lo <= n < hi * hi,
        decreases hi - lo,
    {
        let mid: i64 = lo + (hi - lo) / 2;
        assert(mid * mid <= (ROOT_BOUND - 1) * (ROOT_BOUND - 1)) by (nonlinear_arith)
            requires
                0 <= mid <= ROOT_BOUND - 1,
        ;
        if mid * mid <= n {
            lo = mid;
        } else {
            hi = mid;
        }
    }
    lo
}

impl Whole {
    /// The value that has been lost.
    pub open spec fn lost() -> Self {
        Whole { repr: None }
    }

    /// The whole number `n`.
    pub fn new(n: i64) -> (r: Self)
        ensures
            r.repr == Some(n),
    {
        Whole { repr: Some(n) }
    }

    /// The integer, unless it has been lost.
    pub fn get(self) -> (r: Option<i64>)
        ensures
            r == self.repr,
    {
        self.repr
    }
}

impl Scalar for Whole {
    open spec fn of_int(n: i64) -> Self {
        Whole { repr: Some(n) }
    }

    open spec fn sum(self, rhs: Self) -> Self {
        match (self.repr, rhs.repr) {
            (Some(a), Some(b)) => fitting(a + b),
            _ => Self::lost(),
        }
    }

    open spec fn difference(self, rhs: Self) -> Self {
        match (self.repr, rhs.repr) {
            (Some(a), Some(b)) => fitting(a - b),
            _ => Self::lost(),
        }
    }

    open spec fn product(self, rhs: Self) -> Self {
        match (self.repr, rhs.repr) {
            (Some(a), Some(b)) => fitting(a * b),
            _ => Self::lost(),
        }
    }

    /// The quotient where the divisor is not zero and divides the dividend.
    open spec fn quotient(self, rhs: Self) -> Self {
        match (self.repr, rhs.repr) {
            (Some(a), Some(b)) => if b != 0 && (a as int) % (b as int) == 0 {
                fitting((a as int) / (b as int))
            } else {
                Self::lost()
            },
            _ => Self::lost(),
        }
    }

    open spec fn negation(self) -> Self {
        match self.repr {
            Some(a) => fitting(-a),
            None => Self::lost(),
        }
    }

    /// The root of a perfect square.
    open spec fn square_root(self) -> Self {
        match self.repr {
            Some(a) => if exists|r: int| is_root(r, a as int) {
                fitting(choose|r: int| is_root(r, a as int))
            } else {
                Self::lost()
            },
            None => Self::lost(),
        }
    }

    /// Zero at the angle zero: no other whole angle has a whole sine.
    open spec fn sine(self) -> Self {
        if self.repr == Some(0i64) {
            Whole { repr: Some(0) }
        } else {
            Self::lost()
        }
    }

    /// One at the angle zero: no other whole angle has a whole cosine.
    open spec fn cosine(self) -> Self {
        if self.repr == Some(0i64) {
            Whole { repr: Some(1) }
        } else {
            Self::lost()
        }
    }

    open spec fn absolute(self) -> Self {
        match self.repr {
            Some(a) => fitting(if a >= 0 {
                a as int
            } else {
                -a
            }),
            None => Self::lost(),
        }
    }

    /// A lost value exceeds nothing, and nothing exceeds it.
    open spec fn exceeds(self, rhs: Self) -> bool {
        match (self.repr, rhs.repr) {
            (Some(a), Some(b)) => a > b,
            _ => false,
        }
    }

    /// Whole numbers are told from zero without tolerance.
    open spec fn tolerance() -> Self {
        Whole { repr: Some(0) }
    }

    fn from_int(n: i64) -> (r: Self) {
        Whole { repr: Some(n) }
    }

    fn plus(self, rhs: Self) -> (r: Self) {
        match (self.repr, rhs.repr) {
            (Some(a), Some(b)) => Whole { repr: a.checked_add(b) },
            _ => Whole { repr: None },
        }
    }

    fn minus(self, rhs: Self) -> (r: Self) {
        match (self.repr, rhs.repr) {
            (Some(a), Some(b)) => Whole { repr: a.checked_sub(b) },
            _ => Whole { repr: None },
        }
    }

    fn times(self, rhs: Self) -> (r: Self) {
        match (self.repr, rhs.repr) {
            (Some(a), Some(b)) => Whole { repr: a.checked_mul(b) },
            _ => Whole { repr: None },
        }
    }

    fn over(self, rhs: Self) -> (r: Self) {
        match (self.repr, rhs.repr) {
            (Some(a), Some(b)) => {
                if b == 0 {
                    Whole { repr: None }
                } else if b == -1 {
                    Whole { repr: 0i64.checked_sub(a) }
                } else {
                    match (a.checked_rem_euclid(b), a.checked_div_euclid(b)) {
                        (Some(m), Some(d)) => if m == 0 {
                            Whole { repr: Some(d) }
                        } else {
                            Whole { repr: None }
                        },
                        _ => Whole { repr: None },
                    }
                }
            },
            _ => Whole { repr: None },
        }
    }

    fn negated(self) -> (r: Self) {
        match self.repr {
            Some(a) => Whole { repr: 0i64.checked_sub(a) },
            None => Whole { repr: None },
        }
    }

    fn sqrt(self) -> (r: Self) {
        match self.repr {
            Some(a) => {
                if a < 0 {
                    assert forall|s: int| !is_root(s, a as int) by {
                        assert(s * s >= 0) by (nonlinear_arith);
                    }
                    Whole { repr: None }
                } else {
                    let f = floor_root(a);
                    if f * f == a {
                        proof {
                            assert(is_root(f as int, a as int));
                            lemma_root_unique(
                                f as int,
                                choose|s: int| is_root(s, a as int),
                                a as int,
                            );
                        }
                        Whole { repr: Some(f) }
                    } else {
                        assert forall|s: int| !is_root(s, a as int) by {
                            if is_root(s, a as int) {
                                lemma_root_between(f as int, s, a as int);
                            }
                        }
                        Whole { repr: None }
                    }
                }
            },
            None => Whole { repr: None },
        }
    }

    fn sin(self) -> (r: Self) {
        match self.repr {
            Some(a) => if a == 0 {
                Whole { repr: Some(0) }
            } else {
                Whole { repr: None }
            },
            None => Whole { repr: None },
        }
    }

    fn cos(self) -> (r: Self) {
        match self.repr {
            Some(a) => if a == 0 {
                Whole { repr: Some(1) }
            } else {
                Whole { repr: None }
            },
            None => Whole { repr: None },
        }
    }

    fn abs(self) -> (r: Self) {
        match self.repr {
            Some(a) => if a >= 0 {
                Whole { repr: Some(a) }
            } else {
                Whole { repr: 0i64.checked_sub(a) }
            },
            None => Whole { repr: None },
        }
    }

    fn gt(self, rhs: Self) -> (r: bool) {
        match (self.repr, rhs.repr) {
            (Some(a), Some(b)) => a > b,
            _ => false,
        }
    }

    fn epsilon() -> (r: Self) {
        Whole { repr: Some(0) }
    }
}

impl Exact for Whole {
    open spec fn exact(self) -> bool {
        self.repr is Some
    }

    open spec fn value(self) -> real {
        self.repr->0 as real
    }

    proof fn lemma_of_int(n: i64) {
    }

    proof fn lemma_sum(a: Self, b: Self) {
    }

    proof fn lemma_difference(a: Self, b: Self) {
    }

    proof fn lemma_product(a: Self, b: Self) {
        if a.product(b).exact() {
            lemma_real_product(a.repr->0 as int, b.repr->0 as int);
        }
    }

    proof fn lemma_quotient(a: Self, b: Self) {
        if a.quotient(b).exact() {
            let x = a.repr->0 as int;
            let y = b.repr->0 as int;
            assert((x / y) * y == x) by (nonlinear_arith)
                requires
                    y != 0,
                    x % y == 0,
            ;
            lemma_real_product(x / y, y);
        }
    }

    proof fn lemma_negation(a: Self) {
    }

    proof fn lemma_square_root(a: Self) {
        if a.square_root().exact() {
            let r = choose|r: int| is_root(r, a.repr->0 as int);
            lemma_real_product(r, r);
        }
    }

    proof fn lemma_absolute(a: Self) {
    }

    proof fn lemma_exceeds(a: Self, b: Self) {
    }

    proof fn lemma_tolerance() {
    }
}

} // verus!
