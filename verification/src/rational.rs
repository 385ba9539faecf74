//! Exact rational scalars.
//!
//! `Frac` is the mathematical model: a pair of unbounded integers read as the
//! quotient `n / d`. `Rat` is the executable value: a fraction with `i64`
//! components and a positive denominator. Arithmetic on `Rat` is exact; an
//! operation returns `None` exactly when the resulting components do not fit
//! in `i64`.

use vstd::assert_by_contradiction;
use vstd::prelude::*;

verus! {

/// Mathematical model of a rational number: the quotient `n / d` of two
/// unbounded integers. Meaningful when `d != 0`.
pub struct Frac {
    pub n: int,
    pub d: int,
}

/// The model denominator is non-zero, so the pair denotes a rational number.
pub open spec fn frac_wf(q: Frac) -> bool {
    q.d != 0
}

/// The model denominator is positive (the normal form kept by `Rat`).
pub open spec fn frac_pos(q: Frac) -> bool {
    q.d > 0
}

/// Two fraction pairs denote the same rational number.
pub open spec fn frac_eq(a: Frac, b: Frac) -> bool {
    a.n * b.d == b.n * a.d
}

/// `a / b + c / d == (a*d + c*b) / (b*d)`.
pub open spec fn frac_add(a: Frac, b: Frac) -> Frac {
    Frac { n: a.n * b.d + b.n * a.d, d: a.d * b.d }
}

/// `a / b - c / d == (a*d - c*b) / (b*d)`.
pub open spec fn frac_sub(a: Frac, b: Frac) -> Frac {
    Frac { n: a.n * b.d - b.n * a.d, d: a.d * b.d }
}

/// `(a / b) * (c / d) == (a*c) / (b*d)`.
pub open spec fn frac_mul(a: Frac, b: Frac) -> Frac {
    Frac { n: a.n * b.n, d: a.d * b.d }
}

/// Negation keeps the denominator.
pub open spec fn frac_neg(a: Frac) -> Frac {
    Frac { n: -a.n, d: a.d }
}

/// Division multiplies by the flipped divisor; the sign is moved into the
/// numerator so that a positive-denominator argument pair yields a
/// positive-denominator result pair.
pub open spec fn frac_div(a: Frac, b: Frac) -> Frac {
    if b.n >= 0 {
        Frac { n: a.n * b.d, d: a.d * b.n }
    } else {
        Frac { n: -(a.n * b.d), d: -(a.d * b.n) }
    }
}

/// Order by cross-multiplication. Meaningful when both denominators are
/// positive.
pub open spec fn frac_le(a: Frac, b: Frac) -> bool {
    a.n * b.d <= b.n * a.d
}

/// The smaller of two fractions (under `frac_le`).
pub open spec fn frac_min(a: Frac, b: Frac) -> Frac {
    if frac_le(a, b) {
        a
    } else {
        b
    }
}

/// The rational number zero.
pub open spec fn frac_zero() -> Frac {
    Frac { n: 0, d: 1 }
}

/// The rational number one.
pub open spec fn frac_one() -> Frac {
    Frac { n: 1, d: 1 }
}

/// The fraction denotes zero. For a well-formed pair this coincides with
/// `frac_eq(q, frac_zero())`.
pub open spec fn frac_is_zero(q: Frac) -> bool {
    q.n == 0
}

/// The reciprocal, sign-normalized the same way as `frac_div`. Meaningful
/// when the numerator is non-zero.
pub open spec fn frac_inv(q: Frac) -> Frac {
    if q.n >= 0 {
        Frac { n: q.d, d: q.n }
    } else {
        Frac { n: -q.d, d: -q.n }
    }
}

/// The `k`-th power of a fraction, multiplied up from the left.
pub open spec fn frac_pow(b: Frac, k: nat) -> Frac
    decreases k,
{
    if k == 0 {
        frac_one()
    } else {
        frac_mul(frac_pow(b, (k - 1) as nat), b)
    }
}

/// Every partial product of the `k`-th power fits in `i64`.
pub open spec fn pow_fits(b: Frac, k: nat) -> bool
    decreases k,
{
    if k == 0 {
        true
    } else {
        pow_fits(b, (k - 1) as nat) && frac_in_i64(frac_pow(b, k))
    }
}

/// The integer fits in `i64`.
pub open spec fn in_i64(x: int) -> bool {
    -0x8000_0000_0000_0000 <= x <= 0x7fff_ffff_ffff_ffff
}

/// Both components of the fraction pair fit in `i64`.
pub open spec fn frac_in_i64(q: Frac) -> bool {
    in_i64(q.n) && in_i64(q.d)
}

/// The integer fits in `i128`.
pub open spec fn in_i128(x: int) -> bool {
    -0x8000_0000_0000_0000_0000_0000_0000_0000 <= x
        <= 0x7fff_ffff_ffff_ffff_ffff_ffff_ffff_ffff
}

/// A product of two `i64`-range integers stays well inside the `i128` range:
/// the product never reaches `-2^126`, and reaches `2^126` only for two
/// extreme negative factors.
pub proof fn lemma_i64_mul_bound(x: int, y: int)
    by (nonlinear_arith)
    requires
        in_i64(x),
        in_i64(y),
    ensures
        -0x3fff_ffff_ffff_ffff_8000_0000_0000_0000 <= x * y
            <= 0x4000_0000_0000_0000_0000_0000_0000_0000,
{
}

/// A product of an `i64`-range integer and a positive `i64`-range integer
/// leaves room to add a second such product inside `i128`.
pub proof fn lemma_i64_mul_pos_bound(x: int, d: int)
    by (nonlinear_arith)
    requires
        in_i64(x),
        1 <= d <= 0x7fff_ffff_ffff_ffff,
    ensures
        -0x3fff_ffff_ffff_ffff_8000_0000_0000_0000 <= x * d
            <= 0x3fff_ffff_ffff_ffff_8000_0000_0000_0000,
{
}

/// A product of two positive integers is positive.
pub proof fn lemma_mul_pos(x: int, y: int)
    by (nonlinear_arith)
    requires
        x > 0,
        y > 0,
    ensures
        x * y > 0,
{
}

/// A product is zero only if a factor is zero.
pub proof fn lemma_mul_nonzero(x: int, y: int)
    by (nonlinear_arith)
    requires
        x != 0,
        y != 0,
    ensures
        x * y != 0,
{
}

/// Multiplying by a positive integer keeps the sign.
pub proof fn lemma_mul_sign(x: int, y: int)
    by (nonlinear_arith)
    requires
        x > 0,
    ensures
        y > 0 ==> x * y > 0,
        y < 0 ==> x * y < 0,
        y == 0 ==> x * y == 0,
{
}

/// Regrouping a product of four factors.
pub proof fn lemma_mul_shuffle(x: int, y: int, z: int, w: int)
    ensures
        (x * y) * (z * w) == (x * z) * (y * w),
        (x * y) * (z * w) == (x * w) * (y * z),
{
    vstd::arithmetic::mul::lemma_mul_is_associative(x, y, z * w);
    vstd::arithmetic::mul::lemma_mul_is_associative(y, z, w);
    vstd::arithmetic::mul::lemma_mul_is_commutative(y, z);
    vstd::arithmetic::mul::lemma_mul_is_associative(z, y, w);
    vstd::arithmetic::mul::lemma_mul_is_associative(x, z, y * w);
    vstd::arithmetic::mul::lemma_mul_is_commutative(y * z, w);
    vstd::arithmetic::mul::lemma_mul_is_associative(x, w, y * z);
}

/// If every partial power up to `k` fits, so does every partial power up to
/// any smaller exponent.
pub proof fn lemma_pow_fits_mono(b: Frac, j: nat, k: nat)
    requires
        j <= k,
        pow_fits(b, k),
    ensures
        pow_fits(b, j),
    decreases k,
{
    if j < k {
        lemma_pow_fits_mono(b, j, (k - 1) as nat);
    }
}

/// Powers of a positive fraction are positive.
pub proof fn lemma_pow_pos(b: Frac, k: nat)
    requires
        b.n > 0,
        b.d > 0,
    ensures
        frac_pow(b, k).n > 0,
        frac_pow(b, k).d > 0,
    decreases k,
{
    if k > 0 {
        lemma_pow_pos(b, (k - 1) as nat);
        lemma_mul_pos(frac_pow(b, (k - 1) as nat).n, b.n);
        lemma_mul_pos(frac_pow(b, (k - 1) as nat).d, b.d);
    }
}

/// An executable rational number: numerator and positive denominator, both
/// `i64`. The representation is not reduced; two values denote the same
/// rational number exactly when `frac_eq` holds of their models.
#[derive(Clone, Copy, Debug, PartialEq, Eq, Structural)]
pub struct Rat {
    num: i64,
    den: i64,
}

impl View for Rat {
    type V = Frac;

    closed spec fn view(&self) -> Frac {
        Frac { n: self.num as int, d: self.den as int }
    }
}

impl Rat {
    /// The denominator is positive.
    pub closed spec fn wf(self) -> bool {
        self.den > 0
    }

    /// A well-formed value has a positive model denominator.
    pub proof fn lemma_wf_pos(self)
        requires
            self.wf(),
        ensures
            frac_pos(self@),
            frac_wf(self@),
            frac_in_i64(self@),
    {
    }

    /// Builds `num / den`, moving the sign into the numerator. Returns `None`
    /// exactly when `den` is zero, or when `den` is negative and negating a
    /// component would leave `i64`.
    pub fn new(num: i64, den: i64) -> (r: Option<Rat>)
        ensures
            r is Some <==> (den > 0 || (den < 0 && num != i64::MIN && den != i64::MIN)),
            r matches Some(x) ==> x.wf() && frac_eq(x@, Frac { n: num as int, d: den as int }),
            den > 0 ==> (r matches Some(x) && x@ == (Frac { n: num as int, d: den as int })),
    {
        if den > 0 {
            Some(Rat { num, den })
        } else if den < 0 && num != i64::MIN && den != i64::MIN {
            proof {
                assert((-num as int) * (den as int) == (num as int) * (-den as int))
                    by (nonlinear_arith);
            }
            Some(Rat { num: -num, den: -den })
        } else {
            None
        }
    }

    /// Builds a value from components already known to be in normal form.
    pub(crate) fn from_num_den(num: i64, den: i64) -> (r: Rat)
        requires
            den > 0,
        ensures
            r.wf(),
            r@ == (Frac { n: num as int, d: den as int }),
    {
        Rat { num, den }
    }

    /// The whole number `i`.
    pub fn from_int(i: i64) -> (r: Rat)
        ensures
            r.wf(),
            r@ == (Frac { n: i as int, d: 1 }),
    {
        Rat { num: i, den: 1 }
    }

    /// Zero.
    pub fn zero() -> (r: Rat)
        ensures
            r.wf(),
            r@ == frac_zero(),
    {
        Rat { num: 0, den: 1 }
    }

    /// One.
    pub fn one() -> (r: Rat)
        ensures
            r.wf(),
            r@ == frac_one(),
    {
        Rat { num: 1, den: 1 }
    }

    /// The numerator of the (unreduced) representation.
    pub fn num(self) -> (r: i64)
        ensures
            r as int == self@.n,
    {
        self.num
    }

    /// The denominator of the (unreduced) representation.
    pub fn den(self) -> (r: i64)
        ensures
            r as int == self@.d,
    {
        self.den
    }

    /// Exact sum. `None` exactly when the exact result pair leaves `i64`.
    pub fn add(self, other: Rat) -> (r: Option<Rat>)
        requires
            self.wf(),
            other.wf(),
        ensures
            r is Some <==> frac_in_i64(frac_add(self@, other@)),
            r matches Some(x) ==> x.wf() && x@ == frac_add(self@, other@),
    {
        proof {
            lemma_i64_mul_pos_bound(self.num as int, other.den as int);
            lemma_i64_mul_pos_bound(other.num as int, self.den as int);
            lemma_i64_mul_bound(self.den as int, other.den as int);
            lemma_mul_pos(self.den as int, other.den as int);
        }
        let n: i128 = (self.num as i128) * (other.den as i128) + (other.num as i128) * (self.den
            as i128);
        let d: i128 = (self.den as i128) * (other.den as i128);
        if n < i64::MIN as i128 || n > i64::MAX as i128 || d > i64::MAX as i128 {
            None
        } else {
            Some(Rat { num: n as i64, den: d as i64 })
        }
    }

    /// Exact difference. `None` exactly when the exact result pair leaves
    /// `i64`.
    pub fn sub(self, other: Rat) -> (r: Option<Rat>)
        requires
            self.wf(),
            other.wf(),
        ensures
            r is Some <==> frac_in_i64(frac_sub(self@, other@)),
            r matches Some(x) ==> x.wf() && x@ == frac_sub(self@, other@),
    {
        proof {
            lemma_i64_mul_pos_bound(self.num as int, other.den as int);
            lemma_i64_mul_pos_bound(other.num as int, self.den as int);
            lemma_i64_mul_bound(self.den as int, other.den as int);
            lemma_mul_pos(self.den as int, other.den as int);
        }
        let n: i128 = (self.num as i128) * (other.den as i128) - (other.num as i128) * (self.den
            as i128);
        let d: i128 = (self.den as i128) * (other.den as i128);
        if n < i64::MIN as i128 || n > i64::MAX as i128 || d > i64::MAX as i128 {
            None
        } else {
            Some(Rat { num: n as i64, den: d as i64 })
        }
    }

    /// Exact product. `None` exactly when the exact result pair leaves `i64`.
    pub fn mul(self, other: Rat) -> (r: Option<Rat>)
        requires
            self.wf(),
            other.wf(),
        ensures
            r is Some <==> frac_in_i64(frac_mul(self@, other@)),
            r matches Some(x) ==> x.wf() && x@ == frac_mul(self@, other@),
    {
        proof {
            lemma_i64_mul_bound(self.num as int, other.num as int);
            lemma_i64_mul_bound(self.den as int, other.den as int);
            lemma_mul_pos(self.den as int, other.den as int);
        }
        let n: i128 = (self.num as i128) * (other.num as i128);
        let d: i128 = (self.den as i128) * (other.den as i128);
        if n < i64::MIN as i128 || n > i64::MAX as i128 || d > i64::MAX as i128 {
            None
        } else {
            Some(Rat { num: n as i64, den: d as i64 })
        }
    }

    /// Exact negation. `None` exactly when the numerator is `i64::MIN`.
    pub fn neg(self) -> (r: Option<Rat>)
        requires
            self.wf(),
        ensures
            r is Some <==> in_i64(-self@.n),
            r matches Some(x) ==> x.wf() && x@ == frac_neg(self@),
    {
        if self.num == i64::MIN {
            None
        } else {
            Some(Rat { num: -self.num, den: self.den })
        }
    }

    /// Exact quotient. `None` exactly when the divisor is zero or the exact
    /// result pair leaves `i64`.
    pub fn div(self, other: Rat) -> (r: Option<Rat>)
        requires
            self.wf(),
            other.wf(),
        ensures
            r is Some <==> other@.n != 0 && frac_in_i64(frac_div(self@, other@)),
            r matches Some(x) ==> x.wf() && x@ == frac_div(self@, other@),
    {
        if other.num == 0 {
            return None;
        }
        proof {
            lemma_i64_mul_bound(self.num as int, other.den as int);
            lemma_i64_mul_bound(self.den as int, other.num as int);
            lemma_mul_sign(self.den as int, other.num as int);
        }
        let mut n: i128 = (self.num as i128) * (other.den as i128);
        let mut d: i128 = (self.den as i128) * (other.num as i128);
        if d < 0 {
            n = -n;
            d = -d;
        }
        if n < i64::MIN as i128 || n > i64::MAX as i128 || d > i64::MAX as i128 {
            None
        } else {
            Some(Rat { num: n as i64, den: d as i64 })
        }
    }

    /// Exact comparison by cross-multiplication; never fails.
    pub fn le(self, other: Rat) -> (r: bool)
        requires
            self.wf(),
            other.wf(),
        ensures
            r == frac_le(self@, other@),
    {
        proof {
            lemma_i64_mul_pos_bound(self.num as int, other.den as int);
            lemma_i64_mul_pos_bound(other.num as int, self.den as int);
        }
        (self.num as i128) * (other.den as i128) <= (other.num as i128) * (self.den as i128)
    }

    /// Exact equality of the denoted rational numbers; never fails.
    pub fn equiv(self, other: Rat) -> (r: bool)
        requires
            self.wf(),
            other.wf(),
        ensures
            r == frac_eq(self@, other@),
    {
        proof {
            lemma_i64_mul_pos_bound(self.num as int, other.den as int);
            lemma_i64_mul_pos_bound(other.num as int, self.den as int);
        }
        (self.num as i128) * (other.den as i128) == (other.num as i128) * (self.den as i128)
    }

    /// The smaller of two values; never fails.
    pub fn min(self, other: Rat) -> (r: Rat)
        requires
            self.wf(),
            other.wf(),
        ensures
            r.wf(),
            r@ == frac_min(self@, other@),
    {
        if self.le(other) {
            self
        } else {
            other
        }
    }

    /// The value is zero.
    pub fn is_zero(self) -> (r: bool)
        requires
            self.wf(),
        ensures
            r == frac_is_zero(self@),
    {
        self.num == 0
    }

    /// Exact reciprocal. `None` exactly when the value is zero or flipping
    /// the sign-normalized pair leaves `i64`.
    pub fn recip(self) -> (r: Option<Rat>)
        requires
            self.wf(),
        ensures
            r is Some <==> self@.n != 0 && (self@.n > 0 || in_i64(-self@.n)),
            r matches Some(x) ==> x.wf() && x@ == frac_inv(self@),
    {
        if self.num > 0 {
            Some(Rat { num: self.den, den: self.num })
        } else if self.num < 0 && self.num != i64::MIN {
            Some(Rat { num: -self.den, den: -self.num })
        } else {
            None
        }
    }

    /// The exact `exponent`-th power, with a negative exponent taken as the
    /// power of the reciprocal. `None` exactly when a partial product of the
    /// exact power leaves `i64` (or, for a negative exponent, when the
    /// reciprocal itself cannot be formed).
    pub fn pow(self, exponent: i64) -> (r: Option<Rat>)
        requires
            self.wf(),
        ensures
            exponent >= 0 ==> ((r is Some <==> pow_fits(self@, exponent as nat)) && (r matches Some(
                x,
            ) ==> x.wf() && x@ == frac_pow(self@, exponent as nat))),
            exponent < 0 ==> ((r is Some <==> (self@.n != 0 && (self@.n > 0 || in_i64(-self@.n))
                && pow_fits(frac_inv(self@), (-exponent) as nat))) && (r matches Some(x) ==> x.wf()
                && x@ == frac_pow(frac_inv(self@), (-exponent) as nat))),
    {
        let base: Rat = if exponent >= 0 {
            self
        } else {
            match self.recip() {
                Some(v) => v,
                None => {
                    return None;
                },
            }
        };
        let count: u64 = if exponent >= 0 {
            exponent as u64
        } else {
            (-(exponent as i128)) as u64
        };
        let mut acc: Rat = Rat::one();
        let mut i: u64 = 0;
        while i < count
            invariant
                base.wf(),
                acc.wf(),
                i <= count,
                acc@ == frac_pow(base@, i as nat),
                pow_fits(base@, i as nat),
                exponent >= 0 ==> count as int == exponent as int && base == self,
                exponent < 0 ==> count as int == -(exponent as int) && base@ == frac_inv(self@)
                    && self@.n != 0 && (self@.n > 0 || in_i64(-self@.n)),
            decreases count - i,
        {
            acc = match acc.mul(base) {
                Some(v) => v,
                None => {
                    proof {
                        assert_by_contradiction!(!pow_fits(base@, count as nat), {
                            lemma_pow_fits_mono(base@, (i + 1) as nat, count as nat);
                        });
                        if exponent >= 0 {
                            assert(count as nat == exponent as nat);
                        } else {
                            assert(count as nat == (-exponent) as nat);
                        }
                    }
                    return None;
                },
            };
            i = i + 1;
        }
        Some(acc)
    }
}

} // verus!
