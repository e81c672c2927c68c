use vstd::prelude::*;
use vstd::arithmetic::div_mod::{
    lemma_fundamental_div_mod,
    lemma_fundamental_div_mod_converse,
    lemma_mod_multiples_basic,
    lemma_mod_self_0,
};
use std::cmp::Ordering;

verus! {

/// Greatest common divisor, by Euclid's recursion; `gcd(0, 0) == 0`.
pub open spec fn gcd(a: nat, b: nat) -> nat
    decreases b,
{
    if b == 0 {
        a
    } else {
        gcd(b, a % b)
    }
}

pub open spec fn abs(x: int) -> nat {
    if x < 0 {
        (-x) as nat
    } else {
        x as nat
    }
}

pub open spec fn fits_i32(x: int) -> bool {
    i32::MIN <= x <= i32::MAX
}

/// The fraction `p.0 / p.1` in lowest terms, with the sign carried by the
/// numerator and a non-negative denominator. `0/0` stays `0/0`.
pub open spec fn lowest(p: (int, int)) -> (int, int) {
    let g = gcd(abs(p.0), abs(p.1));
    if g == 0 {
        (0, 0)
    } else {
        let a = abs(p.0) as int / g as int;
        let b = abs(p.1) as int / g as int;
        if (p.0 < 0) != (p.1 < 0) {
            (-a, b)
        } else {
            (a, b)
        }
    }
}

pub open spec fn fits_pair(p: (int, int)) -> bool {
    fits_i32(p.0) && fits_i32(p.1)
}

/// The reduced form of a pair of 32-bit integers: its lowest terms where
/// they fit in 32 bits. The only pairs whose lowest terms do not fit
/// (`i32::MIN` over a negative odd denominator, or an odd numerator over
/// `i32::MIN`) are already in lowest terms and are kept as they are.
pub open spec fn reduced(p: (int, int)) -> (int, int) {
    if fits_pair(lowest(p)) {
        lowest(p)
    } else {
        p
    }
}

/// The equality of rationals: two values with numerator 0 are both "unset"
/// and always equal; otherwise the reduced forms must agree.
pub open spec fn same_value(p: (int, int), q: (int, int)) -> bool {
    (p.0 == 0 && q.0 == 0) || reduced(p) == reduced(q)
}

/// Order by cross-multiplication, taking the signs of the denominators into
/// account. Two unset values are equal; a zero denominator orders as an
/// infinity of the numerator's sign; `0/0` is unordered against non-zero
/// values.
pub open spec fn compare(p: (int, int), q: (int, int)) -> Option<Ordering> {
    let t = p.0 * q.1 - q.0 * p.1;
    if p.0 == 0 && q.0 == 0 {
        Some(Ordering::Equal)
    } else if t != 0 {
        if (t < 0) != ((p.1 < 0) != (q.1 < 0)) {
            Some(Ordering::Less)
        } else {
            Some(Ordering::Greater)
        }
    } else if p.1 != 0 && q.1 != 0 {
        Some(Ordering::Equal)
    } else if p.0 != 0 && q.0 != 0 {
        if (p.0 < 0) == (q.0 < 0) {
            Some(Ordering::Equal)
        } else if p.0 < 0 {
            Some(Ordering::Less)
        } else {
            Some(Ordering::Greater)
        }
    } else {
        None
    }
}

/// Exact sum, difference, product and quotient, before reduction.
pub open spec fn sum_of(p: (int, int), q: (int, int)) -> (int, int) {
    (p.0 * q.1 + q.0 * p.1, p.1 * q.1)
}

pub open spec fn difference_of(p: (int, int), q: (int, int)) -> (int, int) {
    (p.0 * q.1 - q.0 * p.1, p.1 * q.1)
}

pub open spec fn product_of(p: (int, int), q: (int, int)) -> (int, int) {
    (p.0 * q.0, p.1 * q.1)
}

pub open spec fn quotient_of(p: (int, int), q: (int, int)) -> (int, int) {
    (p.0 * q.1, p.1 * q.0)
}

/// The exact result of an operation on two rationals, where the operands
/// have non-zero denominators, the result's denominator is not zero and its
/// lowest terms fit in 32 bits.
pub open spec fn exact_result(p: (int, int), q: (int, int), raw: (int, int)) -> Option<(int, int)> {
    if p.1 != 0 && q.1 != 0 && raw.1 != 0 && fits_pair(lowest(raw)) {
        Some(lowest(raw))
    } else {
        None
    }
}

/// Distance of `q` to `x`, scaled by the positive factor `|q.1 * x.1 * y.1|`
/// shared with the distance of `q` to `y`.
pub open spec fn scaled_distance(q: (int, int), x: (int, int), y: (int, int)) -> int {
    abs(q.0 * x.1 - x.0 * q.1) as int * abs(y.1) as int
}

/// `Greater` when `q1` is nearer to `q` than `q2`, `Less` when `q2` is
/// nearer, `Equal` when both are at the same distance.
pub open spec fn nearer_spec(q: (int, int), q1: (int, int), q2: (int, int)) -> Ordering {
    let d1 = scaled_distance(q, q1, q2);
    let d2 = scaled_distance(q, q2, q1);
    if d1 < d2 {
        Ordering::Greater
    } else if d1 > d2 {
        Ordering::Less
    } else {
        Ordering::Equal
    }
}

/// An exact fraction `num / den` of two signed 32-bit integers. A numerator
/// of 0 means "unset"; all values with numerator 0 are equal.
#[derive(Clone, Copy, Debug)]
pub struct Rational {
    num: i32,
    den: i32,
}

impl View for Rational {
    type V = (int, int);

    closed spec fn view(&self) -> (int, int) {
        (self.num as int, self.den as int)
    }
}

impl Rational {
    pub closed spec fn spec_new(num: i32, den: i32) -> Rational {
        Rational { num, den }
    }

    pub fn new(num: i32, den: i32) -> (r: Rational)
        ensures
            r@ == (num as int, den as int),
            r == Rational::spec_new(num, den),
    {
        Rational { num, den }
    }

    pub fn num(&self) -> (r: i32)
        ensures
            r == self@.0,
    {
        self.num
    }

    pub fn den(&self) -> (r: i32)
        ensures
            r == self@.1,
    {
        self.den
    }

    /// Whether this is the "unset" value, i.e. its numerator is 0.
    pub fn is_none(&self) -> (r: bool)
        ensures
            r == (self@.0 == 0),
    {
        self.num == 0
    }

    /// The reduced form of this value.
    pub fn reduce(&self) -> (r: Rational)
        ensures
            r@ == reduced(self@),
    {
        match lowest_terms(self.num as i128, self.den as i128) {
            Some(r) => r,
            None => *self,
        }
    }

    /// The exact sum, reduced; `None` where a denominator is zero or the
    /// result does not fit in 32 bits.
    pub fn checked_add(self, other: Rational) -> (r: Option<Rational>)
        ensures
            r.is_some() == exact_result(self@, other@, sum_of(self@, other@)).is_some(),
            r.is_some() ==> Some(r.unwrap()@) == exact_result(self@, other@, sum_of(self@, other@)),
    {
        let a = self.num as i128;
        let b = self.den as i128;
        let c = other.num as i128;
        let d = other.den as i128;
        proof {
            lemma_product_bound(a, d);
            lemma_product_bound(c, b);
            lemma_product_bound(b, d);
        }
        if b == 0 || d == 0 || b * d == 0 {
            return None;
        }
        lowest_terms(a * d + c * b, b * d)
    }

    /// The exact difference, reduced; `None` where a denominator is zero or
    /// the result does not fit in 32 bits.
    pub fn checked_sub(self, other: Rational) -> (r: Option<Rational>)
        ensures
            r.is_some() == exact_result(self@, other@, difference_of(self@, other@)).is_some(),
            r.is_some() ==> Some(r.unwrap()@) == exact_result(self@, other@, difference_of(self@, other@)),
    {
        let a = self.num as i128;
        let b = self.den as i128;
        let c = other.num as i128;
        let d = other.den as i128;
        proof {
            lemma_product_bound(a, d);
            lemma_product_bound(c, b);
            lemma_product_bound(b, d);
        }
        if b == 0 || d == 0 || b * d == 0 {
            return None;
        }
        lowest_terms(a * d - c * b, b * d)
    }

    /// The exact product, reduced; `None` where a denominator is zero or the
    /// result does not fit in 32 bits.
    pub fn checked_mul(self, other: Rational) -> (r: Option<Rational>)
        ensures
            r.is_some() == exact_result(self@, other@, product_of(self@, other@)).is_some(),
            r.is_some() ==> Some(r.unwrap()@) == exact_result(self@, other@, product_of(self@, other@)),
    {
        let a = self.num as i128;
        let b = self.den as i128;
        let c = other.num as i128;
        let d = other.den as i128;
        proof {
            lemma_product_bound(a, c);
            lemma_product_bound(b, d);
        }
        if b == 0 || d == 0 || b * d == 0 {
            return None;
        }
        lowest_terms(a * c, b * d)
    }

    /// The exact quotient, reduced; `None` where a denominator is zero, the
    /// divisor is zero, or the result does not fit in 32 bits.
    pub fn checked_div(self, other: Rational) -> (r: Option<Rational>)
        ensures
            r.is_some() == exact_result(self@, other@, quotient_of(self@, other@)).is_some(),
            r.is_some() ==> Some(r.unwrap()@) == exact_result(self@, other@, quotient_of(self@, other@)),
    {
        let a = self.num as i128;
        let b = self.den as i128;
        let c = other.num as i128;
        let d = other.den as i128;
        proof {
            lemma_product_bound(a, d);
            lemma_product_bound(b, c);
        }
        if b == 0 || d == 0 || b * c == 0 {
            return None;
        }
        lowest_terms(a * d, b * c)
    }
}

impl PartialEq for Rational {
    fn eq(&self, other: &Rational) -> (r: bool) {
        if self.num == 0 && other.num == 0 {
            true
        } else {
            let a = self.reduce();
            let b = other.reduce();
            a.num == b.num && a.den == b.den
        }
    }
}

impl vstd::std_specs::cmp::PartialEqSpecImpl for Rational {
    open spec fn obeys_eq_spec() -> bool {
        true
    }

    open spec fn eq_spec(&self, other: &Rational) -> bool {
        same_value(self@, other@)
    }
}

impl PartialOrd for Rational {
    fn partial_cmp(&self, other: &Rational) -> (r: Option<Ordering>) {
        let a = self.num as i128;
        let b = self.den as i128;
        let c = other.num as i128;
        let d = other.den as i128;
        proof {
            lemma_product_bound(a, d);
            lemma_product_bound(c, b);
        }
        let t = a * d - c * b;
        if a == 0 && c == 0 {
            Some(Ordering::Equal)
        } else if t != 0 {
            if (t < 0) != ((b < 0) != (d < 0)) {
                Some(Ordering::Less)
            } else {
                Some(Ordering::Greater)
            }
        } else if b != 0 && d != 0 {
            Some(Ordering::Equal)
        } else if a != 0 && c != 0 {
            if (a < 0) == (c < 0) {
                Some(Ordering::Equal)
            } else if a < 0 {
                Some(Ordering::Less)
            } else {
                Some(Ordering::Greater)
            }
        } else {
            None
        }
    }
}

impl vstd::std_specs::cmp::PartialOrdSpecImpl for Rational {
    open spec fn obeys_partial_cmp_spec() -> bool {
        true
    }

    open spec fn partial_cmp_spec(&self, other: &Rational) -> Option<Ordering> {
        compare(self@, other@)
    }
}

impl From<(i32, i32)> for Rational {
    fn from(value: (i32, i32)) -> (r: Rational) {
        Rational { num: value.0, den: value.1 }
    }
}

impl vstd::std_specs::convert::FromSpecImpl<(i32, i32)> for Rational {
    open spec fn obeys_from_spec() -> bool {
        true
    }

    closed spec fn from_spec(v: (i32, i32)) -> Rational {
        Rational { num: v.0, den: v.1 }
    }
}

/// Which of `q1` and `q2` is nearer to `q`: `Greater` for `q1`, `Less` for
/// `q2`, `Equal` when they are equally far. A zero denominator is a domain
/// error and is not accepted.
pub fn nearer(q: Rational, q1: Rational, q2: Rational) -> (r: Ordering)
    requires
        q@.1 != 0,
        q1@.1 != 0,
        q2@.1 != 0,
    ensures
        r == nearer_spec(q@, q1@, q2@),
{
    let n = q.num as i128;
    let d = q.den as i128;
    let n1 = q1.num as i128;
    let d1 = q1.den as i128;
    let n2 = q2.num as i128;
    let d2 = q2.den as i128;
    proof {
        lemma_product_bound(n, d1);
        lemma_product_bound(n1, d);
        lemma_product_bound(n, d2);
        lemma_product_bound(n2, d);
    }
    let e1 = abs_u128(n * d1 - n1 * d);
    let e2 = abs_u128(n * d2 - n2 * d);
    let f1 = abs_u128(d1);
    let f2 = abs_u128(d2);
    proof {
        lemma_scaled_bound(e1 as int, f2 as int);
        lemma_scaled_bound(e2 as int, f1 as int);
    }
    let x1 = e1 * f2;
    let x2 = e2 * f1;
    if x1 < x2 {
        Ordering::Greater
    } else if x1 > x2 {
        Ordering::Less
    } else {
        Ordering::Equal
    }
}

// ---- executable helpers ----

spec fn small(x: int) -> bool {
    -0x4000_0000_0000_0000_0000_0000_0000_0000 < x < 0x4000_0000_0000_0000_0000_0000_0000_0000
}

proof fn lemma_product_bound(a: i128, b: i128)
    requires
        fits_i32(a as int),
        fits_i32(b as int),
    ensures
        -0x4000_0000_0000_0001 <= a * b <= 0x4000_0000_0000_0000,
{
    assert(-0x4000_0000_0000_0001 <= a * b <= 0x4000_0000_0000_0000) by (nonlinear_arith)
        requires
            -0x8000_0000 <= a <= 0x7fff_ffff,
            -0x8000_0000 <= b <= 0x7fff_ffff,
    ;
}

proof fn lemma_scaled_bound(e: int, f: int)
    requires
        0 <= e <= 0x8000_0000_0000_0002,
        0 <= f <= 0x8000_0000,
    ensures
        e * f <= 0x4000_0000_0000_0001_0000_0000,
{
    assert(e * f <= 0x4000_0000_0000_0001_0000_0000) by (nonlinear_arith)
        requires
            0 <= e <= 0x8000_0000_0000_0002,
            0 <= f <= 0x8000_0000,
    ;
}

fn abs_u128(x: i128) -> (r: u128)
    requires
        x > i128::MIN,
    ensures
        r == abs(x as int),
{
    if x < 0 {
        (-x) as u128
    } else {
        x as u128
    }
}

fn gcd_u128(a: u128, b: u128) -> (g: u128)
    ensures
        g == gcd(a as nat, b as nat),
{
    let mut x = a;
    let mut y = b;
    while y != 0
        invariant
            gcd(x as nat, y as nat) == gcd(a as nat, b as nat),
        decreases y,
    {
        let t = x % y;
        x = y;
        y = t;
    }
    x
}

/// The lowest terms of `n / d` as a `Rational`, where they fit in 32 bits.
fn lowest_terms(n: i128, d: i128) -> (r: Option<Rational>)
    requires
        small(n as int),
        small(d as int),
    ensures
        r.is_some() == fits_pair(lowest((n as int, d as int))),
        r.is_some() ==> r.unwrap()@ == lowest((n as int, d as int)),
{
    let an = abs_u128(n);
    let ad = abs_u128(d);
    let g = gcd_u128(an, ad);
    if g == 0 {
        return Some(Rational { num: 0, den: 0 });
    }
    let a = an / g;
    let b = ad / g;
    proof {
        vstd::arithmetic::div_mod::lemma_div_is_ordered_by_denominator(an as int, 1, g as int);
        vstd::arithmetic::div_mod::lemma_div_is_ordered_by_denominator(ad as int, 1, g as int);
    }
    let neg = (n < 0) != (d < 0);
    let sa: i128 = if neg {
        -(a as i128)
    } else {
        a as i128
    };
    if i32::MIN as i128 <= sa && sa <= i32::MAX as i128 && b <= i32::MAX as u128 {
        Some(Rational { num: sa as i32, den: b as i32 })
    } else {
        None
    }
}

// ---- number theory ----

proof fn lemma_gcd_divides(a: nat, b: nat)
    ensures
        gcd(a, b) > 0 ==> (a as int) % (gcd(a, b) as int) == 0 && (b as int) % (gcd(a, b) as int)
            == 0,
    decreases b,
{
    if b == 0 {
        if a > 0 {
            lemma_mod_self_0(a as int);
        }
    } else {
        let r = a % b;
        lemma_gcd_divides(b, r);
        let g = gcd(a, b) as int;
        if g > 0 {
            lemma_fundamental_div_mod(a as int, b as int);
            lemma_fundamental_div_mod(b as int, g);
            lemma_fundamental_div_mod(r as int, g);
            let x = (b as int / g) * (a as int / b as int) + (r as int / g);
            assert(a as int == x * g) by (nonlinear_arith)
                requires
                    a as int == b * (a as int / b as int) + r,
                    b as int == g * (b as int / g) + 0,
                    r as int == g * (r as int / g) + 0,
                    x == (b as int / g) * (a as int / b as int) + (r as int / g),
            ;
            lemma_mod_multiples_basic(x, g);
        }
    }
}

proof fn lemma_mod_scale(k: int, x: int, y: int)
    requires
        k > 0,
        x >= 0,
        y > 0,
    ensures
        (k * x) % (k * y) == k * (x % y),
        k * y > 0,
        k * x >= 0,
{
    lemma_fundamental_div_mod(x, y);
    assert(0 <= x % y < y);
    assert(k * x == (x / y) * (k * y) + k * (x % y)) by (nonlinear_arith)
        requires
            x == y * (x / y) + x % y,
    ;
    assert(0 <= k * (x % y) < k * y) by (nonlinear_arith)
        requires
            0 <= x % y < y,
            k > 0,
    ;
    lemma_fundamental_div_mod_converse(k * x, k * y, x / y, k * (x % y));
}

proof fn lemma_gcd_scale(k: nat, x: nat, y: nat)
    requires
        k > 0,
    ensures
        gcd((k * x) as nat, (k * y) as nat) == k * gcd(x, y),
    decreases y,
{
    if y == 0 {
        assert(k * y == 0) by (nonlinear_arith)
            requires
                y == 0,
        ;
    } else {
        lemma_mod_scale(k as int, x as int, y as int);
        assert(k * y != 0) by (nonlinear_arith)
            requires
                k > 0,
                y > 0,
        ;
        lemma_gcd_scale(k, y, x % y);
        assert(((k * x) as nat) % ((k * y) as nat) == (k * (x % y)) as nat);
    }
}

proof fn lemma_quotients_coprime(a: nat, b: nat)
    requires
        gcd(a, b) > 0,
    ensures
        gcd((a as int / gcd(a, b) as int) as nat, (b as int / gcd(a, b) as int) as nat) == 1,
{
    let g = gcd(a, b);
    lemma_gcd_divides(a, b);
    lemma_fundamental_div_mod(a as int, g as int);
    lemma_fundamental_div_mod(b as int, g as int);
    let x = (a as int / g as int) as nat;
    let y = (b as int / g as int) as nat;
    lemma_gcd_scale(g, x, y);
    assert(g * x == a && g * y == b);
    assert(g * gcd(x, y) == g * 1);
    assert(gcd(x, y) == 1) by (nonlinear_arith)
        requires
            g * gcd(x, y) == g * 1,
            g > 0,
    ;
}

proof fn lemma_lowest_idempotent(p: (int, int))
    ensures
        lowest(lowest(p)) == lowest(p),
        lowest(p).1 >= 0,
{
    let g = gcd(abs(p.0), abs(p.1));
    if g > 0 {
        lemma_quotients_coprime(abs(p.0), abs(p.1));
        let a = abs(p.0) as int / g as int;
        let b = abs(p.1) as int / g as int;
        vstd::arithmetic::div_mod::lemma_div_pos_is_pos(abs(p.0) as int, g as int);
        vstd::arithmetic::div_mod::lemma_div_pos_is_pos(abs(p.1) as int, g as int);
        let q = lowest(p);
        assert(abs(q.0) == a && abs(q.1) == b);
        assert(gcd(abs(q.0), abs(q.1)) == 1);
    }
}

/// Reducing is idempotent, and a value is equal to its own reduced form.
pub proof fn lemma_reduce_idempotent(r: Rational)
    ensures
        reduced(reduced(r@)) == reduced(r@),
        same_value(reduced(r@), r@),
{
    lemma_lowest_idempotent(r@);
}

/// Any two values with numerator 0 are equal, whatever their denominators.
pub proof fn lemma_unset_values_equal(a: Rational, b: Rational)
    requires
        a@.0 == 0,
        b@.0 == 0,
    ensures
        same_value(a@, b@),
        a == b <==> a@.1 == b@.1,
{
}

} // verus!
