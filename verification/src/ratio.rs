use vstd::prelude::*;
use crate::text::{decimal, push_decimal, push_three_digits, three_digits};

verus! {

/// A non-negative ratio of two byte counts, kept exactly as numerator and
/// denominator. A zero denominator under a positive numerator stands for a
/// ratio without bound; zero over zero stands for no number at all.
#[derive(Clone, Copy, Debug, PartialEq, Eq, Structural)]
pub struct Ratio {
    pub num: u64,
    pub den: u64,
}

impl Ratio {
    /// The ratio is an ordinary number.
    pub open spec fn finite(self) -> bool {
        self.den > 0
    }

    /// The ratio exceeds every number.
    pub open spec fn unbounded(self) -> bool {
        self.den == 0 && self.num > 0
    }

    /// The ratio is zero over zero.
    pub open spec fn undefined(self) -> bool {
        self.den == 0 && self.num == 0
    }

    /// `self` and `other` are the same number, whatever terms they are written in.
    pub open spec fn same_value(self, other: Ratio) -> bool {
        &&& !self.undefined()
        &&& !other.undefined()
        &&& self.num * other.den == other.num * self.den
    }

    /// `self` is at most `other`. Nothing compares with an undefined ratio.
    pub open spec fn at_most(self, other: Ratio) -> bool {
        &&& !self.undefined()
        &&& !other.undefined()
        &&& self.num * other.den <= other.num * self.den
    }

    /// The sum of two ratios is exactly one.
    pub open spec fn sums_to_one(self, other: Ratio) -> bool {
        &&& self.finite()
        &&& other.finite()
        &&& self.num * other.den + other.num * self.den == self.den * other.den
    }

    /// The number of thousandths nearest to a finite ratio; a ratio that lies
    /// halfway between two goes to the even one.
    pub open spec fn thousandths(self) -> nat
        recommends
            self.finite(),
    {
        let scaled = self.num as nat * 1000;
        let whole = scaled / (self.den as nat);
        let rest = scaled % (self.den as nat);
        if 2 * rest > self.den || (2 * rest == self.den && whole % 2 == 1) {
            whole + 1
        } else {
            whole
        }
    }

    /// The ratio written with three decimal places; `inf` for a ratio
    /// without bound and `NaN` for an undefined one.
    pub open spec fn fixed3(self) -> Seq<char> {
        if self.undefined() {
            "NaN"@
        } else if self.unbounded() {
            "inf"@
        } else {
            let t = self.thousandths();
            decimal(t / 1000).push('.') + three_digits(t % 1000)
        }
    }

    /// The ratio of `num` to `den`, in those terms.
    pub fn new(num: u64, den: u64) -> (r: Ratio)
        ensures
            r == (Ratio { num, den }),
    {
        Ratio { num, den }
    }

    /// The ratio 0.
    pub fn zero() -> (r: Ratio)
        ensures
            r == (Ratio { num: 0, den: 1 }),
    {
        Ratio { num: 0, den: 1 }
    }

    /// The ratio 1.
    pub fn one() -> (r: Ratio)
        ensures
            r == (Ratio { num: 1, den: 1 }),
    {
        Ratio { num: 1, den: 1 }
    }

    /// The ratio without bound.
    pub fn infinity() -> (r: Ratio)
        ensures
            r == (Ratio { num: 1, den: 0 }),
    {
        Ratio { num: 1, den: 0 }
    }

    /// Whether the ratio is an ordinary number.
    pub fn is_finite(&self) -> (b: bool)
        ensures
            b == self.finite(),
    {
        self.den > 0
    }

    /// Whether the ratio exceeds every number.
    pub fn is_infinite(&self) -> (b: bool)
        ensures
            b == self.unbounded(),
    {
        self.den == 0 && self.num > 0
    }

    /// Whether the ratio is zero over zero.
    pub fn is_nan(&self) -> (b: bool)
        ensures
            b == self.undefined(),
    {
        self.den == 0 && self.num == 0
    }

    /// Compares by cross-multiplication, in 128 bits, so that no product overflows.
    pub fn le(&self, other: &Ratio) -> (b: bool)
        ensures
            b == self.at_most(*other),
    {
        if self.is_nan() || other.is_nan() {
            return false;
        }
        let left: u128 = mul_wide(self.num, other.den);
        let right: u128 = mul_wide(other.num, self.den);
        left <= right
    }

    /// Appends the ratio with three decimal places to `out`.
    pub fn push_fixed3(&self, out: &mut String)
        ensures
            final(out)@ == old(out)@ + self.fixed3(),
    {
        if self.is_nan() {
            out.append("NaN");
        } else if self.is_infinite() {
            out.append("inf");
        } else {
            let den: u128 = self.den as u128;
            let scaled: u128 = mul_wide(self.num, 1000);
            let whole: u128 = scaled / den;
            let rest: u128 = scaled % den;
            assert(whole <= scaled) by (nonlinear_arith)
                requires
                    whole == scaled / den,
                    den >= 1,
            ;
            let up: bool = 2 * rest > den || (2 * rest == den && whole % 2 == 1);
            let t: u128 = if up {
                whole + 1
            } else {
                whole
            };
            assert(t == self.thousandths());
            push_decimal(out, t / 1000);
            out.push('.');
            let ghost head = out@;
            push_three_digits(out, (t % 1000) as u16);
            assert(head == (old(out)@ + decimal((t / 1000) as nat)).push('.'));
            assert(final(out)@ =~= old(out)@ + (decimal((t / 1000) as nat).push('.')
                + three_digits((t % 1000) as nat)));
        }
    }

    /// The ratio with three decimal places, as a string of its own.
    pub fn to_fixed3(&self) -> (s: String)
        ensures
            s@ == self.fixed3(),
    {
        let mut s = String::new();
        self.push_fixed3(&mut s);
        assert(s@ =~= self.fixed3());
        s
    }
}

/// The product of two 64-bit numbers, which always fits in 128 bits.
pub fn mul_wide(a: u64, b: u64) -> (p: u128)
    ensures
        p == a * b,
{
    assert(a * b <= 0xffff_ffff_ffff_ffff * 0xffff_ffff_ffff_ffff) by (nonlinear_arith)
        requires
            a <= 0xffff_ffff_ffff_ffff,
            b <= 0xffff_ffff_ffff_ffff,
    ;
    (a as u128) * (b as u128)
}

} // verus!
