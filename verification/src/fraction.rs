//! Exact non-negative scalars.
//!
//! Every tunable quantity of the simulation (speeds, blend factors, angle
//! limits) is held as a ratio of two integers, so that the rules can be
//! stated and checked without rounding. A caller that works in another
//! number format divides `numerator` by `denominator` once, at its edge.

use vstd::prelude::*;

verus! {

/// A non-negative rational number: `numerator` over `denominator`.
#[derive(Clone, Copy, Debug, PartialEq, Eq, Structural)]
pub struct Fraction {
    pub numerator: u64,
    pub denominator: u64,
}

impl Fraction {
    /// A fraction denotes a number only when its denominator is positive.
    pub open spec fn wf(self) -> bool {
        self.denominator > 0
    }

    /// Both parts fit in 32 bits, so that a product of two such fractions
    /// fits in 64.
    pub open spec fn small(self) -> bool {
        &&& self.wf()
        &&& self.numerator <= u32::MAX
        &&& self.denominator <= u32::MAX
    }

    /// `self` and `other` denote the same number.
    pub open spec fn same_number(self, other: Fraction) -> bool {
        self.numerator * other.denominator == other.numerator * self.denominator
    }

    /// `self <= other` as numbers.
    pub open spec fn at_most(self, other: Fraction) -> bool {
        self.numerator * other.denominator <= other.numerator * self.denominator
    }

    /// `self == 0`.
    pub open spec fn is_zero(self) -> bool {
        self.numerator == 0
    }

    /// `self <= 1`.
    pub open spec fn proper(self) -> bool {
        self.numerator <= self.denominator
    }

    /// `self == a * b` as numbers.
    pub open spec fn is_product_of(self, a: Fraction, b: Fraction) -> bool {
        self.numerator * (a.denominator * b.denominator) == (a.numerator * b.numerator)
            * self.denominator
    }

    /// `self + a == 1` as numbers.
    pub open spec fn is_complement_of(self, a: Fraction) -> bool {
        self.numerator * a.denominator + a.numerator * self.denominator == self.denominator
            * a.denominator
    }

    /// The product, part by part.
    pub open spec fn product(a: Fraction, b: Fraction) -> Fraction {
        Fraction {
            numerator: (a.numerator * b.numerator) as u64,
            denominator: (a.denominator * b.denominator) as u64,
        }
    }

    /// What is missing to one, over the same denominator.
    pub open spec fn complement_of(a: Fraction) -> Fraction {
        Fraction { numerator: (a.denominator - a.numerator) as u64, denominator: a.denominator }
    }

    /// Builds `numerator / denominator`; there is no such number when the
    /// denominator is zero.
    pub fn new(numerator: u64, denominator: u64) -> (made: Option<Fraction>)
        ensures
            denominator == 0 ==> made is None,
            denominator != 0 ==> made == Some(Fraction { numerator, denominator }),
    {
        if denominator == 0 {
            None
        } else {
            Some(Fraction { numerator, denominator })
        }
    }

    /// Tells whether both parts fit in 32 bits and the denominator is
    /// positive.
    pub fn is_small(&self) -> (small: bool)
        ensures
            small == self.small(),
    {
        self.denominator > 0 && self.numerator <= 0xffff_ffff && self.denominator <= 0xffff_ffff
    }

    /// Tells whether the fraction denotes a number that is at most one.
    pub fn is_share(&self) -> (share: bool)
        ensures
            share == (self.wf() && self.proper()),
    {
        self.denominator > 0 && self.numerator <= self.denominator
    }

    /// The product of two small fractions, exactly.
    pub fn times(self, other: Fraction) -> (result: Fraction)
        requires
            self.small(),
            other.small(),
        ensures
            result == Fraction::product(self, other),
            result.wf(),
            result.is_product_of(self, other),
    {
        proof {
            lemma_product_fits(self.numerator, other.numerator);
            lemma_product_fits(self.denominator, other.denominator);
            lemma_product_positive(self.denominator, other.denominator);
        }
        Fraction {
            numerator: self.numerator * other.numerator,
            denominator: self.denominator * other.denominator,
        }
    }

    /// One minus a fraction that does not exceed one, exactly.
    pub fn complement(self) -> (result: Fraction)
        requires
            self.wf(),
            self.proper(),
        ensures
            result == Fraction::complement_of(self),
            result.wf(),
            result.proper(),
            result.is_complement_of(self),
    {
        let result = Fraction {
            numerator: self.denominator - self.numerator,
            denominator: self.denominator,
        };
        proof {
            lemma_complement_adds_to_one(self);
        }
        result
    }
}

/// Two 32-bit quantities multiply to a 64-bit one.
pub proof fn lemma_product_fits(a: u64, b: u64)
    requires
        a <= u32::MAX,
        b <= u32::MAX,
    ensures
        a * b <= u64::MAX,
{
    assert(a * b <= 0xffff_ffff * 0xffff_ffff) by (nonlinear_arith)
        requires
            a <= 0xffff_ffff,
            b <= 0xffff_ffff,
    ;
}

/// A product of positive numbers is positive.
pub proof fn lemma_product_positive(a: u64, b: u64)
    requires
        a > 0,
        b > 0,
    ensures
        a * b > 0,
{
    assert(a * b > 0) by (nonlinear_arith)
        requires
            a > 0,
            b > 0,
    ;
}

/// A proper fraction and its complement add up to one.
pub proof fn lemma_complement_adds_to_one(a: Fraction)
    requires
        a.wf(),
        a.proper(),
    ensures
        Fraction::complement_of(a).is_complement_of(a),
{
    let d = a.denominator as int;
    let n = a.numerator as int;
    assert((d - n) * d + n * d == d * d) by (nonlinear_arith);
}

} // verus!
