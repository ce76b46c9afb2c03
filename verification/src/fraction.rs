//! Exact figures: a quotient is handed out as its two parts, so that nothing
//! is lost to rounding before it is shown.

use vstd::prelude::*;

verus! {

/// A quotient of two integers, as contracts speak of it.
pub struct Ratio {
    pub num: int,
    pub den: int,
}

impl Ratio {
    /// The ratio that stands for zero.
    pub open spec fn zero() -> Ratio {
        Ratio { num: 0, den: 1 }
    }

    /// Whether two ratios with positive denominators are the same number.
    pub open spec fn same_number(self, other: Ratio) -> bool {
        self.num * other.den == other.num * self.den
    }

    /// Whether the ratio is a number above zero.
    pub open spec fn positive(self) -> bool {
        self.num > 0 && self.den > 0
    }
}

/// A quotient of two integers, as the library hands it out: the number is
/// `numerator / denominator`. Every fraction the library makes has a
/// denominator above zero.
#[derive(Clone, Copy, Debug, PartialEq, Eq)]
pub struct Fraction {
    pub numerator: u128,
    pub denominator: u128,
}

impl View for Fraction {
    type V = Ratio;

    open spec fn view(&self) -> Ratio {
        Ratio { num: self.numerator as int, den: self.denominator as int }
    }
}

/// The fraction that holds the parts of `ratio`, where they fit.
pub open spec fn fraction_of(ratio: Ratio) -> Fraction {
    Fraction { numerator: ratio.num as u128, denominator: ratio.den as u128 }
}

} // verus!
