//! Exact ratios of two whole numbers, for thresholds that are given as a
//! share of a whole.

use vstd::prelude::*;

verus! {

/// A ratio `num / den` of two whole numbers, with `den` above zero.
#[derive(Clone, Copy, Debug)]
pub struct Ratio {
    numerator: u64,
    denominator: u64,
}

/// `n`, or the largest `u64` where `n` is larger.
pub open spec fn clip_u64(n: nat) -> u64 {
    if n <= u64::MAX {
        n as u64
    } else {
        u64::MAX
    }
}

/// The value of a [`Ratio`]: `num / den`.
pub struct RatioView {
    pub num: nat,
    pub den: nat,
}

/// One half.
pub open spec fn half() -> RatioView {
    RatioView { num: 1, den: 2 }
}

impl RatioView {
    /// `n` times the ratio, rounded down.
    pub open spec fn floor_of(self, n: nat) -> nat {
        (n * self.num / self.den) as nat
    }

    /// `n` times the ratio, rounded up.
    pub open spec fn ceil_of(self, n: nat) -> nat {
        ((n * self.num + self.den - 1) / (self.den as int)) as nat
    }

    /// Whether `part / whole` is at least the ratio.
    pub open spec fn reached_by(self, part: nat, whole: nat) -> bool {
        part * self.den >= self.num * whole
    }
}

impl View for Ratio {
    type V = RatioView;

    closed spec fn view(&self) -> RatioView {
        RatioView { num: self.numerator as nat, den: self.denominator as nat }
    }
}

impl Ratio {
    #[verifier::type_invariant]
    spec fn positive_denominator(self) -> bool {
        self.denominator > 0
    }

    /// The ratio `numerator / denominator`; none where `denominator` is zero.
    pub fn new(numerator: u64, denominator: u64) -> (r: Option<Ratio>)
        ensures
            r is Some <==> denominator > 0,
            r is Some ==> r.unwrap()@ == (RatioView { num: numerator as nat, den: denominator as nat }),
    {
        if denominator == 0 {
            None
        } else {
            Some(Ratio { numerator, denominator })
        }
    }

    /// One half.
    pub fn half() -> (r: Ratio)
        ensures
            r@ == half(),
    {
        Ratio { numerator: 1, denominator: 2 }
    }

    /// The number above the line.
    pub fn numerator(&self) -> (n: u64)
        ensures
            n == self@.num,
    {
        self.numerator
    }

    /// The number below the line.
    pub fn denominator(&self) -> (d: u64)
        ensures
            d == self@.den,
            d > 0,
    {
        proof {
            use_type_invariant(self);
        }
        self.denominator
    }

    /// `n` times the ratio, rounded down and clipped to the largest `u64`.
    pub fn scale_floor(&self, n: u64) -> (r: u64)
        ensures
            r == clip_u64(self@.floor_of(n as nat)),
    {
        proof {
            use_type_invariant(self);
            assert(n as nat * self.numerator as nat <= 0xffff_ffff_ffff_ffff
                * 0xffff_ffff_ffff_ffff) by (nonlinear_arith)
                requires
                    n <= 0xffff_ffff_ffff_ffff,
                    self.numerator <= 0xffff_ffff_ffff_ffff,
            ;
        }
        let product: u128 = (n as u128) * (self.numerator as u128);
        let q: u128 = product / (self.denominator as u128);
        if q > 0xffff_ffff_ffff_ffff {
            u64::MAX
        } else {
            q as u64
        }
    }

    /// `n` times the ratio, rounded up and clipped to the largest `u64`.
    pub fn scale_ceil(&self, n: u64) -> (r: u64)
        ensures
            r == clip_u64(self@.ceil_of(n as nat)),
    {
        proof {
            use_type_invariant(self);
            assert(n as nat * self.numerator as nat <= 0xffff_ffff_ffff_ffff
                * 0xffff_ffff_ffff_ffff) by (nonlinear_arith)
                requires
                    n <= 0xffff_ffff_ffff_ffff,
                    self.numerator <= 0xffff_ffff_ffff_ffff,
            ;
        }
        let product: u128 = (n as u128) * (self.numerator as u128);
        let q: u128 = (product + (self.denominator as u128 - 1)) / (self.denominator as u128);
        if q > 0xffff_ffff_ffff_ffff {
            u64::MAX
        } else {
            q as u64
        }
    }

    /// Decides `reached_by`.
    pub fn is_reached_by(&self, part: u64, whole: u64) -> (r: bool)
        ensures
            r == self@.reached_by(part as nat, whole as nat),
    {
        proof {
            assert(part as nat * self.denominator as nat <= 0xffff_ffff_ffff_ffff
                * 0xffff_ffff_ffff_ffff) by (nonlinear_arith)
                requires
                    part <= 0xffff_ffff_ffff_ffff,
                    self.denominator <= 0xffff_ffff_ffff_ffff,
            ;
            assert(self.numerator as nat * whole as nat <= 0xffff_ffff_ffff_ffff
                * 0xffff_ffff_ffff_ffff) by (nonlinear_arith)
                requires
                    whole <= 0xffff_ffff_ffff_ffff,
                    self.numerator <= 0xffff_ffff_ffff_ffff,
            ;
        }
        let left: u128 = (part as u128) * (self.denominator as u128);
        let right: u128 = (self.numerator as u128) * (whole as u128);
        left >= right
    }
}

} // verus!
