//! The aspect-ratio threshold, kept as an exact rational number.
//!
//! The rule "split vertically when `height > width / ratio`" is evaluated
//! without division: with `ratio = num / den` (and `den > 0`), it is the
//! same as `height * num > width * den` over the integers.

use vstd::prelude::*;

verus! {

/// A positive rational threshold `num / den`.
#[derive(Clone, Copy, Debug, PartialEq, Eq, Structural)]
pub struct Ratio {
    pub num: u32,
    pub den: u32,
}

impl Ratio {
    /// A ratio is well formed when its denominator is nonzero.
    pub open spec fn wf(self) -> bool {
        self.den > 0
    }

    /// Builds a ratio, rejecting a zero denominator.
    pub fn new(num: u32, den: u32) -> (r: Option<Ratio>)
        ensures
            den > 0 <==> r is Some,
            r matches Some(q) ==> q.wf() && q.num == num && q.den == den,
    {
        if den > 0 {
            Some(Ratio { num, den })
        } else {
            None
        }
    }

    /// Whether `height > width / self` holds, i.e. `height * num > width * den`.
    pub open spec fn exceeds(self, width: int, height: int) -> bool {
        height * self.num > width * self.den
    }
}

} // verus!
