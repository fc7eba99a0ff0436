//! The monetary value type: a fixed-point decimal with four fractional
//! digits, stored as a count of ten-thousandths in an `i64`.
//!
//! All arithmetic is checked: `checked_add` and `checked_sub` report
//! overflow and underflow with `None` instead of wrapping. Comparisons are
//! made on the raw count, at full precision.

use vstd::prelude::*;

verus! {

/// A monetary value, counted in ten-thousandths of a unit: `raw == 105_000`
/// stands for `10.5000`. The view of an `Amount` is that count as an `int`.
#[derive(Clone, Copy, PartialEq, Eq, Structural, Debug, Hash)]
pub struct Amount {
    pub raw: i64,
}

impl View for Amount {
    type V = int;

    open spec fn view(&self) -> int {
        self.raw as int
    }
}

impl Amount {
    /// An amount of the given count of ten-thousandths.
    pub fn new(raw: i64) -> (r: Amount)
        ensures
            r@ == raw as int,
    {
        Amount { raw }
    }

    /// The zero amount.
    pub fn zero() -> (r: Amount)
        ensures
            r@ == 0,
    {
        Amount { raw: 0 }
    }

    /// The sum, or `None` when it falls outside the representable range.
    pub fn checked_add(self, other: Amount) -> (r: Option<Amount>)
        ensures
            self@ + other@ < i64::MIN || self@ + other@ > i64::MAX ==> r is None,
            i64::MIN <= self@ + other@ <= i64::MAX ==> (r matches Some(v) && v@ == self@ + other@),
    {
        match self.raw.checked_add(other.raw) {
            Some(v) => Some(Amount { raw: v }),
            None => None,
        }
    }

    /// Splits the amount for display with four fractional digits: whether
    /// it is negative, the whole units of its magnitude, and the remaining
    /// ten-thousandths (always below ten thousand).
    pub fn display_parts(self) -> (parts: (bool, u64, u64))
        ensures
            parts.0 == (self@ < 0),
            self@ >= 0 ==> parts.1 == self@ / 10000 && parts.2 == self@ % 10000,
            self@ < 0 ==> parts.1 == (-self@) / 10000 && parts.2 == (-self@) % 10000,
            parts.2 < 10000,
    {
        let magnitude: u64 = if self.raw >= 0 {
            self.raw as u64
        } else {
            (-(self.raw as i128)) as u64
        };
        (self.raw < 0, magnitude / 10000, magnitude % 10000)
    }

    /// The difference, or `None` when it falls outside the representable range.
    pub fn checked_sub(self, other: Amount) -> (r: Option<Amount>)
        ensures
            self@ - other@ < i64::MIN || self@ - other@ > i64::MAX ==> r is None,
            i64::MIN <= self@ - other@ <= i64::MAX ==> (r matches Some(v) && v@ == self@ - other@),
    {
        match self.raw.checked_sub(other.raw) {
            Some(v) => Some(Amount { raw: v }),
            None => None,
        }
    }
}

} // verus!
