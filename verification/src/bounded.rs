//! A byte value constrained to an inclusive `[MIN, MAX]` range, with
//! saturating arithmetic that preserves the range by construction.

use vstd::prelude::*;

verus! {

/// A `u8` that always lies in the inclusive range `[MIN, MAX]`.
///
/// Every public constructor establishes `wf()` and every operation preserves
/// it, so a well-formed value can never leave its declared bounds.
#[derive(Clone, Copy, PartialEq, Eq)]
pub struct BoundedU8<const MIN: u8, const MAX: u8> {
    raw: u8,
}

impl<const MIN: u8, const MAX: u8> BoundedU8<MIN, MAX> {
    /// The stored byte.
    pub closed spec fn raw_spec(&self) -> u8 {
        self.raw
    }

    /// The range invariant: the stored byte lies in `[MIN, MAX]`.
    pub open spec fn wf(&self) -> bool {
        MIN <= self.raw_spec() <= MAX
    }

    /// Builds a bounded value from a raw byte already known to be in range.
    /// A byte outside `[MIN, MAX]` violates the type's contract, so it is
    /// excluded up front rather than clamped silently.
    pub fn from_raw(value: u8) -> (r: Self)
        requires
            MIN <= value <= MAX,
        ensures
            r.wf(),
            r.raw_spec() == value,
    {
        BoundedU8 { raw: value }
    }

    /// Reads the raw byte back out.
    pub fn raw(&self) -> (r: u8)
        ensures
            r == self.raw_spec(),
    {
        self.raw
    }

    /// Adds `delta`, saturating at `MAX`: the result is
    /// `min(raw + delta, MAX)` and never leaves the range, whatever the
    /// magnitude of `delta`.
    pub fn add(self, delta: u8) -> (r: Self)
        requires
            self.wf(),
        ensures
            r.wf(),
            r.raw_spec() == if self.raw_spec() + delta <= MAX {
                self.raw_spec() + delta
            } else {
                MAX as int
            },
    {
        let wide = self.raw.saturating_add(delta);
        let clamped = if wide > MAX {
            MAX
        } else {
            wide
        };
        BoundedU8 { raw: clamped }
    }

    /// Subtracts `delta`, saturating at `MIN`: the result is
    /// `max(raw - delta, MIN)` and never leaves the range, whatever the
    /// magnitude of `delta`.
    pub fn sub(self, delta: u8) -> (r: Self)
        requires
            self.wf(),
        ensures
            r.wf(),
            r.raw_spec() == if self.raw_spec() - delta >= MIN {
                self.raw_spec() - delta
            } else {
                MIN as int
            },
    {
        let wide = self.raw.saturating_sub(delta);
        let clamped = if wide < MIN {
            MIN
        } else {
            wide
        };
        BoundedU8 { raw: clamped }
    }
}

/// A bounded value is determined by its raw byte: two values with equal raw
/// bytes are equal.
pub proof fn lemma_raw_determines_value<const MIN: u8, const MAX: u8>(
    a: BoundedU8<MIN, MAX>,
    b: BoundedU8<MIN, MAX>,
)
    requires
        a.raw_spec() == b.raw_spec(),
    ensures
        a == b,
{
}

} // verus!
