//! The level-setting capability: semantic operations layered on a bounded
//! byte — fractional position, construction from a fraction or by dividing
//! the bound range, maximal construction, and a canonical percentage text.

use crate::bounded::BoundedU8;
use crate::percent::{percent_chars, percent_string};
use vstd::prelude::*;

verus! {

/// The width of a level type's range, `MAX - MIN`.
pub open spec fn diff_of<L: LevelSetting>() -> int {
    L::max_spec() - L::min_spec()
}

/// The bounds admit the fractional semantics: the range is not a single
/// point, so the fraction's denominator `DIFF` is nonzero.
pub open spec fn bounds_valid<L: LevelSetting>() -> bool {
    L::min_spec() < L::max_spec()
}

/// The level's invariant: the raw byte lies within the bounds.
pub open spec fn level_wf<L: LevelSetting>(x: &L) -> bool {
    L::min_spec() <= x.raw_spec() <= L::max_spec()
}

/// The percentage text of a level, as characters: its fraction scaled to a
/// percentage, with one digit after the decimal point and a trailing `%`.
pub open spec fn percent_of_level<L: LevelSetting>(x: &L) -> Seq<char> {
    percent_chars((x.raw_spec() - L::min_spec()) as nat, diff_of::<L>() as nat)
}

/// A user-adjustable level: a byte constrained to `[min_spec(), max_spec()]`
/// with fractional and percentage semantics. The fraction of a level is
/// `(raw - MIN) / DIFF` with `DIFF = MAX - MIN`; the capability requires
/// `MIN < MAX`, so the fraction is well defined.
///
/// Implementors supply the bounds and the raw byte; every derived operation
/// comes with the capability.
pub trait LevelSetting: Sized {
    /// The inclusive lower bound of the level's range.
    spec fn min_spec() -> u8;

    /// The inclusive upper bound of the level's range.
    spec fn max_spec() -> u8;

    /// The stored raw byte.
    spec fn raw_spec(&self) -> u8;

    fn min_value() -> (r: u8)
        ensures
            r == Self::min_spec(),
    ;

    fn max_value() -> (r: u8)
        ensures
            r == Self::max_spec(),
    ;

    fn raw(&self) -> (r: u8)
        ensures
            r == self.raw_spec(),
    ;

    /// Builds a level from a raw byte. A byte outside the bounds violates the
    /// contract and is excluded up front.
    fn from_raw(value: u8) -> (r: Self)
        requires
            Self::min_spec() <= value <= Self::max_spec(),
        ensures
            r.raw_spec() == value,
    ;

    /// The level's position within its range, as the exact rational
    /// `r.0 / r.1`: numerator `raw - MIN` and denominator `DIFF`. The
    /// fraction always lies in `[0, 1]`.
    fn fraction_parts(&self) -> (r: (u8, u8))
        requires
            Self::min_spec() < Self::max_spec(),
            Self::min_spec() <= self.raw_spec() <= Self::max_spec(),
        ensures
            r.0 == self.raw_spec() - Self::min_spec(),
            r.1 == Self::max_spec() - Self::min_spec(),
            r.0 <= r.1,
            0 < r.1,
    {
        (self.raw() - Self::min_value(), Self::max_value() - Self::min_value())
    }

    /// Builds a level from a fraction `num / den` of the range, which must
    /// lie in `[0, 1]` (`num <= den`, `den` nonzero): the raw byte is
    /// `MIN + floor(DIFF * num / den)`, truncating toward zero.
    fn from_fraction(num: u8, den: u8) -> (r: Self)
        requires
            Self::min_spec() < Self::max_spec(),
            den != 0,
            num <= den,
        ensures
            Self::min_spec() <= r.raw_spec() <= Self::max_spec(),
            r.raw_spec() == Self::min_spec() + ((Self::max_spec() - Self::min_spec()) * num) / (den as int),
    {
        let min = Self::min_value();
        let max = Self::max_value();
        let diff = max - min;
        proof {
            assert((diff as int) * (num as int) <= 65025) by (nonlinear_arith)
                requires
                    diff <= 255,
                    num <= 255,
            ;
        }
        let scaled: u32 = (diff as u32) * (num as u32) / (den as u32);
        proof {
            assert((diff as int) * (num as int) <= (diff as int) * (den as int))
                by (nonlinear_arith)
                requires
                    num <= den,
                    0 <= diff,
            ;
            vstd::arithmetic::div_mod::lemma_div_is_ordered(
                (diff as int) * (num as int),
                (diff as int) * (den as int),
                den as int,
            );
            vstd::arithmetic::div_mod::lemma_div_by_multiple(diff as int, den as int);
            assert(((diff as int) * (den as int)) / (den as int) == diff as int);
            assert(scaled <= diff);
        }
        Self::from_raw(min + (scaled as u8))
    }

    /// Builds a level a divisor's worth above the minimum: the raw byte is
    /// `MIN + DIFF / divisor` with integer division. A zero divisor violates
    /// the contract and is excluded up front.
    fn from_divisor_added(divisor: u8) -> (r: Self)
        requires
            Self::min_spec() < Self::max_spec(),
            divisor != 0,
        ensures
            Self::min_spec() <= r.raw_spec() <= Self::max_spec(),
            r.raw_spec() == Self::min_spec() + (Self::max_spec() - Self::min_spec()) / (divisor as int),
    {
        let min = Self::min_value();
        let max = Self::max_value();
        let portion = (max - min) / divisor;
        proof {
            vstd::arithmetic::div_mod::lemma_div_nonincreasing(
                (max - min) as int,
                divisor as int,
            );
        }
        Self::from_raw(min + portion)
    }

    /// Builds a level a divisor's worth below the maximum: the raw byte is
    /// `MAX - DIFF / divisor` with integer division. A zero divisor violates
    /// the contract and is excluded up front.
    fn from_divisor_removed(divisor: u8) -> (r: Self)
        requires
            Self::min_spec() < Self::max_spec(),
            divisor != 0,
        ensures
            Self::min_spec() <= r.raw_spec() <= Self::max_spec(),
            r.raw_spec() == Self::max_spec() - (Self::max_spec() - Self::min_spec()) / (divisor as int),
    {
        let min = Self::min_value();
        let max = Self::max_value();
        let portion = (max - min) / divisor;
        proof {
            vstd::arithmetic::div_mod::lemma_div_nonincreasing(
                (max - min) as int,
                divisor as int,
            );
        }
        Self::from_raw(max - portion)
    }

    /// Builds the maximal level.
    fn from_max() -> (r: Self)
        requires
            Self::min_spec() <= Self::max_spec(),
        ensures
            Self::min_spec() <= r.raw_spec() <= Self::max_spec(),
            r.raw_spec() == Self::max_spec(),
    {
        Self::from_raw(Self::max_value())
    }

    /// The level as percentage text: the fraction scaled to a percentage,
    /// with exactly one digit after the decimal point and a trailing `%`.
    fn percent_display(&self) -> (r: String)
        requires
            Self::min_spec() < Self::max_spec(),
            Self::min_spec() <= self.raw_spec() <= Self::max_spec(),
        ensures
            r@ == percent_chars(
                (self.raw_spec() - Self::min_spec()) as nat,
                (Self::max_spec() - Self::min_spec()) as nat,
            ),
    {
        let (num, den) = self.fraction_parts();
        percent_string(num, den)
    }
}

/// An audio volume level: a byte in `[0, 10]` with the level-setting
/// capability.
#[derive(Clone, Copy, PartialEq, Eq)]
pub struct VolumeSetting(pub BoundedU8<0, 10>);

impl LevelSetting for VolumeSetting {
    open spec fn min_spec() -> u8 {
        0
    }

    open spec fn max_spec() -> u8 {
        10
    }

    open spec fn raw_spec(&self) -> u8 {
        self.0.raw_spec()
    }

    fn min_value() -> (r: u8) {
        0
    }

    fn max_value() -> (r: u8) {
        10
    }

    fn raw(&self) -> (r: u8) {
        self.0.raw()
    }

    fn from_raw(value: u8) -> (r: Self) {
        VolumeSetting(BoundedU8::from_raw(value))
    }
}

/// Law: for all valid bounds and every well-formed level, the fraction lies
/// in `[0, 1]`: its numerator `raw - MIN` lies in `[0, DIFF]`.
pub proof fn lemma_fraction_in_unit_interval<L: LevelSetting>(x: L)
    requires
        level_wf(&x),
    ensures
        0 <= x.raw_spec() - L::min_spec() <= diff_of::<L>(),
{
}

/// Law: a level built from the fraction `num / den` lies within one unit of
/// granularity `1 / DIFF` of it. Cleared of denominators, with
/// `k = raw - MIN` the fraction's numerator:
/// `DIFF * num - den < k * den <= DIFF * num`, that is,
/// `num / den - 1 / DIFF < k / DIFF <= num / den`.
pub proof fn lemma_from_fraction_granularity<L: LevelSetting>(x: L, num: u8, den: u8)
    requires
        bounds_valid::<L>(),
        den != 0,
        num <= den,
        x.raw_spec() == L::min_spec() + (diff_of::<L>() * num) / (den as int),
    ensures
        diff_of::<L>() * num - den < (x.raw_spec() - L::min_spec()) * (den as int),
        (x.raw_spec() - L::min_spec()) * (den as int) <= diff_of::<L>() * num,
{
    let product = diff_of::<L>() * num;
    let k = product / (den as int);
    vstd::arithmetic::div_mod::lemma_fundamental_div_mod(product, den as int);
    vstd::arithmetic::div_mod::lemma_mod_bound(product, den as int);
    assert(k * (den as int) == product - product % (den as int));
    assert((x.raw_spec() - L::min_spec()) == k);
}

/// Law: `from_divisor_added` is a deterministic pure function of the bounds
/// and the divisor: any two volume levels meeting its contract for the same
/// divisor are equal.
pub proof fn lemma_from_divisor_added_deterministic(
    a: VolumeSetting,
    b: VolumeSetting,
    divisor: u8,
)
    requires
        divisor != 0,
        a.raw_spec() == VolumeSetting::min_spec() + diff_of::<VolumeSetting>() / (divisor as int),
        b.raw_spec() == VolumeSetting::min_spec() + diff_of::<VolumeSetting>() / (divisor as int),
    ensures
        a == b,
{
    crate::bounded::lemma_raw_determines_value(a.0, b.0);
}

/// Law: `from_divisor_removed` is a deterministic pure function of the bounds
/// and the divisor: any two volume levels meeting its contract for the same
/// divisor are equal.
pub proof fn lemma_from_divisor_removed_deterministic(
    a: VolumeSetting,
    b: VolumeSetting,
    divisor: u8,
)
    requires
        divisor != 0,
        a.raw_spec() == VolumeSetting::max_spec() - diff_of::<VolumeSetting>() / (divisor as int),
        b.raw_spec() == VolumeSetting::max_spec() - diff_of::<VolumeSetting>() / (divisor as int),
    ensures
        a == b,
{
    crate::bounded::lemma_raw_determines_value(a.0, b.0);
}

} // verus!
