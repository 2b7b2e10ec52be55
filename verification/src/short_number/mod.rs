//! The power bucket of a magnitude and the text shown for it.
//!
//! A magnitude is shown as a significant value and a power of ten that is a
//! multiple of [`LEAST_EXPONENT`]. This module finds that power from the
//! magnitude's decimal exponent and puts the shown text together.

use vstd::prelude::*;
use vstd::string::StringExecFns;

pub mod prefix;

use prefix::{suffix_symbol, symbol_of, tier_of, Prefix};

verus! {

/// The step between two buckets, and the power of the least named tier.
pub const LEAST_EXPONENT: i32 = 3;

/// The bucket of a decimal exponent: the greatest multiple of
/// `LEAST_EXPONENT` that is not above it, for negative exponents too.
pub open spec fn bucket_of(exponent: i32) -> int {
    exponent - exponent % LEAST_EXPONENT
}

/// The text shown for a significant value in the bucket `power`: the value's
/// own text, followed by the bucket's symbol unless the magnitude is below
/// the least named tier.
pub open spec fn display_of(significant: Seq<char>, power: i32, below_least: bool) -> Seq<char> {
    if below_least {
        significant
    } else {
        significant + symbol_of(power)
    }
}

/// Snaps a decimal exponent down to its bucket.
///
/// The two least exponents of the type have their bucket below the type's
/// range, and are left out.
pub fn snap_power(exponent: i32) -> (power: i32)
    requires
        bucket_of(exponent) >= i32::MIN,
    ensures
        power == bucket_of(exponent),
        power % LEAST_EXPONENT == 0,
        power <= exponent < power + LEAST_EXPONENT,
{
    let rest: i32 = exponent % LEAST_EXPONENT;
    if rest < 0 {
        exponent - (rest + LEAST_EXPONENT)
    } else {
        exponent - rest
    }
}

/// Puts the shown text together from the text of the significant value, the
/// bucket's power and whether the magnitude is below the least named tier.
pub fn display(significant: &str, power: i32, below_least: bool) -> (text: String)
    ensures
        text@ == display_of(significant@, power, below_least),
{
    let mut text = String::from_str(significant);
    if !below_least {
        text.append(suffix_symbol(power));
    }
    text
}

/// A bucket is a fixed point of the snapping, and the snapping keeps the
/// order of the exponents.
pub proof fn lemma_bucket_is_stable(a: i32, b: i32)
    ensures
        a % LEAST_EXPONENT == 0 <==> bucket_of(a) == a,
        a <= b ==> bucket_of(a) <= bucket_of(b),
{
}

/// The buckets of the exponents from 3 to 17 are the named powers; every
/// other exponent falls into a bucket without a name.
pub proof fn lemma_named_buckets(exponent: i32, power: i32)
    requires
        power == bucket_of(exponent),
    ensures
        3 <= exponent < 18 <==> tier_of(power) != Prefix::Unknown,
{
}

/// A bucket without a name adds nothing to the shown text, whatever the
/// magnitude; a named bucket adds its one letter unless the magnitude is
/// below the least named tier.
pub proof fn lemma_display_suffix(significant: Seq<char>, power: i32, below_least: bool)
    ensures
        tier_of(power) == Prefix::Unknown ==> display_of(significant, power, below_least)
            == significant,
        below_least ==> display_of(significant, power, below_least) == significant,
        tier_of(power) != Prefix::Unknown && !below_least ==> {
            &&& display_of(significant, power, below_least).len() == significant.len() + 1
            &&& display_of(significant, power, below_least).subrange(
                0,
                significant.len() as int,
            ) == significant
        },
{
}

} // verus!
