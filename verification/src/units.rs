//! Frequency units.
//!
//! Frequencies travel through the library as whole hertz in a `u32`. Where a
//! value is written in megahertz the conversion is left to `fugit`, the crate
//! the hardware layer uses for its own rates.

use vstd::prelude::*;

verus! {

/// The largest number of megahertz that is still a `u32` of hertz.
pub const MAX_MEGAHERTZ: u32 = 4_294;

/// Calls `fugit::HertzU32::MHz` and reads the rate back with `to_Hz`.
///
/// Trusted: for a rate with ratio 1/1, `MHz` multiplies its argument by
/// 1 000 000 in `u32` and `to_Hz` returns the raw value. The product
/// overflows above `MAX_MEGAHERTZ`, which the precondition excludes.
#[verifier::external_body]
fn fugit_megahertz(mhz: u32) -> (hz: u32)
    requires
        mhz <= MAX_MEGAHERTZ,
    ensures
        hz == mhz * 1_000_000,
{
    fugit::HertzU32::MHz(mhz).to_Hz()
}

/// Hertz for a frequency given in megahertz, or `None` where the result does
/// not fit in a `u32`.
pub fn megahertz(mhz: u32) -> (hz: Option<u32>)
    ensures
        mhz <= MAX_MEGAHERTZ ==> hz == Some((mhz * 1_000_000) as u32),
        mhz > MAX_MEGAHERTZ ==> hz is None,
{
    if mhz <= MAX_MEGAHERTZ {
        Some(fugit_megahertz(mhz))
    } else {
        None
    }
}

} // verus!
