//! Rev-strip arithmetic: the filled fraction of the strip and the two
//! shift-point indicators. When a vehicle profile supplies an absolute
//! shift RPM, the indicators compare against it directly; otherwise they
//! fall back to proportional thresholds at 95% and 92% of the maximum RPM.

use vstd::prelude::*;

verus! {

/// RPM below the absolute shift point at which the early-warning indicator
/// already lights.
pub const NEAR_SHIFT_MARGIN_RPM: i32 = 200;

/// The filled fraction of the rev strip in thousandths, clamped to
/// `0 ..= 1000`; an unknown or non-positive maximum RPM reads as zero
/// rather than a division by it.
pub open spec fn spec_rpm_permille(rpm: int, max_rpm: int) -> int {
    if max_rpm <= 0 || rpm <= 0 {
        0
    } else if rpm * 1000 / max_rpm > 1000 {
        1000
    } else {
        rpm * 1000 / max_rpm
    }
}

/// Whether the strip shows the at-or-past-shift strobe: past the profile's
/// shift RPM, or, without a profile, past 95% of the maximum RPM.
pub open spec fn spec_at_or_past_shift(rpm: int, max_rpm: int, shift_rpm: int) -> bool {
    if shift_rpm > 0 {
        rpm > shift_rpm
    } else {
        rpm * 100 > max_rpm * 95
    }
}

/// Whether the strip shows the near-shift warning: within the margin below
/// the profile's shift RPM, or, without a profile, past 92% of the maximum
/// RPM.
pub open spec fn spec_near_shift(rpm: int, max_rpm: int, shift_rpm: int) -> bool {
    if shift_rpm > 0 {
        rpm > shift_rpm - NEAR_SHIFT_MARGIN_RPM
    } else {
        rpm * 100 > max_rpm * 92
    }
}

/// The filled fraction of the rev strip in thousandths.
pub fn rpm_permille(rpm: i32, max_rpm: i32) -> (r: u32)
    ensures
        r == spec_rpm_permille(rpm as int, max_rpm as int),
        r <= 1000,
{
    if max_rpm <= 0 || rpm <= 0 {
        0
    } else {
        let q: i64 = (rpm as i64) * 1000 / (max_rpm as i64);
        if q > 1000 {
            1000
        } else {
            q as u32
        }
    }
}

/// The two shift indicators, `(at_or_past, near)`.
pub fn shift_flags(rpm: i32, max_rpm: i32, shift_rpm: i32) -> (r: (bool, bool))
    ensures
        r.0 == spec_at_or_past_shift(rpm as int, max_rpm as int, shift_rpm as int),
        r.1 == spec_near_shift(rpm as int, max_rpm as int, shift_rpm as int),
{
    if shift_rpm > 0 {
        (rpm > shift_rpm, rpm as i64 > shift_rpm as i64 - NEAR_SHIFT_MARGIN_RPM as i64)
    } else {
        (
            (rpm as i64) * 100 > (max_rpm as i64) * 95,
            (rpm as i64) * 100 > (max_rpm as i64) * 92,
        )
    }
}

} // verus!
