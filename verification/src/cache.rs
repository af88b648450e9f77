//! Debounced display cache: one entry per displayed quantity, each holding
//! the raw value seen at the last recompute and the text formatted from it.
//! An update recomputes the text only when the new raw value moves past the
//! entry's tolerance (a magnitude threshold for the fixed-point channels,
//! exact change for the integer-quantized ones); otherwise both the stored
//! raw value and the text are left untouched.

use crate::fmt::{
    gear_label, gear_text, i64_label, int_text, one_decimal_label, one_decimal_text,
    percent_label, percent_text, rpm_label, rpm_text,
};
use vstd::prelude::*;

verus! {

/// Tolerance, in centi-units, of the fuel and brake-bias entries: a change
/// must exceed five hundredths (0.05 display units) to be recomputed.
pub const DECIMAL_TOLERANCE_CENTI: i64 = 5;

/// An entry for a quantity carried in centi-units and displayed with one
/// decimal place, debounced by magnitude.
pub struct DecimalEntry {
    pub last_centi: i64,
    pub text: String,
}

/// An entry for an integer-quantized quantity displayed as a plain number,
/// debounced by exact change.
pub struct IntEntry {
    pub last: i32,
    pub text: String,
}

/// The gear entry: debounced by exact change, formatted as R / N / number.
pub struct GearEntry {
    pub last: i32,
    pub text: String,
}

/// An entry for a pedal percentage, debounced by exact change of the integer
/// percent.
pub struct PercentEntry {
    pub last_pct: i32,
    pub text: String,
}

/// The RPM entry: recomputed when either the RPM or the ignition flag
/// changes.
pub struct RpmEntry {
    pub last_rpm: i32,
    pub last_ign: i32,
    pub text: String,
}

/// Whether a magnitude-debounced entry must recompute: the move from the
/// stored raw value exceeds the tolerance.
pub open spec fn beyond_tolerance(last: int, new: int, tolerance: int) -> bool {
    new - last > tolerance || last - new > tolerance
}

/// How a `DecimalEntry` after an update relates to the one before it.
pub open spec fn decimal_entry_after(pre: DecimalEntry, post: DecimalEntry, new_centi: int) -> bool {
    if beyond_tolerance(pre.last_centi as int, new_centi, DECIMAL_TOLERANCE_CENTI as int) {
        post.last_centi == new_centi && post.text@ == one_decimal_text(new_centi)
    } else {
        post.last_centi == pre.last_centi && post.text == pre.text
    }
}

/// How an `IntEntry` after an update relates to the one before it.
pub open spec fn int_entry_after(pre: IntEntry, post: IntEntry, new: int) -> bool {
    if new != pre.last {
        post.last == new && post.text@ == int_text(new)
    } else {
        post.last == pre.last && post.text == pre.text
    }
}

/// How a `GearEntry` after an update relates to the one before it.
pub open spec fn gear_entry_after(pre: GearEntry, post: GearEntry, gear: int) -> bool {
    if gear != pre.last {
        post.last == gear && post.text@ == gear_text(gear)
    } else {
        post.last == pre.last && post.text == pre.text
    }
}

/// How a `PercentEntry` after an update relates to the one before it.
pub open spec fn percent_entry_after(pre: PercentEntry, post: PercentEntry, pct: int) -> bool {
    if pct != pre.last_pct {
        post.last_pct == pct && post.text@ == percent_text(pct)
    } else {
        post.last_pct == pre.last_pct && post.text == pre.text
    }
}

/// How an `RpmEntry` after an update relates to the one before it.
pub open spec fn rpm_entry_after(pre: RpmEntry, post: RpmEntry, rpm: int, ign: int) -> bool {
    if rpm != pre.last_rpm || ign != pre.last_ign {
        post.last_rpm == rpm && post.last_ign == ign && post.text@ == rpm_text(rpm, ign)
    } else {
        post.last_rpm == pre.last_rpm && post.last_ign == pre.last_ign && post.text == pre.text
    }
}

impl DecimalEntry {
    /// An entry seeded with a raw value and the text that was formatted for
    /// it at some earlier time.
    pub fn seeded(last_centi: i64, text: String) -> (r: DecimalEntry)
        ensures
            r.last_centi == last_centi,
            r.text == text,
    {
        DecimalEntry { last_centi, text }
    }

    /// Debounced update: recompute the one-decimal text only when the move
    /// exceeds the tolerance.
    pub fn update(&mut self, new_centi: i64)
        requires
            i64::MIN + 5 < new_centi < i64::MAX - 5,
            i64::MIN + 5 < old(self).last_centi < i64::MAX - 5,
        ensures
            decimal_entry_after(*old(self), *final(self), new_centi as int),
    {
        let moved = if new_centi >= self.last_centi {
            (new_centi as i128) - (self.last_centi as i128) > DECIMAL_TOLERANCE_CENTI as i128
        } else {
            (self.last_centi as i128) - (new_centi as i128) > DECIMAL_TOLERANCE_CENTI as i128
        };
        if moved {
            self.text = one_decimal_label(new_centi);
            self.last_centi = new_centi;
        }
    }
}

impl IntEntry {
    /// An entry seeded with a raw value and the text that was formatted for
    /// it at some earlier time.
    pub fn seeded(last: i32, text: String) -> (r: IntEntry)
        ensures
            r.last == last,
            r.text == text,
    {
        IntEntry { last, text }
    }

    /// Debounced update: recompute the number text only on exact change.
    pub fn update(&mut self, new: i32)
        ensures
            int_entry_after(*old(self), *final(self), new as int),
    {
        if new != self.last {
            self.text = i64_label(new as i64);
            self.last = new;
        }
    }
}

impl GearEntry {
    /// An entry seeded with a raw gear code and the text that was formatted
    /// for it at some earlier time.
    pub fn seeded(last: i32, text: String) -> (r: GearEntry)
        ensures
            r.last == last,
            r.text == text,
    {
        GearEntry { last, text }
    }

    /// Debounced update: recompute the gear indicator only on exact change.
    pub fn update(&mut self, gear: i32)
        ensures
            gear_entry_after(*old(self), *final(self), gear as int),
    {
        if gear != self.last {
            self.text = gear_label(gear);
            self.last = gear;
        }
    }
}

impl PercentEntry {
    /// An entry seeded with a raw percent and the text that was formatted
    /// for it at some earlier time.
    pub fn seeded(last_pct: i32, text: String) -> (r: PercentEntry)
        ensures
            r.last_pct == last_pct,
            r.text == text,
    {
        PercentEntry { last_pct, text }
    }

    /// Debounced update: recompute the percent text only on exact change.
    pub fn update(&mut self, pct: i32)
        ensures
            percent_entry_after(*old(self), *final(self), pct as int),
    {
        if pct != self.last_pct {
            self.text = percent_label(pct);
            self.last_pct = pct;
        }
    }
}

impl RpmEntry {
    /// An entry seeded with raw values and the text that was formatted for
    /// them at some earlier time.
    pub fn seeded(last_rpm: i32, last_ign: i32, text: String) -> (r: RpmEntry)
        ensures
            r.last_rpm == last_rpm,
            r.last_ign == last_ign,
            r.text == text,
    {
        RpmEntry { last_rpm, last_ign, text }
    }

    /// Debounced update: recompute the readout when the RPM or the ignition
    /// flag changes.
    pub fn update(&mut self, rpm: i32, ign: i32)
        ensures
            rpm_entry_after(*old(self), *final(self), rpm as int, ign as int),
    {
        if rpm != self.last_rpm || ign != self.last_ign {
            self.text = rpm_label(rpm, ign);
            self.last_rpm = rpm;
            self.last_ign = ign;
        }
    }
}

/// All debounced display entries, one per widget text, with the sentinel
/// raw values that force a recompute on the first real sample.
pub struct DisplayCache {
    pub fuel: DecimalEntry,
    pub bias: DecimalEntry,
    pub tc_count: IntEntry,
    pub abs_count: IntEntry,
    pub gear: GearEntry,
    pub speed: IntEntry,
    pub rpm: RpmEntry,
    pub gas: PercentEntry,
    pub brake: PercentEntry,
}

impl DisplayCache {
    /// A fresh cache. Every entry starts on a raw value that no real
    /// telemetry reports (a sentinel), so the first update of each entry
    /// recomputes its text.
    pub fn new() -> (r: DisplayCache)
        ensures
            r.fuel.last_centi == -100 && r.fuel.text@ == "0.0"@,
            r.bias.last_centi == -100 && r.bias.text@ == "50.0"@,
            r.tc_count.last == -1 && r.tc_count.text@ == "0"@,
            r.abs_count.last == -1 && r.abs_count.text@ == "0"@,
            r.gear.last == -999 && r.gear.text@ == "N"@,
            r.speed.last == -1 && r.speed.text@ == "0"@,
            r.rpm.last_rpm == -1 && r.rpm.last_ign == -1 && r.rpm.text@ == "0"@,
            r.gas.last_pct == -1 && r.gas.text@ == "0"@,
            r.brake.last_pct == -1 && r.brake.text@ == "0"@,
    {
        DisplayCache {
            fuel: DecimalEntry::seeded(-100, String::from_str("0.0")),
            bias: DecimalEntry::seeded(-100, String::from_str("50.0")),
            tc_count: IntEntry::seeded(-1, String::from_str("0")),
            abs_count: IntEntry::seeded(-1, String::from_str("0")),
            gear: GearEntry::seeded(-999, String::from_str("N")),
            speed: IntEntry::seeded(-1, String::from_str("0")),
            rpm: RpmEntry::seeded(-1, -1, String::from_str("0")),
            gas: PercentEntry::seeded(-1, String::from_str("0")),
            brake: PercentEntry::seeded(-1, String::from_str("0")),
        }
    }
}

/// The cache-entry invariant: the stored text is the formatted form of the
/// stored raw value. A fresh cache starts on sentinel raw values instead,
/// so the invariant takes hold at each entry's first recompute and every
/// update preserves it from then on (see the preservation lemmas below):
/// the text is never stale relative to a raw value that moved past the
/// entry's own tolerance.
pub open spec fn decimal_entry_consistent(e: DecimalEntry) -> bool {
    e.text@ == one_decimal_text(e.last_centi as int)
}

/// See `decimal_entry_consistent`.
pub open spec fn int_entry_consistent(e: IntEntry) -> bool {
    e.text@ == int_text(e.last as int)
}

/// See `decimal_entry_consistent`.
pub open spec fn gear_entry_consistent(e: GearEntry) -> bool {
    e.text@ == gear_text(e.last as int)
}

/// See `decimal_entry_consistent`.
pub open spec fn percent_entry_consistent(e: PercentEntry) -> bool {
    e.text@ == percent_text(e.last_pct as int)
}

/// See `decimal_entry_consistent`.
pub open spec fn rpm_entry_consistent(e: RpmEntry) -> bool {
    e.text@ == rpm_text(e.last_rpm as int, e.last_ign as int)
}

/// An update keeps a consistent magnitude-debounced entry consistent — and
/// a recompute makes any entry consistent.
pub proof fn lemma_decimal_update_keeps_consistency(
    pre: DecimalEntry,
    post: DecimalEntry,
    new_centi: int,
)
    requires
        decimal_entry_after(pre, post, new_centi),
        decimal_entry_consistent(pre) || beyond_tolerance(
            pre.last_centi as int,
            new_centi,
            DECIMAL_TOLERANCE_CENTI as int,
        ),
    ensures
        decimal_entry_consistent(post),
{
}

/// An update keeps a consistent exact-change entry consistent — and a
/// recompute makes any entry consistent.
pub proof fn lemma_int_update_keeps_consistency(pre: IntEntry, post: IntEntry, new: int)
    requires
        int_entry_after(pre, post, new),
        int_entry_consistent(pre) || new != pre.last,
    ensures
        int_entry_consistent(post),
{
}

/// An update keeps a consistent gear entry consistent — and a recompute
/// makes any entry consistent.
pub proof fn lemma_gear_update_keeps_consistency(pre: GearEntry, post: GearEntry, gear: int)
    requires
        gear_entry_after(pre, post, gear),
        gear_entry_consistent(pre) || gear != pre.last,
    ensures
        gear_entry_consistent(post),
{
}

/// An update keeps a consistent percent entry consistent — and a recompute
/// makes any entry consistent.
pub proof fn lemma_percent_update_keeps_consistency(
    pre: PercentEntry,
    post: PercentEntry,
    pct: int,
)
    requires
        percent_entry_after(pre, post, pct),
        percent_entry_consistent(pre) || pct != pre.last_pct,
    ensures
        percent_entry_consistent(post),
{
}

/// An update keeps a consistent RPM entry consistent — and a recompute
/// makes any entry consistent.
pub proof fn lemma_rpm_update_keeps_consistency(
    pre: RpmEntry,
    post: RpmEntry,
    rpm: int,
    ign: int,
)
    requires
        rpm_entry_after(pre, post, rpm, ign),
        rpm_entry_consistent(pre) || rpm != pre.last_rpm || ign != pre.last_ign,
    ensures
        rpm_entry_consistent(post),
{
}

/// Updating a magnitude-debounced entry twice with the same raw value does
/// no work the second time: the text object after the second update is the
/// very one the first update left behind.
pub proof fn lemma_decimal_update_idempotent(
    pre: DecimalEntry,
    mid: DecimalEntry,
    post: DecimalEntry,
    new_centi: int,
)
    requires
        decimal_entry_after(pre, mid, new_centi),
        decimal_entry_after(mid, post, new_centi),
    ensures
        post.text == mid.text,
        post.last_centi == mid.last_centi,
{
}

/// Updating an exact-change entry twice with the same raw value does no
/// work the second time.
pub proof fn lemma_int_update_idempotent(pre: IntEntry, mid: IntEntry, post: IntEntry, new: int)
    requires
        int_entry_after(pre, mid, new),
        int_entry_after(mid, post, new),
    ensures
        post.text == mid.text,
        post.last == mid.last,
{
}

/// Updating the gear entry twice with the same gear does no work the second
/// time.
pub proof fn lemma_gear_update_idempotent(
    pre: GearEntry,
    mid: GearEntry,
    post: GearEntry,
    gear: int,
)
    requires
        gear_entry_after(pre, mid, gear),
        gear_entry_after(mid, post, gear),
    ensures
        post.text == mid.text,
        post.last == mid.last,
{
}

/// Updating a percent entry twice with the same percent does no work the
/// second time.
pub proof fn lemma_percent_update_idempotent(
    pre: PercentEntry,
    mid: PercentEntry,
    post: PercentEntry,
    pct: int,
)
    requires
        percent_entry_after(pre, mid, pct),
        percent_entry_after(mid, post, pct),
    ensures
        post.text == mid.text,
        post.last_pct == mid.last_pct,
{
}

/// Updating the RPM entry twice with the same RPM and ignition flag does no
/// work the second time.
pub proof fn lemma_rpm_update_idempotent(
    pre: RpmEntry,
    mid: RpmEntry,
    post: RpmEntry,
    rpm: int,
    ign: int,
)
    requires
        rpm_entry_after(pre, mid, rpm, ign),
        rpm_entry_after(mid, post, rpm, ign),
    ensures
        post.text == mid.text,
        post.last_rpm == mid.last_rpm,
        post.last_ign == mid.last_ign,
{
}

} // verus!
