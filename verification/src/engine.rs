//! The per-frame telemetry state engine: it owns the display cache, the
//! rolling history, the shift tracker and the profile poller, and advances
//! them all once per rendering frame, in a fixed order — shift-state update,
//! debounce/cache update, history sample and eviction. The profile poll runs
//! on its own low-frequency cadence through the `poller` field, since only
//! the caller can consult the external registry.

use crate::cache::{
    decimal_entry_after, gear_entry_after, int_entry_after, percent_entry_after, rpm_entry_after,
    DisplayCache,
};
use crate::history::{sampled, window_evicted, HistoryBuffer, DEFAULT_WINDOW_MS};
use crate::profile::ProfilePoller;
use crate::shift::{spec_step, spec_toggle, ShiftCapture, ShiftEvent};
use vstd::prelude::*;

verus! {

/// One decoded snapshot of the telemetry source, all channels as plain
/// integers: pedals and brake bias in basis points (ten-thousandths of full
/// scale), fuel in centi-units, speed truncated to whole km/h, and the two
/// intervention counters from the graphics region.
pub struct TelemetrySample {
    pub gas_bp: i32,
    pub brake_bp: i32,
    pub gear: i32,
    pub speed_kmh: i32,
    pub rpm: i32,
    pub max_rpm: i32,
    pub fuel_centi: i32,
    pub brake_bias_bp: i32,
    pub ignition: i32,
    pub tc_count: i32,
    pub abs_count: i32,
    pub tc_active: bool,
    pub abs_active: bool,
}

/// The fractional channels stay on their physical scale of zero to one.
pub open spec fn valid_sample(s: TelemetrySample) -> bool {
    &&& 0 <= s.gas_bp <= 10000
    &&& 0 <= s.brake_bp <= 10000
    &&& 0 <= s.brake_bias_bp <= 10000
}

/// The displayed brake-bias value in centi-units: the raw fraction as a
/// percentage plus the profile's display correction, except that a raw zero
/// (no reading) displays as zero uncorrected.
pub open spec fn bb_display_centi(bb_bp: int, offset_centi: int) -> int {
    if bb_bp == 0 {
        0
    } else {
        bb_bp + offset_centi
    }
}

/// The engine: every piece of state the per-frame loop owns.
pub struct Engine {
    pub cache: DisplayCache,
    pub history: HistoryBuffer,
    pub shift: ShiftCapture,
    pub poller: ProfilePoller,
}

impl Engine {
    /// Internal consistency: the history channels are well-formed and the
    /// magnitude-debounced raw values sit strictly inside the arithmetic
    /// range of their update step.
    pub open spec fn wf(self) -> bool {
        &&& self.history.wf()
        &&& i64::MIN + 5 < self.cache.fuel.last_centi < i64::MAX - 5
        &&& i64::MIN + 5 < self.cache.bias.last_centi < i64::MAX - 5
    }

    /// A fresh engine with the default time window.
    pub fn new() -> (r: Engine)
        ensures
            r.wf(),
            r.history.gas@.len() == 0,
            r.history.brake@.len() == 0,
            r.history.last_sample_ms == 0,
            r.history.window_ms == DEFAULT_WINDOW_MS,
            r.shift.recording == false,
            r.shift.last_gear == 0,
            r.shift.peak_rpm == 0,
            r.poller.last_poll_ms == 0,
            r.poller.current_name@ == Seq::<u8>::empty(),
            r.poller.shift_rpm == 0,
            r.poller.bb_offset_centi == 0,
            r.cache.fuel.last_centi == -100 && r.cache.fuel.text@ == "0.0"@,
            r.cache.bias.last_centi == -100 && r.cache.bias.text@ == "50.0"@,
            r.cache.tc_count.last == -1 && r.cache.tc_count.text@ == "0"@,
            r.cache.abs_count.last == -1 && r.cache.abs_count.text@ == "0"@,
            r.cache.gear.last == -999 && r.cache.gear.text@ == "N"@,
            r.cache.speed.last == -1 && r.cache.speed.text@ == "0"@,
            r.cache.rpm.last_rpm == -1 && r.cache.rpm.last_ign == -1 && r.cache.rpm.text@ == "0"@,
            r.cache.gas.last_pct == -1 && r.cache.gas.text@ == "0"@,
            r.cache.brake.last_pct == -1 && r.cache.brake.text@ == "0"@,
    {
        Engine {
            cache: DisplayCache::new(),
            history: HistoryBuffer::new(DEFAULT_WINDOW_MS),
            shift: ShiftCapture::new(),
            poller: ProfilePoller::new(),
        }
    }

    /// One frame. `toggle_pressed` reports a recording-toggle edge (a press
    /// held across frames must be reported exactly once). The shift tracker
    /// steps first and yields the captured upshift if this frame completed
    /// one; each display entry then debounces its channel — brake bias
    /// against the currently adopted profile offset — and the history takes
    /// its sample and sheds what left the window.
    pub fn frame(&mut self, now_ms: u64, s: &TelemetrySample, toggle_pressed: bool) -> (ev: Option<
        ShiftEvent,
    >)
        requires
            old(self).wf(),
            valid_sample(*s),
            now_ms >= old(self).history.last_sample_ms,
        ensures
            final(self).wf(),
            // Shift tracking: an optional toggle edge, then one step.
            ({
                let mid = if toggle_pressed {
                    spec_toggle(old(self).shift, s.gear, s.rpm)
                } else {
                    old(self).shift
                };
                (final(self).shift, ev) == spec_step(mid, s.gear, s.rpm)
            }),
            // Debounced display entries.
            decimal_entry_after(old(self).cache.fuel, final(self).cache.fuel, s.fuel_centi as int),
            decimal_entry_after(
                old(self).cache.bias,
                final(self).cache.bias,
                bb_display_centi(s.brake_bias_bp as int, old(self).poller.bb_offset_centi as int),
            ),
            int_entry_after(old(self).cache.tc_count, final(self).cache.tc_count, s.tc_count as int),
            int_entry_after(
                old(self).cache.abs_count,
                final(self).cache.abs_count,
                s.abs_count as int,
            ),
            gear_entry_after(old(self).cache.gear, final(self).cache.gear, s.gear as int),
            int_entry_after(old(self).cache.speed, final(self).cache.speed, s.speed_kmh as int),
            rpm_entry_after(
                old(self).cache.rpm,
                final(self).cache.rpm,
                s.rpm as int,
                s.ignition as int,
            ),
            percent_entry_after(
                old(self).cache.gas,
                final(self).cache.gas,
                (s.gas_bp as int) / 100,
            ),
            percent_entry_after(
                old(self).cache.brake,
                final(self).cache.brake,
                (s.brake_bp as int) / 100,
            ),
            // History: one sampling step, then window eviction.
            exists|mid: HistoryBuffer|
                #[trigger] sampled(
                    old(self).history,
                    mid,
                    now_ms as int,
                    s.gas_bp,
                    s.tc_active,
                    s.brake_bp,
                    s.abs_active,
                ) && window_evicted(mid, final(self).history, now_ms as int),
            forall|i: int|
                0 <= i < final(self).history.gas@.len() ==> final(self).history.gas@[i].t_ms
                    >= now_ms - old(self).history.window_ms,
            final(self).history.window_ms == old(self).history.window_ms,
            // The poller advances only on its own cadence, never here.
            final(self).poller.last_poll_ms == old(self).poller.last_poll_ms,
            final(self).poller.current_name@ == old(self).poller.current_name@,
            final(self).poller.shift_rpm == old(self).poller.shift_rpm,
            final(self).poller.bb_offset_centi == old(self).poller.bb_offset_centi,
    {
        if toggle_pressed {
            self.shift.toggle(s.gear, s.rpm);
        }
        let ev = self.shift.step(s.gear, s.rpm);

        self.cache.fuel.update(s.fuel_centi as i64);
        let bias_centi: i64 = if s.brake_bias_bp == 0 {
            0
        } else {
            s.brake_bias_bp as i64 + self.poller.bb_offset_centi as i64
        };
        self.cache.bias.update(bias_centi);
        self.cache.tc_count.update(s.tc_count);
        self.cache.abs_count.update(s.abs_count);
        self.cache.gear.update(s.gear);
        self.cache.speed.update(s.speed_kmh);
        self.cache.rpm.update(s.rpm, s.ignition);
        self.cache.gas.update(s.gas_bp / 100);
        self.cache.brake.update(s.brake_bp / 100);

        self.history.sample(now_ms, s.gas_bp, s.tc_active, s.brake_bp, s.abs_active);
        let ghost mid = self.history;
        self.history.evict_window(now_ms);
        proof {
            assert(sampled(
                old(self).history,
                mid,
                now_ms as int,
                s.gas_bp,
                s.tc_active,
                s.brake_bp,
                s.abs_active,
            ) && window_evicted(mid, self.history, now_ms as int));
        }
        ev
    }
}

} // verus!
