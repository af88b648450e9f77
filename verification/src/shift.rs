//! Peak-RPM shift-capture state machine. While a manually toggled recording
//! mode is on, an upshift between forward gears emits one captured event
//! carrying the peak RPM reached in the gear being left; a downshift only
//! resets the tracking baseline. Forward gears are coded 2 and above
//! (reverse is 0, neutral 1); the displayed gear number is the code minus
//! one. The peak RPM is tracked every frame in either mode.

use vstd::prelude::*;

verus! {

/// One captured upshift: the display numbers of the gears left and entered,
/// and the highest RPM seen while the left gear was held.
#[derive(Clone, Copy, PartialEq, Eq, Structural, Debug)]
pub struct ShiftEvent {
    pub from_gear_display: i32,
    pub to_gear_display: i32,
    pub peak_rpm: i32,
}

/// The state machine: the recording toggle, the gear the tracker last
/// settled on, and the peak RPM seen since that baseline was set.
#[derive(Clone, Copy, PartialEq, Eq, Structural, Debug)]
pub struct ShiftCapture {
    pub recording: bool,
    pub last_gear: i32,
    pub peak_rpm: i32,
}

/// Whether the gear code is a forward gear.
pub open spec fn is_forward_gear(gear: int) -> bool {
    gear >= 2
}

/// The state after the recording toggle is pressed: the mode flips, and if
/// a forward gear is engaged the baseline is re-seeded so the gear already
/// active cannot trigger a capture on the next frame by itself.
pub open spec fn spec_toggle(pre: ShiftCapture, gear: i32, rpm: i32) -> ShiftCapture {
    ShiftCapture {
        recording: !pre.recording,
        last_gear: if is_forward_gear(gear as int) {
            gear
        } else {
            pre.last_gear
        },
        peak_rpm: if is_forward_gear(gear as int) {
            rpm
        } else {
            pre.peak_rpm
        },
    }
}

/// The peak RPM after the unconditional per-frame tracking step.
pub open spec fn spec_tracked_peak(pre: ShiftCapture, rpm: i32) -> i32 {
    if rpm > pre.peak_rpm {
        rpm
    } else {
        pre.peak_rpm
    }
}

/// Whether the per-frame step captures an upshift: recording is on, both
/// the previous and the current gear are forward gears, and the gear number
/// rose (a jump over several gears still counts as one capture).
pub open spec fn upshift_captured(pre: ShiftCapture, gear: int) -> bool {
    pre.recording && is_forward_gear(gear) && gear > pre.last_gear && is_forward_gear(
        pre.last_gear as int,
    )
}

/// The state after one per-frame step, and the event it emits if any.
/// First the peak RPM absorbs the current RPM; then, depending on the mode:
/// while recording, an upshift between forward gears emits an event and
/// re-seeds the baseline, and any drop to a lower gear re-seeds it silently;
/// while idle, a forward gear other than the tracked one resynchronizes the
/// baseline silently. Neutral and reverse never move the baseline.
pub open spec fn spec_step(pre: ShiftCapture, gear: i32, rpm: i32) -> (ShiftCapture, Option<
    ShiftEvent,
>) {
    let peak = spec_tracked_peak(pre, rpm);
    if pre.recording {
        if is_forward_gear(gear as int) {
            if gear > pre.last_gear && is_forward_gear(pre.last_gear as int) {
                (
                    ShiftCapture { recording: true, last_gear: gear, peak_rpm: rpm },
                    Some(
                        ShiftEvent {
                            from_gear_display: (pre.last_gear - 1) as i32,
                            to_gear_display: (gear - 1) as i32,
                            peak_rpm: peak,
                        },
                    ),
                )
            } else if gear < pre.last_gear {
                (ShiftCapture { recording: true, last_gear: gear, peak_rpm: rpm }, None)
            } else {
                (ShiftCapture { recording: true, last_gear: pre.last_gear, peak_rpm: peak }, None)
            }
        } else {
            (ShiftCapture { recording: true, last_gear: pre.last_gear, peak_rpm: peak }, None)
        }
    } else {
        if is_forward_gear(gear as int) && gear != pre.last_gear {
            (ShiftCapture { recording: false, last_gear: gear, peak_rpm: rpm }, None)
        } else {
            (ShiftCapture { recording: false, last_gear: pre.last_gear, peak_rpm: peak }, None)
        }
    }
}

impl ShiftCapture {
    /// A fresh tracker: idle, with a neutral baseline.
    pub fn new() -> (r: ShiftCapture)
        ensures
            r.recording == false,
            r.last_gear == 0,
            r.peak_rpm == 0,
    {
        ShiftCapture { recording: false, last_gear: 0, peak_rpm: 0 }
    }

    /// The operator pressed the recording toggle (edge-triggered: the caller
    /// reports each press exactly once).
    pub fn toggle(&mut self, gear: i32, rpm: i32)
        ensures
            *final(self) == spec_toggle(*old(self), gear, rpm),
    {
        self.recording = !self.recording;
        if gear >= 2 {
            self.last_gear = gear;
            self.peak_rpm = rpm;
        }
    }

    /// One per-frame step on the current gear and RPM; returns the captured
    /// upshift if this frame completed one.
    pub fn step(&mut self, gear: i32, rpm: i32) -> (ev: Option<ShiftEvent>)
        ensures
            (*final(self), ev) == spec_step(*old(self), gear, rpm),
            ev is Some <==> upshift_captured(*old(self), gear as int),
    {
        if rpm > self.peak_rpm {
            self.peak_rpm = rpm;
        }
        if self.recording {
            if gear >= 2 {
                if gear > self.last_gear && self.last_gear >= 2 {
                    let ev = ShiftEvent {
                        from_gear_display: self.last_gear - 1,
                        to_gear_display: gear - 1,
                        peak_rpm: self.peak_rpm,
                    };
                    self.last_gear = gear;
                    self.peak_rpm = rpm;
                    return Some(ev);
                } else if gear < self.last_gear {
                    self.last_gear = gear;
                    self.peak_rpm = rpm;
                }
            }
        } else if gear >= 2 && gear != self.last_gear {
            self.last_gear = gear;
            self.peak_rpm = rpm;
        }
        None
    }
}

/// While the tracked gear is held, the peak RPM never goes down, and the
/// baseline gear does not move.
pub proof fn lemma_peak_monotone_while_gear_held(pre: ShiftCapture, rpm: i32)
    ensures
        spec_step(pre, pre.last_gear, rpm).0.peak_rpm >= pre.peak_rpm,
        spec_step(pre, pre.last_gear, rpm).0.last_gear == pre.last_gear,
        spec_step(pre, pre.last_gear, rpm).1 is None,
{
}

/// A downshift between forward gears while recording emits no event and
/// resets the tracking baseline to the new gear and the current RPM.
pub proof fn lemma_downshift_resets_silently(pre: ShiftCapture, gear: i32, rpm: i32)
    requires
        pre.recording,
        is_forward_gear(gear as int),
        gear < pre.last_gear,
    ensures
        spec_step(pre, gear, rpm).1 is None,
        spec_step(pre, gear, rpm).0.last_gear == gear,
        spec_step(pre, gear, rpm).0.peak_rpm == rpm,
        spec_step(pre, gear, rpm).0.recording,
{
}

/// Whenever a step moves the baseline gear, the peak restarts from the RPM
/// of that very frame: no stale peak survives a change of the tracked gear.
pub proof fn lemma_baseline_reset_takes_current_rpm(pre: ShiftCapture, gear: i32, rpm: i32)
    requires
        spec_step(pre, gear, rpm).0.last_gear != pre.last_gear,
    ensures
        spec_step(pre, gear, rpm).0.last_gear == gear,
        spec_step(pre, gear, rpm).0.peak_rpm == rpm,
{
}

/// Neutral and reverse never move the baseline in either mode: only the
/// peak-RPM tracking advances.
pub proof fn lemma_non_forward_gear_only_tracks(pre: ShiftCapture, gear: i32, rpm: i32)
    requires
        !is_forward_gear(gear as int),
    ensures
        spec_step(pre, gear, rpm).1 is None,
        spec_step(pre, gear, rpm).0.last_gear == pre.last_gear,
        spec_step(pre, gear, rpm).0.peak_rpm == spec_tracked_peak(pre, rpm),
        spec_step(pre, gear, rpm).0.recording == pre.recording,
{
}

} // verus!
