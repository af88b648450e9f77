use overlay_core::shift::{ShiftCapture, ShiftEvent};

#[test]
fn upshift_while_recording_captures_peak() {
    let mut sc = ShiftCapture::new();
    // Toggle into recording the moment gear 2 is engaged at 6000 RPM.
    sc.toggle(2, 6000);
    assert!(sc.recording);
    assert_eq!(sc.last_gear, 2);
    assert_eq!(sc.peak_rpm, 6000);
    // RPM climbs to 7000 in gear 2, then the shift to 3 lands at 7000.
    let mut events: Vec<ShiftEvent> = Vec::new();
    for (gear, rpm) in [(2, 6200), (2, 6800), (2, 7000), (3, 7000), (3, 6400)] {
        if let Some(ev) = sc.step(gear, rpm) {
            events.push(ev);
        }
    }
    assert_eq!(events.len(), 1);
    assert_eq!(events[0].from_gear_display, 1);
    assert_eq!(events[0].to_gear_display, 2);
    assert_eq!(events[0].peak_rpm, 7000);
    assert_eq!(sc.last_gear, 3);
}

#[test]
fn downshift_while_recording_is_silent_and_resets() {
    let mut sc = ShiftCapture::new();
    sc.toggle(3, 6500);
    assert!(sc.recording);
    let ev = sc.step(2, 5000);
    assert!(ev.is_none());
    assert_eq!(sc.last_gear, 2);
    assert_eq!(sc.peak_rpm, 5000);
}

#[test]
fn idle_resynchronizes_without_event() {
    let mut sc = ShiftCapture::new();
    let ev = sc.step(3, 4000);
    assert!(ev.is_none());
    assert!(!sc.recording);
    assert_eq!(sc.last_gear, 3);
    assert_eq!(sc.peak_rpm, 4000);
    // An upshift while idle still emits nothing.
    let ev2 = sc.step(4, 6000);
    assert!(ev2.is_none());
    assert_eq!(sc.last_gear, 4);
}

#[test]
fn neutral_and_reverse_only_track_peak() {
    let mut sc = ShiftCapture::new();
    sc.toggle(3, 5000);
    let ev = sc.step(1, 8000);
    assert!(ev.is_none());
    assert_eq!(sc.last_gear, 3);
    assert_eq!(sc.peak_rpm, 8000);
    let ev2 = sc.step(0, 2000);
    assert!(ev2.is_none());
    assert_eq!(sc.last_gear, 3);
    assert_eq!(sc.peak_rpm, 8000);
}

#[test]
fn toggle_outside_forward_gear_keeps_baseline() {
    let mut sc = ShiftCapture::new();
    sc.toggle(1, 3000);
    assert!(sc.recording);
    assert_eq!(sc.last_gear, 0);
    assert_eq!(sc.peak_rpm, 0);
}

#[test]
fn gear_jump_counts_as_one_capture() {
    let mut sc = ShiftCapture::new();
    sc.toggle(2, 6000);
    let ev = sc.step(4, 7100);
    let ev = ev.expect("a jump over a gear is still one captured shift");
    assert_eq!(ev.from_gear_display, 1);
    assert_eq!(ev.to_gear_display, 3);
    assert_eq!(ev.peak_rpm, 7100);
}

#[test]
fn peak_is_monotone_while_gear_held() {
    let mut sc = ShiftCapture::new();
    sc.toggle(2, 6000);
    sc.step(2, 6500);
    assert_eq!(sc.peak_rpm, 6500);
    sc.step(2, 6100);
    assert_eq!(sc.peak_rpm, 6500);
}
