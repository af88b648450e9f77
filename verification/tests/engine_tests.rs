use overlay_core::engine::{Engine, TelemetrySample};
use overlay_core::profile::VehicleProfile;
use overlay_core::revs::{rpm_permille, shift_flags};

fn sample() -> TelemetrySample {
    TelemetrySample {
        gas_bp: 0,
        brake_bp: 0,
        gear: 1,
        speed_kmh: 0,
        rpm: 0,
        max_rpm: 8000,
        fuel_centi: 0,
        brake_bias_bp: 0,
        ignition: 1,
        tc_count: 0,
        abs_count: 0,
        tc_active: false,
        abs_active: false,
    }
}

#[test]
fn frame_formats_all_channels() {
    let mut e = Engine::new();
    let mut s = sample();
    s.gas_bp = 9950;  // a pedal at 99.5% displays as 99
    s.brake_bp = 10000;  // full brake displays as F
    s.gear = 5;
    s.speed_kmh = 213;
    s.rpm = 7412;
    s.fuel_centi = 4570;
    s.brake_bias_bp = 5700;
    s.tc_count = 2;
    s.abs_count = 11;
    let ev = e.frame(10, &s, false);
    assert!(ev.is_none());
    assert_eq!(e.cache.gas.text.as_str(), "99");
    assert_eq!(e.cache.brake.text.as_str(), "F");
    assert_eq!(e.cache.gear.text.as_str(), "4");
    assert_eq!(e.cache.speed.text.as_str(), "213");
    assert_eq!(e.cache.rpm.text.as_str(), "7412");
    assert_eq!(e.cache.fuel.text.as_str(), "45.7");
    assert_eq!(e.cache.bias.text.as_str(), "57.0");
    assert_eq!(e.cache.tc_count.text.as_str(), "2");
    assert_eq!(e.cache.abs_count.text.as_str(), "11");
}

#[test]
fn frame_twice_with_same_sample_changes_nothing() {
    let mut e = Engine::new();
    let mut s = sample();
    s.fuel_centi = 4570;
    s.rpm = 6000;
    s.gear = 3;
    e.frame(10, &s, false);
    let fuel = e.cache.fuel.text.clone();
    let rpm = e.cache.rpm.text.clone();
    let gear = e.cache.gear.text.clone();
    e.frame(11, &s, false);
    assert_eq!(e.cache.fuel.text, fuel);
    assert_eq!(e.cache.rpm.text, rpm);
    assert_eq!(e.cache.gear.text, gear);
}

#[test]
fn brake_bias_uses_adopted_offset() {
    let mut e = Engine::new();
    e.poller.adopt(Some(VehicleProfile { shift_rpm: 7400, bb_offset_centi: -50 }));
    let mut s = sample();
    s.brake_bias_bp = 5700;
    e.frame(10, &s, false);
    assert_eq!(e.cache.bias.text.as_str(), "56.5");
    // A raw zero reading displays as zero, uncorrected.
    s.brake_bias_bp = 0;
    e.frame(20, &s, false);
    assert_eq!(e.cache.bias.text.as_str(), "0.0");
}

#[test]
fn frame_toggle_and_upshift_emits_event() {
    let mut e = Engine::new();
    let mut s = sample();
    s.gear = 2;
    s.rpm = 6000;
    assert!(e.frame(10, &s, true).is_none());
    assert!(e.shift.recording);
    s.rpm = 7000;
    assert!(e.frame(20, &s, false).is_none());
    s.gear = 3;
    let ev = e.frame(30, &s, false).expect("the upshift is captured");
    assert_eq!(ev.from_gear_display, 1);
    assert_eq!(ev.to_gear_display, 2);
    assert_eq!(ev.peak_rpm, 7000);
}

#[test]
fn frames_feed_history_on_the_minimum_interval() {
    let mut e = Engine::new();
    let s = sample();
    e.frame(0, &s, false);  // 0 ms since the start: below the interval
    assert_eq!(e.history.gas.len(), 0);
    e.frame(3, &s, false);
    assert_eq!(e.history.gas.len(), 1);
    e.frame(4, &s, false);
    assert_eq!(e.history.gas.len(), 1);
    e.frame(7, &s, false);
    assert_eq!(e.history.gas.len(), 2);
    assert_eq!(e.history.brake.len(), 2);
}

#[test]
fn rev_strip_fraction_is_clamped_and_safe_on_zero_max() {
    assert_eq!(rpm_permille(6000, 8000), 750);
    assert_eq!(rpm_permille(9000, 8000), 1000);
    assert_eq!(rpm_permille(-100, 8000), 0);
    assert_eq!(rpm_permille(6000, 0), 0);
}

#[test]
fn shift_indicators_use_profile_when_present() {
    // Profile shift point 7400: yellow from 7201, strobe from 7401.
    assert_eq!(shift_flags(7200, 8000, 7400), (false, false));
    assert_eq!(shift_flags(7300, 8000, 7400), (false, true));
    assert_eq!(shift_flags(7500, 8000, 7400), (true, true));
}

#[test]
fn shift_indicators_fall_back_to_proportional_thresholds() {
    // Without a profile: yellow past 92% of 8000 (7360), strobe past 95% (7600).
    assert_eq!(shift_flags(7300, 8000, 0), (false, false));
    assert_eq!(shift_flags(7400, 8000, 0), (false, true));
    assert_eq!(shift_flags(7601, 8000, 0), (true, true));
}
