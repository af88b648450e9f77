use overlay_core::cache::{
    DecimalEntry, DisplayCache, GearEntry, IntEntry, PercentEntry, RpmEntry,
};

#[test]
fn decimal_within_tolerance_keeps_text() {
    let mut e = DecimalEntry::seeded(1000, "10.0".to_string());
    e.update(1004);
    assert_eq!(e.text.as_str(), "10.0");
    assert_eq!(e.last_centi, 1000);
    e.update(1005);
    assert_eq!(e.text.as_str(), "10.0");
    assert_eq!(e.last_centi, 1000);
}

#[test]
fn decimal_beyond_tolerance_recomputes() {
    let mut e = DecimalEntry::seeded(1000, "10.0".to_string());
    e.update(1006);
    assert_eq!(e.text.as_str(), "10.1");
    assert_eq!(e.last_centi, 1006);
}

#[test]
fn decimal_update_twice_is_idempotent() {
    let mut e = DecimalEntry::seeded(-100, "0.0".to_string());
    e.update(4570);
    let first = e.text.clone();
    assert_eq!(first.as_str(), "45.7");
    e.update(4570);
    assert_eq!(e.text, first);
    assert_eq!(e.last_centi, 4570);
}

#[test]
fn int_entry_changes_only_on_exact_change() {
    let mut e = IntEntry::seeded(2, "2".to_string());
    e.update(2);
    assert_eq!(e.text.as_str(), "2");
    e.update(3);
    assert_eq!(e.text.as_str(), "3");
    e.update(3);
    assert_eq!(e.text.as_str(), "3");
}

#[test]
fn gear_entry_formats_on_change() {
    let mut e = GearEntry::seeded(-999, "N".to_string());
    e.update(0);
    assert_eq!(e.text.as_str(), "R");
    e.update(1);
    assert_eq!(e.text.as_str(), "N");
    e.update(5);
    assert_eq!(e.text.as_str(), "4");
}

#[test]
fn percent_entry_boundary() {
    let mut e = PercentEntry::seeded(-1, "0".to_string());
    e.update(99);
    assert_eq!(e.text.as_str(), "99");
    e.update(100);
    assert_eq!(e.text.as_str(), "F");
}

#[test]
fn rpm_entry_recomputes_on_ignition_flip() {
    let mut e = RpmEntry::seeded(-1, -1, "0".to_string());
    e.update(3000, 1);
    assert_eq!(e.text.as_str(), "3000");
    e.update(3000, 0);
    assert_eq!(e.text.as_str(), "IGNITION OFF");
    e.update(3000, 0);
    assert_eq!(e.text.as_str(), "IGNITION OFF");
}

#[test]
fn fresh_cache_has_sentinel_texts() {
    let c = DisplayCache::new();
    assert_eq!(c.fuel.text.as_str(), "0.0");
    assert_eq!(c.bias.text.as_str(), "50.0");
    assert_eq!(c.gear.text.as_str(), "N");
    assert_eq!(c.rpm.text.as_str(), "0");
    assert_eq!(c.gas.text.as_str(), "0");
    assert_eq!(c.brake.text.as_str(), "0");
    assert_eq!(c.speed.text.as_str(), "0");
    assert_eq!(c.tc_count.text.as_str(), "0");
    assert_eq!(c.abs_count.text.as_str(), "0");
}
