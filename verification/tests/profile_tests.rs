use overlay_core::profile::{trim_padding, ProfilePoller, VehicleProfile};

#[test]
fn trim_cuts_at_first_nul() {
    let raw = b"gt3_r\0\0\0\0\0".to_vec();
    assert_eq!(trim_padding(&raw), b"gt3_r".to_vec());
}

#[test]
fn trim_of_all_padding_is_empty() {
    let raw = vec![0u8; 16];
    assert_eq!(trim_padding(&raw), Vec::<u8>::new());
}

#[test]
fn trim_without_padding_keeps_everything() {
    let raw = b"formula".to_vec();
    assert_eq!(trim_padding(&raw), b"formula".to_vec());
}

#[test]
fn poll_waits_for_its_cadence() {
    let p = ProfilePoller::new();
    assert!(!p.poll_due(1000));
    assert!(!p.poll_due(1999));
    assert!(p.poll_due(2000));
}

#[test]
fn unchanged_name_between_polls_never_retriggers() {
    let mut p = ProfilePoller::new();
    let triggered = p.observe_name(2000, b"gt3_r".to_vec());
    assert!(triggered);
    // One second later the name is the same: no registry lookup.
    let again = p.observe_name(3000, b"gt3_r".to_vec());
    assert!(!again);
    assert_eq!(p.last_poll_ms, 3000);
}

#[test]
fn changed_name_triggers_and_no_match_resets() {
    let mut p = ProfilePoller::new();
    let t1 = p.observe_name(2000, b"gt3_r".to_vec());
    assert!(t1);
    p.adopt(Some(VehicleProfile { shift_rpm: 7400, bb_offset_centi: 700 }));
    assert_eq!(p.shift_rpm, 7400);
    assert_eq!(p.bb_offset_centi, 700);
    let t2 = p.observe_name(4000, b"unknown_car".to_vec());
    assert!(t2);
    p.adopt(None);
    assert_eq!(p.shift_rpm, 0);
    assert_eq!(p.bb_offset_centi, 0);
}
