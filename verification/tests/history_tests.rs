use overlay_core::history::HistoryBuffer;

#[test]
fn cap_holds_length_at_three_thousand() {
    let mut b = HistoryBuffer::new(1_000_000_000);
    for i in 0..3100u64 {
        b.sample(3 * (i + 1), 5000, false, 2000, false);
    }
    assert_eq!(b.gas.len(), 3000);
    assert_eq!(b.brake.len(), 3000);
    for (g, k) in b.gas.iter().zip(b.brake.iter()) {
        assert_eq!(g.t_ms, k.t_ms);
    }
    // The hundred oldest points were evicted from the front of both.
    assert_eq!(b.gas[0].t_ms, 3 * 101);
}

#[test]
fn samples_below_minimum_interval_are_dropped() {
    let mut b = HistoryBuffer::new(15000);
    b.sample(3, 1000, false, 0, false);
    assert_eq!(b.gas.len(), 1);
    b.sample(4, 2000, false, 0, false);
    b.sample(5, 3000, false, 0, false);
    assert_eq!(b.gas.len(), 1);
    b.sample(6, 4000, false, 0, false);
    assert_eq!(b.gas.len(), 2);
}

#[test]
fn window_evicts_stale_front() {
    let mut b = HistoryBuffer::new(15000);
    b.sample(1000, 100, false, 200, false);
    b.sample(2000, 300, false, 400, false);
    b.evict_window(17000);
    // floor is 2000: the point at 1000 leaves, the one at 2000 stays.
    assert_eq!(b.gas.len(), 1);
    assert_eq!(b.gas[0].t_ms, 2000);
    assert_eq!(b.brake[0].t_ms, 2000);
    b.evict_window(17001);
    assert_eq!(b.gas.len(), 0);
    assert_eq!(b.brake.len(), 0);
}

#[test]
fn window_before_first_point_evicts_nothing() {
    let mut b = HistoryBuffer::new(15000);
    b.sample(1000, 100, false, 200, false);
    b.evict_window(1000);
    b.evict_window(14000);
    assert_eq!(b.gas.len(), 1);
}

#[test]
fn stride_takes_every_fifth_point() {
    let mut b = HistoryBuffer::new(1_000_000);
    for i in 0..12u64 {
        b.sample(10 * (i + 1), i as i32, false, (100 + i) as i32, false);
    }
    assert_eq!(b.gas.len(), 12);
    let gs = b.gas_stride();
    assert_eq!(gs, vec![(10, 0), (60, 5), (110, 10)]);
    let bs = b.brake_stride();
    assert_eq!(bs, vec![(10, 100), (60, 105), (110, 110)]);
}

#[test]
fn flagged_points_are_filtered_in_order() {
    let mut b = HistoryBuffer::new(1_000_000);
    b.sample(10, 1, true, 9, false);
    b.sample(20, 2, false, 8, true);
    b.sample(30, 3, true, 7, true);
    assert_eq!(b.gas_flagged(), vec![(10, 1), (30, 3)]);
    assert_eq!(b.brake_flagged(), vec![(20, 8), (30, 7)]);
}

#[test]
fn empty_buffer_queries_are_empty() {
    let b = HistoryBuffer::new(15000);
    assert_eq!(b.gas_stride(), vec![]);
    assert_eq!(b.brake_stride(), vec![]);
    assert_eq!(b.gas_flagged(), vec![]);
    assert_eq!(b.brake_flagged(), vec![]);
}
