//! Rolling two-channel history: the gas and brake traces advance in
//! lock-step, one point per channel per accepted sample. A sample is
//! accepted only when a minimum interval has passed since the previous one,
//! which caps the growth rate; after an accepted sample a hard cap evicts
//! one point from the front of both channels, and independently every frame
//! the front is evicted while it has fallen out of the sliding time window.
//! Queries hand the renderer a stride-5 downsampling of a channel and the
//! subsequence of points whose intervention flag was set.

use std::collections::VecDeque;
use vstd::prelude::*;

verus! {

/// Hard cap on the number of points kept per channel.
pub const HISTORY_CAP: usize = 3000;

/// Minimum milliseconds between two accepted samples.
pub const MIN_SAMPLE_INTERVAL_MS: u64 = 3;

/// Default width of the sliding time window, in milliseconds.
pub const DEFAULT_WINDOW_MS: u64 = 15000;

/// One trace point: the sample time, the pedal position in basis points
/// (ten-thousandths of full application), and whether the channel's
/// intervention system (traction control or ABS) was active at that instant.
#[derive(Clone, Copy, PartialEq, Eq, Structural, Debug)]
pub struct HistoryPoint {
    pub t_ms: u64,
    pub value_bp: i32,
    pub flagged: bool,
}

/// The two synchronized channels, the time of the last accepted sample, and
/// the window width.
pub struct HistoryBuffer {
    pub gas: VecDeque<HistoryPoint>,
    pub brake: VecDeque<HistoryPoint>,
    pub last_sample_ms: u64,
    pub window_ms: u64,
}

/// The two channels have equal length and pairwise equal timestamps.
pub open spec fn channels_synchronized(gas: Seq<HistoryPoint>, brake: Seq<HistoryPoint>) -> bool {
    &&& gas.len() == brake.len()
    &&& forall|i: int| 0 <= i < gas.len() ==> gas[i].t_ms == brake[i].t_ms
}

/// Timestamps never decrease along a channel.
pub open spec fn timestamps_sorted(s: Seq<HistoryPoint>) -> bool {
    forall|i: int, j: int| 0 <= i <= j < s.len() ==> s[i].t_ms <= s[j].t_ms
}

/// A push that respects the hard cap: when the grown channel would exceed
/// the cap, the oldest point leaves the front.
pub open spec fn capped_push(s: Seq<HistoryPoint>, p: HistoryPoint) -> Seq<HistoryPoint> {
    let grown = s.push(p);
    if grown.len() > HISTORY_CAP {
        grown.subrange(1, grown.len() as int)
    } else {
        grown
    }
}

/// Whether a sample at `now_ms` is accepted: the minimum interval has passed
/// since the last accepted one.
pub open spec fn sample_due(pre: HistoryBuffer, now_ms: int) -> bool {
    now_ms >= pre.last_sample_ms + MIN_SAMPLE_INTERVAL_MS
}

/// How a buffer after a sampling step at `now_ms` relates to the one
/// before: when the minimum interval has passed the channels take one
/// cap-respecting push each, both stamped `now_ms`; otherwise nothing
/// changes.
pub open spec fn sampled(
    pre: HistoryBuffer,
    post: HistoryBuffer,
    now_ms: int,
    gas_bp: i32,
    tc_active: bool,
    brake_bp: i32,
    abs_active: bool,
) -> bool {
    &&& post.window_ms == pre.window_ms
    &&& if sample_due(pre, now_ms) {
        &&& post.gas@ == capped_push(
            pre.gas@,
            HistoryPoint { t_ms: now_ms as u64, value_bp: gas_bp, flagged: tc_active },
        )
        &&& post.brake@ == capped_push(
            pre.brake@,
            HistoryPoint { t_ms: now_ms as u64, value_bp: brake_bp, flagged: abs_active },
        )
        &&& post.last_sample_ms == now_ms
    } else {
        &&& post.gas@ == pre.gas@
        &&& post.brake@ == pre.brake@
        &&& post.last_sample_ms == pre.last_sample_ms
    }
}

/// How a buffer after window eviction at `now_ms` relates to the one before:
/// both channels lose the same prefix, every dropped point had fallen out of
/// the window, and every kept point is still inside it.
pub open spec fn window_evicted(pre: HistoryBuffer, post: HistoryBuffer, now_ms: int) -> bool {
    let dropped = pre.gas@.len() - post.gas@.len();
    &&& 0 <= dropped <= pre.gas@.len()
    &&& post.gas@ == pre.gas@.skip(dropped)
    &&& post.brake@ == pre.brake@.skip(dropped)
    &&& (forall|i: int| 0 <= i < dropped ==> pre.gas@[i].t_ms < now_ms - pre.window_ms)
    &&& (forall|i: int|
        0 <= i < post.gas@.len() ==> post.gas@[i].t_ms >= now_ms - pre.window_ms)
    &&& post.last_sample_ms == pre.last_sample_ms
    &&& post.window_ms == pre.window_ms
}

/// The flagged subsequence of a channel, as (time, value) pairs in order.
pub open spec fn flagged_points_of(s: Seq<HistoryPoint>) -> Seq<(u64, i32)>
    decreases s.len(),
{
    if s.len() == 0 {
        Seq::empty()
    } else if s.last().flagged {
        flagged_points_of(s.drop_last()).push((s.last().t_ms, s.last().value_bp))
    } else {
        flagged_points_of(s.drop_last())
    }
}

/// Length of the stride-5 downsampling of a channel of length `n`.
pub open spec fn stride_len(n: int) -> int {
    (n + 4) / 5
}

impl HistoryBuffer {
    /// Internal consistency: synchronized channels, sorted timestamps, the
    /// cap respected, and no point newer than the last accepted sample.
    pub open spec fn wf(self) -> bool {
        &&& channels_synchronized(self.gas@, self.brake@)
        &&& timestamps_sorted(self.gas@)
        &&& self.gas@.len() <= HISTORY_CAP
        &&& forall|i: int| 0 <= i < self.gas@.len() ==> self.gas@[i].t_ms <= self.last_sample_ms
    }

    /// A fresh, empty buffer covering a window of `window_ms` milliseconds.
    pub fn new(window_ms: u64) -> (r: HistoryBuffer)
        ensures
            r.wf(),
            r.gas@.len() == 0,
            r.brake@.len() == 0,
            r.last_sample_ms == 0,
            r.window_ms == window_ms,
    {
        HistoryBuffer {
            gas: VecDeque::new(),
            brake: VecDeque::new(),
            last_sample_ms: 0,
            window_ms,
        }
    }

    /// Number of points currently held per channel.
    pub fn len(&self) -> (r: usize)
        ensures
            r == self.gas@.len(),
    {
        self.gas.len()
    }

    /// One per-frame sampling step. If the minimum interval since the last
    /// accepted sample has passed, one point goes onto the back of each
    /// channel, both stamped `now_ms`, and the hard cap then evicts the
    /// front pair if it would be exceeded; otherwise nothing changes. The
    /// accepted channels grow by one until the cap is reached and hold
    /// exactly the cap from then on.
    pub fn sample(
        &mut self,
        now_ms: u64,
        gas_bp: i32,
        tc_active: bool,
        brake_bp: i32,
        abs_active: bool,
    )
        requires
            old(self).wf(),
            now_ms >= old(self).last_sample_ms,
        ensures
            final(self).wf(),
            sampled(*old(self), *final(self), now_ms as int, gas_bp, tc_active, brake_bp, abs_active),
            sample_due(*old(self), now_ms as int) ==> final(self).gas@.len() == if old(
                self,
            ).gas@.len() < HISTORY_CAP {
                old(self).gas@.len() + 1
            } else {
                HISTORY_CAP as nat
            },
    {
        if now_ms - self.last_sample_ms >= MIN_SAMPLE_INTERVAL_MS {
            self.gas.push_back(HistoryPoint { t_ms: now_ms, value_bp: gas_bp, flagged: tc_active });
            self.brake.push_back(
                HistoryPoint { t_ms: now_ms, value_bp: brake_bp, flagged: abs_active },
            );
            self.last_sample_ms = now_ms;
            if self.gas.len() > HISTORY_CAP {
                let _ = self.gas.pop_front();
                let _ = self.brake.pop_front();
            }
        }
    }

    /// Per-frame window eviction: pop the front of both channels while it
    /// has fallen out of the sliding window ending at `now_ms`. After the
    /// call no retained point is older than the window.
    pub fn evict_window(&mut self, now_ms: u64)
        requires
            old(self).wf(),
        ensures
            final(self).wf(),
            window_evicted(*old(self), *final(self), now_ms as int),
    {
        if now_ms < self.window_ms {
            // The window still reaches back past time zero: nothing can
            // have fallen out of it.
            proof {
                assert(self.gas@ =~= self.gas@.skip(0));
                assert(self.brake@ =~= self.brake@.skip(0));
            }
            return ;
        }
        let floor = now_ms - self.window_ms;
        while self.gas.len() > 0 && self.gas[0].t_ms < floor
            invariant
                old(self).wf(),
                self.wf(),
                self.window_ms == old(self).window_ms,
                self.last_sample_ms == old(self).last_sample_ms,
                self.gas@.len() <= old(self).gas@.len(),
                self.gas@ == old(self).gas@.skip(old(self).gas@.len() - self.gas@.len()),
                self.brake@ == old(self).brake@.skip(old(self).gas@.len() - self.gas@.len()),
                floor == now_ms - self.window_ms,
                forall|i: int|
                    0 <= i < old(self).gas@.len() - self.gas@.len() ==> old(self).gas@[i].t_ms
                        < floor,
            decreases self.gas@.len(),
        {
            let _ = self.gas.pop_front();
            let _ = self.brake.pop_front();
            proof {
                let k = old(self).gas@.len() - self.gas@.len();
                assert(self.gas@ =~= old(self).gas@.skip(k));
                assert(self.brake@ =~= old(self).brake@.skip(k));
            }
        }
        proof {
            let k = old(self).gas@.len() - self.gas@.len();
            if self.gas@.len() > 0 {
                assert forall|i: int| 0 <= i < self.gas@.len() implies self.gas@[i].t_ms >= now_ms
                    - self.window_ms by {
                    assert(self.gas@[0].t_ms <= self.gas@[i].t_ms);
                }
            }
        }
    }

    /// The stride-5 downsampling of the gas channel, for rendering.
    pub fn gas_stride(&self) -> (r: Vec<(u64, i32)>)
        requires
            self.wf(),
        ensures
            r@.len() == stride_len(self.gas@.len() as int),
            forall|j: int|
                0 <= j < r@.len() ==> r@[j] == (
                    self.gas@[5 * j].t_ms,
                    self.gas@[5 * j].value_bp,
                ),
    {
        stride_of(&self.gas)
    }

    /// The stride-5 downsampling of the brake channel, for rendering.
    pub fn brake_stride(&self) -> (r: Vec<(u64, i32)>)
        requires
            self.wf(),
        ensures
            r@.len() == stride_len(self.brake@.len() as int),
            forall|j: int|
                0 <= j < r@.len() ==> r@[j] == (
                    self.brake@[5 * j].t_ms,
                    self.brake@[5 * j].value_bp,
                ),
    {
        stride_of(&self.brake)
    }

    /// The gas points at which traction control was active.
    pub fn gas_flagged(&self) -> (r: Vec<(u64, i32)>)
        ensures
            r@ == flagged_points_of(self.gas@),
    {
        flagged_of(&self.gas)
    }

    /// The brake points at which ABS was active.
    pub fn brake_flagged(&self) -> (r: Vec<(u64, i32)>)
        ensures
            r@ == flagged_points_of(self.brake@),
    {
        flagged_of(&self.brake)
    }
}

fn stride_of(v: &VecDeque<HistoryPoint>) -> (r: Vec<(u64, i32)>)
    requires
        v@.len() <= HISTORY_CAP,
    ensures
        r@.len() == stride_len(v@.len() as int),
        forall|j: int| 0 <= j < r@.len() ==> r@[j] == (v@[5 * j].t_ms, v@[5 * j].value_bp),
{
    let mut r: Vec<(u64, i32)> = Vec::new();
    let mut i: usize = 0;
    while i < v.len()
        invariant
            v@.len() <= HISTORY_CAP,
            i % 5 == 0,
            i <= v@.len() + 4,
            r@.len() * 5 == i,
            forall|j: int| 0 <= j < r@.len() ==> r@[j] == (v@[5 * j].t_ms, v@[5 * j].value_bp),
        decreases v@.len() + 5 - i,
    {
        let p = v[i];
        r.push((p.t_ms, p.value_bp));
        i = i + 5;
    }
    proof {
        assert(r@.len() == stride_len(v@.len() as int)) by {
            let n = v@.len() as int;
            let k = r@.len() as int;
            assert(5 * k >= n);
            assert(k == 0 || 5 * (k - 1) < n);
        };
    }
    r
}

fn flagged_of(v: &VecDeque<HistoryPoint>) -> (r: Vec<(u64, i32)>)
    ensures
        r@ == flagged_points_of(v@),
{
    let mut r: Vec<(u64, i32)> = Vec::new();
    let mut i: usize = 0;
    while i < v.len()
        invariant
            i <= v@.len(),
            r@ == flagged_points_of(v@.take(i as int)),
        decreases v@.len() - i,
    {
        let p = v[i];
        proof {
            assert(v@.take(i as int + 1).drop_last() =~= v@.take(i as int));
            assert(v@.take(i as int + 1).last() == v@[i as int]);
        }
        if p.flagged {
            r.push((p.t_ms, p.value_bp));
        }
        i = i + 1;
    }
    proof {
        assert(v@.take(v@.len() as int) =~= v@);
    }
    r
}

/// The cap law: an accepted sample grows a channel by one point until the
/// cap is reached, and holds it at exactly the cap from then on.
pub proof fn lemma_capped_push_length(s: Seq<HistoryPoint>, p: HistoryPoint)
    requires
        s.len() <= HISTORY_CAP,
    ensures
        capped_push(s, p).len() == if s.len() < HISTORY_CAP {
            s.len() + 1
        } else {
            HISTORY_CAP as nat
        },
{
}

/// The window law: eviction drops exactly the points that fell out of the
/// sliding window — every dropped point was older than the window, and no
/// retained point is.
pub proof fn lemma_window_eviction_exact(
    pre: HistoryBuffer,
    post: HistoryBuffer,
    now_ms: int,
    i: int,
)
    requires
        pre.wf(),
        window_evicted(pre, post, now_ms),
        0 <= i < post.gas@.len(),
    ensures
        post.gas@[i].t_ms >= now_ms - pre.window_ms,
        post.brake@[i].t_ms >= now_ms - pre.window_ms,
{
    assert(post.gas@[i].t_ms >= now_ms - pre.window_ms);
    let dropped = pre.gas@.len() - post.gas@.len();
    assert(post.brake@[i] == pre.brake@[dropped + i]);
}

} // verus!
