//! Vehicle-profile poller. The vehicle name arrives as a fixed-width,
//! NUL-padded byte field; on a fixed low-frequency cadence the trimmed name
//! is compared against the last one seen, and only a change triggers a
//! registry lookup. A match adopts the vehicle's shift RPM and brake-bias
//! display offset; no match resets both to neutral defaults, which makes
//! downstream rev-strip coloring fall back to proportional thresholds.

use vstd::prelude::*;

verus! {

/// Milliseconds between two registry polls.
pub const POLL_INTERVAL_MS: u64 = 2000;

/// Per-vehicle calibration constants: the RPM at which to shift (0 meaning
/// unknown), and an additive brake-bias display correction in centi-units.
#[derive(Clone, Copy, PartialEq, Eq, Structural, Debug)]
pub struct VehicleProfile {
    pub shift_rpm: i32,
    pub bb_offset_centi: i32,
}

/// The poller: when it last polled, the trimmed name it last saw, and the
/// profile values currently adopted.
pub struct ProfilePoller {
    pub last_poll_ms: u64,
    pub current_name: Vec<u8>,
    pub shift_rpm: i32,
    pub bb_offset_centi: i32,
}

/// Index of the first NUL byte, or the length when there is none.
pub open spec fn first_nul(s: Seq<u8>) -> int
    decreases s.len(),
{
    if s.len() == 0 || s[0] == 0 {
        0
    } else {
        1 + first_nul(s.skip(1))
    }
}

/// The name with its NUL padding removed: everything before the first NUL.
pub open spec fn trimmed(s: Seq<u8>) -> Seq<u8> {
    s.take(first_nul(s))
}

proof fn lemma_first_nul_at(s: Seq<u8>, i: int)
    requires
        0 <= i <= s.len(),
        forall|j: int| 0 <= j < i ==> s[j] != 0,
        i == s.len() || s[i] == 0,
    ensures
        first_nul(s) == i,
    decreases s.len(),
{
    if s.len() == 0 {
    } else if s[0] == 0 {
        assert(i == 0);
    } else {
        assert(i >= 1) by {
            assert(i == s.len() || s[i] == 0);
        }
        lemma_first_nul_at(s.skip(1), i - 1);
    }
}

/// Cut the raw fixed-width name field at its first NUL byte.
pub fn trim_padding(raw: &Vec<u8>) -> (r: Vec<u8>)
    ensures
        r@ == trimmed(raw@),
{
    let mut out: Vec<u8> = Vec::new();
    let mut i: usize = 0;
    while i < raw.len() && raw[i] != 0
        invariant
            i <= raw@.len(),
            out@ == raw@.take(i as int),
            forall|j: int| 0 <= j < i ==> raw@[j] != 0,
        decreases raw@.len() - i,
    {
        out.push(raw[i]);
        proof {
            assert(out@ =~= raw@.take(i as int + 1));
        }
        i = i + 1;
    }
    proof {
        lemma_first_nul_at(raw@, i as int);
    }
    out
}

/// Whether two byte strings hold the same bytes.
pub fn bytes_equal(a: &Vec<u8>, b: &Vec<u8>) -> (r: bool)
    ensures
        r == (a@ == b@),
{
    if a.len() != b.len() {
        return false;
    }
    let mut i: usize = 0;
    while i < a.len()
        invariant
            a@.len() == b@.len(),
            i <= a@.len(),
            forall|j: int| 0 <= j < i ==> a@[j] == b@[j],
        decreases a@.len() - i,
    {
        if a[i] != b[i] {
            return false;
        }
        i = i + 1;
    }
    proof {
        assert(a@ =~= b@);
    }
    true
}

/// How the poller after an `observe_name` call relates to the one before:
/// the poll clock restarts at `now_ms`, the observed name is remembered,
/// the adopted profile values are untouched, and a lookup is triggered
/// exactly when the name differs from the one seen before.
pub open spec fn observed(
    pre: ProfilePoller,
    post: ProfilePoller,
    now_ms: int,
    name: Seq<u8>,
    triggered: bool,
) -> bool {
    &&& triggered == (name != pre.current_name@)
    &&& post.current_name@ == name
    &&& post.last_poll_ms == now_ms
    &&& post.shift_rpm == pre.shift_rpm
    &&& post.bb_offset_centi == pre.bb_offset_centi
}

impl ProfilePoller {
    /// A fresh poller: no vehicle seen, neutral defaults, poll clock at the
    /// start of time so the first frame past the interval polls.
    pub fn new() -> (r: ProfilePoller)
        ensures
            r.last_poll_ms == 0,
            r.current_name@ == Seq::<u8>::empty(),
            r.shift_rpm == 0,
            r.bb_offset_centi == 0,
    {
        let r = ProfilePoller {
            last_poll_ms: 0,
            current_name: Vec::new(),
            shift_rpm: 0,
            bb_offset_centi: 0,
        };
        proof {
            assert(r.current_name@ =~= Seq::<u8>::empty());
        }
        r
    }

    /// Whether the poll interval has passed since the last poll.
    pub fn poll_due(&self, now_ms: u64) -> (r: bool)
        requires
            now_ms >= self.last_poll_ms,
        ensures
            r == (now_ms >= self.last_poll_ms + POLL_INTERVAL_MS),
    {
        now_ms - self.last_poll_ms >= POLL_INTERVAL_MS
    }

    /// One poll: remember the trimmed name just read, restart the poll
    /// clock, and report whether the name changed — only then does the
    /// caller need to consult the registry.
    pub fn observe_name(&mut self, now_ms: u64, name: Vec<u8>) -> (triggered: bool)
        ensures
            observed(*old(self), *final(self), now_ms as int, name@, triggered),
    {
        let changed = !bytes_equal(&name, &self.current_name);
        if changed {
            self.current_name = name;
        }
        self.last_poll_ms = now_ms;
        changed
    }

    /// Adopt the registry's answer for a changed name: a match installs its
    /// values, no match resets both to the neutral defaults.
    pub fn adopt(&mut self, profile: Option<VehicleProfile>)
        ensures
            final(self).current_name == old(self).current_name,
            final(self).last_poll_ms == old(self).last_poll_ms,
            match profile {
                Some(p) => final(self).shift_rpm == p.shift_rpm && final(self).bb_offset_centi
                    == p.bb_offset_centi,
                None => final(self).shift_rpm == 0 && final(self).bb_offset_centi == 0,
            },
    {
        match profile {
            Some(p) => {
                self.shift_rpm = p.shift_rpm;
                self.bb_offset_centi = p.bb_offset_centi;
            },
            None => {
                self.shift_rpm = 0;
                self.bb_offset_centi = 0;
            },
        }
    }
}

/// The poll law: when the name has not changed between two successive
/// polls, the second poll never triggers a registry lookup.
pub proof fn lemma_unchanged_name_never_retriggers(
    s0: ProfilePoller,
    s1: ProfilePoller,
    s2: ProfilePoller,
    t1: int,
    t2: int,
    name: Seq<u8>,
    b1: bool,
    b2: bool,
)
    requires
        observed(s0, s1, t1, name, b1),
        observed(s1, s2, t2, name, b2),
    ensures
        !b2,
{
}

} // verus!
