//! Clock-skew estimation between the sender's clock and the local clock.
//!
//! Each observation pairs a remote time with the local time at which it was
//! seen. The estimator keeps the differences of the two clocks' progress since
//! a base observation in a window, follows the minimum of that window, and maps
//! each remote time onto the local clock with a skew that is smoothed towards
//! that minimum (the scheme of Fober, Orlarey and Letz, 2005, as in GStreamer's
//! RTP jitter buffer).
use vstd::prelude::*;

use std::collections::VecDeque;

use crate::clock;

verus! {

broadcast use vstd::std_specs::vecdeque::group_vec_dequeue_axioms;

/// The number of observations in a full window.
pub const WINDOW_LENGTH: u64 = 512;

/// The remote-time span after which the window is considered full, in nanoseconds.
pub const WINDOW_DURATION: u64 = 2_000_000_000;

/// A difference between clock drift and skew beyond which the estimator starts over.
pub const RESET_THRESHOLD: i64 = 1_000_000_000;

/// Times handed to the estimator lie below this bound (2^63 ns, about 292
/// years), so that their differences are exact as signed 64-bit values.
pub const TIME_LIMIT: u64 = 0x8000_0000_0000_0000;

/// The mathematical state of the estimator.
pub struct ObservationsModel {
    /// The base observation: remote and local time.
    pub base: Option<(u64, u64)>,
    /// The window of drifts (local progress minus remote progress), oldest first.
    pub deltas: Seq<i64>,
    pub min_delta: i64,
    pub skew: i64,
    /// Whether the window is still being filled.
    pub filling: bool,
    pub window_size: nat,
}

/// The minimum of a sequence (0 for the empty one).
pub open spec fn seq_min(s: Seq<i64>) -> int
    decreases s.len(),
{
    if s.len() == 0 {
        0
    } else if s.len() == 1 {
        s[0] as int
    } else {
        let m = seq_min(s.drop_last());
        if (s.last() as int) < m {
            s.last() as int
        } else {
            m
        }
    }
}

/// Division that rounds towards zero, as integer division does in Rust.
pub open spec fn trunc_div(a: int, b: int) -> int {
    if a >= 0 {
        a / b
    } else {
        -((-a) / b)
    }
}

/// `a - b`, or 0 where that is negative.
pub open spec fn sat_sub(a: u64, b: u64) -> int {
    if a >= b {
        a - b
    } else {
        0
    }
}

/// The state right after (re)starting on a base observation.
pub open spec fn reset_model(remote: u64, local: u64) -> ObservationsModel {
    ObservationsModel {
        base: Some((remote, local)),
        deltas: Seq::empty(),
        min_delta: 0,
        skew: 0,
        filling: true,
        window_size: 0,
    }
}

/// The state before any observation.
pub open spec fn initial_model() -> ObservationsModel {
    ObservationsModel {
        base: None,
        deltas: Seq::empty(),
        min_delta: 0,
        skew: 0,
        filling: true,
        window_size: 0,
    }
}

/// The local clock advanced less than 0.8 or more than 1.2 times as fast as the remote one.
pub open spec fn slope_out_of_range(local_diff: int, remote_diff: int) -> bool {
    &&& remote_diff > 0
    &&& local_diff > 0
    &&& (10 * local_diff < 8 * remote_diff || 10 * local_diff > 12 * remote_diff)
}

/// The drift is more than a second away from the current skew.
pub open spec fn skew_too_far(delta: int, skew: int) -> bool {
    delta - skew > RESET_THRESHOLD || skew - delta > RESET_THRESHOLD
}

/// How far (in percent) the window is filled, by time or by count.
pub open spec fn fill_percent(remote_diff: int, len: int) -> int {
    let by_time = remote_diff * 100 / (WINDOW_DURATION as int);
    let by_count = len * 100 / (WINDOW_LENGTH as int);
    if by_time > by_count {
        by_time
    } else {
        by_count
    }
}

/// The window, minimum and skew after taking in the drift `delta`.
pub open spec fn next_window(m: ObservationsModel, remote_diff: int, delta: int) -> ObservationsModel {
    if m.filling {
        let d = m.deltas.push(delta as i64);
        let mn = seq_min(d);
        if remote_diff > WINDOW_DURATION || d.len() == WINDOW_LENGTH {
            ObservationsModel {
                base: m.base,
                deltas: d,
                min_delta: mn as i64,
                skew: mn as i64,
                filling: false,
                window_size: d.len(),
            }
        } else {
            let perc = fill_percent(remote_diff, d.len() as int);
            ObservationsModel {
                base: m.base,
                deltas: d,
                min_delta: mn as i64,
                skew: trunc_div(perc * mn + (10000 - perc) * m.skew, 10000) as i64,
                filling: true,
                window_size: m.window_size,
            }
        }
    } else {
        let d = m.deltas.subrange(1, m.deltas.len() as int).push(delta as i64);
        let mn = seq_min(d);
        ObservationsModel {
            base: m.base,
            deltas: d,
            min_delta: mn as i64,
            skew: trunc_div(mn + 124 * m.skew, 125) as i64,
            filling: false,
            window_size: m.window_size,
        }
    }
}

/// The base local time plus the remote progress plus the skew, never below zero.
pub open spec fn output_time(base_local: u64, remote_diff: int, skew: int) -> int {
    let t = base_local + remote_diff + skew;
    if t < 0 {
        0
    } else {
        t
    }
}

/// One observation: the next state and the local time that the remote time maps to.
pub open spec fn spec_observe(m: ObservationsModel, remote: u64, local: u64) -> (
    ObservationsModel,
    int,
) {
    match m.base {
        None => (reset_model(remote, local), local as int),
        Some((base_remote, base_local)) => {
            let remote_diff = sat_sub(remote, base_remote);
            let local_diff = sat_sub(local, base_local);
            let delta = local_diff - remote_diff;
            if slope_out_of_range(local_diff, remote_diff) || skew_too_far(delta, m.skew as int) {
                (reset_model(remote, local), local as int)
            } else {
                let n = next_window(m, remote_diff, delta);
                (n, output_time(base_local, remote_diff, n.skew as int))
            }
        },
    }
}

/// A value strictly inside the estimator's range of drifts.
pub open spec fn in_range(x: int) -> bool {
    -(TIME_LIMIT as int) < x < TIME_LIMIT as int
}

/// The invariant of the estimator's state.
pub open spec fn model_wf(m: ObservationsModel) -> bool {
    &&& (m.base matches Some((r, l)) ==> r < TIME_LIMIT && l < TIME_LIMIT)
    &&& (m.base is None ==> m.deltas.len() == 0 && m.filling)
    &&& (m.filling ==> m.deltas.len() < WINDOW_LENGTH)
    &&& (!m.filling ==> 0 < m.deltas.len() <= WINDOW_LENGTH && m.window_size == m.deltas.len())
    &&& (forall|i: int| 0 <= i < m.deltas.len() ==> in_range(#[trigger] m.deltas[i] as int))
    &&& in_range(m.min_delta as int)
    &&& in_range(m.skew as int)
    &&& (m.deltas.len() > 0 ==> m.min_delta == seq_min(m.deltas))
}

/// The minimum of a non-empty sequence is one of its elements and no larger than any.
pub proof fn lemma_seq_min(s: Seq<i64>)
    requires
        s.len() > 0,
    ensures
        exists|i: int| 0 <= i < s.len() && s[i] as int == seq_min(s),
        forall|i: int| 0 <= i < s.len() ==> seq_min(s) <= #[trigger] s[i] as int,
    decreases s.len(),
{
    if s.len() == 1 {
        assert(s[0] as int == seq_min(s));
    } else {
        let t = s.drop_last();
        lemma_seq_min(t);
        let k = choose|i: int| 0 <= i < t.len() && t[i] as int == seq_min(t);
        if (s.last() as int) < seq_min(t) {
            assert(s[s.len() - 1] as int == seq_min(s));
        } else {
            assert(s[k] == t[k]);
        }
        assert forall|i: int| 0 <= i < s.len() implies seq_min(s) <= #[trigger] s[i] as int by {
            if i < s.len() - 1 {
                assert(s[i] == t[i]);
            }
        }
    }
}

/// An element of a sequence that is no larger than any other is its minimum.
pub proof fn lemma_seq_min_unique(s: Seq<i64>, k: int)
    requires
        0 <= k < s.len(),
        forall|i: int| 0 <= i < s.len() ==> s[k] <= #[trigger] s[i],
    ensures
        seq_min(s) == s[k] as int,
{
    lemma_seq_min(s);
    let j = choose|i: int| 0 <= i < s.len() && s[i] as int == seq_min(s);
    assert(s[k] <= s[j]);
    assert(seq_min(s) <= s[k] as int);
}

proof fn lemma_trunc_div_range(a: int, b: int, lo: int, hi: int)
    requires
        b > 0,
        lo <= 0 <= hi,
        lo * b <= a <= hi * b,
    ensures
        lo <= trunc_div(a, b) <= hi,
{
    if a >= 0 {
        assert(a / b <= hi) by (nonlinear_arith)
            requires
                b > 0,
                0 <= a <= hi * b,
        ;
        assert(a / b >= 0) by (nonlinear_arith)
            requires
                b > 0,
                0 <= a,
        ;
    } else {
        assert(-a <= (-lo) * b) by (nonlinear_arith)
            requires
                lo * b <= a,
        ;
        assert((-a) / b <= -lo) by (nonlinear_arith)
            requires
                b > 0,
                0 < -a <= (-lo) * b,
        ;
        assert((-a) / b >= 0) by (nonlinear_arith)
            requires
                b > 0,
                0 < -a,
        ;
    }
}

/// A weighted mean of two values in the range, rounded towards zero, stays in the range.
proof fn lemma_weighted_in_range(w1: int, x: int, w2: int, y: int, total: int)
    requires
        w1 >= 0,
        w2 >= 0,
        w1 + w2 == total,
        total > 0,
        in_range(x),
        in_range(y),
    ensures
        in_range(trunc_div(w1 * x + w2 * y, total)),
{
    let t = TIME_LIMIT as int;
    assert(-(t - 1) * total <= w1 * x + w2 * y <= (t - 1) * total) by (nonlinear_arith)
        requires
            w1 >= 0,
            w2 >= 0,
            w1 + w2 == total,
            -(t - 1) <= x <= t - 1,
            -(t - 1) <= y <= t - 1,
    ;
    lemma_trunc_div_range(w1 * x + w2 * y, total, -(t - 1), t - 1);
}

proof fn lemma_mul_bound(a: int, x: int, amax: int, t: int)
    requires
        0 <= a <= amax,
        -t < x < t,
    ensures
        -(amax * t) <= a * x <= amax * t,
{
    assert(-(amax * t) <= a * x <= amax * t) by (nonlinear_arith)
        requires
            0 <= a <= amax,
            -t < x < t,
    ;
}

proof fn lemma_trunc_div_upper(a: int, b: int, hi: int)
    requires
        b > 0,
        a <= hi * b,
    ensures
        trunc_div(a, b) <= hi,
{
    if a >= 0 {
        assert(a / b <= hi) by (nonlinear_arith)
            requires
                b > 0,
                0 <= a <= hi * b,
        ;
    } else {
        assert((-hi) * b == -(hi * b)) by (nonlinear_arith);
        assert((-a) / b >= -hi) by (nonlinear_arith)
            requires
                b > 0,
                -a >= (-hi) * b,
        ;
    }
}

/// The skew after taking in a drift no more than a second below the current
/// skew stays at most a second above that drift.
proof fn lemma_skew_bounded_by_drift(m: ObservationsModel, remote_diff: int, delta: int)
    requires
        model_wf(m),
        m.base is Some,
        in_range(delta),
        remote_diff >= 0,
        m.skew <= delta + RESET_THRESHOLD,
    ensures
        next_window(m, remote_diff, delta).skew <= delta + RESET_THRESHOLD,
{
    let b = delta + RESET_THRESHOLD;
    let d = if m.filling {
        m.deltas.push(delta as i64)
    } else {
        m.deltas.subrange(1, m.deltas.len() as int).push(delta as i64)
    };
    lemma_seq_min(d);
    assert(d[d.len() - 1] == delta);
    let mn = seq_min(d);
    assert(mn <= delta);
    let n = next_window(m, remote_diff, delta);
    if m.filling {
        if !(remote_diff > WINDOW_DURATION || d.len() == WINDOW_LENGTH) {
            let perc = fill_percent(remote_diff, d.len() as int);
            assert(0 <= remote_diff * 100 / (WINDOW_DURATION as int) <= 100) by (nonlinear_arith)
                requires
                    0 <= remote_diff <= 2_000_000_000,
            ;
            assert(0 <= (d.len() as int) * 100 / (WINDOW_LENGTH as int) <= 100) by (nonlinear_arith)
                requires
                    0 <= d.len() <= 512,
            ;
            assert(0 <= perc <= 100);
            assert(perc * mn + (10000 - perc) * m.skew <= 10000 * b) by (nonlinear_arith)
                requires
                    0 <= perc <= 100,
                    mn <= b,
                    m.skew <= b,
            ;
            lemma_trunc_div_upper(perc * mn + (10000 - perc) * m.skew, 10000, b);
            lemma_weighted_in_range(perc, mn, 10000 - perc, m.skew as int, 10000);
        }
    } else {
        lemma_trunc_div_upper(mn + 124 * m.skew, 125, b);
        lemma_weighted_in_range(1, mn, 124, m.skew as int, 125);
    }
}

/// Taking in a drift in range keeps the estimator's invariant.
proof fn lemma_next_window_wf(m: ObservationsModel, remote_diff: int, delta: int)
    requires
        model_wf(m),
        m.base is Some,
        in_range(delta),
        remote_diff >= 0,
    ensures
        model_wf(next_window(m, remote_diff, delta)),
{
    let d = if m.filling {
        m.deltas.push(delta as i64)
    } else {
        m.deltas.subrange(1, m.deltas.len() as int).push(delta as i64)
    };
    let n = next_window(m, remote_diff, delta);
    assert(n.deltas == d);
    assert forall|i: int| 0 <= i < d.len() implies in_range(#[trigger] d[i] as int) by {
        if i < d.len() - 1 {
            if m.filling {
                assert(d[i] == m.deltas[i]);
            } else {
                assert(d[i] == m.deltas[i + 1]);
            }
        }
    }
    lemma_seq_min(d);
    let k = choose|i: int| 0 <= i < d.len() && d[i] as int == seq_min(d);
    assert(in_range(d[k] as int));
    let mn = seq_min(d);
    if m.filling {
        if !(remote_diff > WINDOW_DURATION || d.len() == WINDOW_LENGTH) {
            let perc = fill_percent(remote_diff, d.len() as int);
            assert(0 <= remote_diff * 100 / (WINDOW_DURATION as int) <= 100) by (nonlinear_arith)
                requires
                    0 <= remote_diff <= 2_000_000_000,
            ;
            assert(0 <= (d.len() as int) * 100 / (WINDOW_LENGTH as int) <= 100) by (nonlinear_arith)
                requires
                    0 <= d.len() <= 512,
            ;
            lemma_weighted_in_range(perc, mn, 10000 - perc, m.skew as int, 10000);
        }
    } else {
        lemma_weighted_in_range(1, mn, 124, m.skew as int, 125);
    }
}

fn div_trunc(a: i128, b: i128) -> (r: i128)
    requires
        b > 0,
        a > i128::MIN,
    ensures
        r == trunc_div(a as int, b as int),
{
    if a >= 0 {
        a / b
    } else {
        let na: i128 = -a;
        let q: i128 = na / b;
        proof {
            assert(q >= 0) by (nonlinear_arith)
                requires
                    na > 0,
                    b > 0,
                    q == na / b,
            ;
        }
        -q
    }
}

/// Clock-skew estimator; see the module documentation.
pub struct Observations {
    base_remote_time: Option<u64>,
    base_local_time: Option<u64>,
    deltas: VecDeque<i64>,
    min_delta: i64,
    skew: i64,
    filling: bool,
    window_size: usize,
}

impl View for Observations {
    type V = ObservationsModel;

    closed spec fn view(&self) -> ObservationsModel {
        ObservationsModel {
            base: match (self.base_remote_time, self.base_local_time) {
                (Some(r), Some(l)) => Some((r, l)),
                _ => None,
            },
            deltas: self.deltas@,
            min_delta: self.min_delta,
            skew: self.skew,
            filling: self.filling,
            window_size: self.window_size as nat,
        }
    }
}

impl Observations {
    /// The invariant of the estimator.
    pub closed spec fn well_formed(&self) -> bool {
        &&& (self.base_remote_time is Some <==> self.base_local_time is Some)
        &&& model_wf(self@)
    }

    /// The estimator before any observation.
    pub fn new() -> (r: Self)
        ensures
            r.well_formed(),
            r@ == initial_model(),
            model_wf(r@),
    {
        Observations {
            base_remote_time: None,
            base_local_time: None,
            deltas: VecDeque::new(),
            min_delta: 0,
            skew: 0,
            filling: true,
            window_size: 0,
        }
    }

    fn reset(&mut self, remote_time: u64, local_time: u64)
        requires
            remote_time < TIME_LIMIT,
            local_time < TIME_LIMIT,
        ensures
            final(self).well_formed(),
            final(self)@ == reset_model(remote_time, local_time),
    {
        self.base_remote_time = Some(remote_time);
        self.base_local_time = Some(local_time);
        self.deltas = VecDeque::new();
        self.min_delta = 0;
        self.skew = 0;
        self.filling = true;
        self.window_size = 0;
    }

    /// Minimum of the (non-empty) window.
    fn window_min(&self) -> (r: i64)
        requires
            self.deltas@.len() > 0,
        ensures
            r == seq_min(self.deltas@),
    {
        let len = self.deltas.len();
        let mut m: i64 = self.deltas[0];
        let mut k: usize = 0;
        let mut i: usize = 1;
        while i < len
            invariant
                len == self.deltas@.len(),
                1 <= i <= len,
                k < i,
                m == self.deltas@[k as int],
                forall|j: int| 0 <= j < i ==> m <= #[trigger] self.deltas@[j],
            decreases len - i,
        {
            let v = self.deltas[i];
            if v < m {
                m = v;
                k = i;
            }
            i = i + 1;
        }
        proof {
            lemma_seq_min_unique(self.deltas@, k as int);
        }
        m
    }

    fn fill_window(&mut self, remote_diff: u64, delta: i64)
        requires
            old(self).well_formed(),
            old(self)@.base is Some,
            old(self)@.filling,
            in_range(delta as int),
        ensures
            final(self).well_formed(),
            final(self)@ == next_window(old(self)@, remote_diff as int, delta as int),
    {
        let ghost m0 = self@;
        let ghost d = m0.deltas.push(delta);
        if self.deltas.len() == 0 || delta < self.min_delta {
            self.min_delta = delta;
        }
        self.deltas.push_back(delta);
        proof {
            assert(self.deltas@ =~= d);
            let last = d.len() - 1;
            if m0.deltas.len() == 0 || delta < m0.min_delta {
                assert forall|i: int| 0 <= i < d.len() implies d[last] <= #[trigger] d[i] by {
                    if i < last {
                        lemma_seq_min(m0.deltas);
                        assert(d[i] == m0.deltas[i]);
                    }
                }
                lemma_seq_min_unique(d, last);
            } else {
                lemma_seq_min(m0.deltas);
                let k = choose|i: int|
                    0 <= i < m0.deltas.len() && m0.deltas[i] as int == seq_min(m0.deltas);
                assert(d[k] == m0.deltas[k]);
                assert forall|i: int| 0 <= i < d.len() implies d[k] <= #[trigger] d[i] by {
                    if i < last {
                        assert(d[i] == m0.deltas[i]);
                    }
                }
                lemma_seq_min_unique(d, k);
            }
            assert(self.min_delta == seq_min(d));
        }
        if remote_diff > WINDOW_DURATION || self.deltas.len() as u64 == WINDOW_LENGTH {
            self.window_size = self.deltas.len();
            self.skew = self.min_delta;
            self.filling = false;
        } else {
            let perc_time = clock::mul_div_floor(remote_diff, 100, WINDOW_DURATION).unwrap();
            let perc_window = clock::mul_div_floor(
                self.deltas.len() as u64,
                100,
                WINDOW_LENGTH,
            ).unwrap();
            let perc: u64 = if perc_time > perc_window {
                perc_time
            } else {
                perc_window
            };
            proof {
                assert(perc_time <= 100) by (nonlinear_arith)
                    requires
                        perc_time as int == (remote_diff as int * 100) / 2_000_000_000,
                        remote_diff <= 2_000_000_000,
                ;
                assert(perc_window <= 100) by (nonlinear_arith)
                    requires
                        perc_window as int == (self.deltas@.len() as int * 100) / 512,
                        self.deltas@.len() <= 512,
                ;
                assert(perc as int == fill_percent(remote_diff as int, d.len() as int));
                lemma_weighted_in_range(
                    perc as int,
                    self.min_delta as int,
                    10000 - perc as int,
                    self.skew as int,
                    10000,
                );
                assert(-(10000 * (TIME_LIMIT as int)) <= (perc as int) * (self.min_delta as int)
                    + (10000 - perc as int) * (self.skew as int) <= 10000 * (TIME_LIMIT as int))
                    by (nonlinear_arith)
                    requires
                        0 <= perc <= 100,
                        in_range(self.min_delta as int),
                        in_range(self.skew as int),
                ;
            }
            let p: i128 = perc as i128;
            proof {
                lemma_mul_bound(p as int, self.min_delta as int, 100, TIME_LIMIT as int);
                lemma_mul_bound(10000 - p as int, self.skew as int, 10000, TIME_LIMIT as int);
            }
            let num: i128 = p * (self.min_delta as i128) + (10000 - p) * (self.skew as i128);
            self.skew = div_trunc(num, 10000) as i64;
        }
        proof {
            assert forall|i: int| 0 <= i < self.deltas@.len() implies in_range(
                #[trigger] self.deltas@[i] as int,
            ) by {
                if i < self.deltas@.len() - 1 {
                    assert(self.deltas@[i] == m0.deltas[i]);
                }
            }
        }
    }

    fn slide_window(&mut self, remote_diff: u64, delta: i64)
        requires
            old(self).well_formed(),
            old(self)@.base is Some,
            !old(self)@.filling,
            in_range(delta as int),
        ensures
            final(self).well_formed(),
            final(self)@ == next_window(old(self)@, remote_diff as int, delta as int),
    {
        let ghost m0 = self@;
        let ghost s0 = m0.deltas;
        let oldest = self.deltas.pop_front().unwrap();
        self.deltas.push_back(delta);
        let ghost d = s0.subrange(1, s0.len() as int).push(delta);
        proof {
            assert(self.deltas@ =~= d);
            lemma_seq_min(s0);
        }
        if delta <= self.min_delta {
            self.min_delta = delta;
            proof {
                let last = d.len() - 1;
                assert forall|i: int| 0 <= i < d.len() implies d[last] <= #[trigger] d[i] by {
                    if i < last {
                        assert(d[i] == s0[i + 1]);
                    }
                }
                lemma_seq_min_unique(d, last);
            }
        } else if oldest == self.min_delta {
            self.min_delta = self.window_min();
        } else {
            proof {
                let k = choose|i: int| 0 <= i < s0.len() && s0[i] as int == seq_min(s0);
                assert(k != 0);
                assert(d[k - 1] == s0[k]);
                assert forall|i: int| 0 <= i < d.len() implies d[k - 1] <= #[trigger] d[i] by {
                    if i < d.len() - 1 {
                        assert(d[i] == s0[i + 1]);
                    }
                }
                lemma_seq_min_unique(d, k - 1);
            }
        }
        proof {
            assert(self.min_delta == seq_min(d));
            lemma_seq_min(d);
            assert(in_range(self.min_delta as int));
            lemma_weighted_in_range(1, self.min_delta as int, 124, self.skew as int, 125);
        }
        let num: i128 = (self.min_delta as i128) + 124 * (self.skew as i128);
        self.skew = div_trunc(num, 125) as i64;
        proof {
            assert forall|i: int| 0 <= i < self.deltas@.len() implies in_range(
                #[trigger] self.deltas@[i] as int,
            ) by {
                if i < self.deltas@.len() - 1 {
                    assert(self.deltas@[i] == m0.deltas[i + 1]);
                }
            }
        }
    }

    fn advance_window(&mut self, remote_diff: u64, delta: i64)
        requires
            old(self).well_formed(),
            old(self)@.base is Some,
            in_range(delta as int),
        ensures
            final(self).well_formed(),
            final(self)@ == next_window(old(self)@, remote_diff as int, delta as int),
    {
        if self.filling {
            self.fill_window(remote_diff, delta);
        } else {
            self.slide_window(remote_diff, delta);
        }
    }

    /// Maps a remote time onto the local clock.
    ///
    /// `time` is the remote time (if there is one) and the local time at which it
    /// was seen. Without a remote time the local time is returned as is; the
    /// first observation, and any whose clocks diverge too far, (re)start the
    /// estimator and also return the local time. The duration is passed through.
    pub fn process(&mut self, time: (Option<u64>, u64), duration: Option<u64>) -> (r: (
        u64,
        Option<u64>,
    ))
        requires
            old(self).well_formed(),
            time.0 matches Some(t) ==> t < TIME_LIMIT && time.1 < TIME_LIMIT,
        ensures
            final(self).well_formed(),
            model_wf(final(self)@),
            r.1 == duration,
            time.0 is None ==> r.0 == time.1 && final(self)@ == old(self)@,
            time.0 matches Some(remote) ==> (final(self)@, r.0 as int) == spec_observe(
                old(self)@,
                remote,
                time.1,
            ),
    {
        let remote_time = match time.0 {
            None => return (time.1, duration),
            Some(t) => t,
        };
        let local_time = time.1;
        let ghost m0 = self@;

        let (base_remote_time, base_local_time) = match (
            self.base_remote_time,
            self.base_local_time,
        ) {
            (Some(remote), Some(local)) => (remote, local),
            _ => {
                self.reset(remote_time, local_time);
                return (local_time, duration);
            },
        };

        let remote_diff = remote_time.saturating_sub(base_remote_time);
        let local_diff = local_time.saturating_sub(base_local_time);
        let delta: i64 = (local_diff as i64) - (remote_diff as i64);
        assert(delta as int == sat_sub(local_time, base_local_time) - sat_sub(
            remote_time,
            base_remote_time,
        ));

        if remote_diff > 0 && local_diff > 0 {
            let l10: u128 = (local_diff as u128) * 10;
            let r8: u128 = (remote_diff as u128) * 8;
            let r12: u128 = (remote_diff as u128) * 12;
            if l10 < r8 || l10 > r12 {
                self.reset(remote_time, local_time);
                return (local_time, duration);
            }
        }
        let dist: i128 = (delta as i128) - (self.skew as i128);
        if dist > RESET_THRESHOLD as i128 || -dist > RESET_THRESHOLD as i128 {
            self.reset(remote_time, local_time);
            return (local_time, duration);
        }
        assert(in_range(delta as int));
        proof {
            lemma_skew_bounded_by_drift(m0, remote_diff as int, delta as int);
        }

        self.advance_window(remote_diff, delta);

        let out_time: u64 = base_local_time + remote_diff;
        let out_time: u64 = if self.skew < 0 {
            out_time.saturating_sub((-self.skew) as u64)
        } else {
            out_time + (self.skew as u64)
        };
        (out_time, duration)
    }
}

/// How one observation changes the window: either the estimator starts over
/// on this observation, or, while filling, the drift is appended to the
/// window; once full, the oldest drift leaves as the new one comes in, so the
/// window keeps its size. In every state reached the window holds at most
/// `WINDOW_LENGTH` drifts and `min_delta` is their minimum (`model_wf`).
pub proof fn lemma_window_evolution(m: ObservationsModel, remote: u64, local: u64)
    requires
        model_wf(m),
        remote < TIME_LIMIT,
        local < TIME_LIMIT,
    ensures
        ({
            let n = spec_observe(m, remote, local).0;
            &&& model_wf(n)
            &&& n.deltas.len() <= WINDOW_LENGTH
            &&& n.deltas.len() > 0 ==> n.min_delta == seq_min(n.deltas)
            &&& n == reset_model(remote, local) || (m.base is Some && n.base == m.base && (if m.filling {
                n.deltas.len() == m.deltas.len() + 1 && n.deltas.subrange(0, m.deltas.len() as int)
                    == m.deltas
            } else {
                !n.filling && n.deltas.len() == m.deltas.len() && n.window_size == m.window_size
                    && n.deltas.subrange(0, m.deltas.len() - 1) == m.deltas.subrange(
                    1,
                    m.deltas.len() as int,
                )
            }))
        }),
{
    let n = spec_observe(m, remote, local).0;
    match m.base {
        None => {},
        Some((br, bl)) => {
            let rd = sat_sub(remote, br);
            let ld = sat_sub(local, bl);
            let delta = ld - rd;
            if !(slope_out_of_range(ld, rd) || skew_too_far(delta, m.skew as int)) {
                lemma_next_window_wf(m, rd, delta);
                if m.filling {
                    assert(n.deltas.subrange(0, m.deltas.len() as int) =~= m.deltas);
                } else {
                    assert(n.deltas.subrange(0, m.deltas.len() - 1) =~= m.deltas.subrange(
                        1,
                        m.deltas.len() as int,
                    ));
                }
            }
        },
    }
}

/// A well-formed estimator's state satisfies the invariant on its model.
pub proof fn lemma_well_formed_model(o: &Observations)
    requires
        o.well_formed(),
    ensures
        model_wf(o@),
{
}

/// The state after a run of observations (remote time, local time), in order.
pub open spec fn observe_all(m: ObservationsModel, obs: Seq<(u64, u64)>) -> ObservationsModel
    decreases obs.len(),
{
    if obs.len() == 0 {
        m
    } else {
        observe_all(spec_observe(m, obs[0].0, obs[0].1).0, obs.subrange(1, obs.len() as int))
    }
}

/// From the initial state, and after any run of observations with times in
/// range, the window holds at most `WINDOW_LENGTH` drifts and `min_delta` is
/// their minimum; each single step grows, slides or restarts the window as
/// `lemma_window_evolution` states.
pub proof fn lemma_window_law_over_runs(obs: Seq<(u64, u64)>)
    requires
        forall|i: int| 0 <= i < obs.len() ==> #[trigger] obs[i].0 < TIME_LIMIT && obs[i].1 < TIME_LIMIT,
    ensures
        model_wf(initial_model()),
        model_wf(observe_all(initial_model(), obs)),
        observe_all(initial_model(), obs).deltas.len() <= WINDOW_LENGTH,
        observe_all(initial_model(), obs).deltas.len() > 0 ==> observe_all(
            initial_model(),
            obs,
        ).min_delta == seq_min(observe_all(initial_model(), obs).deltas),
{
    lemma_runs_keep_wf(initial_model(), obs);
}

proof fn lemma_runs_keep_wf(m: ObservationsModel, obs: Seq<(u64, u64)>)
    requires
        model_wf(m),
        forall|i: int| 0 <= i < obs.len() ==> #[trigger] obs[i].0 < TIME_LIMIT && obs[i].1 < TIME_LIMIT,
    ensures
        model_wf(observe_all(m, obs)),
    decreases obs.len(),
{
    if obs.len() > 0 {
        let (r, l) = obs[0];
        lemma_window_evolution(m, r, l);
        let rest = obs.subrange(1, obs.len() as int);
        assert forall|i: int| 0 <= i < rest.len() implies #[trigger] rest[i].0 < TIME_LIMIT
            && rest[i].1 < TIME_LIMIT by {
            assert(rest[i] == obs[i + 1]);
        }
        lemma_runs_keep_wf(spec_observe(m, r, l).0, rest);
    }
}

/// While the local clock advances exactly as the remote one, the estimator
/// reports the local time itself: the skew stays zero, and every drift in the
/// window stays zero.
pub proof fn lemma_lockstep_clocks_keep_local_time(
    m: ObservationsModel,
    remote: u64,
    local: u64,
)
    requires
        model_wf(m),
        m.skew == 0,
        forall|i: int| 0 <= i < m.deltas.len() ==> #[trigger] m.deltas[i] == 0,
        m.base matches Some((r, l)) && r <= remote && l <= local && local - l == remote - r,
    ensures
        spec_observe(m, remote, local).1 == local,
        spec_observe(m, remote, local).0.skew == 0,
        forall|i: int|
            0 <= i < spec_observe(m, remote, local).0.deltas.len() ==> #[trigger] spec_observe(
                m,
                remote,
                local,
            ).0.deltas[i] == 0,
{
    let (br, bl) = m.base->0;
    let rd = sat_sub(remote, br);
    let n = next_window(m, rd, 0);
    let d = n.deltas;
    assert(d.len() > 0);
    assert forall|i: int| 0 <= i < d.len() implies #[trigger] d[i] == 0 by {
        if m.filling {
            if i < d.len() - 1 {
                assert(d[i] == m.deltas[i]);
            }
        } else {
            if i < d.len() - 1 {
                assert(d[i] == m.deltas[i + 1]);
            }
        }
    }
    lemma_seq_min_unique(d, 0);
    assert(seq_min(d) == 0);
    if m.filling {
        if !(rd > WINDOW_DURATION || d.len() == WINDOW_LENGTH) {
            let perc = fill_percent(rd, d.len() as int);
            assert(perc * 0 + (10000 - perc) * 0 == 0) by (nonlinear_arith);
        }
    }
}

} // verus!
