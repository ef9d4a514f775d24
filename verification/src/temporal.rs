//! Temporal movement classification: a sliding window of recent velocity
//! snapshots, rolling averages, a majority vote, an acceleration trend, and a
//! hysteresis/dwell state machine with a glide lock.
//!
//! Timestamps are in milliseconds and must be fed monotonically, matching the
//! fixed-cadence polling loop that drives the classifier.

use vstd::prelude::*;

use crate::classify::{
    classify, is_airborne_exec, is_airborne_label, is_glide, snap_glide, spec_classify,
    spec_snap_glide, valid_facing, FacingXY, Movement, GLIDE_VZ_MIN,
};
use crate::math::{abs_i64, abs_int, div_trunc, div_trunc_i64, lemma_div_trunc_bound, lemma_div_trunc_scaled};
use crate::speed::{valid_speed, Speed, H_MAX_MU, MAX_DT_MS, M_MAX_MU, V_MAX_MU};

verus! {

/// Length of the averaging window.
pub const WINDOW_MS: u64 = 300;

/// A proposed label must have held for this long before a family-crossing
/// commit.
pub const MIN_DWELL_IN_MS: u64 = 120;

/// Minimum time between family-crossing state changes.
pub const MIN_DWELL_OUT_MS: u64 = 160;

/// Widened vertical-speed band (milli-units/s) that arms the glide lock.
pub const GLIDE_LOCK_VZ_MIN: i64 = 60_000;

pub const GLIDE_LOCK_VZ_MAX: i64 = 170_000;

/// How far each glidey sample extends the glide lock.
pub const GLIDE_LOCK_DWELL_MS: u64 = 180;

/// Downward acceleration (milli-units/s per second) that force-proposes
/// `Falling`.
pub const FALL_ACCEL_GATE: i64 = -350_000;

/// Average vertical speed below this cancels the glide lock outright.
pub const BEYOND_GLIDE_CANCEL_VZ: i64 = -170_000;

/// How many of the newest window entries vote.
pub const VOTE_TAIL: usize = 5;

/// Upper bound on clock values the classifier accepts; leaves room for the
/// lock-expiry arithmetic.
pub const MAX_TIME_MS: u64 = 0x4000_0000_0000_0000;

/// With strictly increasing millisecond timestamps inside a 300 ms window,
/// the history can never hold more than this many entries.
pub const MAX_HISTORY: usize = 301;

/// Sliding-window classifier state.
pub struct TemporalClassifier {
    /// Time-ordered `(timestamp, speed)` pairs, all within the window.
    pub history: Vec<(u64, Speed)>,
    /// The current stable movement label.
    pub state: Movement,
    /// When the stable label last changed.
    pub last_switch: u64,
    /// Expiry of the glide lock.
    pub glide_locked_until: u64,
}

// ---------- Window bookkeeping ----------

/// Timestamps strictly increase along the history.
pub open spec fn times_increasing(h: Seq<(u64, Speed)>) -> bool {
    forall|i: int, j: int| 0 <= i < j < h.len() ==> h[i].0 < h[j].0
}

/// All stored snapshots obey the `Speed` range discipline.
pub open spec fn speeds_valid(h: Seq<(u64, Speed)>) -> bool {
    forall|i: int| 0 <= i < h.len() ==> valid_speed(#[trigger] h[i].1)
}

/// Drop entries older than the window, oldest first.
pub open spec fn evict(h: Seq<(u64, Speed)>, now: u64) -> Seq<(u64, Speed)>
    decreases h.len(),
{
    if h.len() > 0 && now - h[0].0 > WINDOW_MS {
        evict(h.drop_first(), now)
    } else {
        h
    }
}

/// In a strictly increasing sequence, the `j`-th timestamp is at least `j`
/// above the first.
proof fn lemma_increasing_gap(h: Seq<(u64, Speed)>, j: int)
    requires
        times_increasing(h),
        0 <= j < h.len(),
    ensures
        h[j].0 >= h[0].0 + j,
    decreases j,
{
    if j > 0 {
        lemma_increasing_gap(h, j - 1);
    }
}

// ---------- Rolling average ----------

/// Sum of a component over the window, selected by a spec closure.
pub open spec fn sum_by(h: Seq<(u64, Speed)>, f: spec_fn(Speed) -> int) -> int
    decreases h.len(),
{
    if h.len() == 0 {
        0
    } else {
        sum_by(h.drop_last(), f) + f(h.last().1)
    }
}

proof fn lemma_sum_take(h: Seq<(u64, Speed)>, f: spec_fn(Speed) -> int, i: int)
    requires
        0 <= i < h.len(),
    ensures
        sum_by(h.take(i + 1), f) == sum_by(h.take(i), f) + f(h[i].1),
{
    assert(h.take(i + 1).drop_last() =~= h.take(i));
    assert(h.take(i + 1).last() == h[i]);
}

pub open spec fn sel_vx() -> spec_fn(Speed) -> int {
    |sp: Speed| sp.vx as int
}

pub open spec fn sel_vy() -> spec_fn(Speed) -> int {
    |sp: Speed| sp.vy as int
}

pub open spec fn sel_vz() -> spec_fn(Speed) -> int {
    |sp: Speed| sp.vz as int
}

pub open spec fn sel_h() -> spec_fn(Speed) -> int {
    |sp: Speed| sp.horizontal as int
}

pub open spec fn sel_mag() -> spec_fn(Speed) -> int {
    |sp: Speed| sp.magnitude as int
}

/// Arithmetic mean of the buffered components (truncating toward zero),
/// carrying the latest sampling interval.
pub open spec fn spec_avg(h: Seq<(u64, Speed)>, dt_ms: u64) -> Speed {
    let n = if h.len() == 0 {
        1int
    } else {
        h.len() as int
    };
    Speed {
        vx: div_trunc(sum_by(h, sel_vx()), n) as i64,
        vy: div_trunc(sum_by(h, sel_vy()), n) as i64,
        vz: div_trunc(sum_by(h, sel_vz()), n) as i64,
        horizontal: div_trunc(sum_by(h, sel_h()), n) as i64,
        magnitude: div_trunc(sum_by(h, sel_mag()), n) as i64,
        dt_ms: dt_ms,
    }
}

// ---------- Majority vote ----------

/// The instant labels of the newest `k` window entries, newest first.
pub open spec fn tail_labels(h: Seq<(u64, Speed)>, facing: Option<FacingXY>, k: int) -> Seq<
    Movement,
> {
    Seq::new(
        if h.len() < k {
            h.len()
        } else {
            k as nat
        },
        |i: int| spec_classify(h[h.len() - 1 - i].1, facing),
    )
}

/// How often `m` occurs in `labels`.
pub open spec fn count_in(labels: Seq<Movement>, m: Movement) -> int
    decreases labels.len(),
{
    if labels.len() == 0 {
        0
    } else {
        count_in(labels.drop_last(), m) + if labels.last() == m {
            1int
        } else {
            0int
        }
    }
}

/// Plurality scan: strictly larger counts win, so of equally common labels
/// the first seen stays — the stable tie-break rule.
pub open spec fn best_from(labels: Seq<Movement>, i: int, best: Movement, bestc: int) -> Movement
    decreases labels.len() - i,
{
    if 0 <= i < labels.len() {
        let c = count_in(labels, labels[i]);
        if c > bestc {
            best_from(labels, i + 1, labels[i], c)
        } else {
            best_from(labels, i + 1, best, bestc)
        }
    } else {
        best
    }
}

/// The majority vote over a label sequence; `Other` when it is empty.
pub open spec fn spec_vote(labels: Seq<Movement>) -> Movement {
    best_from(labels, 0, Movement::Other, 0)
}

// ---------- Trend ----------

/// Vertical-velocity slope over the window endpoints, in milli-units/s per
/// second.
pub open spec fn spec_vz_trend(h: Seq<(u64, Speed)>) -> int {
    if h.len() < 2 {
        0
    } else {
        let dt = if h.last().0 - h[0].0 >= 1 {
            h.last().0 - h[0].0
        } else {
            1int
        };
        div_trunc((h.last().1.vz - h[0].1.vz) * 1000, dt)
    }
}

// ---------- Lock, proposal, commit ----------

/// The glide-lock expiry after one update over the evicted window `h`.
/// Cancellation (a fall trend or descent beyond the glide envelope) wins
/// over extension and takes effect immediately: the lock is active only
/// strictly before its expiry.
pub open spec fn spec_lock_after(h: Seq<(u64, Speed)>, old_lock: u64, now: u64, dt_ms: u64) -> u64 {
    let avg = spec_avg(h, dt_ms);
    let accel = spec_vz_trend(h) <= FALL_ACCEL_GATE && avg.vz < -GLIDE_VZ_MIN;
    let beyond = avg.vz < BEYOND_GLIDE_CANCEL_VZ;
    let glidey = avg.vz < 0 && GLIDE_LOCK_VZ_MIN <= abs_int(avg.vz as int) <= GLIDE_LOCK_VZ_MAX;
    if accel || beyond {
        now
    } else if glidey {
        (now + GLIDE_LOCK_DWELL_MS) as u64
    } else {
        old_lock
    }
}

/// The label proposed for commit: the fall override, else the averaged
/// sample's label, snapped to the nearest glide band while the lock is
/// active or while a glide state would otherwise drop to `Other`.
pub open spec fn spec_proposal(
    h: Seq<(u64, Speed)>,
    state0: Movement,
    lock1: u64,
    now: u64,
    dt_ms: u64,
    facing: Option<FacingXY>,
) -> Movement {
    let avg = spec_avg(h, dt_ms);
    let accel = spec_vz_trend(h) <= FALL_ACCEL_GATE && avg.vz < -GLIDE_VZ_MIN;
    let base = if accel {
        Movement::Falling
    } else {
        spec_classify(avg, facing)
    };
    if now < lock1 {
        spec_snap_glide(avg.horizontal as int)
    } else if is_glide(state0) && base == Movement::Other {
        spec_snap_glide(avg.horizontal as int)
    } else {
        base
    }
}

/// How long (ms) the newest window entries have classified as `prop`
/// without interruption, measured back from `last_t`.
pub open spec fn tail_run_ms(
    h: Seq<(u64, Speed)>,
    prop: Movement,
    facing: Option<FacingXY>,
    last_t: int,
) -> int
    decreases h.len(),
{
    if h.len() == 0 {
        0
    } else if spec_classify(h.last().1, facing) == prop {
        (last_t - h.last().0) + tail_run_ms(h.drop_last(), prop, facing, h.last().0 as int)
    } else {
        0
    }
}

/// The hysteresis commit rule: identical proposals keep the state, switches
/// within the airborne family commit at once, and family-crossing switches
/// need both dwell minima.
pub open spec fn spec_commit(
    state0: Movement,
    switch0: u64,
    h: Seq<(u64, Speed)>,
    now: u64,
    prop: Movement,
    facing: Option<FacingXY>,
) -> (Movement, u64) {
    if prop == state0 {
        (state0, switch0)
    } else if is_airborne_label(state0) && is_airborne_label(prop) && prop != Movement::Other {
        (prop, now)
    } else {
        let since = if now >= switch0 {
            now - switch0
        } else {
            0int
        };
        if tail_run_ms(h, prop, facing, now as int) >= MIN_DWELL_IN_MS && since
            >= MIN_DWELL_OUT_MS {
            (prop, now)
        } else {
            (state0, switch0)
        }
    }
}

/// The full mathematical model of one `TemporalClassifier::update` call:
/// the new window, stable state, last-switch time and lock expiry.
pub open spec fn spec_update(
    h0: Seq<(u64, Speed)>,
    state0: Movement,
    switch0: u64,
    lock0: u64,
    now: u64,
    s: Speed,
    facing: Option<FacingXY>,
) -> (Seq<(u64, Speed)>, Movement, u64, u64) {
    let h = evict(h0.push((now, s)), now);
    let lock1 = spec_lock_after(h, lock0, now, s.dt_ms);
    let prop = spec_proposal(h, state0, lock1, now, s.dt_ms, facing);
    let (state1, switch1) = spec_commit(state0, switch0, h, now, prop, facing);
    (h, state1, switch1, lock1)
}

impl TemporalClassifier {
    pub open spec fn wf(self) -> bool {
        &&& times_increasing(self.history@)
        &&& speeds_valid(self.history@)
        &&& self.history@.len() <= MAX_HISTORY
        &&& self.history@.len() > 0 ==> self.history@.last().0 - self.history@[0].0 <= WINDOW_MS
    }

    pub fn new(now: u64) -> (r: Self)
        ensures
            r.wf(),
            r.history@ =~= Seq::<(u64, Speed)>::empty(),
            r.state == Movement::Idle,
            r.last_switch == now,
            r.glide_locked_until == now,
    {
        TemporalClassifier {
            history: Vec::new(),
            state: Movement::Idle,
            last_switch: now,
            glide_locked_until: now,
        }
    }

    /// Feed one speed snapshot; returns the (possibly unchanged) stable
    /// movement label. The committed proposal follows the averaged sample
    /// (with the falling override and the glide snaps); the windowed
    /// majority vote is available separately through `majority_vote`.
    pub fn update(&mut self, now: u64, s: Speed, facing_xy: Option<FacingXY>) -> (r: Movement)
        requires
            old(self).wf(),
            valid_speed(s),
            facing_xy matches Some(f) ==> valid_facing(f),
            old(self).history@.len() > 0 ==> now > old(self).history@.last().0,
            now <= MAX_TIME_MS,
        ensures
            final(self).wf(),
            (final(self).history@, final(self).state, final(self).last_switch, final(self).glide_locked_until)
                == spec_update(
                old(self).history@,
                old(self).state,
                old(self).last_switch,
                old(self).glide_locked_until,
                now,
                s,
                facing_xy,
            ),
            r == final(self).state,
    {
        let ghost full = old(self).history@.push((now, s));
        self.history.push((now, s));
        proof {
            assert(times_increasing(full));
            assert(speeds_valid(full));
            assert(forall|i: int| 0 <= i < full.len() ==> #[trigger] full[i].0 <= now);
        }

        // Evict entries older than the averaging window.
        while self.history.len() > 0 && now - self.history[0].0 > WINDOW_MS
            invariant
                self.state == old(self).state,
                self.last_switch == old(self).last_switch,
                self.glide_locked_until == old(self).glide_locked_until,
                times_increasing(self.history@),
                speeds_valid(self.history@),
                forall|i: int| 0 <= i < self.history@.len() ==> #[trigger] self.history@[i].0 <= now,
                evict(self.history@, now) == evict(full, now),
                self.history@.len() > 0 ==> self.history@.last() == (now, s),
                self.history@.len() <= full.len(),
            decreases self.history@.len(),
        {
            let ghost pre = self.history@;
            self.history.remove(0);
            proof {
                assert(self.history@ =~= pre.drop_first());
            }
        }
        proof {
            assert(self.history@ == evict(full, now));
            // The window still ends with the entry just pushed: eviction
            // never removes the newest entry because its age is zero.
            lemma_evict_keeps_last(full, now);
            assert(self.history@.len() > 0 && self.history@.last() == (now, s));
            // Window length bound: entries span at most WINDOW_MS ms and
            // strictly increase, so there are at most WINDOW_MS + 1 of them.
            let h = self.history@;
            if h.len() > MAX_HISTORY {
                lemma_increasing_gap(h, h.len() - 1);
                assert(false);
            }
            assert(self.wf());
        }
        let ghost hist = self.history@;

        // Rolling average of the buffered components.
        let avg = self.window_average(s.dt_ms);

        // Vertical-velocity trend over the window endpoints.
        let trend = self.vz_trend_exec();

        let accel_suggests_fall = trend <= FALL_ACCEL_GATE && avg.vz < -GLIDE_VZ_MIN;
        let abs_avg_vz = abs_i64(avg.vz);
        let looks_glidey = avg.vz < 0 && GLIDE_LOCK_VZ_MIN <= abs_avg_vz && abs_avg_vz
            <= GLIDE_LOCK_VZ_MAX;
        if looks_glidey {
            self.glide_locked_until = now + GLIDE_LOCK_DWELL_MS;
        }
        let beyond_glide = avg.vz < BEYOND_GLIDE_CANCEL_VZ;
        if accel_suggests_fall || beyond_glide {
            self.glide_locked_until = now;
        }
        proof {
            assert(self.glide_locked_until == spec_lock_after(
                hist,
                old(self).glide_locked_until,
                now,
                s.dt_ms,
            ));
        }

        // The proposal: fall override, else the averaged label, snapped to a
        // glide band under the lock or to bridge a glide wobble.
        let avg_label = classify(&avg, facing_xy);
        let mut proposed = if accel_suggests_fall {
            Movement::Falling
        } else {
            avg_label
        };
        if now < self.glide_locked_until {
            proposed = snap_glide(avg.horizontal);
        } else {
            let cur_glide = match self.state {
                Movement::GlideBack => true,
                Movement::GlideNeutral => true,
                Movement::GlideForward => true,
                _ => false,
            };
            if cur_glide && proposed == Movement::Other {
                proposed = snap_glide(avg.horizontal);
            }
        }
        proof {
            assert(proposed == spec_proposal(
                hist,
                old(self).state,
                self.glide_locked_until,
                now,
                s.dt_ms,
                facing_xy,
            ));
        }

        // Hysteresis: cheap switches inside the airborne family, dwell-gated
        // commits across it.
        let cur = self.state;
        if proposed != cur {
            let both_airborne = is_airborne_exec(cur) && is_airborne_exec(proposed);
            if both_airborne && proposed != Movement::Other {
                self.state = proposed;
                self.last_switch = now;
            } else {
                let proposed_time = self.tail_run_exec(proposed, facing_xy, now);
                let since = if now >= self.last_switch {
                    now - self.last_switch
                } else {
                    0
                };
                if proposed_time >= MIN_DWELL_IN_MS && since >= MIN_DWELL_OUT_MS {
                    self.state = proposed;
                    self.last_switch = now;
                }
            }
        }

        self.state
    }

    /// Arithmetic mean of the buffered speed components; carries `dt_ms`.
    fn window_average(&self, dt_ms: u64) -> (avg: Speed)
        requires
            self.wf(),
            1 <= dt_ms <= MAX_DT_MS,
        ensures
            avg == spec_avg(self.history@, dt_ms),
            valid_speed(avg),
    {
        let ghost h = self.history@;
        let mut sum_vx: i64 = 0;
        let mut sum_vy: i64 = 0;
        let mut sum_vz: i64 = 0;
        let mut sum_h: i64 = 0;
        let mut sum_mag: i64 = 0;
        let mut i: usize = 0;
        while i < self.history.len()
            invariant
                self.wf(),
                h == self.history@,
                0 <= i <= h.len(),
                sum_vx == sum_by(h.take(i as int), sel_vx()),
                sum_vy == sum_by(h.take(i as int), sel_vy()),
                sum_vz == sum_by(h.take(i as int), sel_vz()),
                sum_h == sum_by(h.take(i as int), sel_h()),
                sum_mag == sum_by(h.take(i as int), sel_mag()),
                -(i as int) * V_MAX_MU <= sum_vx <= (i as int) * V_MAX_MU,
                -(i as int) * V_MAX_MU <= sum_vy <= (i as int) * V_MAX_MU,
                -(i as int) * V_MAX_MU <= sum_vz <= (i as int) * V_MAX_MU,
                0 <= sum_h <= (i as int) * H_MAX_MU,
                0 <= sum_mag <= (i as int) * M_MAX_MU,
            decreases self.history.len() - i,
        {
            let (_, sp) = self.history[i];
            proof {
                lemma_sum_take(h, sel_vx(), i as int);
                lemma_sum_take(h, sel_vy(), i as int);
                lemma_sum_take(h, sel_vz(), i as int);
                lemma_sum_take(h, sel_h(), i as int);
                lemma_sum_take(h, sel_mag(), i as int);
                assert(valid_speed(h[i as int].1));
                assert((i as int) * V_MAX_MU + V_MAX_MU == (i as int + 1) * V_MAX_MU)
                    by (nonlinear_arith);
                assert((i as int) * H_MAX_MU + H_MAX_MU == (i as int + 1) * H_MAX_MU)
                    by (nonlinear_arith);
                assert((i as int) * M_MAX_MU + M_MAX_MU == (i as int + 1) * M_MAX_MU)
                    by (nonlinear_arith);
                assert((i as int + 1) * V_MAX_MU <= 301 * 1_181_100_000) by (nonlinear_arith)
                    requires
                        0 <= i as int + 1 <= 301,
                ;
                assert((i as int + 1) * H_MAX_MU <= 301 * 1_700_000_000) by (nonlinear_arith)
                    requires
                        0 <= i as int + 1 <= 301,
                ;
                assert((i as int + 1) * M_MAX_MU <= 301 * 2_100_000_000) by (nonlinear_arith)
                    requires
                        0 <= i as int + 1 <= 301,
                ;
            }
            sum_vx = sum_vx + sp.vx;
            sum_vy = sum_vy + sp.vy;
            sum_vz = sum_vz + sp.vz;
            sum_h = sum_h + sp.horizontal;
            sum_mag = sum_mag + sp.magnitude;
            i = i + 1;
        }
        proof {
            assert(h.take(h.len() as int) =~= h);
        }
        let n: i64 = if self.history.len() == 0 {
            1
        } else {
            self.history.len() as i64
        };
        proof {
            assert(-(n as int) * V_MAX_MU <= sum_vx <= (n as int) * V_MAX_MU
                && -(n as int) * V_MAX_MU <= sum_vy <= (n as int) * V_MAX_MU
                && -(n as int) * V_MAX_MU <= sum_vz <= (n as int) * V_MAX_MU
                && 0 <= sum_h <= (n as int) * H_MAX_MU
                && 0 <= sum_mag <= (n as int) * M_MAX_MU) by (nonlinear_arith)
                requires
                    n as int == if h.len() == 0 { 1int } else { h.len() as int },
                    -(h.len() as int) * V_MAX_MU <= sum_vx <= (h.len() as int) * V_MAX_MU,
                    -(h.len() as int) * V_MAX_MU <= sum_vy <= (h.len() as int) * V_MAX_MU,
                    -(h.len() as int) * V_MAX_MU <= sum_vz <= (h.len() as int) * V_MAX_MU,
                    0 <= sum_h <= (h.len() as int) * H_MAX_MU,
                    0 <= sum_mag <= (h.len() as int) * M_MAX_MU,
                    V_MAX_MU > 0,
                    H_MAX_MU > 0,
                    M_MAX_MU > 0,
            ;
            lemma_div_trunc_scaled(sum_vx as int, n as int, V_MAX_MU as int);
            lemma_div_trunc_scaled(sum_vy as int, n as int, V_MAX_MU as int);
            lemma_div_trunc_scaled(sum_vz as int, n as int, V_MAX_MU as int);
            lemma_div_trunc_scaled(sum_h as int, n as int, H_MAX_MU as int);
            lemma_div_trunc_scaled(sum_mag as int, n as int, M_MAX_MU as int);
            lemma_div_trunc_bound(sum_h as int, n as int, (n as int) * (H_MAX_MU as int));
            lemma_div_trunc_bound(sum_mag as int, n as int, (n as int) * (M_MAX_MU as int));
        }
        Speed {
            vx: div_trunc_i64(sum_vx, n),
            vy: div_trunc_i64(sum_vy, n),
            vz: div_trunc_i64(sum_vz, n),
            horizontal: div_trunc_i64(sum_h, n),
            magnitude: div_trunc_i64(sum_mag, n),
            dt_ms: dt_ms,
        }
    }

    /// Vertical-velocity slope over the window endpoints.
    fn vz_trend_exec(&self) -> (r: i64)
        requires
            self.wf(),
        ensures
            r == spec_vz_trend(self.history@),
    {
        if self.history.len() < 2 {
            return 0;
        }
        let (t0, s0) = self.history[0];
        let (t1, s1) = self.history[self.history.len() - 1];
        proof {
            if self.history@.len() >= 2 {
                assert(self.history@[0].0 < self.history@[self.history@.len() - 1].0);
            }
        }
        proof {
            assert(self.history@.last() == self.history@[self.history@.len() - 1]);
            assert(t1 - t0 <= WINDOW_MS);
        }
        let dt: u64 = if t1 - t0 >= 1 {
            t1 - t0
        } else {
            1
        };
        proof {
            lemma_div_trunc_bound(
                ((s1.vz - s0.vz) * 1000) as int,
                dt as int,
                3_000_000_000_000int,
            );
        }
        div_trunc_i64((s1.vz - s0.vz) * 1000, dt as i64)
    }

    /// The instant labels of the newest `VOTE_TAIL` window entries and the
    /// plurality among them, ties resolved first-seen-wins.
    pub fn majority_vote(&self, facing_xy: Option<FacingXY>) -> (r: Movement)
        requires
            self.wf(),
            facing_xy matches Some(f) ==> valid_facing(f),
        ensures
            r == spec_vote(tail_labels(self.history@, facing_xy, VOTE_TAIL as int)),
    {
        let ghost h = self.history@;
        let ghost lab = tail_labels(h, facing_xy, VOTE_TAIL as int);
        let k: usize = if self.history.len() < VOTE_TAIL {
            self.history.len()
        } else {
            VOTE_TAIL
        };
        let mut labels: Vec<Movement> = Vec::new();
        let mut i: usize = 0;
        while i < k
            invariant
                self.wf(),
                h == self.history@,
                lab == tail_labels(h, facing_xy, VOTE_TAIL as int),
                k == if h.len() < VOTE_TAIL { h.len() } else { VOTE_TAIL as nat },
                facing_xy matches Some(f) ==> valid_facing(f),
                0 <= i <= k,
                labels@.len() == i,
                forall|j: int| 0 <= j < i ==> labels@[j] == lab[j],
            decreases k - i,
        {
            let (_, sp) = self.history[self.history.len() - 1 - i];
            let m = classify(&sp, facing_xy);
            labels.push(m);
            i = i + 1;
        }
        proof {
            assert(labels@ =~= lab);
        }

        let mut best = Movement::Other;
        let mut bestc: usize = 0;
        let mut i2: usize = 0;
        while i2 < labels.len()
            invariant
                labels@ == lab,
                0 <= i2 <= lab.len(),
                bestc <= lab.len(),
                best_from(lab, i2 as int, best, bestc as int) == best_from(
                    lab,
                    0,
                    Movement::Other,
                    0,
                ),
            decreases labels.len() - i2,
        {
            let c = Self::count_label(&labels, labels[i2]);
            if c > bestc {
                best = labels[i2];
                bestc = c;
            }
            i2 = i2 + 1;
        }
        best
    }

    /// Count the occurrences of `m` in `labels`.
    fn count_label(labels: &Vec<Movement>, m: Movement) -> (c: usize)
        ensures
            c == count_in(labels@, m),
            c <= labels@.len(),
    {
        let ghost l = labels@;
        let mut c: usize = 0;
        let mut j: usize = 0;
        while j < labels.len()
            invariant
                l == labels@,
                0 <= j <= l.len(),
                c == count_in(l.take(j as int), m),
                c <= j,
            decreases labels.len() - j,
        {
            proof {
                assert(l.take(j as int + 1).drop_last() =~= l.take(j as int));
                assert(l.take(j as int + 1).last() == l[j as int]);
            }
            if labels[j] == m {
                c = c + 1;
            }
            j = j + 1;
        }
        proof {
            assert(l.take(l.len() as int) =~= l);
        }
        c
    }

    /// How long the newest window entries have classified as `prop`,
    /// walking back from `now`.
    fn tail_run_exec(&self, prop: Movement, facing_xy: Option<FacingXY>, now: u64) -> (r: u64)
        requires
            self.wf(),
            facing_xy matches Some(f) ==> valid_facing(f),
            self.history@.len() > 0 ==> self.history@.last().0 <= now,
        ensures
            r == tail_run_ms(self.history@, prop, facing_xy, now as int),
    {
        let ghost h = self.history@;
        proof {
            assert(h.take(h.len() as int) =~= h);
        }
        let mut j: usize = self.history.len();
        let mut last_t: u64 = now;
        let mut acc: u64 = 0;
        while j > 0
            invariant
                self.wf(),
                h == self.history@,
                facing_xy matches Some(f) ==> valid_facing(f),
                0 <= j <= h.len(),
                j > 0 ==> h[j as int - 1].0 <= last_t,
                last_t <= now,
                acc == now - last_t,
                tail_run_ms(h, prop, facing_xy, now as int) == acc + tail_run_ms(
                    h.take(j as int),
                    prop,
                    facing_xy,
                    last_t as int,
                ),
            decreases j,
        {
            let (t, sp) = self.history[j - 1];
            proof {
                assert(h.take(j as int).drop_last() =~= h.take(j as int - 1));
                assert(h.take(j as int).last() == h[j as int - 1]);
                if j as int - 1 > 0 {
                    assert(h[j as int - 2].0 < h[j as int - 1].0);
                }
            }
            let m = classify(&sp, facing_xy);
            if m == prop {
                acc = acc + (last_t - t);
                last_t = t;
                j = j - 1;
            } else {
                proof {
                    assert(tail_run_ms(h.take(j as int), prop, facing_xy, last_t as int) == 0);
                }
                return acc;
            }
        }
        proof {
            assert(h.take(0) =~= Seq::<(u64, Speed)>::empty());
        }
        acc
    }
}

/// The window after an update is never empty and ends with the entry that
/// was just pushed.
pub proof fn lemma_update_window_ends_now(
    h0: Seq<(u64, Speed)>,
    state0: Movement,
    switch0: u64,
    lock0: u64,
    now: u64,
    s: Speed,
    facing: Option<FacingXY>,
)
    ensures
        spec_update(h0, state0, switch0, lock0, now, s, facing).0.len() > 0,
        spec_update(h0, state0, switch0, lock0, now, s, facing).0.last() == (now, s),
{
    lemma_evict_keeps_last(h0.push((now, s)), now);
}

/// Eviction keeps the newest entry: the entry stamped `now` has age zero.
proof fn lemma_evict_keeps_last(h: Seq<(u64, Speed)>, now: u64)
    requires
        h.len() > 0,
        h.last().0 == now,
    ensures
        evict(h, now).len() > 0,
        evict(h, now).last() == h.last(),
    decreases h.len(),
{
    if h.len() > 0 && now - h[0].0 > WINDOW_MS {
        assert(h.drop_first().last() == h.last());
        lemma_evict_keeps_last(h.drop_first(), now);
    }
}

} // verus!
