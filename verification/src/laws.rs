//! The pipeline's guarantees, stated and proved over the published models:
//! idempotence of the estimator under repeated samples, smoothing bounds and
//! convergence, teleport rejection, idle classification, glide-lock
//! stability, the airborne fast path, and the hysteresis dwell gates.

use vstd::prelude::*;

use crate::classify::{
    is_airborne_label, is_glide, spec_classify, spec_snap_glide, FacingXY, Movement, IDLE_H_MAX,
    IDLE_VZ_MAX,
};
use crate::math::{
    abs_int, div_trunc, lemma_div_trunc_between, lemma_div_trunc_close, lemma_sqrt_floor_is_sqrt,
    max_int, sqrt_floor,
};
use crate::speed::{
    remap_pos, reset_to, smooth_mu, snap_small, spec_step, Speed, SpeedCalculator, EPS_MU,
    MAX_DT_MS, MAX_STEP_SQ_MM,
};
use crate::temporal::{
    evict, spec_avg, spec_commit, spec_lock_after, spec_proposal, spec_update, tail_run_ms,
    MIN_DWELL_IN_MS, MIN_DWELL_OUT_MS,
};

verus! {

// ---------- Estimator laws ----------

/// Idempotence under identical input: when the estimator's stored reference
/// already equals the sample being fed (zero time delta), the step yields no
/// speed and leaves the estimator exactly as it was. Feeding the same
/// `(position, now)` twice in a row therefore never changes state after the
/// first call.
pub proof fn lemma_repeat_sample_inert(st: SpeedCalculator, pos_xzy: [i64; 3], now: u64)
    requires
        st.prev_pos == Some(remap_pos(pos_xzy)),
        st.prev_t == Some(now),
    ensures
        spec_step(st, pos_xzy, now).1 is None,
        spec_step(st, pos_xzy, now).0 == st,
{
    assert(spec_step(st, pos_xzy, now).0 == reset_to(st, remap_pos(pos_xzy), now));
}

/// Teleport rejection: a displacement beyond the step ceiling in one
/// accepted interval yields no speed, yet the reference still moves to the
/// teleported position — so the following sample, taken from there within an
/// accepted interval, is measured normally and yields a speed.
pub proof fn lemma_teleport_rejected(
    st: SpeedCalculator,
    pos_xzy: [i64; 3],
    now: u64,
    now2: u64,
)
    requires
        st.prev_pos is Some,
        st.prev_t matches Some(pt) && pt < now && now - pt <= MAX_DT_MS,
        ({
            let p = remap_pos(pos_xzy);
            let pp = st.prev_pos->0;
            (p.x - pp.x) * (p.x - pp.x) + (p.y - pp.y) * (p.y - pp.y) + (p.z - pp.z) * (p.z
                - pp.z) > MAX_STEP_SQ_MM
        }),
        now < now2 <= now + MAX_DT_MS,
    ensures
        spec_step(st, pos_xzy, now).1 is None,
        spec_step(st, pos_xzy, now).0.prev_pos == Some(remap_pos(pos_xzy)),
        spec_step(spec_step(st, pos_xzy, now).0, pos_xzy, now2).1 is Some,
{
    let st2 = spec_step(st, pos_xzy, now).0;
    let p = remap_pos(pos_xzy);
    assert(st2 == reset_to(st, p, now));
    assert((p.x - p.x) * (p.x - p.x) + (p.y - p.y) * (p.y - p.y) + (p.z - p.z) * (p.z - p.z)
        == 0);
}

/// Monotonic smoothing bound, part one: one smoothing step never overshoots —
/// the result stays between the retained value and the raw value.
pub proof fn lemma_smooth_no_overshoot(prev: int, raw: int)
    ensures
        smooth_mu(prev, raw) >= prev || smooth_mu(prev, raw) >= raw,
        smooth_mu(prev, raw) <= prev || smooth_mu(prev, raw) <= raw,
        prev <= raw ==> prev <= smooth_mu(prev, raw) <= raw,
        raw <= prev ==> raw <= smooth_mu(prev, raw) <= prev,
{
    if prev <= raw {
        assert(100 * prev <= 65 * prev + 35 * raw <= 100 * raw);
        lemma_div_trunc_between(65 * prev + 35 * raw, 100, prev, raw);
    } else {
        assert(100 * raw <= 65 * prev + 35 * raw <= 100 * prev);
        lemma_div_trunc_between(65 * prev + 35 * raw, 100, raw, prev);
    }
}

/// Monotonic smoothing bound, part two: each step contracts the distance to
/// the raw value to 13/20 of the old distance, up to one unit of truncation.
pub proof fn lemma_smooth_contracts(prev: int, raw: int)
    ensures
        20 * abs_int(smooth_mu(prev, raw) - raw) <= 13 * abs_int(prev - raw) + 20,
{
    let a = 65 * prev + 35 * raw;
    lemma_div_trunc_close(a, 100);
    let s = smooth_mu(prev, raw);
    assert(abs_int(100 * s - a) < 100);
    assert(100 * s - 100 * raw == (100 * s - a) + 65 * (prev - raw));
    assert(abs_int(100 * (s - raw)) <= 65 * abs_int(prev - raw) + 99);
    assert(100 * (s - raw) == 100 * s - 100 * raw);
    assert(20 * abs_int(s - raw) * 5 == 100 * abs_int(s - raw)) by (nonlinear_arith);
    assert(100 * abs_int(s - raw) == abs_int(100 * (s - raw))) by (nonlinear_arith);
    assert(5 * (13 * abs_int(prev - raw) + 20) == 65 * abs_int(prev - raw) + 100);
    assert(20 * abs_int(s - raw) * 5 <= (13 * abs_int(prev - raw) + 20) * 5 ==> 20 * abs_int(
        s - raw,
    ) <= 13 * abs_int(prev - raw) + 20) by (nonlinear_arith);
    assert((13 * abs_int(prev - raw) + 20) * 5 == 5 * (13 * abs_int(prev - raw) + 20))
        by (nonlinear_arith);
}

/// The smoothed value after `n` identical raw samples.
pub open spec fn smooth_iter(v0: int, raw: int, n: nat) -> int
    decreases n,
{
    if n == 0 {
        v0
    } else {
        smooth_mu(smooth_iter(v0, raw, (n - 1) as nat), raw)
    }
}

/// Convergence: under a constant raw value the smoothed value loses at least
/// one unit of error per step until it enters (and then never leaves) a
/// three-unit neighbourhood of the raw value.
pub proof fn lemma_smoothing_error_shrinks(v0: int, raw: int, n: nat)
    ensures
        abs_int(smooth_iter(v0, raw, n) - raw) <= max_int(3, abs_int(v0 - raw) - n),
    decreases n,
{
    if n > 0 {
        lemma_smoothing_error_shrinks(v0, raw, (n - 1) as nat);
        let prev = smooth_iter(v0, raw, (n - 1) as nat);
        lemma_smooth_contracts(prev, raw);
        let e_prev = abs_int(prev - raw);
        let e = abs_int(smooth_iter(v0, raw, n) - raw);
        if e_prev <= 3 {
            assert(20 * e <= 13 * 3 + 20);
        } else {
            assert(20 * e <= 13 * e_prev + 20);
            assert(13 * e_prev + 20 <= 20 * e_prev - 20 ==> e <= e_prev - 1);
        }
    }
}

/// Convergence, headline form: after at least `|v0 - raw|` identical raw
/// samples the smoothed value sits within three milli-units of the raw
/// value — in particular, below the snap epsilon when the raw value is zero.
pub proof fn lemma_smoothing_converges(v0: int, raw: int, n: nat)
    requires
        n >= abs_int(v0 - raw),
    ensures
        abs_int(smooth_iter(v0, raw, n) - raw) <= 3,
        raw == 0 ==> snap_small(smooth_iter(v0, raw, n)) == 0,
{
    lemma_smoothing_error_shrinks(v0, raw, n);
    assert(3 < EPS_MU);
}

/// Idle detection, estimator part: a stationary sample (same position as
/// the stored reference) over an accepted interval decays each smoothed
/// component by exactly one zero-target smoothing step — so by the
/// convergence law above, a stationary sequence drives the reported speed to
/// exactly zero, which the instant classifier calls `Idle` under any facing.
pub proof fn lemma_stationary_sample_decays(st: SpeedCalculator, pos_xzy: [i64; 3], now: u64)
    requires
        st.prev_pos == Some(remap_pos(pos_xzy)),
        st.prev_t matches Some(pt) && pt < now && now - pt <= MAX_DT_MS,
    ensures
        spec_step(st, pos_xzy, now).0.v_smooth_x == smooth_mu(st.v_smooth_x as int, 0),
        spec_step(st, pos_xzy, now).0.v_smooth_y == smooth_mu(st.v_smooth_y as int, 0),
        spec_step(st, pos_xzy, now).0.v_smooth_z == smooth_mu(st.v_smooth_z as int, 0),
        spec_step(st, pos_xzy, now).1 is Some,
        (abs_int(smooth_mu(st.v_smooth_x as int, 0)) < EPS_MU && abs_int(
            smooth_mu(st.v_smooth_y as int, 0),
        ) < EPS_MU && abs_int(smooth_mu(st.v_smooth_z as int, 0)) < EPS_MU) ==> forall|
            facing: Option<FacingXY>,
        |
            spec_classify(spec_step(st, pos_xzy, now).1->0, facing) == Movement::Idle,
{
    let p = remap_pos(pos_xzy);
    let pt = st.prev_t->0;
    let dt = now - pt;
    assert((p.x - p.x) * (p.x - p.x) + (p.y - p.y) * (p.y - p.y) + (p.z - p.z) * (p.z - p.z)
        == 0);
    assert(div_trunc(0, dt as int) == 0) by {
        assert(0int / (dt as int) == 0) by (nonlinear_arith)
            requires
                dt >= 1,
        ;
    }
    assert(smooth_mu(st.v_smooth_x as int, div_trunc(0, dt as int)) == smooth_mu(
        st.v_smooth_x as int,
        0,
    ));
    let sx = smooth_mu(st.v_smooth_x as int, 0);
    let sy = smooth_mu(st.v_smooth_y as int, 0);
    let sz = smooth_mu(st.v_smooth_z as int, 0);
    if abs_int(sx) < EPS_MU && abs_int(sy) < EPS_MU && abs_int(sz) < EPS_MU {
        let out = spec_step(st, pos_xzy, now).1->0;
        assert(out.vx == 0 && out.vy == 0 && out.vz == 0);
        assert(-9 <= sx <= 9 && -9 <= sy <= 9);
        assert(0 <= sx * sx <= 81 && 0 <= sy * sy <= 81) by (nonlinear_arith)
            requires
                -9 <= sx <= 9,
                -9 <= sy <= 9,
        ;
        let n = sx * sx + sy * sy;
        lemma_sqrt_floor_is_sqrt(n);
        let h = sqrt_floor(n);
        assert(h <= 12) by (nonlinear_arith)
            requires
                0 <= h,
                h * h <= 162,
        ;
        assert(out.horizontal == h as i64);
        assert forall|facing: Option<FacingXY>| spec_classify(out, facing) == Movement::Idle by {
            assert(out.horizontal < IDLE_H_MAX && abs_int(out.vz as int) < IDLE_VZ_MAX);
        }
    }
}

// ---------- Instant-classifier laws ----------

/// Idle detection, instant part: any snapshot whose horizontal and vertical
/// speeds sit below the idle ceilings classifies as `Idle`, whatever the
/// facing.
pub proof fn lemma_slow_sample_is_idle(s: Speed, facing: Option<FacingXY>)
    requires
        s.horizontal < IDLE_H_MAX,
        abs_int(s.vz as int) < IDLE_VZ_MAX,
    ensures
        spec_classify(s, facing) == Movement::Idle,
{
}

/// The glide snap always lands in the glide family.
pub proof fn lemma_snap_is_glide(h: int)
    ensures
        is_glide(spec_snap_glide(h)),
{
}

// ---------- Temporal laws ----------

/// Glide stability: while the glide lock is active after an update, a
/// classifier that was in a glide state stays in a glide state — the
/// proposal is pinned to a glide band, so facing jitter can never drop the
/// stable label to `Other` or a ground label.
pub proof fn lemma_glide_lock_keeps_gliding(
    h0: Seq<(u64, Speed)>,
    state0: Movement,
    switch0: u64,
    lock0: u64,
    now: u64,
    s: Speed,
    facing: Option<FacingXY>,
)
    requires
        is_glide(state0),
        now < spec_update(h0, state0, switch0, lock0, now, s, facing).3,
    ensures
        is_glide(spec_update(h0, state0, switch0, lock0, now, s, facing).1),
{
    let h = evict(h0.push((now, s)), now);
    let lock1 = spec_lock_after(h, lock0, now, s.dt_ms);
    let prop = spec_proposal(h, state0, lock1, now, s.dt_ms, facing);
    lemma_snap_is_glide(spec_avg_h(h, s.dt_ms));
    assert(is_glide(prop));
    assert(is_airborne_label(state0) && is_airborne_label(prop) && prop != Movement::Other);
}

/// Helper naming the horizontal component the proposal snaps on.
pub open spec fn spec_avg_h(h: Seq<(u64, Speed)>, dt_ms: u64) -> int {
    spec_avg(h, dt_ms).horizontal as int
}

/// Airborne fast path: a switch between two airborne labels (other than to
/// `Other`) commits immediately, with no dwell requirement.
pub proof fn lemma_airborne_fast_path(
    state0: Movement,
    switch0: u64,
    h: Seq<(u64, Speed)>,
    now: u64,
    prop: Movement,
    facing: Option<FacingXY>,
)
    requires
        prop != state0,
        is_airborne_label(state0),
        is_airborne_label(prop),
        prop != Movement::Other,
    ensures
        spec_commit(state0, switch0, h, now, prop, facing) == (prop, now),
{
}

/// Hysteresis dwell enforcement, blocking half: a family-crossing proposal
/// whose evidence is shorter than the dwell-in minimum, or which arrives
/// before the dwell-out minimum has elapsed since the last switch, does not
/// change the stable state. A single one-off sample amid a steady window can
/// therefore never flip the state.
pub proof fn lemma_family_crossing_needs_dwell(
    state0: Movement,
    switch0: u64,
    h: Seq<(u64, Speed)>,
    now: u64,
    prop: Movement,
    facing: Option<FacingXY>,
)
    requires
        prop != state0,
        !(is_airborne_label(state0) && is_airborne_label(prop) && prop != Movement::Other),
        tail_run_ms(h, prop, facing, now as int) < MIN_DWELL_IN_MS || (now >= switch0 && now
            - switch0 < MIN_DWELL_OUT_MS),
    ensures
        spec_commit(state0, switch0, h, now, prop, facing) == (state0, switch0),
{
}

/// Hysteresis dwell enforcement, committing half: once the proposal has held
/// for the dwell-in minimum and the dwell-out minimum has elapsed, the
/// family-crossing switch commits and the switch time resets.
pub proof fn lemma_family_crossing_commits(
    state0: Movement,
    switch0: u64,
    h: Seq<(u64, Speed)>,
    now: u64,
    prop: Movement,
    facing: Option<FacingXY>,
)
    requires
        prop != state0,
        tail_run_ms(h, prop, facing, now as int) >= MIN_DWELL_IN_MS,
        now >= switch0,
        now - switch0 >= MIN_DWELL_OUT_MS,
    ensures
        spec_commit(state0, switch0, h, now, prop, facing) == (prop, now),
{
}

/// An update whose proposal equals the stable state changes nothing but the
/// window and the lock.
pub proof fn lemma_agreeing_proposal_keeps_state(
    state0: Movement,
    switch0: u64,
    h: Seq<(u64, Speed)>,
    now: u64,
    facing: Option<FacingXY>,
)
    ensures
        spec_commit(state0, switch0, h, now, state0, facing) == (state0, switch0),
{
}

} // verus!
