//! End-to-end and scenario tests of the motion classification pipeline.

use gw2pad::classify::{classify, facing_xy_from_front, snap_glide, FacingXY, Movement};
use gw2pad::math::{abs_i64, div_trunc_i64, isqrt};
use gw2pad::runtime::{AirClassifier, MotionSample, MotionSource};
use gw2pad::speed::{Speed, SpeedCalculator};
use gw2pad::temporal::TemporalClassifier;

fn speed(vx: i64, vy: i64, vz: i64, dt_ms: u64) -> Speed {
    let h = isqrt((vx * vx + vy * vy) as u64) as i64;
    let mag = isqrt((h * h + vz * vz) as u64) as i64;
    Speed {
        vx,
        vy,
        vz,
        horizontal: h,
        magnitude: mag,
        dt_ms,
    }
}

const EAST: FacingXY = FacingXY { x: 1000, y: 0 };

#[test]
fn isqrt_exact_values() {
    assert_eq!(isqrt(0), 0);
    assert_eq!(isqrt(1), 1);
    assert_eq!(isqrt(3), 1);
    assert_eq!(isqrt(4), 2);
    assert_eq!(isqrt(999999), 999);
    assert_eq!(isqrt(1_000_000), 1000);
    assert_eq!(isqrt(u64::MAX), 4294967295);
}

#[test]
fn div_trunc_rounds_toward_zero() {
    assert_eq!(div_trunc_i64(7, 2), 3);
    assert_eq!(div_trunc_i64(-7, 2), -3);
    assert_eq!(div_trunc_i64(-1, 100), 0);
    assert_eq!(div_trunc_i64(0, 5), 0);
    assert_eq!(abs_i64(-9), 9);
}

#[test]
fn estimator_first_sample_yields_nothing() {
    let mut calc = SpeedCalculator::new();
    assert!(calc.step([1000, 2000, 3000], 100).is_none());
}

#[test]
fn estimator_same_sample_twice_is_inert() {
    // Idempotence under identical input: zero time delta yields None and
    // leaves the estimator state unchanged.
    let mut calc = SpeedCalculator::new();
    let pos = [5000, 6000, 7000];
    assert!(calc.step(pos, 1000).is_none());
    assert!(calc.step(pos, 1000).is_none());
    assert!(calc.step(pos, 1000).is_none());
    // The reference survives intact: a normal follow-up still measures from
    // the stored sample.
    let out = calc.step([5000 + 299, 6000, 7000], 1040);
    let s = out.expect("a clean 40 ms interval must yield a speed");
    // raw = 299 mm * 39_370 / 40 ms = 294_290; smoothed = 35% of that.
    assert_eq!(s.vx, 103_001);
    assert_eq!(s.vy, 0);
    assert_eq!(s.vz, 0);
}

#[test]
fn estimator_rejects_degenerate_intervals() {
    let mut calc = SpeedCalculator::new();
    assert!(calc.step([0, 0, 0], 1000).is_none());
    // 600 ms is beyond the accepted interval.
    assert!(calc.step([100, 0, 0], 1600).is_none());
    // Clock going backwards is absorbed too.
    assert!(calc.step([200, 0, 0], 1500).is_none());
}

#[test]
fn teleport_rejected_but_reference_moves() {
    // A 50 m jump in one 40 ms tick yields None...
    let mut calc = SpeedCalculator::new();
    assert!(calc.step([0, 0, 0], 0).is_none());
    assert!(calc.step([50_000_000, 0, 0], 40).is_none());
    // ...and the next sample, measured from the teleported position, is not
    // itself flagged.
    let s = calc.step([50_000_299, 0, 0], 80);
    assert!(s.is_some());
}

#[test]
fn smoothing_converges_without_overshoot() {
    // Constant velocity of 294_290 milli-units/s sustained over many samples.
    let mut calc = SpeedCalculator::new();
    let mut pos: i64 = 0;
    let mut t: u64 = 0;
    assert!(calc.step([pos, 0, 0], t).is_none());
    let mut prev_vx: i64 = 0;
    let mut last_vx: i64 = 0;
    for _ in 0..60 {
        pos += 299;
        t += 40;
        let s = calc.step([pos, 0, 0], t).expect("clean interval");
        // Never overshoots the raw instantaneous value, and climbs
        // monotonically toward it.
        assert!(s.vx >= prev_vx);
        assert!(s.vx <= 294_290);
        prev_vx = s.vx;
        last_vx = s.vx;
    }
    // Converged to within a few milli-units of the true velocity.
    assert!((294_290 - last_vx).abs() <= 3);
}

#[test]
fn instant_classifier_bands() {
    // Idle: both speeds under the idle ceilings.
    assert_eq!(classify(&speed(5_000, 0, -1_000, 40), None), Movement::Idle);
    // Walk: 3-d magnitude at the walking reference.
    assert_eq!(classify(&speed(80_000, 0, 0, 40), None), Movement::Walk);
    // Run forward out of combat: horizontal at 294 units/s.
    assert_eq!(
        classify(&speed(294_000, 0, 0, 40), Some(EAST)),
        Movement::RunForward
    );
    // Run forward in combat: 210 units/s.
    assert_eq!(
        classify(&speed(210_000, 0, 0, 40), Some(EAST)),
        Movement::RunForward
    );
    // Strafe: sideways velocity against the facing.
    assert_eq!(
        classify(&speed(0, 180_000, 0, 40), Some(EAST)),
        Movement::Strafe
    );
    // Backpedal: moving against the facing at the backpedal band.
    assert_eq!(
        classify(&speed(-105_000, 0, 0, 40), Some(EAST)),
        Movement::Backpedal
    );
    // Glide bands: moderate descent with the three reference speeds.
    assert_eq!(
        classify(&speed(80_000, 0, -100_000, 40), None),
        Movement::GlideBack
    );
    assert_eq!(
        classify(&speed(294_000, 0, -100_000, 40), None),
        Movement::GlideNeutral
    );
    assert_eq!(
        classify(&speed(390_000, 0, -100_000, 40), None),
        Movement::GlideForward
    );
    // Falling: steep descent dominating the horizontal.
    assert_eq!(
        classify(&speed(10_000, 0, -400_000, 40), None),
        Movement::Falling
    );
    // Terminal velocity.
    assert_eq!(
        classify(&speed(10_000, 0, -950_000, 40), None),
        Movement::FallingTerminal
    );
    // Unclassifiable: fast ascent.
    assert_eq!(
        classify(&speed(10_000, 0, 500_000, 40), None),
        Movement::Other
    );
}

#[test]
fn snap_glide_prefers_nearest_band() {
    assert_eq!(snap_glide(80_000), Movement::GlideBack);
    assert_eq!(snap_glide(294_000), Movement::GlideNeutral);
    assert_eq!(snap_glide(390_000), Movement::GlideForward);
    // Exactly between back (80) and neutral (294): the tie goes to the
    // first-listed band.
    assert_eq!(snap_glide(187_000), Movement::GlideBack);
    assert_eq!(snap_glide(187_001), Movement::GlideNeutral);
}

#[test]
fn facing_normalizes_to_milli_scale() {
    // A long east-pointing front vector normalizes to unit scale.
    let f = facing_xy_from_front([500_000, 0, 0]);
    assert_eq!(f, FacingXY { x: 1000, y: 0 });
    // Degenerate front defaults to straight ahead.
    let g = facing_xy_from_front([0, 777, 0]);
    assert_eq!(g, FacingXY { x: 0, y: 1000 });
    // A diagonal keeps both components under the unit scale.
    let d = facing_xy_from_front([3000, 0, 4000]);
    assert_eq!(d, FacingXY { x: 600, y: 800 });
}

#[test]
fn temporal_run_forward_converges_and_stays() {
    // Five samples, 40 ms apart, horizontal 294 units/s aligned with the
    // facing: the instant classifier says RunForward for each, and the
    // temporal classifier commits once both dwell minima are met.
    let mut tc = TemporalClassifier::new(0);
    let s = speed(294_000, 0, 0, 40);
    assert_eq!(classify(&s, Some(EAST)), Movement::RunForward);
    let mut committed_at: Option<u64> = None;
    for k in 1..=5u64 {
        let t = 40 * k;
        let st = tc.update(t, s, Some(EAST));
        if st == Movement::RunForward && committed_at.is_none() {
            committed_at = Some(t);
        }
        if committed_at.is_some() {
            assert_eq!(st, Movement::RunForward);
        }
    }
    // Committed on the dwell boundary and stayed there.
    assert_eq!(committed_at, Some(160));
}

#[test]
fn idle_detected_after_stopping() {
    // A stationary sequence of samples converges back to Idle within the
    // dwell window.
    let mut calc = SpeedCalculator::new();
    let mut tc = TemporalClassifier::new(0);
    let mut t: u64 = 0;
    let mut pos: i64 = 0;
    assert!(calc.step([pos, 0, 0], t).is_none());
    // Walk for a while.
    for _ in 0..20 {
        pos += 81;
        t += 40;
        let s = calc.step([pos, 0, 0], t).unwrap();
        tc.update(t, s, None);
    }
    // Stop: identical position, increasing timestamps.
    let mut idle_seen = false;
    for _ in 0..30 {
        t += 40;
        let s = calc.step([pos, 0, 0], t).unwrap();
        if tc.update(t, s, None) == Movement::Idle {
            idle_seen = true;
            break;
        }
    }
    assert!(idle_seen, "the classifier must settle back to Idle");
}

#[test]
fn glide_survives_facing_jitter() {
    // (The glide lock stays armed because every averaged sample keeps the
    // vertical speed inside the widened glidey band.)
    // Descending at vz of about -100 units/s with a constant 294 units/s
    // horizontal, but with the facing flipping wildly every sample: the
    // glide lock must hold the classification in GlideNeutral throughout.
    let mut tc = TemporalClassifier::new(0);
    let calm = speed(294_000, 0, -100_000, 40);
    let mut t: u64 = 0;
    // Establish the glide.
    for _ in 0..10 {
        t += 40;
        tc.update(t, calm, Some(EAST));
    }
    assert_eq!(tc.state, Movement::GlideNeutral);
    // Now jitter the facing; the velocity direction also swings, so the
    // instant classifier would wobble without the lock.
    let facings = [
        FacingXY { x: 1000, y: 0 },
        FacingXY { x: -707, y: 707 },
        FacingXY { x: 0, y: -1000 },
        FacingXY { x: 707, y: 707 },
        FacingXY { x: -1000, y: 0 },
    ];
    let swings = [
        (294_000i64, 0i64),
        (0, 294_000),
        (-207_889, 207_889),
        (0, -294_000),
        (207_889, 207_889),
    ];
    for k in 0..25usize {
        t += 40;
        let (vx, vy) = swings[k % swings.len()];
        let s = speed(vx, vy, -100_000, 40);
        let st = tc.update(t, s, Some(facings[k % facings.len()]));
        assert_eq!(st, Movement::GlideNeutral, "jitter step {k}");
    }
}

#[test]
fn single_blip_does_not_flip_state() {
    // Hysteresis dwell enforcement: one Falling sample amid steady walking
    // never flips the stable state.
    let mut tc = TemporalClassifier::new(0);
    let walk = speed(80_000, 0, 0, 40);
    let fall = speed(10_000, 0, -800_000, 40);
    let mut t: u64 = 0;
    for _ in 0..10 {
        t += 40;
        tc.update(t, walk, None);
    }
    assert_eq!(tc.state, Movement::Walk);
    t += 40;
    let st = tc.update(t, fall, None);
    assert_eq!(st, Movement::Walk, "a one-off sample must not flip the state");
    t += 40;
    assert_eq!(tc.update(t, walk, None), Movement::Walk);
}

#[test]
fn sustained_falling_flips_state() {
    // The committing half: sustained Falling evidence flips Walk to the
    // falling family once both dwell minima elapse.
    let mut tc = TemporalClassifier::new(0);
    let walk = speed(80_000, 0, 0, 40);
    let fall = speed(10_000, 0, -800_000, 40);
    let mut t: u64 = 0;
    for _ in 0..10 {
        t += 40;
        tc.update(t, walk, None);
    }
    assert_eq!(tc.state, Movement::Walk);
    let mut flipped = false;
    for _ in 0..12 {
        t += 40;
        let st = tc.update(t, fall, None);
        if st == Movement::Falling || st == Movement::FallingTerminal {
            flipped = true;
            break;
        }
    }
    assert!(flipped, "sustained falling evidence must commit");
}

#[test]
fn steep_descent_commits_through_airborne_fast_path() {
    // From a glide, vz stepping from -10 to -850 units/s with the horizontal
    // collapsing: the acceleration gate proposes Falling and the airborne
    // fast path commits without any dwell.
    let mut tc = TemporalClassifier::new(0);
    let glide = speed(294_000, 0, -100_000, 40);
    let mut t: u64 = 0;
    for _ in 0..10 {
        t += 40;
        tc.update(t, glide, None);
    }
    assert_eq!(tc.state, Movement::GlideNeutral);
    let steps = [
        speed(200_000, 0, -10_000, 40),
        speed(100_000, 0, -400_000, 40),
        speed(20_000, 0, -850_000, 40),
    ];
    let mut t2 = t;
    let mut committed: Option<Movement> = None;
    for s in steps.iter() {
        t2 += 40;
        let st = tc.update(t2, *s, None);
        if st == Movement::Falling || st == Movement::FallingTerminal {
            committed = Some(st);
            break;
        }
    }
    assert!(
        committed.is_some(),
        "the fall must commit within the steep-descent burst"
    );
    // The instant classifier reports terminal velocity once |vz| crosses
    // 900 units/s.
    assert_eq!(
        classify(&speed(0, 0, -950_000, 40), None),
        Movement::FallingTerminal
    );
    assert_eq!(
        classify(&speed(0, 0, -850_000, 40), None),
        Movement::Falling
    );
}

#[test]
fn majority_vote_ties_break_first_seen() {
    // Two walk samples then two glide samples (newest first enumeration):
    // equal counts, so the first label seen from the newest end wins.
    let mut tc = TemporalClassifier::new(0);
    let walk = speed(80_000, 0, 0, 40);
    let glide = speed(294_000, 0, -100_000, 40);
    tc.update(40, walk, None);
    tc.update(80, walk, None);
    tc.update(120, glide, None);
    tc.update(160, glide, None);
    // Newest-first labels: Glide, Glide, Walk, Walk — glide leads.
    assert_eq!(tc.majority_vote(None), Movement::GlideNeutral);
}

struct FixedSource {
    sample: Option<MotionSample>,
}

impl MotionSource for FixedSource {
    fn read_motion(&self) -> Option<MotionSample> {
        self.sample
    }
}

#[test]
fn adapter_keeps_state_when_source_is_silent() {
    let mut air = AirClassifier::new(0);
    let silent = FixedSource { sample: None };
    assert_eq!(air.update_with(&silent, 40), Movement::Idle);
    assert_eq!(air.state(), Movement::Idle);
    assert!(!air.is_airborne());
    // Landed-recently is on right after construction (grace 250 ms)...
    assert!(air.landed_recently(200));
    // ...and off once the grace period has passed.
    assert!(!air.landed_recently(400));
}

#[test]
fn adapter_classifies_through_a_source() {
    let mut air = AirClassifier::new(0);
    let mut t: u64 = 0;
    let mut pos: i64 = 0;
    for _ in 0..12 {
        t += 40;
        pos += 299;
        let src = FixedSource {
            sample: Some(MotionSample {
                pos_xzy: [pos, 0, 0],
                front_xzy: [1_000, 0, 0],
                ui_tick: t as u32,
            }),
        };
        air.update_with(&src, t);
    }
    assert_eq!(air.state(), Movement::RunForward);
    assert!(!air.is_airborne());
}
