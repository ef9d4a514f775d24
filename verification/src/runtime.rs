//! Runtime adapter shim: wires the velocity estimator and the temporal
//! classifier behind a polling interface over an abstract motion source, and
//! derives the boolean predicates an external execution gate consumes.

use vstd::prelude::*;

use crate::classify::{
    is_airborne_exec, is_airborne_label, spec_facing_from_front, facing_xy_from_front, Movement,
    MAX_FRONT_COMPONENT,
};
use crate::speed::{lemma_step_freshness, spec_step, SpeedCalculator, MAX_COORD_MM};
use crate::temporal::{lemma_update_window_ends_now, spec_update, TemporalClassifier, MAX_TIME_MS};

verus! {

/// How long after landing the `landed_recently` predicate stays on.
pub const LANDING_GRACE_DEFAULT_MS: u64 = 250;

/// One motion sample: position and front vector in the telemetry's native
/// `(x, z, y)` axis order (millimeters / milli-units), plus the source's
/// monotonically increasing tick counter.
#[derive(Clone, Copy, Debug)]
pub struct MotionSample {
    pub pos_xzy: [i64; 3],
    pub front_xzy: [i64; 3],
    pub ui_tick: u32,
}

/// The fixed-point working ranges every telemetry sample must respect.
pub open spec fn sample_in_range(s: MotionSample) -> bool {
    &&& -MAX_COORD_MM <= s.pos_xzy[0] <= MAX_COORD_MM
    &&& -MAX_COORD_MM <= s.pos_xzy[1] <= MAX_COORD_MM
    &&& -MAX_COORD_MM <= s.pos_xzy[2] <= MAX_COORD_MM
    &&& -MAX_FRONT_COMPONENT <= s.front_xzy[0] <= MAX_FRONT_COMPONENT
    &&& -MAX_FRONT_COMPONENT <= s.front_xzy[1] <= MAX_FRONT_COMPONENT
    &&& -MAX_FRONT_COMPONENT <= s.front_xzy[2] <= MAX_FRONT_COMPONENT
}

/// Something that can provide motion samples (position + front + tick).
/// Implementations promise nothing about availability, only that any sample
/// they do hand out lies in the fixed-point working range.
pub trait MotionSource {
    fn read_motion(&self) -> (r: Option<MotionSample>)
        ensures
            r matches Some(s) ==> sample_in_range(s),
    ;
}

/// The polled classifier: velocity estimator plus temporal classifier plus
/// the landing bookkeeping.
pub struct AirClassifier {
    pub calc: SpeedCalculator,
    pub temporal: TemporalClassifier,
    pub last_state: Movement,
    pub last_change: u64,
    /// Grace period for `landed_recently`, in milliseconds.
    pub landing_grace_ms: u64,
}

/// Milliseconds elapsed since `since`, saturating at zero.
pub open spec fn elapsed_ms(now: u64, since: u64) -> int {
    if now >= since {
        now - since
    } else {
        0
    }
}

/// The update relation for one successfully read sample: the estimator steps,
/// and when it yields a speed the temporal classifier and the landing
/// bookkeeping advance with it.
pub open spec fn advanced_by(
    pre: AirClassifier,
    post: AirClassifier,
    smp: MotionSample,
    now: u64,
) -> bool {
    let stepped = spec_step(pre.calc, smp.pos_xzy, now);
    &&& post.calc == stepped.0
    &&& post.landing_grace_ms == pre.landing_grace_ms
    &&& match stepped.1 {
        Some(spd) => {
            let facing = spec_facing_from_front(smp.front_xzy);
            let up = spec_update(
                pre.temporal.history@,
                pre.temporal.state,
                pre.temporal.last_switch,
                pre.temporal.glide_locked_until,
                now,
                spd,
                Some(facing),
            );
            &&& post.temporal.history@ == up.0
            &&& post.temporal.state == up.1
            &&& post.temporal.last_switch == up.2
            &&& post.temporal.glide_locked_until == up.3
            &&& post.last_state == up.1
            &&& post.last_change == if up.1 != pre.last_state {
                now
            } else {
                pre.last_change
            }
        },
        None => {
            &&& post.temporal == pre.temporal
            &&& post.last_state == pre.last_state
            &&& post.last_change == pre.last_change
        },
    }
}

impl AirClassifier {
    /// The two stateful stages agree on time: nothing in the window is newer
    /// than the estimator's reference sample.
    pub open spec fn wf(self) -> bool {
        &&& self.calc.wf()
        &&& self.temporal.wf()
        &&& self.temporal.history@.len() > 0 ==> (self.calc.prev_t matches Some(pt)
            && self.temporal.history@.last().0 <= pt)
    }

    pub fn new(now: u64) -> (r: Self)
        ensures
            r.wf(),
            r.last_state == Movement::Idle,
            r.last_change == now,
            r.landing_grace_ms == LANDING_GRACE_DEFAULT_MS,
            r.calc.prev_t is None,
            r.temporal.history@.len() == 0,
    {
        AirClassifier {
            calc: SpeedCalculator::new(),
            temporal: TemporalClassifier::new(now),
            last_state: Movement::Idle,
            last_change: now,
            landing_grace_ms: LANDING_GRACE_DEFAULT_MS,
        }
    }

    /// Poll the motion source once. When the source yields nothing, the last
    /// known state is returned unchanged; otherwise the pipeline advances by
    /// the published step/update semantics for whatever sample was read.
    pub fn update_with<S: MotionSource>(&mut self, source: &S, now: u64) -> (r: Movement)
        requires
            old(self).wf(),
            old(self).calc.prev_t matches Some(pt) ==> pt <= now,
            now <= MAX_TIME_MS,
        ensures
            final(self).wf(),
            r == final(self).last_state,
            final(self).calc.prev_t matches Some(pt2) ==> pt2 <= now,
            (*final(self) == *old(self)) || (exists|smp: MotionSample|
                sample_in_range(smp) && #[trigger] advanced_by(*old(self), *final(self), smp, now)),
    {
        let sample = match source.read_motion() {
            Some(v) => v,
            None => {
                return self.last_state;
            },
        };

        proof {
            lemma_step_freshness(old(self).calc, sample.pos_xzy, now);
        }
        let spd_opt = self.calc.step(sample.pos_xzy, now);
        match spd_opt {
            Some(spd) => {
                let facing_xy = facing_xy_from_front(sample.front_xzy);
                proof {
                    lemma_update_window_ends_now(
                        old(self).temporal.history@,
                        old(self).temporal.state,
                        old(self).temporal.last_switch,
                        old(self).temporal.glide_locked_until,
                        now,
                        spd,
                        Some(facing_xy),
                    );
                }
                let state = self.temporal.update(now, spd, Some(facing_xy));
                if state != self.last_state {
                    self.last_state = state;
                    self.last_change = now;
                }
            },
            None => {},
        }

        proof {
            assert(advanced_by(*old(self), *self, sample, now));
        }
        self.last_state
    }

    /// True iff the stable state is one of the airborne labels.
    pub fn is_airborne(&self) -> (r: bool)
        ensures
            r == is_airborne_label(self.last_state),
    {
        is_airborne_exec(self.last_state)
    }

    /// True iff the classifier is on the ground and the last state change
    /// lies within the landing grace period.
    pub fn landed_recently(&self, now: u64) -> (r: bool)
        ensures
            r == (!is_airborne_label(self.last_state) && elapsed_ms(now, self.last_change)
                <= self.landing_grace_ms),
    {
        let elapsed: u64 = if now >= self.last_change {
            now - self.last_change
        } else {
            0
        };
        !self.is_airborne() && elapsed <= self.landing_grace_ms
    }

    /// The current stable movement label.
    pub fn state(&self) -> (r: Movement)
        ensures
            r == self.last_state,
    {
        self.last_state
    }
}

} // verus!
