//! Velocity estimation from raw position samples.
//!
//! Positions arrive in millimeters in the telemetry's native `(x, z, y)` axis
//! order and are remapped to an `(x, y)`-horizontal / `z`-vertical frame.
//! Velocities are reported in milli-units per second (1 meter = 39.37 game
//! units). Timestamps are in milliseconds.

use vstd::prelude::*;

use crate::math::{
    abs_i64, abs_int, div_trunc, div_trunc_i64, isqrt, lemma_div_trunc_scaled, sqrt_floor,
};

verus! {

/// Largest coordinate (in mm) the estimator accepts; keeps every intermediate
/// product inside `i64`.
pub const MAX_COORD_MM: i64 = 500_000_000;

/// Sampling intervals outside `1..=500` ms are treated as anomalies.
pub const MAX_DT_MS: u64 = 500;

/// A displacement longer than 30 m in one accepted interval is a teleport.
pub const MAX_STEP_MM: i64 = 30_000;

/// `MAX_STEP_MM` squared, the bound actually compared against.
pub const MAX_STEP_SQ_MM: i64 = 900_000_000;

/// Conversion factor: milli-units per second, per (mm per ms); 39.37 game
/// units to the meter, scaled by 1000.
pub const MU_SCALE: i64 = 39_370;

/// Exponential smoothing weights, per hundred: retained vs. new sample.
pub const SMOOTH_RETAIN: i64 = 65;

pub const SMOOTH_NEW: i64 = 35;

/// Velocity components below this magnitude (milli-units/s) snap to zero.
pub const EPS_MU: i64 = 10;

/// Largest velocity component the estimator can produce: 30 m in 1 ms.
pub const V_MAX_MU: i64 = 1_181_100_000;

/// Loose bound on the horizontal speed derived from `V_MAX_MU`.
pub const H_MAX_MU: i64 = 1_700_000_000;

/// Loose bound on the 3-d speed magnitude derived from `V_MAX_MU`.
pub const M_MAX_MU: i64 = 2_100_000_000;

/// A smoothed velocity snapshot, in milli-units per second.
#[derive(Clone, Copy, Debug, PartialEq, Eq, Structural)]
pub struct Speed {
    pub vx: i64,
    pub vy: i64,
    pub vz: i64,
    /// Horizontal speed, `isqrt(vx^2 + vy^2)` at construction time.
    pub horizontal: i64,
    /// 3-d speed, `isqrt(horizontal^2 + vz^2)` at construction time.
    pub magnitude: i64,
    /// The accepted sampling interval this snapshot was derived from.
    pub dt_ms: u64,
}

/// Range discipline every `Speed` handed to the classifiers obeys.
pub open spec fn valid_speed(s: Speed) -> bool {
    &&& -V_MAX_MU <= s.vx <= V_MAX_MU
    &&& -V_MAX_MU <= s.vy <= V_MAX_MU
    &&& -V_MAX_MU <= s.vz <= V_MAX_MU
    &&& 0 <= s.horizontal <= H_MAX_MU
    &&& 0 <= s.magnitude <= M_MAX_MU
    &&& 1 <= s.dt_ms <= MAX_DT_MS
}

/// A position in millimeters, `x`/`y` horizontal and `z` vertical.
#[derive(Clone, Copy, Debug, PartialEq, Eq, Structural)]
pub struct Vec3Mm {
    pub x: i64,
    pub y: i64,
    pub z: i64,
}

pub open spec fn pos_in_range(p: Vec3Mm) -> bool {
    &&& -MAX_COORD_MM <= p.x <= MAX_COORD_MM
    &&& -MAX_COORD_MM <= p.y <= MAX_COORD_MM
    &&& -MAX_COORD_MM <= p.z <= MAX_COORD_MM
}

/// Remap a telemetry-order `(x, z, y)` triple into the working frame.
pub open spec fn remap_pos(pos_xzy: [i64; 3]) -> Vec3Mm {
    Vec3Mm { x: pos_xzy[0], y: pos_xzy[2], z: pos_xzy[1] }
}

/// One exponential smoothing step, truncating toward zero.
pub open spec fn smooth_mu(prev: int, raw: int) -> int {
    div_trunc(SMOOTH_RETAIN * prev + SMOOTH_NEW * raw, 100)
}

/// Snap sub-epsilon magnitudes to exactly zero.
pub open spec fn snap_small(v: int) -> int {
    if abs_int(v) < EPS_MU {
        0
    } else {
        v
    }
}

/// Velocity estimator state: previous accepted sample and the smoothed
/// velocity accumulator.
pub struct SpeedCalculator {
    pub prev_pos: Option<Vec3Mm>,
    pub prev_t: Option<u64>,
    pub v_smooth_x: i64,
    pub v_smooth_y: i64,
    pub v_smooth_z: i64,
}

impl SpeedCalculator {
    pub open spec fn wf(self) -> bool {
        &&& (self.prev_pos is Some <==> self.prev_t is Some)
        &&& (self.prev_pos matches Some(p) ==> pos_in_range(p))
        &&& -V_MAX_MU <= self.v_smooth_x <= V_MAX_MU
        &&& -V_MAX_MU <= self.v_smooth_y <= V_MAX_MU
        &&& -V_MAX_MU <= self.v_smooth_z <= V_MAX_MU
    }

    pub fn new() -> (r: Self)
        ensures
            r.wf(),
            r.prev_pos is None,
            r.prev_t is None,
            r.v_smooth_x == 0 && r.v_smooth_y == 0 && r.v_smooth_z == 0,
    {
        SpeedCalculator {
            prev_pos: None,
            prev_t: None,
            v_smooth_x: 0,
            v_smooth_y: 0,
            v_smooth_z: 0,
        }
    }

    /// Feed one sample (millimeters, telemetry `(x, z, y)` order); returns a
    /// smoothed `Speed` when the interval and displacement pass the guards.
    pub fn step(&mut self, pos_xzy: [i64; 3], now: u64) -> (r: Option<Speed>)
        requires
            old(self).wf(),
            -MAX_COORD_MM <= pos_xzy[0] <= MAX_COORD_MM,
            -MAX_COORD_MM <= pos_xzy[1] <= MAX_COORD_MM,
            -MAX_COORD_MM <= pos_xzy[2] <= MAX_COORD_MM,
        ensures
            final(self).wf(),
            (*final(self), r) == spec_step(*old(self), pos_xzy, now),
            r matches Some(s) ==> valid_speed(s),
    {
        let pos = Vec3Mm { x: pos_xzy[0], y: pos_xzy[2], z: pos_xzy[1] };

        let (prev_pos, prev_t): (Vec3Mm, u64) = match (self.prev_pos, self.prev_t) {
            (Some(p), Some(t)) => (p, t),
            _ => {
                self.prev_pos = Some(pos);
                self.prev_t = Some(now);
                return None;
            },
        };

        if now <= prev_t || now - prev_t > MAX_DT_MS {
            self.prev_pos = Some(pos);
            self.prev_t = Some(now);
            return None;
        }
        let dt: u64 = now - prev_t;

        let dx = pos.x - prev_pos.x;
        let dy = pos.y - prev_pos.y;
        let dz = pos.z - prev_pos.z;

        proof {
            assert(0 <= dx * dx <= 1_000_000_000_000_000_000 && 0 <= dy * dy
                <= 1_000_000_000_000_000_000 && 0 <= dz * dz <= 1_000_000_000_000_000_000)
                by (nonlinear_arith)
                requires
                    -1_000_000_000 <= dx <= 1_000_000_000,
                    -1_000_000_000 <= dy <= 1_000_000_000,
                    -1_000_000_000 <= dz <= 1_000_000_000,
            ;
        }
        if dx * dx + dy * dy + dz * dz > MAX_STEP_SQ_MM {
            self.prev_pos = Some(pos);
            self.prev_t = Some(now);
            return None;
        }

        proof {
            assert(abs_int(dx as int) <= MAX_STEP_MM && abs_int(dy as int) <= MAX_STEP_MM
                && abs_int(dz as int) <= MAX_STEP_MM) by (nonlinear_arith)
                requires
                    dx * dx + dy * dy + dz * dz <= MAX_STEP_SQ_MM,
                    MAX_STEP_SQ_MM == MAX_STEP_MM * MAX_STEP_MM,
                    MAX_STEP_MM == 30_000,
            ;
        }

        let rvx = Self::raw_velocity(dx, dt);
        let rvy = Self::raw_velocity(dy, dt);
        let rvz = Self::raw_velocity(dz, dt);

        let svx = Self::smooth(self.v_smooth_x, rvx);
        let svy = Self::smooth(self.v_smooth_y, rvy);
        let svz = Self::smooth(self.v_smooth_z, rvz);

        self.v_smooth_x = svx;
        self.v_smooth_y = svy;
        self.v_smooth_z = svz;
        self.prev_pos = Some(pos);
        self.prev_t = Some(now);

        proof {
            assert(0 <= svx * svx <= 1_400_000_000_000_000_000 && 0 <= svy * svy
                <= 1_400_000_000_000_000_000 && 0 <= svz * svz <= 1_400_000_000_000_000_000)
                by (nonlinear_arith)
                requires
                    -V_MAX_MU <= svx <= V_MAX_MU,
                    -V_MAX_MU <= svy <= V_MAX_MU,
                    -V_MAX_MU <= svz <= V_MAX_MU,
                    V_MAX_MU == 1_181_100_000,
            ;
        }
        let h_sq: u64 = (svx * svx + svy * svy) as u64;
        let h_u: u64 = isqrt(h_sq);
        proof {
            assert((h_u as int) * (h_u as int) <= h_sq as int);
            assert(h_u <= H_MAX_MU) by (nonlinear_arith)
                requires
                    (h_u as int) * (h_u as int) <= h_sq as int,
                    h_sq <= 2_800_000_000_000_000_000,
                    H_MAX_MU == 1_700_000_000,
            ;
        }
        let h: i64 = h_u as i64;
        proof {
            assert(0 <= h * h <= 2_800_000_000_000_000_000);
        }
        let m_sq: u64 = (h * h + svz * svz) as u64;
        let mag_u: u64 = isqrt(m_sq);
        proof {
            assert((mag_u as int) * (mag_u as int) <= m_sq as int);
            assert(mag_u <= M_MAX_MU) by (nonlinear_arith)
                requires
                    (mag_u as int) * (mag_u as int) <= m_sq as int,
                    m_sq <= 4_300_000_000_000_000_000,
                    M_MAX_MU == 2_100_000_000,
            ;
        }
        let mag: i64 = mag_u as i64;

        let out = Speed {
            vx: Self::snap(svx),
            vy: Self::snap(svy),
            vz: Self::snap(svz),
            horizontal: h,
            magnitude: mag,
            dt_ms: dt,
        };
        Some(out)
    }

    /// Raw per-axis velocity in milli-units/s from a displacement in mm over
    /// an accepted interval in ms.
    fn raw_velocity(d: i64, dt: u64) -> (r: i64)
        requires
            abs_int(d as int) <= MAX_STEP_MM,
            1 <= dt <= MAX_DT_MS,
        ensures
            r == div_trunc(d * MU_SCALE, dt as int),
            -V_MAX_MU <= r <= V_MAX_MU,
    {
        proof {
            assert(-(dt * V_MAX_MU) <= d * MU_SCALE <= dt * V_MAX_MU) by (nonlinear_arith)
                requires
                    abs_int(d as int) <= MAX_STEP_MM,
                    1 <= dt <= MAX_DT_MS,
                    MAX_STEP_MM == 30_000,
                    MU_SCALE == 39_370,
                    V_MAX_MU == 1_181_100_000,
            ;
            lemma_div_trunc_scaled(d * MU_SCALE, dt as int, V_MAX_MU as int);
        }
        div_trunc_i64(d * MU_SCALE, dt as i64)
    }

    /// One exponential smoothing step on a velocity component.
    fn smooth(prev: i64, raw: i64) -> (r: i64)
        requires
            -V_MAX_MU <= prev <= V_MAX_MU,
            -V_MAX_MU <= raw <= V_MAX_MU,
        ensures
            r == smooth_mu(prev as int, raw as int),
            -V_MAX_MU <= r <= V_MAX_MU,
    {
        proof {
            assert(-(100 * V_MAX_MU) <= SMOOTH_RETAIN * prev + SMOOTH_NEW * raw <= 100
                * V_MAX_MU) by (nonlinear_arith)
                requires
                    -V_MAX_MU <= prev <= V_MAX_MU,
                    -V_MAX_MU <= raw <= V_MAX_MU,
                    SMOOTH_RETAIN == 65,
                    SMOOTH_NEW == 35,
            ;
            lemma_div_trunc_scaled(
                SMOOTH_RETAIN * prev + SMOOTH_NEW * raw,
                100,
                V_MAX_MU as int,
            );
        }
        div_trunc_i64(SMOOTH_RETAIN * prev + SMOOTH_NEW * raw, 100)
    }

    /// Snap sub-epsilon components to exactly zero.
    fn snap(v: i64) -> (r: i64)
        requires
            v > i64::MIN,
        ensures
            r == snap_small(v as int),
    {
        let a = abs_i64(v);
        if a < EPS_MU {
            0
        } else {
            v
        }
    }
}

/// The estimator state with its reference sample replaced.
pub open spec fn reset_to(st: SpeedCalculator, p: Vec3Mm, now: u64) -> SpeedCalculator {
    SpeedCalculator { prev_pos: Some(p), prev_t: Some(now), ..st }
}

/// The full mathematical model of one `SpeedCalculator::step` call: the new
/// estimator state and the optional speed snapshot.
pub open spec fn spec_step(st: SpeedCalculator, pos_xzy: [i64; 3], now: u64) -> (
    SpeedCalculator,
    Option<Speed>,
) {
    let p = remap_pos(pos_xzy);
    match (st.prev_pos, st.prev_t) {
        (Some(pp), Some(pt)) => {
            if now <= pt || now - pt > MAX_DT_MS {
                (reset_to(st, p, now), None)
            } else {
                let dt = now - pt;
                let dx = p.x - pp.x;
                let dy = p.y - pp.y;
                let dz = p.z - pp.z;
                if dx * dx + dy * dy + dz * dz > MAX_STEP_SQ_MM {
                    (reset_to(st, p, now), None)
                } else {
                    let svx = smooth_mu(st.v_smooth_x as int, div_trunc(dx * MU_SCALE, dt));
                    let svy = smooth_mu(st.v_smooth_y as int, div_trunc(dy * MU_SCALE, dt));
                    let svz = smooth_mu(st.v_smooth_z as int, div_trunc(dz * MU_SCALE, dt));
                    let h = sqrt_floor(svx * svx + svy * svy);
                    let mag = sqrt_floor(h * h + svz * svz);
                    let st2 = SpeedCalculator {
                        prev_pos: Some(p),
                        prev_t: Some(now),
                        v_smooth_x: svx as i64,
                        v_smooth_y: svy as i64,
                        v_smooth_z: svz as i64,
                    };
                    let out = Speed {
                        vx: snap_small(svx) as i64,
                        vy: snap_small(svy) as i64,
                        vz: snap_small(svz) as i64,
                        horizontal: h as i64,
                        magnitude: mag as i64,
                        dt_ms: dt as u64,
                    };
                    (st2, Some(out))
                }
            }
        },
        _ => (reset_to(st, p, now), None),
    }
}

/// A step only produces a speed when a previous sample exists and `now` lies
/// strictly after it; afterwards the reference timestamp is always `now`.
pub proof fn lemma_step_freshness(st: SpeedCalculator, pos_xzy: [i64; 3], now: u64)
    ensures
        spec_step(st, pos_xzy, now).1 is Some ==> (st.prev_t matches Some(pt) && pt < now),
        spec_step(st, pos_xzy, now).0.prev_t == Some(now),
        spec_step(st, pos_xzy, now).1 is None ==> spec_step(st, pos_xzy, now).0.v_smooth_x
            == st.v_smooth_x && spec_step(st, pos_xzy, now).0.v_smooth_y == st.v_smooth_y
            && spec_step(st, pos_xzy, now).0.v_smooth_z == st.v_smooth_z,
{
}

} // verus!
