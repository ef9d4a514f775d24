//! Instant movement classification: a pure, banded matcher from one velocity
//! snapshot (plus an optional facing direction) to a discrete movement label.
//!
//! All speeds are in milli-units per second; facing vectors are normalized to
//! a length of about 1000 (the milli fixed-point unit).

use vstd::prelude::*;

use crate::math::{abs_i64, abs_int, div_trunc, div_trunc_i64, isqrt, lemma_div_trunc_scaled, sqrt_floor};
use crate::speed::{valid_speed, Speed, H_MAX_MU, V_MAX_MU};

verus! {

/// The discrete movement labels the pipeline produces.
#[derive(Clone, Copy, Debug, PartialEq, Eq, Hash, Structural)]
pub enum Movement {
    Idle,
    Walk,
    RunForward,
    Strafe,
    Backpedal,
    GlideForward,
    GlideNeutral,
    GlideBack,
    Falling,
    FallingTerminal,
    Other,
}

/// A horizontal facing direction, normalized so that `x^2 + y^2` is about
/// `1000^2`.
#[derive(Clone, Copy, Debug, PartialEq, Eq, Structural)]
pub struct FacingXY {
    pub x: i64,
    pub y: i64,
}

pub open spec fn valid_facing(f: FacingXY) -> bool {
    &&& -FACING_UNIT <= f.x <= FACING_UNIT
    &&& -FACING_UNIT <= f.y <= FACING_UNIT
}

/// Fixed-point scale of a unit facing vector.
pub const FACING_UNIT: i64 = 1000;

/// Largest per-component magnitude `facing_xy_from_front` accepts.
pub const MAX_FRONT_COMPONENT: i64 = 1_000_000_000;

// Banded reference speeds and tolerances, in milli-units per second. These
// are empirically tuned baselines, not derived quantities.
pub const IDLE_H_MAX: i64 = 10_000;

pub const IDLE_VZ_MAX: i64 = 5_000;

pub const GLIDE_VZ_MIN: i64 = 80_000;

pub const GLIDE_VZ_MAX: i64 = 150_000;

pub const GLIDE_BAND_TOL: i64 = 18_000;

pub const GLIDE_BACK_H: i64 = 80_000;

pub const GLIDE_NEUTRAL_H: i64 = 294_000;

pub const GLIDE_FWD_H: i64 = 390_000;

pub const FALL_MIN_VZ: i64 = 220_000;

pub const TERMINAL_VZ: i64 = 900_000;

pub const BEYOND_GLIDE_VZ_MARGIN: i64 = 20_000;

pub const WALK_H: i64 = 80_000;

pub const WALK_TOL_H: i64 = 20_000;

pub const RUN_FWD_OOC_H: i64 = 294_000;

pub const RUN_FWD_IC_H: i64 = 210_000;

pub const RUN_STRAFE_H: i64 = 180_000;

pub const RUN_BACK_H: i64 = 105_000;

pub const RUN_FWD_TOL_H: i64 = 50_000;

pub const RUN_STRAFE_TOL_H: i64 = 28_000;

pub const RUN_BACK_TOL_H: i64 = 24_000;

pub const GROUND_MAX_VZ_FOR_RUN: i64 = 180_000;

/// Horizontal speed above which a facing vector is trusted for projection.
pub const FACING_MIN_H: i64 = 30_000;

/// Cosine cutoff (in milli) between forward-like and strafe-like motion.
pub const FWD_DOT_MIN_MILLI: i64 = 350;

/// Floor speed for the strongly-forward run fallback.
pub const RUN_FWD_FLOOR_H: i64 = 150_000;

/// The three glide sub-variants.
pub open spec fn is_glide(m: Movement) -> bool {
    m == Movement::GlideForward || m == Movement::GlideNeutral || m == Movement::GlideBack
}

/// Labels that mean the character is not touching the ground.
pub open spec fn is_airborne_label(m: Movement) -> bool {
    is_glide(m) || m == Movement::Falling || m == Movement::FallingTerminal
}

/// Vertical speed dominates horizontal speed by the falling ratio (1.35,
/// with a one-unit cushion on the horizontal).
pub open spec fn vertical_dominates(abs_vz: int, h: int) -> bool {
    100 * abs_vz >= 135 * (h + 1000)
}

/// The ground-movement ratio gate (vertical below 0.9 of horizontal).
pub open spec fn ground_ratio_ok(abs_vz: int, h: int) -> bool {
    abs_vz <= GROUND_MAX_VZ_FOR_RUN || 10 * abs_vz < 9 * (h + 1000)
}

/// Nearest glide band for a horizontal speed; ties resolve toward the
/// slower band (back, then neutral, then forward).
pub open spec fn spec_snap_glide(h: int) -> Movement {
    let db = abs_int(h - GLIDE_BACK_H);
    let dn = abs_int(h - GLIDE_NEUTRAL_H);
    let df = abs_int(h - GLIDE_FWD_H);
    if db <= dn && db <= df {
        Movement::GlideBack
    } else if dn <= df {
        Movement::GlideNeutral
    } else {
        Movement::GlideForward
    }
}

/// Reference horizontal speed of a glide band.
pub open spec fn glide_band_h(m: Movement) -> int {
    if m == Movement::GlideBack {
        GLIDE_BACK_H as int
    } else if m == Movement::GlideNeutral {
        GLIDE_NEUTRAL_H as int
    } else {
        GLIDE_FWD_H as int
    }
}

/// Forward projection of the velocity onto the facing direction: the signed
/// forward component (clamped to `[-h, h]`) and the forward/back/strafe
/// flags. Without a usable facing, the forward component defaults to `h`
/// and no flag is set.
pub open spec fn spec_projection(vx: int, vy: int, h: int, facing: Option<FacingXY>) -> (
    int,
    bool,
    bool,
    bool,
) {
    match facing {
        Some(f) => {
            if h > FACING_MIN_H {
                let num = vx * f.x + vy * f.y;
                let fc0 = div_trunc(num, FACING_UNIT as int);
                let fc = if fc0 > h {
                    h
                } else if fc0 < -h {
                    -h
                } else {
                    fc0
                };
                let fwd = num >= FWD_DOT_MIN_MILLI * h;
                let back = num <= -(FWD_DOT_MIN_MILLI * h);
                (fc, fwd, back, !fwd && !back)
            } else {
                (h, false, false, false)
            }
        },
        None => (h, false, false, false),
    }
}

/// The full instant-classification decision tree over raw component values.
pub open spec fn spec_classify_vals(
    vx: int,
    vy: int,
    vz: int,
    h: int,
    mag: int,
    facing: Option<FacingXY>,
) -> Movement {
    let abs_vz = abs_int(vz);
    if h < IDLE_H_MAX && abs_vz < IDLE_VZ_MAX {
        Movement::Idle
    } else if vz < -(GLIDE_VZ_MAX + BEYOND_GLIDE_VZ_MARGIN) && vertical_dominates(abs_vz, h) {
        if abs_vz >= TERMINAL_VZ {
            Movement::FallingTerminal
        } else {
            Movement::Falling
        }
    } else if vz <= -FALL_MIN_VZ && vertical_dominates(abs_vz, h) {
        if abs_vz >= TERMINAL_VZ {
            Movement::FallingTerminal
        } else {
            Movement::Falling
        }
    } else {
        let (forward_comp, fwd_like, back_like, strafe_like) = spec_projection(vx, vy, h, facing);
        if vz < 0 && GLIDE_VZ_MIN <= abs_vz <= GLIDE_VZ_MAX && abs_int(
            h - glide_band_h(spec_snap_glide(h)),
        ) <= GLIDE_BAND_TOL {
            spec_snap_glide(h)
        } else if ground_ratio_ok(abs_vz, h) {
            if abs_int(mag - WALK_H) <= WALK_TOL_H {
                Movement::Walk
            } else if back_like || abs_int(h - RUN_BACK_H) <= RUN_BACK_TOL_H {
                Movement::Backpedal
            } else if strafe_like || abs_int(h - RUN_STRAFE_H) <= RUN_STRAFE_TOL_H {
                Movement::Strafe
            } else if abs_int(forward_comp - RUN_FWD_OOC_H) <= RUN_FWD_TOL_H || abs_int(
                forward_comp - RUN_FWD_IC_H,
            ) <= RUN_FWD_TOL_H {
                Movement::RunForward
            } else if abs_int(h - RUN_FWD_OOC_H) <= RUN_FWD_TOL_H || abs_int(h - RUN_FWD_IC_H)
                <= RUN_FWD_TOL_H {
                Movement::RunForward
            } else if fwd_like && h > RUN_FWD_FLOOR_H {
                Movement::RunForward
            } else {
                Movement::Other
            }
        } else {
            Movement::Other
        }
    }
}

/// Instant classification of a `Speed` snapshot.
pub open spec fn spec_classify(s: Speed, facing: Option<FacingXY>) -> Movement {
    spec_classify_vals(
        s.vx as int,
        s.vy as int,
        s.vz as int,
        s.horizontal as int,
        s.magnitude as int,
        facing,
    )
}

/// Snap a horizontal speed to the nearest glide band.
pub fn snap_glide(h: i64) -> (m: Movement)
    requires
        0 <= h <= H_MAX_MU,
    ensures
        m == spec_snap_glide(h as int),
        is_glide(m),
{
    let db = abs_i64(h - GLIDE_BACK_H);
    let dn = abs_i64(h - GLIDE_NEUTRAL_H);
    let df = abs_i64(h - GLIDE_FWD_H);
    if db <= dn && db <= df {
        Movement::GlideBack
    } else if dn <= df {
        Movement::GlideNeutral
    } else {
        Movement::GlideForward
    }
}

/// Classify one velocity snapshot against the banded references.
pub fn classify(s: &Speed, facing_xy: Option<FacingXY>) -> (m: Movement)
    requires
        valid_speed(*s),
        facing_xy matches Some(f) ==> valid_facing(f),
    ensures
        m == spec_classify(*s, facing_xy),
{
    let h = s.horizontal;
    let vz = s.vz;
    let abs_vz = abs_i64(vz);
    let speed3d = s.magnitude;

    if h < IDLE_H_MAX && abs_vz < IDLE_VZ_MAX {
        return Movement::Idle;
    }

    if (vz < -(GLIDE_VZ_MAX + BEYOND_GLIDE_VZ_MARGIN) || vz <= -FALL_MIN_VZ) && 100 * abs_vz
        >= 135 * (h + 1000) {
        return if abs_vz >= TERMINAL_VZ {
            Movement::FallingTerminal
        } else {
            Movement::Falling
        };
    }

    let mut forward_comp = h;
    let mut fwd_like = false;
    let mut back_like = false;
    let mut strafe_like = false;

    match facing_xy {
        Some(f) => {
            if h > FACING_MIN_H {
                proof {
                    assert(-1_200_000_000_000_000 <= s.vx * f.x <= 1_200_000_000_000_000
                        && -1_200_000_000_000_000 <= s.vy * f.y <= 1_200_000_000_000_000)
                        by (nonlinear_arith)
                        requires
                            -V_MAX_MU <= s.vx <= V_MAX_MU,
                            -V_MAX_MU <= s.vy <= V_MAX_MU,
                            -FACING_UNIT <= f.x <= FACING_UNIT,
                            -FACING_UNIT <= f.y <= FACING_UNIT,
                            V_MAX_MU == 1_181_100_000,
                            FACING_UNIT == 1000,
                    ;
                }
                let num = s.vx * f.x + s.vy * f.y;
                let fc0 = div_trunc_i64(num, FACING_UNIT);
                proof {
                    lemma_div_trunc_bound_classify(num as int);
                }
                forward_comp = if fc0 > h {
                    h
                } else if fc0 < -h {
                    -h
                } else {
                    fc0
                };
                fwd_like = num >= FWD_DOT_MIN_MILLI * h;
                back_like = num <= -(FWD_DOT_MIN_MILLI * h);
                strafe_like = !fwd_like && !back_like;
            }
        },
        None => {},
    }

    if vz < 0 && GLIDE_VZ_MIN <= abs_vz && abs_vz <= GLIDE_VZ_MAX {
        let m = snap_glide(h);
        let band = match m {
            Movement::GlideBack => GLIDE_BACK_H,
            Movement::GlideNeutral => GLIDE_NEUTRAL_H,
            _ => GLIDE_FWD_H,
        };
        if abs_i64(h - band) <= GLIDE_BAND_TOL {
            return m;
        }
    }

    let ground_ok = abs_vz <= GROUND_MAX_VZ_FOR_RUN || 10 * abs_vz < 9 * (h + 1000);
    if ground_ok {
        if abs_i64(speed3d - WALK_H) <= WALK_TOL_H {
            return Movement::Walk;
        }
        if back_like || abs_i64(h - RUN_BACK_H) <= RUN_BACK_TOL_H {
            return Movement::Backpedal;
        }
        if strafe_like || abs_i64(h - RUN_STRAFE_H) <= RUN_STRAFE_TOL_H {
            return Movement::Strafe;
        }
        if abs_i64(forward_comp - RUN_FWD_OOC_H) <= RUN_FWD_TOL_H || abs_i64(
            forward_comp - RUN_FWD_IC_H,
        ) <= RUN_FWD_TOL_H {
            return Movement::RunForward;
        }
        if abs_i64(h - RUN_FWD_OOC_H) <= RUN_FWD_TOL_H || abs_i64(h - RUN_FWD_IC_H)
            <= RUN_FWD_TOL_H {
            return Movement::RunForward;
        }
        if fwd_like && h > RUN_FWD_FLOOR_H {
            return Movement::RunForward;
        }
    }

    Movement::Other
}

/// Magnitude bound for the projection quotient inside `classify`.
proof fn lemma_div_trunc_bound_classify(num: int)
    requires
        -3_000_000_000_000_000_000 <= num <= 3_000_000_000_000_000_000,
    ensures
        -3_000_000_000_000_000 <= div_trunc(num, FACING_UNIT as int) <= 3_000_000_000_000_000,
{
    lemma_div_trunc_scaled(num, FACING_UNIT as int, 3_000_000_000_000_000);
}

/// Normalize the horizontal part of a telemetry-order front vector to a
/// milli-scale unit facing; degenerate fronts default to straight ahead.
pub open spec fn spec_facing_from_front(front_xzy: [i64; 3]) -> FacingXY {
    let fx = front_xzy[0];
    let fy = front_xzy[2];
    let len = sqrt_floor(fx * fx + fy * fy);
    if len > 1 {
        FacingXY {
            x: div_trunc(fx * (FACING_UNIT as int), len) as i64,
            y: div_trunc(fy * (FACING_UNIT as int), len) as i64,
        }
    } else {
        FacingXY { x: 0, y: FACING_UNIT }
    }
}

/// Extract and normalize the horizontal facing from a raw front vector in
/// the telemetry's `(x, z, y)` axis order.
pub fn facing_xy_from_front(front_xzy: [i64; 3]) -> (r: FacingXY)
    requires
        -MAX_FRONT_COMPONENT <= front_xzy[0] <= MAX_FRONT_COMPONENT,
        -MAX_FRONT_COMPONENT <= front_xzy[1] <= MAX_FRONT_COMPONENT,
        -MAX_FRONT_COMPONENT <= front_xzy[2] <= MAX_FRONT_COMPONENT,
    ensures
        r == spec_facing_from_front(front_xzy),
        valid_facing(r),
{
    let fx = front_xzy[0];
    let fy = front_xzy[2];
    proof {
        assert(0 <= fx * fx <= 1_000_000_000_000_000_000 && 0 <= fy * fy
            <= 1_000_000_000_000_000_000) by (nonlinear_arith)
            requires
                -MAX_FRONT_COMPONENT <= fx <= MAX_FRONT_COMPONENT,
                -MAX_FRONT_COMPONENT <= fy <= MAX_FRONT_COMPONENT,
                MAX_FRONT_COMPONENT == 1_000_000_000,
        ;
    }
    let len_sq: u64 = (fx * fx + fy * fy) as u64;
    let len: u64 = isqrt(len_sq);
    if len > 1 {
        proof {
            assert((len as int) * (len as int) <= len_sq as int);
            assert((len as int + 1) * (len as int + 1) > len_sq as int);
            assert(len <= 1_500_000_000) by (nonlinear_arith)
                requires
                    (len as int) * (len as int) <= len_sq as int,
                    len_sq <= 2_000_000_000_000_000_000,
            ;
            assert(abs_int(fx as int) <= len as int && abs_int(fy as int) <= len as int)
                by (nonlinear_arith)
                requires
                    (len as int + 1) * (len as int + 1) > len_sq as int,
                    len >= 0,
                    fx * fx <= len_sq,
                    fy * fy <= len_sq,
                    abs_int(fx as int) == if fx >= 0 { fx as int } else { -(fx as int) },
                    abs_int(fy as int) == if fy >= 0 { fy as int } else { -(fy as int) },
            ;
            assert(-((len as int) * (FACING_UNIT as int)) <= fx * (FACING_UNIT as int) <= (
            len as int) * (FACING_UNIT as int)) by (nonlinear_arith)
                requires
                    abs_int(fx as int) <= len as int,
                    FACING_UNIT == 1000,
            ;
            assert(-((len as int) * (FACING_UNIT as int)) <= fy * (FACING_UNIT as int) <= (
            len as int) * (FACING_UNIT as int)) by (nonlinear_arith)
                requires
                    abs_int(fy as int) <= len as int,
                    FACING_UNIT == 1000,
            ;
            lemma_div_trunc_scaled(fx * (FACING_UNIT as int), len as int, FACING_UNIT as int);
            lemma_div_trunc_scaled(fy * (FACING_UNIT as int), len as int, FACING_UNIT as int);
        }
        FacingXY {
            x: div_trunc_i64(fx * FACING_UNIT, len as i64),
            y: div_trunc_i64(fy * FACING_UNIT, len as i64),
        }
    } else {
        FacingXY { x: 0, y: FACING_UNIT }
    }
}

/// True when both labels belong to the airborne family (glides and falls).
pub fn same_airborne_family(a: Movement, b: Movement) -> (r: bool)
    ensures
        r == (is_airborne_label(a) && is_airborne_label(b)),
{
    is_airborne_exec(a) && is_airborne_exec(b)
}

/// Executable test for membership in the airborne family.
pub fn is_airborne_exec(m: Movement) -> (r: bool)
    ensures
        r == is_airborne_label(m),
{
    match m {
        Movement::GlideBack => true,
        Movement::GlideNeutral => true,
        Movement::GlideForward => true,
        Movement::Falling => true,
        Movement::FallingTerminal => true,
        _ => false,
    }
}

} // verus!
