//! Follow controller: where the crop window is centred.
//!
//! The controller keeps a smoothed centre. A pointer that leaves the deadzone
//! round the centre sets a target, the centre then glides to the target by a
//! fraction per frame, and snaps onto it once it is near enough. The crop
//! origin is the centre moved by half the output size and kept inside the
//! source frame.
//!
//! The fraction of a frame is `1 - exp(-rate * dt)`. This crate holds no
//! floating point, so the caller evaluates the exponential: it takes the
//! exponent from [`FollowState::smoothing_exponent`] and hands the fraction
//! to [`FollowState::step`] in parts per [`ALPHA_ONE`].

use vstd::prelude::*;
use crate::error::FrameError;
use crate::units::{clamp, clamp_units, nearest_px, px, px_to_units, Point, HALF_PX, UNITS_PER_PX};

verus! {

/// A pointer that moved no further than this along both axes since the last
/// frame counts as standing still (a quarter pixel).
pub const CURSOR_EPSILON: i64 = 250_000;

/// The same threshold under [`FollowPolicy::CropBoundary`] (a thousandth of a pixel).
pub const BOUNDARY_CURSOR_EPSILON: i64 = 1_000;

/// Within this distance of the target the centre snaps onto it (three
/// quarters of a pixel).
pub const SETTLE_RADIUS: i64 = 750_000;

/// The smoothing fraction that stands for 1.
pub const ALPHA_ONE: u64 = 1_000_000_000;

/// The shortest interval between two updates that is taken as it is, in
/// nanoseconds; a shorter one counts as this.
pub const MIN_ELAPSED_NS: u64 = 1_000;

/// When the controller starts to follow the pointer.
#[derive(Clone, Copy, Debug, PartialEq, Eq, Structural)]
pub enum FollowPolicy {
    /// The pointer left a deadzone of fixed proportions round the centre.
    Deadzone,
    /// The pointer left the crop window itself. Kept for old sessions; it
    /// never settles, so the centre keeps creeping by sub-pixel amounts.
    CropBoundary,
}

/// What a session fixes before its first frame.
#[derive(Clone, Copy, Debug, PartialEq, Eq, Structural)]
pub struct FollowConfig {
    /// Output width in pixels.
    pub out_w: u32,
    /// Output height in pixels.
    pub out_h: u32,
    /// Left edge of the initial crop window, in pixels.
    pub init_x: u32,
    /// Top edge of the initial crop window, in pixels.
    pub init_y: u32,
    /// Whether the window follows the pointer at all.
    pub follow_enabled: bool,
    pub policy: FollowPolicy,
    /// Deadzone size as a share of the output size, in thousandths of a
    /// percent: 100 000 makes the deadzone as large as the output window.
    pub deadzone: u32,
    /// Smoothing rate, in thousandths per second.
    pub smoothing: u32,
}

/// The crop rectangle of one frame, in pixels.
#[derive(Clone, Copy, Debug, PartialEq, Eq, Structural)]
pub struct CropWindow {
    pub x: u32,
    pub y: u32,
    pub width: u32,
    pub height: u32,
}

/// The controller's state between frames.
#[derive(Clone, Copy, Debug, PartialEq, Eq, Structural)]
pub struct FollowState {
    /// Current crop centre.
    pub center: Point,
    /// Last accepted pointer position.
    pub cursor: Point,
    /// Where the centre is heading.
    pub target: Point,
    /// Whether the centre is gliding towards a target.
    pub is_active: bool,
    /// Time of the last update, in nanoseconds on the caller's monotonic clock.
    pub last_update_ns: u64,
}

/// A [`FollowState`] as unbounded integers.
pub struct FollowModel {
    pub center_x: int,
    pub center_y: int,
    pub cursor_x: int,
    pub cursor_y: int,
    pub target_x: int,
    pub target_y: int,
    pub is_active: bool,
    pub last_update_ns: int,
}

impl View for FollowState {
    type V = FollowModel;

    open spec fn view(&self) -> FollowModel {
        FollowModel {
            center_x: self.center.x as int,
            center_y: self.center.y as int,
            cursor_x: self.cursor.x as int,
            cursor_y: self.cursor.y as int,
            target_x: self.target.x as int,
            target_y: self.target.y as int,
            is_active: self.is_active,
            last_update_ns: self.last_update_ns as int,
        }
    }
}

/// Centre of a window of `out` pixels whose low edge is at pixel `origin`.
pub open spec fn window_center(origin: int, out: int) -> int {
    px(origin) + out * HALF_PX
}

/// Half the extent of the deadzone along an axis with `out` output pixels,
/// in units: `out * (deadzone / 1000) / 200` pixels.
pub open spec fn deadzone_half(out: int, deadzone: int) -> int {
    out * deadzone * 5
}

/// Whether `cursor` lies strictly inside the deadzone round `center`.
pub open spec fn inside_deadzone(center: int, cursor: int, half: int) -> bool {
    center - half < cursor < center + half
}

/// The target along one axis: the pointer pulled back by `half` towards the
/// centre where it is outside the deadzone, the centre itself where it is not.
pub open spec fn pull_to_deadzone(center: int, cursor: int, half: int) -> int {
    if cursor < center - half {
        cursor + half
    } else if cursor > center + half {
        cursor - half
    } else {
        center
    }
}

/// A pointer position kept inside a frame of `src` pixels along one axis.
pub open spec fn clamp_cursor(v: int, src: int) -> int {
    clamp(v, 0, px(if src > 0 { src - 1 } else { 0 }))
}

/// Whether two positions on one axis are more than `eps` apart.
pub open spec fn apart(a: int, b: int, eps: int) -> bool {
    a - b > eps || b - a > eps
}

/// One smoothing step along one axis: the centre moves the fraction
/// `alpha / ALPHA_ONE` of the way to the target, rounded towards the centre.
pub open spec fn smooth(center: int, target: int, alpha: int) -> int {
    if target >= center {
        center + ((target - center) * alpha) / (ALPHA_ONE as int)
    } else {
        center - ((center - target) * alpha) / (ALPHA_ONE as int)
    }
}

/// Whether the centre is within [`SETTLE_RADIUS`] of the target.
pub open spec fn settled(cx: int, cy: int, tx: int, ty: int) -> bool {
    (tx - cx) * (tx - cx) + (ty - cy) * (ty - cy) <= SETTLE_RADIUS * SETTLE_RADIUS
}

/// The crop origin along one axis, in pixels: the centre less half the
/// output size, kept between 0 and `src - out`, to the nearest pixel.
pub open spec fn origin_of(center: int, out: int, src: int) -> int {
    nearest_px(clamp(center - out * HALF_PX, 0, px(src - out)))
}

/// The interval since the last update, with its floor.
pub open spec fn elapsed(last_ns: int, now_ns: int) -> int {
    if now_ns - last_ns > MIN_ELAPSED_NS {
        now_ns - last_ns
    } else {
        MIN_ELAPSED_NS as int
    }
}

/// `rate * dt` in billionths, for a rate in thousandths per second and an
/// interval in nanoseconds, rounded down and capped at `u64::MAX`.
pub open spec fn exponent_of(smoothing: int, dt_ns: int) -> int {
    if (smoothing * dt_ns) / 1000 > u64::MAX {
        u64::MAX as int
    } else {
        (smoothing * dt_ns) / 1000
    }
}

/// The state a session starts in: centre, pointer and target in the middle
/// of the initial crop window, at rest.
pub open spec fn initial_model(cfg: FollowConfig, now_ns: int) -> FollowModel {
    FollowModel {
        center_x: window_center(cfg.init_x as int, cfg.out_w as int),
        center_y: window_center(cfg.init_y as int, cfg.out_h as int),
        cursor_x: window_center(cfg.init_x as int, cfg.out_w as int),
        cursor_y: window_center(cfg.init_y as int, cfg.out_h as int),
        target_x: window_center(cfg.init_x as int, cfg.out_w as int),
        target_y: window_center(cfg.init_y as int, cfg.out_h as int),
        is_active: false,
        last_update_ns: now_ns,
    }
}

/// The pointer position taken for a frame: the sample where there is one,
/// the last position where there is none, kept inside the frame either way.
pub open spec fn observe(m: FollowModel, sample: Option<Point>, src_w: int, src_h: int) -> FollowModel {
    FollowModel {
        cursor_x: clamp_cursor(
            match sample {
                Some(p) => p.x as int,
                None => m.cursor_x,
            },
            src_w,
        ),
        cursor_y: clamp_cursor(
            match sample {
                Some(p) => p.y as int,
                None => m.cursor_y,
            },
            src_h,
        ),
        ..m
    }
}

/// Deadzone policy, first half: a pointer that moved since `prev` sets the
/// target and starts the glide; one that stood still changes nothing.
pub open spec fn retarget_deadzone(m: FollowModel, prev_x: int, prev_y: int, cfg: FollowConfig) -> FollowModel {
    if apart(m.cursor_x, prev_x, CURSOR_EPSILON as int) || apart(m.cursor_y, prev_y, CURSOR_EPSILON as int) {
        if cfg.deadzone > 0 {
            FollowModel {
                target_x: pull_to_deadzone(m.center_x, m.cursor_x, deadzone_half(cfg.out_w as int, cfg.deadzone as int)),
                target_y: pull_to_deadzone(m.center_y, m.cursor_y, deadzone_half(cfg.out_h as int, cfg.deadzone as int)),
                is_active: true,
                ..m
            }
        } else {
            FollowModel { target_x: m.cursor_x, target_y: m.cursor_y, is_active: true, ..m }
        }
    } else {
        m
    }
}

/// Deadzone policy, second half: while gliding, the centre takes one
/// smoothing step, and where that brings it within the settle radius it
/// lands on the target and the glide ends.
pub open spec fn advance(m: FollowModel, alpha: int) -> FollowModel {
    if !m.is_active {
        m
    } else if settled(
        smooth(m.center_x, m.target_x, alpha),
        smooth(m.center_y, m.target_y, alpha),
        m.target_x,
        m.target_y,
    ) {
        FollowModel { center_x: m.target_x, center_y: m.target_y, is_active: false, ..m }
    } else {
        FollowModel {
            center_x: smooth(m.center_x, m.target_x, alpha),
            center_y: smooth(m.center_y, m.target_y, alpha),
            ..m
        }
    }
}

/// Whether the pointer is inside the crop window that the centre gives.
pub open spec fn inside_window(m: FollowModel, cfg: FollowConfig, src_w: int, src_h: int) -> bool {
    let left = clamp(m.center_x - cfg.out_w * HALF_PX, 0, px(src_w - cfg.out_w));
    let top = clamp(m.center_y - cfg.out_h * HALF_PX, 0, px(src_h - cfg.out_h));
    &&& left <= m.cursor_x < left + px(cfg.out_w as int)
    &&& top <= m.cursor_y < top + px(cfg.out_h as int)
}

/// Crop-boundary policy: the glide is on exactly while the pointer is
/// outside the crop window. The target is the centre while it is off, and
/// the pointer when the glide starts or the pointer moved since `prev`.
pub open spec fn retarget_boundary(
    m: FollowModel,
    prev_x: int,
    prev_y: int,
    cfg: FollowConfig,
    src_w: int,
    src_h: int,
) -> FollowModel {
    if inside_window(m, cfg, src_w, src_h) {
        FollowModel { target_x: m.center_x, target_y: m.center_y, is_active: false, ..m }
    } else if !m.is_active || apart(m.cursor_x, prev_x, BOUNDARY_CURSOR_EPSILON as int) || apart(
        m.cursor_y,
        prev_y,
        BOUNDARY_CURSOR_EPSILON as int,
    ) {
        FollowModel { target_x: m.cursor_x, target_y: m.cursor_y, is_active: true, ..m }
    } else {
        FollowModel { is_active: true, ..m }
    }
}

/// Crop-boundary policy: the centre takes one smoothing step on every frame.
pub open spec fn glide(m: FollowModel, alpha: int) -> FollowModel {
    FollowModel {
        center_x: smooth(m.center_x, m.target_x, alpha),
        center_y: smooth(m.center_y, m.target_y, alpha),
        ..m
    }
}

/// A session that does not follow: the centre stays in the middle of the
/// initial crop window and no sample is looked at.
pub open spec fn hold(m: FollowModel, cfg: FollowConfig, src_w: int, src_h: int) -> FollowModel {
    FollowModel {
        center_x: window_center(cfg.init_x as int, cfg.out_w as int),
        center_y: window_center(cfg.init_y as int, cfg.out_h as int),
        target_x: window_center(cfg.init_x as int, cfg.out_w as int),
        target_y: window_center(cfg.init_y as int, cfg.out_h as int),
        is_active: false,
        ..observe(m, None, src_w, src_h)
    }
}

/// The state after one frame.
pub open spec fn step_model(
    m: FollowModel,
    cfg: FollowConfig,
    sample: Option<Point>,
    src_w: int,
    src_h: int,
    now_ns: int,
    alpha: int,
) -> FollowModel {
    let moved = if !cfg.follow_enabled {
        hold(m, cfg, src_w, src_h)
    } else {
        match cfg.policy {
            FollowPolicy::Deadzone => advance(
                retarget_deadzone(observe(m, sample, src_w, src_h), m.cursor_x, m.cursor_y, cfg),
                alpha,
            ),
            FollowPolicy::CropBoundary => glide(
                retarget_boundary(observe(m, sample, src_w, src_h), m.cursor_x, m.cursor_y, cfg, src_w, src_h),
                alpha,
            ),
        }
    };
    FollowModel { last_update_ns: now_ns, ..moved }
}

/// The crop window that a centre gives.
pub open spec fn window_of(m: FollowModel, cfg: FollowConfig, src_w: int, src_h: int) -> CropWindow {
    CropWindow {
        x: origin_of(m.center_x, cfg.out_w as int, src_w) as u32,
        y: origin_of(m.center_y, cfg.out_h as int, src_h) as u32,
        width: cfg.out_w,
        height: cfg.out_h,
    }
}

/// The origin of an axis always lies in the frame, wherever the centre is.
pub proof fn lemma_origin_in_frame(center: int, out: int, src: int)
    requires
        0 <= out <= src,
    ensures
        0 <= origin_of(center, out, src) <= src - out,
{
}

/// The smoothing law. One step takes the centre the fraction
/// `alpha / ALPHA_ONE` of the way to the target, short of it by less than one
/// unit. A fraction of 0, the limit of ever shorter intervals, leaves the
/// centre where it is; a fraction of 1, the limit of ever longer ones, puts
/// it on the target; and no fraction takes it past the target.
pub proof fn lemma_smoothing_law(center: int, target: int, alpha: int)
    requires
        0 <= alpha <= ALPHA_ONE,
    ensures
        target >= center ==> {
            &&& center <= smooth(center, target, alpha) <= target
            &&& (target - center) * alpha - ALPHA_ONE < (smooth(center, target, alpha) - center) * ALPHA_ONE <= (target
                - center) * alpha
        },
        target <= center ==> {
            &&& target <= smooth(center, target, alpha) <= center
            &&& (center - target) * alpha - ALPHA_ONE < (center - smooth(center, target, alpha)) * ALPHA_ONE <= (center
                - target) * alpha
        },
        alpha == 0 ==> smooth(center, target, alpha) == center,
        alpha == ALPHA_ONE ==> smooth(center, target, alpha) == target,
{
    let d = if target >= center {
        target - center
    } else {
        center - target
    };
    let q = (d * alpha) / (ALPHA_ONE as int);
    assert(0 <= q <= d && d * alpha - ALPHA_ONE < q * ALPHA_ONE <= d * alpha) by (nonlinear_arith)
        requires
            0 <= d,
            0 <= alpha <= ALPHA_ONE,
            ALPHA_ONE == 1_000_000_000,
            q == (d * alpha) / (ALPHA_ONE as int),
    ;
    assert(alpha == 0 ==> q == 0) by (nonlinear_arith)
        requires
            q == (d * alpha) / (ALPHA_ONE as int),
            ALPHA_ONE == 1_000_000_000,
    ;
    assert(alpha == ALPHA_ONE ==> q == d) by (nonlinear_arith)
        requires
            q == (d * alpha) / (ALPHA_ONE as int),
            ALPHA_ONE == 1_000_000_000,
    ;
}

/// A larger fraction brings the centre at least as near to the target.
pub proof fn lemma_smoothing_monotone(center: int, target: int, alpha: int, beta: int)
    requires
        0 <= alpha <= beta <= ALPHA_ONE,
    ensures
        target >= center ==> smooth(center, target, alpha) <= smooth(center, target, beta),
        target <= center ==> smooth(center, target, alpha) >= smooth(center, target, beta),
{
    let d = if target >= center {
        target - center
    } else {
        center - target
    };
    assert((d * alpha) / (ALPHA_ONE as int) <= (d * beta) / (ALPHA_ONE as int)) by (nonlinear_arith)
        requires
            0 <= d,
            0 <= alpha <= beta,
            ALPHA_ONE == 1_000_000_000,
    ;
    assert(d == 0 ==> d * alpha == 0 && d * beta == 0) by (nonlinear_arith);
}

/// Whether a controller that is not gliding has its target where its
/// centre is: at rest nothing pulls at the centre.
pub open spec fn rests_on_target(m: FollowModel) -> bool {
    !m.is_active ==> m.target_x == m.center_x && m.target_y == m.center_y
}

/// A session starts at rest on its target, and a frame leaves a controller
/// that rested on its target resting on it, whatever the frame brings.
pub proof fn lemma_rest_is_kept(
    m: FollowModel,
    cfg: FollowConfig,
    sample: Option<Point>,
    src_w: int,
    src_h: int,
    now_ns: int,
    alpha: int,
)
    requires
        rests_on_target(m),
    ensures
        rests_on_target(initial_model(cfg, now_ns)),
        rests_on_target(step_model(m, cfg, sample, src_w, src_h, now_ns, alpha)),
{
    assert(0 * alpha == 0) by (nonlinear_arith);
}

/// A glide that does not settle in this frame takes exactly one smoothing
/// step: on both axes the centre moves the same fraction of the way to the
/// target, short of the exact product by less than one unit, the target is
/// the one that was set for this frame, and the glide stays on.
///
/// `r` is the state once the pointer of this frame is taken in. The glide
/// is on in it where it was on before or where the pointer moved, and a
/// pointer that stood still leaves the target as it was.
pub proof fn lemma_glide_goes_on(
    m: FollowModel,
    cfg: FollowConfig,
    sample: Option<Point>,
    src_w: int,
    src_h: int,
    now_ns: int,
    alpha: int,
)
    requires
        cfg.follow_enabled,
        cfg.policy == FollowPolicy::Deadzone,
        0 <= alpha <= ALPHA_ONE,
        retarget_deadzone(observe(m, sample, src_w, src_h), m.cursor_x, m.cursor_y, cfg).is_active,
        !settled(
            smooth(
                m.center_x,
                retarget_deadzone(observe(m, sample, src_w, src_h), m.cursor_x, m.cursor_y, cfg).target_x,
                alpha,
            ),
            smooth(
                m.center_y,
                retarget_deadzone(observe(m, sample, src_w, src_h), m.cursor_x, m.cursor_y, cfg).target_y,
                alpha,
            ),
            retarget_deadzone(observe(m, sample, src_w, src_h), m.cursor_x, m.cursor_y, cfg).target_x,
            retarget_deadzone(observe(m, sample, src_w, src_h), m.cursor_x, m.cursor_y, cfg).target_y,
        ),
    ensures
        ({
            let r = retarget_deadzone(observe(m, sample, src_w, src_h), m.cursor_x, m.cursor_y, cfg);
            let after = step_model(m, cfg, sample, src_w, src_h, now_ns, alpha);
            &&& after.is_active
            &&& after.target_x == r.target_x
            &&& after.target_y == r.target_y
            &&& after.center_x == smooth(m.center_x, r.target_x, alpha)
            &&& after.center_y == smooth(m.center_y, r.target_y, alpha)
            &&& r.target_x >= m.center_x ==> (r.target_x - m.center_x) * alpha - ALPHA_ONE < (after.center_x
                - m.center_x) * ALPHA_ONE <= (r.target_x - m.center_x) * alpha
            &&& r.target_x <= m.center_x ==> (m.center_x - r.target_x) * alpha - ALPHA_ONE < (m.center_x
                - after.center_x) * ALPHA_ONE <= (m.center_x - r.target_x) * alpha
            &&& r.target_y >= m.center_y ==> (r.target_y - m.center_y) * alpha - ALPHA_ONE < (after.center_y
                - m.center_y) * ALPHA_ONE <= (r.target_y - m.center_y) * alpha
            &&& r.target_y <= m.center_y ==> (m.center_y - r.target_y) * alpha - ALPHA_ONE < (m.center_y
                - after.center_y) * ALPHA_ONE <= (m.center_y - r.target_y) * alpha
            &&& !apart(r.cursor_x, m.cursor_x, CURSOR_EPSILON as int) && !apart(
                r.cursor_y,
                m.cursor_y,
                CURSOR_EPSILON as int,
            ) ==> r.target_x == m.target_x && r.target_y == m.target_y
        }),
{
    let r = retarget_deadzone(observe(m, sample, src_w, src_h), m.cursor_x, m.cursor_y, cfg);
    lemma_smoothing_law(m.center_x, r.target_x, alpha);
    lemma_smoothing_law(m.center_y, r.target_y, alpha);
}

/// A pointer strictly inside the deadzone leaves the centre where it is.
///
/// This holds of a controller at rest, and of one whose pointer moved in
/// this frame. It does not hold of a glide that is under way while the
/// pointer stands still: that glide goes on to its target.
pub proof fn lemma_deadzone_keeps_center(
    m: FollowModel,
    cfg: FollowConfig,
    sample: Option<Point>,
    src_w: int,
    src_h: int,
    now_ns: int,
    alpha: int,
)
    requires
        cfg.follow_enabled,
        cfg.policy == FollowPolicy::Deadzone,
        inside_deadzone(
            m.center_x,
            observe(m, sample, src_w, src_h).cursor_x,
            deadzone_half(cfg.out_w as int, cfg.deadzone as int),
        ),
        inside_deadzone(
            m.center_y,
            observe(m, sample, src_w, src_h).cursor_y,
            deadzone_half(cfg.out_h as int, cfg.deadzone as int),
        ),
        !m.is_active || apart(observe(m, sample, src_w, src_h).cursor_x, m.cursor_x, CURSOR_EPSILON as int) || apart(
            observe(m, sample, src_w, src_h).cursor_y,
            m.cursor_y,
            CURSOR_EPSILON as int,
        ),
    ensures
        step_model(m, cfg, sample, src_w, src_h, now_ns, alpha).center_x == m.center_x,
        step_model(m, cfg, sample, src_w, src_h, now_ns, alpha).center_y == m.center_y,
{
    assert(0 * alpha == 0) by (nonlinear_arith);
    assert(deadzone_half(cfg.out_w as int, 0) == 0) by (nonlinear_arith);
}

/// Under the crop-boundary policy, a pointer inside the crop window leaves
/// the centre where it is.
pub proof fn lemma_window_keeps_center(
    m: FollowModel,
    cfg: FollowConfig,
    sample: Option<Point>,
    src_w: int,
    src_h: int,
    now_ns: int,
    alpha: int,
)
    requires
        cfg.follow_enabled,
        cfg.policy == FollowPolicy::CropBoundary,
        inside_window(observe(m, sample, src_w, src_h), cfg, src_w, src_h),
    ensures
        step_model(m, cfg, sample, src_w, src_h, now_ns, alpha).center_x == m.center_x,
        step_model(m, cfg, sample, src_w, src_h, now_ns, alpha).center_y == m.center_y,
{
    assert(0 * alpha == 0) by (nonlinear_arith);
}

fn center_of_window(origin: u32, out: u32) -> (r: i64)
    ensures
        r == window_center(origin as int, out as int),
{
    px_to_units(origin) + (out as i64) * HALF_PX
}

fn half_extent(out: u32, deadzone: u32) -> (r: i128)
    ensures
        r == deadzone_half(out as int, deadzone as int),
        0 <= r <= 0xffff_ffff * 0xffff_ffff * 5,
{
    assert(0 <= (out as int) * (deadzone as int) <= 0xffff_ffff * 0xffff_ffff) by (nonlinear_arith)
        requires
            0 <= out <= 0xffff_ffff,
            0 <= deadzone <= 0xffff_ffff,
    ;
    (out as i128) * (deadzone as i128) * 5
}

fn clamp_to_frame(v: i64, src: u32) -> (r: i64)
    ensures
        r == clamp_cursor(v as int, src as int),
{
    let last: u32 = if src > 0 {
        src - 1
    } else {
        0
    };
    clamp_units(v as i128, 0, px_to_units(last))
}

fn is_apart(a: i64, b: i64, eps: i64) -> (r: bool)
    ensures
        r == apart(a as int, b as int, eps as int),
{
    let d: i128 = a as i128 - b as i128;
    d > eps as i128 || -d > eps as i128
}

fn pull_axis(center: i64, cursor: i64, half: i128) -> (r: i64)
    requires
        0 <= half <= 0xffff_ffff * 0xffff_ffff * 5,
    ensures
        r == pull_to_deadzone(center as int, cursor as int, half as int),
{
    if (cursor as i128) < center as i128 - half {
        (cursor as i128 + half) as i64
    } else if cursor as i128 > center as i128 + half {
        (cursor as i128 - half) as i64
    } else {
        center
    }
}

/// Moves `center` the fraction `alpha / ALPHA_ONE` of the way to `target`.
///
/// With `alpha == 0` the centre stays, with `alpha == ALPHA_ONE` it lands on
/// the target, and in between it never passes the target.
pub fn smooth_toward(center: i64, target: i64, alpha: u64) -> (r: i64)
    requires
        alpha <= ALPHA_ONE,
    ensures
        r == smooth(center as int, target as int, alpha as int),
        alpha == 0 ==> r == center,
        alpha == ALPHA_ONE ==> r == target,
{
    proof {
        lemma_smoothing_law(center as int, target as int, alpha as int);
    }
    if target >= center {
        let d: u128 = (target as i128 - center as i128) as u128;
        assert(d * alpha <= 0xffff_ffff_ffff_ffff * 1_000_000_000) by (nonlinear_arith)
            requires
                0 <= d <= 0xffff_ffff_ffff_ffff,
                0 <= alpha <= 1_000_000_000,
        ;
        let q: u128 = (d * (alpha as u128)) / (ALPHA_ONE as u128);
        (center as i128 + q as i128) as i64
    } else {
        let d: u128 = (center as i128 - target as i128) as u128;
        assert(d * alpha <= 0xffff_ffff_ffff_ffff * 1_000_000_000) by (nonlinear_arith)
            requires
                0 <= d <= 0xffff_ffff_ffff_ffff,
                0 <= alpha <= 1_000_000_000,
        ;
        let q: u128 = (d * (alpha as u128)) / (ALPHA_ONE as u128);
        (center as i128 - q as i128) as i64
    }
}

fn is_settled(center: Point, target: Point) -> (r: bool)
    ensures
        r == settled(center.x as int, center.y as int, target.x as int, target.y as int),
{
    let dx: i128 = target.x as i128 - center.x as i128;
    let dy: i128 = target.y as i128 - center.y as i128;
    let ax: i128 = if dx < 0 {
        -dx
    } else {
        dx
    };
    let ay: i128 = if dy < 0 {
        -dy
    } else {
        dy
    };
    assert(ax * ax == dx * dx && ay * ay == dy * dy) by (nonlinear_arith)
        requires
            ax == dx || ax == -dx,
            ay == dy || ay == -dy,
    ;
    if ax > SETTLE_RADIUS as i128 || ay > SETTLE_RADIUS as i128 {
        assert(ax * ax + ay * ay > SETTLE_RADIUS * SETTLE_RADIUS) by (nonlinear_arith)
            requires
                ax >= 0,
                ay >= 0,
                ax > SETTLE_RADIUS || ay > SETTLE_RADIUS,
                SETTLE_RADIUS == 750_000,
        ;
        false
    } else {
        assert(ax * ax <= 750_000 * 750_000 && ay * ay <= 750_000 * 750_000) by (nonlinear_arith)
            requires
                0 <= ax <= 750_000,
                0 <= ay <= 750_000,
        ;
        ax * ax + ay * ay <= (SETTLE_RADIUS as i128) * (SETTLE_RADIUS as i128)
    }
}

/// The crop origin along one axis, in pixels, for a centre anywhere at all.
pub fn crop_origin(center: i64, out: u32, src: u32) -> (r: u32)
    requires
        out <= src,
    ensures
        r == origin_of(center as int, out as int, src as int),
        r <= src - out,
{
    let half_out: i128 = (out as i128) * 500_000;
    let low: i128 = center as i128 - half_out;
    let kept: i64 = clamp_units(low, 0, px_to_units(src - out));
    ((kept + HALF_PX) / UNITS_PER_PX) as u32
}

impl FollowState {
    /// The state a session starts in.
    pub fn new(cfg: &FollowConfig, now_ns: u64) -> (s: FollowState)
        ensures
            s@ == initial_model(*cfg, now_ns as int),
    {
        let mid = Point { x: center_of_window(cfg.init_x, cfg.out_w), y: center_of_window(cfg.init_y, cfg.out_h) };
        FollowState { center: mid, cursor: mid, target: mid, is_active: false, last_update_ns: now_ns }
    }

    /// The interval since the last update, in nanoseconds, never less than
    /// [`MIN_ELAPSED_NS`].
    pub fn elapsed_ns(&self, now_ns: u64) -> (dt: u64)
        ensures
            dt == elapsed(self.last_update_ns as int, now_ns as int),
    {
        if now_ns > self.last_update_ns && now_ns - self.last_update_ns > MIN_ELAPSED_NS {
            now_ns - self.last_update_ns
        } else {
            MIN_ELAPSED_NS
        }
    }

    /// The exponent `rate * dt` of the frame that arrives at `now_ns`, in
    /// billionths. The caller turns it into the fraction `1 - exp(-rate * dt)`
    /// for [`FollowState::step`].
    pub fn smoothing_exponent(&self, cfg: &FollowConfig, now_ns: u64) -> (x: u64)
        ensures
            x == exponent_of(cfg.smoothing as int, elapsed(self.last_update_ns as int, now_ns as int)),
    {
        let dt: u64 = self.elapsed_ns(now_ns);
        assert(0 <= cfg.smoothing * dt <= 0xffff_ffff * 0xffff_ffff_ffff_ffff) by (nonlinear_arith)
            requires
                0 <= cfg.smoothing <= 0xffff_ffff,
                0 <= dt <= 0xffff_ffff_ffff_ffff,
        ;
        let q: u128 = ((cfg.smoothing as u128) * (dt as u128)) / 1000;
        if q > u64::MAX as u128 {
            u64::MAX
        } else {
            q as u64
        }
    }

    fn retarget_by_deadzone(&mut self, prev: Point, cfg: &FollowConfig)
        ensures
            final(self)@ == retarget_deadzone(old(self)@, prev.x as int, prev.y as int, *cfg),
    {
        if is_apart(self.cursor.x, prev.x, CURSOR_EPSILON) || is_apart(self.cursor.y, prev.y, CURSOR_EPSILON) {
            if cfg.deadzone > 0 {
                let half_w: i128 = half_extent(cfg.out_w, cfg.deadzone);
                let half_h: i128 = half_extent(cfg.out_h, cfg.deadzone);
                self.target = Point {
                    x: pull_axis(self.center.x, self.cursor.x, half_w),
                    y: pull_axis(self.center.y, self.cursor.y, half_h),
                };
            } else {
                self.target = self.cursor;
            }
            self.is_active = true;
        }
    }

    fn advance_glide(&mut self, alpha: u64)
        requires
            alpha <= ALPHA_ONE,
        ensures
            final(self)@ == advance(old(self)@, alpha as int),
    {
        if self.is_active {
            let moved = Point {
                x: smooth_toward(self.center.x, self.target.x, alpha),
                y: smooth_toward(self.center.y, self.target.y, alpha),
            };
            if is_settled(moved, self.target) {
                self.center = self.target;
                self.is_active = false;
            } else {
                self.center = moved;
            }
        }
    }

    fn is_inside_window(&self, cfg: &FollowConfig, src_w: u32, src_h: u32) -> (r: bool)
        requires
            cfg.out_w <= src_w,
            cfg.out_h <= src_h,
        ensures
            r == inside_window(self@, *cfg, src_w as int, src_h as int),
    {
        let low_x: i128 = self.center.x as i128 - (cfg.out_w as i128) * 500_000;
        let low_y: i128 = self.center.y as i128 - (cfg.out_h as i128) * 500_000;
        let left: i64 = clamp_units(low_x, 0, px_to_units(src_w - cfg.out_w));
        let top: i64 = clamp_units(low_y, 0, px_to_units(src_h - cfg.out_h));
        left <= self.cursor.x && self.cursor.x < left + px_to_units(cfg.out_w) && top <= self.cursor.y
            && self.cursor.y < top + px_to_units(cfg.out_h)
    }

    fn retarget_by_boundary(&mut self, prev: Point, cfg: &FollowConfig, src_w: u32, src_h: u32)
        requires
            cfg.out_w <= src_w,
            cfg.out_h <= src_h,
        ensures
            final(self)@ == retarget_boundary(
                old(self)@,
                prev.x as int,
                prev.y as int,
                *cfg,
                src_w as int,
                src_h as int,
            ),
    {
        let was_active: bool = self.is_active;
        if self.is_inside_window(cfg, src_w, src_h) {
            self.target = self.center;
            self.is_active = false;
        } else {
            if !was_active || is_apart(self.cursor.x, prev.x, BOUNDARY_CURSOR_EPSILON) || is_apart(
                self.cursor.y,
                prev.y,
                BOUNDARY_CURSOR_EPSILON,
            ) {
                self.target = self.cursor;
            }
            self.is_active = true;
        }
    }

    /// Processes one frame and returns its crop window.
    ///
    /// `sample` is the pointer reading of this frame, `None` where no source
    /// gave one; `src_w` and `src_h` are the frame's size in pixels; `now_ns`
    /// is the time of the frame; `alpha` is the smoothing fraction for the
    /// interval since the last frame, in parts per [`ALPHA_ONE`].
    ///
    /// A frame smaller than the output window is refused and leaves the state
    /// as it was.
    pub fn step(
        &mut self,
        cfg: &FollowConfig,
        sample: Option<Point>,
        src_w: u32,
        src_h: u32,
        now_ns: u64,
        alpha: u64,
    ) -> (r: Result<CropWindow, FrameError>)
        requires
            alpha <= ALPHA_ONE,
        ensures
            r is Ok <==> cfg.out_w <= src_w && cfg.out_h <= src_h,
            r is Err ==> r == Err::<CropWindow, FrameError>(FrameError::Size) && *final(self) == *old(self),
            r is Ok ==> final(self)@ == step_model(
                old(self)@,
                *cfg,
                sample,
                src_w as int,
                src_h as int,
                now_ns as int,
                alpha as int,
            ),
            r matches Ok(w) ==> {
                &&& w == window_of(final(self)@, *cfg, src_w as int, src_h as int)
                &&& w.x == origin_of(final(self)@.center_x, cfg.out_w as int, src_w as int)
                &&& w.y == origin_of(final(self)@.center_y, cfg.out_h as int, src_h as int)
                &&& w.width == cfg.out_w
                &&& w.height == cfg.out_h
                &&& w.x <= src_w - cfg.out_w
                &&& w.y <= src_h - cfg.out_h
            },
    {
        if src_w < cfg.out_w || src_h < cfg.out_h {
            return Err(FrameError::Size);
        }
        let prev: Point = self.cursor;
        let raw: Point = match sample {
            Some(p) => if cfg.follow_enabled {
                p
            } else {
                prev
            },
            None => prev,
        };
        self.cursor = Point { x: clamp_to_frame(raw.x, src_w), y: clamp_to_frame(raw.y, src_h) };
        if !cfg.follow_enabled {
            let mid = Point { x: center_of_window(cfg.init_x, cfg.out_w), y: center_of_window(cfg.init_y, cfg.out_h) };
            self.center = mid;
            self.target = mid;
            self.is_active = false;
        } else {
            match cfg.policy {
                FollowPolicy::Deadzone => {
                    self.retarget_by_deadzone(prev, cfg);
                    self.advance_glide(alpha);
                },
                FollowPolicy::CropBoundary => {
                    self.retarget_by_boundary(prev, cfg, src_w, src_h);
                    self.center = Point {
                        x: smooth_toward(self.center.x, self.target.x, alpha),
                        y: smooth_toward(self.center.y, self.target.y, alpha),
                    };
                },
            }
        }
        self.last_update_ns = now_ns;
        Ok(
            CropWindow {
                x: crop_origin(self.center.x, cfg.out_w, src_w),
                y: crop_origin(self.center.y, cfg.out_h, src_h),
                width: cfg.out_w,
                height: cfg.out_h,
            },
        )
    }
}

} // verus!
