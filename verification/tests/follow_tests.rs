use vp_link::error::FrameError;
use vp_link::follow::{
    crop_origin, smooth_toward, CropWindow, FollowConfig, FollowPolicy, FollowState, ALPHA_ONE,
    MIN_ELAPSED_NS,
};
use vp_link::units::{px_to_units, Point, UNITS_PER_PX};

fn px(n: i64) -> i64 {
    n * UNITS_PER_PX
}

fn config(deadzone: u32) -> FollowConfig {
    FollowConfig {
        out_w: 1280,
        out_h: 720,
        init_x: 320,
        init_y: 180,
        follow_enabled: true,
        policy: FollowPolicy::Deadzone,
        deadzone,
        smoothing: 8_000,
    }
}

fn alpha_for(exponent_nano: u64) -> u64 {
    let x = exponent_nano as f64 / 1e9;
    let alpha = 1.0 - (-x).exp();
    (alpha * ALPHA_ONE as f64).round() as u64
}

#[test]
fn new_state_sits_in_the_middle_of_the_initial_window() {
    let st = FollowState::new(&config(20_000), 7);
    let mid = Point { x: px(960), y: px(540) };
    assert_eq!(st.center, mid);
    assert_eq!(st.cursor, mid);
    assert_eq!(st.target, mid);
    assert!(!st.is_active);
    assert_eq!(st.last_update_ns, 7);
}

#[test]
fn odd_output_size_gives_half_pixel_center() {
    let cfg = FollowConfig { out_w: 3, out_h: 5, init_x: 10, init_y: 20, ..config(0) };
    let st = FollowState::new(&cfg, 0);
    assert_eq!(st.center, Point { x: 11_500_000, y: 22_500_000 });
}

#[test]
fn cursor_inside_deadzone_leaves_center_unchanged() {
    let cfg = config(20_000);
    let mut st = FollowState::new(&cfg, 0);
    // Half extents are 128 by 72 pixels; this is inside on both axes.
    let sample = Some(Point { x: px(960 + 127), y: px(540 - 71) });
    let w = st.step(&cfg, sample, 1920, 1080, 100_000_000, 550_671_036).unwrap();
    assert_eq!(st.center, Point { x: px(960), y: px(540) });
    assert_eq!(st.cursor, Point { x: px(1087), y: px(469) });
    assert_eq!(st.target, st.center);
    assert!(!st.is_active);
    assert_eq!(w, CropWindow { x: 320, y: 180, width: 1280, height: 720 });
}

#[test]
fn cursor_on_deadzone_edge_is_not_outside() {
    let cfg = config(20_000);
    let mut st = FollowState::new(&cfg, 0);
    let sample = Some(Point { x: px(960 + 128), y: px(540) });
    st.step(&cfg, sample, 1920, 1080, 1, ALPHA_ONE).unwrap();
    assert_eq!(st.center, Point { x: px(960), y: px(540) });
    assert!(!st.is_active);
}

#[test]
fn cursor_just_outside_deadzone_pulls_target_by_the_excess() {
    let cfg = config(20_000);
    let mut st = FollowState::new(&cfg, 0);
    let sample = Some(Point { x: px(960 + 130), y: px(540 - 80) });
    st.step(&cfg, sample, 1920, 1080, 1, 0).unwrap();
    assert_eq!(st.target, Point { x: px(962), y: px(532) });
    assert!(st.is_active);
    // A fraction of 0 does not move the centre.
    assert_eq!(st.center, Point { x: px(960), y: px(540) });
}

#[test]
fn jump_to_top_right_converges_to_right_clamped_origin() {
    let cfg = config(20_000);
    let mut st = FollowState::new(&cfg, 0);
    assert_eq!(st.center, Point { x: px(960), y: px(540) });
    let sample = Some(Point { x: px(1850), y: px(100) });
    let w = st.step(&cfg, sample, 1920, 1080, 1_000_000_000, ALPHA_ONE).unwrap();
    assert_eq!(st.target.x, px(1722));
    assert_eq!(st.target.y, px(172));
    assert_eq!(st.center, st.target);
    assert!(!st.is_active);
    assert_eq!(w.x, 640);
    assert_eq!(w.y, 0);
    assert_eq!(w.width, 1280);
    assert_eq!(w.height, 720);
}

#[test]
fn zero_deadzone_targets_the_cursor_itself() {
    let cfg = config(0);
    let mut st = FollowState::new(&cfg, 0);
    let sample = Some(Point { x: px(1000), y: px(500) });
    st.step(&cfg, sample, 1920, 1080, 1, 0).unwrap();
    assert_eq!(st.target, Point { x: px(1000), y: px(500) });
    assert!(st.is_active);
}

#[test]
fn stationary_cursor_does_not_retarget() {
    let cfg = config(0);
    let mut st = FollowState::new(&cfg, 0);
    // A quarter pixel is not yet a move.
    let sample = Some(Point { x: px(960) + 250_000, y: px(540) - 250_000 });
    st.step(&cfg, sample, 1920, 1080, 1, ALPHA_ONE).unwrap();
    assert_eq!(st.target, Point { x: px(960), y: px(540) });
    assert_eq!(st.center, Point { x: px(960), y: px(540) });
    assert!(!st.is_active);
    // One unit more is, measured from the position of the frame before.
    let sample = Some(Point { x: px(960) + 500_001, y: px(540) - 250_000 });
    st.step(&cfg, sample, 1920, 1080, 2, 0).unwrap();
    assert_eq!(st.target, Point { x: px(960) + 500_001, y: px(540) - 250_000 });
    // The target is within the settle radius, so the centre lands on it at once.
    assert_eq!(st.center, st.target);
    assert!(!st.is_active);
}

#[test]
fn single_step_moves_the_exponential_share_of_the_distance() {
    let cfg = config(0);
    let mut st = FollowState::new(&cfg, 0);
    let exponent = st.smoothing_exponent(&cfg, 100_000_000);
    assert_eq!(exponent, 800_000_000);
    let alpha = alpha_for(exponent);
    assert!((alpha as f64 / 1e9 - 0.550_671_035_882_778).abs() < 1e-9);
    let sample = Some(Point { x: px(1460), y: px(540) });
    st.step(&cfg, sample, 1920, 1080, 100_000_000, alpha).unwrap();
    let moved = (st.center.x - px(960)) as f64;
    let distance = (px(1460) - px(960)) as f64;
    let expected = 1.0 - (-0.8f64).exp();
    assert!((moved / distance - expected).abs() < 1e-6);
    assert!((moved / distance - 0.5507).abs() < 1e-4);
    assert_eq!(st.center.y, px(540));
    assert!(st.is_active);
    assert_eq!(st.last_update_ns, 100_000_000);
}

#[test]
fn smooth_toward_exact_values() {
    assert_eq!(smooth_toward(0, 1_000_000_000, 550_671_036), 550_671_036);
    assert_eq!(smooth_toward(0, -1_000_000_000, 550_671_036), -550_671_036);
    assert_eq!(smooth_toward(100, 200, 500_000_000), 150);
    // Rounds towards the centre, from either side.
    assert_eq!(smooth_toward(0, 3, 500_000_000), 1);
    assert_eq!(smooth_toward(0, -3, 500_000_000), -1);
    assert_eq!(smooth_toward(10, 10, 123), 10);
}

#[test]
fn smooth_toward_limits() {
    for &(c, t) in &[(0i64, 1i64), (5, -7), (i64::MIN, i64::MAX), (i64::MAX, i64::MIN), (3, 3)] {
        assert_eq!(smooth_toward(c, t, 0), c);
        assert_eq!(smooth_toward(c, t, ALPHA_ONE), t);
    }
}

#[test]
fn smooth_toward_is_monotone_in_the_fraction() {
    let mut last = 0i64;
    let mut alpha = 0u64;
    while alpha <= ALPHA_ONE {
        let r = smooth_toward(0, 987_654_321, alpha);
        assert!(r >= last);
        assert!(r <= 987_654_321);
        last = r;
        alpha += 50_000_000;
    }
}

#[test]
fn glide_settles_within_three_quarters_of_a_pixel() {
    let cfg = config(0);
    let mut st = FollowState::new(&cfg, 0);
    // Target one pixel away; half the way leaves half a pixel: settled.
    let sample = Some(Point { x: px(961), y: px(540) });
    st.step(&cfg, sample, 1920, 1080, 1, 500_000_000).unwrap();
    assert_eq!(st.center, Point { x: px(961), y: px(540) });
    assert!(!st.is_active);
}

#[test]
fn glide_goes_on_outside_the_settle_radius() {
    let cfg = config(0);
    let mut st = FollowState::new(&cfg, 0);
    // Target 2 px away; half the way leaves a pixel: not settled.
    let sample = Some(Point { x: px(962), y: px(540) });
    st.step(&cfg, sample, 1920, 1080, 1, 500_000_000).unwrap();
    assert_eq!(st.center, Point { x: px(961), y: px(540) });
    assert!(st.is_active);
    // Pointer stands still; the glide continues and then settles.
    st.step(&cfg, None, 1920, 1080, 2, 500_000_000).unwrap();
    assert_eq!(st.center, Point { x: px(962), y: px(540) });
    assert!(!st.is_active);
}

#[test]
fn settle_radius_is_measured_across_both_axes() {
    let cfg = config(0);
    let mut st = FollowState::new(&cfg, 0);
    // Remaining distance 0.6 px on each axis: 0.72 > 0.5625 squared, not settled.
    let sample = Some(Point { x: px(960) + 1_200_000, y: px(540) + 1_200_000 });
    st.step(&cfg, sample, 1920, 1080, 1, 500_000_000).unwrap();
    assert!(st.is_active);
    assert_eq!(st.center, Point { x: px(960) + 600_000, y: px(540) + 600_000 });
}

#[test]
fn missing_sample_freezes_the_cursor() {
    let cfg = config(20_000);
    let mut st = FollowState::new(&cfg, 0);
    let before = st;
    st.step(&cfg, None, 1920, 1080, 5, ALPHA_ONE).unwrap();
    assert_eq!(st.cursor, before.cursor);
    assert_eq!(st.center, before.center);
    assert_eq!(st.last_update_ns, 5);
}

#[test]
fn cursor_is_clamped_to_the_frame() {
    let cfg = config(0);
    let mut st = FollowState::new(&cfg, 0);
    st.step(&cfg, Some(Point { x: i64::MAX, y: i64::MIN }), 1920, 1080, 1, 0).unwrap();
    assert_eq!(st.cursor, Point { x: px(1919), y: 0 });
}

#[test]
fn frame_smaller_than_output_is_a_size_error() {
    let cfg = config(0);
    let mut st = FollowState::new(&cfg, 0);
    let before = st;
    assert_eq!(st.step(&cfg, Some(Point { x: 0, y: 0 }), 1279, 1080, 9, ALPHA_ONE), Err(FrameError::Size));
    assert_eq!(st, before);
    assert_eq!(st.step(&cfg, None, 1280, 719, 9, ALPHA_ONE), Err(FrameError::Size));
    assert_eq!(st, before);
    assert!(st.step(&cfg, None, 1280, 720, 9, ALPHA_ONE).is_ok());
}

#[test]
fn follow_disabled_holds_the_initial_window() {
    let cfg = FollowConfig { follow_enabled: false, ..config(0) };
    let mut st = FollowState::new(&cfg, 0);
    st.center = Point { x: 5, y: 6 };
    st.is_active = true;
    let w = st.step(&cfg, Some(Point { x: px(10), y: px(10) }), 1920, 1080, 3, ALPHA_ONE).unwrap();
    assert_eq!(st.center, Point { x: px(960), y: px(540) });
    assert_eq!(st.target, st.center);
    assert_eq!(st.cursor, Point { x: px(960), y: px(540) });
    assert!(!st.is_active);
    assert_eq!(w, CropWindow { x: 320, y: 180, width: 1280, height: 720 });
}

#[test]
fn crop_origin_stays_in_the_frame_for_any_center() {
    let centers = [i64::MIN, -1, 0, 1, px(640), px(960), px(1280), px(5000), i64::MAX];
    for &c in &centers {
        let x = crop_origin(c, 1280, 1920);
        assert!(x <= 640);
        let y = crop_origin(c, 720, 1080);
        assert!(y <= 360);
        assert_eq!(crop_origin(c, 1920, 1920), 0);
    }
    assert_eq!(crop_origin(i64::MIN, 1280, 1920), 0);
    assert_eq!(crop_origin(i64::MAX, 1280, 1920), 640);
}

#[test]
fn crop_origin_rounds_to_the_nearest_pixel() {
    assert_eq!(crop_origin(px(960), 1280, 1920), 320);
    assert_eq!(crop_origin(px(960) + 499_999, 1280, 1920), 320);
    assert_eq!(crop_origin(px(960) + 500_000, 1280, 1920), 321);
    assert_eq!(crop_origin(px(1722), 1280, 1920), 640);
    assert_eq!(crop_origin(px_to_units(100), 1280, 1920), 0);
}

#[test]
fn elapsed_time_has_a_floor() {
    let cfg = config(0);
    let st = FollowState::new(&cfg, 1_000_000);
    assert_eq!(st.elapsed_ns(1_000_000), MIN_ELAPSED_NS);
    assert_eq!(st.elapsed_ns(999_999), MIN_ELAPSED_NS);
    assert_eq!(st.elapsed_ns(1_001_000), 1_000);
    assert_eq!(st.elapsed_ns(1_001_001), 1_001);
    assert_eq!(st.elapsed_ns(2_000_000), 1_000_000);
}

#[test]
fn smoothing_exponent_is_rate_times_interval() {
    let cfg = config(0);
    let st = FollowState::new(&cfg, 0);
    // 8 per second over 16.666667 ms.
    assert_eq!(st.smoothing_exponent(&cfg, 16_666_667), 133_333_336);
    // The floor of a microsecond.
    assert_eq!(st.smoothing_exponent(&cfg, 0), 8_000);
    let fast = FollowConfig { smoothing: u32::MAX, ..cfg };
    assert_eq!(st.smoothing_exponent(&fast, u64::MAX), u64::MAX);
}

#[test]
fn deadzone_larger_than_the_window_follows_the_same_rule() {
    let cfg = config(200_000);
    let mut st = FollowState::new(&cfg, 0);
    // Half extents are 1280 by 720 pixels: nothing in the frame is outside.
    st.step(&cfg, Some(Point { x: px(1919), y: 0 }), 1920, 1080, 1, ALPHA_ONE).unwrap();
    assert_eq!(st.center, Point { x: px(960), y: px(540) });
    let huge = config(u32::MAX);
    let mut st = FollowState::new(&huge, 0);
    st.step(&huge, Some(Point { x: px(1919), y: 0 }), 1920, 1080, 1, ALPHA_ONE).unwrap();
    assert_eq!(st.center, Point { x: px(960), y: px(540) });
}

#[test]
fn full_deadzone_spans_the_output_window() {
    let cfg = config(100_000);
    let mut st = FollowState::new(&cfg, 0);
    // Half extents are 640 by 360 pixels.
    st.step(&cfg, Some(Point { x: px(1700), y: px(100) }), 1920, 1080, 1, 0).unwrap();
    assert_eq!(st.target, Point { x: px(1060), y: px(460) });
}

fn boundary_config() -> FollowConfig {
    FollowConfig { policy: FollowPolicy::CropBoundary, ..config(0) }
}

#[test]
fn boundary_policy_ignores_cursor_inside_the_window() {
    let cfg = boundary_config();
    let mut st = FollowState::new(&cfg, 0);
    // Window is 320..1600 by 180..900.
    st.step(&cfg, Some(Point { x: px(1599), y: px(181) }), 1920, 1080, 1, ALPHA_ONE).unwrap();
    assert_eq!(st.center, Point { x: px(960), y: px(540) });
    assert!(!st.is_active);
    assert_eq!(st.target, st.center);
}

#[test]
fn boundary_policy_follows_cursor_outside_the_window() {
    let cfg = boundary_config();
    let mut st = FollowState::new(&cfg, 0);
    // The right edge itself is outside.
    let w = st.step(&cfg, Some(Point { x: px(1600), y: px(540) }), 1920, 1080, 1, 500_000_000).unwrap();
    assert!(st.is_active);
    assert_eq!(st.target, Point { x: px(1600), y: px(540) });
    assert_eq!(st.center, Point { x: px(1280), y: px(540) });
    assert_eq!(w.x, 640);
    // Now the cursor is inside the new window: following stops, no snap.
    st.step(&cfg, None, 1920, 1080, 2, 500_000_000).unwrap();
    assert!(!st.is_active);
    assert_eq!(st.center, Point { x: px(1280), y: px(540) });
    assert_eq!(st.target, st.center);
}

#[test]
fn boundary_policy_keeps_target_while_cursor_stands_outside() {
    let cfg = boundary_config();
    let mut st = FollowState::new(&cfg, 0);
    st.step(&cfg, Some(Point { x: px(1919), y: px(540) }), 1920, 1080, 1, 0).unwrap();
    assert_eq!(st.target, Point { x: px(1919), y: px(540) });
    // A move of less than a thousandth of a pixel is no move.
    st.target = Point { x: px(1900), y: px(540) };
    st.step(&cfg, Some(Point { x: px(1919) - 1_000, y: px(540) }), 1920, 1080, 2, 0).unwrap();
    assert_eq!(st.target, Point { x: px(1900), y: px(540) });
    st.step(&cfg, Some(Point { x: px(1919) - 2_001, y: px(540) }), 1920, 1080, 3, 0).unwrap();
    assert_eq!(st.target, Point { x: px(1919) - 2_001, y: px(540) });
}
