use vp_link::pacer::{output_rate, OutputRate, Pacer, Stamp};

#[test]
fn every_frame_is_kept_without_skipping() {
    let mut p = Pacer::new(60, 0);
    assert_eq!(p.keep_ratio, 1);
    assert_eq!(p.output_fps, 60);
    assert_eq!(p.period(), 16_666_666);
    for n in 0..10u64 {
        assert!(p.can_accept());
        assert_eq!(p.on_frame(), Some(Stamp { pts_ns: n * 16_666_666, duration_ns: 16_666_666 }));
    }
    assert_eq!(p.frames_in, 10);
    assert_eq!(p.frames_out, 10);
}

#[test]
fn one_frame_in_three_is_kept() {
    let mut p = Pacer::new(30, 2);
    assert_eq!(p.keep_ratio, 3);
    assert_eq!(p.output_fps, 10);
    let mut stamps = Vec::new();
    for _ in 0..12 {
        if let Some(s) = p.on_frame() {
            stamps.push(s);
        }
    }
    assert_eq!(stamps.len(), 4);
    for (i, s) in stamps.iter().enumerate() {
        assert_eq!(s.pts_ns, i as u64 * 100_000_000);
        assert_eq!(s.duration_ns, 100_000_000);
    }
    assert_eq!(p.frames_in, 12);
    assert_eq!(p.frames_out, 4);
}

#[test]
fn kept_frames_are_the_first_of_each_run() {
    let mut p = Pacer::new(30, 2);
    let kept: Vec<bool> = (0..7).map(|_| p.on_frame().is_some()).collect();
    assert_eq!(kept, vec![true, false, false, true, false, false, true]);
}

#[test]
fn count_of_kept_frames_rounds_up() {
    for k in 1..6u32 {
        for n in 0..25u64 {
            let mut p = Pacer::new(60, k - 1);
            let mut kept = 0u64;
            for _ in 0..n {
                if p.on_frame().is_some() {
                    kept += 1;
                }
            }
            assert_eq!(kept, (n + k as u64 - 1) / k as u64);
            if n % k as u64 == 0 {
                assert_eq!(kept, n / k as u64);
            }
            assert_eq!(p.frames_out, kept);
        }
    }
}

#[test]
fn timestamps_rise_strictly_without_gaps() {
    let mut p = Pacer::new(25, 4);
    assert_eq!(p.output_fps, 5);
    let mut last: Option<Stamp> = None;
    for _ in 0..50 {
        if let Some(s) = p.on_frame() {
            if let Some(l) = last {
                assert_eq!(s.pts_ns, l.pts_ns + l.duration_ns);
            } else {
                assert_eq!(s.pts_ns, 0);
            }
            last = Some(s);
        }
    }
}

#[test]
fn output_rate_is_the_source_rate_over_the_keep_ratio() {
    assert_eq!(output_rate(60, 0), OutputRate { fps: 60, exact: true });
    assert_eq!(output_rate(60, 1), OutputRate { fps: 30, exact: true });
    assert_eq!(output_rate(10, 2), OutputRate { fps: 3, exact: false });
    assert_eq!(output_rate(10, 3), OutputRate { fps: 2, exact: false });
}

#[test]
fn output_rate_is_at_least_one() {
    assert_eq!(output_rate(10, 10), OutputRate { fps: 1, exact: false });
    assert_eq!(output_rate(10, 9), OutputRate { fps: 1, exact: true });
    assert_eq!(output_rate(0, 0), OutputRate { fps: 1, exact: true });
    assert_eq!(output_rate(5, u32::MAX), OutputRate { fps: 1, exact: false });
    assert_eq!(output_rate(u32::MAX, 0), OutputRate { fps: u32::MAX, exact: true });
}

#[test]
fn keep_ratio_does_not_wrap() {
    let p = Pacer::new(1, u32::MAX);
    assert_eq!(p.keep_ratio, 4_294_967_296);
}

#[test]
fn period_rounds_down() {
    assert_eq!(Pacer::new(1, 0).period(), 1_000_000_000);
    assert_eq!(Pacer::new(3, 0).period(), 333_333_333);
    assert_eq!(Pacer::new(u32::MAX, 0).period(), 0);
}

#[test]
fn pacer_refuses_when_counters_are_full() {
    let mut p = Pacer::new(1, 0);
    assert!(p.can_accept());
    p.frames_in = u64::MAX;
    assert!(!p.can_accept());
    // The timeline ends where a stamp would leave the range of u64.
    let full = Pacer { keep_ratio: 1, output_fps: 1, frames_in: 18_446_744_074, frames_out: 18_446_744_074 };
    assert!(!full.can_accept());
    let last = Pacer { keep_ratio: 1, output_fps: 1, frames_in: 18_446_744_073, frames_out: 18_446_744_073 };
    assert!(last.can_accept());
    // A frame that is dropped needs no stamp.
    let dropping = Pacer { keep_ratio: 2, output_fps: 1, frames_in: 36_893_488_149, frames_out: 18_446_744_075 };
    assert!(dropping.can_accept());
}
