use vp_link::follow::{FollowConfig, FollowPolicy};
use vp_link::pacer::OutputRate;
use vp_link::probe::{
    follow_config, parse_cli, record_args, record_capture_pipeline, record_deadline_secs, record_output_pipeline,
    record_plan, still_crop, still_crop_args, Cli, RecordPlan, StillCrop,
};
use vp_link::probe::{parse_dimensions, is_picture_ending, latest};

fn args(list: &[&str]) -> Vec<String> {
    list.iter().map(|s| s.to_string()).collect()
}

fn decimals(list: &[String]) -> Vec<Option<i64>> {
    list.iter().map(|s| s.parse::<f64>().ok().map(|v| (v * 1000.0).round() as i64)).collect()
}

fn parse(list: &[&str]) -> Result<Cli, String> {
    let mut all = vec!["vp-test"];
    all.extend_from_slice(list);
    let all = args(&all);
    parse_cli(&all, &decimals(&all))
}

#[test]
fn still_crop_keeps_the_window_inside_the_picture() {
    assert_eq!(
        still_crop(1920, 1080, 200, 100, 1280, 720),
        Some(StillCrop { left: 200, right: 440, top: 100, bottom: 260 })
    );
    assert_eq!(
        still_crop(1920, 1080, 5000, 5000, 1280, 720),
        Some(StillCrop { left: 640, right: 0, top: 360, bottom: 0 })
    );
    assert_eq!(still_crop(1280, 720, 10, 10, 1280, 720), Some(StillCrop { left: 0, right: 0, top: 0, bottom: 0 }));
    assert_eq!(still_crop(1279, 720, 0, 0, 1280, 720), None);
    assert_eq!(still_crop(1280, 719, 0, 0, 1280, 720), None);
}

#[test]
fn record_plan_counts_frames_and_rate() {
    assert_eq!(
        record_plan(5, 10, 0),
        Some(RecordPlan { frames: 50, keep_every: 1, rate: OutputRate { fps: 10, exact: true } })
    );
    assert_eq!(
        record_plan(2, 30, 3),
        Some(RecordPlan { frames: 60, keep_every: 4, rate: OutputRate { fps: 7, exact: false } })
    );
    assert_eq!(record_plan(0, 30, 0), None);
    assert_eq!(record_plan(5, 0, 0), None);
    assert_eq!(record_plan(u32::MAX, 2, 0).unwrap().frames, u32::MAX);
}

#[test]
fn record_deadline_is_length_plus_grace() {
    assert_eq!(record_deadline_secs(50, 10), 25);
    assert_eq!(record_deadline_secs(51, 10), 26);
    assert_eq!(record_deadline_secs(0, 10), 20);
    assert_eq!(record_deadline_secs(u32::MAX, 1), 4_294_967_315);
}

#[test]
fn follow_config_of_a_recording() {
    assert_eq!(
        follow_config(10, 20, 640, 480, 8_000),
        FollowConfig {
            out_w: 640,
            out_h: 480,
            init_x: 10,
            init_y: 20,
            follow_enabled: true,
            policy: FollowPolicy::CropBoundary,
            deadzone: 0,
            smoothing: 8_000,
        }
    );
}

#[test]
fn still_crop_arguments() {
    let crop = StillCrop { left: 200, right: 440, top: 100, bottom: 260 };
    assert_eq!(
        still_crop_args("/tmp/shot.png", "out.png", crop, 1280, 720),
        vec![
            "-q", "filesrc", "location=/tmp/shot.png", "!", "decodebin", "!", "videoconvert", "!", "videocrop",
            "left=200", "right=440", "top=100", "bottom=260", "!", "video/x-raw,width=1280,height=720", "!", "pngenc",
            "!", "filesink", "location=out.png",
        ]
    );
}

#[test]
fn record_arguments() {
    assert_eq!(
        record_args(77, 50, 10, 200, 100, 1280, 720, "vp-record.webm"),
        vec![
            "-e", "-q", "pipewiresrc", "path=77", "num-buffers=50", "do-timestamp=true", "!", "videoconvert", "!",
            "videoscale", "!", "videorate", "drop-only=true", "max-rate=10", "!", "videocrop", "left=200", "right=0",
            "top=100", "bottom=0", "!", "video/x-raw,width=1280,height=720,framerate=10/1", "!", "vp8enc",
            "deadline=1", "cpu-used=8", "end-usage=cbr", "target-bitrate=4000000", "!", "webmmux", "!", "filesink",
            "location=vp-record.webm",
        ]
    );
}

#[test]
fn record_pipelines() {
    assert_eq!(
        record_capture_pipeline(77, 50),
        "pipewiresrc path=77 do-timestamp=true num-buffers=50 ! videoconvert ! video/x-raw,format=RGBA ! appsink name=sink max-buffers=1 drop=true emit-signals=true sync=false"
    );
    assert_eq!(
        record_output_pipeline(1280, 720, 10, "out.webm"),
        "appsrc name=src is-live=true format=time do-timestamp=true block=true caps=video/x-raw,format=RGBA,width=1280,height=720,framerate=10/1 ! videoconvert ! vp8enc deadline=1 cpu-used=8 end-usage=cbr target-bitrate=4000000 ! webmmux ! filesink location=out.webm"
    );
}

#[test]
fn probe_plain_commands() {
    assert!(matches!(parse(&[]), Ok(Cli::Help)));
    assert!(matches!(parse(&["help"]), Ok(Cli::Help)));
    assert!(matches!(parse(&["check"]), Ok(Cli::Check)));
    assert_eq!(parse(&["tray"]).unwrap_err(), "unknown command: tray");
}

#[test]
fn capture_command() {
    assert!(matches!(parse(&["capture"]), Ok(Cli::Capture { timeout_secs: 12 })));
    assert!(matches!(parse(&["capture", "--timeout-secs", "30"]), Ok(Cli::Capture { timeout_secs: 30 })));
    assert!(matches!(
        parse(&["capture", "--timeout-secs", "18446744073709551615"]),
        Ok(Cli::Capture { timeout_secs: u64::MAX })
    ));
    assert_eq!(
        parse(&["capture", "--timeout-secs", "18446744073709551616"]).unwrap_err(),
        "invalid --timeout-secs value: 18446744073709551616"
    );
    assert_eq!(parse(&["capture", "--timeout-secs"]).unwrap_err(), "missing value after --timeout-secs");
    assert_eq!(parse(&["capture", "--x", "1"]).unwrap_err(), "unknown argument: --x");
}

#[test]
fn frame_command() {
    match parse(&["frame"]).unwrap() {
        Cli::Frame(f) => {
            assert_eq!((f.x, f.y, f.width, f.height), (0, 0, 1280, 720));
            assert_eq!(f.out, "vp-frame.png");
        }
        other => panic!("{:?}", other),
    }
    match parse(&["frame", "--x", "1", "--y", "2", "--width", "3", "--height", "4", "--out", "a b.png"]).unwrap() {
        Cli::Frame(f) => {
            assert_eq!((f.x, f.y, f.width, f.height), (1, 2, 3, 4));
            assert_eq!(f.out, "a b.png");
        }
        other => panic!("{:?}", other),
    }
    assert_eq!(parse(&["frame", "--width", "0"]).unwrap_err(), "--width and --height must be > 0");
    assert_eq!(parse(&["frame", "--fps", "5"]).unwrap_err(), "unknown argument: --fps");
    assert_eq!(parse(&["frame", "--follow-mouse"]).unwrap_err(), "unknown argument: --follow-mouse");
    assert_eq!(parse(&["frame", "--timeout-secs", "5"]).unwrap_err(), "unknown argument: --timeout-secs");
}

#[test]
fn record_command() {
    match parse(&["record"]).unwrap() {
        Cli::Record(r) => {
            assert_eq!((r.x, r.y, r.width, r.height), (0, 0, 1280, 720));
            assert_eq!((r.duration_secs, r.fps, r.frame_skip), (5, 10, 0));
            assert_eq!(r.out, "vp-record.webm");
            assert!(!r.follow_mouse);
            assert_eq!(r.sample_interval, 500);
            assert_eq!(r.smoothing, 8_000);
        }
        other => panic!("{:?}", other),
    }
    match parse(&[
        "record", "--x", "1", "--y", "2", "--width", "3", "--height", "4", "--duration-secs", "6", "--fps", "30",
        "--frame-skip", "2", "--out", "r.webm", "--follow-mouse", "--sample-interval", "0.25", "--smoothing", "3.5",
    ])
    .unwrap()
    {
        Cli::Record(r) => {
            assert_eq!((r.x, r.y, r.width, r.height), (1, 2, 3, 4));
            assert_eq!((r.duration_secs, r.fps, r.frame_skip), (6, 30, 2));
            assert_eq!(r.out, "r.webm");
            assert!(r.follow_mouse);
            assert_eq!(r.sample_interval, 250);
            assert_eq!(r.smoothing, 3_500);
        }
        other => panic!("{:?}", other),
    }
}

#[test]
fn record_errors() {
    assert_eq!(parse(&["record", "--height", "0"]).unwrap_err(), "--width and --height must be > 0");
    assert_eq!(parse(&["record", "--duration-secs", "0"]).unwrap_err(), "--duration-secs must be > 0");
    assert_eq!(parse(&["record", "--fps", "0"]).unwrap_err(), "--fps must be > 0");
    assert_eq!(parse(&["record", "--sample-interval", "0"]).unwrap_err(), "--sample-interval must be > 0");
    assert_eq!(parse(&["record", "--sample-interval", "-1"]).unwrap_err(), "--sample-interval must be > 0");
    assert_eq!(parse(&["record", "--smoothing", "0"]).unwrap_err(), "--smoothing must be > 0");
    assert_eq!(parse(&["record", "--smoothing", "k"]).unwrap_err(), "invalid --smoothing value: k");
    assert_eq!(parse(&["record", "--frame-skip", "-1"]).unwrap_err(), "invalid --frame-skip value: -1");
    assert_eq!(parse(&["record", "--out"]).unwrap_err(), "missing value after --out");
    assert_eq!(parse(&["record", "--timeout-secs", "1"]).unwrap_err(), "unknown argument: --timeout-secs");
    // Size, length, rate, interval, smoothing: in this order.
    assert_eq!(
        parse(&["record", "--smoothing", "0", "--sample-interval", "0", "--fps", "0", "--duration-secs", "0"])
            .unwrap_err(),
        "--duration-secs must be > 0"
    );
    assert_eq!(
        parse(&["record", "--smoothing", "0", "--sample-interval", "0"]).unwrap_err(),
        "--sample-interval must be > 0"
    );
}

#[test]
fn dimensions_are_read_from_a_discoverer_report() {
    let report = "Analyzing file:///tmp/shot.png\nDone discovering file:///tmp/shot.png\n\nProperties:\n  Duration: 99:99:99.999999999\n  Seekable: no\n  Live: no\n  container #0: PNG\n    video #1: PNG\n      Stream ID: abc\n      Width: 1920\n      Height: 1080\n      Depth: 32\n      Frame rate: 0/1\n";
    assert_eq!(parse_dimensions(report), Some((1920, 1080)));
}

#[test]
fn dimensions_need_both_numbers() {
    assert_eq!(parse_dimensions(""), None);
    assert_eq!(parse_dimensions("Width: 5"), None);
    assert_eq!(parse_dimensions("Height: 5"), None);
    assert_eq!(parse_dimensions("Width: 5\nHeight: 6"), Some((5, 6)));
    assert_eq!(parse_dimensions("Height: 6\r\nWidth: 5\r\n"), Some((5, 6)));
    assert_eq!(parse_dimensions("Width:5\nHeight:6"), Some((5, 6)));
    assert_eq!(parse_dimensions("\t Width:   5 px \n Height: 6 (approx)"), Some((5, 6)));
}

#[test]
fn a_later_line_replaces_an_earlier_one() {
    assert_eq!(parse_dimensions("Width: 5\nHeight: 6\nWidth: 7"), Some((7, 6)));
    // Also where the later one names no number.
    assert_eq!(parse_dimensions("Width: 5\nHeight: 6\nWidth: wide"), None);
    assert_eq!(parse_dimensions("Width: 5\nHeight: 6\nHeight:"), None);
    assert_eq!(parse_dimensions("Width: 5\nHeight: 6\nHeight: -1"), None);
    assert_eq!(parse_dimensions("Width: 5\nHeight: 4294967296"), None);
    assert_eq!(parse_dimensions("Width: 5\nHeight: 4294967295"), Some((5, u32::MAX)));
}

#[test]
fn labels_are_matched_exactly_at_the_start_of_the_line() {
    assert_eq!(parse_dimensions("width: 5\nHeight: 6"), None);
    assert_eq!(parse_dimensions("Max Width: 5\nHeight: 6"), None);
    assert_eq!(parse_dimensions("Width : 5\nHeight: 6"), None);
    assert_eq!(parse_dimensions("Width: 5\rHeight: 6"), None);
    assert_eq!(parse_dimensions("Width: 5\u{A0}px\nHeight: 6"), None);
}

#[test]
fn picture_endings() {
    for e in ["png", "PNG", "Jpg", "jpeg", "JPEG", "bmp", "webp", "WebP"] {
        assert!(is_picture_ending(e), "{}", e);
    }
    for e in ["", "gif", "pngx", "jp", "tiff", ".png", "png "] {
        assert!(!is_picture_ending(e), "{}", e);
    }
}

#[test]
fn latest_is_the_first_of_the_greatest() {
    assert_eq!(latest(&[]), None);
    assert_eq!(latest(&[0]), Some(0));
    assert_eq!(latest(&[1, 2, 3]), Some(2));
    assert_eq!(latest(&[3, 2, 1]), Some(0));
    assert_eq!(latest(&[1, 3, 3, 2]), Some(1));
    assert_eq!(latest(&[0, 0, 0]), Some(0));
    assert_eq!(latest(&[5, u64::MAX, 7, u64::MAX]), Some(1));
}
