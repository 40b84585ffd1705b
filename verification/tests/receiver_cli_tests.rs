use vp_link::receiver::{launch, parse_cli, receive_pipeline, Cli, ReceiverConfig};

fn args(list: &[&str]) -> Vec<String> {
    list.iter().map(|s| s.to_string()).collect()
}

fn receive(list: &[&str]) -> Result<ReceiverConfig, String> {
    let mut all = vec!["vp-rcvr", "receive"];
    all.extend_from_slice(list);
    match parse_cli(&args(&all)) {
        Ok(Cli::Receive(cfg)) => Ok(cfg),
        Ok(other) => panic!("not a receive command: {:?}", other),
        Err(e) => Err(e),
    }
}

#[test]
fn no_command_asks_for_help() {
    assert!(matches!(parse_cli(&args(&[])), Ok(Cli::Help)));
    assert!(matches!(parse_cli(&args(&["vp-rcvr"])), Ok(Cli::Help)));
    for h in ["-h", "--help", "help"] {
        assert!(matches!(parse_cli(&args(&["vp-rcvr", h])), Ok(Cli::Help)));
        assert!(matches!(parse_cli(&args(&["vp-rcvr", h, "--bogus"])), Ok(Cli::Help)));
    }
}

#[test]
fn plain_commands() {
    assert!(matches!(parse_cli(&args(&["vp-rcvr", "tray"])), Ok(Cli::Tray)));
    assert!(matches!(parse_cli(&args(&["vp-rcvr", "config"])), Ok(Cli::ConfigPath)));
    assert!(matches!(parse_cli(&args(&["vp-rcvr", "run-saved"])), Ok(Cli::RunSaved)));
}

#[test]
fn unknown_command_is_refused() {
    assert_eq!(parse_cli(&args(&["vp-rcvr", "send"])).unwrap_err(), "unknown command: send");
    assert_eq!(parse_cli(&args(&["vp-rcvr", ""])).unwrap_err(), "unknown command: ");
}

#[test]
fn receive_without_options_uses_defaults() {
    let cfg = receive(&[]).unwrap();
    assert_eq!(cfg.codec, "h265");
    assert_eq!(cfg.bind_ip, "0.0.0.0");
    assert_eq!(cfg.port, 5000);
    assert_eq!(cfg.payload, 96);
    assert_eq!(cfg.clock_rate, 90_000);
    assert_eq!(cfg.latency_ms, 25);
    assert!(!cfg.no_preview);
    assert_eq!(cfg.v4l2_device, None);
    assert_eq!(cfg.v4l2_width, None);
    assert_eq!(cfg.v4l2_height, None);
    assert_eq!(cfg.v4l2_fps, None);
}

#[test]
fn receive_with_every_option() {
    let cfg = receive(&[
        "--codec", "H264", "--bind-ip", "10.0.0.1", "--port", "6000", "--payload", "97", "--clock-rate", "48000",
        "--latency-ms", "40", "--no-preview", "--v4l2-device", "/dev/video10", "--v4l2-width", "1280",
        "--v4l2-height", "720", "--v4l2-fps", "60",
    ])
    .unwrap();
    assert_eq!(cfg.codec, "h264");
    assert_eq!(cfg.bind_ip, "10.0.0.1");
    assert_eq!(cfg.port, 6000);
    assert_eq!(cfg.payload, 97);
    assert_eq!(cfg.clock_rate, 48_000);
    assert_eq!(cfg.latency_ms, 40);
    assert!(cfg.no_preview);
    assert_eq!(cfg.v4l2_device.as_deref(), Some("/dev/video10"));
    assert_eq!(cfg.v4l2_width, Some(1280));
    assert_eq!(cfg.v4l2_height, Some(720));
    assert_eq!(cfg.v4l2_fps, Some(60));
}

#[test]
fn later_option_overrides_earlier() {
    let cfg = receive(&["--port", "1", "--port", "2"]).unwrap();
    assert_eq!(cfg.port, 2);
}

#[test]
fn receive_errors() {
    assert_eq!(receive(&["--port"]).unwrap_err(), "missing value after --port");
    assert_eq!(receive(&["--bind-ip"]).unwrap_err(), "missing value after --bind-ip");
    assert_eq!(receive(&["--port", "70000"]).unwrap_err(), "invalid --port value: 70000");
    assert_eq!(receive(&["--port", "-1"]).unwrap_err(), "invalid --port value: -1");
    assert_eq!(receive(&["--payload", "256"]).unwrap_err(), "invalid --payload value: 256");
    assert_eq!(receive(&["--clock-rate", "x"]).unwrap_err(), "invalid --clock-rate value: x");
    assert_eq!(receive(&["--latency-ms", ""]).unwrap_err(), "invalid --latency-ms value: ");
    assert_eq!(
        receive(&["--codec", "vp9"]).unwrap_err(),
        "invalid --codec value: vp9 (expected h264 or h265)"
    );
    assert_eq!(receive(&["--v4l2-width", "0"]).unwrap_err(), "--v4l2-width must be > 0");
    assert_eq!(receive(&["--v4l2-height", "0"]).unwrap_err(), "--v4l2-height must be > 0");
    assert_eq!(receive(&["--v4l2-fps", "0"]).unwrap_err(), "--v4l2-fps must be > 0");
    assert_eq!(receive(&["--v4l2-fps", "abc"]).unwrap_err(), "invalid --v4l2-fps value: abc");
    assert_eq!(receive(&["--bogus"]).unwrap_err(), "unknown argument: --bogus");
    assert_eq!(receive(&["--follow-mouse"]).unwrap_err(), "unknown argument: --follow-mouse");
    assert_eq!(
        receive(&["--no-preview"]).unwrap_err(),
        "nothing to do: provide preview or --v4l2-device when using --no-preview"
    );
}

#[test]
fn first_error_from_the_left_is_reported() {
    assert_eq!(receive(&["--port", "abc", "--bogus"]).unwrap_err(), "invalid --port value: abc");
    assert_eq!(receive(&["--bogus", "--port", "abc"]).unwrap_err(), "unknown argument: --bogus");
    // A value is taken as it stands, whatever it looks like.
    assert_eq!(receive(&["--bind-ip", "--port"]).unwrap().bind_ip, "--port");
}

#[test]
fn pipeline_for_default_settings() {
    let text = receive_pipeline(&ReceiverConfig::default()).unwrap();
    assert_eq!(
        text,
        "udpsrc address=0.0.0.0 port=5000 caps=\"application/x-rtp,media=video,encoding-name=H265,payload=96,clock-rate=90000\" ! \
         queue ! rtpjitterbuffer latency=25 drop-on-latency=true ! \
         rtph265depay ! h265parse ! avdec_h265 output-corrupt=false discard-corrupted-frames=true ! tee name=t \
         t. ! queue ! videoconvert ! fpsdisplaysink text-overlay=false video-sink=autovideosink sync=false"
    );
}

#[test]
fn pipeline_with_device_and_no_preview() {
    let cfg = receive(&[
        "--codec", "h264", "--port", "5004", "--no-preview", "--v4l2-device", "/dev/video10", "--v4l2-width", "1280",
        "--v4l2-height", "720", "--v4l2-fps", "60",
    ])
    .unwrap();
    assert_eq!(
        receive_pipeline(&cfg).unwrap(),
        "udpsrc address=0.0.0.0 port=5004 caps=\"application/x-rtp,media=video,encoding-name=H264,payload=96,clock-rate=90000\" ! \
         queue ! rtpjitterbuffer latency=25 drop-on-latency=true ! \
         rtph264depay ! h264parse ! decodebin ! tee name=t \
         t. ! queue ! videoconvert ! video/x-raw,format=I420,width=1280,height=720,framerate=60/1 ! v4l2sink device=/dev/video10 sync=false"
    );
}

#[test]
fn pipeline_with_preview_and_bare_device() {
    let cfg = receive(&["--v4l2-device", "/dev/video3", "--v4l2-height", "480"]).unwrap();
    let text = receive_pipeline(&cfg).unwrap();
    assert!(text.ends_with(
        " ! tee name=t t. ! queue ! videoconvert ! fpsdisplaysink text-overlay=false video-sink=autovideosink sync=false \
         t. ! queue ! videoconvert ! video/x-raw,format=I420,height=480 ! v4l2sink device=/dev/video3 sync=false"
    ));
}

#[test]
fn pipeline_refuses_unknown_codec() {
    let cfg = ReceiverConfig { codec: "vp9".to_string(), ..ReceiverConfig::default() };
    assert_eq!(receive_pipeline(&cfg).unwrap_err(), "unsupported codec 'vp9'");
    // Saved settings are not folded: only the exact names are known.
    let cfg = ReceiverConfig { codec: "H264".to_string(), ..ReceiverConfig::default() };
    assert_eq!(receive_pipeline(&cfg).unwrap_err(), "unsupported codec 'H264'");
}

#[test]
fn launch_wraps_the_pipeline_in_a_shell_command() {
    let cmd = launch("fakesrc ! fakesink");
    assert_eq!(cmd.program, "bash");
    assert_eq!(cmd.args, vec!["-lc", "gst-launch-1.0 -e -v fakesrc ! fakesink"]);
}
