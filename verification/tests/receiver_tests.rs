use vp_link::receiver::{cfg_from_receive, tray_start, tray_stop, ReceiverConfig};
use vp_link::service::{service_action, service_is_active};

#[test]
fn default_receiver_config() {
    let cfg = ReceiverConfig::default();
    assert_eq!(cfg.codec, "h265");
    assert_eq!(cfg.bind_ip, "0.0.0.0");
    assert_eq!(cfg.port, 5000);
    assert_eq!(cfg.payload, 96);
    assert_eq!(cfg.clock_rate, 90_000);
    assert_eq!(cfg.latency_ms, 25);
    assert!(!cfg.no_preview);
    assert_eq!(cfg.v4l2_device, None);
    assert_eq!(cfg.v4l2_width, None);
    assert_eq!(cfg.v4l2_height, None);
    assert_eq!(cfg.v4l2_fps, None);
}

#[test]
fn cfg_from_receive_keeps_every_value() {
    let cfg = cfg_from_receive(
        "h264",
        "192.168.1.2",
        6000,
        97,
        48_000,
        40,
        true,
        Some("/dev/video10"),
        Some(1280),
        None,
        Some(60),
    );
    assert_eq!(cfg.codec, "h264");
    assert_eq!(cfg.bind_ip, "192.168.1.2");
    assert_eq!(cfg.port, 6000);
    assert_eq!(cfg.payload, 97);
    assert_eq!(cfg.clock_rate, 48_000);
    assert_eq!(cfg.latency_ms, 40);
    assert!(cfg.no_preview);
    assert_eq!(cfg.v4l2_device.as_deref(), Some("/dev/video10"));
    assert_eq!(cfg.v4l2_width, Some(1280));
    assert_eq!(cfg.v4l2_height, None);
    assert_eq!(cfg.v4l2_fps, Some(60));
}

#[test]
fn cfg_from_receive_without_device() {
    let cfg = cfg_from_receive("h265", "0.0.0.0", 5000, 96, 90_000, 25, false, None, None, None, None);
    assert_eq!(cfg.v4l2_device, None);
}

#[test]
fn tray_start_and_stop_name_the_receiver_service() {
    let start = tray_start();
    assert_eq!(start.program, "systemctl");
    assert_eq!(start.args, vec!["--user", "start", "vp-rcvr.service"]);
    let stop = tray_stop();
    assert_eq!(stop.program, "systemctl");
    assert_eq!(stop.args, vec!["--user", "stop", "vp-rcvr.service"]);
}

#[test]
fn service_commands() {
    let cmd = service_action("unit.service", "restart");
    assert_eq!(cmd.program, "systemctl");
    assert_eq!(cmd.args, vec!["--user", "restart", "unit.service"]);
    let query = service_is_active("unit.service");
    assert_eq!(query.program, "systemctl");
    assert_eq!(query.args, vec!["--user", "is-active", "--quiet", "unit.service"]);
}
