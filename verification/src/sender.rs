//! The sending side: its settings, the stages of its pipelines, and its
//! service.

use vstd::prelude::*;
use vstd::string::{StrSliceExecFns, StringExecFns};
use crate::follow::{FollowConfig, FollowPolicy};
use crate::cli::{decimal, decimal_at, invalid_value, message, number};
use crate::command::CommandLine;
use crate::service::{action_command, service_action};
use crate::text::{
    before, before_char, decimal_text, has_prefix, parsed_unsigned, push_decimal, same_text, strip_prefix, texts,
    trim, trimmed,
};

verus! {

/// Output width where none is asked for.
pub const DEFAULT_WIDTH: u32 = 1280;

/// Output height where none is asked for.
pub const DEFAULT_HEIGHT: u32 = 720;

/// Smoothing rate where none is asked for: 8 per second, in thousandths.
pub const DEFAULT_SMOOTHING: u32 = 8_000;

/// The largest deadzone that the command line takes: 100 percent, in
/// thousandths of a percent.
pub const MAX_DEADZONE: u32 = 100_000;

/// Buffers that each queue of the output pipeline holds.
pub const QUEUE_BUFFERS: u32 = 8;

/// What a sender is started with.
#[derive(Debug, Clone)]
pub struct SendCfg {
    pub receiver_ip: String,
    pub port: u16,
    pub x: u32,
    pub y: u32,
    pub width: u32,
    pub height: u32,
    pub fps: u32,
    pub follow_mouse: bool,
    /// Smoothing rate, in thousandths per second.
    pub smoothing: u32,
    /// Deadzone, in thousandths of a percent.
    pub deadzone: u32,
    pub encoder: String,
    pub bitrate_kbps: u32,
}

/// What is saved of a sender's settings, field for field what it was
/// started with.
#[derive(Debug, Clone)]
pub struct SenderConfig {
    pub receiver_ip: String,
    pub port: u16,
    pub x: u32,
    pub y: u32,
    pub width: u32,
    pub height: u32,
    pub fps: u32,
    pub follow_mouse: bool,
    /// Smoothing rate, in thousandths per second.
    pub smoothing: u32,
    /// Deadzone, in thousandths of a percent.
    pub deadzone: u32,
    pub encoder: String,
    pub bitrate_kbps: u32,
}

/// A sender's settings with its texts as sequences of characters.
pub struct SenderModel {
    pub receiver_ip: Seq<char>,
    pub port: u16,
    pub x: u32,
    pub y: u32,
    pub width: u32,
    pub height: u32,
    pub fps: u32,
    pub follow_mouse: bool,
    pub smoothing: u32,
    pub deadzone: u32,
    pub encoder: Seq<char>,
    pub bitrate_kbps: u32,
}

impl View for SendCfg {
    type V = SenderModel;

    open spec fn view(&self) -> SenderModel {
        SenderModel {
            receiver_ip: self.receiver_ip@,
            port: self.port,
            x: self.x,
            y: self.y,
            width: self.width,
            height: self.height,
            fps: self.fps,
            follow_mouse: self.follow_mouse,
            smoothing: self.smoothing,
            deadzone: self.deadzone,
            encoder: self.encoder@,
            bitrate_kbps: self.bitrate_kbps,
        }
    }
}

impl View for SenderConfig {
    type V = SenderModel;

    open spec fn view(&self) -> SenderModel {
        SenderModel {
            receiver_ip: self.receiver_ip@,
            port: self.port,
            x: self.x,
            y: self.y,
            width: self.width,
            height: self.height,
            fps: self.fps,
            follow_mouse: self.follow_mouse,
            smoothing: self.smoothing,
            deadzone: self.deadzone,
            encoder: self.encoder@,
            bitrate_kbps: self.bitrate_kbps,
        }
    }
}

/// The name of the sender's user service.
pub open spec fn sender_service() -> Seq<char> {
    "vp-sndr.service"@
}

/// The settings of a sender that was told nothing.
pub open spec fn default_sender() -> SenderModel {
    SenderModel {
        receiver_ip: "127.0.0.1"@,
        port: 5000,
        x: 0,
        y: 0,
        width: DEFAULT_WIDTH,
        height: DEFAULT_HEIGHT,
        fps: 60,
        follow_mouse: false,
        smoothing: DEFAULT_SMOOTHING,
        deadzone: 0,
        encoder: "x265enc"@,
        bitrate_kbps: 8000,
    }
}

impl Default for SenderConfig {
    fn default() -> (cfg: SenderConfig)
        ensures
            cfg@ == default_sender(),
    {
        SenderConfig {
            receiver_ip: "127.0.0.1".to_owned(),
            port: 5000,
            x: 0,
            y: 0,
            width: DEFAULT_WIDTH,
            height: DEFAULT_HEIGHT,
            fps: 60,
            follow_mouse: false,
            smoothing: DEFAULT_SMOOTHING,
            deadzone: 0,
            encoder: "x265enc".to_owned(),
            bitrate_kbps: 8000,
        }
    }
}

/// The settings to save for a sender that was started with `cfg`.
pub fn cfg_from_send(cfg: &SendCfg) -> (saved: SenderConfig)
    ensures
        saved@ == cfg@,
{
    SenderConfig {
        receiver_ip: cfg.receiver_ip.clone(),
        port: cfg.port,
        x: cfg.x,
        y: cfg.y,
        width: cfg.width,
        height: cfg.height,
        fps: cfg.fps,
        follow_mouse: cfg.follow_mouse,
        smoothing: cfg.smoothing,
        deadzone: cfg.deadzone,
        encoder: cfg.encoder.clone(),
        bitrate_kbps: cfg.bitrate_kbps,
    }
}

/// The settings to start a sender with from what was saved.
pub fn send_from_cfg(saved: &SenderConfig) -> (cfg: SendCfg)
    ensures
        cfg@ == saved@,
{
    SendCfg {
        receiver_ip: saved.receiver_ip.clone(),
        port: saved.port,
        x: saved.x,
        y: saved.y,
        width: saved.width,
        height: saved.height,
        fps: saved.fps,
        follow_mouse: saved.follow_mouse,
        smoothing: saved.smoothing,
        deadzone: saved.deadzone,
        encoder: saved.encoder.clone(),
        bitrate_kbps: saved.bitrate_kbps,
    }
}

/// The follow controller's configuration for a sender: the deadzone policy
/// over the sender's window, rate and deadzone.
pub fn follow_config(cfg: &SendCfg) -> (f: FollowConfig)
    ensures
        f == (FollowConfig {
            out_w: cfg.width,
            out_h: cfg.height,
            init_x: cfg.x,
            init_y: cfg.y,
            follow_enabled: cfg.follow_mouse,
            policy: FollowPolicy::Deadzone,
            deadzone: cfg.deadzone,
            smoothing: cfg.smoothing,
        }),
{
    FollowConfig {
        out_w: cfg.width,
        out_h: cfg.height,
        init_x: cfg.x,
        init_y: cfg.y,
        follow_enabled: cfg.follow_mouse,
        policy: FollowPolicy::Deadzone,
        deadzone: cfg.deadzone,
        smoothing: cfg.smoothing,
    }
}

/// A frame rate as the encoders take it: at least 1.
pub open spec fn rate_of(fps: nat) -> nat {
    if fps >= 1 {
        fps
    } else {
        1
    }
}

/// Frames between two key frames for `x265enc`: two seconds' worth, at
/// least 30.
pub open spec fn x265_gop(fps: nat) -> nat {
    if rate_of(fps) * 2 >= 30 {
        rate_of(fps) * 2
    } else {
        30
    }
}

/// The message for an encoder that is not known.
pub open spec fn unsupported_encoder(encoder: Seq<char>) -> Seq<char> {
    "unsupported --encoder '"@ + encoder + "'"@
}

/// The encoder stage of the output pipeline, or why there is none.
pub open spec fn encoder_stage_text(encoder: Seq<char>, fps: nat, bitrate_kbps: nat) -> Result<
    Seq<char>,
    Seq<char>,
> {
    if encoder == "x264enc"@ {
        Ok(
            "x264enc tune=zerolatency speed-preset=ultrafast key-int-max="@ + decimal_text(rate_of(fps))
                + " bitrate="@ + decimal_text(bitrate_kbps),
        )
    } else if encoder == "nvh264enc"@ {
        Ok("nvh264enc bitrate="@ + decimal_text(bitrate_kbps) + " gop-size="@ + decimal_text(rate_of(fps)))
    } else if encoder == "x265enc"@ {
        Ok(
            "x265enc speed-preset=veryfast key-int-max="@ + decimal_text(x265_gop(fps)) + " bitrate="@
                + decimal_text(bitrate_kbps) + " option-string=\"repeat-headers=1:aud=1:scenecut=0\""@,
        )
    } else if encoder == "nvh265enc"@ {
        Ok("nvh265enc bitrate="@ + decimal_text(bitrate_kbps) + " gop-size="@ + decimal_text(rate_of(fps)))
    } else if encoder == "vaapih265enc"@ {
        Ok(
            "vaapih265enc rate-control=cbr bitrate="@ + decimal_text(bitrate_kbps) + " keyframe-period="@
                + decimal_text(rate_of(fps)),
        )
    } else if encoder == "v4l2h265enc"@ {
        Ok("v4l2h265enc extra-controls=\"controls,video_bitrate="@ + decimal_text(bitrate_kbps) + "000\""@)
    } else {
        Err(unsupported_encoder(encoder))
    }
}

/// The stage that parses and packs the encoder's output, or why there is none.
pub open spec fn rtp_stage_text(encoder: Seq<char>) -> Result<Seq<char>, Seq<char>> {
    if encoder == "x264enc"@ || encoder == "nvh264enc"@ {
        Ok("h264parse config-interval=1 ! rtph264pay pt=96 config-interval=1 mtu=1200"@)
    } else if encoder == "x265enc"@ || encoder == "nvh265enc"@ || encoder == "vaapih265enc"@ || encoder
        == "v4l2h265enc"@ {
        Ok("h265parse config-interval=1 ! rtph265pay pt=96 config-interval=1 mtu=1200"@)
    } else {
        Err(unsupported_encoder(encoder))
    }
}

fn unsupported(encoder: &str) -> (e: String)
    ensures
        e@ == unsupported_encoder(encoder@),
{
    let mut e: String = "unsupported --encoder '".to_owned();
    e.append(encoder);
    e.append("'");
    e
}

fn at_least_one(fps: u32) -> (r: u64)
    ensures
        r == rate_of(fps as nat),
{
    if fps >= 1 {
        fps as u64
    } else {
        1
    }
}

/// The encoder stage of the output pipeline for the encoder of this name.
pub fn encoder_stage(encoder: &str, fps: u32, bitrate_kbps: u32) -> (r: Result<String, String>)
    ensures
        match encoder_stage_text(encoder@, fps as nat, bitrate_kbps as nat) {
            Ok(text) => r matches Ok(s) && s@ == text,
            Err(text) => r matches Err(e) && e@ == text,
        },
{
    let rate: u64 = at_least_one(fps);
    let bitrate: u64 = bitrate_kbps as u64;
    if same_text(encoder, "x264enc") {
        let mut s: String = "x264enc tune=zerolatency speed-preset=ultrafast key-int-max=".to_owned();
        push_decimal(&mut s, rate);
        s.append(" bitrate=");
        push_decimal(&mut s, bitrate);
        Ok(s)
    } else if same_text(encoder, "nvh264enc") {
        let mut s: String = "nvh264enc bitrate=".to_owned();
        push_decimal(&mut s, bitrate);
        s.append(" gop-size=");
        push_decimal(&mut s, rate);
        Ok(s)
    } else if same_text(encoder, "x265enc") {
        let gop: u64 = if rate * 2 >= 30 {
            rate * 2
        } else {
            30
        };
        let mut s: String = "x265enc speed-preset=veryfast key-int-max=".to_owned();
        push_decimal(&mut s, gop);
        s.append(" bitrate=");
        push_decimal(&mut s, bitrate);
        s.append(" option-string=\"repeat-headers=1:aud=1:scenecut=0\"");
        Ok(s)
    } else if same_text(encoder, "nvh265enc") {
        let mut s: String = "nvh265enc bitrate=".to_owned();
        push_decimal(&mut s, bitrate);
        s.append(" gop-size=");
        push_decimal(&mut s, rate);
        Ok(s)
    } else if same_text(encoder, "vaapih265enc") {
        let mut s: String = "vaapih265enc rate-control=cbr bitrate=".to_owned();
        push_decimal(&mut s, bitrate);
        s.append(" keyframe-period=");
        push_decimal(&mut s, rate);
        Ok(s)
    } else if same_text(encoder, "v4l2h265enc") {
        let mut s: String = "v4l2h265enc extra-controls=\"controls,video_bitrate=".to_owned();
        push_decimal(&mut s, bitrate);
        s.append("000\"");
        Ok(s)
    } else {
        Err(unsupported(encoder))
    }
}

/// The stage that parses and packs the output of the encoder of this name.
pub fn rtp_video_stage(encoder: &str) -> (r: Result<&'static str, String>)
    ensures
        match rtp_stage_text(encoder@) {
            Ok(text) => r matches Ok(s) && s@ == text,
            Err(text) => r matches Err(e) && e@ == text,
        },
{
    if same_text(encoder, "x264enc") || same_text(encoder, "nvh264enc") {
        Ok("h264parse config-interval=1 ! rtph264pay pt=96 config-interval=1 mtu=1200")
    } else if same_text(encoder, "x265enc") || same_text(encoder, "nvh265enc") || same_text(encoder, "vaapih265enc")
        || same_text(encoder, "v4l2h265enc") {
        Ok("h265parse config-interval=1 ! rtph265pay pt=96 config-interval=1 mtu=1200")
    } else {
        Err(unsupported(encoder))
    }
}

/// The description of the pipeline that captures the screen from a
/// PipeWire node and hands each frame to the session.
pub open spec fn capture_pipeline_text(node_id: nat, fps: nat) -> Seq<char> {
    "pipewiresrc path="@ + decimal_text(node_id)
        + " do-timestamp=true ! videoconvert ! video/x-raw,format=RGBA,framerate="@ + decimal_text(fps)
        + "/1 ! appsink name=sink max-buffers=1 drop=true emit-signals=true sync=false"@
}

/// A queue of the output pipeline, with what joins it to its neighbours.
pub open spec fn queue_text() -> Seq<char> {
    " ! queue max-size-buffers="@ + decimal_text(QUEUE_BUFFERS as nat) + " max-size-bytes=0 max-size-time=0 ! "@
}

/// The description of the pipeline that takes the cropped frames, encodes
/// them with `encoder_stage`, packs them with `rtp_stage` and sends them.
pub open spec fn output_pipeline_text(
    m: SenderModel,
    output_fps: nat,
    encoder_stage: Seq<char>,
    rtp_stage: Seq<char>,
) -> Seq<char> {
    "appsrc name=src is-live=true format=time do-timestamp=true block=true caps=video/x-raw,format=RGBA,width="@
        + decimal_text(m.width as nat) + ",height="@ + decimal_text(m.height as nat) + ",framerate="@
        + decimal_text(output_fps) + "/1"@ + queue_text() + "videoconvert ! video/x-raw,format=I420"@
        + queue_text() + encoder_stage + queue_text() + rtp_stage + queue_text() + "udpsink host="@
        + m.receiver_ip + " port="@ + decimal_text(m.port as nat) + " sync=false async=false"@
}

/// The output pipeline for a sender's settings, or why there is none: the
/// encoder has to be one that is known.
pub open spec fn sender_output_text(m: SenderModel, output_fps: nat) -> Result<Seq<char>, Seq<char>> {
    match (encoder_stage_text(m.encoder, output_fps, m.bitrate_kbps as nat), rtp_stage_text(m.encoder)) {
        (Ok(enc), Ok(rtp)) => Ok(output_pipeline_text(m, output_fps, enc, rtp)),
        (Err(e), _) => Err(e),
        (_, Err(e)) => Err(e),
    }
}

/// The description of the capturing pipeline.
pub fn capture_pipeline(node_id: u32, fps: u32) -> (s: String)
    ensures
        s@ == capture_pipeline_text(node_id as nat, fps as nat),
{
    let mut s: String = "pipewiresrc path=".to_owned();
    push_decimal(&mut s, node_id as u64);
    s.append(" do-timestamp=true ! videoconvert ! video/x-raw,format=RGBA,framerate=");
    push_decimal(&mut s, fps as u64);
    s.append("/1 ! appsink name=sink max-buffers=1 drop=true emit-signals=true sync=false");
    s
}

fn push_queue(out: &mut String)
    ensures
        final(out)@ == old(out)@ + queue_text(),
{
    let mut q: String = " ! queue max-size-buffers=".to_owned();
    push_decimal(&mut q, QUEUE_BUFFERS as u64);
    q.append(" max-size-bytes=0 max-size-time=0 ! ");
    out.append(q.as_str());
}

/// The description of the output pipeline for a sender's settings.
pub fn output_pipeline(cfg: &SendCfg, output_fps: u32) -> (r: Result<String, String>)
    ensures
        match sender_output_text(cfg@, output_fps as nat) {
            Ok(text) => r matches Ok(s) && s@ == text,
            Err(text) => r matches Err(e) && e@ == text,
        },
{
    let enc: String = match encoder_stage(cfg.encoder.as_str(), output_fps, cfg.bitrate_kbps) {
        Ok(v) => v,
        Err(e) => {
            return Err(e);
        },
    };
    let rtp: &'static str = match rtp_video_stage(cfg.encoder.as_str()) {
        Ok(v) => v,
        Err(e) => {
            return Err(e);
        },
    };
    let mut s: String =
        "appsrc name=src is-live=true format=time do-timestamp=true block=true caps=video/x-raw,format=RGBA,width=".to_owned();
    push_decimal(&mut s, cfg.width as u64);
    s.append(",height=");
    push_decimal(&mut s, cfg.height as u64);
    s.append(",framerate=");
    push_decimal(&mut s, output_fps as u64);
    s.append("/1");
    push_queue(&mut s);
    s.append("videoconvert ! video/x-raw,format=I420");
    push_queue(&mut s);
    s.append(enc.as_str());
    push_queue(&mut s);
    s.append(rtp);
    push_queue(&mut s);
    s.append("udpsink host=");
    s.append(cfg.receiver_ip.as_str());
    s.append(" port=");
    push_decimal(&mut s, cfg.port as u64);
    s.append(" sync=false async=false");
    Ok(s)
}

/// The socket that an address of the session bus names, or why it names
/// none. An address is `unix:path=` and a path, which ends at the first
/// comma, or a bare path from the root.
pub open spec fn bus_path_of(addr: Seq<char>) -> Result<Seq<char>, Seq<char>> {
    if trimmed(addr).len() == 0 {
        Err("DBUS_SESSION_BUS_ADDRESS is empty"@)
    } else if has_prefix(addr, "unix:path="@) {
        if before(addr.subrange("unix:path="@.len() as int, addr.len() as int), ',').len() == 0 {
            Err("invalid DBus address: "@ + addr)
        } else {
            Ok(before(addr.subrange("unix:path="@.len() as int, addr.len() as int), ','))
        }
    } else if has_prefix(addr, "/"@) {
        Ok(addr)
    } else {
        Err("unsupported DBus address format: "@ + addr + " (expected unix:path=...)"@)
    }
}

/// The socket that an address of the session bus names.
pub fn session_bus_path(addr: &str) -> (r: Result<String, String>)
    ensures
        match bus_path_of(addr@) {
            Ok(path) => r matches Ok(p) && p@ == path,
            Err(text) => r matches Err(e) && e@ == text,
        },
{
    if trim(addr).unicode_len() == 0 {
        return Err("DBUS_SESSION_BUS_ADDRESS is empty".to_owned());
    }
    match strip_prefix(addr, "unix:path=") {
        Some(rest) => {
            let path: &str = before_char(rest, ',');
            if path.unicode_len() == 0 {
                let mut e: String = "invalid DBus address: ".to_owned();
                e.append(addr);
                Err(e)
            } else {
                Ok(path.to_owned())
            }
        },
        None => {
            if strip_prefix(addr, "/").is_some() {
                Ok(addr.to_owned())
            } else {
                let mut e: String = "unsupported DBus address format: ".to_owned();
                e.append(addr);
                e.append(" (expected unix:path=...)");
                Err(e)
            }
        },
    }
}

/// The command that starts the sender's service.
pub fn tray_start() -> (cmd: CommandLine)
    ensures
        cmd@ == action_command(sender_service(), "start"@),
{
    service_action("vp-sndr.service", "start")
}

/// The command that stops the sender's service.
pub fn tray_stop() -> (cmd: CommandLine)
    ensures
        cmd@ == action_command(sender_service(), "stop"@),
{
    service_action("vp-sndr.service", "stop")
}

/// What the command line asks for.
#[derive(Debug)]
pub enum Cli {
    /// Show how the program is used.
    Help,
    /// Sit in the tray.
    Tray,
    /// Show where the settings are kept.
    ConfigPath,
    /// Send with the settings that were saved.
    RunSaved,
    /// Send with these settings.
    Send(SendCfg),
}

/// A [`Cli`] with its texts as sequences of characters.
pub enum CliModel {
    Help,
    Tray,
    ConfigPath,
    RunSaved,
    Send(SenderModel),
}

impl View for Cli {
    type V = CliModel;

    open spec fn view(&self) -> CliModel {
        match self {
            Cli::Help => CliModel::Help,
            Cli::Tray => CliModel::Tray,
            Cli::ConfigPath => CliModel::ConfigPath,
            Cli::RunSaved => CliModel::RunSaved,
            Cli::Send(cfg) => CliModel::Send(cfg@),
        }
    }
}

/// Settings while the options are read: the receiver may still be missing,
/// and the two decimal numbers may still be out of range.
struct Draft {
    receiver_ip: Option<String>,
    port: u16,
    x: u32,
    y: u32,
    width: u32,
    height: u32,
    fps: u32,
    follow_mouse: bool,
    smoothing: i64,
    deadzone: i64,
    encoder: String,
    bitrate_kbps: u32,
}

/// Settings while the options are read.
pub struct DraftModel {
    pub receiver_ip: Option<Seq<char>>,
    pub port: u16,
    pub x: u32,
    pub y: u32,
    pub width: u32,
    pub height: u32,
    pub fps: u32,
    pub follow_mouse: bool,
    /// In thousandths per second.
    pub smoothing: i64,
    /// In thousandths of a percent.
    pub deadzone: i64,
    pub encoder: Seq<char>,
    pub bitrate_kbps: u32,
}

impl View for Draft {
    type V = DraftModel;

    closed spec fn view(&self) -> DraftModel {
        DraftModel {
            receiver_ip: match self.receiver_ip {
                Some(ip) => Some(ip@),
                None => None,
            },
            port: self.port,
            x: self.x,
            y: self.y,
            width: self.width,
            height: self.height,
            fps: self.fps,
            follow_mouse: self.follow_mouse,
            smoothing: self.smoothing,
            deadzone: self.deadzone,
            encoder: self.encoder@,
            bitrate_kbps: self.bitrate_kbps,
        }
    }
}

/// The settings before any option is read.
pub open spec fn first_draft() -> DraftModel {
    DraftModel {
        receiver_ip: None,
        port: 5000,
        x: 0,
        y: 0,
        width: DEFAULT_WIDTH,
        height: DEFAULT_HEIGHT,
        fps: 60,
        follow_mouse: false,
        smoothing: DEFAULT_SMOOTHING as i64,
        deadzone: 0,
        encoder: "x265enc"@,
        bitrate_kbps: 8000,
    }
}

/// Whether an option is followed by a value.
pub open spec fn takes_value(name: Seq<char>) -> bool {
    name == "--receiver-ip"@ || name == "--port"@ || name == "--x"@ || name == "--y"@ || name == "--width"@
        || name == "--height"@ || name == "--fps"@ || name == "--smoothing"@ || name == "--deadzone"@ || name
        == "--encoder"@ || name == "--bitrate-kbps"@
}

/// An option's value as a number of 32 bits.
pub open spec fn number_of(name: Seq<char>, value: Seq<char>) -> Result<u32, Seq<char>> {
    match parsed_unsigned(value, u32::MAX as nat) {
        Some(n) => Ok(n as u32),
        None => Err(invalid_value(name, value)),
    }
}

/// An option's value as a decimal number, in thousandths, given what the
/// value was read as.
pub open spec fn decimal_of(name: Seq<char>, value: Seq<char>, read: Option<i64>) -> Result<i64, Seq<char>> {
    match read {
        Some(v) => Ok(v),
        None => Err(invalid_value(name, value)),
    }
}

/// The settings after the option `name` was given the value `value`, which
/// reads as the decimal number `read` if it reads as one.
pub open spec fn with_value(d: DraftModel, name: Seq<char>, value: Seq<char>, read: Option<i64>) -> Result<
    DraftModel,
    Seq<char>,
> {
    if name == "--receiver-ip"@ {
        Ok(DraftModel { receiver_ip: Some(value), ..d })
    } else if name == "--port"@ {
        match parsed_unsigned(value, u16::MAX as nat) {
            Some(n) => Ok(DraftModel { port: n as u16, ..d }),
            None => Err(invalid_value(name, value)),
        }
    } else if name == "--x"@ {
        match number_of(name, value) {
            Ok(n) => Ok(DraftModel { x: n, ..d }),
            Err(e) => Err(e),
        }
    } else if name == "--y"@ {
        match number_of(name, value) {
            Ok(n) => Ok(DraftModel { y: n, ..d }),
            Err(e) => Err(e),
        }
    } else if name == "--width"@ {
        match number_of(name, value) {
            Ok(n) => Ok(DraftModel { width: n, ..d }),
            Err(e) => Err(e),
        }
    } else if name == "--height"@ {
        match number_of(name, value) {
            Ok(n) => Ok(DraftModel { height: n, ..d }),
            Err(e) => Err(e),
        }
    } else if name == "--fps"@ {
        match number_of(name, value) {
            Ok(n) => Ok(DraftModel { fps: n, ..d }),
            Err(e) => Err(e),
        }
    } else if name == "--smoothing"@ {
        match decimal_of(name, value, read) {
            Ok(v) => Ok(DraftModel { smoothing: v, ..d }),
            Err(e) => Err(e),
        }
    } else if name == "--deadzone"@ {
        match decimal_of(name, value, read) {
            Ok(v) => Ok(DraftModel { deadzone: v, ..d }),
            Err(e) => Err(e),
        }
    } else if name == "--encoder"@ {
        Ok(DraftModel { encoder: value, ..d })
    } else {
        match number_of(name, value) {
            Ok(n) => Ok(DraftModel { bitrate_kbps: n, ..d }),
            Err(e) => Err(e),
        }
    }
}

/// The settings after the options from index `from` on, read from left to
/// right; the first option that is wrong ends the reading.
pub open spec fn with_options(d: DraftModel, args: Seq<Seq<char>>, decimals: Seq<Option<i64>>, from: int) -> Result<
    DraftModel,
    Seq<char>,
>
    decreases args.len() - from,
{
    if from < 0 || from >= args.len() {
        Ok(d)
    } else if args[from] == "--follow-mouse"@ {
        with_options(DraftModel { follow_mouse: true, ..d }, args, decimals, from + 1)
    } else if takes_value(args[from]) {
        if from + 1 >= args.len() {
            Err("missing value after "@ + args[from])
        } else {
            match with_value(d, args[from], args[from + 1], decimal_at(decimals, from + 1)) {
                Ok(next) => with_options(next, args, decimals, from + 2),
                Err(e) => Err(e),
            }
        }
    } else {
        Err("unknown argument: "@ + args[from])
    }
}

/// The settings that a draft makes, or the first thing that is wrong with
/// it. A smoothing rate beyond the range of 32 bits counts as the largest.
pub open spec fn finished(d: DraftModel) -> Result<SenderModel, Seq<char>> {
    if d.receiver_ip is None {
        Err("missing required argument --receiver-ip"@)
    } else if d.width == 0 || d.height == 0 {
        Err("--width and --height must be > 0"@)
    } else if d.fps == 0 {
        Err("--fps must be > 0"@)
    } else if d.smoothing <= 0 {
        Err("--smoothing must be > 0"@)
    } else if d.deadzone < 0 || d.deadzone > MAX_DEADZONE {
        Err("--deadzone must be between 0 and 100"@)
    } else if d.bitrate_kbps == 0 {
        Err("--bitrate-kbps must be > 0"@)
    } else {
        Ok(
            SenderModel {
                receiver_ip: d.receiver_ip->0,
                port: d.port,
                x: d.x,
                y: d.y,
                width: d.width,
                height: d.height,
                fps: d.fps,
                follow_mouse: d.follow_mouse,
                smoothing: if d.smoothing > u32::MAX {
                    u32::MAX
                } else {
                    d.smoothing as u32
                },
                deadzone: d.deadzone as u32,
                encoder: d.encoder,
                bitrate_kbps: d.bitrate_kbps,
            },
        )
    }
}

/// What a sender is asked to do by the options after `send`.
pub open spec fn send_of(args: Seq<Seq<char>>, decimals: Seq<Option<i64>>) -> Result<CliModel, Seq<char>> {
    match with_options(first_draft(), args, decimals, 2) {
        Ok(d) => match finished(d) {
            Ok(m) => Ok(CliModel::Send(m)),
            Err(e) => Err(e),
        },
        Err(e) => Err(e),
    }
}

/// What a command line asks for. `args[0]` is the program's name and
/// `args[1]` its command.
pub open spec fn cli_of(args: Seq<Seq<char>>, decimals: Seq<Option<i64>>) -> Result<CliModel, Seq<char>> {
    if args.len() <= 1 {
        Ok(CliModel::Help)
    } else if args[1] == "-h"@ || args[1] == "--help"@ || args[1] == "help"@ {
        Ok(CliModel::Help)
    } else if args[1] == "tray"@ {
        Ok(CliModel::Tray)
    } else if args[1] == "config"@ {
        Ok(CliModel::ConfigPath)
    } else if args[1] == "run-saved"@ {
        Ok(CliModel::RunSaved)
    } else if args[1] == "send"@ {
        send_of(args, decimals)
    } else {
        Err("unknown command: "@ + args[1])
    }
}

fn expects_value(name: &str) -> (r: bool)
    ensures
        r == takes_value(name@),
{
    same_text(name, "--receiver-ip") || same_text(name, "--port") || same_text(name, "--x") || same_text(name, "--y")
        || same_text(name, "--width") || same_text(name, "--height") || same_text(name, "--fps") || same_text(
        name,
        "--smoothing",
    ) || same_text(name, "--deadzone") || same_text(name, "--encoder") || same_text(name, "--bitrate-kbps")
}

fn number32(name: &str, value: &str) -> (r: Result<u32, String>)
    ensures
        match number_of(name@, value@) {
            Ok(n) => r == Ok::<u32, String>(n),
            Err(text) => r matches Err(e) && e@ == text,
        },
{
    match number(name, value, u32::MAX as u64) {
        Ok(n) => Ok(n as u32),
        Err(e) => Err(e),
    }
}

fn set_value(d: &mut Draft, name: &str, value: &str, read: Option<i64>) -> (r: Result<(), String>)
    requires
        takes_value(name@),
    ensures
        match with_value(old(d)@, name@, value@, read) {
            Ok(m) => r is Ok && final(d)@ == m,
            Err(text) => r matches Err(e) && e@ == text,
        },
{
    if same_text(name, "--receiver-ip") {
        d.receiver_ip = Some(value.to_owned());
    } else if same_text(name, "--port") {
        match number(name, value, u16::MAX as u64) {
            Ok(n) => {
                d.port = n as u16;
            },
            Err(e) => {
                return Err(e);
            },
        }
    } else if same_text(name, "--x") {
        match number32(name, value) {
            Ok(n) => {
                d.x = n;
            },
            Err(e) => {
                return Err(e);
            },
        }
    } else if same_text(name, "--y") {
        match number32(name, value) {
            Ok(n) => {
                d.y = n;
            },
            Err(e) => {
                return Err(e);
            },
        }
    } else if same_text(name, "--width") {
        match number32(name, value) {
            Ok(n) => {
                d.width = n;
            },
            Err(e) => {
                return Err(e);
            },
        }
    } else if same_text(name, "--height") {
        match number32(name, value) {
            Ok(n) => {
                d.height = n;
            },
            Err(e) => {
                return Err(e);
            },
        }
    } else if same_text(name, "--fps") {
        match number32(name, value) {
            Ok(n) => {
                d.fps = n;
            },
            Err(e) => {
                return Err(e);
            },
        }
    } else if same_text(name, "--smoothing") {
        match decimal(name, value, read) {
            Ok(v) => {
                d.smoothing = v;
            },
            Err(e) => {
                return Err(e);
            },
        }
    } else if same_text(name, "--deadzone") {
        match decimal(name, value, read) {
            Ok(v) => {
                d.deadzone = v;
            },
            Err(e) => {
                return Err(e);
            },
        }
    } else if same_text(name, "--encoder") {
        d.encoder = value.to_owned();
    } else {
        match number32(name, value) {
            Ok(n) => {
                d.bitrate_kbps = n;
            },
            Err(e) => {
                return Err(e);
            },
        }
    }
    Ok(())
}

fn finish(d: Draft) -> (r: Result<SendCfg, String>)
    ensures
        match finished(d@) {
            Ok(m) => r matches Ok(cfg) && cfg@ == m,
            Err(text) => r matches Err(e) && e@ == text,
        },
{
    let receiver_ip: String = match d.receiver_ip {
        Some(ip) => ip,
        None => {
            return Err("missing required argument --receiver-ip".to_owned());
        },
    };
    if d.width == 0 || d.height == 0 {
        return Err("--width and --height must be > 0".to_owned());
    }
    if d.fps == 0 {
        return Err("--fps must be > 0".to_owned());
    }
    if d.smoothing <= 0 {
        return Err("--smoothing must be > 0".to_owned());
    }
    if d.deadzone < 0 || d.deadzone > MAX_DEADZONE as i64 {
        return Err("--deadzone must be between 0 and 100".to_owned());
    }
    if d.bitrate_kbps == 0 {
        return Err("--bitrate-kbps must be > 0".to_owned());
    }
    Ok(
        SendCfg {
            receiver_ip,
            port: d.port,
            x: d.x,
            y: d.y,
            width: d.width,
            height: d.height,
            fps: d.fps,
            follow_mouse: d.follow_mouse,
            smoothing: if d.smoothing > u32::MAX as i64 {
                u32::MAX
            } else {
                d.smoothing as u32
            },
            deadzone: d.deadzone as u32,
            encoder: d.encoder,
            bitrate_kbps: d.bitrate_kbps,
        },
    )
}

fn parse_send(args: &[String], decimals: &[Option<i64>]) -> (r: Result<Cli, String>)
    requires
        args@.len() >= 2,
    ensures
        match send_of(texts(args@), decimals@) {
            Ok(m) => r matches Ok(cli) && cli@ == m,
            Err(text) => r matches Err(e) && e@ == text,
        },
{
    let mut d = Draft {
        receiver_ip: None,
        port: 5000,
        x: 0,
        y: 0,
        width: DEFAULT_WIDTH,
        height: DEFAULT_HEIGHT,
        fps: 60,
        follow_mouse: false,
        smoothing: DEFAULT_SMOOTHING as i64,
        deadzone: 0,
        encoder: "x265enc".to_owned(),
        bitrate_kbps: 8000,
    };
    let ghost all = texts(args@);
    let mut i: usize = 2;
    while i < args.len()
        invariant
            2 <= i <= args@.len(),
            all == texts(args@),
            with_options(first_draft(), all, decimals@, 2) == with_options(d@, all, decimals@, i as int),
        decreases args@.len() - i,
    {
        let name: &str = args[i].as_str();
        assert(all[i as int] == name@);
        if same_text(name, "--follow-mouse") {
            d.follow_mouse = true;
            i += 1;
        } else if expects_value(name) {
            if i + 1 >= args.len() {
                return Err(message("missing value after ", name));
            }
            let value: &str = args[i + 1].as_str();
            assert(all[i + 1] == value@);
            let read: Option<i64> = if i + 1 < decimals.len() {
                decimals[i + 1]
            } else {
                None
            };
            match set_value(&mut d, name, value, read) {
                Ok(()) => {},
                Err(e) => {
                    return Err(e);
                },
            }
            i += 2;
        } else {
            return Err(message("unknown argument: ", name));
        }
    }
    match finish(d) {
        Ok(cfg) => Ok(Cli::Send(cfg)),
        Err(e) => Err(e),
    }
}

/// Reads the command line. `args[0]` is the program's name.
///
/// Two options take decimal numbers, which this crate does not read:
/// `decimals[i]` is what `args[i]` says as a decimal number, in thousandths,
/// where it is one, and nothing where it is none or the list is too short.
pub fn parse_cli(args: &[String], decimals: &[Option<i64>]) -> (r: Result<Cli, String>)
    ensures
        match cli_of(texts(args@), decimals@) {
            Ok(m) => r matches Ok(cli) && cli@ == m,
            Err(text) => r matches Err(e) && e@ == text,
        },
{
    if args.len() <= 1 {
        return Ok(Cli::Help);
    }
    let command: &str = args[1].as_str();
    assert(texts(args@)[1] == command@);
    if same_text(command, "-h") || same_text(command, "--help") || same_text(command, "help") {
        Ok(Cli::Help)
    } else if same_text(command, "tray") {
        Ok(Cli::Tray)
    } else if same_text(command, "config") {
        Ok(Cli::ConfigPath)
    } else if same_text(command, "run-saved") {
        Ok(Cli::RunSaved)
    } else if same_text(command, "send") {
        parse_send(args, decimals)
    } else {
        Err(message("unknown command: ", command))
    }
}

} // verus!
