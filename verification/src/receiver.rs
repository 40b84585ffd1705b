//! The receiving side: its settings and its service.

use vstd::prelude::*;
use vstd::string::StringExecFns;
use crate::cli::{invalid, invalid_value, message, number};
use crate::command::{CommandLine, CommandModel};
use crate::service::{action_command, service_action};
use crate::text::{decimal_text, lower_text, parsed_unsigned, push_decimal, same_folded, same_text, texts};

verus! {

/// What a receiver is started with.
#[derive(Debug, Clone)]
pub struct ReceiverConfig {
    pub codec: String,
    pub bind_ip: String,
    pub port: u16,
    pub payload: u8,
    pub clock_rate: u32,
    pub latency_ms: u32,
    pub no_preview: bool,
    pub v4l2_device: Option<String>,
    pub v4l2_width: Option<u32>,
    pub v4l2_height: Option<u32>,
    pub v4l2_fps: Option<u32>,
}

/// A [`ReceiverConfig`] with its texts as sequences of characters.
pub struct ReceiverConfigModel {
    pub codec: Seq<char>,
    pub bind_ip: Seq<char>,
    pub port: u16,
    pub payload: u8,
    pub clock_rate: u32,
    pub latency_ms: u32,
    pub no_preview: bool,
    pub v4l2_device: Option<Seq<char>>,
    pub v4l2_width: Option<u32>,
    pub v4l2_height: Option<u32>,
    pub v4l2_fps: Option<u32>,
}

/// An optional text as an optional sequence of characters.
pub open spec fn text_of(s: Option<String>) -> Option<Seq<char>> {
    match s {
        Some(t) => Some(t@),
        None => None,
    }
}

/// An optional borrowed text as an optional sequence of characters.
pub open spec fn str_of(s: Option<&str>) -> Option<Seq<char>> {
    match s {
        Some(t) => Some(t@),
        None => None,
    }
}

impl View for ReceiverConfig {
    type V = ReceiverConfigModel;

    open spec fn view(&self) -> ReceiverConfigModel {
        ReceiverConfigModel {
            codec: self.codec@,
            bind_ip: self.bind_ip@,
            port: self.port,
            payload: self.payload,
            clock_rate: self.clock_rate,
            latency_ms: self.latency_ms,
            no_preview: self.no_preview,
            v4l2_device: text_of(self.v4l2_device),
            v4l2_width: self.v4l2_width,
            v4l2_height: self.v4l2_height,
            v4l2_fps: self.v4l2_fps,
        }
    }
}

/// The name of the receiver's user service.
pub open spec fn receiver_service() -> Seq<char> {
    "vp-rcvr.service"@
}

/// The settings of a receiver that was told nothing: H.265 on port 5000 of
/// every address, with a preview window and no video device.
pub open spec fn default_receiver() -> ReceiverConfigModel {
    ReceiverConfigModel {
        codec: "h265"@,
        bind_ip: "0.0.0.0"@,
        port: 5000,
        payload: 96,
        clock_rate: 90_000,
        latency_ms: 25,
        no_preview: false,
        v4l2_device: None,
        v4l2_width: None,
        v4l2_height: None,
        v4l2_fps: None,
    }
}

impl Default for ReceiverConfig {
    fn default() -> (cfg: ReceiverConfig)
        ensures
            cfg@ == default_receiver(),
    {
        ReceiverConfig {
            codec: "h265".to_owned(),
            bind_ip: "0.0.0.0".to_owned(),
            port: 5000,
            payload: 96,
            clock_rate: 90_000,
            latency_ms: 25,
            no_preview: false,
            v4l2_device: None,
            v4l2_width: None,
            v4l2_height: None,
            v4l2_fps: None,
        }
    }
}

/// The settings to save for a receiver that was started with these values.
pub fn cfg_from_receive(
    codec: &str,
    bind_ip: &str,
    port: u16,
    payload: u8,
    clock_rate: u32,
    latency_ms: u32,
    no_preview: bool,
    v4l2_device: Option<&str>,
    v4l2_width: Option<u32>,
    v4l2_height: Option<u32>,
    v4l2_fps: Option<u32>,
) -> (cfg: ReceiverConfig)
    ensures
        cfg@ == (ReceiverConfigModel {
            codec: codec@,
            bind_ip: bind_ip@,
            port,
            payload,
            clock_rate,
            latency_ms,
            no_preview,
            v4l2_device: str_of(v4l2_device),
            v4l2_width,
            v4l2_height,
            v4l2_fps,
        }),
{
    ReceiverConfig {
        codec: codec.to_owned(),
        bind_ip: bind_ip.to_owned(),
        port,
        payload,
        clock_rate,
        latency_ms,
        no_preview,
        v4l2_device: match v4l2_device {
            Some(d) => Some(d.to_owned()),
            None => None,
        },
        v4l2_width,
        v4l2_height,
        v4l2_fps,
    }
}

/// The command that starts the receiver's service.
pub fn tray_start() -> (cmd: CommandLine)
    ensures
        cmd@ == action_command(receiver_service(), "start"@),
{
    service_action("vp-rcvr.service", "start")
}

/// The command that stops the receiver's service.
pub fn tray_stop() -> (cmd: CommandLine)
    ensures
        cmd@ == action_command(receiver_service(), "stop"@),
{
    service_action("vp-rcvr.service", "stop")
}

/// What a codec needs in the pipeline.
pub struct CodecStages {
    /// Its name in the stream's description.
    pub encoding: Seq<char>,
    /// The stages that unpack and parse the stream.
    pub depay_parse: Seq<char>,
    /// The stages that decode it.
    pub decode: Seq<char>,
}

/// The stages for a codec, where it is one that the receiver knows.
pub open spec fn codec_stages(codec: Seq<char>) -> Option<CodecStages> {
    if codec == "h264"@ {
        Some(CodecStages { encoding: "H264"@, depay_parse: "rtph264depay ! h264parse"@, decode: "decodebin"@ })
    } else if codec == "h265"@ {
        Some(
            CodecStages {
                encoding: "H265"@,
                depay_parse: "rtph265depay ! h265parse"@,
                decode: "avdec_h265 output-corrupt=false discard-corrupted-frames=true"@,
            },
        )
    } else {
        None
    }
}

/// The message for a codec that is not known.
pub open spec fn unsupported_codec(codec: Seq<char>) -> Seq<char> {
    "unsupported codec '"@ + codec + "'"@
}

/// A field of the video device's format, where it is asked for.
pub open spec fn caps_field(label: Seq<char>, value: Option<u32>, unit: Seq<char>) -> Seq<char> {
    match value {
        Some(v) => label + decimal_text(v as nat) + unit,
        None => Seq::empty(),
    }
}

/// The format that the video device is fed in.
pub open spec fn v4l2_caps(m: ReceiverConfigModel) -> Seq<char> {
    "video/x-raw,format=I420"@ + caps_field(",width="@, m.v4l2_width, Seq::empty()) + caps_field(
        ",height="@,
        m.v4l2_height,
        Seq::empty(),
    ) + caps_field(",framerate="@, m.v4l2_fps, "/1"@)
}

/// The branch that shows the stream in a window, where a preview is wanted.
pub open spec fn preview_branch(m: ReceiverConfigModel) -> Seq<char> {
    if m.no_preview {
        Seq::empty()
    } else {
        " t. ! queue ! videoconvert ! fpsdisplaysink text-overlay=false video-sink=autovideosink sync=false"@
    }
}

/// The branch that feeds the stream to a video device, where one is named.
pub open spec fn device_branch(m: ReceiverConfigModel) -> Seq<char> {
    match m.v4l2_device {
        Some(device) => " t. ! queue ! videoconvert ! "@ + v4l2_caps(m) + " ! v4l2sink device="@ + device
            + " sync=false"@,
        None => Seq::empty(),
    }
}

/// The receiving pipeline up to the point where it branches.
pub open spec fn receive_trunk(m: ReceiverConfigModel, stages: CodecStages) -> Seq<char> {
    "udpsrc address="@ + m.bind_ip + " port="@ + decimal_text(m.port as nat)
        + " caps=\"application/x-rtp,media=video,encoding-name="@ + stages.encoding + ",payload="@ + decimal_text(
        m.payload as nat,
    ) + ",clock-rate="@ + decimal_text(m.clock_rate as nat) + "\" ! queue ! rtpjitterbuffer latency="@
        + decimal_text(m.latency_ms as nat) + " drop-on-latency=true ! "@ + stages.depay_parse + " ! "@
        + stages.decode + " ! tee name=t"@
}

/// The description of the receiving pipeline, or why there is none.
pub open spec fn receive_pipeline_text(m: ReceiverConfigModel) -> Result<Seq<char>, Seq<char>> {
    match codec_stages(m.codec) {
        Some(stages) => Ok(receive_trunk(m, stages) + preview_branch(m) + device_branch(m)),
        None => Err(unsupported_codec(m.codec)),
    }
}

/// The command that runs a pipeline of this description.
pub open spec fn launch_command(pipeline: Seq<char>) -> CommandModel {
    CommandModel { program: "bash"@, args: seq!["-lc"@, "gst-launch-1.0 -e -v "@ + pipeline] }
}

fn push_caps_field(out: &mut String, label: &str, value: Option<u32>, unit: &str)
    ensures
        final(out)@ == old(out)@ + caps_field(label@, value, unit@),
{
    match value {
        Some(v) => {
            out.append(label);
            push_decimal(out, v as u64);
            out.append(unit);
            assert(out@ =~= old(out)@ + caps_field(label@, value, unit@));
        },
        None => {
            assert(out@ =~= old(out)@ + caps_field(label@, value, unit@));
        },
    }
}

fn push_device_branch(out: &mut String, cfg: &ReceiverConfig)
    ensures
        final(out)@ == old(out)@ + device_branch(cfg@),
{
    proof {
        reveal_strlit("");
    }
    match &cfg.v4l2_device {
        Some(device) => {
            let mut branch: String = " t. ! queue ! videoconvert ! ".to_owned();
            branch.append("video/x-raw,format=I420");
            push_caps_field(&mut branch, ",width=", cfg.v4l2_width, "");
            push_caps_field(&mut branch, ",height=", cfg.v4l2_height, "");
            push_caps_field(&mut branch, ",framerate=", cfg.v4l2_fps, "/1");
            branch.append(" ! v4l2sink device=");
            branch.append(device.as_str());
            branch.append(" sync=false");
            assert(""@ =~= Seq::<char>::empty());
            assert(branch@ =~= device_branch(cfg@));
            out.append(branch.as_str());
        },
        None => {
            assert(out@ =~= old(out)@ + device_branch(cfg@));
        },
    }
}

/// The description of the pipeline that receives, decodes and shows or
/// hands on the stream.
pub fn receive_pipeline(cfg: &ReceiverConfig) -> (r: Result<String, String>)
    ensures
        match receive_pipeline_text(cfg@) {
            Ok(text) => r matches Ok(s) && s@ == text,
            Err(text) => r matches Err(e) && e@ == text,
        },
{
    let h264: bool = same_text(cfg.codec.as_str(), "h264");
    let h265: bool = same_text(cfg.codec.as_str(), "h265");
    if !h264 && !h265 {
        let mut e: String = "unsupported codec '".to_owned();
        e.append(cfg.codec.as_str());
        e.append("'");
        return Err(e);
    }
    let mut s: String = "udpsrc address=".to_owned();
    s.append(cfg.bind_ip.as_str());
    s.append(" port=");
    push_decimal(&mut s, cfg.port as u64);
    s.append(" caps=\"application/x-rtp,media=video,encoding-name=");
    s.append(
        if h264 {
            "H264"
        } else {
            "H265"
        },
    );
    s.append(",payload=");
    push_decimal(&mut s, cfg.payload as u64);
    s.append(",clock-rate=");
    push_decimal(&mut s, cfg.clock_rate as u64);
    s.append("\" ! queue ! rtpjitterbuffer latency=");
    push_decimal(&mut s, cfg.latency_ms as u64);
    s.append(" drop-on-latency=true ! ");
    s.append(
        if h264 {
            "rtph264depay ! h264parse"
        } else {
            "rtph265depay ! h265parse"
        },
    );
    s.append(" ! ");
    s.append(
        if h264 {
            "decodebin"
        } else {
            "avdec_h265 output-corrupt=false discard-corrupted-frames=true"
        },
    );
    s.append(" ! tee name=t");
    assert(s@ == receive_trunk(cfg@, codec_stages(cfg@.codec)->0));
    if !cfg.no_preview {
        s.append(
            " t. ! queue ! videoconvert ! fpsdisplaysink text-overlay=false video-sink=autovideosink sync=false",
        );
    }
    assert(s@ =~= receive_trunk(cfg@, codec_stages(cfg@.codec)->0) + preview_branch(cfg@));
    push_device_branch(&mut s, cfg);
    Ok(s)
}

/// The command that runs a pipeline of this description.
pub fn launch(pipeline: &str) -> (cmd: CommandLine)
    ensures
        cmd@ == launch_command(pipeline@),
{
    let mut script: String = "gst-launch-1.0 -e -v ".to_owned();
    script.append(pipeline);
    let mut args: Vec<String> = Vec::new();
    args.push("-lc".to_owned());
    args.push(script);
    let cmd = CommandLine { program: "bash".to_owned(), args };
    assert(cmd@.args =~= launch_command(pipeline@).args);
    cmd
}

/// What the command line asks for.
#[derive(Debug)]
pub enum Cli {
    /// Show how the program is used.
    Help,
    /// Sit in the tray.
    Tray,
    /// Show where the settings are kept.
    ConfigPath,
    /// Receive with the settings that were saved.
    RunSaved,
    /// Receive with these settings.
    Receive(ReceiverConfig),
}

/// A [`Cli`] with its texts as sequences of characters.
pub enum CliModel {
    Help,
    Tray,
    ConfigPath,
    RunSaved,
    Receive(ReceiverConfigModel),
}

impl View for Cli {
    type V = CliModel;

    open spec fn view(&self) -> CliModel {
        match self {
            Cli::Help => CliModel::Help,
            Cli::Tray => CliModel::Tray,
            Cli::ConfigPath => CliModel::ConfigPath,
            Cli::RunSaved => CliModel::RunSaved,
            Cli::Receive(cfg) => CliModel::Receive(cfg@),
        }
    }
}

/// Whether an option is followed by a value.
pub open spec fn takes_value(name: Seq<char>) -> bool {
    name == "--bind-ip"@ || name == "--codec"@ || name == "--port"@ || name == "--payload"@ || name
        == "--clock-rate"@ || name == "--latency-ms"@ || name == "--v4l2-device"@ || name == "--v4l2-width"@
        || name == "--v4l2-height"@ || name == "--v4l2-fps"@
}

/// An option's value as a number from 1 to `u32::MAX`.
pub open spec fn positive(name: Seq<char>, value: Seq<char>) -> Result<u32, Seq<char>> {
    match parsed_unsigned(value, u32::MAX as nat) {
        Some(n) => if n == 0 {
            Err(name + " must be > 0"@)
        } else {
            Ok(n as u32)
        },
        None => Err(invalid_value(name, value)),
    }
}

/// The settings after the option `name` was given the value `value`.
pub open spec fn with_value(m: ReceiverConfigModel, name: Seq<char>, value: Seq<char>) -> Result<
    ReceiverConfigModel,
    Seq<char>,
> {
    if name == "--bind-ip"@ {
        Ok(ReceiverConfigModel { bind_ip: value, ..m })
    } else if name == "--codec"@ {
        if lower_text(value) == "h264"@ {
            Ok(ReceiverConfigModel { codec: "h264"@, ..m })
        } else if lower_text(value) == "h265"@ {
            Ok(ReceiverConfigModel { codec: "h265"@, ..m })
        } else {
            Err(invalid_value(name, value) + " (expected h264 or h265)"@)
        }
    } else if name == "--port"@ {
        match parsed_unsigned(value, u16::MAX as nat) {
            Some(n) => Ok(ReceiverConfigModel { port: n as u16, ..m }),
            None => Err(invalid_value(name, value)),
        }
    } else if name == "--payload"@ {
        match parsed_unsigned(value, u8::MAX as nat) {
            Some(n) => Ok(ReceiverConfigModel { payload: n as u8, ..m }),
            None => Err(invalid_value(name, value)),
        }
    } else if name == "--clock-rate"@ {
        match parsed_unsigned(value, u32::MAX as nat) {
            Some(n) => Ok(ReceiverConfigModel { clock_rate: n as u32, ..m }),
            None => Err(invalid_value(name, value)),
        }
    } else if name == "--latency-ms"@ {
        match parsed_unsigned(value, u32::MAX as nat) {
            Some(n) => Ok(ReceiverConfigModel { latency_ms: n as u32, ..m }),
            None => Err(invalid_value(name, value)),
        }
    } else if name == "--v4l2-device"@ {
        Ok(ReceiverConfigModel { v4l2_device: Some(value), ..m })
    } else if name == "--v4l2-width"@ {
        match positive(name, value) {
            Ok(n) => Ok(ReceiverConfigModel { v4l2_width: Some(n), ..m }),
            Err(e) => Err(e),
        }
    } else if name == "--v4l2-height"@ {
        match positive(name, value) {
            Ok(n) => Ok(ReceiverConfigModel { v4l2_height: Some(n), ..m }),
            Err(e) => Err(e),
        }
    } else {
        match positive(name, value) {
            Ok(n) => Ok(ReceiverConfigModel { v4l2_fps: Some(n), ..m }),
            Err(e) => Err(e),
        }
    }
}

/// The settings after the options from index `from` on, read from left to
/// right; the first option that is wrong ends the reading.
pub open spec fn with_options(m: ReceiverConfigModel, args: Seq<Seq<char>>, from: int) -> Result<
    ReceiverConfigModel,
    Seq<char>,
>
    decreases args.len() - from,
{
    if from < 0 || from >= args.len() {
        Ok(m)
    } else if args[from] == "--no-preview"@ {
        with_options(ReceiverConfigModel { no_preview: true, ..m }, args, from + 1)
    } else if takes_value(args[from]) {
        if from + 1 >= args.len() {
            Err("missing value after "@ + args[from])
        } else {
            match with_value(m, args[from], args[from + 1]) {
                Ok(next) => with_options(next, args, from + 2),
                Err(e) => Err(e),
            }
        }
    } else {
        Err("unknown argument: "@ + args[from])
    }
}

/// What a receiver is asked to do by the options after `receive`.
pub open spec fn receive_of(args: Seq<Seq<char>>) -> Result<CliModel, Seq<char>> {
    match with_options(default_receiver(), args, 2) {
        Ok(m) => if m.no_preview && m.v4l2_device is None {
            Err("nothing to do: provide preview or --v4l2-device when using --no-preview"@)
        } else {
            Ok(CliModel::Receive(m))
        },
        Err(e) => Err(e),
    }
}

/// What a command line asks for. `args[0]` is the program's name and
/// `args[1]` its command.
pub open spec fn cli_of(args: Seq<Seq<char>>) -> Result<CliModel, Seq<char>> {
    if args.len() <= 1 {
        Ok(CliModel::Help)
    } else if args[1] == "-h"@ || args[1] == "--help"@ || args[1] == "help"@ {
        Ok(CliModel::Help)
    } else if args[1] == "tray"@ {
        Ok(CliModel::Tray)
    } else if args[1] == "config"@ {
        Ok(CliModel::ConfigPath)
    } else if args[1] == "run-saved"@ {
        Ok(CliModel::RunSaved)
    } else if args[1] == "receive"@ {
        receive_of(args)
    } else {
        Err("unknown command: "@ + args[1])
    }
}

fn expects_value(name: &str) -> (r: bool)
    ensures
        r == takes_value(name@),
{
    same_text(name, "--bind-ip") || same_text(name, "--codec") || same_text(name, "--port") || same_text(
        name,
        "--payload",
    ) || same_text(name, "--clock-rate") || same_text(name, "--latency-ms") || same_text(name, "--v4l2-device")
        || same_text(name, "--v4l2-width") || same_text(name, "--v4l2-height") || same_text(name, "--v4l2-fps")
}

fn positive_number(name: &str, value: &str) -> (r: Result<u32, String>)
    ensures
        match positive(name@, value@) {
            Ok(n) => r == Ok::<u32, String>(n),
            Err(text) => r matches Err(e) && e@ == text,
        },
{
    match number(name, value, u32::MAX as u64) {
        Ok(n) => if n == 0 {
            Err(message(name, " must be > 0"))
        } else {
            Ok(n as u32)
        },
        Err(e) => Err(e),
    }
}

fn set_value(cfg: &mut ReceiverConfig, name: &str, value: &str) -> (r: Result<(), String>)
    requires
        takes_value(name@),
    ensures
        match with_value(old(cfg)@, name@, value@) {
            Ok(m) => r is Ok && final(cfg)@ == m,
            Err(text) => r matches Err(e) && e@ == text,
        },
{
    if same_text(name, "--bind-ip") {
        cfg.bind_ip = value.to_owned();
    } else if same_text(name, "--codec") {
        if same_folded(value, "h264") {
            cfg.codec = "h264".to_owned();
        } else if same_folded(value, "h265") {
            cfg.codec = "h265".to_owned();
        } else {
            let mut e: String = invalid(name, value);
            e.append(" (expected h264 or h265)");
            return Err(e);
        }
    } else if same_text(name, "--port") {
        match number(name, value, u16::MAX as u64) {
            Ok(n) => {
                cfg.port = n as u16;
            },
            Err(e) => {
                return Err(e);
            },
        }
    } else if same_text(name, "--payload") {
        match number(name, value, u8::MAX as u64) {
            Ok(n) => {
                cfg.payload = n as u8;
            },
            Err(e) => {
                return Err(e);
            },
        }
    } else if same_text(name, "--clock-rate") {
        match number(name, value, u32::MAX as u64) {
            Ok(n) => {
                cfg.clock_rate = n as u32;
            },
            Err(e) => {
                return Err(e);
            },
        }
    } else if same_text(name, "--latency-ms") {
        match number(name, value, u32::MAX as u64) {
            Ok(n) => {
                cfg.latency_ms = n as u32;
            },
            Err(e) => {
                return Err(e);
            },
        }
    } else if same_text(name, "--v4l2-device") {
        cfg.v4l2_device = Some(value.to_owned());
    } else if same_text(name, "--v4l2-width") {
        match positive_number(name, value) {
            Ok(n) => {
                cfg.v4l2_width = Some(n);
            },
            Err(e) => {
                return Err(e);
            },
        }
    } else if same_text(name, "--v4l2-height") {
        match positive_number(name, value) {
            Ok(n) => {
                cfg.v4l2_height = Some(n);
            },
            Err(e) => {
                return Err(e);
            },
        }
    } else {
        match positive_number(name, value) {
            Ok(n) => {
                cfg.v4l2_fps = Some(n);
            },
            Err(e) => {
                return Err(e);
            },
        }
    }
    Ok(())
}

fn parse_receive(args: &[String]) -> (r: Result<Cli, String>)
    requires
        args@.len() >= 2,
    ensures
        match receive_of(texts(args@)) {
            Ok(m) => r matches Ok(cli) && cli@ == m,
            Err(text) => r matches Err(e) && e@ == text,
        },
{
    let mut cfg: ReceiverConfig = ReceiverConfig::default();
    let ghost all = texts(args@);
    let mut i: usize = 2;
    while i < args.len()
        invariant
            2 <= i <= args@.len(),
            all == texts(args@),
            with_options(default_receiver(), all, 2) == with_options(cfg@, all, i as int),
        decreases args@.len() - i,
    {
        let name: &str = args[i].as_str();
        assert(all[i as int] == name@);
        if same_text(name, "--no-preview") {
            cfg.no_preview = true;
            i += 1;
        } else if expects_value(name) {
            if i + 1 >= args.len() {
                return Err(message("missing value after ", name));
            }
            let value: &str = args[i + 1].as_str();
            assert(all[i + 1] == value@);
            match set_value(&mut cfg, name, value) {
                Ok(()) => {},
                Err(e) => {
                    return Err(e);
                },
            }
            i += 2;
        } else {
            return Err(message("unknown argument: ", name));
        }
    }
    if cfg.no_preview && cfg.v4l2_device.is_none() {
        return Err("nothing to do: provide preview or --v4l2-device when using --no-preview".to_owned());
    }
    Ok(Cli::Receive(cfg))
}

/// Reads the command line. `args[0]` is the program's name.
pub fn parse_cli(args: &[String]) -> (r: Result<Cli, String>)
    ensures
        match cli_of(texts(args@)) {
            Ok(m) => r matches Ok(cli) && cli@ == m,
            Err(text) => r matches Err(e) && e@ == text,
        },
{
    if args.len() <= 1 {
        return Ok(Cli::Help);
    }
    let command: &str = args[1].as_str();
    assert(texts(args@)[1] == command@);
    if same_text(command, "-h") || same_text(command, "--help") || same_text(command, "help") {
        Ok(Cli::Help)
    } else if same_text(command, "tray") {
        Ok(Cli::Tray)
    } else if same_text(command, "config") {
        Ok(Cli::ConfigPath)
    } else if same_text(command, "run-saved") {
        Ok(Cli::RunSaved)
    } else if same_text(command, "receive") {
        parse_receive(args)
    } else {
        Err(message("unknown command: ", command))
    }
}

} // verus!
