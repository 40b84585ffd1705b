//! The probe: single frames and short recordings to try a setup out.

use vstd::prelude::*;
use vstd::string::{StrSliceExecFns, StringExecFns};
use crate::cli::{decimal, decimal_at, invalid_value, message, number};
use crate::follow::{FollowConfig, FollowPolicy};
use crate::pacer::{keep_ratio_of, output_fps_of, output_rate, OutputRate};
use crate::text::{
    before, before_char, decimal_text, has_prefix, lower_text, parse_unsigned, parsed_unsigned, push_decimal,
    same_folded, same_text, strip_prefix, texts, trim, trimmed,
};

verus! {

/// Seconds that a recording may take beyond its own length before it is
/// given up.
pub const RECORD_GRACE_SECS: u64 = 20;

/// How much to cut off each side of a still picture.
#[derive(Clone, Copy, Debug, PartialEq, Eq, Structural)]
pub struct StillCrop {
    pub left: u32,
    pub right: u32,
    pub top: u32,
    pub bottom: u32,
}

/// The frames of a recording.
#[derive(Clone, Copy, Debug, PartialEq, Eq, Structural)]
pub struct RecordPlan {
    /// Frames to capture.
    pub frames: u32,
    /// One captured frame in this many is kept.
    pub keep_every: u64,
    /// The rate of the recording.
    pub rate: OutputRate,
}

/// The lesser of two numbers.
pub open spec fn least(a: int, b: int) -> int {
    if a <= b {
        a
    } else {
        b
    }
}

/// The margins that leave a window of `width` by `height` pixels of a
/// picture, its corner as near to `(x, y)` as the picture allows; nothing
/// where the picture is smaller than the window.
pub open spec fn still_crop_of(img_w: u32, img_h: u32, x: u32, y: u32, width: u32, height: u32) -> Option<
    StillCrop,
> {
    if img_w < width || img_h < height {
        None
    } else {
        Some(
            StillCrop {
                left: least(x as int, img_w - width) as u32,
                right: (img_w - width - least(x as int, img_w - width)) as u32,
                top: least(y as int, img_h - height) as u32,
                bottom: (img_h - height - least(y as int, img_h - height)) as u32,
            },
        )
    }
}

/// The frames to capture in `duration_secs` seconds at `fps` frames per
/// second, at most `u32::MAX`.
pub open spec fn frames_of(duration_secs: u32, fps: u32) -> int {
    least(duration_secs * fps, u32::MAX as int)
}

/// The seconds after which a recording of `frames` frames at `fps` frames
/// per second is given up: its length, rounded up, and the grace.
pub open spec fn deadline_of(frames: int, fps: int) -> int {
    (frames + fps - 1) / fps + RECORD_GRACE_SECS
}

/// The margins for a still picture.
pub fn still_crop(img_w: u32, img_h: u32, x: u32, y: u32, width: u32, height: u32) -> (r: Option<StillCrop>)
    ensures
        r == still_crop_of(img_w, img_h, x, y, width, height),
        r matches Some(c) ==> c.left + width + c.right == img_w && c.top + height + c.bottom == img_h,
{
    if img_w < width || img_h < height {
        return None;
    }
    let max_x: u32 = img_w - width;
    let max_y: u32 = img_h - height;
    let left: u32 = if x <= max_x {
        x
    } else {
        max_x
    };
    let top: u32 = if y <= max_y {
        y
    } else {
        max_y
    };
    Some(StillCrop { left, right: max_x - left, top, bottom: max_y - top })
}

/// The frames of a recording, or nothing where there would be none.
pub fn record_plan(duration_secs: u32, fps: u32, frame_skip: u32) -> (r: Option<RecordPlan>)
    ensures
        r is Some <==> frames_of(duration_secs, fps) > 0,
        r matches Some(plan) ==> {
            &&& plan.frames == frames_of(duration_secs, fps)
            &&& plan.keep_every == keep_ratio_of(frame_skip as int)
            &&& plan.rate.fps == output_fps_of(fps as int, keep_ratio_of(frame_skip as int))
            &&& plan.rate.exact == (fps as int % keep_ratio_of(frame_skip as int) == 0)
        },
{
    assert(0 <= duration_secs * fps <= 0xffff_ffff * 0xffff_ffff) by (nonlinear_arith)
        requires
            0 <= duration_secs <= 0xffff_ffff,
            0 <= fps <= 0xffff_ffff,
    ;
    let product: u64 = (duration_secs as u64) * (fps as u64);
    let frames: u32 = if product > u32::MAX as u64 {
        u32::MAX
    } else {
        product as u32
    };
    if frames == 0 {
        return None;
    }
    Some(RecordPlan { frames, keep_every: frame_skip as u64 + 1, rate: output_rate(fps, frame_skip) })
}

/// The seconds after which a recording is given up.
pub fn record_deadline_secs(frames: u32, capture_fps: u32) -> (secs: u64)
    requires
        capture_fps > 0,
    ensures
        secs == deadline_of(frames as int, capture_fps as int),
{
    let whole: u64 = (frames as u64 + capture_fps as u64 - 1) / (capture_fps as u64);
    whole + RECORD_GRACE_SECS
}

/// The follow controller's configuration for a recording: the crop-boundary
/// policy over the recording's window.
pub fn follow_config(x: u32, y: u32, width: u32, height: u32, smoothing: u32) -> (f: FollowConfig)
    ensures
        f == (FollowConfig {
            out_w: width,
            out_h: height,
            init_x: x,
            init_y: y,
            follow_enabled: true,
            policy: FollowPolicy::CropBoundary,
            deadzone: 0,
            smoothing,
        }),
{
    FollowConfig {
        out_w: width,
        out_h: height,
        init_x: x,
        init_y: y,
        follow_enabled: true,
        policy: FollowPolicy::CropBoundary,
        deadzone: 0,
        smoothing,
    }
}

/// A setting of a pipeline element: a label and a number.
pub open spec fn setting(label: Seq<char>, value: nat) -> Seq<char> {
    label + decimal_text(value)
}

/// The format of the cropped video: its size, and its rate where one is given.
pub open spec fn raw_caps(width: u32, height: u32, fps: Option<u32>) -> Seq<char> {
    "video/x-raw,width="@ + decimal_text(width as nat) + ",height="@ + decimal_text(height as nat) + match fps {
        Some(f) => ",framerate="@ + decimal_text(f as nat) + "/1"@,
        None => Seq::empty(),
    }
}

/// The arguments with which `gst-launch-1.0` cuts a window out of the
/// picture in the file `shot` and writes it to the file `out`.
pub open spec fn still_args(shot: Seq<char>, out: Seq<char>, crop: StillCrop, width: u32, height: u32) -> Seq<
    Seq<char>,
> {
    seq![
        "-q"@,
        "filesrc"@,
        "location="@ + shot,
        "!"@,
        "decodebin"@,
        "!"@,
        "videoconvert"@,
        "!"@,
        "videocrop"@,
        setting("left="@, crop.left as nat),
        setting("right="@, crop.right as nat),
        setting("top="@, crop.top as nat),
        setting("bottom="@, crop.bottom as nat),
        "!"@,
        raw_caps(width, height, None),
        "!"@,
        "pngenc"@,
        "!"@,
        "filesink"@,
        "location="@ + out,
    ]
}

/// The arguments with which `gst-launch-1.0` records a fixed window of the
/// screen from a PipeWire node to the file `out`.
pub open spec fn record_args_of(
    node_id: u32,
    frames: u32,
    output_fps: u32,
    x: u32,
    y: u32,
    width: u32,
    height: u32,
    out: Seq<char>,
) -> Seq<Seq<char>> {
    seq![
        "-e"@,
        "-q"@,
        "pipewiresrc"@,
        setting("path="@, node_id as nat),
        setting("num-buffers="@, frames as nat),
        "do-timestamp=true"@,
        "!"@,
        "videoconvert"@,
        "!"@,
        "videoscale"@,
        "!"@,
        "videorate"@,
        "drop-only=true"@,
        setting("max-rate="@, output_fps as nat),
        "!"@,
        "videocrop"@,
        setting("left="@, x as nat),
        "right=0"@,
        setting("top="@, y as nat),
        "bottom=0"@,
        "!"@,
        raw_caps(width, height, Some(output_fps)),
        "!"@,
        "vp8enc"@,
        "deadline=1"@,
        "cpu-used=8"@,
        "end-usage=cbr"@,
        "target-bitrate=4000000"@,
        "!"@,
        "webmmux"@,
        "!"@,
        "filesink"@,
        "location="@ + out,
    ]
}

/// The description of the pipeline that captures `frames` frames for a
/// recording that follows the pointer.
pub open spec fn record_capture_text(node_id: nat, frames: nat) -> Seq<char> {
    "pipewiresrc path="@ + decimal_text(node_id) + " do-timestamp=true num-buffers="@ + decimal_text(frames)
        + " ! videoconvert ! video/x-raw,format=RGBA ! appsink name=sink max-buffers=1 drop=true emit-signals=true sync=false"@
}

/// The description of the pipeline that encodes the cropped frames of a
/// recording and writes them to the file `out`.
pub open spec fn record_output_text(width: nat, height: nat, output_fps: nat, out: Seq<char>) -> Seq<char> {
    "appsrc name=src is-live=true format=time do-timestamp=true block=true caps=video/x-raw,format=RGBA,width="@
        + decimal_text(width) + ",height="@ + decimal_text(height) + ",framerate="@ + decimal_text(output_fps)
        + "/1 ! videoconvert ! vp8enc deadline=1 cpu-used=8 end-usage=cbr target-bitrate=4000000 ! webmmux ! filesink location="@
        + out
}

fn labelled(label: &str, value: u32) -> (s: String)
    ensures
        s@ == setting(label@, value as nat),
{
    let mut s: String = label.to_owned();
    push_decimal(&mut s, value as u64);
    s
}

fn joined(label: &str, text: &str) -> (s: String)
    ensures
        s@ == label@ + text@,
{
    let mut s: String = label.to_owned();
    s.append(text);
    s
}

fn caps(width: u32, height: u32, fps: Option<u32>) -> (s: String)
    ensures
        s@ == raw_caps(width, height, fps),
{
    let mut s: String = "video/x-raw,width=".to_owned();
    push_decimal(&mut s, width as u64);
    s.append(",height=");
    push_decimal(&mut s, height as u64);
    match fps {
        Some(f) => {
            let mut rate: String = ",framerate=".to_owned();
            push_decimal(&mut rate, f as u64);
            rate.append("/1");
            s.append(rate.as_str());
        },
        None => {
            assert(s@ =~= raw_caps(width, height, fps));
        },
    }
    s
}

/// The arguments for `gst-launch-1.0` to cut a window out of a picture.
pub fn still_crop_args(shot: &str, out: &str, crop: StillCrop, width: u32, height: u32) -> (args: Vec<String>)
    ensures
        args.deep_view() == still_args(shot@, out@, crop, width, height),
{
    let mut args: Vec<String> = Vec::new();
    args.push("-q".to_owned());
    args.push("filesrc".to_owned());
    args.push(joined("location=", shot));
    args.push("!".to_owned());
    args.push("decodebin".to_owned());
    args.push("!".to_owned());
    args.push("videoconvert".to_owned());
    args.push("!".to_owned());
    args.push("videocrop".to_owned());
    args.push(labelled("left=", crop.left));
    args.push(labelled("right=", crop.right));
    args.push(labelled("top=", crop.top));
    args.push(labelled("bottom=", crop.bottom));
    args.push("!".to_owned());
    args.push(caps(width, height, None));
    args.push("!".to_owned());
    args.push("pngenc".to_owned());
    args.push("!".to_owned());
    args.push("filesink".to_owned());
    args.push(joined("location=", out));
    assert(args.deep_view() =~= still_args(shot@, out@, crop, width, height));
    args
}

/// The arguments for `gst-launch-1.0` to record a fixed window.
pub fn record_args(
    node_id: u32,
    frames: u32,
    output_fps: u32,
    x: u32,
    y: u32,
    width: u32,
    height: u32,
    out: &str,
) -> (args: Vec<String>)
    ensures
        args.deep_view() == record_args_of(node_id, frames, output_fps, x, y, width, height, out@),
{
    let mut args: Vec<String> = Vec::new();
    args.push("-e".to_owned());
    args.push("-q".to_owned());
    args.push("pipewiresrc".to_owned());
    args.push(labelled("path=", node_id));
    args.push(labelled("num-buffers=", frames));
    args.push("do-timestamp=true".to_owned());
    args.push("!".to_owned());
    args.push("videoconvert".to_owned());
    args.push("!".to_owned());
    args.push("videoscale".to_owned());
    args.push("!".to_owned());
    args.push("videorate".to_owned());
    args.push("drop-only=true".to_owned());
    args.push(labelled("max-rate=", output_fps));
    args.push("!".to_owned());
    args.push("videocrop".to_owned());
    args.push(labelled("left=", x));
    args.push("right=0".to_owned());
    args.push(labelled("top=", y));
    args.push("bottom=0".to_owned());
    args.push("!".to_owned());
    args.push(caps(width, height, Some(output_fps)));
    args.push("!".to_owned());
    args.push("vp8enc".to_owned());
    args.push("deadline=1".to_owned());
    args.push("cpu-used=8".to_owned());
    args.push("end-usage=cbr".to_owned());
    args.push("target-bitrate=4000000".to_owned());
    args.push("!".to_owned());
    args.push("webmmux".to_owned());
    args.push("!".to_owned());
    args.push("filesink".to_owned());
    args.push(joined("location=", out));
    assert(args.deep_view() =~= record_args_of(node_id, frames, output_fps, x, y, width, height, out@));
    args
}

/// The description of the capturing pipeline of a recording that follows
/// the pointer.
pub fn record_capture_pipeline(node_id: u32, frames: u32) -> (s: String)
    ensures
        s@ == record_capture_text(node_id as nat, frames as nat),
{
    let mut s: String = "pipewiresrc path=".to_owned();
    push_decimal(&mut s, node_id as u64);
    s.append(" do-timestamp=true num-buffers=");
    push_decimal(&mut s, frames as u64);
    s.append(
        " ! videoconvert ! video/x-raw,format=RGBA ! appsink name=sink max-buffers=1 drop=true emit-signals=true sync=false",
    );
    s
}

/// The description of the output pipeline of a recording that follows the
/// pointer.
pub fn record_output_pipeline(width: u32, height: u32, output_fps: u32, out: &str) -> (s: String)
    ensures
        s@ == record_output_text(width as nat, height as nat, output_fps as nat, out@),
{
    let mut s: String =
        "appsrc name=src is-live=true format=time do-timestamp=true block=true caps=video/x-raw,format=RGBA,width=".to_owned();
    push_decimal(&mut s, width as u64);
    s.append(",height=");
    push_decimal(&mut s, height as u64);
    s.append(",framerate=");
    push_decimal(&mut s, output_fps as u64);
    s.append(
        "/1 ! videoconvert ! vp8enc deadline=1 cpu-used=8 end-usage=cbr target-bitrate=4000000 ! webmmux ! filesink location=",
    );
    s.append(out);
    s
}

/// The settings of a single frame.
#[derive(Debug, Clone)]
pub struct FrameCfg {
    pub x: u32,
    pub y: u32,
    pub width: u32,
    pub height: u32,
    /// The file to write.
    pub out: String,
}

/// The settings of a recording.
#[derive(Debug, Clone)]
pub struct RecordCfg {
    pub x: u32,
    pub y: u32,
    pub width: u32,
    pub height: u32,
    pub duration_secs: u32,
    pub fps: u32,
    pub frame_skip: u32,
    /// The file to write.
    pub out: String,
    pub follow_mouse: bool,
    /// Time between two reports on the pointer, in thousandths of a second.
    pub sample_interval: u32,
    /// Smoothing rate, in thousandths per second.
    pub smoothing: u32,
}

/// What the command line asks for.
#[derive(Debug)]
pub enum Cli {
    /// Show how the program is used.
    Help,
    /// See whether the desktop has what capturing needs.
    Check,
    /// Try to capture frames for so many seconds.
    Capture { timeout_secs: u64 },
    /// Take a single frame.
    Frame(FrameCfg),
    /// Make a recording.
    Record(RecordCfg),
}

/// A [`FrameCfg`] with its text as a sequence of characters.
pub struct FrameModel {
    pub x: u32,
    pub y: u32,
    pub width: u32,
    pub height: u32,
    pub out: Seq<char>,
}

/// A [`RecordCfg`] with its text as a sequence of characters.
pub struct RecordModel {
    pub x: u32,
    pub y: u32,
    pub width: u32,
    pub height: u32,
    pub duration_secs: u32,
    pub fps: u32,
    pub frame_skip: u32,
    pub out: Seq<char>,
    pub follow_mouse: bool,
    pub sample_interval: u32,
    pub smoothing: u32,
}

/// A [`Cli`] with its texts as sequences of characters.
pub enum CliModel {
    Help,
    Check,
    Capture { timeout_secs: u64 },
    Frame(FrameModel),
    Record(RecordModel),
}

impl View for FrameCfg {
    type V = FrameModel;

    open spec fn view(&self) -> FrameModel {
        FrameModel { x: self.x, y: self.y, width: self.width, height: self.height, out: self.out@ }
    }
}

impl View for RecordCfg {
    type V = RecordModel;

    open spec fn view(&self) -> RecordModel {
        RecordModel {
            x: self.x,
            y: self.y,
            width: self.width,
            height: self.height,
            duration_secs: self.duration_secs,
            fps: self.fps,
            frame_skip: self.frame_skip,
            out: self.out@,
            follow_mouse: self.follow_mouse,
            sample_interval: self.sample_interval,
            smoothing: self.smoothing,
        }
    }
}

impl View for Cli {
    type V = CliModel;

    open spec fn view(&self) -> CliModel {
        match self {
            Cli::Help => CliModel::Help,
            Cli::Check => CliModel::Check,
            Cli::Capture { timeout_secs } => CliModel::Capture { timeout_secs: *timeout_secs },
            Cli::Frame(cfg) => CliModel::Frame(cfg@),
            Cli::Record(cfg) => CliModel::Record(cfg@),
        }
    }
}

/// The command whose options are read.
#[derive(Clone, Copy, Debug, PartialEq, Eq, Structural)]
pub enum Mode {
    Capture,
    Frame,
    Record,
}

/// Settings while the options are read: those of all three commands, the
/// decimal numbers still unchecked.
struct Draft {
    timeout_secs: u64,
    x: u32,
    y: u32,
    width: u32,
    height: u32,
    duration_secs: u32,
    fps: u32,
    frame_skip: u32,
    out: Option<String>,
    follow_mouse: bool,
    sample_interval: i64,
    smoothing: i64,
}

/// Settings while the options are read.
pub struct DraftModel {
    pub timeout_secs: u64,
    pub x: u32,
    pub y: u32,
    pub width: u32,
    pub height: u32,
    pub duration_secs: u32,
    pub fps: u32,
    pub frame_skip: u32,
    /// The file to write, where one was named.
    pub out: Option<Seq<char>>,
    pub follow_mouse: bool,
    /// In thousandths of a second.
    pub sample_interval: i64,
    /// In thousandths per second.
    pub smoothing: i64,
}

impl View for Draft {
    type V = DraftModel;

    closed spec fn view(&self) -> DraftModel {
        DraftModel {
            timeout_secs: self.timeout_secs,
            x: self.x,
            y: self.y,
            width: self.width,
            height: self.height,
            duration_secs: self.duration_secs,
            fps: self.fps,
            frame_skip: self.frame_skip,
            out: match self.out {
                Some(o) => Some(o@),
                None => None,
            },
            follow_mouse: self.follow_mouse,
            sample_interval: self.sample_interval,
            smoothing: self.smoothing,
        }
    }
}

/// The settings before any option is read.
pub open spec fn first_draft() -> DraftModel {
    DraftModel {
        timeout_secs: 12,
        x: 0,
        y: 0,
        width: 1280,
        height: 720,
        duration_secs: 5,
        fps: 10,
        frame_skip: 0,
        out: None,
        follow_mouse: false,
        sample_interval: 500,
        smoothing: 8_000,
    }
}

/// Whether `name` is an option of the command that is followed by a value.
pub open spec fn takes_value(mode: Mode, name: Seq<char>) -> bool {
    match mode {
        Mode::Capture => name == "--timeout-secs"@,
        Mode::Frame => name == "--x"@ || name == "--y"@ || name == "--width"@ || name == "--height"@ || name
            == "--out"@,
        Mode::Record => name == "--x"@ || name == "--y"@ || name == "--width"@ || name == "--height"@ || name
            == "--duration-secs"@ || name == "--fps"@ || name == "--frame-skip"@ || name == "--out"@ || name
            == "--sample-interval"@ || name == "--smoothing"@,
    }
}

/// Whether `name` is an option of the command that stands alone.
pub open spec fn is_flag(mode: Mode, name: Seq<char>) -> bool {
    mode == Mode::Record && name == "--follow-mouse"@
}

/// An option's value as a number of 32 bits.
pub open spec fn number_of(name: Seq<char>, value: Seq<char>) -> Result<u32, Seq<char>> {
    match parsed_unsigned(value, u32::MAX as nat) {
        Some(n) => Ok(n as u32),
        None => Err(invalid_value(name, value)),
    }
}

/// The settings after the option `name` was given the value `value`, which
/// reads as the decimal number `read` if it reads as one.
pub open spec fn with_value(d: DraftModel, name: Seq<char>, value: Seq<char>, read: Option<i64>) -> Result<
    DraftModel,
    Seq<char>,
> {
    if name == "--timeout-secs"@ {
        match parsed_unsigned(value, u64::MAX as nat) {
            Some(n) => Ok(DraftModel { timeout_secs: n as u64, ..d }),
            None => Err(invalid_value(name, value)),
        }
    } else if name == "--out"@ {
        Ok(DraftModel { out: Some(value), ..d })
    } else if name == "--sample-interval"@ {
        match read {
            Some(v) => Ok(DraftModel { sample_interval: v, ..d }),
            None => Err(invalid_value(name, value)),
        }
    } else if name == "--smoothing"@ {
        match read {
            Some(v) => Ok(DraftModel { smoothing: v, ..d }),
            None => Err(invalid_value(name, value)),
        }
    } else {
        match number_of(name, value) {
            Ok(n) => if name == "--x"@ {
                Ok(DraftModel { x: n, ..d })
            } else if name == "--y"@ {
                Ok(DraftModel { y: n, ..d })
            } else if name == "--width"@ {
                Ok(DraftModel { width: n, ..d })
            } else if name == "--height"@ {
                Ok(DraftModel { height: n, ..d })
            } else if name == "--duration-secs"@ {
                Ok(DraftModel { duration_secs: n, ..d })
            } else if name == "--fps"@ {
                Ok(DraftModel { fps: n, ..d })
            } else {
                Ok(DraftModel { frame_skip: n, ..d })
            },
            Err(e) => Err(e),
        }
    }
}

/// The settings after the options from index `from` on, read from left to
/// right; the first option that is wrong ends the reading.
pub open spec fn with_options(
    mode: Mode,
    d: DraftModel,
    args: Seq<Seq<char>>,
    decimals: Seq<Option<i64>>,
    from: int,
) -> Result<DraftModel, Seq<char>>
    decreases args.len() - from,
{
    if from < 0 || from >= args.len() {
        Ok(d)
    } else if is_flag(mode, args[from]) {
        with_options(mode, DraftModel { follow_mouse: true, ..d }, args, decimals, from + 1)
    } else if takes_value(mode, args[from]) {
        if from + 1 >= args.len() {
            Err("missing value after "@ + args[from])
        } else {
            match with_value(d, args[from], args[from + 1], decimal_at(decimals, from + 1)) {
                Ok(next) => with_options(mode, next, args, decimals, from + 2),
                Err(e) => Err(e),
            }
        }
    } else {
        Err("unknown argument: "@ + args[from])
    }
}

/// A decimal number as a number of 32 bits: one beyond the range counts as
/// the largest.
pub open spec fn capped(v: i64) -> u32 {
    if v > u32::MAX {
        u32::MAX
    } else {
        v as u32
    }
}

/// The file that a draft names, or the one that the command writes if none
/// was named.
pub open spec fn out_or(d: DraftModel, default: Seq<char>) -> Seq<char> {
    match d.out {
        Some(o) => o,
        None => default,
    }
}

/// What a draft makes for a command, or the first thing that is wrong with it.
pub open spec fn finished(mode: Mode, d: DraftModel) -> Result<CliModel, Seq<char>> {
    match mode {
        Mode::Capture => Ok(CliModel::Capture { timeout_secs: d.timeout_secs }),
        Mode::Frame => if d.width == 0 || d.height == 0 {
            Err("--width and --height must be > 0"@)
        } else {
            Ok(
                CliModel::Frame(
                    FrameModel { x: d.x, y: d.y, width: d.width, height: d.height, out: out_or(d, "vp-frame.png"@) },
                ),
            )
        },
        Mode::Record => if d.width == 0 || d.height == 0 {
            Err("--width and --height must be > 0"@)
        } else if d.duration_secs == 0 {
            Err("--duration-secs must be > 0"@)
        } else if d.fps == 0 {
            Err("--fps must be > 0"@)
        } else if d.sample_interval <= 0 {
            Err("--sample-interval must be > 0"@)
        } else if d.smoothing <= 0 {
            Err("--smoothing must be > 0"@)
        } else {
            Ok(
                CliModel::Record(
                    RecordModel {
                        x: d.x,
                        y: d.y,
                        width: d.width,
                        height: d.height,
                        duration_secs: d.duration_secs,
                        fps: d.fps,
                        frame_skip: d.frame_skip,
                        out: out_or(d, "vp-record.webm"@),
                        follow_mouse: d.follow_mouse,
                        sample_interval: capped(d.sample_interval),
                        smoothing: capped(d.smoothing),
                    },
                ),
            )
        },
    }
}

/// What a command is asked to do by the options after it.
pub open spec fn command_of(mode: Mode, args: Seq<Seq<char>>, decimals: Seq<Option<i64>>) -> Result<
    CliModel,
    Seq<char>,
> {
    match with_options(mode, first_draft(), args, decimals, 2) {
        Ok(d) => finished(mode, d),
        Err(e) => Err(e),
    }
}

/// What a command line asks for. `args[0]` is the program's name and
/// `args[1]` its command.
pub open spec fn cli_of(args: Seq<Seq<char>>, decimals: Seq<Option<i64>>) -> Result<CliModel, Seq<char>> {
    if args.len() <= 1 {
        Ok(CliModel::Help)
    } else if args[1] == "-h"@ || args[1] == "--help"@ || args[1] == "help"@ {
        Ok(CliModel::Help)
    } else if args[1] == "check"@ {
        Ok(CliModel::Check)
    } else if args[1] == "capture"@ {
        command_of(Mode::Capture, args, decimals)
    } else if args[1] == "frame"@ {
        command_of(Mode::Frame, args, decimals)
    } else if args[1] == "record"@ {
        command_of(Mode::Record, args, decimals)
    } else {
        Err("unknown command: "@ + args[1])
    }
}

fn expects_value(mode: Mode, name: &str) -> (r: bool)
    ensures
        r == takes_value(mode, name@),
{
    match mode {
        Mode::Capture => same_text(name, "--timeout-secs"),
        Mode::Frame => same_text(name, "--x") || same_text(name, "--y") || same_text(name, "--width") || same_text(
            name,
            "--height",
        ) || same_text(name, "--out"),
        Mode::Record => same_text(name, "--x") || same_text(name, "--y") || same_text(name, "--width") || same_text(
            name,
            "--height",
        ) || same_text(name, "--duration-secs") || same_text(name, "--fps") || same_text(name, "--frame-skip")
            || same_text(name, "--out") || same_text(name, "--sample-interval") || same_text(name, "--smoothing"),
    }
}

fn set_value(d: &mut Draft, name: &str, value: &str, read: Option<i64>) -> (r: Result<(), String>)
    ensures
        match with_value(old(d)@, name@, value@, read) {
            Ok(m) => r is Ok && final(d)@ == m,
            Err(text) => r matches Err(e) && e@ == text,
        },
{
    if same_text(name, "--timeout-secs") {
        match number(name, value, u64::MAX) {
            Ok(n) => {
                d.timeout_secs = n;
            },
            Err(e) => {
                return Err(e);
            },
        }
    } else if same_text(name, "--out") {
        d.out = Some(value.to_owned());
    } else if same_text(name, "--sample-interval") {
        match decimal(name, value, read) {
            Ok(v) => {
                d.sample_interval = v;
            },
            Err(e) => {
                return Err(e);
            },
        }
    } else if same_text(name, "--smoothing") {
        match decimal(name, value, read) {
            Ok(v) => {
                d.smoothing = v;
            },
            Err(e) => {
                return Err(e);
            },
        }
    } else {
        let n: u32 = match number(name, value, u32::MAX as u64) {
            Ok(n) => n as u32,
            Err(e) => {
                return Err(e);
            },
        };
        if same_text(name, "--x") {
            d.x = n;
        } else if same_text(name, "--y") {
            d.y = n;
        } else if same_text(name, "--width") {
            d.width = n;
        } else if same_text(name, "--height") {
            d.height = n;
        } else if same_text(name, "--duration-secs") {
            d.duration_secs = n;
        } else if same_text(name, "--fps") {
            d.fps = n;
        } else {
            d.frame_skip = n;
        }
    }
    Ok(())
}

fn cap(v: i64) -> (r: u32)
    requires
        v >= 0,
    ensures
        r == capped(v),
{
    if v > u32::MAX as i64 {
        u32::MAX
    } else {
        v as u32
    }
}

fn finish(mode: Mode, d: Draft) -> (r: Result<Cli, String>)
    ensures
        match finished(mode, d@) {
            Ok(m) => r matches Ok(cli) && cli@ == m,
            Err(text) => r matches Err(e) && e@ == text,
        },
{
    match mode {
        Mode::Capture => Ok(Cli::Capture { timeout_secs: d.timeout_secs }),
        Mode::Frame => {
            if d.width == 0 || d.height == 0 {
                return Err("--width and --height must be > 0".to_owned());
            }
            let out: String = match d.out {
                Some(o) => o,
                None => "vp-frame.png".to_owned(),
            };
            Ok(Cli::Frame(FrameCfg { x: d.x, y: d.y, width: d.width, height: d.height, out }))
        },
        Mode::Record => {
            if d.width == 0 || d.height == 0 {
                return Err("--width and --height must be > 0".to_owned());
            }
            if d.duration_secs == 0 {
                return Err("--duration-secs must be > 0".to_owned());
            }
            if d.fps == 0 {
                return Err("--fps must be > 0".to_owned());
            }
            if d.sample_interval <= 0 {
                return Err("--sample-interval must be > 0".to_owned());
            }
            if d.smoothing <= 0 {
                return Err("--smoothing must be > 0".to_owned());
            }
            let out: String = match d.out {
                Some(o) => o,
                None => "vp-record.webm".to_owned(),
            };
            Ok(
                Cli::Record(
                    RecordCfg {
                        x: d.x,
                        y: d.y,
                        width: d.width,
                        height: d.height,
                        duration_secs: d.duration_secs,
                        fps: d.fps,
                        frame_skip: d.frame_skip,
                        out,
                        follow_mouse: d.follow_mouse,
                        sample_interval: cap(d.sample_interval),
                        smoothing: cap(d.smoothing),
                    },
                ),
            )
        },
    }
}

fn parse_command(mode: Mode, args: &[String], decimals: &[Option<i64>]) -> (r: Result<Cli, String>)
    requires
        args@.len() >= 2,
    ensures
        match command_of(mode, texts(args@), decimals@) {
            Ok(m) => r matches Ok(cli) && cli@ == m,
            Err(text) => r matches Err(e) && e@ == text,
        },
{
    let mut d = Draft {
        timeout_secs: 12,
        x: 0,
        y: 0,
        width: 1280,
        height: 720,
        duration_secs: 5,
        fps: 10,
        frame_skip: 0,
        out: None,
        follow_mouse: false,
        sample_interval: 500,
        smoothing: 8_000,
    };
    let ghost all = texts(args@);
    let mut i: usize = 2;
    while i < args.len()
        invariant
            2 <= i <= args@.len(),
            all == texts(args@),
            with_options(mode, first_draft(), all, decimals@, 2) == with_options(
                mode,
                d@,
                all,
                decimals@,
                i as int,
            ),
        decreases args@.len() - i,
    {
        let name: &str = args[i].as_str();
        assert(all[i as int] == name@);
        let flag: bool = match mode {
            Mode::Record => same_text(name, "--follow-mouse"),
            _ => false,
        };
        if flag {
            d.follow_mouse = true;
            i += 1;
        } else if expects_value(mode, name) {
            if i + 1 >= args.len() {
                return Err(message("missing value after ", name));
            }
            let value: &str = args[i + 1].as_str();
            assert(all[i + 1] == value@);
            let read: Option<i64> = if i + 1 < decimals.len() {
                decimals[i + 1]
            } else {
                None
            };
            match set_value(&mut d, name, value, read) {
                Ok(()) => {},
                Err(e) => {
                    return Err(e);
                },
            }
            i += 2;
        } else {
            return Err(message("unknown argument: ", name));
        }
    }
    finish(mode, d)
}

/// Reads the command line. `args[0]` is the program's name.
///
/// Two options take decimal numbers, which this crate does not read:
/// `decimals[i]` is what `args[i]` says as a decimal number, in thousandths,
/// where it is one, and nothing where it is none or the list is too short.
pub fn parse_cli(args: &[String], decimals: &[Option<i64>]) -> (r: Result<Cli, String>)
    ensures
        match cli_of(texts(args@), decimals@) {
            Ok(m) => r matches Ok(cli) && cli@ == m,
            Err(text) => r matches Err(e) && e@ == text,
        },
{
    if args.len() <= 1 {
        return Ok(Cli::Help);
    }
    let command: &str = args[1].as_str();
    assert(texts(args@)[1] == command@);
    if same_text(command, "-h") || same_text(command, "--help") || same_text(command, "help") {
        Ok(Cli::Help)
    } else if same_text(command, "check") {
        Ok(Cli::Check)
    } else if same_text(command, "capture") {
        parse_command(Mode::Capture, args, decimals)
    } else if same_text(command, "frame") {
        parse_command(Mode::Frame, args, decimals)
    } else if same_text(command, "record") {
        parse_command(Mode::Record, args, decimals)
    } else {
        Err(message("unknown command: ", command))
    }
}

/// Width and height as far as a report has named them.
#[derive(Clone, Copy, Debug, PartialEq, Eq, Structural)]
pub struct Dimensions {
    pub width: Option<u32>,
    pub height: Option<u32>,
}

/// The number that follows a label in a line: what stands between the
/// white space after the label and the next blank, read as a number.
pub open spec fn number_after(line: Seq<char>, label: Seq<char>) -> Option<u32> {
    match parsed_unsigned(
        before(trimmed(line.subrange(label.len() as int, line.len() as int)), ' '),
        u32::MAX as nat,
    ) {
        Some(n) => Some(n as u32),
        None => None,
    }
}

/// What is known of the dimensions after one more line of the report. A
/// line that names a dimension replaces what was known of it, also where
/// it names it badly.
pub open spec fn after_line(d: Dimensions, line: Seq<char>) -> Dimensions {
    Dimensions {
        width: if has_prefix(trimmed(line), "Width:"@) {
            number_after(trimmed(line), "Width:"@)
        } else {
            d.width
        },
        height: if has_prefix(trimmed(line), "Height:"@) {
            number_after(trimmed(line), "Height:"@)
        } else {
            d.height
        },
    }
}

/// The text after the first line.
pub open spec fn after_first_line(text: Seq<char>) -> Seq<char> {
    if before(text, '\n').len() < text.len() {
        text.subrange(before(text, '\n').len() as int + 1, text.len() as int)
    } else {
        Seq::empty()
    }
}

/// What is known of the dimensions after all lines of a report.
pub open spec fn after_lines(d: Dimensions, text: Seq<char>) -> Dimensions
    decreases text.len(),
{
    if text.len() == 0 {
        d
    } else {
        after_lines(after_line(d, before(text, '\n')), after_first_line(text))
    }
}

/// The dimensions that a report names, where it names both.
pub open spec fn dimensions_of(text: Seq<char>) -> Option<(u32, u32)> {
    let d = after_lines(Dimensions { width: None, height: None }, text);
    if d.width is Some && d.height is Some {
        Some((d.width->0, d.height->0))
    } else {
        None
    }
}

/// Whether a file with this ending is a picture.
pub open spec fn picture_ending(ending: Seq<char>) -> bool {
    lower_text(ending) == "png"@ || lower_text(ending) == "jpg"@ || lower_text(ending) == "jpeg"@ || lower_text(
        ending,
    ) == "bmp"@ || lower_text(ending) == "webp"@
}

/// Whether `i` is the place of the latest of a list of times, the first
/// such place where several share it.
pub open spec fn is_latest(times: Seq<u64>, i: int) -> bool {
    &&& 0 <= i < times.len()
    &&& forall|k: int| 0 <= k < times.len() ==> times[k] <= times[i]
    &&& forall|k: int| 0 <= k < i ==> times[k] < times[i]
}

fn number_in(line: &str, label: &str) -> (r: Option<u32>)
    requires
        has_prefix(line@, label@),
    ensures
        r == number_after(line@, label@),
{
    let rest: &str = match strip_prefix(line, label) {
        Some(rest) => rest,
        None => {
            return None;
        },
    };
    match parse_unsigned(before_char(trim(rest), ' '), u32::MAX as u64) {
        Some(n) => Some(n as u32),
        None => None,
    }
}

fn read_line(d: Dimensions, line: &str) -> (r: Dimensions)
    ensures
        r == after_line(d, line@),
{
    let t: &str = trim(line);
    let width: Option<u32> = if strip_prefix(t, "Width:").is_some() {
        number_in(t, "Width:")
    } else {
        d.width
    };
    let height: Option<u32> = if strip_prefix(t, "Height:").is_some() {
        number_in(t, "Height:")
    } else {
        d.height
    };
    Dimensions { width, height }
}

/// Reads the dimensions of a picture out of the report that the media
/// discoverer prints: the numbers after `Width:` and `Height:`.
pub fn parse_dimensions(text: &str) -> (r: Option<(u32, u32)>)
    ensures
        r == dimensions_of(text@),
{
    let mut d = Dimensions { width: None, height: None };
    let mut rest: &str = text;
    while rest.unicode_len() > 0
        invariant
            after_lines(Dimensions { width: None, height: None }, text@) == after_lines(d, rest@),
        decreases rest@.len(),
    {
        let line: &str = before_char(rest, '\n');
        let used: usize = line.unicode_len();
        let total: usize = rest.unicode_len();
        d = read_line(d, line);
        proof {
            reveal_strlit("");
            assert(""@ =~= Seq::<char>::empty());
        }
        rest = if used < total {
            rest.substring_char(used + 1, total)
        } else {
            ""
        };
    }
    match (d.width, d.height) {
        (Some(w), Some(h)) => Some((w, h)),
        _ => None,
    }
}

/// Whether a file with this ending is a picture that the probe can crop.
pub fn is_picture_ending(ending: &str) -> (r: bool)
    ensures
        r == picture_ending(ending@),
{
    same_folded(ending, "png") || same_folded(ending, "jpg") || same_folded(ending, "jpeg") || same_folded(
        ending,
        "bmp",
    ) || same_folded(ending, "webp")
}

/// The place of the latest of a list of times, the first such place where
/// several share it; nothing for an empty list.
pub fn latest(times: &[u64]) -> (r: Option<usize>)
    ensures
        r is None <==> times@.len() == 0,
        r matches Some(i) ==> is_latest(times@, i as int),
{
    if times.len() == 0 {
        return None;
    }
    let mut best: usize = 0;
    let mut i: usize = 1;
    while i < times.len()
        invariant
            1 <= i <= times@.len(),
            is_latest(times@.subrange(0, i as int), best as int),
        decreases times@.len() - i,
    {
        if times[i] > times[best] {
            best = i;
        }
        assert(is_latest(times@.subrange(0, i + 1), best as int)) by {
            let now = times@.subrange(0, i + 1);
            let then = times@.subrange(0, i as int);
            assert forall|k: int| 0 <= k < now.len() implies now[k] <= now[best as int] by {
                if k < i {
                    assert(then[k] == now[k]);
                }
            }
            assert forall|k: int| 0 <= k < best implies now[k] < now[best as int] by {
                assert(then[k] == now[k]);
            }
        }
        i += 1;
    }
    assert(times@.subrange(0, times@.len() as int) =~= times@);
    Some(best)
}

} // verus!
