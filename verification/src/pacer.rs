//! Frame pacer: which frames are kept, and when they are shown.
//!
//! Of every `keep_ratio` frames that come in, the first is kept and the rest
//! are dropped. The kept frames are stamped as if they had arrived at a
//! perfectly even rate: the timeline has no gaps and does not depend on when
//! the frames were really captured.

use vstd::prelude::*;

verus! {

/// Nanoseconds in a second.
pub const NANOS_PER_SEC: u64 = 1_000_000_000;

/// The rate at which frames leave a session.
#[derive(Clone, Copy, Debug, PartialEq, Eq, Structural)]
pub struct OutputRate {
    /// Frames per second, at least 1.
    pub fps: u32,
    /// Whether the source rate is a whole multiple of it. Where it is not,
    /// the output runs a little slower than the kept frames arrive.
    pub exact: bool,
}

/// Place of a kept frame on the output timeline.
#[derive(Clone, Copy, Debug, PartialEq, Eq, Structural)]
pub struct Stamp {
    /// Presentation time, in nanoseconds.
    pub pts_ns: u64,
    /// How long the frame is shown, in nanoseconds.
    pub duration_ns: u64,
}

/// The pacer's counters and the rates it was made with.
#[derive(Clone, Copy, Debug, PartialEq, Eq, Structural)]
pub struct Pacer {
    /// One frame in this many is kept.
    pub keep_ratio: u64,
    /// Output frames per second.
    pub output_fps: u32,
    /// Frames that came in.
    pub frames_in: u64,
    /// Frames that were kept.
    pub frames_out: u64,
}

/// One frame in `frame_skip + 1` is kept.
pub open spec fn keep_ratio_of(frame_skip: int) -> int {
    frame_skip + 1
}

/// The output rate: the source rate divided by the keep ratio, rounded
/// down, but never under one frame per second.
pub open spec fn output_fps_of(source_fps: int, keep_ratio: int) -> int {
    if source_fps / keep_ratio >= 1 {
        source_fps / keep_ratio
    } else {
        1
    }
}

/// The time from one kept frame to the next, in nanoseconds.
pub open spec fn period_of(output_fps: int) -> int {
    NANOS_PER_SEC as int / output_fps
}

/// Whether frame number `index`, counted from 0, is kept.
pub open spec fn keeps(index: int, keep_ratio: int) -> bool {
    index % keep_ratio == 0
}

/// How many of the first `frames` frames are kept.
pub open spec fn kept_among(frames: nat, keep_ratio: int) -> nat
    decreases frames,
{
    if frames == 0 {
        0
    } else if keeps(frames - 1, keep_ratio) {
        kept_among((frames - 1) as nat, keep_ratio) + 1
    } else {
        kept_among((frames - 1) as nat, keep_ratio)
    }
}

/// Of `frames` frames, one in `keep_ratio` is kept, the first of each run:
/// that is `frames / keep_ratio`, rounded up.
pub proof fn lemma_kept_among(frames: nat, keep_ratio: int)
    requires
        keep_ratio >= 1,
    ensures
        kept_among(frames, keep_ratio) == (frames + keep_ratio - 1) / keep_ratio,
    decreases frames,
{
    let k = keep_ratio;
    if frames == 0 {
        vstd::arithmetic::div_mod::lemma_fundamental_div_mod_converse(k - 1, k, 0, k - 1);
    } else {
        let i = frames - 1;
        lemma_kept_among(i as nat, k);
        let q = i / k;
        let r = i % k;
        vstd::arithmetic::div_mod::lemma_fundamental_div_mod(i, k);
        vstd::arithmetic::div_mod::lemma_mod_bound(i, k);
        assert(k * q == q * k) by (nonlinear_arith);
        assert((q + 1) * k == q * k + k) by (nonlinear_arith);
        vstd::arithmetic::div_mod::lemma_fundamental_div_mod_converse(i + k, k, q + 1, r);
        if r == 0 {
            vstd::arithmetic::div_mod::lemma_fundamental_div_mod_converse(i + k - 1, k, q, k - 1);
        } else {
            vstd::arithmetic::div_mod::lemma_fundamental_div_mod_converse(i + k - 1, k, q + 1, r - 1);
        }
    }
}

/// Across a whole number of runs of `keep_ratio` frames, exactly one frame
/// of each run is kept.
pub proof fn lemma_kept_of_whole_runs(frames: nat, keep_ratio: int)
    requires
        keep_ratio >= 1,
        frames % (keep_ratio as nat) == 0,
    ensures
        kept_among(frames, keep_ratio) == frames / (keep_ratio as nat),
{
    let k = keep_ratio;
    lemma_kept_among(frames, k);
    let q = frames as int / k;
    vstd::arithmetic::div_mod::lemma_fundamental_div_mod(frames as int, k);
    assert(k * q == q * k) by (nonlinear_arith);
    vstd::arithmetic::div_mod::lemma_fundamental_div_mod_converse(frames + k - 1, k, q, k - 1);
}

/// The timeline has no gaps: each kept frame is shown when the one before
/// it ends. And up to a thousand million frames per second, a frame lasts
/// at least a nanosecond, so that the presentation times rise strictly.
pub proof fn lemma_timeline(output_fps: int, n: nat)
    requires
        output_fps >= 1,
    ensures
        (n + 1) * period_of(output_fps) == n * period_of(output_fps) + period_of(output_fps),
        output_fps <= NANOS_PER_SEC ==> period_of(output_fps) >= 1,
        output_fps <= NANOS_PER_SEC ==> n * period_of(output_fps) < (n + 1) * period_of(output_fps),
{
    let p = period_of(output_fps);
    assert((n + 1) * p == n * p + p) by (nonlinear_arith);
    if output_fps <= NANOS_PER_SEC {
        assert(1_000_000_000int / output_fps >= 1) by (nonlinear_arith)
            requires
                1 <= output_fps <= 1_000_000_000,
        ;
    }
}

/// The output rate for a source rate and a number of frames to skip after
/// each kept one.
pub fn output_rate(source_fps: u32, frame_skip: u32) -> (rate: OutputRate)
    ensures
        rate.fps == output_fps_of(source_fps as int, keep_ratio_of(frame_skip as int)),
        rate.exact == (source_fps as int % keep_ratio_of(frame_skip as int) == 0),
        rate.fps >= 1,
{
    let keep: u64 = frame_skip as u64 + 1;
    let divided: u64 = source_fps as u64 / keep;
    assert(divided <= source_fps) by (nonlinear_arith)
        requires
            divided == source_fps as int / keep as int,
            keep >= 1,
            source_fps >= 0,
    ;
    OutputRate {
        fps: if divided >= 1 {
            divided as u32
        } else {
            1
        },
        exact: source_fps as u64 % keep == 0,
    }
}

impl Pacer {
    /// The rates are sound, and the count of kept frames is what the count
    /// of frames that came in gives.
    pub open spec fn wf(&self) -> bool {
        &&& self.keep_ratio >= 1
        &&& self.output_fps >= 1
        &&& self.frames_out == kept_among(self.frames_in as nat, self.keep_ratio as int)
    }

    /// The time from one kept frame to the next, in nanoseconds.
    pub open spec fn period_ns(&self) -> int {
        period_of(self.output_fps as int)
    }

    /// Whether the next frame can be counted and, if it is kept, stamped:
    /// neither the frame count nor the timeline leaves the range of `u64`.
    pub open spec fn has_room(&self) -> bool {
        &&& self.frames_in < u64::MAX
        &&& keeps(self.frames_in as int, self.keep_ratio as int) ==> self.frames_out * self.period_ns() <= u64::MAX
    }

    /// A pacer that took in a whole number of runs of its keep ratio kept
    /// exactly one frame of each; in general it kept one for each run that
    /// it has begun.
    pub proof fn lemma_kept_count(self)
        requires
            self.wf(),
        ensures
            self.frames_out == (self.frames_in + self.keep_ratio - 1) / (self.keep_ratio as int),
            self.frames_in % self.keep_ratio == 0 ==> self.frames_out == self.frames_in / self.keep_ratio,
    {
        lemma_kept_among(self.frames_in as nat, self.keep_ratio as int);
        if self.frames_in % self.keep_ratio == 0 {
            lemma_kept_of_whole_runs(self.frames_in as nat, self.keep_ratio as int);
        }
    }

    /// The pacer that a session starts with.
    pub open spec fn fresh(source_fps: u32, frame_skip: u32) -> Pacer {
        Pacer {
            keep_ratio: keep_ratio_of(frame_skip as int) as u64,
            output_fps: output_fps_of(source_fps as int, keep_ratio_of(frame_skip as int)) as u32,
            frames_in: 0,
            frames_out: 0,
        }
    }

    /// A pacer that has seen no frame yet.
    pub fn new(source_fps: u32, frame_skip: u32) -> (p: Pacer)
        ensures
            p == Pacer::fresh(source_fps, frame_skip),
            p.wf(),
            p.has_room(),
            p.keep_ratio == keep_ratio_of(frame_skip as int),
            p.output_fps == output_fps_of(source_fps as int, keep_ratio_of(frame_skip as int)),
            p.frames_in == 0,
            p.frames_out == 0,
    {
        let rate: OutputRate = output_rate(source_fps, frame_skip);
        assert(0 * period_of(rate.fps as int) == 0) by (nonlinear_arith);
        Pacer { keep_ratio: frame_skip as u64 + 1, output_fps: rate.fps, frames_in: 0, frames_out: 0 }
    }

    /// The time from one kept frame to the next, in nanoseconds.
    pub fn period(&self) -> (ns: u64)
        requires
            self.output_fps >= 1,
        ensures
            ns == self.period_ns(),
    {
        NANOS_PER_SEC / (self.output_fps as u64)
    }

    /// Whether [`Pacer::on_frame`] may be called.
    pub fn can_accept(&self) -> (r: bool)
        requires
            self.wf(),
        ensures
            r == self.has_room(),
    {
        let period: u64 = self.period();
        assert(0 <= self.frames_out * period <= 0xffff_ffff_ffff_ffff * 1_000_000_000) by (nonlinear_arith)
            requires
                0 <= self.frames_out <= 0xffff_ffff_ffff_ffff,
                0 <= period <= 1_000_000_000,
        ;
        self.frames_in < u64::MAX && (self.frames_in % self.keep_ratio != 0 || (self.frames_out as u128) * (
            period as u128) <= u64::MAX as u128)
    }

    /// Counts one frame that came in, and says whether it is kept.
    ///
    /// A kept frame gets its place on the timeline: the kept frame number
    /// `n`, counted from 0, is shown at `n` periods and for one period.
    pub fn on_frame(&mut self) -> (r: Option<Stamp>)
        requires
            old(self).wf(),
            old(self).has_room(),
        ensures
            final(self).wf(),
            final(self).keep_ratio == old(self).keep_ratio,
            final(self).output_fps == old(self).output_fps,
            final(self).frames_in == old(self).frames_in + 1,
            r is Some <==> keeps(old(self).frames_in as int, old(self).keep_ratio as int),
            r matches Some(stamp) ==> {
                &&& stamp.pts_ns == old(self).frames_out * old(self).period_ns()
                &&& stamp.duration_ns == old(self).period_ns()
                &&& final(self).frames_out == old(self).frames_out + 1
            },
            r is None ==> final(self).frames_out == old(self).frames_out,
    {
        let kept: bool = self.frames_in % self.keep_ratio == 0;
        proof {
            lemma_kept_among(self.frames_in as nat, self.keep_ratio as int);
            assert(self.frames_out <= self.frames_in) by (nonlinear_arith)
                requires
                    self.frames_out == (self.frames_in + self.keep_ratio - 1) / (self.keep_ratio as int),
                    self.keep_ratio >= 1,
                    self.frames_in >= 0,
            ;
        }
        self.frames_in = self.frames_in + 1;
        if kept {
            let period: u64 = self.period();
            let stamp = Stamp { pts_ns: self.frames_out * period, duration_ns: period };
            self.frames_out = self.frames_out + 1;
            Some(stamp)
        } else {
            None
        }
    }
}

} // verus!
