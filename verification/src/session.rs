//! A session: each frame through all four stages.
//!
//! A frame comes in with its buffer, its size and what is attached to it.
//! The session finds the pointer, moves the crop window, decides whether the
//! frame is kept, and if it is, cuts the window out and stamps it.

use vstd::prelude::*;
use crate::crop::{crop_frame, crop_result, FrameBuffer};
use crate::cursor::{
    extract_cursor, first_reading, resolve_cursor, resolved, CursorSample, CursorSource, DeltaAccumulator,
    FrameMeta,
};
use crate::error::FrameError;
use crate::follow::{
    clamp_cursor, elapsed, exponent_of, initial_model, step_model, window_of, CropWindow, FollowConfig,
    FollowModel, FollowState, ALPHA_ONE,
};
use crate::pacer::{keeps, Pacer, Stamp};
use crate::units::Point;

verus! {

/// A frame that leaves the session.
#[derive(Debug)]
pub struct EmittedFrame {
    /// The window's rows, back to back, four bytes to the pixel.
    pub data: Vec<u8>,
    /// Its place on the output timeline.
    pub stamp: Stamp,
    /// Where in the source frame it was cut out.
    pub window: CropWindow,
}

/// What became of a frame that was processed without failure.
#[derive(Debug)]
pub enum FrameOutcome {
    /// The frame was kept.
    Emitted(EmittedFrame),
    /// The frame was dropped to lower the output rate.
    Skipped,
}

/// What a frame went through.
#[derive(Debug)]
pub struct Processed {
    /// The source of the frame's pointer reading, where there was one.
    pub source: Option<CursorSource>,
    /// What became of the frame.
    pub outcome: FrameOutcome,
}

/// Everything a session holds between frames.
#[derive(Clone, Copy, Debug, PartialEq, Eq, Structural)]
pub struct Session {
    pub cfg: FollowConfig,
    pub follow: FollowState,
    pub pacer: Pacer,
}

/// The pointer reading of a frame. A session that does not follow asks no
/// source.
pub open spec fn sample_for(
    cfg: FollowConfig,
    last: Point,
    metas: Seq<FrameMeta>,
    compositor: Option<Point>,
    raw: Option<DeltaAccumulator>,
    src_w: int,
    src_h: int,
) -> Option<CursorSample> {
    if cfg.follow_enabled {
        resolved(last, first_reading(metas, src_w, src_h), compositor, raw)
    } else {
        None
    }
}

/// The source of a reading.
pub open spec fn source_of(sample: Option<CursorSample>) -> Option<CursorSource> {
    match sample {
        Some(s) => Some(s.source),
        None => None,
    }
}

/// The position of a reading.
pub open spec fn position_of(sample: Option<CursorSample>) -> Option<Point> {
    match sample {
        Some(s) => Some(s.pos),
        None => None,
    }
}

/// Whether the frame's reading is made of the accumulated motion, which is
/// then used up.
pub open spec fn drains_raw(cfg: FollowConfig, metas: Seq<FrameMeta>, compositor: Option<Point>, src_w: int, src_h: int) -> bool {
    cfg.follow_enabled && first_reading(metas, src_w, src_h) is None && compositor is None
}

/// What the frame itself carries is taken whatever the other two sources
/// say: the pointer of the frame is that reading, kept inside the frame, and
/// the accumulated motion is left as it was.
pub proof fn lemma_embedded_reading_wins(
    m: FollowModel,
    cfg: FollowConfig,
    last: Point,
    metas: Seq<FrameMeta>,
    compositor: Option<Point>,
    raw: Option<DeltaAccumulator>,
    src_w: int,
    src_h: int,
    now_ns: int,
    alpha: int,
)
    requires
        cfg.follow_enabled,
        first_reading(metas, src_w, src_h) is Some,
    ensures
        ({
            let sample = sample_for(cfg, last, metas, compositor, raw, src_w, src_h);
            let after = step_model(m, cfg, position_of(sample), src_w, src_h, now_ns, alpha);
            &&& source_of(sample) == Some(CursorSource::Embedded)
            &&& position_of(sample) == first_reading(metas, src_w, src_h)
            &&& after.cursor_x == clamp_cursor(first_reading(metas, src_w, src_h)->0.x as int, src_w)
            &&& after.cursor_y == clamp_cursor(first_reading(metas, src_w, src_h)->0.y as int, src_h)
            &&& !drains_raw(cfg, metas, compositor, src_w, src_h)
        }),
{
}

/// Where the frame carries nothing, what the compositor said is taken
/// whatever the input devices say: the pointer of the frame is that
/// position, kept inside the frame, and the accumulated motion is left as it
/// was.
pub proof fn lemma_compositor_wins(
    m: FollowModel,
    cfg: FollowConfig,
    last: Point,
    metas: Seq<FrameMeta>,
    compositor: Option<Point>,
    raw: Option<DeltaAccumulator>,
    src_w: int,
    src_h: int,
    now_ns: int,
    alpha: int,
)
    requires
        cfg.follow_enabled,
        first_reading(metas, src_w, src_h) is None,
        compositor is Some,
    ensures
        ({
            let sample = sample_for(cfg, last, metas, compositor, raw, src_w, src_h);
            let after = step_model(m, cfg, position_of(sample), src_w, src_h, now_ns, alpha);
            &&& source_of(sample) == Some(CursorSource::Compositor)
            &&& position_of(sample) == compositor
            &&& after.cursor_x == clamp_cursor(compositor->0.x as int, src_w)
            &&& after.cursor_y == clamp_cursor(compositor->0.y as int, src_h)
            &&& !drains_raw(cfg, metas, compositor, src_w, src_h)
        }),
{
}

impl Session {
    /// The pacer's counters agree.
    pub open spec fn wf(&self) -> bool {
        self.pacer.wf()
    }

    /// A session before its first frame.
    pub fn new(cfg: FollowConfig, source_fps: u32, frame_skip: u32, now_ns: u64) -> (s: Session)
        ensures
            s.wf(),
            s.pacer.has_room(),
            s.cfg == cfg,
            s.follow@ == initial_model(cfg, now_ns as int),
            s.pacer == Pacer::fresh(source_fps, frame_skip),
    {
        Session { cfg, follow: FollowState::new(&cfg, now_ns), pacer: Pacer::new(source_fps, frame_skip) }
    }

    /// Whether [`Session::process_frame`] may be called: the counters have
    /// room for one more frame.
    pub fn can_accept(&self) -> (r: bool)
        requires
            self.wf(),
        ensures
            r == self.pacer.has_room(),
    {
        self.pacer.can_accept()
    }

    /// The exponent `rate * dt` of the frame that arrives at `now_ns`, in
    /// billionths. The caller turns it into the fraction
    /// `1 - exp(-rate * dt)` that [`Session::process_frame`] takes.
    pub fn smoothing_exponent(&self, now_ns: u64) -> (x: u64)
        ensures
            x == exponent_of(self.cfg.smoothing as int, elapsed(self.follow.last_update_ns as int, now_ns as int)),
    {
        self.follow.smoothing_exponent(&self.cfg, now_ns)
    }

    /// Takes one frame through the session.
    ///
    /// `frame` is the captured frame and `metas` are the structures attached
    /// to it. `compositor`
    /// is the pointer position that the compositor last reported, and `raw`
    /// the accumulated motion of the input devices, each where that source is
    /// at hand. `now_ns` is the time of the frame and `alpha` the smoothing
    /// fraction for the interval since the last one.
    ///
    /// A frame smaller than the output window is refused before anything is
    /// touched. Otherwise the crop window moves, and the frame is either
    /// dropped, or cut out and stamped. A kept frame whose window cannot be
    /// cut out fails, and is not counted.
    pub fn process_frame(
        &mut self,
        frame: &FrameBuffer,
        metas: &[FrameMeta],
        compositor: Option<Point>,
        raw: Option<&mut DeltaAccumulator>,
        now_ns: u64,
        alpha: u64,
    ) -> (r: Result<Processed, FrameError>)
        requires
            old(self).wf(),
            old(self).pacer.has_room(),
            alpha <= ALPHA_ONE,
        ensures
            final(self).wf(),
            final(self).cfg == old(self).cfg,
            final(self).pacer.keep_ratio == old(self).pacer.keep_ratio,
            final(self).pacer.output_fps == old(self).pacer.output_fps,
            // a frame that is too small
            frame.width < old(self).cfg.out_w || frame.height < old(self).cfg.out_h ==> {
                &&& r == Err::<Processed, FrameError>(FrameError::Size)
                &&& *final(self) == *old(self)
                &&& raw matches Some(acc) ==> *final(acc) == *acc
            },
            // any other frame moves the window
            frame.width >= old(self).cfg.out_w && frame.height >= old(self).cfg.out_h ==> {
                &&& final(self).follow@ == step_model(
                    old(self).follow@,
                    old(self).cfg,
                    position_of(
                        sample_for(
                            old(self).cfg,
                            old(self).follow.cursor,
                            metas@,
                            compositor,
                            match raw {
                                Some(acc) => Some(*acc),
                                None => None,
                            },
                            frame.width as int,
                            frame.height as int,
                        ),
                    ),
                    frame.width as int,
                    frame.height as int,
                    now_ns as int,
                    alpha as int,
                )
                &&& r matches Ok(done) ==> done.source == source_of(
                    sample_for(
                        old(self).cfg,
                        old(self).follow.cursor,
                        metas@,
                        compositor,
                        match raw {
                            Some(acc) => Some(*acc),
                            None => None,
                        },
                        frame.width as int,
                        frame.height as int,
                    ),
                )
                &&& raw matches Some(acc) ==> if drains_raw(
                    old(self).cfg,
                    metas@,
                    compositor,
                    frame.width as int,
                    frame.height as int,
                ) {
                    final(acc).dx == 0 && final(acc).dy == 0
                } else {
                    *final(acc) == *acc
                }
                &&& if !keeps(old(self).pacer.frames_in as int, old(self).pacer.keep_ratio as int) {
                    // and is dropped,
                    &&& r matches Ok(done)
                    &&& done.outcome is Skipped
                    &&& final(self).pacer.frames_in == old(self).pacer.frames_in + 1
                    &&& final(self).pacer.frames_out == old(self).pacer.frames_out
                } else {
                    match crop_result(
                        frame.data@,
                        frame.width,
                        frame.height,
                        frame.layout,
                        window_of(final(self).follow@, old(self).cfg, frame.width as int, frame.height as int),
                    ) {
                        // or is cut out and stamped,
                        Ok(bytes) => {
                            &&& r matches Ok(done)
                            &&& done.outcome matches FrameOutcome::Emitted(cut)
                            &&& cut.data@ == bytes
                            &&& cut.window == window_of(
                                final(self).follow@,
                                old(self).cfg,
                                frame.width as int,
                                frame.height as int,
                            )
                            &&& cut.window.x <= frame.width - old(self).cfg.out_w
                            &&& cut.window.y <= frame.height - old(self).cfg.out_h
                            &&& cut.stamp.pts_ns == old(self).pacer.frames_out * old(self).pacer.period_ns()
                            &&& cut.stamp.duration_ns == old(self).pacer.period_ns()
                            &&& final(self).pacer.frames_in == old(self).pacer.frames_in + 1
                            &&& final(self).pacer.frames_out == old(self).pacer.frames_out + 1
                        },
                        // or cannot be cut out.
                        Err(e) => r == Err::<Processed, FrameError>(e) && final(self).pacer == old(self).pacer,
                    }
                }
            },
    {
        if frame.width < self.cfg.out_w || frame.height < self.cfg.out_h {
            return Err(FrameError::Size);
        }
        let sample: Option<CursorSample> = if self.cfg.follow_enabled {
            let embedded: Option<Point> = extract_cursor(metas, frame.width, frame.height);
            resolve_cursor(self.follow.cursor, embedded, compositor, raw)
        } else {
            None
        };
        let at: Option<Point> = match sample {
            Some(s) => Some(s.pos),
            None => None,
        };
        let source: Option<CursorSource> = match sample {
            Some(s) => Some(s.source),
            None => None,
        };
        let cfg: FollowConfig = self.cfg;
        let window: CropWindow = match self.follow.step(&cfg, at, frame.width, frame.height, now_ns, alpha) {
            Ok(w) => w,
            Err(e) => {
                return Err(e);
            },
        };
        if self.pacer.frames_in % self.pacer.keep_ratio != 0 {
            let _ = self.pacer.on_frame();
            return Ok(Processed { source, outcome: FrameOutcome::Skipped });
        }
        let data: Vec<u8> = match crop_frame(frame, window) {
            Ok(d) => d,
            Err(e) => {
                return Err(e);
            },
        };
        let outcome: FrameOutcome = match self.pacer.on_frame() {
            Some(stamp) => FrameOutcome::Emitted(EmittedFrame { data, stamp, window }),
            None => FrameOutcome::Skipped,
        };
        Ok(Processed { source, outcome })
    }
}

} // verus!
