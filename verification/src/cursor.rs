//! Cursor signal aggregator: one pointer reading per frame.
//!
//! Three sources can tell where the pointer is. In order of trust: a
//! structure attached to the frame itself, the position that the compositor
//! last reported, and the relative motion of the input devices summed up
//! since it was last read. The first that has something to say is taken. If
//! none has, there is no reading and the pointer counts as standing where it
//! stood.

use vstd::prelude::*;
use crate::units::{clamp, clamp_units, px, Point, UNITS_PER_PX};

verus! {

/// Where a reading came from.
#[derive(Clone, Copy, Debug, PartialEq, Eq, Structural)]
pub enum CursorSource {
    /// A structure attached to the frame.
    Embedded,
    /// The compositor's cursor session.
    Compositor,
    /// Relative motion of the input devices.
    RawInput,
}

/// The pointer position taken for one frame.
#[derive(Clone, Copy, Debug, PartialEq, Eq, Structural)]
pub struct CursorSample {
    pub pos: Point,
    pub source: CursorSource,
}

/// How the screen-cast portal is asked to deliver the pointer.
#[derive(Clone, Copy, Debug, PartialEq, Eq, Structural)]
pub enum PortalCursor {
    /// Apart from the picture, as a structure attached to each frame.
    Metadata,
    /// Drawn into the picture.
    Embedded,
    /// Not at all.
    Hidden,
}

/// A structure attached to a frame, as far as the aggregator reads it.
#[derive(Debug)]
pub struct FrameMeta {
    /// The structure's name, as bytes.
    pub name: Vec<u8>,
    /// Its field `x`, in millionths, where it has one that is a number.
    pub x: Option<i64>,
    /// Its field `y`, likewise.
    pub y: Option<i64>,
}

/// Relative pointer motion summed up since it was last drained, in whole
/// pixels. A sum that leaves the range of `i64` stays at the end of the range.
#[derive(Clone, Copy, Debug, PartialEq, Eq, Structural)]
pub struct DeltaAccumulator {
    pub dx: i64,
    pub dy: i64,
}

/// Code of the horizontal relative axis in an input event.
pub const REL_X: u16 = 0;

/// Code of the vertical relative axis in an input event.
pub const REL_Y: u16 = 1;

/// An input event, as a device hands it out.
#[verifier::external_type_specification]
#[verifier::external_body]
pub struct ExInputEvent(evdev::InputEvent);

/// What `evdev::InputEvent::destructure` makes of an event, as far as
/// relative motion goes: the code of the axis and the distance along it for
/// an event of relative motion, nothing for an event of any other kind.
pub uninterp spec fn motion_of(event: evdev::InputEvent) -> Option<(u16, i32)>;

/// An ASCII capital as its small letter, any other byte as it is.
pub open spec fn ascii_lower(b: u8) -> u8 {
    if 65 <= b <= 90 {
        (b + 32) as u8
    } else {
        b
    }
}

/// Whether `word` stands in `name` at index `i`, capitals in `name` counting
/// as small letters.
pub open spec fn occurs_at(name: Seq<u8>, word: Seq<u8>, i: int) -> bool {
    &&& 0 <= i
    &&& i + word.len() <= name.len()
    &&& forall|j: int| 0 <= j < word.len() ==> ascii_lower(#[trigger] name[i + j]) == word[j]
}

/// Whether `word` stands anywhere in `name`.
pub open spec fn occurs_in(name: Seq<u8>, word: Seq<u8>) -> bool {
    exists|i: int| occurs_at(name, word, i)
}

/// The bytes of `cursor`.
pub open spec fn cursor_word() -> Seq<u8> {
    seq![99u8, 117u8, 114u8, 115u8, 111u8, 114u8]
}

/// The bytes of `pointer`.
pub open spec fn pointer_word() -> Seq<u8> {
    seq![112u8, 111u8, 105u8, 110u8, 116u8, 101u8, 114u8]
}

/// Whether a structure of this name may hold the pointer position: the name
/// contains `cursor` or `pointer`, in capitals or small letters.
pub open spec fn names_pointer(name: Seq<u8>) -> bool {
    occurs_in(name, cursor_word()) || occurs_in(name, pointer_word())
}

/// What a pair of numbers says of the pointer in a frame of `src_w` by
/// `src_h` pixels. Both between 0 and 1: shares of the frame's size. Else
/// both inside the frame: a position. Else nothing.
pub open spec fn plausible(x: int, y: int, src_w: int, src_h: int) -> Option<(int, int)> {
    if 0 <= x <= UNITS_PER_PX && 0 <= y <= UNITS_PER_PX {
        Some((x * src_w, y * src_h))
    } else if 0 <= x <= px(src_w) && 0 <= y <= px(src_h) {
        Some((x, y))
    } else {
        None
    }
}

/// A pair of coordinates as a position.
pub open spec fn to_point(at: Option<(int, int)>) -> Option<Point> {
    match at {
        Some((x, y)) => Some(Point { x: x as i64, y: y as i64 }),
        None => None,
    }
}

/// The reading that one structure gives, if any: its name has to speak of
/// the pointer, and its two numbers have to make sense in the frame.
pub open spec fn reading_of(meta: FrameMeta, src_w: int, src_h: int) -> Option<Point> {
    if names_pointer(meta.name@) && meta.x is Some && meta.y is Some {
        to_point(plausible(meta.x->0 as int, meta.y->0 as int, src_w, src_h))
    } else {
        None
    }
}

/// The reading of the first structure from index `from` on that gives one.
pub open spec fn first_reading_from(metas: Seq<FrameMeta>, from: int, src_w: int, src_h: int) -> Option<Point>
    decreases metas.len() - from,
{
    if from < 0 || from >= metas.len() {
        None
    } else if reading_of(metas[from], src_w, src_h) is Some {
        reading_of(metas[from], src_w, src_h)
    } else {
        first_reading_from(metas, from + 1, src_w, src_h)
    }
}

/// The reading that the structures attached to a frame give: that of the
/// first one that gives any.
pub open spec fn first_reading(metas: Seq<FrameMeta>, src_w: int, src_h: int) -> Option<Point> {
    first_reading_from(metas, 0, src_w, src_h)
}

/// A position moved by a whole number of pixels, kept in the range of `i64`.
pub open spec fn shifted(v: int, delta_px: int) -> int {
    clamp(v + px(delta_px), i64::MIN as int, i64::MAX as int)
}

/// A sum kept in the range of `i64`.
pub open spec fn saturating_sum(a: int, b: int) -> int {
    clamp(a + b, i64::MIN as int, i64::MAX as int)
}

/// An accumulator after motion along one relative axis: `REL_X` adds to
/// `dx`, `REL_Y` to `dy`, and any other axis (a wheel, say) to neither.
pub open spec fn absorbed(acc: DeltaAccumulator, motion: Option<(u16, i32)>) -> DeltaAccumulator {
    match motion {
        Some((code, value)) => if code == REL_X {
            DeltaAccumulator { dx: saturating_sum(acc.dx as int, value as int) as i64, ..acc }
        } else if code == REL_Y {
            DeltaAccumulator { dy: saturating_sum(acc.dy as int, value as int) as i64, ..acc }
        } else {
            acc
        },
        None => acc,
    }
}

/// The reading of a frame, by the sources' rank. `raw` is the accumulated
/// motion where the input devices are watched.
pub open spec fn resolved(
    last: Point,
    embedded: Option<Point>,
    compositor: Option<Point>,
    raw: Option<DeltaAccumulator>,
) -> Option<CursorSample> {
    match (embedded, compositor, raw) {
        (Some(p), _, _) => Some(CursorSample { pos: p, source: CursorSource::Embedded }),
        (None, Some(p), _) => Some(CursorSample { pos: p, source: CursorSource::Compositor }),
        (None, None, Some(acc)) => Some(
            CursorSample {
                pos: Point {
                    x: shifted(last.x as int, acc.dx as int) as i64,
                    y: shifted(last.y as int, acc.dy as int) as i64,
                },
                source: CursorSource::RawInput,
            },
        ),
        (None, None, None) => None,
    }
}

/// The reading of a frame is that of the first structure that gives one:
/// no structure before it gives any. A frame has no reading exactly if none
/// of its structures gives one.
pub proof fn lemma_first_reading(metas: Seq<FrameMeta>, from: int, src_w: int, src_h: int)
    requires
        0 <= from,
    ensures
        first_reading_from(metas, from, src_w, src_h) is None <==> forall|i: int|
            from <= i < metas.len() ==> reading_of(#[trigger] metas[i], src_w, src_h) is None,
        first_reading_from(metas, from, src_w, src_h) is Some ==> exists|i: int|
            {
                &&& from <= i < metas.len()
                &&& reading_of(#[trigger] metas[i], src_w, src_h) == first_reading_from(metas, from, src_w, src_h)
                &&& forall|k: int| from <= k < i ==> reading_of(#[trigger] metas[k], src_w, src_h) is None
            },
    decreases metas.len() - from,
{
    if from < metas.len() {
        if reading_of(metas[from], src_w, src_h) is Some {
            assert(reading_of(metas[from], src_w, src_h) == first_reading_from(metas, from, src_w, src_h));
        } else {
            lemma_first_reading(metas, from + 1, src_w, src_h);
            if first_reading_from(metas, from, src_w, src_h) is Some {
                let i = choose|i: int|
                    {
                        &&& from + 1 <= i < metas.len()
                        &&& reading_of(#[trigger] metas[i], src_w, src_h) == first_reading_from(
                            metas,
                            from + 1,
                            src_w,
                            src_h,
                        )
                        &&& forall|k: int| from + 1 <= k < i ==> reading_of(#[trigger] metas[k], src_w, src_h) is None
                    };
                assert(forall|k: int| from <= k < i ==> reading_of(#[trigger] metas[k], src_w, src_h) is None);
            }
        }
    }
}

/// A plausible pair of numbers gives a position inside the frame, its far
/// edges included.
pub proof fn lemma_plausible_in_frame(x: int, y: int, src_w: int, src_h: int)
    requires
        0 <= src_w,
        0 <= src_h,
    ensures
        plausible(x, y, src_w, src_h) matches Some((at_x, at_y)) ==> 0 <= at_x <= px(src_w) && 0 <= at_y <= px(
            src_h,
        ),
{
    if 0 <= x <= UNITS_PER_PX && 0 <= y <= UNITS_PER_PX {
        assert(0 <= x * src_w <= 1_000_000 * src_w && 0 <= y * src_h <= 1_000_000 * src_h) by (nonlinear_arith)
            requires
                0 <= x <= 1_000_000,
                0 <= y <= 1_000_000,
                0 <= src_w,
                0 <= src_h,
        ;
    }
}

/// The sources rank in a fixed order. What the frame itself carries is taken
/// whatever the other two say, and failing that, what the compositor said is
/// taken whatever the input devices say.
pub proof fn lemma_source_priority(
    last: Point,
    embedded: Option<Point>,
    compositor: Option<Point>,
    raw: Option<DeltaAccumulator>,
)
    ensures
        embedded matches Some(p) ==> resolved(last, embedded, compositor, raw) == Some(
            CursorSample { pos: p, source: CursorSource::Embedded },
        ),
        embedded is None ==> (compositor matches Some(p) ==> resolved(last, embedded, compositor, raw) == Some(
            CursorSample { pos: p, source: CursorSource::Compositor },
        )),
        embedded is None && compositor is None ==> (resolved(last, embedded, compositor, raw) matches Some(s)
            ==> s.source == CursorSource::RawInput),
        resolved(last, embedded, compositor, raw) is None <==> embedded is None && compositor is None && raw
            is None,
{
}

/// The way to ask the portal for the pointer, given what it offers: apart
/// from the picture if it can, else drawn into it if it can, else not at all.
pub fn pick_portal_cursor(offers_metadata: bool, offers_embedded: bool) -> (mode: PortalCursor)
    ensures
        offers_metadata ==> mode == PortalCursor::Metadata,
        !offers_metadata && offers_embedded ==> mode == PortalCursor::Embedded,
        !offers_metadata && !offers_embedded ==> mode == PortalCursor::Hidden,
{
    if offers_metadata {
        PortalCursor::Metadata
    } else if offers_embedded {
        PortalCursor::Embedded
    } else {
        PortalCursor::Hidden
    }
}

fn lower(b: u8) -> (r: u8)
    ensures
        r == ascii_lower(b),
{
    if 65 <= b && b <= 90 {
        b + 32
    } else {
        b
    }
}

fn matches_at(name: &[u8], word: &[u8], i: usize) -> (r: bool)
    requires
        i + word@.len() <= name@.len(),
    ensures
        r == occurs_at(name@, word@, i as int),
{
    let n: usize = name.len();
    let mut j: usize = 0;
    while j < word.len()
        invariant
            j <= word@.len(),
            i + word@.len() <= name@.len(),
            n == name@.len(),
            forall|k: int| 0 <= k < j ==> ascii_lower(#[trigger] name@[i + k]) == word@[k],
        decreases word@.len() - j,
    {
        if lower(name[i + j]) != word[j] {
            return false;
        }
        j += 1;
    }
    true
}

/// Whether `word` stands anywhere in `name`, capitals in `name` counting as
/// small letters.
pub fn contains_folded(name: &[u8], word: &[u8]) -> (r: bool)
    ensures
        r == occurs_in(name@, word@),
{
    if word.len() > name.len() {
        return false;
    }
    let last: usize = name.len() - word.len();
    let mut i: usize = 0;
    while i < last
        invariant
            i <= last,
            last == name@.len() - word@.len(),
            forall|k: int| 0 <= k < i ==> !occurs_at(name@, word@, k),
        decreases last - i,
    {
        if matches_at(name, word, i) {
            return true;
        }
        i += 1;
    }
    matches_at(name, word, last)
}

/// Whether a structure of this name may hold the pointer position.
pub fn looks_like_pointer(name: &[u8]) -> (r: bool)
    ensures
        r == names_pointer(name@),
{
    let cursor: [u8; 6] = [99, 117, 114, 115, 111, 114];
    let pointer: [u8; 7] = [112, 111, 105, 110, 116, 101, 114];
    assert(cursor@ =~= cursor_word());
    assert(pointer@ =~= pointer_word());
    contains_folded(name, cursor.as_slice()) || contains_folded(name, pointer.as_slice())
}

/// Reads a pair of numbers as a pointer position in a frame of `src_w` by
/// `src_h` pixels.
pub fn read_xy(x: i64, y: i64, src_w: u32, src_h: u32) -> (r: Option<Point>)
    ensures
        r == to_point(plausible(x as int, y as int, src_w as int, src_h as int)),
{
    proof {
        lemma_plausible_in_frame(x as int, y as int, src_w as int, src_h as int);
    }
    if 0 <= x && x <= UNITS_PER_PX && 0 <= y && y <= UNITS_PER_PX {
        assert(0 <= x * src_w <= 1_000_000 * 0xffff_ffff && 0 <= y * src_h <= 1_000_000 * 0xffff_ffff)
            by (nonlinear_arith)
            requires
                0 <= x <= 1_000_000,
                0 <= y <= 1_000_000,
                0 <= src_w <= 0xffff_ffff,
                0 <= src_h <= 0xffff_ffff,
        ;
        Some(Point { x: x * (src_w as i64), y: y * (src_h as i64) })
    } else if 0 <= x && x <= (src_w as i64) * UNITS_PER_PX && 0 <= y && y <= (src_h as i64) * UNITS_PER_PX {
        Some(Point { x, y })
    } else {
        None
    }
}

impl FrameMeta {
    /// The pointer position that this structure gives, if it gives one.
    pub fn reading(&self, src_w: u32, src_h: u32) -> (r: Option<Point>)
        ensures
            r == reading_of(*self, src_w as int, src_h as int),
    {
        if !looks_like_pointer(self.name.as_slice()) {
            return None;
        }
        match (self.x, self.y) {
            (Some(x), Some(y)) => read_xy(x, y, src_w, src_h),
            _ => None,
        }
    }
}

/// The pointer position that a frame carries with it: the reading of the
/// first attached structure that gives one.
pub fn extract_cursor(metas: &[FrameMeta], src_w: u32, src_h: u32) -> (r: Option<Point>)
    ensures
        r == first_reading(metas@, src_w as int, src_h as int),
{
    let mut i: usize = 0;
    while i < metas.len()
        invariant
            i <= metas@.len(),
            first_reading(metas@, src_w as int, src_h as int) == first_reading_from(
                metas@,
                i as int,
                src_w as int,
                src_h as int,
            ),
        decreases metas@.len() - i,
    {
        let found: Option<Point> = metas[i].reading(src_w, src_h);
        if found.is_some() {
            return found;
        }
        i += 1;
    }
    None
}

impl DeltaAccumulator {
    /// An accumulator that holds no motion.
    pub fn new() -> (acc: DeltaAccumulator)
        ensures
            acc.dx == 0,
            acc.dy == 0,
    {
        DeltaAccumulator { dx: 0, dy: 0 }
    }

    /// Adds one motion event.
    pub fn add(&mut self, dx: i32, dy: i32)
        ensures
            final(self).dx == saturating_sum(old(self).dx as int, dx as int),
            final(self).dy == saturating_sum(old(self).dy as int, dy as int),
    {
        self.dx = clamp_units(self.dx as i128 + dx as i128, i64::MIN, i64::MAX);
        self.dy = clamp_units(self.dy as i128 + dy as i128, i64::MIN, i64::MAX);
    }

    /// Adds the motion that an input event reported, if it reported any:
    /// `motion` is the code of a relative axis and the distance along it.
    pub fn absorb_motion(&mut self, motion: Option<(u16, i32)>)
        ensures
            *final(self) == absorbed(*old(self), motion),
    {
        if let Some((code, value)) = motion {
            if code == REL_X {
                self.add(value, 0);
            } else if code == REL_Y {
                self.add(0, value);
            }
        }
    }

    /// Adds what an input event says of the pointer's motion: the distance
    /// along `REL_X` or `REL_Y` where the event is relative motion along
    /// one of them, nothing where it is anything else.
    pub fn absorb(&mut self, event: evdev::InputEvent)
        ensures
            *final(self) == absorbed(*old(self), motion_of(event)),
    {
        let motion: Option<(u16, i32)> = relative_motion(event);
        self.absorb_motion(motion);
    }

    /// Hands out what has accumulated and starts again from nothing.
    pub fn drain(&mut self) -> (taken: DeltaAccumulator)
        ensures
            taken == *old(self),
            final(self).dx == 0,
            final(self).dy == 0,
    {
        let taken = *self;
        self.dx = 0;
        self.dy = 0;
        taken
    }
}

/// Calls `evdev::InputEvent::destructure`, which sorts the event by its
/// kind. Of an event of relative motion the code of the axis and the
/// distance along it are handed on; of any other kind of event, nothing.
/// The contract claims that the result is [`motion_of`] the event, that is,
/// that the event alone decides it; which events are of which kind is for
/// `evdev` to say.
#[verifier::external_body]
fn relative_motion(event: evdev::InputEvent) -> (motion: Option<(u16, i32)>)
    ensures
        motion == motion_of(event),
{
    match event.destructure() {
        evdev::EventSummary::RelativeAxis(_, code, value) => Some((code.0, value)),
        _ => None,
    }
}

fn shift(v: i64, delta_px: i64) -> (r: i64)
    ensures
        r == shifted(v as int, delta_px as int),
{
    clamp_units(v as i128 + (delta_px as i128) * 1_000_000, i64::MIN, i64::MAX)
}

/// The reading that ranks first among those at hand.
///
/// `last` is the pointer position of the frame before. The accumulator is
/// drained exactly when the motion in it is what the reading is made of; a
/// higher-ranking source leaves it as it is.
pub fn resolve_cursor(
    last: Point,
    embedded: Option<Point>,
    compositor: Option<Point>,
    raw: Option<&mut DeltaAccumulator>,
) -> (r: Option<CursorSample>)
    ensures
        r == resolved(
            last,
            embedded,
            compositor,
            match raw {
                Some(acc) => Some(*acc),
                None => None,
            },
        ),
        raw matches Some(acc) ==> if embedded is None && compositor is None {
            final(acc).dx == 0 && final(acc).dy == 0
        } else {
            *final(acc) == *acc
        },
{
    if let Some(p) = embedded {
        return Some(CursorSample { pos: p, source: CursorSource::Embedded });
    }
    if let Some(p) = compositor {
        return Some(CursorSample { pos: p, source: CursorSource::Compositor });
    }
    match raw {
        Some(acc) => {
            let taken: DeltaAccumulator = acc.drain();
            Some(
                CursorSample {
                    pos: Point { x: shift(last.x, taken.dx), y: shift(last.y, taken.dy) },
                    source: CursorSource::RawInput,
                },
            )
        },
        None => None,
    }
}

} // verus!
