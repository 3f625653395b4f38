//! Reading animation sets: step tables of frame flags, and the motion data they index.
use vstd::prelude::*;

use crate::animation::{widened, AnimationFrame, AnimationSet, FrameFlags, FrameMotionData};
use crate::bytes::{copy_range, le16_at, le32_at, read_u16_le, read_u32_le};
use crate::common::SSVECTOR;
use crate::fixed::Fixed16;
use crate::room::i16_at;

verus! {

/// Why animation data could not be read.
#[derive(Debug, Clone, Copy, PartialEq, Eq, Structural)]
pub enum AnimationError {
    /// A table or record runs past the end of the data.
    Truncated,
    /// A model file's directory has fewer than the two sections it needs.
    TooFewSections,
}

/// The number of animations in the step table at `start`: the first entry's data offset
/// over the entry size, and at least one.
pub open spec fn step_count(b: Seq<u8>, start: int) -> int {
    let m = le16_at(b, start + 2) / 4;
    if m < 1 {
        1
    } else {
        m
    }
}

/// The number of frames of animation `a`.
pub open spec fn step_frames(b: Seq<u8>, start: int, a: int) -> int {
    le16_at(b, start + 4 * a)
}

/// Where the frame flags of animation `a` start.
pub open spec fn step_data(b: Seq<u8>, start: int, a: int) -> int {
    start + le16_at(b, start + 4 * a + 2)
}

/// The flags of frame `i` of animation `a`.
pub open spec fn step_flag(b: Seq<u8>, start: int, a: int, i: int) -> FrameFlags {
    FrameFlags(le32_at(b, step_data(b, start, a) + 4 * i) as u32)
}

/// The flags of every frame of animation `a`.
pub open spec fn step_flags(b: Seq<u8>, start: int, a: int) -> Seq<FrameFlags> {
    Seq::new(step_frames(b, start, a) as nat, |i: int| step_flag(b, start, a, i))
}

/// The step table and every animation's flags lie within the data.
pub open spec fn steps_fit(b: Seq<u8>, start: int) -> bool {
    &&& start + 4 * step_count(b, start) <= b.len()
    &&& forall|a: int|
        0 <= a < step_count(b, start) ==> #[trigger] step_data(b, start, a) + 4 * step_frames(
            b,
            start,
            a,
        ) <= b.len()
}

/// The number of motion records that a list of flags needs: one past the largest index,
/// and at least one.
pub open spec fn flags_need(f: Seq<FrameFlags>) -> int
    decreases f.len(),
{
    if f.len() == 0 {
        1
    } else {
        let rest = flags_need(f.drop_last());
        let here = f.last().spec_index() + 1;
        if rest < here {
            here
        } else {
            rest
        }
    }
}

/// The number of motion records that the first `a` animations need.
pub open spec fn steps_need(b: Seq<u8>, start: int, a: int) -> int
    decreases a,
{
    if a <= 0 {
        0
    } else {
        let rest = steps_need(b, start, a - 1);
        let here = flags_need(step_flags(b, start, a - 1));
        if rest < here {
            here
        } else {
            rest
        }
    }
}

proof fn lemma_flags_need_bounds(f: Seq<FrameFlags>, i: int)
    requires
        0 <= i < f.len(),
    ensures
        f[i].spec_index() < flags_need(f),
    decreases f.len(),
{
    if i < f.len() - 1 {
        lemma_flags_need_bounds(f.drop_last(), i);
        assert(f.drop_last()[i] == f[i]);
    }
}

proof fn lemma_steps_need_grows(b: Seq<u8>, start: int, a: int, c: int)
    requires
        0 <= a < c,
    ensures
        flags_need(step_flags(b, start, a)) <= steps_need(b, start, c),
    decreases c,
{
    if a < c - 1 {
        lemma_steps_need_grows(b, start, a, c - 1);
    }
}

/// Every frame index of the step table is below the number of records it needs.
pub proof fn lemma_indices_within_need(b: Seq<u8>, start: int, a: int, i: int)
    requires
        0 <= a < step_count(b, start),
        0 <= i < step_frames(b, start, a),
    ensures
        step_flag(b, start, a, i).spec_index() < steps_need(b, start, step_count(b, start)),
{
    lemma_flags_need_bounds(step_flags(b, start, a), i);
    lemma_steps_need_grows(b, start, a, step_count(b, start));
}

/// Reads the step table at `start`: each animation's frame flags, and the number of
/// motion records they need.
#[verifier::rlimit(40)]
pub fn read_steps(b: &[u8], start: usize) -> (r: Result<(Vec<Vec<FrameFlags>>, usize), AnimationError>)
    ensures
        r is Ok <==> steps_fit(b@, start as int),
        r is Err ==> r == Err::<(Vec<Vec<FrameFlags>>, usize), AnimationError>(AnimationError::Truncated),
        r matches Ok((flags, total)) ==> {
            &&& flags@.len() == step_count(b@, start as int)
            &&& forall|a: int| 0 <= a < flags@.len() ==> (#[trigger] flags@[a])@ == step_flags(b@, start as int, a)
            &&& total == steps_need(b@, start as int, flags@.len() as int)
        },
{
    let blen: usize = b.len();
    if start > blen || blen - start < 4 {
        return Err(AnimationError::Truncated);
    }
    let first_offset = read_u16_le(b, start + 2).unwrap() as usize;
    let count: usize = if first_offset / 4 < 1 { 1 } else { first_offset / 4 };
    if (blen - start) / 4 < count {
        return Err(AnimationError::Truncated);
    }
    let mut flags: Vec<Vec<FrameFlags>> = Vec::new();
    let mut total: usize = 0;
    let mut a: usize = 0;
    while a < count
        invariant
            blen == b@.len(),
            start + 4 * count <= blen,
            count == step_count(b@, start as int),
            a <= count,
            flags@.len() == a,
            forall|q: int| 0 <= q < a ==> (#[trigger] flags@[q])@ == step_flags(b@, start as int, q),
            forall|q: int|
                0 <= q < a ==> #[trigger] step_data(b@, start as int, q) + 4 * step_frames(
                    b@,
                    start as int,
                    q,
                ) <= b@.len(),
            total == steps_need(b@, start as int, a as int),
            total <= 4096,
        decreases count - a,
    {
        let frames = read_u16_le(b, start + 4 * a).unwrap() as usize;
        let data_offset = read_u16_le(b, start + 4 * a + 2).unwrap() as usize;
        if blen - start < data_offset || (blen - start - data_offset) / 4 < frames {
            proof {
                assert(step_data(b@, start as int, a as int) + 4 * step_frames(b@, start as int, a as int) > b@.len());
            }
            return Err(AnimationError::Truncated);
        }
        let data = start + data_offset;
        let ghost want = step_flags(b@, start as int, a as int);
        let mut list: Vec<FrameFlags> = Vec::new();
        let mut need: usize = 1;
        let mut i: usize = 0;
        while i < frames
            invariant
                blen == b@.len(),
                data == step_data(b@, start as int, a as int),
                frames == step_frames(b@, start as int, a as int),
                data + 4 * frames <= blen,
                want == step_flags(b@, start as int, a as int),
                i <= frames,
                list@ == want.subrange(0, i as int),
                need == flags_need(want.subrange(0, i as int)),
                1 <= need <= 4096,
            decreases frames - i,
        {
            let v = read_u32_le(b, data + 4 * i).unwrap();
            let f = FrameFlags(v);
            let idx = f.index();
            list.push(f);
            proof {
                assert(want.subrange(0, i + 1).drop_last() =~= want.subrange(0, i as int));
                assert(want[i as int] == f);
            }
            if need < idx + 1 {
                need = idx + 1;
            }
            i = i + 1;
            proof {
                assert(list@ =~= want.subrange(0, i as int));
            }
        }
        proof {
            assert(want.subrange(0, frames as int) =~= want);
        }
        flags.push(list);
        if total < need {
            total = need;
        }
        a = a + 1;
    }
    Ok((flags, total))
}

/// Where the motion records of a frames header at `start` begin, relative to it.
pub open spec fn motion_offset(b: Seq<u8>, start: int) -> int {
    le16_at(b, start + 2)
}

/// The size of one motion record.
pub open spec fn motion_size(b: Seq<u8>, start: int) -> int {
    le16_at(b, start + 6)
}

/// The header points at motion records of at least the two vectors' size.
pub open spec fn has_motion(b: Seq<u8>, start: int) -> bool {
    motion_offset(b, start) != 0 && motion_size(b, start) >= 12
}

/// Where motion record `j` starts.
pub open spec fn record_at(b: Seq<u8>, start: int, j: int) -> int {
    start + motion_offset(b, start) + j * motion_size(b, start)
}

/// The frames header, and `total` motion records if it points at any, lie within the data.
pub open spec fn frames_fit(b: Seq<u8>, start: int, total: int) -> bool {
    &&& start + 8 <= b.len()
    &&& has_motion(b, start) && total > 0 ==> record_at(b, start, total) <= b.len()
}

/// The three 16-bit components at `at`.
pub open spec fn svector_at(b: Seq<u8>, at: int) -> SSVECTOR {
    SSVECTOR { vx: Fixed16(i16_at(b, at)), vy: Fixed16(i16_at(b, at + 2)), vz: Fixed16(i16_at(b, at + 4)) }
}

/// `m` is the motion record of `size` bytes at `at`.
pub open spec fn motion_read(m: FrameMotionData, b: Seq<u8>, at: int, size: int) -> bool {
    &&& m.unknown == svector_at(b, at)
    &&& m.speed == svector_at(b, at + 6)
    &&& m.angles@ == b.subrange(at + 12, at + size)
}

fn read_svector(b: &[u8], at: usize) -> (r: SSVECTOR)
    requires
        at + 6 <= b@.len(),
    ensures
        r == svector_at(b@, at as int),
{
    let blen: usize = b.len();
    let x = read_u16_le(b, at).unwrap();
    let y = read_u16_le(b, at + 2).unwrap();
    let z = read_u16_le(b, at + 4).unwrap();
    SSVECTOR { vx: Fixed16(x as i16), vy: Fixed16(y as i16), vz: Fixed16(z as i16) }
}

/// Reads the frames header at `start` and `total` motion records. A header without
/// motion records, or with records too small for the two vectors, gives none.
#[verifier::rlimit(40)]
pub fn read_frames(b: &[u8], start: usize, total: usize) -> (r: Result<Vec<FrameMotionData>, AnimationError>)
    ensures
        r is Ok <==> frames_fit(b@, start as int, total as int),
        r is Err ==> r == Err::<Vec<FrameMotionData>, AnimationError>(AnimationError::Truncated),
        r matches Ok(ms) ==> {
            &&& !has_motion(b@, start as int) ==> ms@.len() == 0
            &&& has_motion(b@, start as int) ==> ms@.len() == total && forall|j: int|
                0 <= j < total ==> motion_read(
                    #[trigger] ms@[j],
                    b@,
                    record_at(b@, start as int, j),
                    motion_size(b@, start as int),
                )
        },
{
    let blen: usize = b.len();
    if start > blen || blen - start < 8 {
        return Err(AnimationError::Truncated);
    }
    let offset = read_u16_le(b, start + 2).unwrap() as usize;
    let size = read_u16_le(b, start + 6).unwrap() as usize;
    let mut ms: Vec<FrameMotionData> = Vec::new();
    if offset == 0 || size < 12 {
        return Ok(ms);
    }
    let ghost st = start as int;
    if total == 0 {
        return Ok(ms);
    }
    if blen - start < offset {
        proof {
            assert(record_at(b@, st, total as int) >= st + offset) by (nonlinear_arith)
                requires
                    record_at(b@, st, total as int) == st + offset + total * size,
                    total >= 0,
                    size >= 0,
            ;
        }
        return Err(AnimationError::Truncated);
    }
    let mut at: usize = start + offset;
    let mut j: usize = 0;
    while j < total
        invariant
            blen == b@.len(),
            offset == motion_offset(b@, st),
            size == motion_size(b@, st),
            size >= 12,
            offset != 0,
            st == start,
            j <= total,
            at as int == record_at(b@, st, j as int),
            at <= blen,
            ms@.len() == j,
            forall|q: int| 0 <= q < j ==> motion_read(#[trigger] ms@[q], b@, record_at(b@, st, q), size as int),
        decreases total - j,
    {
        if blen - at < size {
            proof {
                let jj = j as int;
                assert(record_at(b@, st, total as int) >= record_at(b@, st, jj + 1)) by (nonlinear_arith)
                    requires
                        record_at(b@, st, total as int) == st + offset + total * size,
                        record_at(b@, st, jj + 1) == st + offset + (jj + 1) * size,
                        jj + 1 <= total,
                        size >= 0,
                ;
                assert(record_at(b@, st, jj + 1) == at + size) by (nonlinear_arith)
                    requires
                        record_at(b@, st, jj + 1) == st + offset + (jj + 1) * size,
                        at == st + offset + jj * size,
                ;
                assert(record_at(b@, st, total as int) > b@.len());
                assert(has_motion(b@, st));
                assert(!frames_fit(b@, st, total as int));
            }
            return Err(AnimationError::Truncated);
        }
        let unknown = read_svector(b, at);
        let speed = read_svector(b, at + 6);
        let angles = copy_range(b, at + 12, at + size);
        ms.push(FrameMotionData { unknown, speed, angles });
        proof {
            let jj = j as int;
            assert(record_at(b@, st, jj + 1) == at + size) by (nonlinear_arith)
                requires
                    record_at(b@, st, jj + 1) == st + offset + (jj + 1) * size,
                    at == st + offset + jj * size,
            ;
        }
        at = at + size;
        j = j + 1;
    }
    Ok(ms)
}

/// The frame that flags `i` of animation `a` give, with the speed of the motion record
/// that they index.
pub open spec fn animation_frame_at(b: Seq<u8>, steps: int, frames: int, a: int, i: int) -> AnimationFrame {
    let f = step_flag(b, steps, a, i);
    AnimationFrame { frame_flags: f, frame_speed: widened(svector_at(b, record_at(b, frames, f.spec_index()) + 6)) }
}

/// `s` is the animation set with the step table at `steps`, the frames header at `frames`
/// and character mask `mask`.
pub open spec fn set_read(s: AnimationSet, b: Seq<u8>, steps: int, frames: int, mask: u32) -> bool {
    &&& s.spec_mask() == mask
    &&& !has_motion(b, frames) ==> s.spec_animations().len() == 0
    &&& has_motion(b, frames) ==> {
        &&& s.spec_animations().len() == step_count(b, steps)
        &&& forall|a: int|
            0 <= a < s.spec_animations().len() ==> (#[trigger] s.spec_animations()[a])@.len()
                == step_frames(b, steps, a) && forall|i: int|
                0 <= i < step_frames(b, steps, a) ==> #[trigger] s.spec_animations()[a]@[i]
                    == animation_frame_at(b, steps, frames, a, i)
    }
}

/// The step table and the motion records of one set lie within the data.
pub open spec fn parts_fit(b: Seq<u8>, steps: int, frames: int) -> bool {
    steps_fit(b, steps) && frames_fit(b, frames, steps_need(b, steps, step_count(b, steps)))
}

/// Reads the steps and motion of one set and joins them.
fn read_set(b: &[u8], steps: usize, frames: usize, mask: u32) -> (r: Result<AnimationSet, AnimationError>)
    ensures
        r is Ok <==> parts_fit(b@, steps as int, frames as int),
        r is Err ==> r == Err::<AnimationSet, AnimationError>(AnimationError::Truncated),
        r matches Ok(s) ==> set_read(s, b@, steps as int, frames as int, mask),
{
    let (flags, total) = match read_steps(b, steps) {
        Ok(v) => v,
        Err(e) => {
            return Err(e);
        },
    };
    let motion = match read_frames(b, frames, total) {
        Ok(m) => m,
        Err(e) => {
            return Err(e);
        },
    };
    proof {
        assert forall|a: int, k: int|
            0 <= a < flags@.len() && 0 <= k < flags@[a]@.len() implies (#[trigger] flags@[a]@[k]).spec_index()
                < motion@.len() || motion@.len() == 0 by {
            if has_motion(b@, frames as int) {
                assert(flags@[a]@ == step_flags(b@, steps as int, a));
                lemma_indices_within_need(b@, steps as int, a, k);
            }
        }
    }
    let animations = AnimationSet::combine_data(&flags, &motion);
    let s = AnimationSet::new(animations, mask);
    proof {
        if has_motion(b@, frames as int) {
            assert forall|a: int| 0 <= a < s.spec_animations().len() implies (#[trigger] s.spec_animations()[a])@.len()
                == step_frames(b@, steps as int, a) && forall|i: int|
                0 <= i < step_frames(b@, steps as int, a) ==> #[trigger] s.spec_animations()[a]@[i]
                    == animation_frame_at(b@, steps as int, frames as int, a, i) by {
                assert(flags@[a]@ == step_flags(b@, steps as int, a));
                assert forall|i: int| 0 <= i < step_frames(b@, steps as int, a) implies #[trigger] s.spec_animations()[a]@[i]
                    == animation_frame_at(b@, steps as int, frames as int, a, i) by {
                    let f = step_flag(b@, steps as int, a, i);
                    assert(flags@[a]@[i] == f);
                    lemma_indices_within_need(b@, steps as int, a, i);
                    assert(motion_read(motion@[f.spec_index()], b@, record_at(b@, frames as int, f.spec_index()), motion_size(b@, frames as int)));
                }
            }
        }
    }
    Ok(s)
}

/// The directory of animation sets in a room's animation section: where it is, and how
/// many entries it has.
pub open spec fn set_dir(b: Seq<u8>) -> int {
    le32_at(b, 0)
}

pub open spec fn set_count(b: Seq<u8>) -> int {
    le32_at(b, 4)
}

/// Where the frames (after the character mask) and the steps of set `e` start.
pub open spec fn set_frames(b: Seq<u8>, e: int) -> int {
    le32_at(b, set_dir(b) + 8 * e)
}

pub open spec fn set_steps(b: Seq<u8>, e: int) -> int {
    le32_at(b, set_dir(b) + 8 * e + 4)
}

/// Set `e` of a room's animation section lies within it.
pub open spec fn room_set_fits(b: Seq<u8>, e: int) -> bool {
    set_frames(b, e) + 4 <= b.len() && parts_fit(b, set_steps(b, e), set_frames(b, e) + 4)
}

/// A room's animation section holds its directory and every set it lists.
pub open spec fn room_sets_fit(b: Seq<u8>) -> bool {
    &&& b.len() >= 8
    &&& set_dir(b) + 8 * set_count(b) <= b.len()
    &&& forall|e: int| 0 <= e < set_count(b) ==> #[trigger] room_set_fits(b, e)
}

/// `sets` are the animation sets of a room's animation section.
pub open spec fn room_sets_read(sets: Seq<AnimationSet>, b: Seq<u8>) -> bool {
    &&& sets.len() == set_count(b)
    &&& forall|e: int|
        0 <= e < sets.len() ==> set_read(
            #[trigger] sets[e],
            b,
            set_steps(b, e),
            set_frames(b, e) + 4,
            le32_at(b, set_frames(b, e)) as u32,
        )
}

impl AnimationSet {
    /// Reads the animation sets of a room's animation section: a directory of
    /// (frames, steps) offset pairs, each frames offset holding a character mask and
    /// then a frames header.
    pub fn read_rdt(b: &[u8]) -> (r: Result<Vec<AnimationSet>, AnimationError>)
        ensures
            r is Ok <==> room_sets_fit(b@),
            r is Err ==> r == Err::<Vec<AnimationSet>, AnimationError>(AnimationError::Truncated),
            r matches Ok(sets) ==> room_sets_read(sets@, b@),
    {
        let blen: usize = b.len();
        if blen < 8 {
            return Err(AnimationError::Truncated);
        }
        let dir = read_u32_le(b, 0).unwrap() as usize;
        let count = read_u32_le(b, 4).unwrap() as usize;
        if dir > blen || (blen - dir) / 8 < count {
            return Err(AnimationError::Truncated);
        }
        let mut sets: Vec<AnimationSet> = Vec::new();
        let mut e: usize = 0;
        while e < count
            invariant
                blen == b@.len(),
                dir == set_dir(b@),
                count == set_count(b@),
                dir + 8 * count <= blen,
                e <= count,
                sets@.len() == e,
                forall|q: int| 0 <= q < e ==> #[trigger] room_set_fits(b@, q),
                forall|q: int|
                    0 <= q < e ==> set_read(
                        #[trigger] sets@[q],
                        b@,
                        set_steps(b@, q),
                        set_frames(b@, q) + 4,
                        le32_at(b@, set_frames(b@, q)) as u32,
                    ),
            decreases count - e,
        {
            let frames = read_u32_le(b, dir + 8 * e).unwrap() as usize;
            let steps = read_u32_le(b, dir + 8 * e + 4).unwrap() as usize;
            if frames > blen || blen - frames < 4 {
                proof {
                    assert(!room_set_fits(b@, e as int));
                }
                return Err(AnimationError::Truncated);
            }
            let mask = read_u32_le(b, frames).unwrap();
            match read_set(b, steps, frames + 4, mask) {
                Ok(s) => {
                    sets.push(s);
                },
                Err(err) => {
                    proof {
                        assert(!room_set_fits(b@, e as int));
                    }
                    return Err(err);
                },
            }
            e = e + 1;
        }
        Ok(sets)
    }

    /// Reads the animation set of a weapon model file: a directory of section offsets,
    /// the first holding the step table and the second the frames header. The set
    /// applies to every character.
    pub fn read_plw(b: &[u8]) -> (r: Result<AnimationSet, AnimationError>)
        ensures
            b@.len() < 8 ==> r == Err::<AnimationSet, AnimationError>(AnimationError::Truncated),
            b@.len() >= 8 && set_count(b@) < 2 ==> r == Err::<AnimationSet, AnimationError>(
                AnimationError::TooFewSections,
            ),
            b@.len() >= 8 && set_count(b@) >= 2 ==> (r is Ok <==> set_dir(b@) + 4 * set_count(b@)
                <= b@.len() && parts_fit(b@, le32_at(b@, set_dir(b@)), le32_at(b@, set_dir(b@) + 4))),
            r is Err ==> r == Err::<AnimationSet, AnimationError>(AnimationError::Truncated) || r
                == Err::<AnimationSet, AnimationError>(AnimationError::TooFewSections),
            r matches Ok(s) ==> set_read(
                s,
                b@,
                le32_at(b@, set_dir(b@)),
                le32_at(b@, set_dir(b@) + 4),
                0xffff_ffff,
            ),
    {
        let blen: usize = b.len();
        if blen < 8 {
            return Err(AnimationError::Truncated);
        }
        let dir = read_u32_le(b, 0).unwrap() as usize;
        let count = read_u32_le(b, 4).unwrap() as usize;
        if count < 2 {
            return Err(AnimationError::TooFewSections);
        }
        if dir > blen || (blen - dir) / 4 < count {
            return Err(AnimationError::Truncated);
        }
        let steps = read_u32_le(b, dir).unwrap() as usize;
        let frames = read_u32_le(b, dir + 4).unwrap() as usize;
        read_set(b, steps, frames, 0xffff_ffff)
    }
}

} // verus!
