//! Animation frames: per-frame flags and the motion data that they index.
use vstd::prelude::*;

use crate::common::{SSVECTOR, VECTOR};

verus! {

/// One step of an animation: a frame index in the low 12 bits, flags above.
#[derive(Debug, Clone, Copy, PartialEq, Eq, Hash, Structural)]
pub struct FrameFlags(pub u32);

impl FrameFlags {
    pub open spec fn spec_index(self) -> int {
        (self.0 & 0xfff) as int
    }

    /// The index of the frame's motion data.
    pub fn index(&self) -> (r: usize)
        ensures
            r == self.spec_index(),
            r < 4096,
    {
        let v = self.0;
        assert(v & 0xfff < 4096) by (bit_vector);
        (v & 0xfff) as usize
    }

    pub fn flags(&self) -> (r: u32)
        ensures
            r == self.0 & 0xfffff000,
    {
        self.0 & 0xfffff000
    }
}

/// The motion data of one frame.
#[derive(Debug, Clone)]
pub struct FrameMotionData {
    pub unknown: SSVECTOR,
    pub speed: SSVECTOR,
    pub angles: Vec<u8>,
}

/// One frame of an animation: its flags and its speed.
#[derive(Debug, Clone, Copy, PartialEq, Eq, Structural)]
pub struct AnimationFrame {
    pub frame_flags: FrameFlags,
    pub frame_speed: VECTOR,
}

/// The speed of a frame, widened to 32-bit components.
pub open spec fn widened(v: SSVECTOR) -> VECTOR {
    VECTOR {
        x: crate::fixed::Fixed32(v.vx.0 as i32),
        y: crate::fixed::Fixed32(v.vy.0 as i32),
        z: crate::fixed::Fixed32(v.vz.0 as i32),
    }
}

/// The frame that flags `f` give with the motion data they index.
pub open spec fn frame_of(f: FrameFlags, motion: Seq<FrameMotionData>) -> AnimationFrame {
    AnimationFrame { frame_flags: f, frame_speed: widened(motion[f.spec_index()].speed) }
}

impl AnimationFrame {
    pub fn index(&self) -> (r: usize)
        ensures
            r == self.frame_flags.spec_index(),
    {
        self.frame_flags.index()
    }

    pub fn flags(&self) -> (r: u32)
        ensures
            r == self.frame_flags.0 & 0xfffff000,
    {
        self.frame_flags.flags()
    }

    pub fn speed(&self) -> (r: VECTOR)
        ensures
            r == self.frame_speed,
    {
        self.frame_speed
    }
}

/// A set of animations, and the characters that it applies to.
#[derive(Debug, Clone)]
pub struct AnimationSet {
    animations: Vec<Vec<AnimationFrame>>,
    character_mask: u32,
}

impl AnimationSet {
    pub closed spec fn spec_animations(&self) -> Seq<Vec<AnimationFrame>> {
        self.animations@
    }

    pub closed spec fn spec_mask(&self) -> u32 {
        self.character_mask
    }

    pub fn new(animations: Vec<Vec<AnimationFrame>>, character_mask: u32) -> (r: Self)
        ensures
            r.spec_animations() == animations@,
            r.spec_mask() == character_mask,
    {
        AnimationSet { animations, character_mask }
    }

    /// A set that applies to every character.
    pub fn from_model(animations: Vec<Vec<AnimationFrame>>) -> (r: Self)
        ensures
            r.spec_animations() == animations@,
            r.spec_mask() == 0xffff_ffff,
    {
        AnimationSet::new(animations, 0xffff_ffff)
    }

    pub fn animations(&self) -> (r: &Vec<Vec<AnimationFrame>>)
        ensures
            r@ == self.spec_animations(),
    {
        &self.animations
    }

    pub fn character_mask(&self) -> (r: u32)
        ensures
            r == self.spec_mask(),
    {
        self.character_mask
    }

    /// Joins each animation's frame flags with the speed of the motion data that they
    /// index. Without motion data there are no animations.
    pub fn combine_data(animation_flags: &Vec<Vec<FrameFlags>>, frame_motion: &Vec<FrameMotionData>) -> (r: Vec<Vec<AnimationFrame>>)
        requires
            forall|a: int, k: int|
                0 <= a < animation_flags@.len() && 0 <= k < animation_flags@[a]@.len() ==> (#[trigger] animation_flags@[a]@[k]).spec_index() < frame_motion@.len()
                    || frame_motion@.len() == 0,
        ensures
            frame_motion@.len() == 0 ==> r@.len() == 0,
            frame_motion@.len() > 0 ==> r@.len() == animation_flags@.len(),
            frame_motion@.len() > 0 ==> forall|a: int|
                0 <= a < r@.len() ==> (#[trigger] r@[a])@.len() == animation_flags@[a]@.len()
                    && forall|k: int|
                    0 <= k < r@[a]@.len() ==> #[trigger] r@[a]@[k] == frame_of(animation_flags@[a]@[k], frame_motion@),
    {
        let mut animations: Vec<Vec<AnimationFrame>> = Vec::new();
        if frame_motion.len() == 0 {
            return animations;
        }
        let mut a: usize = 0;
        while a < animation_flags.len()
            invariant
                frame_motion@.len() > 0,
                a <= animation_flags@.len(),
                animations@.len() == a,
                forall|a2: int, k: int|
                    0 <= a2 < animation_flags@.len() && 0 <= k < animation_flags@[a2]@.len() ==> (#[trigger] animation_flags@[a2]@[k]).spec_index() < frame_motion@.len()
                        || frame_motion@.len() == 0,
                forall|a2: int|
                    0 <= a2 < a ==> (#[trigger] animations@[a2])@.len() == animation_flags@[a2]@.len()
                        && forall|k: int|
                        0 <= k < animations@[a2]@.len() ==> #[trigger] animations@[a2]@[k] == frame_of(animation_flags@[a2]@[k], frame_motion@),
            decreases animation_flags@.len() - a,
        {
            let flags = &animation_flags[a];
            let mut frames: Vec<AnimationFrame> = Vec::new();
            let mut k: usize = 0;
            while k < flags.len()
                invariant
                    frame_motion@.len() > 0,
                    a < animation_flags@.len(),
                    flags@ == animation_flags@[a as int]@,
                    k <= flags@.len(),
                    frames@.len() == k,
                    forall|k2: int| 0 <= k2 < flags@.len() ==> (#[trigger] flags@[k2]).spec_index() < frame_motion@.len(),
                    forall|k2: int|
                        0 <= k2 < k ==> #[trigger] frames@[k2] == frame_of(flags@[k2], frame_motion@),
                decreases flags@.len() - k,
            {
                let f = flags[k];
                let s = frame_motion[f.index()].speed;
                frames.push(
                    AnimationFrame {
                        frame_flags: f,
                        frame_speed: VECTOR {
                            x: crate::fixed::Fixed32(s.vx.0 as i32),
                            y: crate::fixed::Fixed32(s.vy.0 as i32),
                            z: crate::fixed::Fixed32(s.vz.0 as i32),
                        },
                    },
                );
                k = k + 1;
            }
            animations.push(frames);
            a = a + 1;
        }
        animations
    }
}

} // verus!
