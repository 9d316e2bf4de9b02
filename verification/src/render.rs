//! What a render request asks for: one frame, or a run of frames.
//!
//! An animation is a sequence of independent single-frame renders; this
//! module expands a request into the exact list of frame indices to
//! render, in order.

use vstd::prelude::*;

verus! {

/// A render request: a single frame by index, or `Animation(start, count)`,
/// the `count` consecutive frames beginning at `start`.
pub enum RenderType {
    SingleFrame(u32),
    Animation(u32, u32),
}

/// The frame indices a request expands to, in render order.
pub open spec fn spec_frames(render_type: RenderType) -> Seq<u32> {
    match render_type {
        RenderType::SingleFrame(frame) => seq![frame],
        RenderType::Animation(start, count) => Seq::new(
            count as nat,
            |i: int| (start + i) as u32,
        ),
    }
}

/// A request's last frame index stays representable; an animation of
/// `count` frames starting at `start` ends at `start + count - 1`.
pub open spec fn frames_representable(render_type: RenderType) -> bool {
    match render_type {
        RenderType::SingleFrame(_) => true,
        RenderType::Animation(start, count) => start + count <= u32::MAX + 1,
    }
}

/// Expand a render request into the list of frame indices to render:
/// one index for a single frame, `start, start + 1, ...` for an animation.
pub fn frames_to_render(render_type: &RenderType) -> (frames: Vec<u32>)
    requires
        frames_representable(*render_type),
    ensures
        frames@ == spec_frames(*render_type),
{
    match render_type {
        RenderType::SingleFrame(frame) => {
            let mut frames: Vec<u32> = Vec::new();
            frames.push(*frame);
            proof {
                assert(frames@ =~= spec_frames(*render_type));
            }
            frames
        },
        RenderType::Animation(start, count) => {
            let mut frames: Vec<u32> = Vec::new();
            let mut i: u32 = 0;
            while i < *count
                invariant
                    i <= *count,
                    *start + *count <= u32::MAX + 1,
                    frames@.len() == i,
                    forall|j: int| 0 <= j < i ==> frames@[j] == *start + j,
                decreases *count - i,
            {
                frames.push(*start + i);
                i = i + 1;
            }
            proof {
                assert(frames@ =~= spec_frames(*render_type));
            }
            frames
        },
    }
}

} // verus!
