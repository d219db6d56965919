use vstd::prelude::*;

use crate::frame::FrameMesh;
use crate::pitch::PitchAngle;

verus! {

/// One fully rendered frame: its position in the sweep, the camera pitch
/// it was rendered under, and its surface mesh.
#[derive(Clone, PartialEq, Eq, Debug)]
pub struct FrameRecord {
    pub frame_index: u32,
    pub angle: PitchAngle,
    pub mesh: FrameMesh,
}

/// Why frame assembly failed.
#[derive(Clone, Copy, PartialEq, Eq, Structural, Debug)]
pub enum AssembleError {
    /// A frame arrived out of sweep order, or arrived twice.
    OutOfOrder,
    /// More frames arrived than the sweep has.
    TooManyFrames,
    /// Finalized before the sweep was complete.
    IncompleteSequence,
}

/// The finished animation artifact: its frames in sweep order and the
/// constant inter-frame delay.
#[derive(Clone, PartialEq, Eq, Debug)]
pub struct Animation {
    pub delay: u32,
    pub frames: Vec<FrameRecord>,
}

impl Animation {
    /// Frame `k` of the animation is the sweep's frame `k`.
    pub open spec fn wf(self) -> bool {
        forall|k: int|
            0 <= k < self.frames@.len() ==> (#[trigger] self.frames@[k]).frame_index == k
    }

    /// How many frames the animation reports when read back.
    pub fn frame_count(&self) -> (r: usize)
        ensures
            r == self.frames@.len(),
    {
        self.frames.len()
    }

    /// The constant inter-frame delay the animation reports when read back.
    pub fn frame_delay(&self) -> (r: u32)
        ensures
            r == self.delay,
    {
        self.delay
    }
}

/// Accumulates successive frames into one animation with a constant
/// inter-frame delay. Frames must arrive in strictly increasing sweep
/// order; none is reordered or dropped, and the artifact is produced
/// exactly once, after the last frame.
#[derive(Clone, PartialEq, Eq, Debug)]
pub struct AnimationAssembler {
    pub delay: u32,
    pub expected_frames: u32,
    pub frames: Vec<FrameRecord>,
}

impl AnimationAssembler {
    pub open spec fn wf(self) -> bool {
        &&& self.delay > 0
        &&& self.expected_frames > 0
        &&& self.frames@.len() <= self.expected_frames
        &&& forall|k: int|
            0 <= k < self.frames@.len() ==> (#[trigger] self.frames@[k]).frame_index == k
    }

    pub fn new(delay: u32, expected_frames: u32) -> (r: AnimationAssembler)
        requires
            delay > 0,
            expected_frames > 0,
        ensures
            r.wf(),
            r.delay == delay,
            r.expected_frames == expected_frames,
            r.frames@.len() == 0,
    {
        AnimationAssembler { delay, expected_frames, frames: Vec::new() }
    }

    /// Appends the next frame of the sweep. The frame is accepted exactly
    /// when it is the one the sweep order owes next and the sweep is not
    /// already complete; on an error nothing changes, so no frame is ever
    /// reordered, dropped or duplicated.
    pub fn append(&mut self, frame: FrameRecord) -> (r: Result<(), AssembleError>)
        requires
            old(self).wf(),
        ensures
            final(self).wf(),
            final(self).delay == old(self).delay,
            final(self).expected_frames == old(self).expected_frames,
            r is Ok <==> (old(self).frames@.len() < old(self).expected_frames
                && frame.frame_index == old(self).frames@.len()),
            r is Ok ==> final(self).frames@ == old(self).frames@.push(frame),
            r is Err ==> final(self).frames@ == old(self).frames@,
            old(self).frames@.len() >= old(self).expected_frames ==> r == Err::<
                (),
                AssembleError,
            >(AssembleError::TooManyFrames),
            old(self).frames@.len() < old(self).expected_frames && frame.frame_index != old(
                self,
            ).frames@.len() ==> r == Err::<(), AssembleError>(AssembleError::OutOfOrder),
    {
        if self.frames.len() >= self.expected_frames as usize {
            Err(AssembleError::TooManyFrames)
        } else if frame.frame_index as usize != self.frames.len() {
            Err(AssembleError::OutOfOrder)
        } else {
            self.frames.push(frame);
            Ok(())
        }
    }

    /// Closes the assembly: succeeds exactly when every frame of the sweep
    /// has arrived, and then yields the animation with all frames in sweep
    /// order and the configured delay. An incomplete sweep yields no
    /// artifact at all — never a silently shortened animation.
    pub fn finalize(self) -> (r: Result<Animation, AssembleError>)
        requires
            self.wf(),
        ensures
            r is Ok <==> self.frames@.len() == self.expected_frames,
            r matches Ok(a) ==> a.wf() && a.delay == self.delay && a.frames@ == self.frames@,
            r is Err ==> r == Err::<Animation, AssembleError>(AssembleError::IncompleteSequence),
    {
        if self.frames.len() == self.expected_frames as usize {
            Ok(Animation { delay: self.delay, frames: self.frames })
        } else {
            Err(AssembleError::IncompleteSequence)
        }
    }
}

/// Round-trip law: an animation assembled from a complete sweep of
/// `expected_frames` frames at delay `delay` reports, when read back,
/// exactly that frame count, that delay, and frame `k` of the sweep at
/// position `k`.
pub proof fn lemma_assembly_round_trip(assembler: AnimationAssembler, a: Animation)
    requires
        assembler.wf(),
        assembler.frames@.len() == assembler.expected_frames,
        a.delay == assembler.delay,
        a.frames@ == assembler.frames@,
    ensures
        a.frames@.len() == assembler.expected_frames,
        a.delay == assembler.delay,
        forall|k: int| 0 <= k < a.frames@.len() ==> (#[trigger] a.frames@[k]).frame_index == k,
{
}

} // verus!
