//! The per-frame synchronization protocol: a fixed ring of frame slots,
//! each with an in-flight fence, and a per-image record of which fence
//! guards each swapchain image.
//!
//! The driver of the render loop performs the blocking waits and the queue
//! calls; this state machine decides them and tracks what the waits have
//! established.  A slot's fence counts as pending from submission until a
//! wait has observed it signaled; an image may be handed to a new frame
//! only once the fence recorded for it has been observed.

use vstd::prelude::*;

use crate::error::EngineError;

verus! {

/// The number of frames the processor may run ahead of the device.
pub const MAX_FRAMES_IN_FLIGHT: usize = 2;

/// What acquiring the next swapchain image reported.
#[derive(Clone, Copy, Debug, PartialEq, Eq, Structural)]
pub enum AcquireOutcome {
    /// An image index was handed out.
    Image(u32),
    /// The swapchain no longer matches the surface.
    OutOfDate,
    /// Any other acquire failure.
    Error,
}

/// What the frame should do after the acquire call.
#[derive(Clone, Copy, Debug, PartialEq, Eq, Structural)]
pub enum AcquireDecision {
    /// Record and submit against this image index.
    Proceed(u32),
    /// Abort the frame and rebuild the swapchain.
    Recreate,
    /// Abort the run with this error.
    Fail(EngineError),
}

/// What presenting the finished image reported.
#[derive(Clone, Copy, Debug, PartialEq, Eq, Structural)]
pub enum PresentOutcome {
    Presented,
    /// Presented, but the swapchain no longer matches the surface well.
    Suboptimal,
    /// The swapchain no longer matches the surface.
    OutOfDate,
    /// Any other present failure.
    Error,
}

/// What the frame should do after the present call.
#[derive(Clone, Copy, Debug, PartialEq, Eq, Structural)]
pub enum PresentDecision {
    Continue,
    /// Rebuild the swapchain before the next frame.
    Recreate,
    /// Abort the run.
    Fail,
}

/// Where the current frame stands in the per-frame protocol.
#[derive(Clone, Copy, Debug, PartialEq, Eq, Structural)]
pub enum FramePhase {
    /// Nothing of this frame has run yet.
    Idle,
    /// The slot's fence was observed; an image is being acquired.
    Acquiring,
    /// An image is bound; commands and uniforms are being recorded.
    Recording,
    /// The frame's work was submitted; presentation follows.
    Submitted,
}

/// How many entries of `s` are set.
pub open spec fn pending_count(s: Seq<bool>) -> nat
    decreases s.len(),
{
    if s.len() == 0 {
        0
    } else {
        pending_count(s.drop_last()) + if s.last() {
            1nat
        } else {
            0nat
        }
    }
}

/// No more entries can be set than there are entries.
pub proof fn lemma_pending_count_le_len(s: Seq<bool>)
    ensures
        pending_count(s) <= s.len(),
    decreases s.len(),
{
    if s.len() > 0 {
        lemma_pending_count_le_len(s.drop_last());
    }
}

/// How one update moves the count: the old entry leaves it, the new entry
/// enters it.
pub proof fn lemma_pending_count_update(s: Seq<bool>, i: int, b: bool)
    requires
        0 <= i < s.len(),
    ensures
        pending_count(s.update(i, b)) + (if s[i] {
            1nat
        } else {
            0nat
        }) == pending_count(s) + (if b {
            1nat
        } else {
            0nat
        }),
    decreases s.len(),
{
    if i == s.len() - 1 {
        assert(s.update(i, b).drop_last() =~= s.drop_last());
    } else {
        assert(s.update(i, b).drop_last() =~= s.drop_last().update(i, b));
        lemma_pending_count_update(s.drop_last(), i, b);
    }
}

/// The synchronization state of the frame ring.
#[derive(Clone, Debug)]
pub struct FrameCycle {
    /// The fixed number of frame slots.
    pub frames_in_flight: usize,
    /// The slot the next frame will use.
    pub frame_slot: usize,
    /// Per slot: a submission signaling this slot's fence has not yet been
    /// observed complete.
    pub slot_pending: Vec<bool>,
    /// Per swapchain image: the slot whose fence guards it, if any.
    pub images_in_flight: Vec<Option<usize>>,
    /// Where the current frame stands.
    pub phase: FramePhase,
}

impl FrameCycle {
    /// Structural soundness: the ring is nonempty, the slot cursor and
    /// every recorded guard point into the ring.
    pub open spec fn wf(&self) -> bool {
        &&& 1 <= self.frames_in_flight
        &&& self.slot_pending@.len() == self.frames_in_flight
        &&& self.frame_slot < self.frames_in_flight
        &&& forall|i: int|
            0 <= i < self.images_in_flight@.len() ==> match #[trigger] self.images_in_flight@[i] {
                Some(s) => s < self.frames_in_flight,
                None => true,
            }
    }

    /// An image may be bound to a new frame only when no unobserved fence
    /// guards it.
    pub open spec fn bind_allowed(&self, image_index: int) -> bool {
        match self.images_in_flight@[image_index] {
            Some(s) => !self.slot_pending@[s as int],
            None => true,
        }
    }

    /// A fresh ring: fences start signaled (no slot pending), no image is
    /// guarded, the cursor is at slot zero.
    pub fn new(frames_in_flight: usize, image_count: usize) -> (r: FrameCycle)
        requires
            1 <= frames_in_flight,
        ensures
            r.wf(),
            r.frames_in_flight == frames_in_flight,
            r.frame_slot == 0,
            r.slot_pending@ == Seq::new(frames_in_flight as nat, |i: int| false),
            r.images_in_flight@ == Seq::new(image_count as nat, |i: int| None::<usize>),
            r.phase == FramePhase::Idle,
    {
        let mut slot_pending: Vec<bool> = Vec::new();
        let mut i: usize = 0;
        while i < frames_in_flight
            invariant
                i <= frames_in_flight,
                slot_pending@.len() == i,
                forall|j: int| 0 <= j < i ==> !slot_pending@[j],
            decreases frames_in_flight - i,
        {
            slot_pending.push(false);
            i = i + 1;
        }
        let mut images_in_flight: Vec<Option<usize>> = Vec::new();
        let mut j: usize = 0;
        while j < image_count
            invariant
                j <= image_count,
                images_in_flight@.len() == j,
                forall|k: int| 0 <= k < j ==> images_in_flight@[k] is None,
            decreases image_count - j,
        {
            images_in_flight.push(None);
            j = j + 1;
        }
        proof {
            assert(slot_pending@ =~= Seq::new(frames_in_flight as nat, |i: int| false));
            assert(images_in_flight@ =~= Seq::new(image_count as nat, |i: int| None::<usize>));
        }
        FrameCycle {
            frames_in_flight,
            frame_slot: 0,
            slot_pending,
            images_in_flight,
            phase: FramePhase::Idle,
        }
    }

    /// Records that the blocking wait on the current slot's fence has
    /// returned: the slot's previous submission is complete.
    pub fn observe_current_fence(&mut self)
        requires
            old(self).wf(),
            old(self).phase == FramePhase::Idle,
        ensures
            final(self).wf(),
            final(self).slot_pending@ == old(self).slot_pending@.update(
                old(self).frame_slot as int,
                false,
            ),
            final(self).frames_in_flight == old(self).frames_in_flight,
            final(self).frame_slot == old(self).frame_slot,
            final(self).images_in_flight == old(self).images_in_flight,
            final(self).phase == FramePhase::Acquiring,
            !final(self).slot_pending@[final(self).frame_slot as int],
    {
        let slot = self.frame_slot;
        self.slot_pending.set(slot, false);
        self.phase = FramePhase::Acquiring;
    }

    /// Decides the frame's fate from the acquire report: proceed on a valid
    /// image index, rebuild the swapchain when the report says it is out of
    /// date, abort the run on anything else.
    pub fn decide_acquire(&self, outcome: AcquireOutcome) -> (r: AcquireDecision)
        requires
            self.wf(),
            self.phase == FramePhase::Acquiring,
        ensures
            r == match outcome {
                AcquireOutcome::Image(i) => if (i as int) < self.images_in_flight@.len() {
                    AcquireDecision::Proceed(i)
                } else {
                    AcquireDecision::Fail(EngineError::InvalidImageIndex)
                },
                AcquireOutcome::OutOfDate => AcquireDecision::Recreate,
                AcquireOutcome::Error => AcquireDecision::Fail(EngineError::AcquireFailed),
            },
    {
        match outcome {
            AcquireOutcome::Image(i) => {
                if (i as usize) < self.images_in_flight.len() {
                    AcquireDecision::Proceed(i)
                } else {
                    AcquireDecision::Fail(EngineError::InvalidImageIndex)
                }
            },
            AcquireOutcome::OutOfDate => AcquireDecision::Recreate,
            AcquireOutcome::Error => AcquireDecision::Fail(EngineError::AcquireFailed),
        }
    }

    /// The fence slot guarding an image, if any: the caller must wait on
    /// that slot's fence before handing the image to a new frame.
    pub fn image_fence(&self, image_index: usize) -> (r: Option<usize>)
        requires
            self.wf(),
            (image_index as int) < self.images_in_flight@.len(),
        ensures
            r == self.images_in_flight@[image_index as int],
    {
        self.images_in_flight[image_index]
    }

    /// Records that the blocking wait on the fence guarding `image_index`
    /// has returned.
    pub fn observe_image_fence(&mut self, image_index: usize)
        requires
            old(self).wf(),
            old(self).phase == FramePhase::Acquiring,
            (image_index as int) < old(self).images_in_flight@.len(),
            old(self).images_in_flight@[image_index as int] is Some,
        ensures
            final(self).wf(),
            final(self).slot_pending@ == old(self).slot_pending@.update(
                old(self).images_in_flight@[image_index as int].unwrap() as int,
                false,
            ),
            final(self).frames_in_flight == old(self).frames_in_flight,
            final(self).frame_slot == old(self).frame_slot,
            final(self).images_in_flight == old(self).images_in_flight,
            final(self).phase == old(self).phase,
            final(self).bind_allowed(image_index as int),
    {
        let slot = self.images_in_flight[image_index].unwrap();
        self.slot_pending.set(slot, false);
    }

    /// Hands `image_index` to the current frame: from here the current
    /// slot's fence guards it.  Demands that any fence previously recorded
    /// for the image has been observed signaled.
    pub fn bind_image(&mut self, image_index: usize)
        requires
            old(self).wf(),
            old(self).phase == FramePhase::Acquiring,
            (image_index as int) < old(self).images_in_flight@.len(),
            old(self).bind_allowed(image_index as int),
        ensures
            final(self).wf(),
            final(self).images_in_flight@ == old(self).images_in_flight@.update(
                image_index as int,
                Some(old(self).frame_slot),
            ),
            final(self).frames_in_flight == old(self).frames_in_flight,
            final(self).frame_slot == old(self).frame_slot,
            final(self).slot_pending == old(self).slot_pending,
            final(self).phase == FramePhase::Recording,
    {
        let slot = self.frame_slot;
        self.images_in_flight.set(image_index, Some(slot));
        self.phase = FramePhase::Recording;
    }

    /// Records the queue submission for the current frame: its fence was
    /// reset and will signal when the device finishes, so the slot is
    /// pending again.  Demands that the slot's previous work was observed
    /// complete, which bounds how far the processor runs ahead.
    pub fn submit_current(&mut self)
        requires
            old(self).wf(),
            old(self).phase == FramePhase::Recording,
            !old(self).slot_pending@[old(self).frame_slot as int],
        ensures
            final(self).wf(),
            final(self).slot_pending@ == old(self).slot_pending@.update(
                old(self).frame_slot as int,
                true,
            ),
            final(self).frames_in_flight == old(self).frames_in_flight,
            final(self).frame_slot == old(self).frame_slot,
            final(self).images_in_flight == old(self).images_in_flight,
            final(self).phase == FramePhase::Submitted,
    {
        let slot = self.frame_slot;
        self.slot_pending.set(slot, true);
        self.phase = FramePhase::Submitted;
    }

    /// Decides what follows the present call: rebuild on staleness or an
    /// observed resize, abort on any other failure.
    pub fn decide_present(&self, outcome: PresentOutcome, resized: bool) -> (r: PresentDecision)
        requires
            self.phase == FramePhase::Submitted,
        ensures
            r == if outcome == PresentOutcome::Suboptimal || outcome == PresentOutcome::OutOfDate
                || resized {
                PresentDecision::Recreate
            } else if outcome == PresentOutcome::Error {
                PresentDecision::Fail
            } else {
                PresentDecision::Continue
            },
    {
        if outcome == PresentOutcome::Suboptimal || outcome == PresentOutcome::OutOfDate
            || resized {
            PresentDecision::Recreate
        } else if outcome == PresentOutcome::Error {
            PresentDecision::Fail
        } else {
            PresentDecision::Continue
        }
    }

    /// Moves the cursor to the next slot of the ring.
    pub fn advance(&mut self)
        requires
            old(self).wf(),
            old(self).phase == FramePhase::Submitted,
        ensures
            final(self).wf(),
            final(self).frame_slot == (old(self).frame_slot + 1) % (
            old(self).frames_in_flight as int),
            final(self).frames_in_flight == old(self).frames_in_flight,
            final(self).slot_pending == old(self).slot_pending,
            final(self).images_in_flight == old(self).images_in_flight,
            final(self).phase == FramePhase::Idle,
    {
        self.frame_slot = (self.frame_slot + 1) % self.frames_in_flight;
        self.phase = FramePhase::Idle;
    }

    /// Abandons the current frame before anything was recorded, as when
    /// the acquire reports the swapchain out of date.
    pub fn abort_frame(&mut self)
        requires
            old(self).wf(),
        ensures
            final(self).wf(),
            final(self).frames_in_flight == old(self).frames_in_flight,
            final(self).frame_slot == old(self).frame_slot,
            final(self).slot_pending == old(self).slot_pending,
            final(self).images_in_flight == old(self).images_in_flight,
            final(self).phase == FramePhase::Idle,
    {
        self.phase = FramePhase::Idle;
    }

    /// Resets the per-image guards for a rebuilt swapchain: the table is
    /// resized to the new image count and cleared, so no fence of the old
    /// swapchain is ever consulted again.
    pub fn reset_images(&mut self, image_count: usize)
        requires
            old(self).wf(),
        ensures
            final(self).wf(),
            final(self).images_in_flight@ == Seq::new(image_count as nat, |i: int| None::<usize>),
            final(self).frames_in_flight == old(self).frames_in_flight,
            final(self).frame_slot == old(self).frame_slot,
            final(self).slot_pending == old(self).slot_pending,
            final(self).phase == old(self).phase,
    {
        let mut images_in_flight: Vec<Option<usize>> = Vec::new();
        let mut j: usize = 0;
        while j < image_count
            invariant
                j <= image_count,
                images_in_flight@.len() == j,
                forall|k: int| 0 <= k < j ==> images_in_flight@[k] is None,
            decreases image_count - j,
        {
            images_in_flight.push(None);
            j = j + 1;
        }
        proof {
            assert(images_in_flight@ =~= Seq::new(image_count as nat, |i: int| None::<usize>));
        }
        self.images_in_flight = images_in_flight;
    }
}

/// At any point, at most `frames_in_flight` submissions are outstanding:
/// every outstanding submission holds a distinct slot of the fixed ring,
/// because a slot cannot be submitted again until a wait has observed its
/// fence.
pub proof fn lemma_frames_in_flight_bound(fc: FrameCycle)
    requires
        fc.wf(),
    ensures
        pending_count(fc.slot_pending@) <= fc.frames_in_flight,
{
    lemma_pending_count_le_len(fc.slot_pending@);
}

/// Submitting raises the outstanding count by exactly one and never past
/// the ring size: a slot is submitted only after its previous submission
/// was observed complete, so the processor can run at most
/// `frames_in_flight` frames ahead of the device.
pub proof fn lemma_submit_raises_pending(fc: FrameCycle)
    requires
        fc.wf(),
        !fc.slot_pending@[fc.frame_slot as int],
    ensures
        pending_count(fc.slot_pending@.update(fc.frame_slot as int, true)) == pending_count(
            fc.slot_pending@,
        ) + 1,
        pending_count(fc.slot_pending@.update(fc.frame_slot as int, true))
            <= fc.frames_in_flight,
{
    lemma_pending_count_update(fc.slot_pending@, fc.frame_slot as int, true);
    lemma_pending_count_le_len(fc.slot_pending@.update(fc.frame_slot as int, true));
}

/// An image whose recorded fence has not been observed signaled cannot be
/// handed to a new frame: reuse of a swapchain image always waits for the
/// frame previously rendering into it.
pub proof fn lemma_image_reuse_waits(fc: FrameCycle, image_index: int)
    requires
        fc.wf(),
        0 <= image_index < fc.images_in_flight@.len(),
        fc.images_in_flight@[image_index] is Some,
        fc.slot_pending@[fc.images_in_flight@[image_index].unwrap() as int],
    ensures
        !fc.bind_allowed(image_index),
{
}

} // verus!
