//! Submission and the completion fence.
//!
//! Submission is asynchronous: it hands back a one-shot fence, initially
//! unsignaled, and the download destination stays locked inside the
//! submitted batch until a wait on that fence succeeds — reading it
//! earlier is structurally impossible. The device's answer to one blocking
//! wait (it signaled, or the timeout elapsed first) enters as a
//! [`WaitOutcome`]; a fence that is already signaled succeeds immediately
//! and ignores the device.

use vstd::prelude::*;

use crate::errors::PipelineError;
use crate::image::{byte_len, ImageBuffer};
use crate::sequence::CommandSequence;

verus! {

/// What one blocking wait observed from the device.
#[derive(Clone, Copy, Debug, PartialEq, Eq, Structural)]
pub enum WaitOutcome {
    /// The device signaled completion within the allowed time.
    Signaled,
    /// The allowed time elapsed first.
    TimedOut,
}

/// A one-shot host-observable completion signal for submitted device
/// work.
#[derive(Clone, Copy, Debug, PartialEq, Eq, Structural)]
pub struct CompletionFence {
    /// Whether completion has been observed.
    pub signaled: bool,
}

impl CompletionFence {
    /// The result a wait returns: success once signaled — now or by this
    /// very wait — and `TimedOut` otherwise.
    pub open spec fn wait_result_spec(self, outcome: WaitOutcome) -> Result<(), PipelineError> {
        if self.signaled || outcome == WaitOutcome::Signaled {
            Ok(())
        } else {
            Err(PipelineError::TimedOut)
        }
    }

    /// The fence after a wait: signaled stays signaled; otherwise the
    /// device's outcome decides.
    pub open spec fn wait_next_spec(self, outcome: WaitOutcome) -> CompletionFence {
        CompletionFence { signaled: self.signaled || outcome == WaitOutcome::Signaled }
    }

    /// Blocks the caller until the fence is signaled or the allowed time
    /// elapses; `outcome` is what the device reported. An already-signaled
    /// fence returns success immediately, unchanged, without consulting
    /// the device.
    pub fn wait(&mut self, outcome: WaitOutcome) -> (r: Result<(), PipelineError>)
        ensures
            r == old(self).wait_result_spec(outcome),
            *final(self) == old(self).wait_next_spec(outcome),
            old(self).signaled ==> r is Ok && *final(self) == *old(self),
    {
        if self.signaled {
            return Ok(());
        }
        match outcome {
            WaitOutcome::Signaled => {
                self.signaled = true;
                Ok(())
            },
            WaitOutcome::TimedOut => Err(PipelineError::TimedOut),
        }
    }
}

/// Waiting on an already-signaled fence is idempotent: any number of
/// further waits return success immediately, whatever the device would
/// have reported, and leave the fence signaled.
pub proof fn lemma_wait_idempotent(f: CompletionFence, o1: WaitOutcome, o2: WaitOutcome)
    requires
        f.signaled,
    ensures
        f.wait_result_spec(o1) == Ok::<(), PipelineError>(()),
        f.wait_next_spec(o1) == f,
        f.wait_next_spec(o1).wait_result_spec(o2) == Ok::<(), PipelineError>(()),
        f.wait_next_spec(o1).wait_next_spec(o2) == f,
{
}

/// Work handed to the device: the completion fence and, sealed until the
/// fence is signaled, the download destination.
pub struct SubmittedBatch {
    fence: CompletionFence,
    width: u32,
    height: u32,
    payload: Vec<u8>,
}

impl SubmittedBatch {
    /// The batch's fence.
    pub closed spec fn fence_spec(self) -> CompletionFence {
        self.fence
    }

    /// The sealed download bytes.
    pub closed spec fn payload_spec(self) -> Seq<u8> {
        self.payload@
    }

    /// Grid width of the result.
    pub closed spec fn width_spec(self) -> u32 {
        self.width
    }

    /// Grid height of the result.
    pub closed spec fn height_spec(self) -> u32 {
        self.height
    }

    /// A batch over a full grid with non-empty dimensions.
    pub closed spec fn wf(self) -> bool {
        &&& self.width >= 1
        &&& self.height >= 1
        &&& self.payload@.len() == byte_len(self.width as int, self.height as int)
    }

    /// One blocking wait on the batch, surrendering the download
    /// destination only on success.
    ///
    /// On success the destination leaves as a well-formed pixel grid; on
    /// timeout the caller gets the batch back untouched and may wait
    /// again — the sole retryable failure — without rebuilding anything.
    pub fn wait_and_take(self, outcome: WaitOutcome) -> (r: Result<
        ImageBuffer,
        (SubmittedBatch, PipelineError),
    >)
        requires
            self.wf(),
        ensures
            self.fence_spec().wait_result_spec(outcome) is Ok ==> (r matches Ok(img) ==> img.wf()
                && img.width == self.width_spec() && img.height == self.height_spec() && img@
                == self.payload_spec()),
            self.fence_spec().wait_result_spec(outcome) is Ok ==> r is Ok,
            self.fence_spec().wait_result_spec(outcome) is Err ==> (r matches Err(back)
                ==> back.0 == self && back.1 == PipelineError::TimedOut),
            self.fence_spec().wait_result_spec(outcome) is Err ==> r is Err,
    {
        let SubmittedBatch { mut fence, width, height, payload } = self;
        match fence.wait(outcome) {
            Ok(()) => Ok(ImageBuffer { width, height, bytes: payload }),
            Err(e) => Err((SubmittedBatch { fence, width, height, payload }, e)),
        }
    }
}

/// Copies staged bytes, as a device copy command does.
fn copy_bytes(src: &Vec<u8>) -> (r: Vec<u8>)
    ensures
        r@ == src@,
{
    let mut out: Vec<u8> = Vec::new();
    let n = src.len();
    let mut k: usize = 0;
    while k < n
        invariant
            n == src@.len(),
            k <= n,
            out@.len() == k,
            forall|j: int| 0 <= j < k ==> out@[j] == src@[j],
        decreases n - k,
    {
        out.push(src[k]);
        k = k + 1;
    }
    assert(out@ =~= src@);
    out
}

/// Submits a recorded sequence: the device executes the upload copy, the
/// dispatches in list order, and the download copy, exactly once.
///
/// The returned batch's fence is unsignaled — submission is asynchronous
/// — and its sealed payload is exactly the sequence's output, reachable
/// only through a successful wait.
pub fn submit(sequence: &CommandSequence) -> (batch: SubmittedBatch)
    requires
        sequence.wf(),
    ensures
        !batch.fence_spec().signaled,
        batch.wf(),
        batch.width_spec() == sequence.image.width,
        batch.height_spec() == sequence.image.height,
        batch.payload_spec() == sequence.sequence_output(),
{
    let width = sequence.image.width;
    let height = sequence.image.height;
    let ghost wi = width as int;
    let ghost hi = height as int;
    // the upload copy: staged bytes become the image contents
    let uploaded = copy_bytes(&sequence.upload.data);
    let mut current = ImageBuffer { width, height, bytes: uploaded };
    let n = sequence.dispatches.len();
    let mut k: usize = 0;
    while k < n
        invariant
            sequence.wf(),
            n == sequence.dispatches@.len(),
            k <= n,
            width == sequence.image.width,
            height == sequence.image.height,
            wi == width as int,
            hi == height as int,
            current.wf(),
            current.width == width,
            current.height == height,
            current@ == crate::sequence::passes_output(
                sequence.pass_kinds().take(k as int),
                sequence.upload.data@,
                wi,
                hi,
            ),
        decreases n - k,
    {
        let next = sequence.dispatches[k].program.apply(&current);
        proof {
            assert(sequence.pass_kinds().take(k + 1).drop_last() =~= sequence.pass_kinds().take(
                k as int,
            ));
            assert(sequence.pass_kinds().take(k + 1).last() == sequence.dispatches@[k as int].program.kind);
        }
        current = next;
        k = k + 1;
    }
    proof {
        assert(sequence.pass_kinds().take(n as int) =~= sequence.pass_kinds());
    }
    // the download copy: image contents become the sealed destination
    let payload = copy_bytes(&current.bytes);
    SubmittedBatch { fence: CompletionFence { signaled: false }, width, height, payload }
}

} // verus!
