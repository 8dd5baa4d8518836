//! The failure taxonomy of the pipeline.
//!
//! Every failure is an explicit result value, never a panic, and each one
//! names the stage that failed. All of them are terminal for the invocation
//! except `TimedOut`, which a caller may retry by waiting again on the same
//! fence without rebuilding any resource.

use vstd::prelude::*;

verus! {

/// Everything that can go wrong in one filter invocation.
#[derive(Clone, Copy, Debug, PartialEq, Eq, Structural)]
pub enum PipelineError {
    /// No device driver could be loaded or no instance opened.
    NoDriver,
    /// The enumeration ran, but no device offers a compute-capable queue.
    NoComputeCapableDevice,
    /// The memory allocator could not satisfy a resource request.
    AllocationFailure,
    /// The compiled kernel artifact could not be loaded for the device.
    KernelCompileFailure,
    /// The recorded command sequence was rejected at submission.
    SubmissionFailure,
    /// The completion fence was not signaled within the allowed time.
    TimedOut,
    /// A pixel buffer's byte length does not match `width * height * 4`,
    /// or a dimension is zero.
    InvalidResourceDimensions,
}

impl PipelineError {
    /// The stage a user-visible report must name for this failure.
    pub open spec fn stage_spec(self) -> Seq<char> {
        match self {
            PipelineError::NoDriver => "device"@,
            PipelineError::NoComputeCapableDevice => "device"@,
            PipelineError::AllocationFailure => "allocate"@,
            PipelineError::KernelCompileFailure => "compile"@,
            PipelineError::SubmissionFailure => "submit"@,
            PipelineError::TimedOut => "wait"@,
            PipelineError::InvalidResourceDimensions => "validate"@,
        }
    }

    /// Names the failing stage, never an opaque abort.
    pub fn stage_name(&self) -> (s: &'static str)
        ensures
            s@ == self.stage_spec(),
    {
        match self {
            PipelineError::NoDriver => "device",
            PipelineError::NoComputeCapableDevice => "device",
            PipelineError::AllocationFailure => "allocate",
            PipelineError::KernelCompileFailure => "compile",
            PipelineError::SubmissionFailure => "submit",
            PipelineError::TimedOut => "wait",
            PipelineError::InvalidResourceDimensions => "validate",
        }
    }

    /// A fence timeout is the sole failure a caller may retry without
    /// rebuilding resources: it may simply wait again.
    pub fn is_retryable(&self) -> (r: bool)
        ensures
            r <==> self is TimedOut,
    {
        match self {
            PipelineError::TimedOut => true,
            _ => false,
        }
    }
}

} // verus!
