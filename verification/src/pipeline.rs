//! One filter invocation, end to end.
//!
//! A single host thread drives the cycle: validate the boundary buffer,
//! create the invocation-scoped resources from the shared allocator, fill
//! the upload buffer, compile and bind the kernels, record the sequence,
//! submit once, wait on the fence, take the result, and release every
//! resource block back to the pool. No stage retries; the first failure
//! propagates as its stage's error.

use vstd::prelude::*;

use crate::errors::PipelineError;
use crate::gate::{submit, WaitOutcome};
use crate::image::{byte_len, ImageBuffer};
use crate::kernels::{apply_spec, compile, KernelKind};
use crate::memory::{
    count_fitting, lemma_count_fitting_nonneg, lemma_pool_fits_count, lemma_round_up_bounds,
    round_up_spec, MemoryAllocator,
};
use crate::resources::{create_image, create_transfer_buffer, TransferDirection};
use crate::sequence::{bind, passes_output, CommandSequence, DispatchBinding};

verus! {

/// Whether an allocator can serve the three equal-sized resource
/// requests of one invocation — image, upload and download, all rounding
/// to `rsize` — given its pool and its remaining budget: with `h` pooled
/// blocks large enough for `rsize`, the other `3 - h` must be carved
/// fresh from the budget.
pub open spec fn can_allocate_three(a: MemoryAllocator, rsize: int) -> bool {
    let hits = count_fitting(a.pool@, rsize);
    ||| hits >= 3
    ||| (hits == 2 && a.device_allocated + rsize <= a.capacity)
    ||| (hits == 1 && a.device_allocated + 2 * rsize <= a.capacity)
    ||| (hits <= 0 && a.device_allocated + 3 * rsize <= a.capacity)
}

/// Runs an ordered list of kernel passes over one host grid, each pass
/// reading the previous pass's output on the device.
///
/// The shared allocator leaves with its books unchanged: the three
/// per-invocation resources are created from it and every block is
/// released back to its pool, on failure too. Success comes exactly when
/// pooled blocks and remaining budget together cover the three resource
/// requests; the only failure is the allocator running out.
pub fn run_passes(
    alloc: &mut MemoryAllocator,
    input: &ImageBuffer,
    kernels: &Vec<KernelKind>,
    tile_size: u32,
) -> (r: Result<ImageBuffer, PipelineError>)
    requires
        old(alloc).wf(),
        input.wf(),
        kernels@.len() >= 1,
        tile_size >= 1,
    ensures
        final(alloc).wf(),
        final(alloc).capacity == old(alloc).capacity,
        final(alloc).in_use == old(alloc).in_use,
        r matches Ok(out) ==> out.wf() && out.width == input.width && out.height == input.height
            && out@ == passes_output(
            kernels@,
            input@,
            input.width as int,
            input.height as int,
        ),
        r is Err ==> r == Err::<ImageBuffer, PipelineError>(PipelineError::AllocationFailure),
        r is Ok <==> can_allocate_three(
            *old(alloc),
            round_up_spec(byte_len(input.width as int, input.height as int)),
        ),
{
    let width = input.width;
    let height = input.height;
    let n: usize = input.as_bytes().len();
    let n64: u64 = n as u64;
    let ghost bl = byte_len(input.width as int, input.height as int);
    let ghost rsize = round_up_spec(bl);
    proof {
        lemma_round_up_bounds(bl);
        lemma_pool_fits_count(alloc.pool@, rsize);
        lemma_count_fitting_nonneg(alloc.pool@, rsize);
    }

    let image = match create_image(alloc, width, height) {
        Ok(image) => image,
        Err(e) => {
            proof {
                assert(!can_allocate_three(*old(alloc), rsize));
            }
            return Err(e);
        },
    };
    proof {
        lemma_pool_fits_count(alloc.pool@, rsize);
        lemma_count_fitting_nonneg(alloc.pool@, rsize);
    }
    let mut upload = match create_transfer_buffer(alloc, n64, TransferDirection::Upload) {
        Ok(upload) => upload,
        Err(e) => {
            proof {
                assert(!can_allocate_three(*old(alloc), rsize));
            }
            alloc.release(image.block);
            return Err(e);
        },
    };
    proof {
        lemma_pool_fits_count(alloc.pool@, rsize);
        lemma_count_fitting_nonneg(alloc.pool@, rsize);
    }
    let download = match create_transfer_buffer(alloc, n64, TransferDirection::Download) {
        Ok(download) => download,
        Err(e) => {
            proof {
                assert(!can_allocate_three(*old(alloc), rsize));
            }
            alloc.release(image.block);
            alloc.release(upload.block);
            return Err(e);
        },
    };
    proof {
        assert(can_allocate_three(*old(alloc), rsize));
    }

    match upload.load_pixels(input.as_bytes()) {
        Ok(()) => {},
        Err(_) => {
            proof {
                assert(false);
            }
            alloc.release(image.block);
            alloc.release(upload.block);
            alloc.release(download.block);
            return Err(PipelineError::AllocationFailure);
        },
    }

    let kn = kernels.len();
    let mut dispatches: Vec<DispatchBinding> = Vec::new();
    let mut k: usize = 0;
    while k < kn
        invariant
            image.wf(),
            kn == kernels@.len(),
            k <= kn,
            dispatches@.len() == k,
            forall|i: int|
                0 <= i < k ==> (#[trigger] dispatches@[i]).wf() && dispatches@[i].program.kind
                    == kernels@[i],
        decreases kn - k,
    {
        let program = match compile(kernels[k]) {
            Ok(program) => program,
            Err(_) => {
                proof {
                    assert(false);
                }
                return Err(PipelineError::AllocationFailure);
            },
        };
        let binding = bind(program, &image);
        dispatches.push(binding);
        k = k + 1;
    }

    let ghost image_block = image.block;
    let ghost upload_block = upload.block;
    let ghost download_block = download.block;
    let sequence = match CommandSequence::build(upload, image, dispatches, download, tile_size) {
        Ok(sequence) => sequence,
        Err(_) => {
            proof {
                assert(false);
            }
            return Err(PipelineError::AllocationFailure);
        },
    };
    proof {
        assert(sequence.pass_kinds() =~= kernels@);
    }

    let batch = submit(&sequence);
    let out = match batch.wait_and_take(WaitOutcome::Signaled) {
        Ok(out) => out,
        Err(_) => {
            proof {
                assert(false);
            }
            return Err(PipelineError::AllocationFailure);
        },
    };

    alloc.release(sequence.image.block);
    alloc.release(sequence.upload.block);
    alloc.release(sequence.download.block);
    Ok(out)
}

/// Runs one kernel over one host grid: the base invocation, one dispatch.
pub fn run_filter(
    alloc: &mut MemoryAllocator,
    input: &ImageBuffer,
    kernel: KernelKind,
    tile_size: u32,
) -> (r: Result<ImageBuffer, PipelineError>)
    requires
        old(alloc).wf(),
        input.wf(),
        tile_size >= 1,
    ensures
        final(alloc).wf(),
        final(alloc).capacity == old(alloc).capacity,
        final(alloc).in_use == old(alloc).in_use,
        r matches Ok(out) ==> out.wf() && out.width == input.width && out.height == input.height
            && out@ == apply_spec(kernel, input@, input.width as int, input.height as int),
        r is Err ==> r == Err::<ImageBuffer, PipelineError>(PipelineError::AllocationFailure),
        r is Ok <==> can_allocate_three(
            *old(alloc),
            round_up_spec(byte_len(input.width as int, input.height as int)),
        ),
{
    let mut kernels: Vec<KernelKind> = Vec::new();
    kernels.push(kernel);
    let r = run_passes(alloc, input, &kernels, tile_size);
    proof {
        let wi = input.width as int;
        let hi = input.height as int;
        assert(kernels@.drop_last() =~= Seq::<KernelKind>::empty());
        assert(passes_output(Seq::<KernelKind>::empty(), input@, wi, hi) == input@);
        assert(kernels@.last() == kernel);
        assert(passes_output(kernels@, input@, wi, hi) == apply_spec(
            kernels@.last(),
            passes_output(kernels@.drop_last(), input@, wi, hi),
            wi,
            hi,
        ));
    }
    r
}

/// The boundary entry of the library: validates a raw pixel buffer
/// against its claimed dimensions, then runs one kernel over it.
///
/// A buffer whose byte length is not `width * height * 4` — or an empty
/// dimension — is rejected as `InvalidResourceDimensions` with the
/// allocator untouched: nothing is created, bound or submitted for it.
pub fn filter_image(
    alloc: &mut MemoryAllocator,
    width: u32,
    height: u32,
    pixels: Vec<u8>,
    kernel: KernelKind,
    tile_size: u32,
) -> (r: Result<ImageBuffer, PipelineError>)
    requires
        old(alloc).wf(),
        tile_size >= 1,
    ensures
        final(alloc).wf(),
        final(alloc).capacity == old(alloc).capacity,
        final(alloc).in_use == old(alloc).in_use,
        !(width >= 1 && height >= 1 && pixels@.len() == byte_len(width as int, height as int))
            ==> r == Err::<ImageBuffer, PipelineError>(PipelineError::InvalidResourceDimensions)
            && *final(alloc) == *old(alloc),
        r matches Ok(out) ==> out.wf() && out.width == width && out.height == height && out@
            == apply_spec(kernel, pixels@, width as int, height as int),
        width >= 1 && height >= 1 && pixels@.len() == byte_len(width as int, height as int) ==> (
        r is Err ==> r == Err::<ImageBuffer, PipelineError>(PipelineError::AllocationFailure)),
        width >= 1 && height >= 1 && pixels@.len() == byte_len(width as int, height as int) ==> (
        r is Ok <==> can_allocate_three(
            *old(alloc),
            round_up_spec(byte_len(width as int, height as int)),
        )),
{
    let input = match ImageBuffer::new(width, height, pixels) {
        Ok(input) => input,
        Err(e) => {
            return Err(e);
        },
    };
    run_filter(alloc, &input, kernel, tile_size)
}

} // verus!
