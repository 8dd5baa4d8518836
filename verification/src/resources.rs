//! The per-invocation resource set: a device-resident image and the
//! host-visible staging buffers that move pixels across the host/device
//! boundary.
//!
//! Every resource obeys the same length invariant as the host grid —
//! backing bytes are `width * height * 4` — and is backed by a block from
//! the pooled allocator at least that large. Resources are created for one
//! filter invocation and their blocks are released to the pool afterwards.

use vstd::prelude::*;

use crate::errors::PipelineError;
use crate::image::byte_len;
use crate::memory::{
    count_fitting, pool_fits, round_up_spec, MemoryAllocator, MemoryBlock, BLOCK_GRANULARITY,
};

verus! {

/// Which way a staging buffer moves pixels.
#[derive(Clone, Copy, Debug, PartialEq, Eq, Structural)]
pub enum TransferDirection {
    /// Host to device, feeding the image before the dispatches.
    Upload,
    /// Device to host, receiving the image after the dispatches.
    Download,
}

/// The device-resident RGBA image a kernel reads and writes, modeled with
/// its contents.
#[derive(Debug)]
pub struct ImageResource {
    /// Pixels per row.
    pub width: u32,
    /// Number of rows.
    pub height: u32,
    /// Contents of the device image, row-major RGBA.
    pub data: Vec<u8>,
    /// The backing device-memory block.
    pub block: MemoryBlock,
}

impl ImageResource {
    /// Non-empty dimensions, the exact length invariant, and a backing
    /// block large enough for the contents.
    pub open spec fn wf(self) -> bool {
        &&& self.width >= 1
        &&& self.height >= 1
        &&& self.data@.len() == byte_len(self.width as int, self.height as int)
        &&& self.data@.len() <= self.block.size
    }
}

/// A host-visible staging buffer of fixed byte length.
#[derive(Debug)]
pub struct TransferBuffer {
    /// Which way this buffer moves pixels.
    pub direction: TransferDirection,
    /// The staged bytes; the length is fixed at creation.
    pub data: Vec<u8>,
    /// The backing device-memory block.
    pub block: MemoryBlock,
}

impl TransferBuffer {
    /// The backing block covers the staged bytes.
    pub open spec fn wf(self) -> bool {
        self.data@.len() <= self.block.size
    }

    /// Fills an upload buffer with host pixel bytes.
    ///
    /// Succeeds exactly when the pixel count matches the buffer's fixed
    /// length; a mismatched buffer is rejected unchanged.
    pub fn load_pixels(&mut self, pixels: &Vec<u8>) -> (r: Result<(), PipelineError>)
        requires
            old(self).wf(),
        ensures
            final(self).wf(),
            r is Ok <==> pixels@.len() == old(self).data@.len(),
            r is Ok ==> final(self).data@ == pixels@ && final(self).direction == old(self).direction && final(self).block == old(self).block,
            r is Err ==> r == Err::<(), PipelineError>(PipelineError::InvalidResourceDimensions)
                && *final(self) == *old(self),
    {
        if pixels.len() != self.data.len() {
            return Err(PipelineError::InvalidResourceDimensions);
        }
        let mut copied: Vec<u8> = Vec::new();
        let n = pixels.len();
        let mut k: usize = 0;
        while k < n
            invariant
                n == pixels@.len(),
                k <= n,
                copied@.len() == k,
                forall|j: int| 0 <= j < k ==> copied@[j] == pixels@[j],
            decreases n - k,
        {
            copied.push(pixels[k]);
            k = k + 1;
        }
        assert(copied@ =~= pixels@);
        self.data = copied;
        Ok(())
    }
}

/// A vector of `len` zero bytes, the state of freshly allocated storage.
fn zeroed_bytes(len: u64) -> (v: Vec<u8>)
    ensures
        v@.len() == len,
        forall|j: int| 0 <= j < len ==> v@[j] == 0,
{
    let mut v: Vec<u8> = Vec::new();
    let mut k: u64 = 0;
    while k < len
        invariant
            k <= len,
            v@.len() == k,
            forall|j: int| 0 <= j < k ==> v@[j] == 0,
        decreases len - k,
    {
        v.push(0);
        k = k + 1;
    }
    v
}

/// Creates the device-resident image for one invocation, zero-filled as
/// fresh device storage.
///
/// Zero dimensions are rejected as `InvalidResourceDimensions` before the
/// allocator is consulted; a byte length beyond the device's addressable
/// range, or one the allocator cannot serve, is `AllocationFailure`.
pub fn create_image(alloc: &mut MemoryAllocator, width: u32, height: u32) -> (r: Result<
    ImageResource,
    PipelineError,
>)
    requires
        old(alloc).wf(),
    ensures
        final(alloc).wf(),
        final(alloc).capacity == old(alloc).capacity,
        width == 0 || height == 0 ==> r == Err::<ImageResource, PipelineError>(
            PipelineError::InvalidResourceDimensions,
        ) && *final(alloc) == *old(alloc),
        width >= 1 && height >= 1 && byte_len(width as int, height as int) > u64::MAX ==> r
            == Err::<ImageResource, PipelineError>(PipelineError::AllocationFailure) && *final(alloc) == *old(alloc),
        width >= 1 && height >= 1 && byte_len(width as int, height as int) <= u64::MAX ==> (r is Ok
            <==> (pool_fits(
            old(alloc).pool@,
            round_up_spec(byte_len(width as int, height as int)),
        ) || old(alloc).device_allocated + round_up_spec(byte_len(width as int, height as int))
            <= old(alloc).capacity)),
        r matches Ok(img) ==> {
            &&& img.wf()
            &&& img.width == width
            &&& img.height == height
            &&& forall|j: int| 0 <= j < img.data@.len() ==> img.data@[j] == 0
            &&& img.block.size >= round_up_spec(byte_len(width as int, height as int))
            &&& img.block.size as int % (BLOCK_GRANULARITY as int) == 0
            &&& final(alloc).in_use == old(alloc).in_use + img.block.size
            &&& final(alloc).device_allocated <= old(alloc).device_allocated + round_up_spec(
                byte_len(width as int, height as int),
            )
            &&& if pool_fits(old(alloc).pool@, round_up_spec(byte_len(width as int, height as int))) {
                &&& final(alloc).device_allocated == old(alloc).device_allocated
                &&& count_fitting(
                    final(alloc).pool@,
                    round_up_spec(byte_len(width as int, height as int)),
                ) == count_fitting(
                    old(alloc).pool@,
                    round_up_spec(byte_len(width as int, height as int)),
                ) - 1
            } else {
                &&& final(alloc).device_allocated == old(alloc).device_allocated + round_up_spec(
                    byte_len(width as int, height as int),
                )
                &&& final(alloc).pool@ == old(alloc).pool@
            }
        },
        width >= 1 && height >= 1 ==> (r is Err ==> r == Err::<ImageResource, PipelineError>(
            PipelineError::AllocationFailure,
        )),
        r is Err ==> *final(alloc) == *old(alloc) && (r == Err::<ImageResource, PipelineError>(
            PipelineError::InvalidResourceDimensions,
        ) || r == Err::<ImageResource, PipelineError>(PipelineError::AllocationFailure)),
    {
    if width == 0 || height == 0 {
        return Err(PipelineError::InvalidResourceDimensions);
    }
    proof {
        assert(0 <= 4 * (width as int) * (height as int) <= 4 * 0xFFFF_FFFF * 0xFFFF_FFFF)
            by (nonlinear_arith)
            requires
                width <= 0xFFFF_FFFFu32,
                height <= 0xFFFF_FFFFu32,
        ;
        assert(4 * (width as int) * (height as int) == byte_len(width as int, height as int))
            by (nonlinear_arith);
    }
    let need_wide: u128 = 4u128 * (width as u128) * (height as u128);
    if need_wide > u64::MAX as u128 {
        return Err(PipelineError::AllocationFailure);
    }
    let need: u64 = need_wide as u64;
    let block = match alloc.allocate(need) {
        Ok(block) => block,
        Err(e) => {
            return Err(e);
        },
    };
    let data = zeroed_bytes(need);
    Ok(ImageResource { width, height, data, block })
}

/// Creates one zero-filled host-visible staging buffer of the given byte
/// length and direction.
///
/// Fails exactly when the allocator cannot serve the rounded size.
pub fn create_transfer_buffer(
    alloc: &mut MemoryAllocator,
    byte_length: u64,
    direction: TransferDirection,
) -> (r: Result<TransferBuffer, PipelineError>)
    requires
        old(alloc).wf(),
    ensures
        final(alloc).wf(),
        final(alloc).capacity == old(alloc).capacity,
        r is Ok <==> (pool_fits(old(alloc).pool@, round_up_spec(byte_length as int)) || old(alloc).device_allocated + round_up_spec(byte_length as int) <= old(alloc).capacity),
        r matches Ok(buf) ==> {
            &&& buf.wf()
            &&& buf.direction == direction
            &&& buf.data@.len() == byte_length
            &&& forall|j: int| 0 <= j < buf.data@.len() ==> buf.data@[j] == 0
            &&& buf.block.size >= round_up_spec(byte_length as int)
            &&& buf.block.size as int % (BLOCK_GRANULARITY as int) == 0
            &&& final(alloc).in_use == old(alloc).in_use + buf.block.size
            &&& final(alloc).device_allocated <= old(alloc).device_allocated + round_up_spec(
                byte_length as int,
            )
            &&& if pool_fits(old(alloc).pool@, round_up_spec(byte_length as int)) {
                &&& final(alloc).device_allocated == old(alloc).device_allocated
                &&& count_fitting(final(alloc).pool@, round_up_spec(byte_length as int))
                    == count_fitting(old(alloc).pool@, round_up_spec(byte_length as int)) - 1
            } else {
                &&& final(alloc).device_allocated == old(alloc).device_allocated + round_up_spec(
                    byte_length as int,
                )
                &&& final(alloc).pool@ == old(alloc).pool@
            }
        },
        r is Err ==> r == Err::<TransferBuffer, PipelineError>(PipelineError::AllocationFailure)
            && *final(alloc) == *old(alloc),
{
    let block = match alloc.allocate(byte_length) {
        Ok(block) => block,
        Err(e) => {
            return Err(e);
        },
    };
    let data = zeroed_bytes(byte_length);
    Ok(TransferBuffer { direction, data, block })
}

} // verus!
