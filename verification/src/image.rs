//! Host-side pixel grids and the boundary validation of raw pixel buffers.
//!
//! A pixel grid is `width * height` RGBA pixels, 8 bits per channel, stored
//! row-major as `4 * width * height` bytes. The sole boundary format of the
//! library is such a raw buffer; its length invariant is validated here and
//! violations are rejected with [`PipelineError::InvalidResourceDimensions`]
//! before any further stage runs.

use vstd::prelude::*;

use crate::errors::PipelineError;

verus! {

/// The required byte length of a `width` x `height` RGBA grid.
pub open spec fn byte_len(width: int, height: int) -> int {
    4 * width * height
}

/// Flat index of channel `c` of the pixel at `(x, y)` in a grid of the
/// given width.
pub open spec fn chan_index(width: int, x: int, y: int, c: int) -> int {
    4 * (y * width + x) + c
}

/// Value of channel `c` of the pixel at `(x, y)`.
pub open spec fn chan(s: Seq<u8>, width: int, x: int, y: int, c: int) -> int {
    s[chan_index(width, x, y, c)] as int
}

/// A host-resident pixel grid.
///
/// Every function of this library that consumes one requires [`Self::wf`],
/// and [`ImageBuffer::new`] is the validating constructor that establishes
/// it from a raw buffer.
#[derive(Debug)]
pub struct ImageBuffer {
    /// Pixels per row.
    pub width: u32,
    /// Number of rows.
    pub height: u32,
    /// Row-major RGBA bytes, `4 * width * height` of them when well-formed.
    pub bytes: Vec<u8>,
}

impl View for ImageBuffer {
    type V = Seq<u8>;

    open spec fn view(&self) -> Seq<u8> {
        self.bytes@
    }
}

impl ImageBuffer {
    /// Well-formedness: non-empty dimensions and the exact length invariant.
    pub open spec fn wf(self) -> bool {
        &&& self.width >= 1
        &&& self.height >= 1
        &&& self@.len() == byte_len(self.width as int, self.height as int)
    }

    /// Validates a raw pixel buffer against the claimed dimensions.
    ///
    /// Succeeds exactly when both dimensions are non-zero and the byte
    /// length is `width * height * 4`; every other input is rejected with
    /// `InvalidResourceDimensions` and no other stage ever sees it.
    pub fn new(width: u32, height: u32, bytes: Vec<u8>) -> (r: Result<ImageBuffer, PipelineError>)
        ensures
            r is Ok <==> (width >= 1 && height >= 1 && bytes@.len() == byte_len(
                width as int,
                height as int,
            )),
            r matches Ok(img) ==> img.wf() && img.width == width && img.height == height && img@
                == bytes@,
            r is Err ==> r == Err::<ImageBuffer, PipelineError>(
                PipelineError::InvalidResourceDimensions,
            ),
    {
        if width == 0 || height == 0 {
            return Err(PipelineError::InvalidResourceDimensions);
        }
        proof {
            assert((width as int) * (height as int) < 0x1_0000_0000_0000_0000) by (nonlinear_arith)
                requires
                    width <= 0xFFFF_FFFFu32,
                    height <= 0xFFFF_FFFFu32,
            ;
        }
        let pixels: u64 = (width as u64) * (height as u64);
        proof {
            assert(4 * ((width as int) * (height as int)) == byte_len(
                width as int,
                height as int,
            )) by (nonlinear_arith);
        }
        if (bytes.len() as u128) != 4u128 * (pixels as u128) {
            return Err(PipelineError::InvalidResourceDimensions);
        }
        Ok(ImageBuffer { width, height, bytes })
    }

    /// Read access to the raw bytes.
    pub fn as_bytes(&self) -> (r: &Vec<u8>)
        ensures
            r@ == self@,
    {
        &self.bytes
    }

    /// Surrenders the raw bytes, for the encoding collaborator outside.
    pub fn into_bytes(self) -> (r: Vec<u8>)
        ensures
            r@ == self@,
    {
        self.bytes
    }

    /// Reads one channel of one pixel.
    pub fn channel_at(&self, x: u32, y: u32, c: u32) -> (v: u8)
        requires
            self.wf(),
            x < self.width,
            y < self.height,
            c < 4,
        ensures
            v as int == chan(self@, self.width as int, x as int, y as int, c as int),
    {
        let n: usize = self.bytes.len();
        proof {
            lemma_chan_index_in_range(
                self.width as int,
                self.height as int,
                x as int,
                y as int,
                c as int,
            );
        }
        let idx_wide: u128 = 4u128 * ((y as u128) * (self.width as u128) + (x as u128)) + (
        c as u128);
        assert(idx_wide < n);
        let idx: usize = idx_wide as usize;
        self.bytes[idx]
    }
}

/// A valid channel coordinate maps to a flat index inside the buffer.
pub proof fn lemma_chan_index_in_range(width: int, height: int, x: int, y: int, c: int)
    requires
        width >= 1,
        height >= 1,
        0 <= x < width,
        0 <= y < height,
        0 <= c < 4,
    ensures
        0 <= chan_index(width, x, y, c) < byte_len(width, height),
{
    assert(0 <= 4 * (y * width + x) + c < 4 * width * height) by (nonlinear_arith)
        requires
            0 <= x < width,
            0 <= y < height,
            0 <= c < 4,
    ;
}

/// Byte `j` of the RGBA expansion of tightly packed RGB bytes: alpha
/// positions become opaque, the rest copy the corresponding RGB byte.
pub open spec fn expand_byte(rgb: Seq<u8>, j: int) -> u8 {
    if j % 4 == 3 {
        255
    } else {
        rgb[3 * (j / 4) + j % 4]
    }
}

/// Expands tightly packed 3-channel RGB bytes to RGBA with opaque alpha,
/// the form in which a decoded picture enters the pipeline.
///
/// Succeeds exactly when the input length is a multiple of three.
pub fn expand_rgb_to_rgba(rgb: &Vec<u8>) -> (r: Result<Vec<u8>, PipelineError>)
    ensures
        r is Ok <==> rgb@.len() % 3 == 0,
        r matches Ok(out) ==> {
            &&& out@.len() == rgb@.len() / 3 * 4
            &&& forall|j: int| 0 <= j < out@.len() ==> out@[j] == expand_byte(rgb@, j)
        },
        r is Err ==> r == Err::<Vec<u8>, PipelineError>(PipelineError::InvalidResourceDimensions),
{
    if rgb.len() % 3 != 0 {
        return Err(PipelineError::InvalidResourceDimensions);
    }
    let n: usize = rgb.len();
    let npix: usize = n / 3;
    let mut out: Vec<u8> = Vec::new();
    let mut p: usize = 0;
    while p < npix
        invariant
            rgb@.len() % 3 == 0,
            n == rgb@.len(),
            npix == rgb@.len() / 3,
            p <= npix,
            out@.len() == 4 * p,
            forall|j: int| 0 <= j < 4 * p ==> out@[j] == expand_byte(rgb@, j),
        decreases npix - p,
    {
        assert(3 * p + 2 < n) by {
            assert(3 * (rgb@.len() / 3) == rgb@.len());
        }
        let base: usize = 3 * p;
        out.push(rgb[base]);
        out.push(rgb[base + 1]);
        out.push(rgb[base + 2]);
        out.push(255);
        proof {
            assert forall|j: int| 4 * p <= j < 4 * p + 4 implies out@[j] == expand_byte(
                rgb@,
                j,
            ) by {
                assert((4 * p + 0) / 4 == p && (4 * p + 0) % 4 == 0);
                assert((4 * p + 1) / 4 == p && (4 * p + 1) % 4 == 1);
                assert((4 * p + 2) / 4 == p && (4 * p + 2) % 4 == 2);
                assert((4 * p + 3) / 4 == p && (4 * p + 3) % 4 == 3);
            }
        }
        p = p + 1;
    }
    Ok(out)
}

} // verus!
