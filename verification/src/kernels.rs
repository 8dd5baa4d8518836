//! The closed set of per-pixel compute kernels and their exact semantics.
//!
//! Each kernel writes every output pixel exactly once from the input grid:
//! grayscale replicates the channel average, invert flips each color
//! channel, and box blur averages the clamped `(2r+1) x (2r+1)`
//! neighborhood. All three fix alpha at opaque. The semantics are given as
//! spec functions over byte sequences; [`KernelProgram::apply`] is the
//! executable reference evaluation, proved to produce exactly that
//! sequence.

use vstd::arithmetic::div_mod::{
    lemma_div_denominator,
    lemma_div_multiples_vanish,
    lemma_div_pos_is_pos,
    lemma_fundamental_div_mod,
    lemma_fundamental_div_mod_converse,
    lemma_mod_division_less_than_divisor,
    lemma_multiply_divide_lt,
};
use vstd::prelude::*;

use crate::errors::PipelineError;
use crate::image::{byte_len, chan, chan_index, lemma_chan_index_in_range, ImageBuffer};

verus! {

/// Identifier of a compiled kernel variant; `Blur` carries its radius in
/// pixels.
#[derive(Clone, Copy, Debug, PartialEq, Eq, Structural)]
pub enum KernelKind {
    /// Replace each color channel by the average of the three.
    Grayscale,
    /// Replace each color channel `v` by `255 - v`.
    Invert,
    /// Clamped box average over the square neighborhood of the radius.
    Blur(u8),
}

/// An immutable compiled dispatch-once kernel, selected by identifier.
#[derive(Clone, Copy, Debug, PartialEq, Eq, Structural)]
pub struct KernelProgram {
    /// Which variant this program computes.
    pub kind: KernelKind,
}

/// Selects the compiled kernel for an identifier.
///
/// The set of variants is closed and every member has a compiled artifact,
/// so selection succeeds for each of them; `KernelCompileFailure` is left
/// to a driver that fails to load the artifact for a real device.
pub fn compile(kind: KernelKind) -> (r: Result<KernelProgram, PipelineError>)
    ensures
        r matches Ok(p) && p.kind == kind,
{
    Ok(KernelProgram { kind })
}

/// Clamp-to-edge addressing: the nearest coordinate in `[0, hi]`.
pub open spec fn clamp_coord(v: int, hi: int) -> int {
    if v < 0 {
        0
    } else if v > hi {
        hi
    } else {
        v
    }
}

/// Grayscale: each color channel becomes the average of R, G and B,
/// rounded to the nearest 8-bit value as the device's normalized store
/// rounds; alpha becomes opaque. (The divisor 3 is odd, so no tie ever
/// arises.)
pub open spec fn gray_chan(s: Seq<u8>, w: int, x: int, y: int, c: int) -> u8 {
    if c == 3 {
        255
    } else {
        (((2 * (chan(s, w, x, y, 0) + chan(s, w, x, y, 1) + chan(s, w, x, y, 2)) + 3) / 6) as u8)
    }
}

/// Invert: each color channel `v` becomes `255 - v`; alpha becomes opaque.
pub open spec fn invert_chan(s: Seq<u8>, w: int, x: int, y: int, c: int) -> u8 {
    if c == 3 {
        255
    } else {
        ((255 - chan(s, w, x, y, c)) as u8)
    }
}

/// Sample `i` (row-major over the `(2r+1) x (2r+1)` window) of the blur
/// neighborhood of `(x, y)`, with out-of-range coordinates clamped to the
/// nearest valid pixel.
pub open spec fn blur_sample(
    s: Seq<u8>,
    w: int,
    h: int,
    x: int,
    y: int,
    c: int,
    r: int,
    i: int,
) -> int {
    let n = 2 * r + 1;
    chan(
        s,
        w,
        clamp_coord(x + (i % n) - r, w - 1),
        clamp_coord(y + (i / n) - r, h - 1),
        c,
    )
}

/// Sum of the first `k` samples of the blur window.
pub open spec fn blur_sum(
    s: Seq<u8>,
    w: int,
    h: int,
    x: int,
    y: int,
    c: int,
    r: int,
    k: nat,
) -> int
    decreases k,
{
    if k == 0 {
        0
    } else {
        blur_sum(s, w, h, x, y, c, r, (k - 1) as nat) + blur_sample(
            s,
            w,
            h,
            x,
            y,
            c,
            r,
            k - 1,
        )
    }
}

/// Box blur: the window mean — the sum over the full sample count —
/// rounded to the nearest 8-bit value as the device's normalized store
/// rounds; alpha becomes opaque. (The sample count is a square of an odd
/// number, so no tie ever arises.)
pub open spec fn blur_chan(s: Seq<u8>, w: int, h: int, x: int, y: int, c: int, r: int) -> u8 {
    if c == 3 {
        255
    } else {
        let n2 = (2 * r + 1) * (2 * r + 1);
        (((2 * blur_sum(s, w, h, x, y, c, r, n2 as nat) + n2) / (2 * n2)) as u8)
    }
}

/// Channel `c` of the output pixel at `(x, y)` for one kernel variant.
pub open spec fn kernel_chan(
    kind: KernelKind,
    s: Seq<u8>,
    w: int,
    h: int,
    x: int,
    y: int,
    c: int,
) -> u8 {
    match kind {
        KernelKind::Grayscale => gray_chan(s, w, x, y, c),
        KernelKind::Invert => invert_chan(s, w, x, y, c),
        KernelKind::Blur(r) => blur_chan(s, w, h, x, y, c, r as int),
    }
}

/// Flat byte `j` of the output grid, by decomposing `j` into pixel and
/// channel coordinates.
pub open spec fn kernel_byte(kind: KernelKind, s: Seq<u8>, w: int, h: int, j: int) -> u8 {
    kernel_chan(kind, s, w, h, (j / 4) % w, (j / 4) / w, j % 4)
}

/// The full output grid of one kernel pass over an input grid.
pub open spec fn apply_spec(kind: KernelKind, s: Seq<u8>, w: int, h: int) -> Seq<u8> {
    Seq::new(byte_len(w, h) as nat, |j: int| kernel_byte(kind, s, w, h, j))
}

/// A valid channel coordinate round-trips through the flat index: byte
/// `chan_index(w, x, y, c)` of a kernel output is channel `c` of its pixel
/// `(x, y)`.
pub proof fn lemma_flat_index(w: int, h: int, x: int, y: int, c: int)
    requires
        w >= 1,
        h >= 1,
        0 <= x < w,
        0 <= y < h,
        0 <= c < 4,
    ensures
        (chan_index(w, x, y, c) / 4) % w == x,
        (chan_index(w, x, y, c) / 4) / w == y,
        chan_index(w, x, y, c) % 4 == c,
        0 <= chan_index(w, x, y, c) < byte_len(w, h),
{
    let j = chan_index(w, x, y, c);
    lemma_chan_index_in_range(w, h, x, y, c);
    lemma_fundamental_div_mod_converse(j, 4, y * w + x, c);
    lemma_fundamental_div_mod_converse(y * w + x, w, y, x);
}

/// Any flat index of the grid decomposes into a valid channel coordinate.
pub proof fn lemma_index_decompose(w: int, h: int, j: int)
    requires
        w >= 1,
        h >= 1,
        0 <= j < byte_len(w, h),
    ensures
        0 <= (j / 4) % w < w,
        0 <= (j / 4) / w < h,
        0 <= j % 4 < 4,
        j == chan_index(w, (j / 4) % w, (j / 4) / w, j % 4),
{
    lemma_fundamental_div_mod(j, 4);
    lemma_mod_division_less_than_divisor(j, 4);
    assert(4 * (w * h) == 4 * w * h) by (nonlinear_arith);
    lemma_multiply_divide_lt(j, 4, w * h);
    let p = j / 4;
    lemma_fundamental_div_mod(p, w);
    lemma_mod_division_less_than_divisor(p, w);
    lemma_multiply_divide_lt(p, w, h);
    assert(j == 4 * (((j / 4) / w) * w + (j / 4) % w) + j % 4);
}

/// Grayscale output is balanced: at every pixel the three color channels
/// of the output are equal, and alpha is opaque.
pub proof fn lemma_grayscale_balanced(s: Seq<u8>, w: int, h: int, x: int, y: int)
    requires
        w >= 1,
        h >= 1,
        0 <= x < w,
        0 <= y < h,
    ensures
        apply_spec(KernelKind::Grayscale, s, w, h)[chan_index(w, x, y, 0)] == apply_spec(
            KernelKind::Grayscale,
            s,
            w,
            h,
        )[chan_index(w, x, y, 1)],
        apply_spec(KernelKind::Grayscale, s, w, h)[chan_index(w, x, y, 1)] == apply_spec(
            KernelKind::Grayscale,
            s,
            w,
            h,
        )[chan_index(w, x, y, 2)],
        apply_spec(KernelKind::Grayscale, s, w, h)[chan_index(w, x, y, 3)] == 255,
{
    lemma_flat_index(w, h, x, y, 0);
    lemma_flat_index(w, h, x, y, 1);
    lemma_flat_index(w, h, x, y, 2);
    lemma_flat_index(w, h, x, y, 3);
}

/// Invert is involutive: applying it twice gives back the original grid,
/// exactly, on any grid whose alpha channel is already opaque.
///
/// (A transparent pixel is the one exception: a single pass forces its
/// alpha to opaque, so no second pass can restore it.)
pub proof fn lemma_invert_involutive(s: Seq<u8>, w: int, h: int)
    requires
        w >= 1,
        h >= 1,
        s.len() == byte_len(w, h),
        forall|x: int, y: int| 0 <= x < w && 0 <= y < h ==> chan(s, w, x, y, 3) == 255,
    ensures
        apply_spec(KernelKind::Invert, apply_spec(KernelKind::Invert, s, w, h), w, h) == s,
{
    let t = apply_spec(KernelKind::Invert, s, w, h);
    let u = apply_spec(KernelKind::Invert, t, w, h);
    assert forall|j: int| 0 <= j < byte_len(w, h) implies u[j] == s[j] by {
        lemma_index_decompose(w, h, j);
        let x = (j / 4) % w;
        let y = (j / 4) / w;
        let c = j % 4;
        if c == 3 {
            assert(chan(s, w, x, y, 3) == 255);
        } else {
            assert(chan(t, w, x, y, c) == 255 - chan(s, w, x, y, c));
        }
    }
    assert(u =~= s);
}

/// On a uniform-color input with opaque alpha, blur is the identity: every
/// clamped sample sees the same pixel, so the average is that pixel.
pub proof fn lemma_blur_uniform(s: Seq<u8>, w: int, h: int, radius: u8)
    requires
        w >= 1,
        h >= 1,
        s.len() == byte_len(w, h),
        forall|x: int, y: int, c: int|
            0 <= x < w && 0 <= y < h && 0 <= c < 4 ==> #[trigger] chan(s, w, x, y, c) == chan(
                s,
                w,
                0,
                0,
                c,
            ),
        chan(s, w, 0, 0, 3) == 255,
    ensures
        apply_spec(KernelKind::Blur(radius), s, w, h) == s,
{
    let out = apply_spec(KernelKind::Blur(radius), s, w, h);
    let r = radius as int;
    let n2 = (2 * r + 1) * (2 * r + 1);
    assert((2 * r + 1) * (2 * r + 1) >= 1) by (nonlinear_arith)
        requires
            r >= 0,
    ;
    assert forall|j: int| 0 <= j < byte_len(w, h) implies out[j] == s[j] by {
        lemma_index_decompose(w, h, j);
        let x = (j / 4) % w;
        let y = (j / 4) / w;
        let c = j % 4;
        if c == 3 {
            assert(chan(s, w, x, y, 3) == chan(s, w, 0, 0, 3));
        } else {
            let v = chan(s, w, 0, 0, c);
            lemma_blur_sum_uniform(s, w, h, x, y, c, r, n2 as nat, v);
            assert(n2 * v == n2 as nat * v);
            // the rounded mean of a constant window is that constant:
            // (2 * n2 * v + n2) / (2 * n2) == (2v + 1) / 2 == v
            assert(2 * (n2 * v) + n2 == n2 * (2 * v + 1)) by (nonlinear_arith);
            lemma_div_denominator(n2 * (2 * v + 1), n2, 2);
            lemma_div_multiples_vanish(2 * v + 1, n2);
            assert(n2 * 2 == 2 * n2);
            lemma_fundamental_div_mod_converse(2 * v + 1, 2, v, 1);
            assert(chan(s, w, x, y, c) == v);
        }
    }
    assert(out =~= s);
}

/// On a grid where channel `c` has the same value `v` at every pixel, the
/// blur window sum over `k` samples is `k * v`.
pub proof fn lemma_blur_sum_uniform(
    s: Seq<u8>,
    w: int,
    h: int,
    x: int,
    y: int,
    c: int,
    r: int,
    k: nat,
    v: int,
)
    requires
        w >= 1,
        h >= 1,
        0 <= x < w,
        0 <= y < h,
        0 <= c < 4,
        r >= 0,
        forall|px: int, py: int|
            0 <= px < w && 0 <= py < h ==> chan(s, w, px, py, c) == v,
    ensures
        blur_sum(s, w, h, x, y, c, r, k) == k * v,
    decreases k,
{
    if k == 0 {
        assert(0 * v == 0) by (nonlinear_arith);
    } else {
        lemma_blur_sum_uniform(s, w, h, x, y, c, r, (k - 1) as nat, v);
        let n = 2 * r + 1;
        let i = k - 1;
        lemma_mod_division_less_than_divisor(i, n);
        lemma_div_pos_is_pos(i, n);
        let sx = clamp_coord(x + (i % n) - r, w - 1);
        let sy = clamp_coord(y + (i / n) - r, h - 1);
        assert(0 <= sx < w && 0 <= sy < h);
        assert(chan(s, w, sx, sy, c) == v);
        assert((k - 1) * v + v == k * v) by (nonlinear_arith);
    }
}

impl KernelProgram {
    /// Every kernel of the closed set binds exactly one resource slot, the
    /// storage image it reads and writes.
    pub open spec fn declared_slots(self) -> int {
        1
    }

    /// The declared slot count of the compiled program.
    pub fn slot_count(&self) -> (n: usize)
        ensures
            n == self.declared_slots(),
    {
        1
    }

    /// Reference evaluation of the kernel over a pixel grid: one output
    /// write per pixel, dimensions preserved, every byte pinned to the
    /// kernel's spec semantics.
    pub fn apply(&self, img: &ImageBuffer) -> (out: ImageBuffer)
        requires
            img.wf(),
        ensures
            out.wf(),
            out.width == img.width,
            out.height == img.height,
            out@ == apply_spec(self.kind, img@, img.width as int, img.height as int),
    {
        let w = img.width;
        let h = img.height;
        let ghost wi = w as int;
        let ghost hi = h as int;
        let total: usize = img.as_bytes().len();
        let mut bytes: Vec<u8> = Vec::new();
        let mut j: usize = 0;
        while j < total
            invariant
                img.wf(),
                w == img.width,
                h == img.height,
                wi == w as int,
                hi == h as int,
                total == byte_len(wi, hi),
                j <= total,
                bytes@.len() == j,
                forall|t: int| 0 <= t < j ==> bytes@[t] == kernel_byte(self.kind, img@, wi, hi, t),
            decreases total - j,
        {
            proof {
                lemma_index_decompose(wi, hi, j as int);
            }
            let c: usize = j % 4;
            let pix: usize = j / 4;
            let x: u32 = (pix % (w as usize)) as u32;
            let y: u32 = (pix / (w as usize)) as u32;
            let v: u8 = kernel_chan_eval(self.kind, img, x, y, c as u32);
            bytes.push(v);
            j = j + 1;
        }
        assert(bytes@ =~= apply_spec(self.kind, img@, wi, hi));
        ImageBuffer { width: w, height: h, bytes }
    }
}

/// Clamp-to-edge addressing of one axis.
fn clamp_to_edge(v: i64, hi: u32) -> (r: u32)
    ensures
        r as int == clamp_coord(v as int, hi as int),
{
    if v < 0 {
        0
    } else if v > hi as i64 {
        hi
    } else {
        v as u32
    }
}

/// Evaluates one output channel of one pixel for a kernel variant.
fn kernel_chan_eval(kind: KernelKind, img: &ImageBuffer, x: u32, y: u32, c: u32) -> (v: u8)
    requires
        img.wf(),
        x < img.width,
        y < img.height,
        c < 4,
    ensures
        v == kernel_chan(kind, img@, img.width as int, img.height as int, x as int, y as int,
        c as int),
{
    match kind {
        KernelKind::Grayscale => {
            if c == 3 {
                255
            } else {
                let red = img.channel_at(x, y, 0);
                let green = img.channel_at(x, y, 1);
                let blue = img.channel_at(x, y, 2);
                ((2 * ((red as u32) + (green as u32) + (blue as u32)) + 3) / 6) as u8
            }
        },
        KernelKind::Invert => {
            if c == 3 {
                255
            } else {
                255 - img.channel_at(x, y, c)
            }
        },
        KernelKind::Blur(radius) => blur_chan_eval(img, x, y, c, radius),
    }
}

/// Evaluates one output channel of one pixel of the box blur.
fn blur_chan_eval(img: &ImageBuffer, x: u32, y: u32, c: u32, radius: u8) -> (v: u8)
    requires
        img.wf(),
        x < img.width,
        y < img.height,
        c < 4,
    ensures
        v == blur_chan(
            img@,
            img.width as int,
            img.height as int,
            x as int,
            y as int,
            c as int,
            radius as int,
        ),
{
    if c == 3 {
        return 255;
    }
    let n: u32 = 2 * (radius as u32) + 1;
    proof {
        assert(1 <= n * n <= 511 * 511) by (nonlinear_arith)
            requires
                1 <= n <= 511,
        ;
    }
    let n2: u32 = n * n;
    let ghost wi = img.width as int;
    let ghost hi = img.height as int;
    let ghost ri = radius as int;
    let mut acc: u32 = 0;
    let mut i: u32 = 0;
    while i < n2
        invariant
            img.wf(),
            x < img.width,
            y < img.height,
            c < 3,
            wi == img.width as int,
            hi == img.height as int,
            ri == radius as int,
            n == 2 * ri + 1,
            n2 == n * n,
            n2 <= 511 * 511,
            i <= n2,
            acc <= 255 * i,
            acc == blur_sum(img@, wi, hi, x as int, y as int, c as int, ri, i as nat),
        decreases n2 - i,
    {
        let dx: i64 = ((i % n) as i64) - (radius as i64);
        let dy: i64 = ((i / n) as i64) - (radius as i64);
        let sx: u32 = clamp_to_edge((x as i64) + dx, img.width - 1);
        let sy: u32 = clamp_to_edge((y as i64) + dy, img.height - 1);
        proof {
            assert(sx < img.width && sy < img.height);
        }
        let sample: u8 = img.channel_at(sx, sy, c);
        assert(sample as int == blur_sample(
            img@,
            wi,
            hi,
            x as int,
            y as int,
            c as int,
            ri,
            i as int,
        ));
        acc = acc + (sample as u32);
        i = i + 1;
    }
    proof {
        assert((2 * acc + n2) / (2 * n2) <= 255) by (nonlinear_arith)
            requires
                n2 >= 1,
                acc <= 255 * n2,
        ;
    }
    ((2 * acc + n2) / (2 * n2)) as u8
}

} // verus!
