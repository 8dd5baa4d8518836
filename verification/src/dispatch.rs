//! Dispatch extents: how many worker groups cover a pixel dimension.
//!
//! A kernel runs one worker per pixel, launched in square tiles of
//! `tile_size` workers per axis. The group count per axis must round up,
//! never down: truncating division drops the final partial row or column of
//! pixels whenever a dimension is not an exact multiple of the tile size.

use vstd::prelude::*;

verus! {

/// The least number of groups of `d` workers that covers `n` items.
pub open spec fn ceil_div_spec(n: int, d: int) -> int
    recommends
        d >= 1,
{
    (n + d - 1) / d
}

/// Rounding-up division: the least `r` with `r * d >= n`.
pub fn ceil_div(n: u32, d: u32) -> (r: u32)
    requires
        d >= 1,
    ensures
        r == ceil_div_spec(n as int, d as int),
        // every item is covered by some group
        r * d >= n,
        // and no group is superfluous: r is the least such count
        (r as int - 1) * (d as int) < n as int,
{
    let wide: u64 = (n as u64 + d as u64 - 1) / (d as u64);
    proof {
        assert(wide == ceil_div_spec(n as int, d as int));
        assert(ceil_div_spec(n as int, d as int) * d >= n) by (nonlinear_arith)
            requires
                d >= 1,
                n >= 0,
        ;
        assert((ceil_div_spec(n as int, d as int) - 1) * d < n) by (nonlinear_arith)
            requires
                d >= 1,
                n >= 0,
        ;
        assert(wide <= n) by (nonlinear_arith)
            requires
                d >= 1,
                n >= 0,
                wide == (n as int + d as int - 1) / (d as int),
        ;
    }
    wide as u32
}

/// Worker-group counts for a 2-D dispatch over a `width` x `height` grid,
/// one worker per pixel, `tile_size` workers per group per axis.
///
/// Both axes round up, so the final partial tile of a dimension that is not
/// a multiple of `tile_size` still gets a group; the depth extent is fixed
/// at one layer.
pub fn dispatch_extent(width: u32, height: u32, tile_size: u32) -> (groups: (u32, u32, u32))
    requires
        tile_size >= 1,
    ensures
        groups.0 == ceil_div_spec(width as int, tile_size as int),
        groups.1 == ceil_div_spec(height as int, tile_size as int),
        groups.2 == 1,
        // coverage: the launched workers span every pixel of the grid
        groups.0 * tile_size >= width,
        groups.1 * tile_size >= height,
        // minimality: one group fewer would leave a strip uncovered
        (groups.0 as int - 1) * (tile_size as int) < width as int,
        (groups.1 as int - 1) * (tile_size as int) < height as int,
{
    let gx = ceil_div(width, tile_size);
    let gy = ceil_div(height, tile_size);
    (gx, gy, 1)
}

} // verus!
