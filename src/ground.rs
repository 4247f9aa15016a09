use vstd::prelude::*;

verus! {

/// Width of one ground tile, in pixels.
pub const TILE_WIDTH: u32 = 288;

/// Height of one ground tile, in pixels.
pub const TILE_HEIGHT: u32 = 24;

/// Number of tiles for a window `width` pixels wide: `ceil(width / 288)`.
pub open spec fn spec_num_tiles(width: nat) -> nat {
    (width + 287) / 288
}

/// Centre of tile `i` of `n`, in half pixels: `(i - n / 2) * 288` pixels.
pub open spec fn spec_tile_x(i: int, n: int) -> int {
    (2 * i - n) * 288
}

/// Centre of the ground row for a window `height` pixels high, in half
/// pixels: `-height / 2 + 12` pixels, so that the row rests on the bottom edge.
pub open spec fn spec_ground_y(height: int) -> int {
    24 - height
}

/// Where one ground tile stands, in half pixels.
#[derive(Clone, Copy, Debug, PartialEq, Eq, Structural)]
pub struct TilePlacement {
    pub x: i64,
    pub y: i64,
}

/// The number of tiles that a row needs to span a window `width` pixels wide.
pub fn num_tiles(width: u32) -> (r: u32)
    ensures
        r == spec_num_tiles(width as nat),
        r * 288 >= width,
        r > 0 ==> (r - 1) * 288 < width,
{
    let r = (width as u64 + 287) / 288;
    proof {
        let w = width as int;
        vstd::arithmetic::div_mod::lemma_fundamental_div_mod(w + 287, 288);
        assert(r * 288 >= w);
        assert(r > 0 ==> (r - 1) * 288 < w);
    }
    r as u32
}

/// Horizontal centre of tile `i` in a row of `n`, in half pixels.
pub fn tile_x(i: u32, n: u32) -> (r: i64)
    requires
        i < n,
    ensures
        r == spec_tile_x(i as int, n as int),
{
    (2 * (i as i64) - n as i64) * 288
}

/// Vertical centre of the ground row for a window `height` pixels high, in half
/// pixels.
pub fn ground_y(height: u32) -> (r: i64)
    ensures
        r == spec_ground_y(height as int),
{
    24 - height as i64
}

/// The placements of the row of tiles for a window of the given size, left
/// to right.
pub fn ground_tiles(width: u32, height: u32) -> (r: Vec<TilePlacement>)
    ensures
        r@.len() == spec_num_tiles(width as nat),
        forall|i: int|
            0 <= i < r@.len() ==> r@[i].x == spec_tile_x(i, r@.len() as int) && r@[i].y
                == spec_ground_y(height as int),
{
    let n = num_tiles(width);
    let y = ground_y(height);
    let mut tiles: Vec<TilePlacement> = Vec::new();
    let mut i: u32 = 0;
    while i < n
        invariant
            n == spec_num_tiles(width as nat),
            y == spec_ground_y(height as int),
            i <= n,
            tiles@.len() == i,
            forall|k: int|
                0 <= k < i ==> tiles@[k].x == spec_tile_x(k, n as int) && tiles@[k].y == y,
        decreases n - i,
    {
        tiles.push(TilePlacement { x: tile_x(i, n), y });
        i = i + 1;
    }
    tiles
}

/// The tiles of a row sit side by side at the tile width's pitch, and their
/// widths together reach at least the window's width, with the fewest tiles
/// that do.
pub proof fn lemma_tiles_cover(width: nat)
    ensures
        spec_num_tiles(width) * 288 >= width,
        spec_num_tiles(width) > 0 ==> (spec_num_tiles(width) - 1) * 288 < width,
        forall|i: int|
            0 <= i && i + 1 < spec_num_tiles(width) ==> #[trigger] spec_tile_x(i + 1, spec_num_tiles(width) as int)
                - spec_tile_x(i, spec_num_tiles(width) as int) == 2 * 288,
{
    vstd::arithmetic::div_mod::lemma_fundamental_div_mod(width + 287int, 288);
}

} // verus!
