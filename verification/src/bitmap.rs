//! Tile decoding and compositing.
//!
//! A tile is 16 bytes: two 8-byte bitplanes. Byte `r` of the first plane
//! holds the low bit and byte `r` of the second plane the high bit of the
//! two-bit color index of every pixel in row `r`, most significant bit
//! leftmost. Tiles are laid out left to right, top to bottom, in a grid of
//! fixed width, and painted through a fixed four-entry palette into an RGBA
//! bitmap.

use vstd::prelude::*;

verus! {

/// Number of tiles per row of the composite grid.
pub const GRID_COLUMNS: usize = 50;

/// Width and height of one tile, in pixels.
pub const TILE_DOT: usize = 8;

/// Number of bytes that encode one tile.
pub const TILE_BYTES: usize = 16;

/// Number of bytes of one RGBA pixel.
pub const PIXEL_BYTES: usize = 4;

/// A composite RGBA bitmap: `pixels` holds `width * height` pixels in
/// row-major order, four bytes (red, green, blue, alpha) per pixel.
pub struct Bitmap {
    pub width: usize,
    pub height: usize,
    pub pixels: Vec<u8>,
}

impl Bitmap {
    /// The pixel buffer has exactly four bytes for every pixel.
    pub open spec fn wf(&self) -> bool {
        self.pixels@.len() == self.width * self.height * PIXEL_BYTES
    }
}

/// The two-bit color index of column `c` of a tile row whose low bitplane
/// byte is `lo` and high bitplane byte is `hi`; bit 7 is the leftmost pixel.
pub open spec fn pixel_index(lo: u8, hi: u8, c: u8) -> u8
    recommends
        c < 8,
{
    let sh = (7 - c) as u8;
    (((hi >> sh) & 1) << 1) | ((lo >> sh) & 1)
}

/// One channel of the palette color for color index `ci`: indices 0, 1 and 2
/// are opaque black, index 3 is opaque white; channel 3 is alpha.
pub open spec fn palette_channel(ci: u8, k: int) -> u8
    recommends
        0 <= k < 4,
{
    if ci == 3 {
        255
    } else if k == 3 {
        255
    } else {
        0
    }
}

/// Number of whole tiles held by a tile-data buffer; a trailing fragment of
/// fewer than 16 bytes is ignored.
pub open spec fn tile_count(chr: Seq<u8>) -> int {
    chr.len() as int / TILE_BYTES as int
}

/// Number of grid rows needed for `n` tiles: the least `r` with `r * 50 >= n`.
pub open spec fn grid_rows(n: int) -> int {
    if n % GRID_COLUMNS as int == 0 {
        n / GRID_COLUMNS as int
    } else {
        n / GRID_COLUMNS as int + 1
    }
}

/// The 64 color indices of one decoded tile, row-major.
pub open spec fn tile_indices(t: Seq<u8>) -> Seq<usize>
    recommends
        t.len() == TILE_BYTES,
{
    Seq::new(64, |j: int| pixel_index(t[j / 8], t[8 + j / 8], (j % 8) as u8) as usize)
}

/// The byte at channel `k` of the composite bitmap pixel at `(x, y)` for the
/// tile-data buffer `chr`: the cell at `(x / 8, y / 8)` shows tile
/// `(y / 8) * 50 + x / 8` if that many tiles exist, and otherwise stays at
/// the all-zero background.
pub open spec fn bitmap_byte(chr: Seq<u8>, x: int, y: int, k: int) -> u8
    recommends
        0 <= x < GRID_COLUMNS * TILE_DOT,
        0 <= y,
        0 <= k < 4,
{
    let i = (y / 8) * GRID_COLUMNS as int + x / 8;
    if i < tile_count(chr) {
        palette_channel(
            pixel_index(
                chr[i * TILE_BYTES as int + y % 8],
                chr[i * TILE_BYTES as int + 8 + y % 8],
                (x % 8) as u8,
            ),
            k,
        )
    } else {
        0
    }
}

/// Tile decode is pure and position independent: if tile `i1` of one
/// tile-data buffer and tile `i2` of another hold the same 16 bytes, then
/// every pixel of the two grid cells showing them gets the same color, no
/// matter where the tiles sit and whatever the surrounding tiles hold.
pub proof fn lemma_tile_decode_position_independent(
    chr1: Seq<u8>,
    chr2: Seq<u8>,
    i1: int,
    i2: int,
    r: int,
    c: int,
    k: int,
)
    requires
        0 <= i1 < tile_count(chr1),
        0 <= i2 < tile_count(chr2),
        chr1.subrange(i1 * 16, i1 * 16 + 16) == chr2.subrange(i2 * 16, i2 * 16 + 16),
        0 <= r < 8,
        0 <= c < 8,
        0 <= k < 4,
    ensures
        bitmap_byte(chr1, (i1 % 50) * 8 + c, (i1 / 50) * 8 + r, k) == bitmap_byte(
            chr2,
            (i2 % 50) * 8 + c,
            (i2 / 50) * 8 + r,
            k,
        ),
{
    let t1 = chr1.subrange(i1 * 16, i1 * 16 + 16);
    let t2 = chr2.subrange(i2 * 16, i2 * 16 + 16);
    assert(chr1[i1 * 16 + r] == t1[r] && chr1[i1 * 16 + 8 + r] == t1[8 + r]);
    assert(chr2[i2 * 16 + r] == t2[r] && chr2[i2 * 16 + 8 + r] == t2[8 + r]);
}

/// The composite bitmap shows each tile exactly as the per-tile decode
/// reads it: within the grid cell of tile `i`, the pixel at column `c` of
/// row `r` carries the palette color of entry `r * 8 + c` of the tile's 64
/// decoded color indices.
pub proof fn lemma_bitmap_matches_tile_indices(chr: Seq<u8>, i: int, r: int, c: int, k: int)
    requires
        0 <= i < tile_count(chr),
        0 <= r < 8,
        0 <= c < 8,
        0 <= k < 4,
    ensures
        bitmap_byte(chr, (i % 50) * 8 + c, (i / 50) * 8 + r, k) == palette_channel(
            tile_indices(chr.subrange(i * 16, i * 16 + 16))[r * 8 + c] as u8,
            k,
        ),
{
    let t = chr.subrange(i * 16, i * 16 + 16);
    assert(chr[i * 16 + r] == t[r] && chr[i * 16 + 8 + r] == t[8 + r]);
    assert((r * 8 + c) / 8 == r && (r * 8 + c) % 8 == c);
}

/// Decode a tile-data buffer into the composite bitmap, or report that it
/// holds no whole tile. The buffer's length is bounded because a cartridge's
/// tile region never exceeds 255 units of 8 KiB.
pub fn compose(chr: &[u8]) -> (r: Option<Bitmap>)
    requires
        chr@.len() <= 255 * 8192,
    ensures
        match r {
            None => tile_count(chr@) == 0,
            Some(b) => {
                &&& tile_count(chr@) > 0
                &&& b.width == GRID_COLUMNS * TILE_DOT
                &&& b.height == grid_rows(tile_count(chr@)) * TILE_DOT
                &&& b.wf()
                &&& forall|x: int, y: int, k: int|
                    0 <= x < b.width && 0 <= y < b.height && 0 <= k < 4
                        ==> b.pixels@[(y * 400 + x) * 4 + k] == bitmap_byte(chr@, x, y, k)
            },
        },
{
    let n = chr.len();
    let num = n / TILE_BYTES;
    if num == 0 {
        return None;
    }
    let rows = num / GRID_COLUMNS + (if num % GRID_COLUMNS != 0 { 1 } else { 0 });
    let width: usize = GRID_COLUMNS * TILE_DOT;
    let height = rows * TILE_DOT;

    let mut pixels: Vec<u8> = Vec::new();
    let mut y: usize = 0;
    while y < height
        invariant
            y <= height,
            height == grid_rows(tile_count(chr@)) * 8,
            height <= 20896,
            num == tile_count(chr@),
            num * 16 <= n,
            n == chr@.len(),
            pixels@.len() == y * 1600,
            forall|x2: int, y2: int, k2: int|
                0 <= x2 < 400 && 0 <= y2 < y && 0 <= k2 < 4
                    ==> pixels@[(y2 * 400 + x2) * 4 + k2] == bitmap_byte(chr@, x2, y2, k2),
        decreases height - y,
    {
        let mut x: usize = 0;
        while x < 400
            invariant
                x <= 400,
                y < height,
                height <= 20896,
                num == tile_count(chr@),
                num * 16 <= n,
                n == chr@.len(),
                pixels@.len() == y * 1600 + x * 4,
                forall|x2: int, y2: int, k2: int|
                    0 <= x2 < 400 && 0 <= y2 < y && 0 <= k2 < 4
                        ==> pixels@[(y2 * 400 + x2) * 4 + k2] == bitmap_byte(chr@, x2, y2, k2),
                forall|x2: int, k2: int|
                    0 <= x2 < x && 0 <= k2 < 4
                        ==> pixels@[(y * 400 + x2) * 4 + k2] == bitmap_byte(chr@, x2, y as int, k2),
            decreases 400 - x,
        {
            let i = (y / 8) * 50 + x / 8;
            let mut k: usize = 0;
            while k < 4
                invariant
                    k <= 4,
                    x < 400,
                    y < height,
                    height <= 20896,
                    num == tile_count(chr@),
                    num * 16 <= n,
                    n == chr@.len(),
                    i == (y as int / 8) * 50 + x as int / 8,
                    pixels@.len() == y * 1600 + x * 4 + k,
                    forall|x2: int, y2: int, k2: int|
                        0 <= x2 < 400 && 0 <= y2 < y && 0 <= k2 < 4
                            ==> pixels@[(y2 * 400 + x2) * 4 + k2] == bitmap_byte(chr@, x2, y2, k2),
                    forall|x2: int, k2: int|
                        0 <= x2 < x && 0 <= k2 < 4
                            ==> pixels@[(y * 400 + x2) * 4 + k2] == bitmap_byte(chr@, x2, y as int, k2),
                    forall|k2: int|
                        0 <= k2 < k
                            ==> pixels@[(y * 400 + x) * 4 + k2] == bitmap_byte(
                                chr@,
                                x as int,
                                y as int,
                                k2,
                            ),
                decreases 4 - k,
            {
                let v: u8;
                if i < num {
                    let r = y % 8;
                    let b0 = chr[i * 16 + r];
                    let b1 = chr[i * 16 + 8 + r];
                    let sh: u8 = (7 - x % 8) as u8;
                    let ci: u8 = (((b1 >> sh) & 1) << 1) | ((b0 >> sh) & 1);
                    v = if ci == 3 {
                        255
                    } else if k == 3 {
                        255
                    } else {
                        0
                    };
                } else {
                    v = 0;
                }
                assert(v == bitmap_byte(chr@, x as int, y as int, k as int));
                pixels.push(v);
                k = k + 1;
            }
            x = x + 1;
        }
        y = y + 1;
    }

    Some(Bitmap { width, height, pixels })
}

} // verus!

