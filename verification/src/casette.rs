//! The cartridge image and its loader.
//!
//! A cartridge file starts with a 16-byte header: bytes 0 to 2 hold the
//! ASCII signature `NES`, byte 4 the number of 16 KiB program units and
//! byte 5 the number of 8 KiB tile units. The header is followed by the
//! program region and then the tile region, each of exactly the declared
//! size.

use vstd::array::ArrayAdditionalExecFns;
use vstd::prelude::*;

use crate::bitmap;
use crate::bitmap::Bitmap;

verus! {

/// Length of the cartridge header, in bytes.
pub const HEADER_LEN: usize = 16;

/// Size in bytes of one program-region unit.
pub const PRG_UNIT: usize = 16384;

/// Size in bytes of one tile-region unit.
pub const CHR_UNIT: usize = 8192;

/// Why a cartridge image was rejected by the loader.
#[derive(Debug, PartialEq, Eq)]
pub enum LoadError {
    /// Fewer than 16 bytes were available for the header.
    HeaderTooShort,
    /// The first three bytes, carried here for diagnostics, are not `NES`.
    BadSignature { sig: [u8; 3] },
    /// The body holds fewer program bytes than the header declares.
    ProgramRegionTruncated,
    /// The body holds fewer tile bytes than the header declares.
    TileRegionTruncated,
}

/// An in-memory cartridge image: the sizes of the two regions and the
/// regions themselves.
#[derive(Debug)]
pub struct Casette {
    pub prgrom_size: usize,
    pub chrrom_size: usize,
    pub prgrom: Vec<u8>,
    pub chrrom: Vec<u8>,
}

/// The bytes hold a whole header.
pub open spec fn header_present(b: Seq<u8>) -> bool {
    b.len() >= HEADER_LEN
}

/// The first three bytes are the ASCII signature `NES`.
pub open spec fn signature_ok(b: Seq<u8>) -> bool
    recommends
        b.len() >= 3,
{
    b[0] == 0x4eu8 && b[1] == 0x45u8 && b[2] == 0x53u8
}

/// Size of the program region declared by the header.
pub open spec fn prg_size_of(b: Seq<u8>) -> int
    recommends
        b.len() >= 5,
{
    b[4] * PRG_UNIT as int
}

/// Size of the tile region declared by the header.
pub open spec fn chr_size_of(b: Seq<u8>) -> int
    recommends
        b.len() >= 6,
{
    b[5] * CHR_UNIT as int
}

/// Both declared regions are present in full after the header.
pub open spec fn regions_present(b: Seq<u8>) -> bool
    recommends
        b.len() >= HEADER_LEN,
{
    b.len() >= HEADER_LEN + prg_size_of(b) + chr_size_of(b)
}

/// The bytes form a loadable cartridge image.
pub open spec fn parse_ok(b: Seq<u8>) -> bool {
    header_present(b) && signature_ok(b) && regions_present(b)
}

impl Casette {
    /// Each region is exactly as long as its size field says, and each size
    /// is a whole number of units declared by a single header byte.
    pub open spec fn wf(&self) -> bool {
        &&& self.prgrom@.len() == self.prgrom_size
        &&& self.chrrom@.len() == self.chrrom_size
        &&& self.prgrom_size as int % PRG_UNIT as int == 0
        &&& self.chrrom_size as int % CHR_UNIT as int == 0
        &&& self.prgrom_size <= 255 * PRG_UNIT
        &&& self.chrrom_size <= 255 * CHR_UNIT
    }

    /// Parse a complete cartridge file held in memory.
    ///
    /// Succeeds exactly on byte strings with a whole header, the `NES`
    /// signature, and both declared regions present in full; bytes after
    /// the tile region are ignored. Each rejection reports the first check
    /// that failed, in header order.
    pub fn load(bytes: &[u8]) -> (r: Result<Casette, LoadError>)
        ensures
            r is Ok <==> parse_ok(bytes@),
            r == Result::<Casette, LoadError>::Err(LoadError::HeaderTooShort) <==> !header_present(
                bytes@,
            ),
            (header_present(bytes@) && !signature_ok(bytes@)) <==> (r matches Err(
                LoadError::BadSignature { sig: _ },
            )),
            r matches Err(LoadError::BadSignature { sig }) ==> sig@ == bytes@.subrange(0, 3),
            r == Result::<Casette, LoadError>::Err(LoadError::ProgramRegionTruncated) <==> (
            header_present(bytes@) && signature_ok(bytes@) && bytes@.len() < HEADER_LEN
                + prg_size_of(bytes@)),
            r == Result::<Casette, LoadError>::Err(LoadError::TileRegionTruncated) <==> (
            header_present(bytes@) && signature_ok(bytes@) && bytes@.len() >= HEADER_LEN
                + prg_size_of(bytes@) && !regions_present(bytes@)),
            r matches Ok(c) ==> {
                &&& c.prgrom_size == prg_size_of(bytes@)
                &&& c.chrrom_size == chr_size_of(bytes@)
                &&& c.prgrom@ == bytes@.subrange(
                    HEADER_LEN as int,
                    HEADER_LEN + prg_size_of(bytes@),
                )
                &&& c.chrrom@ == bytes@.subrange(
                    HEADER_LEN + prg_size_of(bytes@),
                    HEADER_LEN + prg_size_of(bytes@) + chr_size_of(bytes@),
                )
                &&& c.wf()
            },
    {
        let n = bytes.len();
        if n < HEADER_LEN {
            return Err(LoadError::HeaderTooShort);
        }
        if !(bytes[0] == 0x4e && bytes[1] == 0x45 && bytes[2] == 0x53) {
            return Err(LoadError::BadSignature { sig: [bytes[0], bytes[1], bytes[2]] });
        }
        let prgrom_size = (bytes[4] as usize) * PRG_UNIT;
        let chrrom_size = (bytes[5] as usize) * CHR_UNIT;
        if n < HEADER_LEN + prgrom_size {
            return Err(LoadError::ProgramRegionTruncated);
        }
        if n < HEADER_LEN + prgrom_size + chrrom_size {
            return Err(LoadError::TileRegionTruncated);
        }

        let mut prgrom: Vec<u8> = Vec::new();
        let mut j: usize = 0;
        while j < prgrom_size
            invariant
                j <= prgrom_size,
                prgrom_size <= 255 * PRG_UNIT,
                HEADER_LEN + prgrom_size <= bytes@.len(),
                prgrom@.len() == j,
                forall|t: int| 0 <= t < j ==> prgrom@[t] == bytes@[HEADER_LEN + t],
            decreases prgrom_size - j,
        {
            prgrom.push(bytes[HEADER_LEN + j]);
            j = j + 1;
        }

        let chr_base = HEADER_LEN + prgrom_size;
        let mut chrrom: Vec<u8> = Vec::new();
        let mut j: usize = 0;
        while j < chrrom_size
            invariant
                j <= chrrom_size,
                chrrom_size <= 255 * CHR_UNIT,
                chr_base <= HEADER_LEN + 255 * PRG_UNIT,
                chr_base == HEADER_LEN + prgrom_size,
                chr_base + chrrom_size <= bytes@.len(),
                chrrom@.len() == j,
                forall|t: int| 0 <= t < j ==> chrrom@[t] == bytes@[chr_base + t],
            decreases chrrom_size - j,
        {
            chrrom.push(bytes[chr_base + j]);
            j = j + 1;
        }

        proof {
            assert(prgrom@ =~= bytes@.subrange(
                HEADER_LEN as int,
                HEADER_LEN + prg_size_of(bytes@),
            ));
            assert(chrrom@ =~= bytes@.subrange(
                HEADER_LEN + prg_size_of(bytes@),
                HEADER_LEN + prg_size_of(bytes@) + chr_size_of(bytes@),
            ));
        }

        Ok(Casette { prgrom_size, chrrom_size, prgrom, chrrom })
    }

    /// Read one byte of the program region: the stored byte at a valid
    /// offset, and 0 at any offset past the end of the region.
    pub fn read8(&self, offset: u16) -> (r: u8)
        ensures
            r == if (offset as int) < self.prgrom@.len() {
                self.prgrom@[offset as int]
            } else {
                0u8
            },
    {
        if (offset as usize) < self.prgrom.len() {
            self.prgrom[offset as usize]
        } else {
            0
        }
    }

    /// Decode one 16-byte tile into its 64 color indices, row-major.
    ///
    /// The result is a function of the 16 input bytes alone, so decoding is
    /// deterministic and does not depend on where the tile sits in a
    /// cartridge.
    pub fn calc_cindex(sprite: [u8; 16]) -> (r: [usize; 64])
        ensures
            r@ == bitmap::tile_indices(sprite@),
    {
        let mut palette = [0usize; 64];
        let mut row: usize = 0;
        while row < 8
            invariant
                row <= 8,
                palette@.len() == 64,
                forall|j: int|
                    0 <= j < row * 8 ==> palette@[j] == bitmap::tile_indices(sprite@)[j],
            decreases 8 - row,
        {
            let b0 = sprite[row];
            let b1 = sprite[8 + row];
            let mut c: usize = 0;
            while c < 8
                invariant
                    c <= 8,
                    row < 8,
                    b0 == sprite@[row as int],
                    b1 == sprite@[8 + row as int],
                    palette@.len() == 64,
                    forall|j: int|
                        0 <= j < row * 8 + c ==> palette@[j] == bitmap::tile_indices(sprite@)[j],
                decreases 8 - c,
            {
                let sh: u8 = (7 - c) as u8;
                let ci: u8 = (((b1 >> sh) & 1) << 1) | ((b0 >> sh) & 1);
                palette.set(row * 8 + c, ci as usize);
                c = c + 1;
            }
            row = row + 1;
        }
        proof {
            assert(palette@ =~= bitmap::tile_indices(sprite@));
        }
        palette
    }

    /// Decode the tile region into the composite bitmap, or report that it
    /// holds no whole tile.
    pub fn img(&self) -> (r: Option<Bitmap>)
        requires
            self.chrrom@.len() <= 255 * CHR_UNIT,
        ensures
            match r {
                None => bitmap::tile_count(self.chrrom@) == 0,
                Some(b) => {
                    &&& bitmap::tile_count(self.chrrom@) > 0
                    &&& b.width == bitmap::GRID_COLUMNS * bitmap::TILE_DOT
                    &&& b.height == bitmap::grid_rows(bitmap::tile_count(self.chrrom@))
                        * bitmap::TILE_DOT
                    &&& b.wf()
                    &&& forall|x: int, y: int, k: int|
                        0 <= x < b.width && 0 <= y < b.height && 0 <= k < 4
                            ==> b.pixels@[(y * 400 + x) * 4 + k] == bitmap::bitmap_byte(
                                self.chrrom@,
                                x,
                                y,
                                k,
                            )
                },
            },
    {
        bitmap::compose(self.chrrom.as_slice())
    }
}

impl Default for Casette {
    /// An empty cartridge image: both regions absent.
    fn default() -> (c: Casette)
        ensures
            c.prgrom_size == 0,
            c.chrrom_size == 0,
            c.prgrom@.len() == 0,
            c.chrrom@.len() == 0,
            c.wf(),
    {
        Casette { prgrom_size: 0, chrrom_size: 0, prgrom: Vec::new(), chrrom: Vec::new() }
    }
}

} // verus!

