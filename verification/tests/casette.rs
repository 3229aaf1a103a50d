use casette::bitmap::Bitmap;
use casette::casette::{Casette, LoadError};

/// Build a cartridge file image: "NES" signature, declared unit counts, and
/// the two regions filled from the given byte generators.
fn file_bytes(prg_units: u8, chr_units: u8, prg: &[u8], chr: &[u8]) -> Vec<u8> {
    let mut bytes = vec![b'N', b'E', b'S', 0x1a, prg_units, chr_units];
    bytes.resize(16, 0);
    bytes.extend_from_slice(prg);
    bytes.extend_from_slice(chr);
    bytes
}

/// The RGBA bytes of the pixel at `(x, y)`.
fn px(b: &Bitmap, x: usize, y: usize) -> [u8; 4] {
    let at = (y * b.width + x) * 4;
    [b.pixels[at], b.pixels[at + 1], b.pixels[at + 2], b.pixels[at + 3]]
}

const BLACK: [u8; 4] = [0, 0, 0, 255];
const WHITE: [u8; 4] = [255, 255, 255, 255];
const BACKGROUND: [u8; 4] = [0, 0, 0, 0];

const HEART: [u8; 16] = [
    0x66, 0x7F, 0xFF, 0xFF, 0xFF, 0x7E, 0x3C, 0x18, 0x66, 0x5F, 0xBF, 0xBF, 0xFF, 0x7E, 0x3C,
    0x18,
];

#[test]
fn sprite_test() {
    let sprite = [
        0x66, 0x7F, 0xFF, 0xFF, 0xFF, 0x7E, 0x3C, 0x18, 0x66, 0x5F, 0xBF, 0xBF, 0xFF, 0x7E, 0x3C,
        0x18,
    ];

    let palette = Casette::calc_cindex(sprite);
    let heart = [
        0, 3, 3, 0, 0, 3, 3, 0, 0, 3, 1, 3, 3, 3, 3, 3, 3, 1, 3, 3, 3, 3, 3, 3, 3, 1, 3, 3, 3, 3,
        3, 3, 3, 3, 3, 3, 3, 3, 3, 3, 0, 3, 3, 3, 3, 3, 3, 0, 0, 0, 3, 3, 3, 3, 0, 0, 0, 0, 0, 3,
        3, 0, 0, 0,
    ];
    println!("{:?}", palette);
    assert_eq!(palette, heart);
}

#[test]
fn calc_cindex_is_deterministic() {
    let first = Casette::calc_cindex(HEART);
    let second = Casette::calc_cindex(HEART);
    assert_eq!(first, second);
}

#[test]
fn load_derives_sizes_from_header() {
    let prg = vec![7u8; 16384];
    let chr = vec![9u8; 2 * 8192];
    let c = Casette::load(&file_bytes(1, 2, &prg, &chr)).unwrap();
    assert_eq!(c.prgrom_size, 16384);
    assert_eq!(c.chrrom_size, 16384);
    assert_eq!(c.prgrom.len(), 16384);
    assert_eq!(c.chrrom.len(), 16384);
    assert_eq!(c.prgrom, prg);
    assert_eq!(c.chrrom, chr);
}

#[test]
fn load_accepts_empty_regions() {
    let c = Casette::load(&file_bytes(0, 0, &[], &[])).unwrap();
    assert_eq!(c.prgrom_size, 0);
    assert_eq!(c.chrrom_size, 0);
    assert!(c.prgrom.is_empty());
    assert!(c.chrrom.is_empty());
}

#[test]
fn load_ignores_trailing_bytes() {
    let mut bytes = file_bytes(0, 0, &[], &[]);
    bytes.extend_from_slice(&[1, 2, 3]);
    let c = Casette::load(&bytes).unwrap();
    assert_eq!(c.prgrom_size, 0);
    assert_eq!(c.chrrom_size, 0);
}

#[test]
fn load_rejects_short_header() {
    assert_eq!(Casette::load(&[]).unwrap_err(), LoadError::HeaderTooShort);
    assert_eq!(Casette::load(&[b'N', b'E', b'S']).unwrap_err(), LoadError::HeaderTooShort);
    assert_eq!(Casette::load(&vec![0u8; 15]).unwrap_err(), LoadError::HeaderTooShort);
}

#[test]
fn load_rejects_bad_signature() {
    // A file that would otherwise be valid still fails on its signature.
    let mut bytes = file_bytes(1, 1, &vec![0u8; 16384], &vec![0u8; 8192]);
    bytes[0] = b'X';
    assert_eq!(
        Casette::load(&bytes).unwrap_err(),
        LoadError::BadSignature { sig: [b'X', b'E', b'S'] }
    );
}

#[test]
fn load_rejects_truncated_program_region() {
    // Header declares one 16 KiB program unit but only half is present.
    let bytes = file_bytes(1, 0, &vec![0u8; 8192], &[]);
    assert_eq!(Casette::load(&bytes).unwrap_err(), LoadError::ProgramRegionTruncated);
}

#[test]
fn load_rejects_truncated_tile_region() {
    // The program region is complete; the tile region is one byte short.
    let bytes = file_bytes(1, 1, &vec![0u8; 16384], &vec![0u8; 8191]);
    assert_eq!(Casette::load(&bytes).unwrap_err(), LoadError::TileRegionTruncated);
}

#[test]
fn img_of_empty_tile_region_is_none() {
    let c = Casette::load(&file_bytes(0, 0, &[], &[])).unwrap();
    assert!(c.img().is_none());
}

#[test]
fn img_of_partial_tile_is_none() {
    // Fewer than 16 tile bytes hold no whole tile.
    let c = Casette {
        prgrom_size: 0,
        chrrom_size: 15,
        prgrom: vec![],
        chrrom: vec![0xff; 15],
    };
    assert!(c.img().is_none());
}

#[test]
fn img_paints_tile_pixels_through_palette() {
    let c = Casette {
        prgrom_size: 0,
        chrrom_size: 16,
        prgrom: vec![],
        chrrom: HEART.to_vec(),
    };
    let b = c.img().unwrap();
    assert_eq!(b.width, 400);
    assert_eq!(b.height, 8);
    assert_eq!(b.pixels.len(), 400 * 8 * 4);
    // Row 0 of the heart decodes to indices 0,3,3,0,0,3,3,0.
    assert_eq!(px(&b, 0, 0), BLACK);
    assert_eq!(px(&b, 1, 0), WHITE);
    assert_eq!(px(&b, 2, 0), WHITE);
    assert_eq!(px(&b, 3, 0), BLACK);
    // Index 1 (row 1, column 2 of the heart) is also palette black.
    assert_eq!(px(&b, 2, 1), BLACK);
    // Cells to the right of the only tile stay at the background.
    assert_eq!(px(&b, 8, 0), BACKGROUND);
    assert_eq!(px(&b, 399, 7), BACKGROUND);
}

#[test]
fn img_height_rounds_up_partial_grid_rows() {
    // 52 tiles do not divide evenly into rows of 50: two grid rows.
    let mut chr = Vec::new();
    for _ in 0..52 {
        chr.extend_from_slice(&[0xff; 16]);
    }
    let c = Casette {
        prgrom_size: 0,
        chrrom_size: chr.len(),
        prgrom: vec![],
        chrrom: chr,
    };
    let b = c.img().unwrap();
    assert_eq!(b.width, 400);
    assert_eq!(b.height, 16);
    // Tiles 50 and 51 sit at the start of the second grid row; an all-ones
    // tile is all white.
    assert_eq!(px(&b, 0, 8), WHITE);
    assert_eq!(px(&b, 15, 15), WHITE);
    // The 48 unused cells of the second row keep the default background.
    assert_eq!(px(&b, 16, 8), BACKGROUND);
    assert_eq!(px(&b, 399, 15), BACKGROUND);
}

#[test]
fn img_ignores_trailing_tile_fragment() {
    // 16 whole-tile bytes plus a 4-byte fragment: one tile, fragment unread.
    let mut chr = HEART.to_vec();
    chr.extend_from_slice(&[0xff; 4]);
    let c = Casette {
        prgrom_size: 0,
        chrrom_size: chr.len(),
        prgrom: vec![],
        chrrom: chr,
    };
    let b = c.img().unwrap();
    assert_eq!(b.height, 8);
    assert_eq!(px(&b, 1, 0), WHITE);
    assert_eq!(px(&b, 8, 0), BACKGROUND);
}

#[test]
fn read8_returns_stored_byte_or_zero() {
    let c = Casette {
        prgrom_size: 4,
        chrrom_size: 0,
        prgrom: vec![0xde, 0xad, 0xbe, 0xef],
        chrrom: vec![],
    };
    assert_eq!(c.read8(0), 0xde);
    assert_eq!(c.read8(3), 0xef);
    assert_eq!(c.read8(4), 0x00);
    assert_eq!(c.read8(u16::MAX), 0x00);
}
