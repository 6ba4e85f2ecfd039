//! Deterministic solid-color placeholder icons.
use vstd::prelude::*;
use vstd::string::StringSliceAdditionalSpecFns;
use crate::raster::{RgbaImage, rgba_len};

verus! {

/// Initial state of the 64-bit FNV-1a hash.
pub const FNV_OFFSET: u64 = 0xcbf2_9ce4_8422_2325;

/// Multiplier of the 64-bit FNV-1a hash.
pub const FNV_PRIME: u64 = 0x0000_0100_0000_01b3;

/// One round of FNV-1a: mix in a byte, then multiply modulo 2^64.
pub open spec fn fnv_step(h: u64, b: u8) -> u64 {
    (((h ^ (b as u64)) as nat * FNV_PRIME as nat) % 0x1_0000_0000_0000_0000nat) as u64
}

/// The 64-bit FNV-1a hash of a byte string.
pub open spec fn fnv1a(bytes: Seq<u8>) -> u64
    decreases bytes.len(),
{
    if bytes.len() == 0 {
        FNV_OFFSET
    } else {
        fnv_step(fnv1a(bytes.drop_last()), bytes.last())
    }
}

/// The color derived from a hash: red from bits 16 to 23, green from bits 8
/// to 15, blue from bits 0 to 7.
pub open spec fn color_of_hash(h: u64) -> (u8, u8, u8) {
    (((h >> 16u64) & 0xffu64) as u8, ((h >> 8u64) & 0xffu64) as u8, (h & 0xffu64) as u8)
}

/// The color of the placeholder icon for a name, given as UTF-8 bytes.
pub open spec fn seed_color(name: Seq<u8>) -> (u8, u8, u8) {
    color_of_hash(fnv1a(name))
}

/// The byte at position `i` of a buffer filled with the opaque color `c`.
pub open spec fn solid_byte(c: (u8, u8, u8), i: int) -> u8 {
    if i % 4 == 0 {
        c.0
    } else if i % 4 == 1 {
        c.1
    } else if i % 4 == 2 {
        c.2
    } else {
        255u8
    }
}

/// The first `len` bytes of a buffer filled with the opaque color `c`.
pub open spec fn solid_pixels(c: (u8, u8, u8), len: int) -> Seq<u8> {
    Seq::new(len as nat, |i: int| solid_byte(c, i))
}

/// The pixels of the placeholder icon of a given size for a name.
pub open spec fn fallback_pixels(name: Seq<u8>, width: u32, height: u32) -> Seq<u8> {
    solid_pixels(seed_color(name), rgba_len(width, height))
}

/// The 64-bit FNV-1a hash of the UTF-8 bytes of `name`.
pub fn name_hash(name: &str) -> (r: u64)
    ensures
        r == fnv1a(name.spec_bytes()),
{
    let bytes = name.as_bytes();
    let mut h: u64 = FNV_OFFSET;
    let mut i: usize = 0;
    while i < bytes.len()
        invariant
            bytes@ == name.spec_bytes(),
            i <= bytes@.len(),
            h == fnv1a(bytes@.subrange(0, i as int)),
        decreases bytes@.len() - i,
    {
        assert(bytes@.subrange(0, i + 1).drop_last() =~= bytes@.subrange(0, i as int));
        h = (h ^ (bytes[i] as u64)).wrapping_mul(FNV_PRIME);
        i = i + 1;
    }
    assert(bytes@.subrange(0, i as int) =~= bytes@);
    h
}

/// The color of the placeholder icon for `name`.
pub fn color_seed(name: &str) -> (r: (u8, u8, u8))
    ensures
        r == seed_color(name.spec_bytes()),
{
    let h = name_hash(name);
    (((h >> 16u64) & 0xffu64) as u8, ((h >> 8u64) & 0xffu64) as u8, (h & 0xffu64) as u8)
}

/// The placeholder icon for `name`: a `width` by `height` bitmap filled with
/// the opaque color derived from the name's hash.
pub fn create_fallback_icon(name: &str, width: u32, height: u32) -> (r: RgbaImage)
    requires
        rgba_len(width, height) <= usize::MAX,
    ensures
        r.has_size(width, height),
        r.pixels@ == fallback_pixels(name.spec_bytes(), width, height),
{
    let c = color_seed(name);
    assert(width as int * height as int * 4 <= usize::MAX);
    assert(0 <= width as int * height as int <= width as int * height as int * 4) by (nonlinear_arith);
    let len = (width as usize) * (height as usize) * 4;
    let mut pixels: Vec<u8> = Vec::with_capacity(len);
    let mut i: usize = 0;
    while i < len
        invariant
            len == rgba_len(width, height),
            i <= len,
            pixels@ == solid_pixels(c, i as int),
        decreases len - i,
    {
        let b: u8 = if i % 4 == 0 {
            c.0
        } else if i % 4 == 1 {
            c.1
        } else if i % 4 == 2 {
            c.2
        } else {
            255u8
        };
        pixels.push(b);
        i = i + 1;
        assert(pixels@ =~= solid_pixels(c, i as int));
    }
    RgbaImage { width, height, pixels }
}

/// The placeholder icon depends on nothing but the name and the size: equal
/// names at equal sizes give byte-identical buffers.
pub proof fn fallback_is_deterministic(a: Seq<u8>, b: Seq<u8>, width: u32, height: u32)
    requires
        a == b,
    ensures
        fallback_pixels(a, width, height) == fallback_pixels(b, width, height),
{
}

/// A placeholder buffer holds four bytes per pixel, and every alpha byte is
/// 255.
pub proof fn fallback_buffer_shape(name: Seq<u8>, width: u32, height: u32)
    ensures
        fallback_pixels(name, width, height).len() == rgba_len(width, height),
        forall|i: int|
            0 <= i < rgba_len(width, height) && i % 4 == 3 ==> #[trigger] fallback_pixels(
                name,
                width,
                height,
            )[i] == 255,
{
    assert(0 <= width as int * height as int * 4) by (nonlinear_arith);
}

/// Every pixel of a placeholder buffer carries the color derived from the
/// name's hash, fully opaque.
pub proof fn fallback_pixel_color(name: Seq<u8>, width: u32, height: u32, p: int)
    requires
        0 <= p && p * 4 < rgba_len(width, height),
    ensures
        fallback_pixels(name, width, height)[p * 4] == seed_color(name).0,
        fallback_pixels(name, width, height)[p * 4 + 1] == seed_color(name).1,
        fallback_pixels(name, width, height)[p * 4 + 2] == seed_color(name).2,
        fallback_pixels(name, width, height)[p * 4 + 3] == 255,
{
    assert(0 <= width as int * height as int * 4) by (nonlinear_arith);
    assert(rgba_len(width, height) % 4 == 0) by (nonlinear_arith)
        requires rgba_len(width, height) == width as int * height as int * 4;
    assert((p * 4) % 4 == 0 && (p * 4 + 1) % 4 == 1 && (p * 4 + 2) % 4 == 2 && (p * 4 + 3) % 4
        == 3) by (nonlinear_arith)
        requires 0 <= p;
}

} // verus!
