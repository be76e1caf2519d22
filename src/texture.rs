//! Texture data that the host hands to the renderer: raw pixels, the
//! generated checkerboard, colour keying and the image formats it reads.

use vstd::prelude::*;
use vstd::string::*;

verus! {

/// How the bytes of a pixel are laid out.
#[derive(Clone, Copy, Debug, PartialEq, Eq, Structural)]
pub enum PixelFormat {
    RGB,
    RGBA,
}

/// Raw pixel data, row by row.
#[derive(Clone, Debug)]
pub struct TextureData {
    pub bytes: Vec<u8>,
    pub width: u32,
    pub height: u32,
    pub format: PixelFormat,
}

/// How a texture is sampled.
#[derive(Clone, Copy, Debug, Default, PartialEq, Eq, Structural)]
pub struct TextureOptions {
    pub wrap: bool,
    pub linear: bool,
}

/// Channel `c` of pixel `p` of a checkerboard `width` pixels wide: `color`
/// on squares whose coordinates sum to an even number, opaque black on the
/// others.
pub open spec fn checker_channel(width: nat, color: Seq<u8>, p: int, c: int) -> u8 {
    let x = p % (width as int);
    let y = p / (width as int);
    if (x + y) % 2 == 0 {
        color[c]
    } else if c == 3 {
        255
    } else {
        0
    }
}

impl TextureData {
    /// A `width` by `height` RGBA checkerboard of `color` and opaque black,
    /// starting with `color` in the top left corner.
    pub fn checkerboard_pattern(width: u32, height: u32, color: [u8; 4]) -> (r: TextureData)
        requires
            width as int * height as int * 4 <= u32::MAX,
        ensures
            r.width == width,
            r.height == height,
            r.format == PixelFormat::RGBA,
            r.bytes@.len() == width as int * height as int * 4,
            forall|p: int, c: int|
                0 <= p < width as int * height as int && 0 <= c < 4 ==> r.bytes@[4 * p + c]
                    == checker_channel(width as nat, color@, p, c),
    {
        assert(width as int * height as int <= u32::MAX) by (nonlinear_arith)
            requires
                width as int * height as int * 4 <= u32::MAX,
        ;
        let n: u32 = width * height;
        let mut bytes: Vec<u8> = Vec::new();
        let black: [u8; 4] = [0, 0, 0, 255];
        assert(black@ =~= seq![0u8, 0u8, 0u8, 255u8]);
        let mut p: u32 = 0;
        while p < n
            invariant
                n == width as int * height as int,
                p <= n,
                width > 0 || n == 0,
                black@ == seq![0u8, 0u8, 0u8, 255u8],
                bytes@.len() == 4 * p,
                forall|q: int, c: int|
                    0 <= q < p && 0 <= c < 4 ==> bytes@[4 * q + c] == checker_channel(
                        width as nat,
                        color@,
                        q,
                        c,
                    ),
            decreases n - p,
        {
            let x = p % width;
            let y = p / width;
            let on_color = (x % 2 == 0) == (y % 2 == 0);
            let pixel = if on_color {
                color
            } else {
                black
            };
            let mut c: usize = 0;
            while c < 4
                invariant
                    0 <= c <= 4,
                    p < n,
                    width > 0,
                    bytes@.len() == 4 * p + c,
                    forall|q: int, k: int|
                        0 <= q < p && 0 <= k < 4 ==> bytes@[4 * q + k] == checker_channel(
                            width as nat,
                            color@,
                            q,
                            k,
                        ),
                    forall|k: int|
                        0 <= k < c ==> bytes@[4 * p + k] == checker_channel(
                            width as nat,
                            color@,
                            p as int,
                            k,
                        ),
                    x == p as int % width as int,
                    y == p as int / width as int,
                    on_color == ((x + y) % 2 == 0),
                    pixel@ == if on_color {
                        color@
                    } else {
                        black@
                    },
                    black@ == seq![0u8, 0u8, 0u8, 255u8],
                decreases 4 - c,
            {
                bytes.push(pixel[c]);
                c = c + 1;
            }
            p = p + 1;
        }
        TextureData { bytes, width, height, format: PixelFormat::RGBA }
    }
}

/// Whether a pixel of these red, green and blue values is a key colour
/// (near magenta or near cyan) that becomes fully transparent.
pub open spec fn is_key_color(r: u8, g: u8, b: u8) -> bool {
    (r > 250 && g < 5 && b > 250) || (r < 5 && g > 250 && b > 250)
}

/// Byte `i` of RGBA pixels `pixels` after colour keying the first `n` pixels.
pub open spec fn keyed_byte(pixels: Seq<u8>, n: int, i: int) -> u8 {
    let p = i / 4;
    if 0 <= i < 4 * n && is_key_color(pixels[4 * p], pixels[4 * p + 1], pixels[4 * p + 2]) {
        0
    } else {
        pixels[i]
    }
}

/// Makes every key-coloured pixel of a `width` by `height` RGBA image fully
/// transparent black; other pixels, and bytes past the image, are kept.
pub fn apply_color_key(pixels: &mut Vec<u8>, width: u32, height: u32)
    requires
        width as int * height as int * 4 <= u32::MAX,
        old(pixels)@.len() >= width as int * height as int * 4,
    ensures
        final(pixels)@.len() == old(pixels)@.len(),
        forall|i: int|
            0 <= i < old(pixels)@.len() ==> final(pixels)@[i] == keyed_byte(
                old(pixels)@,
                width as int * height as int,
                i,
            ),
{
    assert(width as int * height as int <= u32::MAX) by (nonlinear_arith)
        requires
            width as int * height as int * 4 <= u32::MAX,
    ;
    let n: u32 = width * height;
    let mut p: u32 = 0;
    while p < n
        invariant
            n == width as int * height as int,
            p <= n,
            4 * n <= u32::MAX,
            pixels@.len() == old(pixels)@.len(),
            old(pixels)@.len() >= 4 * n,
            forall|i: int|
                0 <= i < pixels@.len() ==> pixels@[i] == keyed_byte(old(pixels)@, p as int, i),
        decreases n - p,
    {
        let pos: usize = (p * 4) as usize;
        let r = pixels[pos];
        let g = pixels[pos + 1];
        let b = pixels[pos + 2];
        if r > 250 && g < 5 && b > 250 || r < 5 && g > 250 && b > 250 {
            pixels.set(pos, 0);
            pixels.set(pos + 1, 0);
            pixels.set(pos + 2, 0);
            pixels.set(pos + 3, 0);
        }
        assert forall|i: int|
            0 <= i < pixels@.len() implies pixels@[i] == keyed_byte(
                old(pixels)@,
                p + 1,
                i,
            ) by {
            if 4 * p <= i < 4 * p + 4 {
                assert(i / 4 == p);
            } else {
                assert(i / 4 != p);
            }
        }
        p = p + 1;
    }
}

/// The image formats whose files can become textures.
#[derive(Clone, Copy, Debug, PartialEq, Eq, Structural)]
pub enum ImageEncoding {
    Png,
    Gif,
    Jpeg,
}

/// Whether `a` is `b` up to ASCII case, where `b` is lower case.
pub open spec fn char_matches_lower(a: char, b: char) -> bool {
    a == b || ('A' <= a <= 'Z' && a as u32 + 32 == b as u32)
}

/// Whether `s` spells `lower` up to ASCII case, where `lower` is lower case.
pub open spec fn matches_lower(s: Seq<char>, lower: Seq<char>) -> bool {
    &&& s.len() == lower.len()
    &&& forall|i: int| 0 <= i < s.len() ==> char_matches_lower(s[i], lower[i])
}

fn matches_lower_exec(s: &str, lower: &str) -> (r: bool)
    ensures
        r == matches_lower(s@, lower@),
{
    let n = s.unicode_len();
    if n != lower.unicode_len() {
        return false;
    }
    let mut i: usize = 0;
    while i < n
        invariant
            n == s@.len(),
            n == lower@.len(),
            i <= n,
            forall|k: int| 0 <= k < i ==> char_matches_lower(s@[k], lower@[k]),
        decreases n - i,
    {
        let a = s.get_char(i);
        let b = lower.get_char(i);
        let same = a == b || ('A' <= a && a <= 'Z' && a as u32 + 32 == b as u32);
        if !same {
            return false;
        }
        i = i + 1;
    }
    true
}

/// The image format of files with extension `str`, in any ASCII case:
/// `png`, `gif`, and `jpeg` or `jpg`.
pub fn extension_to_format(str: String) -> (r: Option<ImageEncoding>)
    ensures
        r == if matches_lower(str@, "png"@) {
            Some(ImageEncoding::Png)
        } else if matches_lower(str@, "gif"@) {
            Some(ImageEncoding::Gif)
        } else if matches_lower(str@, "jpeg"@) || matches_lower(str@, "jpg"@) {
            Some(ImageEncoding::Jpeg)
        } else {
            None
        },
{
    let s = str.as_str();
    if matches_lower_exec(s, "png") {
        Some(ImageEncoding::Png)
    } else if matches_lower_exec(s, "gif") {
        Some(ImageEncoding::Gif)
    } else if matches_lower_exec(s, "jpeg") || matches_lower_exec(s, "jpg") {
        Some(ImageEncoding::Jpeg)
    } else {
        None
    }
}

} // verus!
