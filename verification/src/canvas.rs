//! The CPU-rendered canvas: a pixmap of premultiplied RGBA8 pixels that is
//! resized with its window and copied, pixel by pixel, into the 0RGB words a
//! window buffer shows.
use vstd::prelude::*;
use vello_common::pixmap::Pixmap;

verus! {

/// `vello_common::pixmap::Pixmap`, held opaque: its pixels and size are read
/// through the names and wrappers below.
#[verifier::external_type_specification]
#[verifier::external_body]
pub struct ExPixmap(Pixmap);

/// The pixels of a pixmap in row-major order, each as (r, g, b, a).
pub uninterp spec fn pixmap_pixels(p: Pixmap) -> Seq<(u8, u8, u8, u8)>;

/// The (width, height) a pixmap was last made or resized with.
pub uninterp spec fn pixmap_size(p: Pixmap) -> (u16, u16);

/// `Pixmap::width` and `Pixmap::height`: the size the pixmap was last made or
/// resized with.
#[verifier::external_body]
pub(crate) fn pixmap_dimensions(p: &Pixmap) -> (size: (u16, u16))
    ensures
        size == pixmap_size(*p),
{
    (p.width(), p.height())
}

/// The number of pixels of the pixmap: the length of `Pixmap::data`.
#[verifier::external_body]
fn pixel_count(p: &Pixmap) -> (n: usize)
    ensures
        n == pixmap_pixels(*p).len(),
{
    p.data().len()
}

/// The pixel at index `i` of `Pixmap::data`, as (r, g, b, a).
#[verifier::external_body]
fn pixel_at(p: &Pixmap, i: usize) -> (px: (u8, u8, u8, u8))
    requires
        i < pixmap_pixels(*p).len(),
    ensures
        px == pixmap_pixels(*p)[i as int],
{
    let c = p.data()[i];
    (c.r, c.g, c.b, c.a)
}

/// `Pixmap::resize`: sets the width and height and resizes the pixel buffer
/// to `width * height` pixels with `Vec::resize`, so the pixels that were
/// there up to the new length are kept and the added ones are transparent
/// black (all four channels zero).
#[verifier::external_body]
fn resize_pixmap(p: &mut Pixmap, width: u16, height: u16)
    ensures
        pixmap_size(*final(p)) == (width, height),
        pixmap_pixels(*final(p)).len() == width as nat * height as nat,
        forall|k: int|
            0 <= k < pixmap_pixels(*final(p)).len() ==> #[trigger] pixmap_pixels(*final(p))[k]
                == if k < pixmap_pixels(*old(p)).len() {
                pixmap_pixels(*old(p))[k]
            } else {
                (0u8, 0u8, 0u8, 0u8)
            },
{
    p.resize(width, height)
}

/// The 0RGB word a window buffer shows for a pixel: blue in the low byte,
/// then green, then red, and a zero top byte (`u32::from_le_bytes([b, g, r, 0])`).
pub open spec fn xrgb(r: u8, g: u8, b: u8) -> u32 {
    (r as int * 65536 + g as int * 256 + b as int) as u32
}

/// Packs a pixel's red, green and blue into the 0RGB word a window buffer
/// shows; alpha is dropped.
pub fn pack_xrgb(r: u8, g: u8, b: u8) -> (w: u32)
    ensures
        w == xrgb(r, g, b),
        w as int == r as int * 65536 + g as int * 256 + b as int,
{
    (r as u32) * 65536 + (g as u32) * 256 + (b as u32)
}

/// Packing keeps each channel: red, green and blue can be read back from
/// their bytes of the word, and the top byte is zero.
pub proof fn lemma_xrgb_channels(r: u8, g: u8, b: u8)
    ensures
        xrgb(r, g, b) / 65536 == r,
        (xrgb(r, g, b) / 256) % 256 == g,
        xrgb(r, g, b) % 256 == b,
        xrgb(r, g, b) < 16777216,
{
    let w: int = r as int * 65536 + g as int * 256 + b as int;
    assert(0 <= w < 16777216);
    assert(w / 65536 == r as int && (w / 256) % 256 == g as int && w % 256 == b as int) by (nonlinear_arith)
        requires
            w == r as int * 65536 + g as int * 256 + b as int,
            0 <= r < 256,
            0 <= g < 256,
            0 <= b < 256,
    {
        assert(w / 256 == r as int * 256 + g as int);
    }
}

/// Copies the pixmap into a window buffer, pixel by pixel, as 0RGB words.
/// Only as many pixels as both hold are copied; the rest of the buffer is
/// left as it was.
pub fn copy_pixmap_to_buffer(pixmap: &Pixmap, buffer: &mut [u32])
    ensures
        final(buffer)@.len() == old(buffer)@.len(),
        forall|k: int|
            0 <= k < final(buffer)@.len() ==> #[trigger] final(buffer)@[k] == if k
                < pixmap_pixels(*pixmap).len() {
                xrgb(
                    pixmap_pixels(*pixmap)[k].0,
                    pixmap_pixels(*pixmap)[k].1,
                    pixmap_pixels(*pixmap)[k].2,
                )
            } else {
                old(buffer)@[k]
            },
{
    let count = pixel_count(pixmap);
    let n = if buffer.len() < count {
        buffer.len()
    } else {
        count
    };
    let mut i: usize = 0;
    while i < n
        invariant
            n <= buffer@.len(),
            n <= pixmap_pixels(*pixmap).len(),
            n == buffer@.len() || n == pixmap_pixels(*pixmap).len(),
            i <= n,
            buffer@.len() == old(buffer)@.len(),
            forall|k: int|
                0 <= k < buffer@.len() ==> #[trigger] buffer@[k] == if k < i {
                    xrgb(
                        pixmap_pixels(*pixmap)[k].0,
                        pixmap_pixels(*pixmap)[k].1,
                        pixmap_pixels(*pixmap)[k].2,
                    )
                } else {
                    old(buffer)@[k]
                },
        decreases n - i,
    {
        let (r, g, b, _a) = pixel_at(pixmap, i);
        buffer[i] = pack_xrgb(r, g, b);
        i = i + 1;
    }
}

/// The size a window surface is given after a resize: each side at least one
/// pixel.
#[derive(Debug, Clone, Copy, PartialEq, Eq, Structural)]
pub struct SurfaceSize {
    pub width: u32,
    pub height: u32,
}

/// A side of at least one pixel.
pub open spec fn at_least_one(x: u32) -> u32 {
    if x == 0 {
        1
    } else {
        x
    }
}

/// Follows a window resize: each side is raised to at least one pixel, the
/// pixmap takes that size cut to 16 bits (`as u16`), and the surface size is
/// returned.
pub fn resize_canvas(pixmap: &mut Pixmap, width: u32, height: u32) -> (size: SurfaceSize)
    ensures
        size.width == at_least_one(width),
        size.height == at_least_one(height),
        size.width >= 1 && size.height >= 1,
        pixmap_size(*final(pixmap)) == ((size.width % 65536) as u16, (size.height % 65536) as u16),
        pixmap_pixels(*final(pixmap)).len() == (size.width % 65536) * (size.height % 65536),
        forall|k: int|
            0 <= k < pixmap_pixels(*final(pixmap)).len() ==> #[trigger] pixmap_pixels(
                *final(pixmap),
            )[k] == if k < pixmap_pixels(*old(pixmap)).len() {
                pixmap_pixels(*old(pixmap))[k]
            } else {
                (0u8, 0u8, 0u8, 0u8)
            },
{
    let w: u32 = if width < 1 {
        1
    } else {
        width
    };
    let h: u32 = if height < 1 {
        1
    } else {
        height
    };
    let cw: u16 = (w % 65536) as u16;
    let ch: u16 = (h % 65536) as u16;
    resize_pixmap(pixmap, cw, ch);
    SurfaceSize { width: w, height: h }
}

/// A side raised to at least one pixel is one for zero and the side itself
/// otherwise.
pub proof fn lemma_at_least_one(x: u32)
    ensures
        at_least_one(x) >= 1,
        x != 0 ==> at_least_one(x) == x,
        x == 0 ==> at_least_one(x) == 1,
{
}

} // verus!
