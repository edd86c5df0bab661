use vstd::prelude::*;

use crate::pixels::{flip_h, is_rect, lemma_grid_determines_data, rot180, rot90, Grid, PixelBuffer};

verus! {

/// Transpose a `w` x `h` grid: a quarter turn clockwise followed by a mirror.
pub open spec fn flip_diagonal(g: Grid, w: int, h: int) -> Grid {
    flip_h(rot90(g, w, h), h, w)
}

/// The grid and its width and height after correcting orientation code `o`.
/// Code 1, code 0 and codes above 8 leave the grid as it is; for the others the
/// bits of `o - 1` select, in this order, a diagonal flip, a half turn and a
/// horizontal mirror.
pub open spec fn oriented(g: Grid, w: int, h: int, o: int) -> (Grid, int, int) {
    if o <= 1 || o > 8 {
        (g, w, h)
    } else {
        let k = o - 1;
        let (g1, w1, h1) = if k >= 4 { (flip_diagonal(g, w, h), h, w) } else { (g, w, h) };
        let g2 = if k % 4 >= 2 { rot180(g1, w1, h1) } else { g1 };
        let g3 = if k % 2 == 1 { flip_h(g2, w1, h1) } else { g2 };
        (g3, w1, h1)
    }
}

/// The orientation code whose correction undoes that of `o`: the two quarter
/// turns undo each other, every other correction undoes itself.
pub open spec fn inverse_orientation(o: int) -> int {
    if o == 6 {
        8
    } else if o == 8 {
        6
    } else {
        o
    }
}

/// Correcting orientation code `o` (2 to 8) and then the inverse code gives
/// back the original grid and dimensions.
pub proof fn lemma_orientation_round_trip(g: Grid, w: int, h: int, o: int)
    requires
        w >= 0,
        h >= 0,
        is_rect(g, w, h),
        2 <= o <= 8,
    ensures
        ({
            let (g1, w1, h1) = oriented(g, w, h, o);
            oriented(g1, w1, h1, inverse_orientation(o)) == (g, w, h)
        }),
{
    let (g1, w1, h1) = oriented(g, w, h, o);
    let (g2, w2, h2) = oriented(g1, w1, h1, inverse_orientation(o));
    assert(g2 =~~= g);
}

/// On buffers: when `once` is `image` corrected for code `o` (2 to 8) and `back`
/// is `once` corrected for the inverse code, `back` holds exactly the samples
/// of `image`, in its width and height.
pub proof fn lemma_buffer_orientation_round_trip(image: &PixelBuffer, once: &PixelBuffer, back: &PixelBuffer, o: int)
    requires
        image.wf(),
        once.wf(),
        back.wf(),
        once.channels == image.channels,
        back.channels == image.channels,
        2 <= o <= 8,
        (once.grid(), once.width as int, once.height as int)
            == oriented(image.grid(), image.width as int, image.height as int, o),
        (back.grid(), back.width as int, back.height as int)
            == oriented(once.grid(), once.width as int, once.height as int, inverse_orientation(o)),
    ensures
        back.width == image.width,
        back.height == image.height,
        back.data@ == image.data@,
{
    assert(is_rect(image.grid(), image.width as int, image.height as int));
    lemma_orientation_round_trip(image.grid(), image.width as int, image.height as int, o);
    lemma_grid_determines_data(back, image);
}

/// Relies on image::imageops::rotate90 for an RGB image: pixel (x, y) moves to
/// (h - 1 - y, x), and the result is `h` wide and `w` tall.
#[verifier::external_body]
fn rotate90_rgb(b: PixelBuffer) -> (r: PixelBuffer)
    requires
        b.wf(),
        b.channels == 3,
    ensures
        r.wf(),
        r.channels == 3,
        r.width == b.height,
        r.height == b.width,
        r.grid() == rot90(b.grid(), b.width as int, b.height as int),
{
    let img = image::RgbImage::from_raw(b.width, b.height, b.data).unwrap();
    let out = image::imageops::rotate90(&img);
    PixelBuffer { width: out.width(), height: out.height(), channels: 3, data: out.into_raw() }
}

/// Relies on image::imageops::rotate90 for an RGBA image, as for RGB.
#[verifier::external_body]
fn rotate90_rgba(b: PixelBuffer) -> (r: PixelBuffer)
    requires
        b.wf(),
        b.channels == 4,
    ensures
        r.wf(),
        r.channels == 4,
        r.width == b.height,
        r.height == b.width,
        r.grid() == rot90(b.grid(), b.width as int, b.height as int),
{
    let img = image::RgbaImage::from_raw(b.width, b.height, b.data).unwrap();
    let out = image::imageops::rotate90(&img);
    PixelBuffer { width: out.width(), height: out.height(), channels: 4, data: out.into_raw() }
}

/// Relies on image::imageops::rotate180_in_place for an RGB image: pixel (x, y)
/// trades places with (w - 1 - x, h - 1 - y).
#[verifier::external_body]
fn rotate180_rgb(b: PixelBuffer) -> (r: PixelBuffer)
    requires
        b.wf(),
        b.channels == 3,
    ensures
        r.wf(),
        r.channels == 3,
        r.width == b.width,
        r.height == b.height,
        r.grid() == rot180(b.grid(), b.width as int, b.height as int),
{
    let mut img = image::RgbImage::from_raw(b.width, b.height, b.data).unwrap();
    image::imageops::rotate180_in_place(&mut img);
    PixelBuffer { width: b.width, height: b.height, channels: 3, data: img.into_raw() }
}

/// Relies on image::imageops::rotate180_in_place for an RGBA image, as for RGB.
#[verifier::external_body]
fn rotate180_rgba(b: PixelBuffer) -> (r: PixelBuffer)
    requires
        b.wf(),
        b.channels == 4,
    ensures
        r.wf(),
        r.channels == 4,
        r.width == b.width,
        r.height == b.height,
        r.grid() == rot180(b.grid(), b.width as int, b.height as int),
{
    let mut img = image::RgbaImage::from_raw(b.width, b.height, b.data).unwrap();
    image::imageops::rotate180_in_place(&mut img);
    PixelBuffer { width: b.width, height: b.height, channels: 4, data: img.into_raw() }
}

/// Relies on image::imageops::flip_horizontal_in_place for an RGB image: pixel
/// (x, y) trades places with (w - 1 - x, y).
#[verifier::external_body]
fn flip_horizontal_rgb(b: PixelBuffer) -> (r: PixelBuffer)
    requires
        b.wf(),
        b.channels == 3,
    ensures
        r.wf(),
        r.channels == 3,
        r.width == b.width,
        r.height == b.height,
        r.grid() == flip_h(b.grid(), b.width as int, b.height as int),
{
    let mut img = image::RgbImage::from_raw(b.width, b.height, b.data).unwrap();
    image::imageops::flip_horizontal_in_place(&mut img);
    PixelBuffer { width: b.width, height: b.height, channels: 3, data: img.into_raw() }
}

/// Relies on image::imageops::flip_horizontal_in_place for an RGBA image, as for
/// RGB.
#[verifier::external_body]
fn flip_horizontal_rgba(b: PixelBuffer) -> (r: PixelBuffer)
    requires
        b.wf(),
        b.channels == 4,
    ensures
        r.wf(),
        r.channels == 4,
        r.width == b.width,
        r.height == b.height,
        r.grid() == flip_h(b.grid(), b.width as int, b.height as int),
{
    let mut img = image::RgbaImage::from_raw(b.width, b.height, b.data).unwrap();
    image::imageops::flip_horizontal_in_place(&mut img);
    PixelBuffer { width: b.width, height: b.height, channels: 4, data: img.into_raw() }
}

fn rotate90(b: PixelBuffer) -> (r: PixelBuffer)
    requires
        b.wf(),
    ensures
        r.wf(),
        r.channels == b.channels,
        r.width == b.height,
        r.height == b.width,
        r.grid() == rot90(b.grid(), b.width as int, b.height as int),
{
    if b.channels == 3 { rotate90_rgb(b) } else { rotate90_rgba(b) }
}

fn rotate180(b: PixelBuffer) -> (r: PixelBuffer)
    requires
        b.wf(),
    ensures
        r.wf(),
        r.channels == b.channels,
        r.width == b.width,
        r.height == b.height,
        r.grid() == rot180(b.grid(), b.width as int, b.height as int),
{
    if b.channels == 3 { rotate180_rgb(b) } else { rotate180_rgba(b) }
}

fn flip_horizontal(b: PixelBuffer) -> (r: PixelBuffer)
    requires
        b.wf(),
    ensures
        r.wf(),
        r.channels == b.channels,
        r.width == b.width,
        r.height == b.height,
        r.grid() == flip_h(b.grid(), b.width as int, b.height as int),
{
    if b.channels == 3 { flip_horizontal_rgb(b) } else { flip_horizontal_rgba(b) }
}

/// Corrects a buffer for EXIF orientation code `orientation`, whatever its
/// channel layout.
pub fn fix_orientation(image: PixelBuffer, orientation: u32) -> (r: PixelBuffer)
    requires
        image.wf(),
    ensures
        r.wf(),
        r.channels == image.channels,
        (r.grid(), r.width as int, r.height as int)
            == oriented(image.grid(), image.width as int, image.height as int, orientation as int),
{
    if orientation <= 1 || orientation > 8 {
        return image;
    }
    let k: u32 = orientation - 1;
    assert((k & 4u32 != 0) == (k >= 4)) by (bit_vector)
        requires k < 8u32;
    assert((k & 2u32 != 0) == (k % 4 >= 2)) by (bit_vector)
        requires k < 8u32;
    assert((k & 1u32 != 0) == (k % 2 == 1)) by (bit_vector)
        requires k < 8u32;
    let mut img = image;
    if k & 4 != 0 {
        img = rotate90(img);
        img = flip_horizontal(img);
    }
    if k & 2 != 0 {
        img = rotate180(img);
    }
    if k & 1 != 0 {
        img = flip_horizontal(img);
    }
    img
}

/// Corrects an RGB buffer for EXIF orientation code `orientation`.
pub fn fix_orientation_rgb(image: PixelBuffer, orientation: u32) -> (r: PixelBuffer)
    requires
        image.wf(),
        image.channels == 3,
    ensures
        r.wf(),
        r.channels == 3,
        (r.grid(), r.width as int, r.height as int)
            == oriented(image.grid(), image.width as int, image.height as int, orientation as int),
{
    fix_orientation(image, orientation)
}

/// Corrects an RGBA buffer for EXIF orientation code `orientation`.
pub fn fix_orientation_rgba(image: PixelBuffer, orientation: u32) -> (r: PixelBuffer)
    requires
        image.wf(),
        image.channels == 4,
    ensures
        r.wf(),
        r.channels == 4,
        (r.grid(), r.width as int, r.height as int)
            == oriented(image.grid(), image.width as int, image.height as int, orientation as int),
{
    fix_orientation(image, orientation)
}

} // verus!
