use vstd::prelude::*;

verus! {

/// Bytes per RGBA8 pixel.
pub const BYTES_PER_PIXEL: usize = 4;

/// Index in a row-major RGBA8 buffer of `width` pixels per row and `height`
/// rows of the byte that lands at index `i` once the rows are put in reverse
/// order.
pub open spec fn flipped_index(i: int, width: int, height: int) -> int {
    let row_len = 4 * width;
    (height - 1 - i / row_len) * row_len + i % row_len
}

/// `rgba` with its rows in reverse order.
pub open spec fn flipped(rgba: Seq<u8>, width: int, height: int) -> Seq<u8> {
    Seq::new(rgba.len(), |i: int| rgba[flipped_index(i, width, height)])
}

/// Relies on image::ImageBuffer::from_raw and image::imageops::flip_vertical:
/// pixel (x, y) of the result is pixel (x, height - 1 - y) of the input, in a
/// row-major buffer of four bytes per pixel.
#[verifier::external_body]
fn flip_rows(width: u32, height: u32, rgba: Vec<u8>) -> (r: Vec<u8>)
    requires
        rgba@.len() == 4 * width * height,
    ensures
        r@ == flipped(rgba@, width as int, height as int),
{
    match image::RgbaImage::from_raw(width, height, rgba) {
        Some(img) => image::imageops::flip_vertical(&img).into_raw(),
        None => Vec::new(),
    }
}

/// Decoded texture pixels, bottom row first.
pub struct TextureData {
    width: u32,
    height: u32,
    rgba: Vec<u8>,
}

impl TextureData {
    pub closed spec fn width_view(&self) -> u32 {
        self.width
    }

    pub closed spec fn height_view(&self) -> u32 {
        self.height
    }

    pub closed spec fn pixels_view(&self) -> Seq<u8> {
        self.rgba@
    }

    pub open spec fn wf(&self) -> bool {
        self.pixels_view().len() == 4 * self.width_view() * self.height_view()
    }

    /// Takes a decoded RGBA8 image, top row first, and stores it bottom row
    /// first. `None` when `rgba` does not hold exactly `width * height` pixels.
    pub fn from_decoded(width: u32, height: u32, rgba: Vec<u8>) -> (r: Option<TextureData>)
        ensures
            r is Some <==> rgba@.len() == 4 * width * height,
            r matches Some(t) ==> t.wf() && t.width_view() == width && t.height_view() == height
                && t.pixels_view() == flipped(rgba@, width as int, height as int),
    {
        let w = width as u128;
        let h = height as u128;
        assert(w * h <= 0xffff_ffff_ffff_ffff_ffff_ffff) by (nonlinear_arith)
            requires
                w <= 0xffff_ffff,
                h <= 0xffff_ffff,
        ;
        assert(4 * (w * h) == 4 * width * height) by (nonlinear_arith)
            requires
                w == width,
                h == height,
        ;
        let need: u128 = 4 * (w * h);
        if rgba.len() as u128 != need {
            return None;
        }
        let pixels = flip_rows(width, height, rgba);
        Some(TextureData { width, height, rgba: pixels })
    }

    pub fn width(&self) -> (r: u32)
        ensures
            r == self.width_view(),
    {
        self.width
    }

    pub fn height(&self) -> (r: u32)
        ensures
            r == self.height_view(),
    {
        self.height
    }

    pub fn pixels(&self) -> (r: &Vec<u8>)
        ensures
            r@ == self.pixels_view(),
    {
        &self.rgba
    }
}

} // verus!
