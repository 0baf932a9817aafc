//! Images as RGBA8 pixel buffers, and the edits the viewer makes to them:
//! flipping, rotating, cropping to the selection and resizing.

use vstd::prelude::*;
use crate::selection::SelectionRect;
use crate::text::str_eq;

verus! {

/// Index of channel `c` of pixel `(x, y)` in a row-major RGBA8 buffer whose
/// rows are `width` pixels long.
pub open spec fn pixel_index(width: int, x: int, y: int, c: int) -> int {
    4 * (y * width + x) + c
}

/// Length of an RGBA8 buffer of `width` by `height` pixels.
pub open spec fn buffer_len(width: int, height: int) -> int {
    4 * (width * height)
}

/// Pixel `(x, y)` of `src` is channel for channel pixel `(sx, sy)` of `from`.
pub open spec fn same_pixel(src: Seq<u8>, sw: int, x: int, y: int, from: Seq<u8>, fw: int, sx: int, sy: int) -> bool {
    forall|c: int| 0 <= c < 4 ==> #[trigger] src[pixel_index(sw, x, y, c)] == from[pixel_index(fw, sx, sy, c)]
}

/// An image of `width` by `height` RGBA8 pixels, stored row by row.
#[derive(Debug)]
pub struct RgbaImage {
    width: u32,
    height: u32,
    pixels: Vec<u8>,
}

impl RgbaImage {
    /// The buffer holds exactly one RGBA8 value per pixel.
    #[verifier::type_invariant]
    spec fn buffer_fits(self) -> bool {
        self.pixels@.len() == buffer_len(self.width as int, self.height as int)
    }
}

impl View for RgbaImage {
    /// Width, height and the bytes of the pixels.
    type V = (u32, u32, Seq<u8>);

    closed spec fn view(&self) -> (u32, u32, Seq<u8>) {
        (self.width, self.height, self.pixels@)
    }
}

/// `pixels` is an RGBA8 buffer of `width` by `height` pixels.
pub open spec fn fits(width: u32, height: u32, pixels: Seq<u8>) -> bool {
    pixels.len() == buffer_len(width as int, height as int)
}

/// Whether `len` is the length of an RGBA8 buffer of `width` by `height`.
fn has_buffer_len(width: u32, height: u32, len: usize) -> (r: bool)
    ensures
        r == (len == buffer_len(width as int, height as int)),
{
    let w: u128 = width as u128;
    let h: u128 = height as u128;
    assert(w * h <= 0xffff_ffff_ffff_ffff_ffff_ffff) by (nonlinear_arith)
        requires
            w <= 0xffff_ffff,
            h <= 0xffff_ffff,
    ;
    let n: u128 = w * h;
    (len as u128) == 4 * n
}

impl RgbaImage {
    /// An image over the buffer, if its length is that of `width` by
    /// `height` RGBA8 pixels.
    pub fn from_raw(width: u32, height: u32, pixels: Vec<u8>) -> (r: Option<RgbaImage>)
        ensures
            r is Some <==> fits(width, height, pixels@),
            r matches Some(img) ==> img@ == (width, height, pixels@),
    {
        if has_buffer_len(width, height, pixels.len()) {
            Some(RgbaImage { width, height, pixels })
        } else {
            None
        }
    }

    pub fn width(&self) -> (r: u32)
        ensures
            r == self@.0,
            fits(self@.0, self@.1, self@.2),
    {
        proof {
            use_type_invariant(self);
        }
        self.width
    }

    pub fn height(&self) -> (r: u32)
        ensures
            r == self@.1,
    {
        self.height
    }

    pub fn pixels(&self) -> (r: &Vec<u8>)
        ensures
            r@ == self@.2,
    {
        &self.pixels
    }

    pub fn into_pixels(self) -> (r: Vec<u8>)
        ensures
            r@ == self@.2,
    {
        self.pixels
    }
}

/// Calls `image::imageops::flip_horizontal_in_place` on the buffer read as
/// an `image::RgbaImage`. That function swaps pixel `(x, y)` with pixel
/// `(width - 1 - x, y)` for each `x < width / 2`, so pixel `(x, y)` of the
/// result is pixel `(width - 1 - x, y)` of the input, and the size is kept.
#[verifier::external_body]
fn flip_horizontal_raw(width: u32, height: u32, pixels: Vec<u8>) -> (r: Vec<u8>)
    requires
        fits(width, height, pixels@),
    ensures
        fits(width, height, r@),
        forall|x: int, y: int|
            0 <= x < width && 0 <= y < height ==> #[trigger] same_pixel(
                r@,
                width as int,
                x,
                y,
                pixels@,
                width as int,
                width - 1 - x,
                y,
            ),
{
    let mut img = image::RgbaImage::from_raw(width, height, pixels).unwrap();
    image::imageops::flip_horizontal_in_place(&mut img);
    img.into_raw()
}

/// Calls `image::imageops::rotate90` on the buffer read as an
/// `image::RgbaImage`. That function makes a `height` by `width` image and
/// writes input pixel `(x, y)` to `(height - 1 - y, x)`, so pixel `(x, y)` of
/// the result is input pixel `(y, height - 1 - x)`.
#[verifier::external_body]
fn rotate90_raw(width: u32, height: u32, pixels: Vec<u8>) -> (r: Vec<u8>)
    requires
        fits(width, height, pixels@),
    ensures
        fits(height, width, r@),
        forall|x: int, y: int|
            0 <= x < height && 0 <= y < width ==> #[trigger] same_pixel(
                r@,
                height as int,
                x,
                y,
                pixels@,
                width as int,
                y,
                height - 1 - x,
            ),
{
    let img = image::RgbaImage::from_raw(width, height, pixels).unwrap();
    image::imageops::rotate90(&img).into_raw()
}

pub open spec fn min_u32(a: u32, b: u32) -> u32 {
    if a <= b {
        a
    } else {
        b
    }
}

/// Where a crop starting at `at` begins, on an axis of `size` pixels: the
/// start is moved back onto the image.
pub open spec fn crop_start(size: u32, at: u32) -> u32 {
    min_u32(at, size)
}

/// How long a crop of `len` pixels starting at `at` is, on an axis of `size`
/// pixels: it is cut at the image's edge.
pub open spec fn crop_len(size: u32, at: u32, len: u32) -> u32 {
    min_u32(len, (size - crop_start(size, at)) as u32)
}

/// Calls `image::imageops::crop_imm` on the buffer read as an
/// `image::RgbaImage`, then `SubImage::to_image`. `crop_imm` first moves the
/// rectangle onto the image (`crop_start`, `crop_len`, as its `crop_dimms`
/// computes them); `to_image` copies the pixels under it into a new image of
/// the rectangle's size, whose width, height and buffer are returned.
#[verifier::external_body]
fn crop_raw(width: u32, height: u32, pixels: &Vec<u8>, x: u32, y: u32, w: u32, h: u32) -> (r: (
    u32,
    u32,
    Vec<u8>,
))
    requires
        fits(width, height, pixels@),
    ensures
        r.0 == crop_len(width, x, w),
        r.1 == crop_len(height, y, h),
        fits(r.0, r.1, r.2@),
        forall|i: int, j: int|
            0 <= i < r.0 && 0 <= j < r.1 ==> #[trigger] same_pixel(
                r.2@,
                r.0 as int,
                i,
                j,
                pixels@,
                width as int,
                i + crop_start(width, x),
                j + crop_start(height, y),
            ),
{
    let img = image::RgbaImage::from_raw(width, height, pixels.clone()).unwrap();
    let out = image::imageops::crop_imm(&img, x, y, w, h).to_image();
    (out.width(), out.height(), out.into_raw())
}

impl RgbaImage {
    /// The image mirrored left to right.
    pub fn flip_horizontal(self) -> (r: RgbaImage)
        ensures
            r@.0 == self@.0,
            r@.1 == self@.1,
            forall|x: int, y: int|
                0 <= x < self@.0 && 0 <= y < self@.1 ==> #[trigger] same_pixel(
                    r@.2,
                    self@.0 as int,
                    x,
                    y,
                    self@.2,
                    self@.0 as int,
                    self@.0 - 1 - x,
                    y,
                ),
    {
        proof {
            use_type_invariant(&self);
        }
        let RgbaImage { width, height, pixels } = self;
        let flipped = flip_horizontal_raw(width, height, pixels);
        RgbaImage { width, height, pixels: flipped }
    }

    /// The image turned a quarter turn clockwise: its width is the old
    /// height, and the top row is the old left column read from the bottom.
    pub fn rotate_right(self) -> (r: RgbaImage)
        ensures
            r@.0 == self@.1,
            r@.1 == self@.0,
            forall|x: int, y: int|
                0 <= x < self@.1 && 0 <= y < self@.0 ==> #[trigger] same_pixel(
                    r@.2,
                    self@.1 as int,
                    x,
                    y,
                    self@.2,
                    self@.0 as int,
                    y,
                    self@.1 - 1 - x,
                ),
    {
        proof {
            use_type_invariant(&self);
        }
        let RgbaImage { width, height, pixels } = self;
        let rotated = rotate90_raw(width, height, pixels);
        RgbaImage { width: height, height: width, pixels: rotated }
    }

    /// The part of the image under the selection, cut at the image's edges,
    /// or `None` for a selection without area.
    pub fn crop(&self, sel: SelectionRect) -> (r: Option<RgbaImage>)
        ensures
            r is Some <==> (sel.w > 0 && sel.h > 0),
            r matches Some(img) ==> {
                &&& img@.0 == crop_len(self@.0, sel.x, sel.w)
                &&& img@.1 == crop_len(self@.1, sel.y, sel.h)
                &&& forall|i: int, j: int|
                    0 <= i < img@.0 && 0 <= j < img@.1 ==> #[trigger] same_pixel(
                        img@.2,
                        img@.0 as int,
                        i,
                        j,
                        self@.2,
                        self@.0 as int,
                        i + crop_start(self@.0, sel.x),
                        j + crop_start(self@.1, sel.y),
                    )
            },
    {
        proof {
            use_type_invariant(self);
        }
        if sel.w > 0 && sel.h > 0 {
            let (w, h, pixels) = crop_raw(self.width, self.height, &self.pixels, sel.x, sel.y, sel.w, sel.h);
            Some(RgbaImage { width: w, height: h, pixels })
        } else {
            None
        }
    }
}

/// The filter a resize samples with.
#[derive(Clone, Copy, Debug, PartialEq, Eq, Structural)]
pub enum Interpolation {
    Nearest,
    Triangle,
    CatmullRom,
    Gaussian,
    Lanczos3,
}

impl Interpolation {
    /// The filter chosen by its name in the resize dialog; any other name
    /// chooses `Lanczos3`.
    pub fn from_name(name: &str) -> (r: Interpolation)
        ensures
            r == (if name@ == "Nearest"@ {
                Interpolation::Nearest
            } else if name@ == "Triangle"@ {
                Interpolation::Triangle
            } else if name@ == "CatmullRom"@ {
                Interpolation::CatmullRom
            } else if name@ == "Gaussian"@ {
                Interpolation::Gaussian
            } else {
                Interpolation::Lanczos3
            }),
    {
        if str_eq(name, "Nearest") {
            Interpolation::Nearest
        } else if str_eq(name, "Triangle") {
            Interpolation::Triangle
        } else if str_eq(name, "CatmullRom") {
            Interpolation::CatmullRom
        } else if str_eq(name, "Gaussian") {
            Interpolation::Gaussian
        } else {
            Interpolation::Lanczos3
        }
    }
}

/// The pixels `image::imageops::resize` computes for an RGBA8 image of
/// `width` by `height` resampled to `nwidth` by `nheight` with `filter`.
pub uninterp spec fn resized_pixels(
    pixels: Seq<u8>,
    width: u32,
    height: u32,
    nwidth: u32,
    nheight: u32,
    filter: Interpolation,
) -> Seq<u8>;

/// Calls `image::imageops::resize` on the buffer read as an
/// `image::RgbaImage`, with the `FilterType` of the same name as `filter`.
/// The result is a new `nwidth` by `nheight` image, named `resized_pixels`;
/// from an image without pixels it is that image left at zero, and at the
/// input's own size it is a copy of the input. `ImageBuffer::new` panics where the buffer
/// length of the result, or of the intermediate `width` by `nheight` image,
/// overflows `usize`, which `requires` rules out.
#[verifier::external_body]
fn resize_raw(
    width: u32,
    height: u32,
    pixels: &Vec<u8>,
    nwidth: u32,
    nheight: u32,
    filter: Interpolation,
) -> (r: Vec<u8>)
    requires
        fits(width, height, pixels@),
        buffer_len(nwidth as int, nheight as int) <= usize::MAX,
        buffer_len(width as int, nheight as int) <= usize::MAX,
    ensures
        fits(nwidth, nheight, r@),
        r@ == resized_pixels(pixels@, width, height, nwidth, nheight, filter),
        (width == 0 || height == 0) ==> forall|i: int| 0 <= i < r@.len() ==> #[trigger] r@[i] == 0,
        (width > 0 && height > 0 && nwidth == width && nheight == height) ==> r@ == pixels@,
{
    let img = image::RgbaImage::from_raw(width, height, pixels.clone()).unwrap();
    let filter_type = match filter {
        Interpolation::Nearest => image::imageops::FilterType::Nearest,
        Interpolation::Triangle => image::imageops::FilterType::Triangle,
        Interpolation::CatmullRom => image::imageops::FilterType::CatmullRom,
        Interpolation::Gaussian => image::imageops::FilterType::Gaussian,
        Interpolation::Lanczos3 => image::imageops::FilterType::Lanczos3,
    };
    image::imageops::resize(&img, nwidth, nheight, filter_type).into_raw()
}

impl RgbaImage {
    /// The image resampled to `nwidth` by `nheight` pixels with `filter`
    /// (the pixels `resized_pixels` names). At the image's own size the
    /// pixels are kept.
    pub fn resize(&self, nwidth: u32, nheight: u32, filter: Interpolation) -> (r: RgbaImage)
        requires
            buffer_len(nwidth as int, nheight as int) <= usize::MAX,
            buffer_len(self@.0 as int, nheight as int) <= usize::MAX,
        ensures
            r@.0 == nwidth,
            r@.1 == nheight,
            r@.2 == resized_pixels(self@.2, self@.0, self@.1, nwidth, nheight, filter),
            (self@.0 > 0 && self@.1 > 0 && nwidth == self@.0 && nheight == self@.1) ==> r@.2 == self@.2,
            (self@.0 == 0 || self@.1 == 0) ==> forall|i: int| 0 <= i < r@.2.len() ==> #[trigger] r@.2[i] == 0,
    {
        proof {
            use_type_invariant(self);
        }
        let pixels = resize_raw(self.width, self.height, &self.pixels, nwidth, nheight, filter);
        RgbaImage { width: nwidth, height: nheight, pixels }
    }
}

/// `v`, or 1 when `v` is 0.
pub open spec fn at_least_one(v: u32) -> u32 {
    if v == 0 {
        1
    } else {
        v
    }
}

/// The width, height and pixels `DynamicImage::thumbnail` gives for an RGBA8
/// image of `width` by `height` fitted within `max_w` by `max_h`.
pub uninterp spec fn thumbnail_of(pixels: Seq<u8>, width: u32, height: u32, max_w: u32, max_h: u32) -> (
    u32,
    u32,
    Seq<u8>,
);

/// Calls `DynamicImage::thumbnail` on the buffer read as an RGBA8 image, and
/// returns the result's width, height and buffer. It scales the image, its
/// aspect ratio kept, to the largest size that fits within `max_w` by
/// `max_h` (each side at least 1 pixel), then samples it with
/// `imageops::thumbnail`; the result is named `thumbnail_of`.
/// `ImageBuffer::new` panics where the result's buffer length overflows
/// `usize`, which `requires` rules out.
#[verifier::external_body]
fn thumbnail_raw(width: u32, height: u32, pixels: &Vec<u8>, max_w: u32, max_h: u32) -> (r: (
    u32,
    u32,
    Vec<u8>,
))
    requires
        fits(width, height, pixels@),
        buffer_len(at_least_one(max_w) as int, at_least_one(max_h) as int) <= usize::MAX,
    ensures
        fits(r.0, r.1, r.2@),
        (r.0, r.1, r.2@) == thumbnail_of(pixels@, width, height, max_w, max_h),
        1 <= r.0 <= at_least_one(max_w),
        1 <= r.1 <= at_least_one(max_h),
{
    let img = image::RgbaImage::from_raw(width, height, pixels.clone()).unwrap();
    let out = image::DynamicImage::ImageRgba8(img).thumbnail(max_w, max_h).to_rgba8();
    (out.width(), out.height(), out.into_raw())
}

impl RgbaImage {
    /// The image scaled down (or up) to fit within `max_w` by `max_h`, its
    /// aspect ratio kept: the thumbnail `thumbnail_of` names.
    pub fn thumbnail(&self, max_w: u32, max_h: u32) -> (r: RgbaImage)
        requires
            buffer_len(at_least_one(max_w) as int, at_least_one(max_h) as int) <= usize::MAX,
        ensures
            r@ == thumbnail_of(self@.2, self@.0, self@.1, max_w, max_h),
            1 <= r@.0 <= at_least_one(max_w),
            1 <= r@.1 <= at_least_one(max_h),
    {
        proof {
            use_type_invariant(self);
        }
        let (w, h, pixels) = thumbnail_raw(self.width, self.height, &self.pixels, max_w, max_h);
        RgbaImage { width: w, height: h, pixels }
    }
}

/// The image `image::load_from_memory` decodes from the bytes of a file
/// (its format guessed from the bytes), as RGBA8 width, height and pixels;
/// `None` when the bytes do not decode.
pub uninterp spec fn decoded_rgba(bytes: Seq<u8>) -> Option<(u32, u32, Seq<u8>)>;

/// Calls `image::load_from_memory` and turns the decoded image into RGBA8
/// with `DynamicImage::to_rgba8`; the outcome is named `decoded_rgba`.
#[verifier::external_body]
fn decode_raw(bytes: &[u8]) -> (r: Option<(u32, u32, Vec<u8>)>)
    ensures
        match r {
            Some(t) => fits(t.0, t.1, t.2@) && decoded_rgba(bytes@) == Some((t.0, t.1, t.2@)),
            None => decoded_rgba(bytes@) is None,
        },
{
    match image::load_from_memory(bytes) {
        Ok(img) => {
            let rgba = img.to_rgba8();
            Some((rgba.width(), rgba.height(), rgba.into_raw()))
        },
        Err(_) => None,
    }
}

/// The image stored in the bytes of a file, as RGBA8 pixels, or `None` when
/// they do not decode.
pub fn decode_rgba(bytes: &[u8]) -> (r: Option<RgbaImage>)
    ensures
        match r {
            Some(img) => decoded_rgba(bytes@) == Some(img@),
            None => decoded_rgba(bytes@) is None,
        },
{
    match decode_raw(bytes) {
        Some((width, height, pixels)) => Some(RgbaImage { width, height, pixels }),
        None => None,
    }
}

/// Index in a decoder's plane of channel `c` of pixel `(x, y)`, where rows
/// start every `stride` bytes and hold 4 bytes per pixel.
pub open spec fn plane_index(stride: int, x: int, y: int, c: int) -> int {
    y * stride + 4 * x + c
}

/// Every row of a `width` by `height` plane with rows `stride` bytes apart
/// lies within `len` bytes, and the row starts fit in `usize`.
pub open spec fn plane_fits(len: int, width: int, height: int, stride: int) -> bool {
    height == 0 || {
        &&& (height - 1) * stride <= usize::MAX
        &&& (width == 0 || (height - 1) * stride + 4 * width <= len)
    }
}

/// Pixel `(x, y)` of the packed buffer `out` holds the 4 bytes of pixel
/// `(x, y)` of the plane `data`.
pub open spec fn copied_from_plane(out: Seq<u8>, width: int, data: Seq<u8>, stride: int, x: int, y: int) -> bool {
    forall|c: int| 0 <= c < 4 ==> #[trigger] out[pixel_index(width, x, y, c)] == data[plane_index(stride, x, y, c)]
}

proof fn lemma_pixel_before(width: int, xx: int, yy: int, c: int, x: int, y: int)
    requires
        0 <= xx < width,
        0 <= yy,
        0 <= c < 4,
        0 <= x <= width,
        yy < y || (yy == y && xx < x),
    ensures
        0 <= pixel_index(width, xx, yy, c) < 4 * (y * width + x),
{
    if yy < y {
        assert(yy * width + xx < y * width) by (nonlinear_arith)
            requires
                0 <= xx < width,
                yy < y,
        ;
    }
    assert(0 <= yy * width) by (nonlinear_arith)
        requires
            0 <= yy,
            0 <= width,
    ;
}

proof fn lemma_row_start(y: int, height: int, stride: int)
    requires
        0 <= y < height,
        0 <= stride,
    ensures
        0 <= y * stride <= (height - 1) * stride,
{
    assert(0 <= y * stride <= (height - 1) * stride) by (nonlinear_arith)
        requires
            0 <= y < height,
            0 <= stride,
    ;
}

/// Packs a decoded RGBA plane whose rows start every `stride` bytes into a
/// buffer of `width` by `height` pixels without gaps between rows.
pub fn pack_rgba_plane(data: &[u8], width: u32, height: u32, stride: usize) -> (r: Vec<u8>)
    requires
        plane_fits(data@.len() as int, width as int, height as int, stride as int),
    ensures
        fits(width, height, r@),
        forall|x: int, y: int|
            0 <= x < width && 0 <= y < height ==> #[trigger] copied_from_plane(
                r@,
                width as int,
                data@,
                stride as int,
                x,
                y,
            ),
{
    let ghost w = width as int;
    let ghost s = stride as int;
    let mut res: Vec<u8> = Vec::new();
    let mut y: u32 = 0;
    while y < height
        invariant
            y <= height,
            plane_fits(data@.len() as int, w, height as int, s),
            w == width,
            s == stride,
            res@.len() == 4 * (y * w),
            forall|xx: int, yy: int|
                0 <= xx < w && 0 <= yy < y ==> #[trigger] copied_from_plane(res@, w, data@, s, xx, yy),
        decreases height - y,
    {
        proof {
            lemma_row_start(y as int, height as int, s);
        }
        let mut step: usize = (y as usize) * stride;
        let mut x: u32 = 0;
        while x < width
            invariant
                x <= width,
                y < height,
                plane_fits(data@.len() as int, w, height as int, s),
                w == width,
                s == stride,
                0 <= y * s <= (height - 1) * s,
                step == y * s + 4 * x,
                res@.len() == 4 * (y * w + x),
                forall|xx: int, yy: int|
                    0 <= xx < w && (0 <= yy < y || (yy == y && xx < x)) ==> #[trigger] copied_from_plane(
                        res@,
                        w,
                        data@,
                        s,
                        xx,
                        yy,
                    ),
            decreases width - x,
        {
            let ghost before = res@;
            res.push(data[step]);
            res.push(data[step + 1]);
            res.push(data[step + 2]);
            res.push(data[step + 3]);
            proof {
                assert forall|xx: int, yy: int|
                    0 <= xx < w && (0 <= yy < y || (yy == y && xx < x + 1)) implies #[trigger] copied_from_plane(
                        res@,
                        w,
                        data@,
                        s,
                        xx,
                        yy,
                    ) by {
                    if yy == y && xx == x {
                        assert forall|c: int| 0 <= c < 4 implies #[trigger] res@[pixel_index(w, xx, yy, c)]
                            == data@[plane_index(s, xx, yy, c)] by {
                            assert(pixel_index(w, xx, yy, c) == before.len() + c);
                        }
                    } else {
                        assert(copied_from_plane(before, w, data@, s, xx, yy));
                        assert forall|c: int| 0 <= c < 4 implies #[trigger] res@[pixel_index(w, xx, yy, c)]
                            == data@[plane_index(s, xx, yy, c)] by {
                            lemma_pixel_before(w, xx, yy, c, x as int, y as int);
                            assert(res@[pixel_index(w, xx, yy, c)] == before[pixel_index(w, xx, yy, c)]);
                        }
                    }
                }
            }
            step = step + 4;
            x = x + 1;
        }
        proof {
            assert(4 * (y * w + w) == 4 * ((y + 1) * w)) by (nonlinear_arith);
        }
        y = y + 1;
    }
    proof {
        assert(4 * (y * w) == buffer_len(w, height as int)) by (nonlinear_arith)
            requires
                y == height,
        ;
    }
    res
}

} // verus!
