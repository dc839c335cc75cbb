//! Frame images.
//!
//! A frame is an `image::DynamicImage`. The proofs cannot look inside one, so
//! this module names what the contracts need of it (its dimensions, its
//! pixels read as 8-bit RGBA, whether it stores 8-bit RGBA) and states, for
//! each `image` function the library calls, what that function does to those
//! names. Those statements are trusted, not proved.

use image::DynamicImage;
use image::GenericImage;
use image::GenericImageView;
use image::ImageError;
use vstd::prelude::*;

verus! {

/// Declares `image::DynamicImage` as a type whose inside the proofs do not
/// see.
#[verifier::external_type_specification]
#[verifier::external_body]
pub struct ExDynamicImage(image::DynamicImage);

/// Declares `image::ImageError` as a type whose inside the proofs do not see.
#[verifier::external_type_specification]
#[verifier::external_body]
pub struct ExImageError(image::ImageError);

/// One pixel as four 8-bit channels.
#[derive(Clone, Copy, Debug, PartialEq, Eq, Structural)]
pub struct Rgba8 {
    pub r: u8,
    pub g: u8,
    pub b: u8,
    pub a: u8,
}

impl Rgba8 {
    /// The fully transparent pixel.
    pub open spec fn transparent() -> Rgba8 {
        Rgba8 { r: 0, g: 0, b: 0, a: 0 }
    }

    /// Returns the fully transparent pixel.
    pub fn clear() -> (p: Rgba8)
        ensures
            p == Rgba8::transparent(),
    {
        Rgba8 { r: 0, g: 0, b: 0, a: 0 }
    }
}

/// Width and height of an image, as `GenericImageView::dimensions` reports them.
pub uninterp spec fn image_dimensions(img: DynamicImage) -> (u32, u32);

/// The pixel of an image at `(x, y)`, as `GenericImageView::get_pixel` returns
/// it. It means something inside the image's dimensions only.
pub uninterp spec fn image_pixel(img: DynamicImage, x: u32, y: u32) -> Rgba8;

/// Whether the image stores 8-bit RGBA pixels (the variant `ImageRgba8`), so
/// that a pixel written with `GenericImage::put_pixel` is read back unchanged.
pub uninterp spec fn image_holds_rgba8(img: DynamicImage) -> bool;

/// Trusted: `GenericImageView::dimensions` of a `DynamicImage`. It reads the
/// width and height of the underlying buffer; the contract only names them.
#[verifier::external_body]
pub(crate) fn dimensions(img: &DynamicImage) -> (d: (u32, u32))
    ensures
        d == image_dimensions(*img),
{
    img.dimensions()
}

/// Trusted: `DynamicImage::new_rgba8`. It allocates a zeroed 8-bit RGBA
/// buffer of the given size, and panics where `4 * width * height` bytes
/// cannot be allocated as a vector.
#[verifier::external_body]
pub(crate) fn new_rgba8(width: u32, height: u32) -> (img: DynamicImage)
    requires
        4 * width * height <= isize::MAX,
    ensures
        image_dimensions(img) == (width, height),
        image_holds_rgba8(img),
        forall|x: u32, y: u32|
            x < width && y < height ==> #[trigger] image_pixel(img, x, y)
                == Rgba8::transparent(),
{
    DynamicImage::new_rgba8(width, height)
}

/// Trusted: `GenericImageView::get_pixel` of a `DynamicImage`. It panics
/// outside the image; inside, the contract names what it returns.
#[verifier::external_body]
pub(crate) fn get_pixel(img: &DynamicImage, x: u32, y: u32) -> (p: Rgba8)
    requires
        x < image_dimensions(*img).0,
        y < image_dimensions(*img).1,
    ensures
        p == image_pixel(*img, x, y),
{
    let px = img.get_pixel(x, y).0;
    Rgba8 { r: px[0], g: px[1], b: px[2], a: px[3] }
}

/// Trusted: `GenericImage::put_pixel` of a `DynamicImage`. It panics outside
/// the image. On an 8-bit RGBA image it stores the pixel as given and touches
/// nothing else.
#[verifier::external_body]
pub(crate) fn put_pixel(img: &mut DynamicImage, x: u32, y: u32, p: Rgba8)
    requires
        image_holds_rgba8(*old(img)),
        x < image_dimensions(*old(img)).0,
        y < image_dimensions(*old(img)).1,
    ensures
        image_dimensions(*final(img)) == image_dimensions(*old(img)),
        image_holds_rgba8(*final(img)),
        forall|cx: u32, cy: u32|
            cx < image_dimensions(*old(img)).0 && cy < image_dimensions(*old(img)).1
                ==> #[trigger] image_pixel(*final(img), cx, cy) == if cx == x && cy == y {
                p
            } else {
                image_pixel(*old(img), cx, cy)
            },
{
    img.put_pixel(x, y, image::Rgba([p.r, p.g, p.b, p.a]))
}

/// Trusted: `GenericImage::copy_from` with a `DynamicImage` on both sides.
/// It fails, before it writes anything, unless `src` placed at `(x, y)` lies
/// inside `dst`; otherwise it writes every pixel of `src`, as `get_pixel`
/// reads it, to its place in `dst`, which keeps it as given when it stores
/// 8-bit RGBA.
#[verifier::external_body]
pub(crate) fn copy_from(dst: &mut DynamicImage, src: &DynamicImage, x: u32, y: u32) -> (r: Result<
    (),
    ImageError,
>)
    requires
        image_holds_rgba8(*old(dst)),
    ensures
        image_dimensions(*final(dst)) == image_dimensions(*old(dst)),
        image_holds_rgba8(*final(dst)),
        r is Ok <==> fits_at(image_dimensions(*src), image_dimensions(*old(dst)), x, y),
        forall|cx: u32, cy: u32|
            cx < image_dimensions(*old(dst)).0 && cy < image_dimensions(*old(dst)).1
                ==> #[trigger] image_pixel(*final(dst), cx, cy) == if r is Ok && covers_at(
                image_dimensions(*src),
                x,
                y,
                cx,
                cy,
            ) {
                image_pixel(*src, (cx - x) as u32, (cy - y) as u32)
            } else {
                image_pixel(*old(dst), cx, cy)
            },
{
    dst.copy_from(src, x, y)
}

/// Trusted: `Clone::clone` of a `DynamicImage`. The copy has the same storage
/// format, the same dimensions and the same pixels.
#[verifier::external_body]
pub(crate) fn clone_image(img: &DynamicImage) -> (copy: DynamicImage)
    ensures
        image_dimensions(copy) == image_dimensions(*img),
        image_holds_rgba8(copy) == image_holds_rgba8(*img),
        forall|x: u32, y: u32|
            x < image_dimensions(*img).0 && y < image_dimensions(*img).1 ==> #[trigger] image_pixel(
                copy,
                x,
                y,
            ) == image_pixel(*img, x, y),
{
    img.clone()
}

/// Trusted: `ToString::to_string` of an `image::ImageError`, its `Display`
/// text. Nothing is claimed of the text.
#[verifier::external_body]
pub(crate) fn image_error_text(e: &ImageError) -> (text: String) {
    e.to_string()
}

/// What a frame is to the contracts: its dimensions, whether it stores 8-bit
/// RGBA, and its pixels inside those dimensions.
#[verifier::ext_equal]
pub struct Picture {
    pub width: u32,
    pub height: u32,
    pub rgba8: bool,
    pub pixels: Map<(u32, u32), Rgba8>,
}

impl Picture {
    /// Whether `(x, y)` lies inside the picture.
    pub open spec fn covers(self, x: u32, y: u32) -> bool {
        x < self.width && y < self.height
    }

    /// The pixel at `(x, y)`; meaningful inside the picture only.
    pub open spec fn at(self, x: u32, y: u32) -> Rgba8 {
        self.pixels[(x, y)]
    }
}

/// The picture that an image holds.
pub open spec fn picture(img: DynamicImage) -> Picture {
    Picture {
        width: image_dimensions(img).0,
        height: image_dimensions(img).1,
        rgba8: image_holds_rgba8(img),
        pixels: Map::new(
            |c: (u32, u32)| c.0 < image_dimensions(img).0 && c.1 < image_dimensions(img).1,
            |c: (u32, u32)| image_pixel(img, c.0, c.1),
        ),
    }
}

/// The pictures that a list of images holds, in order.
pub open spec fn pictures(imgs: Seq<DynamicImage>) -> Seq<Picture> {
    imgs.map_values(|img: DynamicImage| picture(img))
}

/// Whether an image of dimensions `inner`, its top-left corner at `(x, y)`,
/// lies inside an image of dimensions `outer`.
pub open spec fn fits_at(inner: (u32, u32), outer: (u32, u32), x: u32, y: u32) -> bool {
    inner.0 + x <= outer.0 && inner.1 + y <= outer.1
}

/// Whether an image of dimensions `inner`, its top-left corner at `(x, y)`,
/// covers the point `(cx, cy)`.
pub open spec fn covers_at(inner: (u32, u32), x: u32, y: u32, cx: u32, cy: u32) -> bool {
    x <= cx < x + inner.0 && y <= cy < y + inner.1
}

} // verus!
