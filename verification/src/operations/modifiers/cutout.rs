//! Mask application: the two derived frames of a base frame and its mask
//! frame, and the two derived states of a base state and its mask state.

use crate::frame::copy_from;
use crate::frame::dimensions;
use crate::frame::get_pixel;
use crate::frame::image_dimensions;
use crate::frame::image_holds_rgba8;
use crate::frame::image_pixel;
use crate::frame::new_rgba8;
use crate::frame::picture;
use crate::frame::put_pixel;
use crate::frame::Picture;
use crate::frame::Rgba8;
use crate::sprite::clone_delays;
use crate::sprite::clone_settings;
use crate::sprite::IconState;
use crate::sprite::IconStateView;
use image::DynamicImage;
use image::ImageError;
use vstd::prelude::*;

verus! {

/// The name of a state derived from a base state.
pub open spec fn derived_name(base: Seq<char>, suffix: Seq<char>) -> Seq<char> {
    base + "_"@ + suffix
}

/// Which of the two derived frames is meant.
#[derive(Clone, Copy, Debug, PartialEq, Eq, Structural)]
pub enum Variant {
    /// The base with the region that the mask covers removed.
    Masked,
    /// The base with only the region that the mask covers kept.
    Unmasked,
}

/// Whether a mask pixel covers its place: its alpha is not zero.
pub open spec fn covered(mask: Rgba8) -> bool {
    mask.a != 0
}

/// Whether a variant clears a pixel whose mask pixel is `mask`: the masked
/// variant where the mask covers, the unmasked variant where it does not.
pub open spec fn clears(variant: Variant, mask: Rgba8) -> bool {
    match variant {
        Variant::Masked => covered(mask),
        Variant::Unmasked => !covered(mask),
    }
}

/// What a variant makes of a base pixel whose mask pixel is `mask`.
pub open spec fn cut(variant: Variant, base: Rgba8, mask: Rgba8) -> Rgba8 {
    if clears(variant, mask) {
        Rgba8::transparent()
    } else {
        base
    }
}

impl Variant {
    /// Tells whether the variant clears a pixel whose mask pixel is `mask`.
    pub fn clears(self, mask: Rgba8) -> (clear: bool)
        ensures
            clear == clears(self, mask),
    {
        match self {
            Variant::Masked => mask.a != 0,
            Variant::Unmasked => mask.a == 0,
        }
    }
}

/// The pixel at `(x, y)` of a transparent canvas onto which `base` was copied
/// at its top-left corner.
pub open spec fn copied_at(base: Picture, x: u32, y: u32) -> Rgba8 {
    if base.covers(x, y) {
        base.at(x, y)
    } else {
        Rgba8::transparent()
    }
}

/// The pixel at `(x, y)` of a derived frame: what the variant makes of the
/// copied base pixel where the mask has a pixel, the copied base pixel where
/// it has none.
pub open spec fn derived_at(
    variant: Variant,
    base: Picture,
    mask: Picture,
    x: u32,
    y: u32,
) -> Rgba8 {
    if mask.covers(x, y) {
        cut(variant, copied_at(base, x, y), mask.at(x, y))
    } else {
        copied_at(base, x, y)
    }
}

/// The derived frame of a variant on a canvas of the given size.
pub open spec fn derived_picture(
    variant: Variant,
    base: Picture,
    mask: Picture,
    width: u32,
    height: u32,
) -> Picture {
    Picture {
        width,
        height,
        rgba8: true,
        pixels: Map::new(
            |c: (u32, u32)| c.0 < width && c.1 < height,
            |c: (u32, u32)| derived_at(variant, base, mask, c.0, c.1),
        ),
    }
}

/// Whether a canvas of the given size can be allocated: its four bytes per
/// pixel fit the largest vector.
pub open spec fn canvas_fits_memory(width: u32, height: u32) -> bool {
    4 * width * height <= isize::MAX
}

/// Computes one derived frame of a base frame and its mask frame on a
/// transparent canvas of the given size. Fails exactly when the base frame is
/// wider or taller than the canvas.
pub fn derive_frame(
    variant: Variant,
    base: &DynamicImage,
    mask: &DynamicImage,
    width: u32,
    height: u32,
) -> (r: Result<DynamicImage, ImageError>)
    requires
        canvas_fits_memory(width, height),
    ensures
        r is Ok <==> picture(*base).width <= width && picture(*base).height <= height,
        r matches Ok(frame) ==> picture(frame) == derived_picture(
            variant,
            picture(*base),
            picture(*mask),
            width,
            height,
        ),
{
    let mut frame = new_rgba8(width, height);
    match copy_from(&mut frame, base, 0, 0) {
        Err(e) => {
            return Err(e);
        },
        Ok(()) => {},
    }
    let (mask_width, mask_height) = dimensions(mask);
    let columns: u32 = if mask_width < width {
        mask_width
    } else {
        width
    };
    let rows: u32 = if mask_height < height {
        mask_height
    } else {
        height
    };
    let ghost b = picture(*base);
    let ghost m = picture(*mask);
    let mut y: u32 = 0;
    while y < rows
        invariant
            y <= rows,
            rows <= height,
            rows <= mask_height,
            columns <= width,
            columns <= mask_width,
            rows == height || rows == mask_height,
            columns == width || columns == mask_width,
            (mask_width, mask_height) == image_dimensions(*mask),
            b == picture(*base),
            m == picture(*mask),
            image_dimensions(frame) == (width, height),
            image_holds_rgba8(frame),
            forall|cx: u32, cy: u32|
                cx < width && cy < height ==> #[trigger] image_pixel(frame, cx, cy) == if cy
                    < y {
                    derived_at(variant, b, m, cx, cy)
                } else {
                    copied_at(b, cx, cy)
                },
        decreases rows - y,
    {
        let mut x: u32 = 0;
        while x < columns
            invariant
                y < rows,
                x <= columns,
                rows <= height,
                rows <= mask_height,
                columns <= width,
                columns <= mask_width,
                columns == width || columns == mask_width,
                (mask_width, mask_height) == image_dimensions(*mask),
                b == picture(*base),
                m == picture(*mask),
                image_dimensions(frame) == (width, height),
                image_holds_rgba8(frame),
                forall|cx: u32, cy: u32|
                    cx < width && cy < height ==> #[trigger] image_pixel(frame, cx, cy) == if cy
                        < y || (cy == y && cx < x) {
                        derived_at(variant, b, m, cx, cy)
                    } else {
                        copied_at(b, cx, cy)
                    },
            decreases columns - x,
        {
            if variant.clears(get_pixel(mask, x, y)) {
                put_pixel(&mut frame, x, y, Rgba8::clear());
            }
            x = x + 1;
        }
        y = y + 1;
    }
    Ok(frame)
}

/// The two derived frames split the base frame between them. Take a base
/// frame and a mask frame of one size, a canvas of that size, and any pixel.
/// The masked frame holds the base pixel where the mask's alpha is zero, the
/// unmasked frame where it is not, and each is transparent where the other
/// holds the base pixel.
pub proof fn lemma_pixel_split(base: Picture, mask: Picture, x: u32, y: u32)
    requires
        base.width == mask.width,
        base.height == mask.height,
        base.covers(x, y),
    ensures
        derived_picture(Variant::Masked, base, mask, base.width, base.height).at(x, y) == if mask.at(
            x,
            y,
        ).a != 0 {
            Rgba8::transparent()
        } else {
            base.at(x, y)
        },
        derived_picture(Variant::Unmasked, base, mask, base.width, base.height).at(x, y)
            == if mask.at(x, y).a == 0 {
            Rgba8::transparent()
        } else {
            base.at(x, y)
        },
{
}

/// The two derived frames complement each other. Take a base frame and a
/// mask frame of one size, a canvas of that size, and a pixel at which the
/// base is not transparent itself. Then the masked frame is transparent there
/// exactly if the mask's alpha is not zero, the unmasked frame exactly if it
/// is zero, and so one of the two frames keeps the base pixel and the other
/// is transparent.
pub proof fn lemma_pixel_complement(base: Picture, mask: Picture, x: u32, y: u32)
    requires
        base.width == mask.width,
        base.height == mask.height,
        base.covers(x, y),
        base.at(x, y) != Rgba8::transparent(),
    ensures
        ({
            let masked = derived_picture(Variant::Masked, base, mask, base.width, base.height).at(
                x,
                y,
            );
            let unmasked = derived_picture(
                Variant::Unmasked,
                base,
                mask,
                base.width,
                base.height,
            ).at(x, y);
            &&& masked == Rgba8::transparent() <==> mask.at(x, y).a != 0
            &&& unmasked == Rgba8::transparent() <==> mask.at(x, y).a == 0
            &&& (masked == base.at(x, y)) != (unmasked == base.at(x, y))
            &&& masked == base.at(x, y) ==> unmasked == Rgba8::transparent()
            &&& unmasked == base.at(x, y) ==> masked == Rgba8::transparent()
        }),
{
}

/// Whether some base frame that has a mask frame is wider or taller than the
/// canvas.
pub open spec fn oversized(
    base: IconStateView,
    mask: IconStateView,
    width: u32,
    height: u32,
) -> bool {
    exists|i: int|
        0 <= i < base.images.len() && i < mask.images.len() && !((#[trigger] base.images[i]).width
            <= width && base.images[i].height <= height)
}

/// The derived frames of a variant: one for each place at which both states
/// have a frame.
pub open spec fn derived_pictures(
    variant: Variant,
    base: Seq<Picture>,
    mask: Seq<Picture>,
    width: u32,
    height: u32,
) -> Seq<Picture> {
    Seq::new(
        if base.len() <= mask.len() {
            base.len()
        } else {
            mask.len()
        },
        |i: int| derived_picture(variant, base[i], mask[i], width, height),
    )
}

/// The derived state of a variant: the base state under its derived name and
/// with its derived frames, and nothing else changed.
pub open spec fn derived_state(
    variant: Variant,
    base: IconStateView,
    mask: IconStateView,
    suffix: Seq<char>,
    width: u32,
    height: u32,
) -> IconStateView {
    IconStateView {
        name: derived_name(base.name, suffix),
        images: derived_pictures(variant, base.images, mask.images, width, height),
        ..base
    }
}

/// Computes one derived state of a base state and its mask state. Fails
/// exactly when a base frame that has a mask frame does not fit the canvas.
pub fn derive_state(
    variant: Variant,
    base: &IconState,
    mask: &IconState,
    suffix: &String,
    width: u32,
    height: u32,
) -> (r: Result<IconState, ImageError>)
    requires
        canvas_fits_memory(width, height),
    ensures
        r is Ok <==> !oversized(base@, mask@, width, height),
        r matches Ok(state) ==> state@ == derived_state(
            variant,
            base@,
            mask@,
            suffix@,
            width,
            height,
        ),
{
    let count = if base.images.len() <= mask.images.len() {
        base.images.len()
    } else {
        mask.images.len()
    };
    let mut frames: Vec<DynamicImage> = Vec::new();
    let mut i: usize = 0;
    while i < count
        invariant
            i <= count,
            count <= base.images.len(),
            count <= mask.images.len(),
            canvas_fits_memory(width, height),
            frames.len() == i,
            forall|k: int|
                0 <= k < i ==> picture(#[trigger] frames@[k]) == derived_picture(
                    variant,
                    picture(base.images@[k]),
                    picture(mask.images@[k]),
                    width,
                    height,
                ),
            forall|k: int|
                0 <= k < i ==> (#[trigger] base@.images[k]).width <= width && base@.images[k].height
                    <= height,
        decreases count - i,
    {
        assert(base@.images[i as int] == picture(base.images@[i as int]));
        match derive_frame(variant, &base.images[i], &mask.images[i], width, height) {
            Ok(frame) => {
                frames.push(frame);
            },
            Err(e) => {
                return Err(e);
            },
        }
        i = i + 1;
    }
    let mut name = base.name.clone();
    name.append("_");
    name.append(suffix.as_str());
    let state = IconState {
        name,
        dirs: base.dirs,
        frames: base.frames,
        images: frames,
        delay: match &base.delay {
            Some(d) => Some(clone_delays(d)),
            None => None,
        },
        loop_flag: base.loop_flag,
        rewind: base.rewind,
        movement: base.movement,
        hotspot: base.hotspot,
        unknown_settings: match &base.unknown_settings {
            Some(settings) => Some(clone_settings(settings)),
            None => None,
        },
    };
    Ok(state)
}

} // verus!
