//! What this crate takes on trust about the `image` crate.
//!
//! Photos and pages are raster images that `image` owns. Nothing here looks
//! inside one: each is known by its extent (width and height in pixels) and
//! by its samples, the red, green, blue and alpha value of every pixel, row
//! by row from the top left. The functions at the end of the file call
//! `image`; their contracts are believed, not proved.

use vstd::prelude::*;
use image::DynamicImage;

verus! {

/// `image::DynamicImage`: a decoded image of any pixel type, taken as it is.
#[verifier::external_type_specification]
#[verifier::external_body]
pub struct ExDynamicImage(DynamicImage);

/// A page under composition: an `image::RgbaImage`, four 8-bit samples to
/// the pixel. It is kept behind this type because the buffer type of `image`
/// is bound by one of its traits and cannot be declared on its own.
#[verifier::external_body]
pub struct Page {
    buffer: image::RgbaImage,
}

/// Width and height of a photo in pixels.
pub uninterp spec fn photo_extent(photo: DynamicImage) -> (nat, nat);

/// The samples of a photo as `GenericImageView::get_pixel` reads them:
/// four 8-bit values per pixel, row by row.
pub uninterp spec fn photo_samples(photo: DynamicImage) -> Seq<u8>;

/// Width and height of a page.
pub uninterp spec fn page_extent(page: Page) -> (nat, nat);

/// The samples of a page: four 8-bit values per pixel, row by row.
pub uninterp spec fn page_samples(page: Page) -> Seq<u8>;

/// The extent that `DynamicImage::resize` gives an image of `extent` when
/// asked to fit it into `bounds`, keeping the aspect ratio.
pub uninterp spec fn fitted_extent(extent: (nat, nat), bounds: (nat, nat)) -> (nat, nat);

/// The samples of a page of extent `bottom_extent` after
/// `imageops::overlay` has blended a photo onto it with its top-left
/// corner at (`x`, `y`).
pub uninterp spec fn blended(
    bottom: Seq<u8>,
    bottom_extent: (nat, nat),
    top: Seq<u8>,
    top_extent: (nat, nat),
    x: int,
    y: int,
) -> Seq<u8>;

/// An image as far as this crate knows it: its extent and its samples.
pub struct Raster {
    pub extent: (nat, nat),
    pub samples: Seq<u8>,
}

/// What a photo holds.
pub open spec fn photo_raster(photo: DynamicImage) -> Raster {
    Raster { extent: photo_extent(photo), samples: photo_samples(photo) }
}

/// What a page holds.
pub open spec fn page_raster(page: Page) -> Raster {
    Raster { extent: page_extent(page), samples: page_samples(page) }
}

/// `bound`, or 1 where it is 0: no scaled image is empty.
pub open spec fn at_least_one(bound: nat) -> nat {
    if bound == 0 {
        1
    } else {
        bound
    }
}

/// The samples of an image of `width` by `height` pixels after a quarter
/// turn counter-clockwise: the pixel at column `x` and row `y` of the result
/// (which is `height` wide) is the one that stood at column `width - 1 - y`
/// and row `x`.
pub open spec fn quarter_turned(samples: Seq<u8>, width: nat, height: nat) -> Seq<u8> {
    Seq::new(
        4 * width * height,
        |k: int|
            {
                let x = (k / 4) % (height as int);
                let y = (k / 4) / (height as int);
                samples[4 * (x * width + (width - 1 - y)) + k % 4]
            },
    )
}

/// `fitted` reaches the bound on the side that binds: it has the height of
/// the box where the image is, in proportion, at least as wide as the box,
/// and the width of the box where the image is at least as high. Nothing is
/// said of an empty image or an empty box.
pub open spec fn fills_binding_side(
    extent: (nat, nat),
    bounds: (nat, nat),
    fitted: (nat, nat),
) -> bool {
    extent.0 >= 1 && extent.1 >= 1 && bounds.0 >= 1 && bounds.1 >= 1 ==> {
        &&& bounds.1 * extent.0 <= bounds.0 * extent.1 ==> fitted.1 == bounds.1
        &&& bounds.0 * extent.1 <= bounds.1 * extent.0 ==> fitted.0 == bounds.0
    }
}

/// A buffer of `width` by `height` pixels of at most 16 bytes each can be
/// allocated.
pub open spec fn buffer_fits(width: nat, height: nat) -> bool {
    16 * width * height <= isize::MAX
}

/// The larger of two lengths.
pub open spec fn longer(a: nat, b: nat) -> nat {
    if a < b {
        b
    } else {
        a
    }
}

/// Scaling an image of `extent` into `bounds` stays within what can be
/// allocated: neither the result nor the buffer in between, which is as wide
/// as the image and as high as the result, is too large.
pub open spec fn scaling_fits(extent: (nat, nat), bounds: (nat, nat)) -> bool {
    buffer_fits(
        longer(extent.0, at_least_one(bounds.0)),
        longer(extent.1, at_least_one(bounds.1)),
    )
}

/// `GenericImageView::dimensions` of a `DynamicImage`: width, then height.
#[verifier::external_body]
pub(crate) fn dimensions(photo: &DynamicImage) -> (extent: (u32, u32))
    ensures
        (extent.0 as nat, extent.1 as nat) == photo_extent(*photo),
{
    image::GenericImageView::dimensions(photo)
}

/// `DynamicImage::clone`: a copy with the same extent and samples.
#[verifier::external_body]
pub(crate) fn duplicate(photo: &DynamicImage) -> (copy: DynamicImage)
    ensures
        photo_extent(copy) == photo_extent(*photo),
        photo_samples(copy) == photo_samples(*photo),
{
    photo.clone()
}

/// `DynamicImage::rotate270`: width and height change places, and every
/// pixel moves as `quarter_turned` says.
#[verifier::external_body]
pub(crate) fn rotate270(photo: &DynamicImage) -> (turned: DynamicImage)
    ensures
        photo_extent(turned) == (photo_extent(*photo).1, photo_extent(*photo).0),
        photo_samples(turned) == quarter_turned(
            photo_samples(*photo),
            photo_extent(*photo).0,
            photo_extent(*photo).1,
        ),
{
    photo.rotate270()
}

/// `DynamicImage::resize` with the Lanczos filter of window 3.
///
/// The result has the extent that `fitted_extent` names. It is the largest
/// that fits into the bounds in the image's proportions: it fits, a bound of
/// 0 counting as 1, and it reaches the bound on the side that binds. An
/// image that has exactly the extent asked for, or the height asked for and
/// no more than the width, is copied: for such an image the ratio of the
/// heights is 1 and the smaller of the two ratios. The samples of any other
/// result are not stated: the filter's arithmetic may differ from one
/// machine to the next.
///
/// `image` panics where a buffer would be larger than a vector can be, so
/// `scaling_fits` is required.
#[verifier::external_body]
pub(crate) fn resize_lanczos3(photo: &DynamicImage, max_width: u32, max_height: u32) -> (scaled:
    DynamicImage)
    requires
        scaling_fits(photo_extent(*photo), (max_width as nat, max_height as nat)),
    ensures
        photo_extent(scaled) == fitted_extent(
            photo_extent(*photo),
            (max_width as nat, max_height as nat),
        ),
        photo_extent(scaled).0 <= at_least_one(max_width as nat),
        photo_extent(scaled).1 <= at_least_one(max_height as nat),
        fills_binding_side(
            photo_extent(*photo),
            (max_width as nat, max_height as nat),
            photo_extent(scaled),
        ),
        photo_extent(*photo) == (max_width as nat, max_height as nat) || (photo_extent(*photo).1
            == max_height && 1 <= photo_extent(*photo).0 <= max_width && max_height >= 1) ==> {
            &&& photo_extent(scaled) == photo_extent(*photo)
            &&& photo_samples(scaled) == photo_samples(*photo)
        },
{
    photo.resize(max_width, max_height, image::imageops::FilterType::Lanczos3)
}

/// `ImageBuffer::new`: a page of the given extent with every sample 0,
/// which is fully transparent.
///
/// `image` panics where the buffer would be larger than a vector can be.
#[verifier::external_body]
pub(crate) fn blank_page(width: u32, height: u32) -> (page: Page)
    requires
        4 * width * height <= isize::MAX,
    ensures
        page_extent(page) == (width as nat, height as nat),
        page_samples(page) == Seq::new((4 * width * height) as nat, |k: int| 0u8),
{
    Page { buffer: image::RgbaImage::new(width, height) }
}

/// `imageops::overlay`: blends the photo onto the page with its top-left
/// corner at (`x`, `y`); what falls outside the page is cut off. The page
/// keeps its extent, and a photo whose corner lies beyond the right or the
/// lower edge leaves it as it is.
#[verifier::external_body]
pub(crate) fn overlay(page: &mut Page, photo: &DynamicImage, x: i64, y: i64)
    ensures
        page_extent(*final(page)) == page_extent(*old(page)),
        page_samples(*final(page)) == blended(
            page_samples(*old(page)),
            page_extent(*old(page)),
            photo_samples(*photo),
            photo_extent(*photo),
            x as int,
            y as int,
        ),
        x > page_extent(*old(page)).0 || y > page_extent(*old(page)).1 ==> page_samples(
            *final(page),
        ) == page_samples(*old(page)),
{
    image::imageops::overlay(&mut page.buffer, photo, x, y);
}

/// `ImageBuffer::dimensions`.
#[verifier::external_body]
pub(crate) fn page_dimensions(page: &Page) -> (extent: (u32, u32))
    ensures
        (extent.0 as nat, extent.1 as nat) == page_extent(*page),
{
    page.buffer.dimensions()
}

/// `ImageBuffer::into_raw`: hands out the samples.
#[verifier::external_body]
pub(crate) fn into_raw(page: Page) -> (samples: Vec<u8>)
    ensures
        samples@ == page_samples(page),
{
    page.buffer.into_raw()
}

} // verus!
