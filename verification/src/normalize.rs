//! Bringing a photo to the shape of a cell: landscape, and scaled to the
//! target height.

use vstd::prelude::*;
use image::DynamicImage;
use crate::imaging::{
    at_least_one, dimensions, duplicate, fills_binding_side, fitted_extent, photo_extent,
    photo_raster, photo_samples, quarter_turned, resize_lanczos3, rotate270, scaling_fits,
    Raster,
};
use crate::layout::LayoutConfig;

verus! {

/// Higher than wide.
pub open spec fn is_portrait(extent: (nat, nat)) -> bool {
    extent.1 > extent.0
}

/// The extent of an image once it lies in landscape.
pub open spec fn landscape_extent(extent: (nat, nat)) -> (nat, nat) {
    if is_portrait(extent) {
        (extent.1, extent.0)
    } else {
        extent
    }
}

/// The samples of an image once it lies in landscape: turned by a quarter
/// where it stood in portrait, untouched otherwise.
pub open spec fn landscape_samples(samples: Seq<u8>, extent: (nat, nat)) -> Seq<u8> {
    if is_portrait(extent) {
        quarter_turned(samples, extent.0, extent.1)
    } else {
        samples
    }
}

/// The box that a normalized photo has to fit into.
pub open spec fn cell_bounds(cfg: LayoutConfig) -> (nat, nat) {
    (cfg.max_cell_width_px as nat, cfg.target_height_px as nat)
}

/// The extent of a photo of `extent` after normalization.
pub open spec fn normal_extent(extent: (nat, nat), cfg: LayoutConfig) -> (nat, nat) {
    fitted_extent(landscape_extent(extent), cell_bounds(cfg))
}

/// A photo of `extent` can be normalized within what can be allocated.
pub open spec fn can_normalize(extent: (nat, nat), cfg: LayoutConfig) -> bool {
    scaling_fits(landscape_extent(extent), cell_bounds(cfg))
}

/// A photo of `extent` has the shape of a normalized photo already: it lies
/// in landscape, has the target height and is no wider than a cell.
pub open spec fn has_normal_shape(extent: (nat, nat), cfg: LayoutConfig) -> bool {
    &&& !is_portrait(extent)
    &&& extent.1 == cfg.target_height_px
    &&& 1 <= extent.0 <= cfg.max_cell_width_px
    &&& 1 <= extent.1
}

/// `normal` is a normal form of `photo`: it has the extent that scaling the
/// photo in landscape into the cell's box gives; it fits that box (a side of
/// 0 counting as 1) and reaches it on the side that binds, so it has the
/// target height unless the cell's width forbids it; and it is the photo
/// itself where the photo has the shape of a normalized photo already.
pub open spec fn is_normal_of(normal: Raster, photo: Raster, cfg: LayoutConfig) -> bool {
    &&& normal.extent == normal_extent(photo.extent, cfg)
    &&& normal.extent.0 <= at_least_one(cfg.max_cell_width_px as nat)
    &&& normal.extent.1 <= at_least_one(cfg.target_height_px as nat)
    &&& fills_binding_side(landscape_extent(photo.extent), cell_bounds(cfg), normal.extent)
    &&& has_normal_shape(photo.extent, cfg) ==> normal == photo
}

/// Lays a photo in landscape: one that is higher than wide is turned by a
/// quarter, counter-clockwise; any other is copied as it is. Only the
/// proportions decide; nothing the camera recorded about its position is
/// consulted.
pub fn orient(photo: &DynamicImage) -> (upright: DynamicImage)
    ensures
        photo_extent(upright) == landscape_extent(photo_extent(*photo)),
        photo_samples(upright) == landscape_samples(photo_samples(*photo), photo_extent(*photo)),
        photo_extent(upright).0 >= photo_extent(upright).1,
        is_portrait(photo_extent(*photo)) ==> photo_extent(upright).0 > photo_extent(upright).1,
{
    let (width, height) = dimensions(photo);
    if height > width {
        rotate270(photo)
    } else {
        duplicate(photo)
    }
}

/// Whether `normalize` can take this photo.
pub fn fits_for_normalize(photo: &DynamicImage, cfg: &LayoutConfig) -> (fits: bool)
    ensures
        fits == can_normalize(photo_extent(*photo), *cfg),
{
    let (width, height) = dimensions(photo);
    let (long, short) = if height > width {
        (height, width)
    } else {
        (width, height)
    };
    let box_width: u32 = if cfg.max_cell_width_px == 0 {
        1
    } else {
        cfg.max_cell_width_px
    };
    let box_height: u32 = if cfg.target_height_px == 0 {
        1
    } else {
        cfg.target_height_px
    };
    let across: u128 = if long < box_width {
        box_width as u128
    } else {
        long as u128
    };
    let down: u128 = if short < box_height {
        box_height as u128
    } else {
        short as u128
    };
    assert(across * down <= 0xffff_ffff * 0xffff_ffff) by (nonlinear_arith)
        requires
            0 <= across <= 0xffff_ffff,
            0 <= down <= 0xffff_ffff,
    ;
    assert(16 * (across as nat) * (down as nat) == 16 * (across * down)) by (nonlinear_arith);
    16 * (across * down) <= isize::MAX as u128
}

/// Normalizes a photo: lays it in landscape, then scales it, keeping its
/// proportions, to the largest size that fits a box as wide as a cell and as
/// high as the target height.
///
/// A photo that lies in landscape, has the target height and is no wider
/// than a cell comes out as it went in.
pub fn normalize(photo: &DynamicImage, cfg: &LayoutConfig) -> (normal: DynamicImage)
    requires
        can_normalize(photo_extent(*photo), *cfg),
    ensures
        is_normal_of(photo_raster(normal), photo_raster(*photo), *cfg),
{
    let upright = orient(photo);
    resize_lanczos3(&upright, cfg.max_cell_width_px, cfg.target_height_px)
}

} // verus!
