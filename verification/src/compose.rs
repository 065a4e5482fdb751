//! Composing a page: every photo of a batch is normalized and blended onto
//! a blank page, each at the top-left corner of its cell.

use vstd::prelude::*;
use image::DynamicImage;
use crate::imaging::{
    blank_page, blended, into_raw, overlay, page_dimensions, page_extent, page_raster,
    page_samples, photo_extent, photo_raster, Page, Raster,
};
use crate::layout::{
    lemma_row_and_col_in_grid, row_and_col, row_and_col_from_index, LayoutConfig,
};
use crate::normalize::{can_normalize, fits_for_normalize, is_normal_of, normalize};
use crate::progress::{steps, ProgressChannel, Stage};

verus! {

/// What each of the photos holds.
pub open spec fn photo_rasters(photos: Seq<DynamicImage>) -> Seq<Raster> {
    Seq::new(photos.len(), |i: int| photo_raster(photos[i]))
}

/// The empty page of a layout: fully transparent.
pub open spec fn blank(cfg: LayoutConfig) -> Raster {
    Raster {
        extent: (cfg.page_width_px as nat, cfg.page_height_px as nat),
        samples: Seq::new((4 * cfg.page_width_px * cfg.page_height_px) as nat, |k: int| 0u8),
    }
}

/// The page after `photo` has been blended onto it with its top-left corner
/// at (`x`, `y`). What reaches beyond the page is cut off; a photo whose
/// corner lies beyond the right or the lower edge changes nothing.
pub open spec fn place(page: Raster, photo: Raster, x: int, y: int) -> Raster {
    if x > page.extent.0 || y > page.extent.1 {
        page
    } else {
        Raster {
            extent: page.extent,
            samples: blended(page.samples, page.extent, photo.samples, photo.extent, x, y),
        }
    }
}

/// The page after `photo` has been placed in the cell with the given index:
/// the photo's top-left corner lies on the cell's.
pub open spec fn with_photo(cfg: LayoutConfig, page: Raster, photo: Raster, index: int) -> Raster {
    let cell = row_and_col(cfg.grid_cols as int, index);
    place(page, photo, cfg.cell_x(cell.1), cfg.cell_y(cell.0))
}

/// The page that holds the first `k` of the photos, placed in order.
pub open spec fn composed(cfg: LayoutConfig, photos: Seq<Raster>, k: nat) -> Raster
    decreases k,
{
    if k == 0 {
        blank(cfg)
    } else {
        with_photo(cfg, composed(cfg, photos, (k - 1) as nat), photos[k - 1], k - 1)
    }
}

/// A blank page of this layout can be allocated.
pub open spec fn page_fits(cfg: LayoutConfig) -> bool {
    4 * cfg.page_width_px * cfg.page_height_px <= isize::MAX
}

/// Why a page could not be drawn.
#[derive(Clone, Copy, Debug, PartialEq, Eq, Structural)]
pub enum ComposeError {
    /// More photos than the page has cells.
    TooManyPhotos,
    /// The page is larger than a buffer can be.
    PageTooLarge,
    /// The photo at this position is too large to be scaled.
    PhotoTooLarge(usize),
}

/// The photo at position `i` is the first that is too large to be scaled.
pub open spec fn first_oversize(cfg: LayoutConfig, photos: Seq<DynamicImage>, i: int) -> bool {
    &&& 0 <= i < photos.len()
    &&& !can_normalize(photo_extent(photos[i]), cfg)
    &&& forall|j: int| 0 <= j < i ==> can_normalize(photo_extent(#[trigger] photos[j]), cfg)
}

/// Every photo can be scaled.
pub open spec fn all_fit(cfg: LayoutConfig, photos: Seq<DynamicImage>) -> bool {
    forall|j: int| 0 <= j < photos.len() ==> can_normalize(photo_extent(#[trigger] photos[j]), cfg)
}

/// Whether a blank page of this layout can be allocated.
pub fn page_fits_memory(cfg: &LayoutConfig) -> (fits: bool)
    ensures
        fits == page_fits(*cfg),
{
    let width = cfg.page_width_px as u128;
    let height = cfg.page_height_px as u128;
    assert(width * height <= 0xffff_ffff * 0xffff_ffff) by (nonlinear_arith)
        requires
            0 <= width <= 0xffff_ffff,
            0 <= height <= 0xffff_ffff,
    ;
    assert(4 * cfg.page_width_px * cfg.page_height_px == 4 * (width * height))
        by (nonlinear_arith)
        requires
            width == cfg.page_width_px,
            height == cfg.page_height_px,
    ;
    4 * (width * height) <= isize::MAX as u128
}

/// Blends normalized photos onto a blank page, the photo at position `i` in
/// the cell with index `i`, counting row by row. One step of the `Compose`
/// stage is reported before each photo is placed.
pub fn compose(photos: &[DynamicImage], cfg: &LayoutConfig, progress: &mut ProgressChannel) -> (page:
    Page)
    requires
        cfg.wf(),
        page_fits(*cfg),
        photos@.len() <= cfg.cells(),
    ensures
        page_raster(page) == composed(*cfg, photo_rasters(photos@), photos@.len()),
        page_extent(page) == (cfg.page_width_px as nat, cfg.page_height_px as nat),
        final(progress).sent() == old(progress).after(steps(Stage::Compose, photos@.len())),
        final(progress).closed() == old(progress).closed(),
{
    let mut page = blank_page(cfg.page_width_px, cfg.page_height_px);
    let ghost rasters = photo_rasters(photos@);
    let mut i: usize = 0;
    assert(progress.sent() =~= old(progress).after(steps(Stage::Compose, 0)));
    while i < photos.len()
        invariant
            i <= photos@.len(),
            cfg.wf(),
            photos@.len() <= cfg.cells(),
            rasters == photo_rasters(photos@),
            page_raster(page) == composed(*cfg, rasters, i as nat),
            page_extent(page) == (cfg.page_width_px as nat, cfg.page_height_px as nat),
            progress.sent() == old(progress).after(steps(Stage::Compose, i as nat)),
            progress.closed() == old(progress).closed(),
        decreases photos@.len() - i,
    {
        progress.step(Stage::Compose);
        let (row, col) = row_and_col_from_index(cfg.grid_cols as usize, i);
        proof {
            lemma_row_and_col_in_grid(cfg.grid_cols as int, cfg.grid_rows as int, i as int);
        }
        let (x, y) = cfg.cell_origin(row, col);
        overlay(&mut page, &photos[i], x, y);
        assert(progress.sent() =~= old(progress).after(steps(Stage::Compose, (i + 1) as nat)));
        i = i + 1;
    }
    page
}

/// Draws one page from the photos of a batch: normalizes each, then places
/// them on a blank page. The page is `composed` of rasters of which each is
/// a normal form of its photo; how a scaled photo looks is left to `image`. One step of the `Normalize` stage is reported before
/// each photo is normalized, then one of the `Compose` stage before each is
/// placed.
///
/// Three things stand in the way of a page, and are looked for in this
/// order before anything is reported or drawn: more photos than cells, a
/// page too large for a buffer, and a photo too large to be scaled.
pub fn draw_canvas(images: &[DynamicImage], cfg: &LayoutConfig, progress: &mut ProgressChannel) -> (page:
    Result<Page, ComposeError>)
    requires
        cfg.wf(),
    ensures
        match page {
            Ok(page) => {
                &&& images@.len() <= cfg.cells()
                &&& page_fits(*cfg)
                &&& all_fit(*cfg, images@)
                &&& page_extent(page) == (cfg.page_width_px as nat, cfg.page_height_px as nat)
                &&& exists|normals: Seq<Raster>|
                    {
                        &&& normals.len() == images@.len()
                        &&& forall|i: int|
                            0 <= i < images@.len() ==> is_normal_of(
                                #[trigger] normals[i],
                                photo_raster(images@[i]),
                                *cfg,
                            )
                        &&& page_raster(page) == composed(*cfg, normals, images@.len())
                    }
                &&& final(progress).sent() == old(progress).after(
                    steps(Stage::Normalize, images@.len()) + steps(Stage::Compose, images@.len()),
                )
            },
            Err(ComposeError::TooManyPhotos) => images@.len() > cfg.cells(),
            Err(ComposeError::PageTooLarge) => images@.len() <= cfg.cells() && !page_fits(*cfg),
            Err(ComposeError::PhotoTooLarge(i)) => {
                &&& images@.len() <= cfg.cells()
                &&& page_fits(*cfg)
                &&& first_oversize(*cfg, images@, i as int)
            },
        },
        page is Err ==> final(progress).sent() == old(progress).sent(),
        final(progress).closed() == old(progress).closed(),
{
    if images.len() > cfg.capacity() {
        return Err(ComposeError::TooManyPhotos);
    }
    if !page_fits_memory(cfg) {
        return Err(ComposeError::PageTooLarge);
    }
    let mut k: usize = 0;
    while k < images.len()
        invariant
            k <= images@.len(),
            images@.len() <= cfg.cells(),
            page_fits(*cfg),
            forall|j: int| 0 <= j < k ==> can_normalize(photo_extent(#[trigger] images@[j]), *cfg),
            progress.sent() == old(progress).sent(),
            progress.closed() == old(progress).closed(),
        decreases images@.len() - k,
    {
        if !fits_for_normalize(&images[k], cfg) {
            return Err(ComposeError::PhotoTooLarge(k));
        }
        k = k + 1;
    }
    let mut normals: Vec<DynamicImage> = Vec::new();
    let mut i: usize = 0;
    assert(progress.sent() =~= old(progress).after(steps(Stage::Normalize, 0)));
    while i < images.len()
        invariant
            i <= images@.len(),
            normals@.len() == i,
            images@.len() <= cfg.cells(),
            page_fits(*cfg),
            cfg.wf(),
            forall|j: int|
                0 <= j < images@.len() ==> can_normalize(photo_extent(#[trigger] images@[j]), *cfg),
            forall|j: int|
                0 <= j < i ==> is_normal_of(
                    photo_raster(#[trigger] normals@[j]),
                    photo_raster(images@[j]),
                    *cfg,
                ),
            progress.sent() == old(progress).after(steps(Stage::Normalize, i as nat)),
            progress.closed() == old(progress).closed(),
        decreases images@.len() - i,
    {
        progress.step(Stage::Normalize);
        let normal = normalize(&images[i], cfg);
        normals.push(normal);
        assert(progress.sent() =~= old(progress).after(steps(Stage::Normalize, (i + 1) as nat)));
        i = i + 1;
    }
    let page = compose(normals.as_slice(), cfg, progress);
    proof {
        let views = photo_rasters(normals@);
        assert(views.len() == images@.len());
        assert forall|i: int| 0 <= i < images@.len() implies is_normal_of(
            #[trigger] views[i],
            photo_raster(images@[i]),
            *cfg,
        ) by {
            assert(is_normal_of(photo_raster(normals@[i]), photo_raster(images@[i]), *cfg));
        }
        assert(progress.sent() =~= old(progress).after(
            steps(Stage::Normalize, images@.len()) + steps(Stage::Compose, images@.len()),
        ));
    }
    Ok(page)
}

impl Page {
    /// Width and height of the page in pixels.
    pub fn dimensions(&self) -> (extent: (u32, u32))
        ensures
            (extent.0 as nat, extent.1 as nat) == page_extent(*self),
    {
        page_dimensions(self)
    }

    /// Hands out the samples of the page, four to the pixel, row by row from
    /// the top left.
    pub fn into_samples(self) -> (samples: Vec<u8>)
        ensures
            samples@ == page_samples(self),
    {
        into_raw(self)
    }
}

} // verus!
