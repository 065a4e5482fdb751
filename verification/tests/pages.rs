use image::{DynamicImage, GenericImageView, Rgb, RgbImage, Rgba, RgbaImage};
use photo_sheet::batch::BatchIter;
use photo_sheet::compose::{compose, draw_canvas, page_fits_memory, ComposeError};
use photo_sheet::layout::{row_and_col_from_index, LayoutConfig, Measures};
use photo_sheet::normalize::{fits_for_normalize, normalize, orient};
use photo_sheet::progress::{ProgressChannel, ProgressEvent, Stage};
use std::sync::mpsc::{channel, Receiver};

fn drain(rx: &Receiver<ProgressEvent>) -> Vec<ProgressEvent> {
    let mut events = Vec::new();
    while let Ok(event) = rx.try_recv() {
        events.push(event);
    }
    events
}

/// An opaque photo whose pixel at (x, y) is (x, y, tag, 255).
fn photo(width: u32, height: u32, tag: u8) -> DynamicImage {
    DynamicImage::ImageRgba8(RgbaImage::from_fn(width, height, |x, y| {
        Rgba([x as u8, y as u8, tag, 255])
    }))
}

fn small_layout() -> LayoutConfig {
    let (cfg, lowered) = LayoutConfig::new(Measures {
        page_width_px: 12,
        page_height_px: 8,
        page_border_px: 1,
        margin_v_px: 1,
        margin_h_px: 1,
        requested_height_px: 2,
        max_cell_height_px: 2,
        max_cell_width_px: 4,
        grid_rows: 2,
        grid_cols: 2,
    });
    assert!(!lowered);
    cfg
}

fn boxed(max_cell_width_px: u32, target_height_px: u32) -> LayoutConfig {
    let (cfg, _) = LayoutConfig::new(Measures {
        page_width_px: 10,
        page_height_px: 10,
        page_border_px: 0,
        margin_v_px: 0,
        margin_h_px: 0,
        requested_height_px: target_height_px,
        max_cell_height_px: target_height_px,
        max_cell_width_px,
        grid_rows: 1,
        grid_cols: 1,
    });
    cfg
}

fn pixel(samples: &[u8], width: u32, x: u32, y: u32) -> [u8; 4] {
    let at = 4 * (y as usize * width as usize + x as usize);
    [samples[at], samples[at + 1], samples[at + 2], samples[at + 3]]
}

#[test]
fn orient_turns_a_portrait_photo() {
    let tall = photo(2, 3, 9);
    let upright = orient(&tall);
    assert_eq!(upright.dimensions(), (3, 2));
    assert!(upright.width() > upright.height());
    for y in 0..2 {
        for x in 0..3 {
            assert_eq!(upright.get_pixel(x, y), tall.get_pixel(2 - 1 - y, x));
        }
    }
    assert_eq!(upright.get_pixel(0, 0), Rgba([1, 0, 9, 255]));
    assert_eq!(upright.get_pixel(2, 0), Rgba([1, 2, 9, 255]));
    assert_eq!(upright.get_pixel(0, 1), Rgba([0, 0, 9, 255]));
    assert_eq!(upright.get_pixel(2, 1), Rgba([0, 2, 9, 255]));
}

#[test]
fn orient_moves_the_samples_as_stated() {
    let width: usize = 3;
    let height: usize = 5;
    let tall = photo(width as u32, height as u32, 1);
    let before = tall.to_rgba8().into_raw();
    let after = orient(&tall).to_rgba8().into_raw();
    assert_eq!(after.len(), 4 * width * height);
    for k in 0..after.len() {
        let x = (k / 4) % height;
        let y = (k / 4) / height;
        assert_eq!(after[k], before[4 * (x * width + (width - 1 - y)) + k % 4]);
    }
}

#[test]
fn orient_copies_a_landscape_or_square_photo() {
    let wide = photo(3, 2, 4);
    let upright = orient(&wide);
    assert_eq!(upright.dimensions(), (3, 2));
    assert_eq!(upright, wide);
    let square = photo(3, 3, 5);
    let upright = orient(&square);
    assert_eq!(upright, square);
    let empty = photo(0, 0, 0);
    assert_eq!(orient(&empty).dimensions(), (0, 0));
}

#[test]
fn orient_keeps_the_colour_type() {
    let tall = DynamicImage::ImageRgb8(RgbImage::from_fn(1, 2, |_, y| Rgb([y as u8, 7, 7])));
    let upright = orient(&tall);
    assert_eq!(upright.dimensions(), (2, 1));
    assert_eq!(upright.color(), tall.color());
    assert_eq!(upright.get_pixel(0, 0), Rgba([0, 7, 7, 255]));
    assert_eq!(upright.get_pixel(1, 0), Rgba([1, 7, 7, 255]));
}

#[test]
fn normalize_scales_to_the_binding_side() {
    assert_eq!(normalize(&photo(40, 20, 0), &boxed(10, 8)).dimensions(), (10, 5));
    assert_eq!(normalize(&photo(40, 20, 0), &boxed(100, 10)).dimensions(), (20, 10));
    assert_eq!(normalize(&photo(10, 5, 0), &boxed(100, 20)).dimensions(), (40, 20));
    assert_eq!(normalize(&photo(30, 20, 0), &boxed(803, 591)).dimensions(), (803, 535));
}

#[test]
fn normalize_turns_before_it_scales() {
    assert_eq!(normalize(&photo(20, 40, 0), &boxed(10, 8)).dimensions(), (10, 5));
    assert_eq!(normalize(&photo(5, 10, 0), &boxed(100, 20)).dimensions(), (40, 20));
}

#[test]
fn normalize_leaves_a_fitting_photo_as_it_is() {
    let fitting = photo(3, 2, 8);
    let normal = normalize(&fitting, &boxed(4, 2));
    assert_eq!(normal.dimensions(), (3, 2));
    assert_eq!(normal, fitting);
    let again = normalize(&normal, &boxed(4, 2));
    assert_eq!(again, fitting);
    let exact = photo(4, 2, 8);
    assert_eq!(normalize(&exact, &boxed(4, 2)), exact);
}

#[test]
fn normalize_stays_within_the_box() {
    for (w, h) in [(1u32, 1u32), (7, 3), (3, 7), (100, 1), (1, 100), (33, 32)] {
        for (bw, bh) in [(1u32, 1u32), (5, 9), (9, 5), (64, 64)] {
            let normal = normalize(&photo(w, h, 0), &boxed(bw, bh));
            assert!(normal.width() >= 1 && normal.width() <= bw);
            assert!(normal.height() >= 1 && normal.height() <= bh);
        }
    }
}

#[test]
fn normalize_fits_every_small_photo_into_every_small_box() {
    for w in 1..=9u32 {
        for h in 1..=9u32 {
            let source = photo(w, h, 3);
            for bw in 1..=9u32 {
                for bh in 1..=9u32 {
                    let normal = normalize(&source, &boxed(bw, bh));
                    let (long, short) = if h > w { (h, w) } else { (w, h) };
                    assert!(normal.width() >= 1 && normal.width() <= bw);
                    assert!(normal.height() >= 1 && normal.height() <= bh);
                    if bh * long <= bw * short {
                        assert_eq!(normal.height(), bh);
                    }
                    if bw * short <= bh * long {
                        assert_eq!(normal.width(), bw);
                    }
                    if h <= w && h == bh && w <= bw {
                        assert_eq!(normal, source);
                    }
                    if (long, short) == (bw, bh) {
                        assert_eq!(normal.dimensions(), (bw, bh));
                    }
                }
            }
        }
    }
}

#[test]
fn normalize_into_an_empty_box_gives_one_pixel() {
    let normal = normalize(&photo(4, 2, 0), &boxed(10, 0));
    assert_eq!(normal.dimensions(), (1, 1));
    let normal = normalize(&photo(4, 2, 0), &boxed(0, 10));
    assert_eq!(normal.dimensions(), (1, 1));
}

#[test]
fn fits_for_normalize_knows_the_limit() {
    assert!(fits_for_normalize(&photo(40, 20, 0), &boxed(803, 591)));
    assert!(fits_for_normalize(&photo(0, 0, 0), &boxed(0, 0)));
    assert!(!fits_for_normalize(&photo(4, 2, 0), &boxed(u32::MAX, u32::MAX)));
    assert!(!fits_for_normalize(&photo(2, 4, 0), &boxed(u32::MAX, u32::MAX)));
}

#[test]
fn page_fits_memory_knows_the_limit() {
    assert!(page_fits_memory(&small_layout()));
    let mut cfg = small_layout();
    cfg.page_width_px = u32::MAX;
    cfg.page_height_px = u32::MAX;
    assert!(!page_fits_memory(&cfg));
    cfg.page_height_px = 0;
    assert!(page_fits_memory(&cfg));
}

#[test]
fn a_page_without_photos_is_blank() {
    let (tx, rx) = channel();
    let mut progress = ProgressChannel::new(tx);
    let page = draw_canvas(&[], &small_layout(), &mut progress).unwrap();
    assert_eq!(page.dimensions(), (12, 8));
    let samples = page.into_samples();
    assert_eq!(samples.len(), 4 * 12 * 8);
    assert!(samples.iter().all(|s| *s == 0));
    assert_eq!(drain(&rx), vec![]);
}

#[test]
fn photos_are_placed_row_by_row_at_the_top_left_of_their_cells() {
    let (tx, rx) = channel();
    let mut progress = ProgressChannel::new(tx);
    let photos = vec![photo(3, 2, 10), photo(3, 2, 20), photo(2, 3, 30), photo(4, 2, 40)];
    let page = draw_canvas(&photos, &small_layout(), &mut progress).unwrap();
    assert_eq!(page.dimensions(), (12, 8));
    let samples = page.into_samples();
    let origins = [(1u32, 1u32), (6, 1), (1, 4), (6, 4)];
    let widths = [3u32, 3, 3, 4];
    for y in 0..8u32 {
        for x in 0..12u32 {
            let mut expected = [0u8, 0, 0, 0];
            for (i, (ox, oy)) in origins.iter().enumerate() {
                if x >= *ox && x < ox + widths[i] && y >= *oy && y < oy + 2 {
                    let (px, py) = (x - ox, y - oy);
                    expected = if i == 2 {
                        [(2 - 1 - py) as u8, px as u8, 30, 255]
                    } else {
                        [px as u8, py as u8, 10 * (i as u8 + 1), 255]
                    };
                }
            }
            assert_eq!(pixel(&samples, 12, x, y), expected);
        }
    }
    assert_eq!(pixel(&samples, 12, 1, 1), [0, 0, 10, 255]);
    assert_eq!(pixel(&samples, 12, 4, 1), [0, 0, 0, 0]);
    assert_eq!(pixel(&samples, 12, 6, 4), [0, 0, 40, 255]);
    assert_eq!(pixel(&samples, 12, 9, 5), [3, 1, 40, 255]);
    let mut expected = Vec::new();
    for _ in 0..4 {
        expected.push(ProgressEvent::Advance(Stage::Normalize, None));
    }
    for _ in 0..4 {
        expected.push(ProgressEvent::Advance(Stage::Compose, None));
    }
    assert_eq!(drain(&rx), expected);
}

#[test]
fn compose_places_what_it_is_given() {
    let (tx, rx) = channel();
    let mut progress = ProgressChannel::new(tx);
    let photos = vec![photo(1, 1, 50), photo(2, 1, 60)];
    let page = compose(&photos, &small_layout(), &mut progress);
    assert_eq!(page.dimensions(), (12, 8));
    let samples = page.into_samples();
    assert_eq!(pixel(&samples, 12, 1, 1), [0, 0, 50, 255]);
    assert_eq!(pixel(&samples, 12, 2, 1), [0, 0, 0, 0]);
    assert_eq!(pixel(&samples, 12, 6, 1), [0, 0, 60, 255]);
    assert_eq!(pixel(&samples, 12, 7, 1), [1, 0, 60, 255]);
    assert_eq!(samples.iter().filter(|s| **s != 0).count(), 2 + 2 + 3);
    assert_eq!(
        drain(&rx),
        vec![
            ProgressEvent::Advance(Stage::Compose, None),
            ProgressEvent::Advance(Stage::Compose, None),
        ]
    );
}

#[test]
fn a_transparent_photo_leaves_the_page_as_it_is() {
    let (tx, _rx) = channel();
    let mut progress = ProgressChannel::new(tx);
    let clear = DynamicImage::ImageRgba8(RgbaImage::from_pixel(3, 2, Rgba([200, 100, 50, 0])));
    let page = draw_canvas(&[clear], &small_layout(), &mut progress).unwrap();
    assert!(page.into_samples().iter().all(|s| *s == 0));
}

#[test]
fn a_later_photo_lies_over_an_earlier_one() {
    let (tx, _rx) = channel();
    let mut progress = ProgressChannel::new(tx);
    let (cfg, _) = LayoutConfig::new(Measures {
        page_width_px: 6,
        page_height_px: 2,
        page_border_px: 0,
        margin_v_px: 0,
        margin_h_px: 0,
        requested_height_px: 2,
        max_cell_height_px: 2,
        max_cell_width_px: 2,
        grid_rows: 1,
        grid_cols: 2,
    });
    let page = compose(&[photo(4, 2, 1), photo(2, 2, 2)], &cfg, &mut progress);
    let samples = page.into_samples();
    assert_eq!(pixel(&samples, 6, 0, 0), [0, 0, 1, 255]);
    assert_eq!(pixel(&samples, 6, 1, 1), [1, 1, 1, 255]);
    assert_eq!(pixel(&samples, 6, 2, 0), [0, 0, 2, 255]);
    assert_eq!(pixel(&samples, 6, 3, 1), [1, 1, 2, 255]);
    assert_eq!(pixel(&samples, 6, 4, 0), [0, 0, 0, 0]);
}

#[test]
fn what_reaches_beyond_the_page_is_cut_off() {
    let (tx, _rx) = channel();
    let mut progress = ProgressChannel::new(tx);
    let (cfg, _) = LayoutConfig::new(Measures {
        page_width_px: 4,
        page_height_px: 3,
        page_border_px: 2,
        margin_v_px: 0,
        margin_h_px: 0,
        requested_height_px: 2,
        max_cell_height_px: 2,
        max_cell_width_px: 4,
        grid_rows: 2,
        grid_cols: 1,
    });
    let page = draw_canvas(&[photo(4, 2, 7), photo(4, 2, 8)], &cfg, &mut progress).unwrap();
    assert_eq!(page.dimensions(), (4, 3));
    let samples = page.into_samples();
    for y in 0..3u32 {
        for x in 0..4u32 {
            let expected = if y == 2 && x >= 2 { [(x - 2) as u8, 0, 7, 255] } else { [0, 0, 0, 0] };
            assert_eq!(pixel(&samples, 4, x, y), expected);
        }
    }
}

#[test]
fn a_cell_far_off_the_page_is_no_trouble() {
    let (tx, _rx) = channel();
    let mut progress = ProgressChannel::new(tx);
    let (cfg, _) = LayoutConfig::new(Measures {
        page_width_px: 3,
        page_height_px: 3,
        page_border_px: u32::MAX,
        margin_v_px: u32::MAX,
        margin_h_px: u32::MAX,
        requested_height_px: 1,
        max_cell_height_px: u32::MAX,
        max_cell_width_px: 2,
        grid_rows: 3,
        grid_cols: 1,
    });
    let page = draw_canvas(&[photo(1, 1, 1), photo(1, 1, 2), photo(1, 1, 3)], &cfg, &mut progress)
        .unwrap();
    assert!(page.into_samples().iter().all(|s| *s == 0));
}

#[test]
fn too_many_photos_are_refused() {
    let (tx, rx) = channel();
    let mut progress = ProgressChannel::new(tx);
    let photos: Vec<DynamicImage> = (0..5).map(|i| photo(3, 2, i)).collect();
    let answer = draw_canvas(&photos, &small_layout(), &mut progress);
    assert_eq!(answer.err(), Some(ComposeError::TooManyPhotos));
    assert_eq!(drain(&rx), vec![]);
}

#[test]
fn a_page_too_large_is_refused() {
    let (tx, rx) = channel();
    let mut progress = ProgressChannel::new(tx);
    let mut cfg = small_layout();
    cfg.page_width_px = u32::MAX;
    cfg.page_height_px = u32::MAX;
    let answer = draw_canvas(&[photo(3, 2, 0)], &cfg, &mut progress);
    assert_eq!(answer.err(), Some(ComposeError::PageTooLarge));
    assert_eq!(drain(&rx), vec![]);
    let photos: Vec<DynamicImage> = (0..5).map(|i| photo(3, 2, i)).collect();
    let answer = draw_canvas(&photos, &cfg, &mut progress);
    assert_eq!(answer.err(), Some(ComposeError::TooManyPhotos));
}

#[test]
fn a_photo_too_large_to_scale_is_refused() {
    let (tx, rx) = channel();
    let mut progress = ProgressChannel::new(tx);
    let mut cfg = small_layout();
    cfg.max_cell_width_px = u32::MAX;
    cfg.max_cell_height_px = u32::MAX;
    cfg.target_height_px = u32::MAX;
    let answer = draw_canvas(&[photo(3, 2, 0), photo(3, 2, 1)], &cfg, &mut progress);
    assert_eq!(answer.err(), Some(ComposeError::PhotoTooLarge(0)));
    assert_eq!(drain(&rx), vec![]);
}

#[test]
fn thirteen_photos_fill_one_page_and_start_a_second() {
    let (cfg, _) = LayoutConfig::new(Measures {
        page_width_px: 40,
        page_height_px: 30,
        page_border_px: 2,
        margin_v_px: 1,
        margin_h_px: 1,
        requested_height_px: 4,
        max_cell_height_px: 8,
        max_cell_width_px: 8,
        grid_rows: 3,
        grid_cols: 4,
    });
    assert_eq!(cfg.capacity(), 12);
    let photos: Vec<DynamicImage> = (0..13).map(|i| photo(6, 4, 100 + i)).collect();
    let (tx, rx) = channel();
    let mut progress = ProgressChannel::new(tx);
    progress.begin_run(photos.len(), cfg.capacity());
    assert_eq!(drain(&rx), vec![ProgressEvent::NewStage(Stage::Output, 2)]);
    let mut batches = BatchIter::new(photos.into_iter(), cfg.capacity());
    let mut pages = Vec::new();
    let mut sizes = Vec::new();
    while let Some(batch) = batches.next() {
        sizes.push(batch.len());
        pages.push(draw_canvas(&batch, &cfg, &mut progress).unwrap());
    }
    assert_eq!(sizes, vec![12, 1]);
    assert_eq!(pages.len(), 2);
    let second = pages.pop().unwrap().into_samples();
    let first = pages.pop().unwrap().into_samples();
    assert_eq!(row_and_col_from_index(cfg.grid_cols as usize, 0), (0, 0));
    assert_eq!(cfg.cell_origin(0, 0), (2, 2));
    for y in 0..30u32 {
        for x in 0..40u32 {
            let expected = if x >= 2 && x < 8 && y >= 2 && y < 6 {
                [(x - 2) as u8, (y - 2) as u8, 112, 255]
            } else {
                [0, 0, 0, 0]
            };
            assert_eq!(pixel(&second, 40, x, y), expected);
        }
    }
    for i in 0..12usize {
        let (row, col) = row_and_col_from_index(4, i);
        let (x, y) = cfg.cell_origin(row, col);
        assert_eq!(pixel(&first, 40, x as u32, y as u32), [0, 0, 100 + i as u8, 255]);
    }
    assert_eq!(pixel(&first, 40, 29, 20), [0, 0, 111, 255]);
}
