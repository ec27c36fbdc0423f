use satellite_wallpaper::compositor::compose;
use satellite_wallpaper::compositor::kept_columns;
use satellite_wallpaper::compositor::paste_scaled;
use satellite_wallpaper::compositor::plan_layout;
use satellite_wallpaper::compositor::CompositionError;
use satellite_wallpaper::compositor::LayoutPolicy;
use satellite_wallpaper::compositor::Placement;
use satellite_wallpaper::compositor::Ratio;
use satellite_wallpaper::downloader::wallpaper::grid_size_for;
use satellite_wallpaper::downloader::wallpaper::is_half;
use satellite_wallpaper::downloader::wallpaper::select_policy;
use satellite_wallpaper::downloader::wallpaper::set_wallpaper;
use satellite_wallpaper::downloader::wallpaper::set_wallpaper_now;
use satellite_wallpaper::mosaic::assemble;
use satellite_wallpaper::mosaic::CoordinateOrder;
use satellite_wallpaper::raster::Canvas;
use satellite_wallpaper::raster::Mosaic;
use satellite_wallpaper::raster::TileImage;
use satellite_wallpaper::scaler::fast_resize_block;
use satellite_wallpaper::scaler::grid_of;

const FULL: LayoutPolicy = LayoutPolicy::FullCentered { scale_margin_pct: 90, top_anchored: false };
const HALF: LayoutPolicy = LayoutPolicy::FullCentered { scale_margin_pct: 95, top_anchored: true };
const HEMISPHERE: LayoutPolicy = LayoutPolicy::HemisphereCropped { hemisphere_margin_pct: 95 };

fn plain(w: u32, h: u32, colour: [u8; 4]) -> Mosaic {
    let data: Vec<u8> = (0..w * h).flat_map(|_| colour).collect();
    Mosaic::from_raw(w, h, data).unwrap()
}

/// A mosaic whose left half is red and whose right half is blue.
fn two_halves(w: u32, h: u32) -> Mosaic {
    let mut data = Vec::new();
    for _ in 0..h {
        for x in 0..w {
            data.extend_from_slice(if x < w / 2 { &[255, 0, 0, 255] } else { &[0, 0, 255, 255] });
        }
    }
    Mosaic::from_raw(w, h, data).unwrap()
}

#[test]
fn full_disk_on_a_wide_screen_takes_ninety_percent_of_the_height() {
    let p = plan_layout(1100, 1100, 1920, 1080, FULL, 9).unwrap();
    assert_eq!(
        p,
        Placement {
            crop_left: 0,
            crop_width: 1100,
            scaled_width: 972,
            scaled_height: 972,
            left: 474,
            top: 54,
            rows: 972,
        }
    );
}

#[test]
fn full_disk_on_an_upright_screen_is_reduced_to_the_width() {
    let p = plan_layout(2200, 2200, 1080, 1920, FULL, 9).unwrap();
    assert_eq!((p.scaled_width, p.scaled_height), (1080, 1080));
    assert_eq!((p.left, p.top, p.rows), (0, 420, 1080));
}

#[test]
fn full_disk_is_enlarged_to_a_larger_screen() {
    let p = plan_layout(100, 100, 1920, 1080, FULL, 9).unwrap();
    assert_eq!((p.scaled_width, p.scaled_height), (972, 972));
}

#[test]
fn wide_mosaic_keeps_its_proportion() {
    let p = plan_layout(400, 100, 1000, 1000, FULL, 9).unwrap();
    // 90 % of the height would be 3600 wide: the width of the canvas decides.
    assert_eq!((p.scaled_width, p.scaled_height), (1000, 250));
    assert_eq!((p.left, p.top), (0, 375));
}

#[test]
fn scaled_lengths_are_rounded_down() {
    let p = plan_layout(3, 7, 10, 10, FULL, 9).unwrap();
    // The factor is 90 / 70: 3 * 9 / 7 = 3.86, 7 * 9 / 7 = 9.
    assert_eq!((p.scaled_width, p.scaled_height), (3, 9));
    assert_eq!((p.left, p.top), (3, 0));
}

#[test]
fn full_disk_never_exceeds_the_canvas_and_keeps_aspect() {
    for (mw, mh) in [(1100u32, 1100u32), (2200, 2200), (1100, 550), (3, 1000), (1, 1)] {
        for (cw, ch) in [(1920u32, 1080u32), (1080, 1920), (1, 1), (4000, 10), (0, 5), (640, 640)] {
            for policy in [FULL, HALF, HEMISPHERE] {
                let Ok(p) = plan_layout(mw, mh, cw, ch, policy, 15) else {
                    continue;
                };
                assert!(p.scaled_width <= cw && p.scaled_height <= ch);
                assert!(p.left + p.scaled_width <= cw && p.top + p.rows <= ch);
                let x = p.scaled_width as i64 * mh as i64;
                let y = p.scaled_height as i64 * p.crop_width as i64;
                assert!(-(mh as i64) < x - y && x - y < p.crop_width as i64);
            }
        }
    }
}

#[test]
fn top_anchored_disk_begins_five_percent_below_the_top() {
    let p = plan_layout(2200, 2200, 1920, 1080, HALF, 9).unwrap();
    assert_eq!((p.scaled_width, p.scaled_height), (1080, 1080));
    assert_eq!((p.left, p.top, p.rows), (420, 54, 1026));
    let p = plan_layout(2200, 1100, 1000, 900, HALF, 9).unwrap();
    assert_eq!((p.scaled_width, p.scaled_height), (950, 475));
    assert_eq!((p.left, p.top, p.rows), (25, 45, 475));
}

#[test]
fn morning_shows_the_right_hemisphere_flush_right() {
    let p = plan_layout(2200, 2200, 1080, 1920, HEMISPHERE, 9).unwrap();
    assert_eq!(p.crop_width, 1166);
    assert_eq!(p.crop_left, 2200 - 1166);
    // The margin leaves 1026 by 1824: the height decides, 1824 / 2200.
    assert_eq!((p.scaled_width, p.scaled_height), (966, 1824));
    assert_eq!(p.left, 1080 - 966);
    assert_eq!((p.top, p.rows), (48, 1824));
    let noon = plan_layout(2200, 2200, 1080, 1920, HEMISPHERE, 12).unwrap();
    assert_eq!(noon, p);
}

#[test]
fn afternoon_shows_the_left_hemisphere_flush_left() {
    let p = plan_layout(2200, 2200, 1080, 1920, HEMISPHERE, 15).unwrap();
    assert_eq!((p.crop_left, p.crop_width), (0, 1166));
    assert_eq!((p.scaled_width, p.scaled_height), (966, 1824));
    assert_eq!((p.left, p.top), (0, 48));
    assert_eq!(plan_layout(2200, 2200, 1080, 1920, HEMISPHERE, 13).unwrap(), p);
}

#[test]
fn hemisphere_is_never_enlarged() {
    let p = plan_layout(200, 300, 1080, 1920, HEMISPHERE, 15).unwrap();
    assert_eq!((p.crop_width, p.scaled_width, p.scaled_height), (106, 106, 300));
    assert_eq!((p.left, p.top), (0, 810));
}

#[test]
fn mosaic_without_pixels_has_no_geometry() {
    assert_eq!(plan_layout(0, 10, 100, 100, FULL, 9).err(), Some(CompositionError::Geometry));
    assert_eq!(plan_layout(10, 0, 100, 100, HALF, 9).err(), Some(CompositionError::Geometry));
    // 53 % of one column is no column.
    assert_eq!(plan_layout(1, 10, 100, 100, HEMISPHERE, 9).err(), Some(CompositionError::Geometry));
    let wide = LayoutPolicy::FullCentered { scale_margin_pct: 101, top_anchored: false };
    assert_eq!(plan_layout(10, 10, 100, 100, wide, 9).err(), Some(CompositionError::Geometry));
    let wide = LayoutPolicy::HemisphereCropped { hemisphere_margin_pct: 101 };
    assert_eq!(plan_layout(10, 10, 100, 100, wide, 9).err(), Some(CompositionError::Geometry));
}

#[test]
fn ratios_compare_by_cross_multiplication() {
    let third = Ratio { num: 1, den: 3 };
    let half = Ratio { num: 2, den: 4 };
    assert!(third.is_le(half));
    assert!(!half.is_le(third));
    assert!(half.is_le(Ratio { num: 1, den: 2 }));
    assert_eq!(third.min(half), third);
    assert_eq!(half.min(third), third);
    assert_eq!(half.apply(7), 3);
    assert_eq!(Ratio { num: 97200, den: 110000 }.apply(1100), 972);
}

#[test]
fn policy_follows_display_type_and_screen() {
    assert!(!is_half(1));
    assert!(is_half(2));
    assert_eq!(select_policy(1920, 1080, false), FULL);
    assert_eq!(select_policy(1080, 1920, false), FULL);
    assert_eq!(select_policy(1920, 1080, true), HALF);
    assert_eq!(select_policy(1080, 1920, true), HEMISPHERE);
    assert_eq!(select_policy(1000, 1000, true), HEMISPHERE);
}

#[test]
fn finer_grid_is_fetched_for_high_screens_and_halves() {
    assert_eq!(grid_size_for(1080, false), 2);
    assert_eq!(grid_size_for(1081, false), 4);
    assert_eq!(grid_size_for(720, true), 4);
    assert_eq!(grid_size_for(2160, true), 4);
}

#[test]
fn scaler_gives_an_image_of_the_asked_size() {
    let colours: Vec<u8> = (0..8 * 6).flat_map(|_| [200u8, 100, 50]).collect();
    let src = Canvas::from_raw(8, 6, colours).unwrap();
    let scaled = fast_resize_block(&src, 4, 3).unwrap();
    assert_eq!((scaled.width(), scaled.height()), (4, 3));
    assert_eq!(scaled.as_raw().len(), 36);
    for y in 0..3 {
        for x in 0..4 {
            assert_eq!(scaled.get(x, y, 0), Some(200));
            assert_eq!(scaled.get(x, y, 1), Some(100));
            assert_eq!(scaled.get(x, y, 2), Some(50));
        }
    }
    let larger = fast_resize_block(&src, 16, 12).unwrap();
    assert_eq!((larger.width(), larger.height()), (16, 12));
    let nothing = fast_resize_block(&src, 0, 5).unwrap();
    assert_eq!(nothing.as_raw().len(), 0);
}

#[test]
fn scaler_buffer_of_wrong_length_is_no_grid() {
    assert!(grid_of(Some(vec![0u8; 12]), 2, 2).is_some());
    assert!(grid_of(Some(vec![0u8; 11]), 2, 2).is_none());
    assert!(grid_of(None, 2, 2).is_none());
}

#[test]
fn composition_pastes_the_scaled_disk_onto_black() {
    let mosaic = plain(40, 40, [255, 255, 255, 255]);
    let mut canvas = Canvas::new(64, 36).unwrap();
    let p = compose(&mosaic, &mut canvas, FULL, 9).unwrap();
    assert_eq!((p.scaled_width, p.scaled_height), (32, 32));
    assert_eq!((p.left, p.top, p.rows), (16, 2, 32));
    for y in 0..36 {
        for x in 0..64 {
            let inside = (16..48).contains(&x) && (2..34).contains(&y);
            let expected = if inside { Some(255) } else { Some(0) };
            for c in 0..3 {
                assert_eq!(canvas.get(x, y, c), expected);
            }
        }
    }
}

#[test]
fn top_anchored_composition_cuts_the_lower_rows() {
    let mosaic = plain(50, 50, [10, 20, 30, 255]);
    let mut canvas = Canvas::new(200, 100).unwrap();
    let p = compose(&mosaic, &mut canvas, HALF, 9).unwrap();
    assert_eq!((p.scaled_width, p.scaled_height), (100, 100));
    assert_eq!((p.left, p.top, p.rows), (50, 5, 95));
    assert_eq!(canvas.get(50, 4, 0), Some(0));
    assert_eq!(canvas.get(50, 5, 0), Some(10));
    assert_eq!(canvas.get(149, 99, 2), Some(30));
    assert_eq!(canvas.get(150, 99, 2), Some(0));
    assert_eq!(canvas.get(49, 50, 1), Some(0));
}

#[test]
fn morning_composition_shows_the_right_half_at_the_right_edge() {
    let mosaic = two_halves(200, 200);
    let mut canvas = Canvas::new(100, 200).unwrap();
    let p = compose(&mosaic, &mut canvas, HEMISPHERE, 9).unwrap();
    assert_eq!((p.crop_left, p.crop_width), (94, 106));
    assert_eq!(p.left + p.scaled_width, 100);
    // The right edge of the canvas shows the blue right half.
    let y = p.top + p.rows / 2;
    assert_eq!(canvas.get(99, y, 2), Some(255));
    assert_eq!(canvas.get(99, y, 0), Some(0));
    assert_eq!(canvas.get(0, y, 2), Some(0));
}

#[test]
fn afternoon_composition_shows_the_left_half_at_the_left_edge() {
    let mosaic = two_halves(200, 200);
    let mut canvas = Canvas::new(100, 200).unwrap();
    let p = compose(&mosaic, &mut canvas, HEMISPHERE, 15).unwrap();
    assert_eq!((p.crop_left, p.left), (0, 0));
    let y = p.top + p.rows / 2;
    assert_eq!(canvas.get(0, y, 0), Some(255));
    assert_eq!(canvas.get(0, y, 2), Some(0));
    assert_eq!(canvas.get(99, y, 0), Some(0));
}

#[test]
fn failed_composition_leaves_the_canvas() {
    let mosaic = Mosaic::from_raw(0, 4, Vec::new()).unwrap();
    let mut canvas = Canvas::from_raw(2, 1, vec![1, 2, 3, 4, 5, 6]).unwrap();
    assert_eq!(compose(&mosaic, &mut canvas, FULL, 9).err(), Some(CompositionError::Geometry));
    assert_eq!(canvas.as_raw(), &vec![1, 2, 3, 4, 5, 6]);
}

#[test]
fn scaled_image_of_another_size_is_not_pasted() {
    let mut canvas = Canvas::new(10, 10).unwrap();
    let scaled = Canvas::new(4, 4).unwrap();
    let p = Placement {
        crop_left: 0,
        crop_width: 8,
        scaled_width: 5,
        scaled_height: 4,
        left: 0,
        top: 0,
        rows: 4,
    };
    assert_eq!(paste_scaled(&mut canvas, &scaled, p).err(), Some(CompositionError::Geometry));
    let p = Placement { scaled_width: 4, left: 7, ..p };
    assert_eq!(paste_scaled(&mut canvas, &scaled, p).err(), Some(CompositionError::Geometry));
    let p = Placement { left: 6, ..p };
    assert!(paste_scaled(&mut canvas, &scaled, p).is_ok());
}

#[test]
fn four_tiles_of_550_become_a_centred_wallpaper() {
    let tiles: Vec<TileImage> = (0..4u8)
        .map(|k| {
            let data: Vec<u8> = (0..550 * 550).flat_map(|_| [60 * k + 40, 200, 90, 255]).collect();
            TileImage::from_raw(550, 550, data).unwrap()
        })
        .collect();
    let mosaic = assemble(&tiles, 2, CoordinateOrder::RowMajor).unwrap();
    assert_eq!((mosaic.width(), mosaic.height()), (1100, 1100));
    let canvas = set_wallpaper(&mosaic, 1920, 1080, false, 9).unwrap();
    assert_eq!((canvas.width(), canvas.height()), (1920, 1080));
    // The disk is 972 pixels wide and high, and as far from the left as from the right.
    assert_eq!(canvas.get(473, 540, 1), Some(0));
    assert_eq!(canvas.get(474, 540, 1), Some(200));
    assert_eq!(canvas.get(1445, 540, 1), Some(200));
    assert_eq!(canvas.get(1446, 540, 1), Some(0));
    assert_eq!(canvas.get(960, 53, 1), Some(0));
    assert_eq!(canvas.get(960, 54, 1), Some(200));
    assert_eq!(canvas.get(960, 1025, 1), Some(200));
    assert_eq!(canvas.get(960, 1026, 1), Some(0));
    // The first tile is shown top left, the last bottom right.
    assert_eq!(canvas.get(500, 80, 0), Some(40));
    assert_eq!(canvas.get(1400, 1000, 0), Some(220));
}

#[test]
fn wallpaper_of_the_present_hour_has_the_screens_size() {
    let mosaic = plain(20, 20, [5, 6, 7, 255]);
    let canvas = set_wallpaper_now(&mosaic, 30, 60, true).unwrap();
    assert_eq!((canvas.width(), canvas.height()), (30, 60));
    let empty = Mosaic::from_raw(0, 0, Vec::new()).unwrap();
    assert_eq!(set_wallpaper_now(&empty, 30, 60, true).err(), Some(CompositionError::Geometry));
}

#[test]
fn image_too_large_to_allocate_is_a_scaling_failure() {
    let src = Canvas::new(2, 2).unwrap();
    assert_eq!(
        fast_resize_block(&src, u32::MAX, u32::MAX).err(),
        Some(CompositionError::Scaling)
    );
}

#[test]
fn kept_columns_are_the_planned_ones_without_alpha() {
    let mosaic = two_halves(200, 4);
    let morning = plan_layout(200, 4, 100, 200, HEMISPHERE, 9).unwrap();
    let kept = kept_columns(&mosaic, morning).unwrap();
    assert_eq!((kept.width(), kept.height()), (106, 4));
    for y in 0..4 {
        for x in 0..106 {
            for c in 0..3 {
                assert_eq!(kept.get(x, y, c), mosaic.get(x + 94, y, c));
            }
        }
    }
    // Columns 94 to 99 are red, the others blue.
    assert_eq!(kept.get(5, 0, 0), Some(255));
    assert_eq!(kept.get(6, 0, 0), Some(0));
    assert_eq!(kept.get(6, 0, 2), Some(255));
    let afternoon = plan_layout(200, 4, 100, 200, HEMISPHERE, 15).unwrap();
    let kept = kept_columns(&mosaic, afternoon).unwrap();
    assert_eq!(kept.get(0, 0, 0), mosaic.get(0, 0, 0));
    assert_eq!(kept.get(105, 3, 2), mosaic.get(105, 3, 2));
    let whole = plan_layout(200, 4, 100, 200, FULL, 9).unwrap();
    assert_eq!(kept_columns(&mosaic, whole).unwrap().width(), 200);
    let beyond = Placement { crop_left: 150, ..morning };
    assert!(kept_columns(&mosaic, beyond).is_none());
}

#[test]
fn noon_shows_only_the_blue_right_part() {
    // Red up to column 1000, blue from there on; the crop begins at column 1034.
    let mut data = Vec::with_capacity(2200 * 2200 * 4);
    for _ in 0..2200 {
        for x in 0..2200 {
            data.extend_from_slice(if x < 1000 { &[255, 0, 0, 255] } else { &[0, 0, 255, 255] });
        }
    }
    let mosaic = Mosaic::from_raw(2200, 2200, data).unwrap();
    let canvas = set_wallpaper(&mosaic, 1080, 1920, true, 12).unwrap();
    let raw = canvas.as_raw();
    assert!(raw.chunks(3).all(|pixel| pixel[0] == 0));
    assert!(raw.chunks(3).any(|pixel| pixel[2] != 0));
    assert_eq!(canvas.get(1079, 960, 2), Some(255));
    assert_eq!(canvas.get(113, 960, 2), Some(0));
    assert_eq!(canvas.get(114, 960, 2), Some(255));
}

#[test]
fn scaling_twice_gives_the_same_image() {
    let colours: Vec<u8> = (0..9 * 7 * 3).map(|i| (i * 37 % 256) as u8).collect();
    let src = Canvas::from_raw(9, 7, colours).unwrap();
    let first = fast_resize_block(&src, 5, 4).unwrap();
    let second = fast_resize_block(&src, 5, 4).unwrap();
    assert_eq!(first.as_raw(), second.as_raw());
    let same = fast_resize_block(&src, 9, 7).unwrap();
    assert_eq!(same.as_raw(), src.as_raw());
}
