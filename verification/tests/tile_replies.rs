use satellite_wallpaper::downloader::tiles::collect_tiles;
use satellite_wallpaper::downloader::tiles::download;
use satellite_wallpaper::downloader::tiles::download_decoded;
use satellite_wallpaper::downloader::tiles::download_image;
use satellite_wallpaper::downloader::tiles::is_image_type;
use satellite_wallpaper::downloader::tiles::tile_of;
use satellite_wallpaper::downloader::tiles::DecodedImage;
use satellite_wallpaper::downloader::tiles::DownloadError;
use satellite_wallpaper::downloader::tiles::TileError;
use satellite_wallpaper::downloader::tiles::TileReply;
use satellite_wallpaper::mosaic::CoordinateOrder;
use satellite_wallpaper::raster::TileImage;

fn png(w: u32, h: u32, samples: Vec<u8>) -> Vec<u8> {
    let picture = image::RgbaImage::from_raw(w, h, samples).unwrap();
    let mut file = std::io::Cursor::new(Vec::new());
    picture.write_to(&mut file, image::ImageFormat::Png).unwrap();
    file.into_inner()
}

fn samples(seed: u8, w: u32, h: u32) -> Vec<u8> {
    (0..w * h * 4).map(|i| seed.wrapping_add((i * 7) as u8)).collect()
}

fn answered(body: Vec<u8>) -> TileReply {
    TileReply::Answered { status: 200, content_type: Some(String::from("image/png")), body }
}

#[test]
fn image_reply_is_decoded_to_its_pixels() {
    let reply = answered(png(3, 2, samples(9, 3, 2)));
    let tile = download_image(&reply).unwrap();
    assert_eq!(tile.width(), 3);
    assert_eq!(tile.height(), 2);
    assert_eq!(tile.into_raw(), samples(9, 3, 2));
}

#[test]
fn reply_without_content_type_is_decoded() {
    let reply =
        TileReply::Answered { status: 204, content_type: None, body: png(1, 1, vec![1, 2, 3, 4]) };
    assert_eq!(download_image(&reply).unwrap().into_raw(), vec![1, 2, 3, 4]);
}

#[test]
fn unanswered_request_is_a_transport_failure() {
    assert_eq!(download_image(&TileReply::Unanswered).err(), Some(TileError::Transport));
}

#[test]
fn status_outside_success_is_refused() {
    for status in [199, 300, 404, 500, -1] {
        let reply = TileReply::Answered {
            status,
            content_type: Some(String::from("image/png")),
            body: png(1, 1, vec![0, 0, 0, 255]),
        };
        assert_eq!(download_image(&reply).err(), Some(TileError::Status));
    }
}

#[test]
fn html_page_with_success_status_is_refused() {
    let reply = TileReply::Answered {
        status: 200,
        content_type: Some(String::from("text/html")),
        body: png(1, 1, vec![0, 0, 0, 255]),
    };
    assert_eq!(download_image(&reply).err(), Some(TileError::NotAnImage));
}

#[test]
fn body_that_is_no_image_is_undecodable() {
    let reply = answered(b"<html>not found</html>".to_vec());
    assert_eq!(download_image(&reply).err(), Some(TileError::Undecodable));
    assert_eq!(download_image(&answered(Vec::new())).err(), Some(TileError::Undecodable));
}

#[test]
fn content_type_must_begin_with_image() {
    assert!(is_image_type("image/png"));
    assert!(is_image_type("image/"));
    assert!(is_image_type("image/jpeg; q=1"));
    assert!(!is_image_type("imag"));
    assert!(!is_image_type(""));
    assert!(!is_image_type("text/html"));
    assert!(is_image_type("Image/png"));
    assert!(is_image_type("IMAGE/PNG"));
    assert!(is_image_type("iMaGe/x"));
    assert!(!is_image_type("image-png"));
    assert!(!is_image_type("imagf/png"));
    assert!(!is_image_type("application/image/png"));
}

#[test]
fn decoder_result_must_fill_its_dimensions() {
    let good = DecodedImage { width: 2, height: 1, samples: vec![0; 8] };
    assert!(tile_of(Some(good)).is_ok());
    let short = DecodedImage { width: 2, height: 1, samples: vec![0; 7] };
    assert_eq!(tile_of(Some(short)).err(), Some(TileError::Undecodable));
    assert_eq!(tile_of(None).err(), Some(TileError::Undecodable));
}

fn fetched(count: u32) -> Vec<Result<TileImage, TileError>> {
    (0..count).map(|k| Ok(TileImage::from_raw(2, 2, samples(k as u8, 2, 2)).unwrap())).collect()
}

#[test]
fn one_failed_tile_fails_the_fetch_and_is_named() {
    for d in [1u32, 2, 4] {
        for failing in 0..(d * d) as usize {
            let mut results = fetched(d * d);
            results[failing] = Err(TileError::Transport);
            assert_eq!(
                download_decoded(results, d, CoordinateOrder::RowMajor).err(),
                Some(DownloadError::TileFetchFailed { index: failing, cause: TileError::Transport })
            );
        }
    }
}

#[test]
fn first_of_several_failures_is_named() {
    let mut results = fetched(4);
    results[3] = Err(TileError::Status);
    results[1] = Err(TileError::Undecodable);
    assert_eq!(
        collect_tiles(results).err(),
        Some(DownloadError::TileFetchFailed { index: 1, cause: TileError::Undecodable })
    );
}

#[test]
fn complete_fetch_keeps_the_order_of_the_tiles() {
    let tiles = collect_tiles(fetched(4)).unwrap();
    assert_eq!(tiles.len(), 4);
    for (k, tile) in tiles.iter().enumerate() {
        assert_eq!(tile.as_raw(), &samples(k as u8, 2, 2));
    }
    assert!(collect_tiles(Vec::new()).unwrap().is_empty());
}

#[test]
fn complete_fetch_of_wrong_count_is_an_assembly_error() {
    assert_eq!(
        download_decoded(fetched(3), 2, CoordinateOrder::RowMajor).err(),
        Some(DownloadError::AssemblyError)
    );
}

#[test]
fn replies_become_the_mosaic() {
    let replies: Vec<TileReply> =
        (0..4u8).map(|k| answered(png(2, 2, samples(k, 2, 2)))).collect();
    let mosaic = download(&replies, 2, CoordinateOrder::ColumnMajor).unwrap();
    assert_eq!(mosaic.width(), 4);
    assert_eq!(mosaic.height(), 4);
    // The tile of index 1 lies below the first one.
    assert_eq!(mosaic.get(0, 2, 0), Some(samples(1, 2, 2)[0]));
    assert_eq!(mosaic.get(2, 0, 0), Some(samples(2, 2, 2)[0]));
}

#[test]
fn one_refused_reply_fails_the_download() {
    for failing in 0..4usize {
        let mut replies: Vec<TileReply> =
            (0..4u8).map(|k| answered(png(2, 2, samples(k, 2, 2)))).collect();
        replies[failing] = TileReply::Unanswered;
        assert_eq!(
            download(&replies, 2, CoordinateOrder::RowMajor).err(),
            Some(DownloadError::TileFetchFailed { index: failing, cause: TileError::Transport })
        );
    }
}

#[test]
fn image_reply_with_capital_media_type_is_decoded() {
    let reply = TileReply::Answered {
        status: 200,
        content_type: Some(String::from("Image/PNG")),
        body: png(1, 1, vec![4, 3, 2, 1]),
    };
    assert_eq!(download_image(&reply).unwrap().into_raw(), vec![4, 3, 2, 1]);
}

#[test]
fn jpeg_reply_is_decoded_to_its_size() {
    let picture = image::RgbImage::from_raw(8, 8, vec![128u8; 192]).unwrap();
    let mut file = std::io::Cursor::new(Vec::new());
    picture.write_to(&mut file, image::ImageFormat::Jpeg).unwrap();
    let reply = TileReply::Answered {
        status: 200,
        content_type: Some(String::from("image/jpeg")),
        body: file.into_inner(),
    };
    let tile = download_image(&reply).unwrap();
    assert_eq!((tile.width(), tile.height()), (8, 8));
    assert_eq!(tile.get(0, 0, 3), Some(255));
}

#[test]
fn same_bytes_decode_to_the_same_tile() {
    let body = png(3, 3, samples(5, 3, 3));
    let first = download_image(&answered(body.clone())).unwrap();
    let second = download_image(&answered(body)).unwrap();
    assert_eq!(first.as_raw(), second.as_raw());
}

#[test]
fn undecodable_reply_before_a_refused_one_is_named() {
    let mut replies: Vec<TileReply> =
        (0..4u8).map(|k| answered(png(2, 2, samples(k, 2, 2)))).collect();
    replies[1] = answered(vec![1, 2, 3]);
    replies[3] = TileReply::Unanswered;
    assert_eq!(
        download(&replies, 2, CoordinateOrder::RowMajor).err(),
        Some(DownloadError::TileFetchFailed { index: 1, cause: TileError::Undecodable })
    );
}
