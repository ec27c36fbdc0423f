use satellite_wallpaper::mosaic::assemble;
use satellite_wallpaper::mosaic::AssemblyError;
use satellite_wallpaper::mosaic::CoordinateOrder;
use satellite_wallpaper::mosaic::TileCoordinate;
use satellite_wallpaper::raster::TileImage;

/// A tile of `w` by `h` pixels whose every sample is told by its tile index,
/// its column, its row and its channel.
fn tile(index: u32, w: u32, h: u32) -> TileImage {
    let mut data = Vec::new();
    for y in 0..h {
        for x in 0..w {
            data.push((index * 16 + 1) as u8);
            data.push(x as u8);
            data.push(y as u8);
            data.push(255);
        }
    }
    TileImage::from_raw(w, h, data).unwrap()
}

fn check_round_trip(d: u32, w: u32, h: u32, order: CoordinateOrder) {
    let tiles: Vec<TileImage> = (0..d * d).map(|k| tile(k, w, h)).collect();
    let mosaic = assemble(&tiles, d, order).unwrap();
    assert_eq!(mosaic.width(), w * d);
    assert_eq!(mosaic.height(), h * d);
    for k in 0..d * d {
        let (column, row) = match order {
            CoordinateOrder::RowMajor => (k % d, k / d),
            CoordinateOrder::ColumnMajor => (k / d, k % d),
        };
        for c in 0..4 {
            assert_eq!(mosaic.get(column * w, row * h, c), tiles[k as usize].get(0, 0, c));
            assert_eq!(
                mosaic.get(column * w + w - 1, row * h + h - 1, c),
                tiles[k as usize].get(w - 1, h - 1, c)
            );
        }
        assert_eq!(mosaic.get(column * w, row * h, 0), Some((k * 16 + 1) as u8));
    }
}

#[test]
fn mosaic_of_one_tile_is_the_tile() {
    check_round_trip(1, 5, 3, CoordinateOrder::RowMajor);
    check_round_trip(1, 5, 3, CoordinateOrder::ColumnMajor);
    let tiles = vec![tile(0, 5, 3)];
    let mosaic = assemble(&tiles, 1, CoordinateOrder::RowMajor).unwrap();
    assert_eq!(mosaic.as_raw(), tiles[0].as_raw());
}

#[test]
fn mosaic_of_four_tiles_keeps_each_corner() {
    check_round_trip(2, 4, 6, CoordinateOrder::RowMajor);
    check_round_trip(2, 4, 6, CoordinateOrder::ColumnMajor);
}

#[test]
fn mosaic_of_sixteen_tiles_keeps_each_corner() {
    check_round_trip(4, 3, 2, CoordinateOrder::RowMajor);
    check_round_trip(4, 3, 2, CoordinateOrder::ColumnMajor);
}

#[test]
fn row_major_puts_second_tile_to_the_right() {
    let tiles: Vec<TileImage> = (0..4).map(|k| tile(k, 2, 2)).collect();
    let mosaic = assemble(&tiles, 2, CoordinateOrder::RowMajor).unwrap();
    assert_eq!(mosaic.get(2, 0, 0), Some(17));
    assert_eq!(mosaic.get(0, 2, 0), Some(33));
}

#[test]
fn column_major_puts_second_tile_below() {
    let tiles: Vec<TileImage> = (0..4).map(|k| tile(k, 2, 2)).collect();
    let mosaic = assemble(&tiles, 2, CoordinateOrder::ColumnMajor).unwrap();
    assert_eq!(mosaic.get(0, 2, 0), Some(17));
    assert_eq!(mosaic.get(2, 0, 0), Some(33));
}

#[test]
fn assembly_refuses_wrong_tile_count() {
    let tiles: Vec<TileImage> = (0..3).map(|k| tile(k, 2, 2)).collect();
    assert_eq!(assemble(&tiles, 2, CoordinateOrder::RowMajor).err(), Some(AssemblyError));
    let none: Vec<TileImage> = Vec::new();
    assert_eq!(assemble(&none, 0, CoordinateOrder::RowMajor).err(), Some(AssemblyError));
}

#[test]
fn assembly_refuses_tiles_of_different_size() {
    let tiles = vec![tile(0, 2, 2), tile(1, 2, 2), tile(2, 3, 2), tile(3, 2, 2)];
    assert_eq!(assemble(&tiles, 2, CoordinateOrder::RowMajor).err(), Some(AssemblyError));
}

#[test]
fn index_and_position_are_inverse() {
    for order in [CoordinateOrder::RowMajor, CoordinateOrder::ColumnMajor] {
        for k in 0..16u64 {
            let at = order.position(k, 4).unwrap();
            assert_eq!(order.index(at, 4), Some(k));
        }
        assert_eq!(order.position(16, 4), None);
        assert_eq!(order.position(0, 0), None);
        assert_eq!(order.index(TileCoordinate { x: 4, y: 0 }, 4), None);
    }
    assert_eq!(CoordinateOrder::RowMajor.index(TileCoordinate { x: 1, y: 2 }, 4), Some(9));
    assert_eq!(CoordinateOrder::ColumnMajor.index(TileCoordinate { x: 1, y: 2 }, 4), Some(6));
}
