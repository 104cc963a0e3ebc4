use pbrtrs_core::image_tiler::{ImageTile, ImageTileGenerator, TileRect, TILE_SIZE};

fn rect_of(tile: &ImageTile<u8>) -> (usize, usize, usize, usize) {
    let (x, y) = tile.location();
    let (width, height) = tile.dimensions();
    (x, y, width, height)
}

#[test]
fn tiled_image_get_tile_both_small() {
    let mut image = ImageTileGenerator::new(10, 10);
    let tile = image.get_tile::<u8>(0).unwrap();
    assert!(image.get_tile::<u8>(0).is_none());
    assert_eq!(tile.dimensions().0, 10);
    assert_eq!(tile.dimensions().1, 10);
    assert_eq!(tile.location().0, 0);
    assert_eq!(tile.location().1, 0);
}

#[test]
fn tiled_image_get_tile_small_width() {
    let mut image = ImageTileGenerator::new(10, 32);
    let tile1 = image.get_tile::<u8>(0).unwrap();
    let tile2 = image.get_tile::<u8>(0).unwrap();
    assert!(image.get_tile::<u8>(0).is_none());
    assert_eq!(tile1.dimensions().0, 10);
    assert_eq!(tile1.dimensions().1, 16);
    assert_eq!(tile1.location().0, 0);
    assert_eq!(tile1.location().1, 0);
    assert_eq!(tile2.dimensions().0, 10);
    assert_eq!(tile2.dimensions().1, 16);
    assert_eq!(tile2.location().0, 0);
    assert_eq!(tile2.location().1, 16);
}

#[test]
fn tiled_image_get_tile_square() {
    let mut image = ImageTileGenerator::new(32, 32);
    let tile1 = image.get_tile::<u8>(0).unwrap();
    let tile2 = image.get_tile::<u8>(0).unwrap();

    let tile3 = image.get_tile::<u8>(0).unwrap();
    let tile4 = image.get_tile::<u8>(0).unwrap();
    assert!(image.get_tile::<u8>(0).is_none());
    assert_eq!(tile1.dimensions().0, 16);
    assert_eq!(tile1.dimensions().1, 16);
    assert_eq!(tile1.location().0, 0);
    assert_eq!(tile1.location().1, 0);
    assert_eq!(tile2.dimensions().0, 16);
    assert_eq!(tile2.dimensions().1, 16);
    assert_eq!(tile2.location().0, 16);
    assert_eq!(tile2.location().1, 0);
    assert_eq!(tile3.dimensions().0, 16);
    assert_eq!(tile3.dimensions().1, 16);
    assert_eq!(tile3.location().0, 0);
    assert_eq!(tile3.location().1, 16);
    assert_eq!(tile4.dimensions().0, 16);
    assert_eq!(tile4.dimensions().1, 16);
    assert_eq!(tile4.location().0, 16);
    assert_eq!(tile4.location().1, 16);
}

#[test]
fn tiled_image_get_tile_uneven_square() {
    let mut image = ImageTileGenerator::new(34, 34);
    let tile1 = image.get_tile::<u8>(0).unwrap();
    let tile2 = image.get_tile::<u8>(0).unwrap();
    let tile3 = image.get_tile::<u8>(0).unwrap();

    let tile4 = image.get_tile::<u8>(0).unwrap();
    let tile5 = image.get_tile::<u8>(0).unwrap();
    let tile6 = image.get_tile::<u8>(0).unwrap();

    let tile7 = image.get_tile::<u8>(0).unwrap();
    let tile8 = image.get_tile::<u8>(0).unwrap();
    let tile9 = image.get_tile::<u8>(0).unwrap();
    assert!(image.get_tile::<u8>(0).is_none());

    assert_eq!(tile1.dimensions().0, 16);
    assert_eq!(tile1.dimensions().1, 16);
    assert_eq!(tile1.location().0, 0);
    assert_eq!(tile1.location().1, 0);
    assert_eq!(tile2.dimensions().0, 16);
    assert_eq!(tile2.dimensions().1, 16);
    assert_eq!(tile2.location().0, 16);
    assert_eq!(tile2.location().1, 0);
    assert_eq!(tile3.dimensions().0, 2);
    assert_eq!(tile3.dimensions().1, 16);
    assert_eq!(tile3.location().0, 32);
    assert_eq!(tile3.location().1, 0);

    assert_eq!(tile4.dimensions().0, 16);
    assert_eq!(tile4.dimensions().1, 16);
    assert_eq!(tile4.location().0, 0);
    assert_eq!(tile4.location().1, 16);
    assert_eq!(tile5.dimensions().0, 16);
    assert_eq!(tile5.dimensions().1, 16);
    assert_eq!(tile5.location().0, 16);
    assert_eq!(tile5.location().1, 16);
    assert_eq!(tile6.dimensions().0, 2);
    assert_eq!(tile6.dimensions().1, 16);
    assert_eq!(tile6.location().0, 32);
    assert_eq!(tile6.location().1, 16);

    assert_eq!(tile7.dimensions().0, 16);
    assert_eq!(tile7.dimensions().1, 2);
    assert_eq!(tile7.location().0, 0);
    assert_eq!(tile7.location().1, 32);
    assert_eq!(tile8.dimensions().0, 16);
    assert_eq!(tile8.dimensions().1, 2);
    assert_eq!(tile8.location().0, 16);
    assert_eq!(tile8.location().1, 32);
    assert_eq!(tile9.dimensions().0, 2);
    assert_eq!(tile9.dimensions().1, 2);
    assert_eq!(tile9.location().0, 32);
    assert_eq!(tile9.location().1, 32);
}

#[test]
fn image_tile_top_left() {
    let mut image = ImageTileGenerator::new(32, 32);
    let mut tile = image.get_tile::<u8>(0).unwrap();

    let mut tile_count = 0;
    while tile.next().is_some() {
        tile_count += 1;
    }

    assert_eq!(tile_count, TILE_SIZE * TILE_SIZE);
}

#[test]
fn image_tile_top_right() {
    let mut image = ImageTileGenerator::new(30, 10);
    image.get_tile::<u8>(0);
    let mut tile = image.get_tile::<u8>(0).unwrap();

    let mut tile_count = 0;
    while tile.next().is_some() {
        tile_count += 1;
    }

    assert_eq!(tile_count, tile.dimensions().0 * tile.dimensions().1);
}

#[test]
fn image_tiler_image_tile_top_left() {
    let mut image = ImageTileGenerator::new(32, 32);
    let mut tile = image.get_tile::<u8>(0).unwrap();

    let mut tile_count = 0;
    while tile.next_tile().is_some() {
        tile_count += 1;
    }

    assert_eq!(tile_count, TILE_SIZE * TILE_SIZE);
}

#[test]
fn image_tiler_image_tile_top_right() {
    let mut image = ImageTileGenerator::new(30, 10);
    image.get_tile::<u8>(0);
    let mut tile = image.get_tile::<u8>(0).unwrap();
    assert_eq!(rect_of(&tile), (16, 0, 14, 10));

    let mut tile_count = 0;
    while tile.next_tile().is_some() {
        tile_count += 1;
    }

    assert_eq!(tile_count, tile.dimensions().0 * tile.dimensions().1);
    assert_eq!(tile_count, 140);
}

#[test]
fn empty_image_has_no_tile() {
    assert_eq!(ImageTileGenerator::new(0, 0).get_num_tiles(), 0);
    assert_eq!(ImageTileGenerator::new(0, 20).get_num_tiles(), 0);
    assert_eq!(ImageTileGenerator::new(20, 0).get_num_tiles(), 0);
    assert!(ImageTileGenerator::new(0, 20).get_tile::<u8>(0).is_none());
}

#[test]
fn tile_count_rounds_up() {
    assert_eq!(ImageTileGenerator::new(1, 1).get_num_tiles(), 1);
    assert_eq!(ImageTileGenerator::new(16, 16).get_num_tiles(), 1);
    assert_eq!(ImageTileGenerator::new(17, 16).get_num_tiles(), 2);
    assert_eq!(ImageTileGenerator::new(34, 34).get_num_tiles(), 9);
    assert_eq!(ImageTileGenerator::new(640, 480).get_num_tiles(), 40 * 30);
}

#[test]
fn handing_out_counts_down() {
    let mut image = ImageTileGenerator::new(40, 20);
    assert_eq!(image.get_num_tiles(), 6);
    image.get_tile::<u8>(0);
    assert_eq!(image.get_num_tiles(), 5);
}

#[test]
fn cursor_walks_rows_in_image_coordinates() {
    let mut image = ImageTileGenerator::new(19, 18);
    image.get_tile::<u32>(7);
    image.get_tile::<u32>(7);
    image.get_tile::<u32>(7);
    let mut tile = image.get_tile::<u32>(7).unwrap();
    assert_eq!(tile.location(), (16, 16));
    assert_eq!(tile.dimensions(), (3, 2));
    let mut seen = Vec::new();
    let mut count = 0u32;
    while let Some((pixel, column, row)) = tile.next() {
        assert_eq!(*pixel, 7);
        *pixel = count;
        count += 1;
        seen.push((column, row));
    }
    assert_eq!(
        seen,
        vec![(16, 16), (17, 16), (18, 16), (16, 17), (17, 17), (18, 17)]
    );
    for idx in 0..6 {
        assert_eq!(*tile.get(idx), idx as u32);
    }
    assert!(tile.next().is_none());
}

#[test]
fn get_mut_writes_one_pixel() {
    let mut image = ImageTileGenerator::new(2, 2);
    let mut tile = image.get_tile::<u8>(1).unwrap();
    *tile.get_mut(3).unwrap() = 9;
    assert!(tile.get_mut(4).is_none());
    assert_eq!(*tile.get(0), 1);
    assert_eq!(*tile.get(3), 9);
}

#[test]
fn shuffle_keeps_the_tiles() {
    fastrand::seed(7);
    let mut plain = ImageTileGenerator::new(100, 70);
    let mut shuffled = ImageTileGenerator::new(100, 70);
    shuffled.shuffle();
    assert_eq!(shuffled.get_num_tiles(), 35);
    let mut a: Vec<(usize, usize, usize, usize)> = Vec::new();
    let mut b: Vec<(usize, usize, usize, usize)> = Vec::new();
    while let Some(tile) = plain.get_tile::<u8>(0) {
        a.push(rect_of(&tile));
    }
    while let Some(tile) = shuffled.get_tile::<u8>(0) {
        b.push(rect_of(&tile));
    }
    assert_ne!(a, b);
    b.sort();
    a.sort();
    assert_eq!(a, b);
}

#[test]
fn every_pixel_lies_in_one_tile() {
    let (width, height) = (37usize, 21usize);
    let mut image = ImageTileGenerator::new(width, height);
    let mut covered = vec![0u32; width * height];
    let mut index = 0;
    while let Some(mut tile) = image.get_tile::<u8>(0) {
        let (x, y) = tile.location();
        assert_eq!((x, y), ((index % 3) * 16, (index / 3) * 16));
        while let Some((_, column, row)) = tile.next() {
            assert_eq!(column / 16 + (row / 16) * 3, index);
            covered[column + row * width] += 1;
        }
        index += 1;
    }
    assert_eq!(index, 6);
    assert!(covered.iter().all(|count| *count == 1));
}

#[test]
fn tile_rect_fields() {
    let rect = TileRect { x: 16, y: 0, width: 14, height: 10 };
    assert_eq!(rect, TileRect { x: 16, y: 0, width: 14, height: 10 });
}
