use centipede::grid::Viewport;

#[test]
fn grid_of_the_default_window() {
    let viewport = Viewport { width: 800, height: 480 };
    assert_eq!(viewport.cols(32), 25);
    assert_eq!(viewport.rows(32), 15);
}

#[test]
fn leftover_pixels_do_not_make_a_tile() {
    let viewport = Viewport { width: 831, height: 511 };
    assert_eq!(viewport.cols(32), 25);
    assert_eq!(viewport.rows(32), 15);
    let viewport = Viewport { width: 832, height: 512 };
    assert_eq!(viewport.cols(32), 26);
    assert_eq!(viewport.rows(32), 16);
}

#[test]
fn counts_are_the_floor_of_extent_over_tile_size() {
    for width in 0..70u32 {
        for tile_size in 1..12u32 {
            let viewport = Viewport { width, height: 2 * width + 1 };
            let cols = viewport.cols(tile_size);
            let rows = viewport.rows(tile_size);
            assert!(cols * tile_size <= width);
            assert!(width < (cols + 1) * tile_size);
            assert!(rows * tile_size <= viewport.height);
            assert!(viewport.height < (rows + 1) * tile_size);
        }
    }
}

#[test]
fn viewport_smaller_than_a_tile_has_no_columns_or_rows() {
    assert_eq!(Viewport { width: 31, height: 480 }.cols(32), 0);
    assert_eq!(Viewport { width: 800, height: 31 }.rows(32), 0);
    assert_eq!(Viewport { width: 0, height: 0 }.cols(1), 0);
    assert_eq!(Viewport { width: 0, height: 0 }.rows(1), 0);
}

#[test]
fn tile_of_one_pixel_gives_one_tile_per_pixel() {
    let viewport = Viewport { width: u32::MAX, height: 7 };
    assert_eq!(viewport.cols(1), u32::MAX);
    assert_eq!(viewport.rows(1), 7);
}

#[test]
fn tile_as_large_as_the_viewport_gives_one_tile() {
    let viewport = Viewport { width: 64, height: 64 };
    assert_eq!(viewport.cols(64), 1);
    assert_eq!(viewport.rows(64), 1);
    assert_eq!(viewport.cols(65), 0);
    assert_eq!(viewport.cols(u32::MAX), 0);
}
