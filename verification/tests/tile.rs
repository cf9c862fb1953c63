use centipede::color::Rgb;
use centipede::tile::Tile;

#[test]
fn first_tile_sits_in_the_top_left_corner() {
    let tile = Tile::new(32, 0, 0, 0);
    assert_eq!(
        tile,
        Tile { row: 0, col: 0, x: 0, y: 0, size: 32, color: Rgb { red: 20, green: 20, blue: 0 } }
    );
}

#[test]
fn tile_position_is_index_times_size() {
    let tile = Tile::new(32, 0, 14, 24);
    assert_eq!(tile.x, 768);
    assert_eq!(tile.y, 448);
    assert_eq!(tile.size, 32);
    assert_eq!(tile.row, 14);
    assert_eq!(tile.col, 24);
    assert_eq!(tile.color, Rgb { red: 500, green: 300, blue: 0 });
}

#[test]
fn tile_depends_on_its_own_indices_only() {
    let alone = Tile::new(10, 3, 2, 5);
    for row in 0..4u32 {
        for col in 0..8u32 {
            let _ = Tile::new(10, 3, row, col);
        }
    }
    assert_eq!(Tile::new(10, 3, 2, 5), alone);
    assert_eq!(
        alone,
        Tile { row: 2, col: 5, x: 50, y: 20, size: 10, color: Rgb { red: 120, green: 60, blue: 3 } }
    );
}

#[test]
fn far_tile_does_not_overflow() {
    let tile = Tile::new(u32::MAX, u64::MAX, u32::MAX, u32::MAX);
    assert_eq!(tile.x, 4_294_967_295u64 * 4_294_967_295u64);
    assert_eq!(tile.y, 4_294_967_295u64 * 4_294_967_295u64);
    assert_eq!(tile.color.blue, u64::MAX);
}

#[test]
fn tile_of_size_zero_stays_at_the_origin() {
    let tile = Tile::new(0, 0, 9, 9);
    assert_eq!((tile.x, tile.y, tile.size), (0, 0, 0));
}
