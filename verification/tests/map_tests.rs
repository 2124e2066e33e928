use rust_rpg::atlas::{Atlas, AtlasInfo, Frame, Type};
use rust_rpg::geometry::{Point, Size};
use rust_rpg::map::TileMap;
use rust_rpg::world::World;

fn tile_frame(name: &str, x: i32, y: i32) -> Frame {
    Frame { name: name.to_owned(), x, y, w: 133, h: 127 }
}

fn landscape() -> Atlas {
    Atlas {
        meta: AtlasInfo {
            name: Type::Landscape,
            path: "/atlas/landscape.png".to_owned(),
            size: (512, 512),
            frames: vec![
                tile_frame("grass", 0, 0),
                tile_frame("water", 133, 0),
                tile_frame("rock", 266, 0),
            ],
        },
    }
}

fn grid_2x2() -> Vec<Vec<u32>> {
    vec![vec![0, 1], vec![2, 0]]
}

#[test]
fn generation_projects_tiles_isometrically() {
    let map = TileMap::new(&grid_2x2(), &landscape(), 2).expect("complete grid");
    assert_eq!(map.size, 2);
    assert_eq!(map.layers_len(), 1);
    let layer = &map.layers()[0];
    assert_eq!(layer.level, 0);
    assert_eq!(layer.data.len(), 2);
    assert_eq!(layer.data[0].len(), 2);

    // the stated 2:1 projection with 133 x 127 sprites on a 2-row map:
    // x = (64 xi - 64 yi - (133 - 128) - 64) * 600
    // y = (32 yi + 32 xi - (127 - 64) - (32 * 2 - 32)) * 600
    assert_eq!(layer.data[0][0].position, Point::new(-41_400, -57_000));
    assert_eq!(layer.data[0][1].position, Point::new(-79_800, -37_800));
    assert_eq!(layer.data[1][0].position, Point::new(-3_000, -37_800));
    assert_eq!(layer.data[1][1].position, Point::new(-41_400, -18_600));
}

#[test]
fn generation_is_deterministic_for_equal_inputs() {
    let m1 = TileMap::new(&grid_2x2(), &landscape(), 2).unwrap();
    let m2 = TileMap::new(&grid_2x2(), &landscape(), 2).unwrap();
    for x in 0..2 {
        for y in 0..2 {
            assert_eq!(
                m1.layers()[0].data[x][y].position,
                m2.layers()[0].data[x][y].position,
            );
            assert_eq!(m1.layers()[0].data[x][y].sprite, m2.layers()[0].data[x][y].sprite);
        }
    }
}

#[test]
fn playable_area_comes_from_the_corner_tiles() {
    let map = TileMap::new(&grid_2x2(), &landscape(), 2).unwrap();
    let layer = &map.layers()[0];
    assert_eq!(map.playable_area[0], layer.data[0][0].position); // top
    assert_eq!(map.playable_area[1], layer.data[0][1].position); // right
    assert_eq!(map.playable_area[2], layer.data[1][1].position); // bottom
    assert_eq!(map.playable_area[3], layer.data[1][0].position); // left
}

#[test]
fn tile_types_without_sprites_are_skipped() {
    // row 0 keeps one tile, row 1 keeps both corner tiles
    let grid = vec![vec![0, 99], vec![1, 2]];
    let map = TileMap::new(&grid, &landscape(), 2).expect("corners still present");
    assert_eq!(map.layers()[0].data[0].len(), 1);
    assert_eq!(map.layers()[0].data[1].len(), 2);
}

#[test]
fn generation_without_corner_tiles_yields_nothing() {
    // every tile type of the first row is undeclared, so the playable area
    // cannot be computed
    let grid = vec![vec![99, 99], vec![0, 1]];
    assert!(TileMap::new(&grid, &landscape(), 2).is_none());
}

#[test]
fn random_point_is_a_tile_position() {
    let map = TileMap::new(&grid_2x2(), &landscape(), 2).unwrap();
    for _ in 0..20 {
        let p = map.get_random_point().expect("complete map");
        let found = map.layers()[0]
            .data
            .iter()
            .flatten()
            .any(|t| t.position == p);
        assert!(found);
    }
}

#[test]
fn world_spawns_player_on_a_map_tile() {
    let map = TileMap::new(&grid_2x2(), &landscape(), 2).unwrap();
    let positions: Vec<Point> = map.layers()[0].data.iter().flatten().map(|t| t.position)
        .collect();
    let world = World::new(Size::new(1_400_000, 1_000_000), map);
    assert!(world.player.is_dead);
    assert!(world.enemies.is_empty());
    assert!(world.powerups.is_empty());
    assert!(positions.contains(&world.player.vector.position));
}

#[test]
fn world_map_position_is_the_screen_center() {
    let map = TileMap::new(&grid_2x2(), &landscape(), 2).unwrap();
    let world = World::new(Size::new(1_400_000, 1_000_000), map);
    let center = world.map_position();
    assert_eq!(center, Point::new(700_000, 500_000));
}

#[test]
fn world_map_size_counts_whole_tile_rows() {
    // 1000 units of height at 64 units per tile row
    assert_eq!(World::map_size(Size::new(1_400_000, 1_000_000)), 15);
}
