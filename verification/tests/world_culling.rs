use rusty_engine::camera::Camera;
use rusty_engine::entity::Decoration;
use rusty_engine::world::Tile;
use rusty_engine::world::TileMeta;
use rusty_engine::world::World;

fn demo_world() -> World {
    let mut world = World::new(String::from("demo"));
    world.load_world_1();
    world
}

#[test]
fn world_dimensions_in_pixels() {
    let world = demo_world();
    assert_eq!(world.get_width(), 640);
    assert_eq!(world.get_height(), 640);
    assert_eq!(world.rows, 10);
    assert_eq!(world.columns, 10);
}

#[test]
fn demo_map_layout() {
    let world = demo_world();
    let grass = world.tile_library.tiles.lookup_index("Grass");
    let water = world.tile_library.tiles.lookup_index("Water");
    let bush = world.decorations_library.decorations.lookup_index("Bush1x1");
    assert!(world.tile_library.tiles.lookup("Grass").is_walkable);
    assert!(!world.tile_library.tiles.lookup("Water").is_walkable);
    for r in 0..10 {
        for c in 0..10 {
            let tile = &world.data[r][c];
            if (3..=6).contains(&r) && (3..=6).contains(&c) {
                assert_eq!(tile.meta, water);
            } else {
                assert_eq!(tile.meta, grass);
            }
            if r == 2 && c == 4 {
                assert_eq!(tile.decorations, vec![bush]);
            } else {
                assert!(tile.decorations.is_empty());
            }
        }
    }
}

#[test]
fn scenario_a_five_by_five_at_zero_offset() {
    let world = demo_world();
    let cam = Camera::new(300, 300, world.get_width(), world.get_height());
    assert_eq!(cam.get_x(), 150);
    assert_eq!(cam.get_y(), 150);
    let (tiles, offset_x, offset_y) = world.get_visible_subset(&cam);
    assert_eq!(tiles.len(), 5);
    for row in &tiles {
        assert_eq!(row.len(), 5);
    }
    assert_eq!(offset_x, 0);
    assert_eq!(offset_y, 0);
}

#[test]
fn scenario_a_small_scroll_keeps_columns_but_moves_offset() {
    let world = demo_world();
    let mut cam = Camera::new(300, 300, world.get_width(), world.get_height());
    cam.move_right();
    let (tiles, offset_x, offset_y) = world.get_visible_subset(&cam);
    assert_eq!(tiles.len(), 5);
    assert_eq!(tiles[0].len(), 5);
    assert_eq!(offset_x, 64 - 10);
    assert_eq!(offset_y, 0);
}

#[test]
fn scenario_b_right_edge_beyond_world_clamps_to_last_column() {
    let world = demo_world();
    let tiles = world.get_tiles(0, 650, 0, 300);
    assert_eq!(tiles.len(), 5);
    for row in &tiles {
        assert_eq!(row.len(), 10);
    }
}

#[test]
fn culling_copies_the_covered_cells() {
    let world = demo_world();
    let tiles = world.get_tiles(200, 450, 200, 450);
    assert_eq!(tiles.len(), 5);
    assert_eq!(tiles[0].len(), 5);
    for (a, row) in tiles.iter().enumerate() {
        for (b, tile) in row.iter().enumerate() {
            assert_eq!(tile.meta, world.data[3 + a][3 + b].meta);
            assert_eq!(tile.decorations, world.data[3 + a][3 + b].decorations);
        }
    }
}

#[test]
fn point_maps_to_the_tile_containing_it() {
    let world = demo_world();
    let tiles = world.get_tiles(130, 130, 70, 70);
    assert_eq!(tiles.len(), 1);
    assert_eq!(tiles[0].len(), 1);
    assert_eq!(tiles[0][0].meta, world.data[1][2].meta);
}

#[test]
fn subset_is_never_empty_at_the_far_corner() {
    let world = demo_world();
    let tiles = world.get_tiles(639, 700, 639, 700);
    assert_eq!(tiles.len(), 1);
    assert_eq!(tiles[0].len(), 1);
    assert_eq!(tiles[0][0].meta, world.data[9][9].meta);
}

#[test]
fn scenario_c_placements_share_one_prototype() {
    let mut world = demo_world();
    let bush = world.decorations_library.decorations.lookup_index("Bush1x1");
    let placed = world.data[2][4].decorations[0];
    assert_eq!(placed, bush);
    let original_image = world.decorations_library.decorations.get(placed).image;
    assert_eq!(original_image, 2);

    let replacement = Decoration { image: 99 };
    let idx = world
        .decorations_library
        .decorations
        .register(String::from("Bush1x1"), replacement);
    assert_eq!(idx, bush);
    assert_eq!(world.decorations_library.decorations.get(placed).image, 99);
}

#[test]
fn tile_prototypes_are_shared_across_cells() {
    let world = demo_world();
    let grass = world.tile_library.tiles.lookup_index("Grass");
    assert_eq!(world.data[0][0].meta, grass);
    assert_eq!(world.data[9][9].meta, grass);
    let meta: &TileMeta = world.tile_library.tiles.get(grass);
    assert_eq!(meta.image, 0);
    assert!(meta.is_walkable);
}

#[test]
fn generated_tiles_reference_the_right_prototypes() {
    let world = demo_world();
    let grass = world.tile_library.tiles.lookup_index("Grass");
    let water = world.tile_library.tiles.lookup_index("Water");
    let g: Tile = world.generate_grass_tile(Vec::new());
    assert_eq!(g.meta, grass);
    assert!(g.decorations.is_empty());
    let w: Tile = world.generate_water_tile();
    assert_eq!(w.meta, water);
    assert!(w.decorations.is_empty());
}
