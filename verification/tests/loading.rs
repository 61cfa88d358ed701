//! Level-image decoding, the spawn map, file-path building, and the stat
//! tables.
use shooter_core::entityparam_settings::EntitySettings;
use shooter_core::geom::vec2i;
use shooter_core::levelloader::{Image, LevelLoader, LoadedLevelData, Pixel};
use shooter_core::world::World;

fn px(r: u8, g: u8, b: u8, a: u8) -> Pixel {
    Pixel { r, g, b, a }
}

#[test]
fn image_pixels_classify_into_element_lists() {
    // a 2x2 level image: a wall, a spawner, the level end, and noise
    let pixels = vec![
        px(255, 255, 255, 255),
        px(255, 0, 0, 255),
        px(0, 255, 0, 255),
        px(90, 90, 90, 255),
    ];
    let image = Image::new(2, 2, pixels);
    let loader = LevelLoader::new();
    let data = loader.convert_image_to_level(&image);
    assert_eq!(data.walls, vec![vec2i(0, 0)]);
    assert_eq!(data.enemy_spawner.len(), 1);
    assert_eq!(data.enemy_spawner[0].position, vec2i(1, 0));
    assert_eq!(data.enemy_spawner[0].count, 0);
    assert_eq!(data.level_end, vec![vec2i(0, 1)]);
    assert!(data.blocking_walls.is_empty());
    assert!(data.trap_walls.is_empty());
    assert!(data.destructibles.is_empty());
    assert!(data.turrets.is_empty());
}

#[test]
fn classification_tolerates_twenty_per_channel() {
    let pixels = vec![px(236, 240, 255, 250), px(230, 255, 255, 255)];
    let image = Image::new(2, 1, pixels);
    let loader = LevelLoader::new();
    let data = loader.convert_image_to_level(&image);
    // the first is within 20 of white on every channel; the second is 25
    // off on red
    assert_eq!(data.walls, vec![vec2i(0, 0)]);
}

#[test]
fn spawn_map_writes_count_and_kind_in_order() {
    let pixels = vec![
        px(255, 0, 0, 255),
        px(180, 180, 180, 255),
        px(255, 0, 0, 255),
        px(0, 0, 0, 255),
    ];
    let image = Image::new(2, 2, pixels);
    let loader = LevelLoader::new();
    let mut data = loader.convert_image_to_level(&image);
    assert_eq!(data.enemy_spawner.len(), 2);
    // the spawn map: opaque pixels carry count in green, kind in blue;
    // translucent pixels are skipped
    let map = Image::new(
        2,
        2,
        vec![px(0, 3, 1, 255), px(0, 9, 9, 128), px(0, 5, 2, 255), px(0, 0, 0, 0)],
    );
    loader.load_spawnmap(&mut data, &map);
    assert_eq!(data.enemy_spawner[0].count, 3);
    assert_eq!(data.enemy_spawner[0].kind, 1);
    assert_eq!(data.enemy_spawner[1].count, 5);
    assert_eq!(data.enemy_spawner[1].kind, 2);
    // positions are untouched
    assert_eq!(data.enemy_spawner[0].position, vec2i(0, 0));
    assert_eq!(data.enemy_spawner[1].position, vec2i(0, 1));
}

#[test]
fn file_paths_join_and_names_cut_at_the_dot() {
    let loader = LevelLoader::new();
    let (paths, names) = loader.build_filepath(
        vec!["Level_1.png", "Level_2.spawn.png"],
        "resources/levels/",
    );
    assert_eq!(paths.len(), 2);
    assert_eq!(paths[0], "resources/levels/Level_1.png");
    assert_eq!(paths[1], "resources/levels/Level_2.spawn.png");
    assert_eq!(names[0], "Level_1");
    assert_eq!(names[1], "Level_2");
}

#[test]
fn empty_layout_is_empty() {
    let d = LoadedLevelData::new();
    assert!(d.walls.is_empty());
    assert!(d.enemy_spawner.is_empty());
    assert!(d.level_end.is_empty());
}

#[test]
fn stat_tables_scale_with_difficulty() {
    let mut world = World::new();
    let p = EntitySettings::player_settings();
    assert_eq!(p.health, 100);
    assert_eq!(p.speed, 350);
    assert_eq!(p.firespeed, 700);
    assert_eq!(p.firerate, 60);
    let e0 = EntitySettings::enemy_default_settings(&world);
    assert_eq!(e0.health, 5);
    assert_eq!(e0.speed, 150);
    world.set_difficulty(4);
    let e4 = EntitySettings::enemy_default_settings(&world);
    assert_eq!(e4.health, 5 + 3 * 4 / 2);
    assert_eq!(e4.speed, 150 + 5 * 4);
    let t4 = EntitySettings::enemy_tank_settings(&world);
    assert_eq!(t4.health, 20 + 3 * 4);
    assert_eq!(t4.firespeed, 300 + 3 * 4);
    let g4 = EntitySettings::enemy_gunner_settings(&world);
    assert_eq!(g4.health, 3 + 4);
    let trap = EntitySettings::trap_settings(&world);
    assert_eq!(trap.health, 14);
    assert_eq!(trap.armor, 5);
    // the difficulty's effect is capped
    world.set_difficulty(5_000);
    let capped = EntitySettings::enemy_default_settings(&world);
    assert_eq!(capped.speed, 150 + 5 * 1000);
}
