use fullscreen_scene::animation::{AnimationIndices, SpriteAnimation};
use fullscreen_scene::ground::{ground_tiles, ground_y, num_tiles, tile_x, TilePlacement};
use fullscreen_scene::scene::{
    window_config, Entity, GridLayout, Player, Sprite, Transform, World, DOG_TEXTURE, GROUND_TEXTURE,
};
use fullscreen_scene::timer::RepeatingTimer;

const MS: u64 = 1_000_000;

fn dog() -> SpriteAnimation {
    SpriteAnimation::new(AnimationIndices::new(1, 7), RepeatingTimer::from_millis(100))
}

#[test]
fn timer_completes_on_crossing_tick_only() {
    let mut t = RepeatingTimer::from_millis(100);
    assert_eq!(t.duration, 100 * MS);
    t.tick(60 * MS);
    assert!(!t.just_finished());
    assert_eq!(t.elapsed, 60 * MS);
    t.tick(60 * MS);
    assert!(t.just_finished());
    assert_eq!(t.elapsed, 20 * MS);
    t.tick(10 * MS);
    assert!(!t.just_finished());
    assert_eq!(t.elapsed, 30 * MS);
}

#[test]
fn timer_exact_interval_completes() {
    let mut t = RepeatingTimer::new(100 * MS);
    t.tick(100 * MS);
    assert!(t.just_finished());
    assert_eq!(t.elapsed, 0);
    assert_eq!(t.times_finished_this_tick, 1);
}

#[test]
fn timer_large_delta_does_not_overflow() {
    let mut t = RepeatingTimer::new(3);
    t.tick(2);
    t.tick(u64::MAX);
    assert!(t.just_finished());
    assert_eq!(t.elapsed, ((u64::MAX as u128 + 2) % 3) as u64);
    assert_eq!(t.times_finished_this_tick, ((u64::MAX as u128 + 2) / 3) as u64);
}

#[test]
fn next_wraps_from_last_to_first() {
    let ix = AnimationIndices::new(1, 7);
    assert_eq!(ix.next(1), 2);
    assert_eq!(ix.next(6), 7);
    assert_eq!(ix.next(7), 1);
    let single = AnimationIndices::new(4, 4);
    assert_eq!(single.next(4), 4);
}

#[test]
fn frame_cycle_after_completions() {
    let mut a = dog();
    assert_eq!(a.index, 1);
    for n in 1..=20u64 {
        a.animate(100 * MS);
        assert_eq!(a.index as u64, 1 + n % 7);
        if n == 6 {
            assert_eq!(a.index, 7);
        }
        if n == 7 {
            assert_eq!(a.index, 1);
        }
    }
}

#[test]
fn no_advance_below_interval() {
    let mut a = dog();
    a.animate(99 * MS);
    assert_eq!(a.index, 1);
    a.animate(0);
    assert_eq!(a.index, 1);
    a.animate(1 * MS);
    assert_eq!(a.index, 2);
}

#[test]
fn oversized_delta_advances_once() {
    let mut a = dog();
    a.animate(350 * MS);
    assert_eq!(a.index, 2);
    assert!(a.timer.just_finished());
    assert_eq!(a.timer.elapsed, 50 * MS);
    assert_eq!(a.timer.times_finished_this_tick, 3);
}

#[test]
fn tile_count_covers_width() {
    assert_eq!(num_tiles(1920), 7);
    assert!(7 * 288 >= 1920);
    assert_eq!(num_tiles(0), 0);
    assert_eq!(num_tiles(1), 1);
    assert_eq!(num_tiles(288), 1);
    assert_eq!(num_tiles(289), 2);
    assert_eq!(num_tiles(u32::MAX), 14_913_081);
}

#[test]
fn tile_positions_in_half_pixels() {
    // -144 and -1008 pixels
    assert_eq!(tile_x(3, 7), -288);
    assert_eq!(tile_x(0, 7), -2016);
    assert_eq!(tile_x(6, 7), 1440);
    // -1080 / 2 + 12 = -528 pixels
    assert_eq!(ground_y(1080), -1056);
    assert_eq!(ground_y(0), 24);
}

#[test]
fn ground_row_for_full_hd() {
    let tiles = ground_tiles(1920, 1080);
    assert_eq!(tiles.len(), 7);
    assert_eq!(tiles[0], TilePlacement { x: -2016, y: -1056 });
    assert_eq!(tiles[3], TilePlacement { x: -288, y: -1056 });
    for w in tiles.windows(2) {
        assert_eq!(w[1].x - w[0].x, 576);
    }
    assert!(ground_tiles(0, 600).is_empty());
}

#[test]
fn window_is_fullscreen_with_title() {
    let c = window_config();
    assert_eq!(c.title, "Fullscreen Test");
    assert!(c.fullscreen);
}

#[test]
fn startup_spawns_tiles_character_and_camera() {
    let mut w = World::new();
    w.setup(1920, 1080);
    assert_eq!(w.entity_count(), 7 + 2);
    assert_eq!(w.textures, vec![DOG_TEXTURE, GROUND_TEXTURE]);
    assert_eq!(w.textures[0], "images/dog_idle_strip8.png");
    assert_eq!(w.textures[1], "images/ground.png");
    assert_eq!(w.layouts, vec![GridLayout::dog(), GridLayout::ground()]);
    assert_eq!(w.layouts[0], GridLayout { cell_width: 60, cell_height: 60, columns: 8, rows: 1 });
    assert_eq!(w.layouts[1], GridLayout { cell_width: 288, cell_height: 24, columns: 1, rows: 1 });
    assert_eq!(w.entities[0], Entity::Camera);
    assert_eq!(
        w.entities[1],
        Entity::Animated {
            sprite: Sprite { texture: 0, layout: 0, transform: Transform { x: 0, y: 0, scale: 2 } },
            animation: dog(),
        }
    );
    for i in 0..7usize {
        assert_eq!(
            w.entities[2 + i],
            Entity::Tile {
                sprite: Sprite {
                    texture: 1,
                    layout: 1,
                    transform: Transform { x: (2 * i as i64 - 7) * 288, y: -1056, scale: 1 },
                },
                index: 0,
            }
        );
    }
    w.spawn_player();
    assert_eq!(w.entity_count(), 10);
    assert_eq!(w.entities[9], Entity::Player { player: Player, transform: Transform::at(0, 0) });
}

#[test]
fn animate_sprite_advances_only_the_character() {
    let mut w = World::new();
    w.setup(600, 400);
    w.spawn_player();
    let before = w.entities.clone();
    w.animate_sprite(40 * MS);
    match w.entities[1] {
        Entity::Animated { animation, .. } => assert_eq!(animation.index, 1),
        _ => panic!("entity 1 is the character"),
    }
    w.animate_sprite(60 * MS);
    match w.entities[1] {
        Entity::Animated { animation, .. } => assert_eq!(animation.index, 2),
        _ => panic!("entity 1 is the character"),
    }
    for i in 0..w.entities.len() {
        if i != 1 {
            assert_eq!(w.entities[i], before[i]);
        }
    }
}
