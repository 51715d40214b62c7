//! Geometry, palette, sprite art and input mapping.

use invaders::dot_data::{convert_dot_map, ret_dot_data, set_color, Color};
use invaders::geom::Vec2;
use invaders::input::{function_key_down, function_key_up, KeyDown};
use invaders::load_image::{sprite_color, sprite_name, ImageType};
use invaders::pause::Pause;
use invaders::pixel_ctrl::{detect_pixel_diff, probe_in_bounds, PixelPos};

#[test]
fn collision_point_inside_hits() {
    let p = Vec2 { x: 100, y: 200 };
    let c = Vec2 { x: 100, y: 200 };
    assert!(p.collision(&c, 10, 10));
    // one unit inside each edge still collides, arbitrary extents
    let q = Vec2 { x: 104, y: 204 };
    assert!(q.collision(&c, 10, 10));
}

#[test]
fn collision_point_on_edge_never_hits() {
    let c = Vec2 { x: 100, y: 200 };
    // exactly on the right edge: c.x + w/2 == 105
    assert!(!Vec2 { x: 105, y: 200 }.collision(&c, 10, 40));
    // exactly on the left edge
    assert!(!Vec2 { x: 95, y: 200 }.collision(&c, 10, 40));
    // exactly on the top and bottom edges
    assert!(!Vec2 { x: 100, y: 180 }.collision(&c, 10, 40));
    assert!(!Vec2 { x: 100, y: 220 }.collision(&c, 10, 40));
    // one unit inside the right edge collides
    assert!(Vec2 { x: 104, y: 200 }.collision(&c, 10, 40));
}

#[test]
fn palette_exact_rgba() {
    assert_eq!(set_color(Color::Turquoise), vec![68, 200, 210, 255]);
    assert_eq!(set_color(Color::Purple), vec![219, 85, 221, 255]);
    assert_eq!(set_color(Color::Green), vec![98, 222, 109, 255]);
    assert_eq!(set_color(Color::Red), vec![210, 0, 0, 255]);
    assert_eq!(set_color(Color::Yellow), vec![190, 180, 80, 255]);
    assert_eq!(set_color(Color::Background), vec![0, 0, 0, 255]);
}

#[test]
fn convert_dot_map_parses_rows() {
    let rows = convert_dot_map(vec!["# _ #", "_ # _"]);
    assert_eq!(rows, vec![vec![true, false, true], vec![false, true, false]]);
}

#[test]
fn all_sprites_are_well_formed() {
    // every registered sprite parses to a dot map matching its stated size
    for name in [
        "player",
        "player_bullet",
        "crab_down",
        "crab_banzai",
        "octopus_open",
        "octopus_close",
        "squid_open",
        "squid_close",
        "explosion",
        "land_player_bullet",
        "torchika",
        "ufo",
        "ufo_explosion",
        "enemy_bullet_squiggly",
        "enemy_bullet_plunger",
        "enemy_bullet_rolling",
        "enemy_bullet_explosion",
    ] {
        let shape = ret_dot_data(name);
        assert!(shape.shape_check(), "sprite {} is malformed", name);
    }
}

#[test]
fn sprite_dimensions() {
    let player = ret_dot_data("player");
    assert_eq!((player.width, player.height), (13, 8));
    let ufo = ret_dot_data("ufo");
    assert_eq!((ufo.width, ufo.height), (16, 7));
    let torchika = ret_dot_data("torchika");
    assert_eq!((torchika.width, torchika.height), (20, 15));
    let bullet = ret_dot_data("player_bullet");
    assert_eq!((bullet.width, bullet.height), (1, 6));
}

#[test]
fn player_art_pattern() {
    let p = ret_dot_data("player");
    // the single nose dot of the first row
    let mut nose = vec![false; 13];
    nose[6] = true;
    assert_eq!(p.dot_map[0], nose);
    // the solid hull rows
    for i in 4..8 {
        assert_eq!(p.dot_map[i], vec![true; 13]);
    }
}

#[test]
fn create_color_dot_map_encodes_pixels() {
    let shape = invaders::dot_data::DotShape {
        width: 2,
        height: 1,
        dot_map: convert_dot_map(vec!["# _"]),
    };
    let bytes = shape.create_color_dot_map(Color::Red);
    assert_eq!(bytes, vec![210, 0, 0, 255, 0, 0, 0, 0]);
}

#[test]
fn player_bullet_sprite_bytes() {
    let shape = ret_dot_data("player_bullet");
    let bytes = shape.create_color_dot_map(Color::Turquoise);
    assert_eq!(bytes.len(), 1 * 6 * 4);
    for px in bytes.chunks(4) {
        assert_eq!(px, &[68, 200, 210, 255]);
    }
}

#[test]
fn ret_all_types_order_and_count() {
    let all = ImageType::ret_all_types();
    assert_eq!(all.len(), 22);
    assert_eq!(all[0], ImageType::Player);
    assert_eq!(all[21], ImageType::EnemyBulletExplosionShadow);
}

#[test]
fn sprite_recipes() {
    assert_eq!(sprite_name(ImageType::Player), "player");
    assert_eq!(sprite_color(ImageType::Player), Color::Turquoise);
    assert_eq!(sprite_name(ImageType::ExpolsionGreen), "explosion");
    assert_eq!(sprite_color(ImageType::ExpolsionGreen), Color::Green);
    assert_eq!(sprite_name(ImageType::EnemyBulletRolling), "enemy_bullet_rolling");
    assert_eq!(sprite_color(ImageType::EnemyBulletRolling), Color::Yellow);
}

#[test]
fn pixel_probe_finds_exact_color() {
    // a 3x2 frame: one red pixel at (1, 1)
    let w = 3usize;
    let mut buf = vec![0u8; w * 2 * 4];
    let idx = (1 * w + 1) * 4;
    buf[idx..idx + 4].copy_from_slice(&[210, 0, 0, 255]);
    let pts = vec![PixelPos { x: 1, y: 1 }];
    assert!(probe_in_bounds(w, &pts, buf.len()));
    assert!(detect_pixel_diff(w, &pts, &vec![Color::Yellow, Color::Red], &buf));
    assert!(!detect_pixel_diff(w, &pts, &vec![Color::Yellow], &buf));
    let miss = vec![PixelPos { x: 0, y: 0 }];
    assert!(!detect_pixel_diff(w, &miss, &vec![Color::Red], &buf));
}

#[test]
fn probe_bounds_check_rejects_outside() {
    let pts = vec![PixelPos { x: 5, y: 0 }];
    assert!(!probe_in_bounds(3, &pts, 3 * 4));
}

#[test]
fn pause_toggles_once_on_held_key() {
    let mut pause = Pause::new();
    let mut toggles = 0;
    for _ in 0..5 {
        if pause.toggle_pause(true) {
            toggles += 1;
        }
    }
    assert_eq!(toggles, 1);
    assert!(!pause.toggle_pause(false));
    assert!(pause.toggle_pause(true));
}

#[test]
fn key_events_set_and_clear_flags() {
    let mut k = KeyDown { left: false, right: false, shot: false, pause: false };
    function_key_down("ArrowLeft", &mut k);
    assert!(k.left && !k.right && !k.shot && !k.pause);
    function_key_down("z", &mut k);
    assert!(k.left && k.shot);
    function_key_up("a", &mut k);
    assert!(!k.left);
    function_key_down("Escape", &mut k);
    assert!(k.pause);
    function_key_up("Escape", &mut k);
    assert!(!k.pause);
    function_key_down("x", &mut k);
    assert!(!k.left && !k.right && k.shot && !k.pause);
}
