//! Player bullet, formation and saucer behavior.

use invaders::cmd::Cmd;
use invaders::enemy::EnemyManage;
use invaders::geom::Vec2;
use invaders::player::{Bullet, Player};
use invaders::ufo::Ufo;

#[test]
fn bullet_fires_once_and_locks() {
    let mut b = Bullet::new();
    let mut out: Vec<Cmd> = Vec::new();
    let ppos = Vec2 { x: 1400, y: 10200 };
    let q = b.update(true, ppos, None, &mut out);
    assert!(q.is_none());
    assert!(b.live && !b.can_shot);
    assert_eq!(b.shot_cnt, 1);
    assert_eq!(b.pos, Vec2 { x: 1400, y: 10200 - 480 });
    // rapid repeated fire input: the lock holds while the shot is live
    for _ in 0..5 {
        let _ = b.update(true, ppos, None, &mut out);
        assert_eq!(b.shot_cnt, 1);
    }
}

#[test]
fn bullet_lock_holds_until_effect_finishes() {
    let mut b = Bullet::new();
    let mut out: Vec<Cmd> = Vec::new();
    let ppos = Vec2 { x: 1400, y: 1000 };
    let _ = b.update(true, ppos, None, &mut out);
    // close to the top: lands on the boundary after a few frames
    let mut frames = 0;
    while b.live {
        let q = b.update(true, ppos, None, &mut out);
        assert!(q.is_none() || b.live);
        frames += 1;
        assert!(frames < 10);
    }
    assert_eq!(b.land_effect_cnt, Some(15));
    // the impact effect runs 16 render frames; firing stays locked
    for _ in 0..16 {
        assert!(!b.can_shot);
        let q = b.update(true, ppos, None, &mut out);
        assert!(q.is_none());
        assert_eq!(b.shot_cnt, 1);
        b.render(&mut out);
    }
    assert!(b.can_shot);
    assert_eq!(b.land_effect_cnt, None);
    // now a second shot may leave
    let _ = b.update(true, ppos, None, &mut out);
    assert_eq!(b.shot_cnt, 2);
}

#[test]
fn bullet_probe_while_flying() {
    let mut b = Bullet::new();
    let mut out: Vec<Cmd> = Vec::new();
    let _ = b.update(true, Vec2 { x: 1400, y: 10200 }, None, &mut out);
    let q = b.update(false, Vec2 { x: 1400, y: 10200 }, None, &mut out);
    let q = q.expect("a flying bullet probes the background");
    assert_eq!(q.points.len(), 2);
    // bullet at x = 1400 (70 px), probe points 45 units left and right
    assert_eq!(q.points[0].x, (1400 - 45) / 20);
    assert_eq!(q.points[1].x, (1400 + 45) / 20);
    let hit = true;
    b.resolve_probe(hit);
    assert!(!b.live);
    assert_eq!(b.land_effect_cnt, Some(15));
}

#[test]
fn player_render_updates_footprint() {
    let mut p = Player::new(10800, 12000);
    let mut out: Vec<Cmd> = Vec::new();
    let input = invaders::input::KeyDown { left: false, right: true, shot: false, pause: false };
    let _ = p.update(&input, &mut out);
    assert_eq!(p.pos.x, 1400 + 70);
    assert_ne!(p.pre_pos, p.pos);
    p.render(&mut out);
    assert_eq!(p.pre_pos, p.pos);
}

#[test]
fn player_clamped_at_left_edge() {
    let mut p = Player::new(10800, 12000);
    let input = invaders::input::KeyDown { left: true, right: false, shot: false, pause: false };
    let mut out: Vec<Cmd> = Vec::new();
    for _ in 0..40 {
        let _ = p.update(&input, &mut out);
    }
    // the ship never leaves the screen: x - width/2 stays positive
    assert!(p.pos.x - 325 > 0);
    assert!(p.pos.x < 700);
}

fn fresh_formation() -> EnemyManage {
    let mut m = EnemyManage::default();
    m.register_enemys(10800, 12000);
    let mut out: Vec<Cmd> = Vec::new();
    m.reset(1, &mut out);
    m
}

#[test]
fn formation_grid_layout() {
    let m = fresh_formation();
    assert_eq!(m.enemys_list.len(), 55);
    // stage 1: bottom row at ch - 3784 - 368*7 = 12000 - 6360
    let y0 = 12000 - 6360;
    assert_eq!(m.enemys_list[0].pos, Vec2 { x: 1200, y: y0 });
    assert_eq!(m.enemys_list[1].pos, Vec2 { x: 1200 + 720, y: y0 });
    assert_eq!(m.enemys_list[11].pos, Vec2 { x: 1200, y: y0 - 736 });
    assert!(m.enemys_list[0].move_turn);
    assert!(!m.enemys_list[1].move_turn);
}

#[test]
fn formation_token_passes_and_moves_one_enemy() {
    let mut m = fresh_formation();
    let mut p = Player::new(10800, 12000);
    let mut out: Vec<Cmd> = Vec::new();
    let before = m.enemys_list[0].pos;
    let freeze = m.update_main(&mut p, &mut out);
    assert!(!freeze);
    // the token holder stepped 7 px to the right, nobody else moved
    assert_eq!(m.enemys_list[0].pos, Vec2 { x: before.x + 140, y: before.y });
    assert_eq!(m.enemys_list[1].pos, m.enemys_list[2].pos.x.checked_sub(720).map(|x| Vec2 { x, y: m.enemys_list[2].pos.y }).unwrap());
    assert!(!m.enemys_list[0].move_turn);
    assert!(m.enemys_list[1].move_turn);
}

#[test]
fn direction_inverts_exactly_once_per_sweep() {
    let mut m = fresh_formation();
    let mut p = Player::new(10800, 12000);
    let mut out: Vec<Cmd> = Vec::new();
    // two individuals step beyond the right border this sweep: the flag
    // is set twice but the direction flips only once, at the wrap
    m.enemys_list[3].pos.x = 10060;
    m.enemys_list[7].pos.x = 10040;
    let mut flips = 0;
    let mut dir = m.move_dir;
    for _ in 0..55 {
        let _ = m.update_main(&mut p, &mut out);
        if m.move_dir != dir {
            flips += 1;
            dir = m.move_dir;
        }
    }
    assert_eq!(flips, 1);
    assert_eq!(m.move_dir, -1);
    assert!(m.move_down);
    // the descent flag clears after the next full sweep
    for _ in 0..55 {
        let _ = m.update_main(&mut p, &mut out);
    }
    assert!(!m.move_down);
    assert_eq!(m.move_dir, -1);
}

#[test]
fn column_table_shrinks_when_column_dies() {
    let mut m = fresh_formation();
    assert_eq!(m.can_shot_enemy.len(), 11);
    // kill the whole column 4 (indices 4, 15, 26, 37, 48)
    for row in 0..5 {
        m.enemys_list[4 + row * 11].live = false;
    }
    m.update_can_shot_list();
    assert_eq!(m.can_shot_enemy.len(), 10);
    assert!(!m.can_shot_enemy.contains(&4));
    // kill only the lowest of column 0: its entry climbs a row
    m.enemys_list[0].live = false;
    m.update_can_shot_list();
    assert_eq!(m.can_shot_enemy.len(), 10);
    assert_eq!(m.can_shot_enemy[0], 11);
    // the eligible set never grows within a stage
    let before = m.can_shot_enemy.len();
    m.update_can_shot_list();
    assert!(m.can_shot_enemy.len() <= before);
}

#[test]
fn enemy_killed_by_player_bullet_scores() {
    let mut m = fresh_formation();
    let mut p = Player::new(10800, 12000);
    let mut out: Vec<Cmd> = Vec::new();
    // a live player bullet exactly on the squid at index 44 (30 points)
    p.bullet.live = true;
    p.bullet.can_shot = false;
    p.bullet.pos = m.enemys_list[44].pos;
    let _ = m.update_main(&mut p, &mut out);
    assert!(!m.enemys_list[44].live);
    assert!(!p.bullet.live);
    assert_eq!(p.bullet.score.sum, 30);
    // the kill explosion freezes the formation on the next frame
    let frozen = m.update_main(&mut p, &mut out);
    assert!(frozen);
}

#[test]
fn deterministic_shooter_selection() {
    let mut m = fresh_formation();
    let mut p = Player::new(10800, 12000);
    let mut out: Vec<Cmd> = Vec::new();
    m.set_shot_interval(71);
    let q = m.bullet_step(0, false, &mut p, &mut out);
    // seed = (player.x + first eligible x) in pixels = (1400+1200)/20 = 130;
    // 130 % 3 != 0, so column 130 % 11 = 9 fires: enemy index 9
    let expected = m.enemys_list[9].pos;
    assert!(m.bullets[0].live);
    assert_eq!(m.bullets[0].pos.x, expected.x);
    // fired 40 px below the shooter, snapped to the pixel grid, and
    // already flown 3 px down within the same tick
    assert_eq!(m.bullets[0].pos.y, ((expected.y + 800) + 10) / 20 * 20 + 60);
    assert_eq!(m.shot_interval, 0);
    assert!(q.is_some() || !m.bullets[0].live);
}

#[test]
fn ufo_inactive_before_timer_and_spawns_by_parity() {
    let mut u = Ufo::new();
    let mut b = Bullet::new();
    let mut out: Vec<Cmd> = Vec::new();
    u.step(10, 10800, &mut b, &mut out);
    assert_eq!(u.pos.x, -200);
    // even shot count: enters at the right edge moving left
    b.shot_cnt = 2;
    u.step(30, 10800, &mut b, &mut out);
    assert_eq!(u.pos.x, 10800 - 368);
    assert_eq!(u.move_dir, -1);
    // odd shot count: a fresh saucer enters at the left edge moving right
    let mut u2 = Ufo::new();
    b.shot_cnt = 3;
    u2.step(30, 10800, &mut b, &mut out);
    assert_eq!(u2.pos.x, 368);
    assert_eq!(u2.move_dir, 1);
    // and then crosses at 2.5 px per frame
    u2.step(30, 10800, &mut b, &mut out);
    assert_eq!(u2.pos.x, 368 + 50);
}

#[test]
fn ufo_award_cycles_table_twice_over_thirty_shots() {
    let table: [u64; 15] = [50, 50, 100, 150, 100, 100, 50, 300, 100, 100, 100, 50, 150, 100, 100];
    let mut awards = Vec::new();
    for shots in 1..=30u64 {
        let mut u = Ufo::new();
        u.pos = Vec2 { x: 5000, y: 1600 };
        let mut b = Bullet::new();
        b.live = true;
        b.can_shot = false;
        b.shot_cnt = shots;
        b.pos = Vec2 { x: 5000, y: 1600 };
        let mut out: Vec<Cmd> = Vec::new();
        u.step(30, 10800, &mut b, &mut out);
        assert!(!b.live);
        assert!(b.can_shot);
        awards.push(b.score.sum);
        assert_eq!(u.explosion.got_score, b.score.sum);
        assert_eq!(u.pos.x, -200);
    }
    for (i, a) in awards.iter().enumerate() {
        assert_eq!(*a, table[i % 15], "award for shot count {}", i + 1);
    }
}
