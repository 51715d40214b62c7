//! Scene state machine scenarios, driven through whole ticks.

use invaders::cmd::Cmd;
use invaders::game::{FrameStep, Game, Scene};
use invaders::geom::Vec2;
use invaders::input::KeyDown;

const CW: i32 = 10800;
const CH: i32 = 12000;

fn no_input() -> KeyDown {
    KeyDown { left: false, right: false, shot: false, pause: false }
}

/// Run one whole tick, answering every pixel probe with `false`.
fn tick(g: &mut Game, input: &KeyDown) -> Vec<Cmd> {
    let mut out: Vec<Cmd> = Vec::new();
    let mut step = g.frame(input, &mut out);
    let mut guard = 0;
    while let FrameStep::NeedPixels(_) = step {
        step = g.resume(false, &mut out);
        guard += 1;
        assert!(guard < 10);
    }
    out
}

#[test]
fn title_waits_for_fire() {
    let mut g = Game::new(CW, CH);
    let cmds = tick(&mut g, &no_input());
    assert_eq!(g.scene, Scene::Title);
    assert!(cmds.contains(&Cmd::TitleText));
    let fire = KeyDown { shot: true, ..no_input() };
    tick(&mut g, &fire);
    assert_eq!(g.scene, Scene::LaunchStage(120));
    assert!(g.new_game && g.need_to_screen_init);
}

#[test]
fn launch_counts_down_into_play() {
    let mut g = Game::new(CW, CH);
    tick(&mut g, &KeyDown { shot: true, ..no_input() });
    // the first launch tick paints the scenery
    let cmds = tick(&mut g, &no_input());
    assert!(cmds.contains(&Cmd::ClearScreen));
    assert!(cmds.contains(&Cmd::RedLine));
    assert_eq!(cmds.iter().filter(|c| matches!(c, Cmd::Sprite { kind: invaders::load_image::ImageType::Torchika, .. })).count(), 4);
    let mut guard = 0;
    while g.scene != Scene::Play {
        tick(&mut g, &no_input());
        guard += 1;
        assert!(guard < 200);
    }
    assert_eq!(g.stage_number, 1);
}

fn game_in_play() -> Game {
    let mut g = Game::new(CW, CH);
    tick(&mut g, &KeyDown { shot: true, ..no_input() });
    let mut guard = 0;
    while g.scene != Scene::Play {
        tick(&mut g, &no_input());
        guard += 1;
        assert!(guard < 200);
    }
    g
}

#[test]
fn pause_edge_trigger_toggles_once() {
    let mut g = game_in_play();
    let held = KeyDown { pause: true, ..no_input() };
    // pause input held across 5 consecutive frames: exactly one toggle,
    // on the first frame of the hold
    tick(&mut g, &held);
    assert_eq!(g.scene, Scene::Pause);
    for _ in 0..4 {
        tick(&mut g, &held);
        assert_eq!(g.scene, Scene::Pause);
    }
    // release, then a new press resumes
    tick(&mut g, &no_input());
    assert_eq!(g.scene, Scene::Pause);
    tick(&mut g, &held);
    assert_eq!(g.scene, Scene::Play);
}

#[test]
fn last_enemy_down_advances_stage() {
    let mut g = game_in_play();
    // only the enemy at index 40 remains
    for i in 0..55 {
        if i != 40 {
            g.enemy_manage.enemys_list[i].live = false;
        }
    }
    g.enemy_manage.update_can_shot_list();
    assert_eq!(g.enemy_manage.can_shot_enemy.len(), 1);
    // the player's bullet flies so that after this tick's 12 px climb it
    // sits exactly on the survivor
    let target = g.enemy_manage.enemys_list[40].pos;
    g.player.bullet.live = true;
    g.player.bullet.can_shot = false;
    g.player.bullet.pos = Vec2 { x: target.x, y: target.y + 240 };
    let score_before = g.player.bullet.score.sum;
    tick(&mut g, &no_input());
    assert!(!g.enemy_manage.enemys_list[40].live);
    assert_eq!(g.player.bullet.score.sum, score_before + 20);
    // the formation still counts as present this tick (the kill
    // explosion is showing); once it clears, the next tick detects the
    // wipe-out and schedules the next stage
    let mut guard = 0;
    while g.scene == Scene::Play {
        tick(&mut g, &no_input());
        guard += 1;
        assert!(guard < 40);
    }
    assert_eq!(g.scene, Scene::LaunchStage(240));
    assert_eq!(g.stage_number, 2);
    assert!(g.need_to_screen_init && !g.new_game);
}

#[test]
fn life_exhaustion_reaches_game_over_and_never_play_again() {
    let mut g = game_in_play();
    g.player.life = 1;
    // an enemy bullet right above the player, about to hit
    let ppos = g.player.pos;
    g.enemy_manage.bullets[0].live = true;
    g.enemy_manage.bullets[0].pos = Vec2 { x: ppos.x, y: ppos.y - 60 };
    g.enemy_manage.bullets[0].pre_pos = g.enemy_manage.bullets[0].pos;
    tick(&mut g, &no_input());
    assert_eq!(g.player.life, 0);
    assert!(g.player.break_cnt.is_some());
    assert_eq!(g.scene, Scene::GameOver(140));
    // the break sequence plays to completion and the game never
    // re-enters Play; eventually the title returns
    let mut guard = 0;
    while g.scene != Scene::Title {
        assert_ne!(g.scene, Scene::Play);
        tick(&mut g, &no_input());
        guard += 1;
        assert!(guard < 500);
    }
    assert_eq!(g.player.life, 0);
}

#[test]
fn invasion_breaks_player_and_ends_game() {
    let mut g = game_in_play();
    // march the whole formation down to the player's row
    let py = g.player.pos.y;
    for i in 0..55 {
        g.enemy_manage.enemys_list[i].pos.y = py;
    }
    tick(&mut g, &no_input());
    assert_eq!(g.scene, Scene::GameOver(140));
    assert!(g.player.break_cnt.is_some());
}

#[test]
fn score_and_life_readout_every_play_tick() {
    let mut g = game_in_play();
    let cmds = tick(&mut g, &no_input());
    assert!(cmds.contains(&Cmd::ScoreText { sum: 0 }));
    assert!(cmds.contains(&Cmd::RemainLifeText { life: 3 }));
}

#[test]
fn player_fires_in_play_and_probe_resumes() {
    let mut g = game_in_play();
    let fire = KeyDown { shot: true, ..no_input() };
    tick(&mut g, &fire);
    assert!(g.player.bullet.live);
    assert_eq!(g.player.bullet.shot_cnt, 1);
    // on the next tick the flying bullet asks for a pixel probe
    let mut out: Vec<Cmd> = Vec::new();
    let step = g.frame(&no_input(), &mut out);
    match step {
        FrameStep::NeedPixels(q) => {
            assert_eq!(q.points.len(), 2);
            let step2 = g.resume(true, &mut out);
            // a probe hit lands the bullet: its impact effect starts
            assert!(matches!(step2, FrameStep::FrameDone) || g.cursor != invaders::game::Cursor::Ready);
            assert!(!g.player.bullet.live);
            // the tick's render already stepped the fresh 15-frame effect
            assert_eq!(g.player.bullet.land_effect_cnt, Some(14));
            let mut step3 = step2;
            let mut guard = 0;
            while let FrameStep::NeedPixels(_) = step3 {
                step3 = g.resume(false, &mut out);
                guard += 1;
                assert!(guard < 10);
            }
        },
        FrameStep::FrameDone => panic!("a flying bullet must probe"),
    }
}
