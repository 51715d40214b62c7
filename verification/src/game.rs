//! The scene state machine and the per-frame driver.
//!
//! Each display tick the host calls [`Game::frame`] with the current
//! input. The active scene runs exactly one update — Title, LaunchStage,
//! Play, Pause or GameOver — appending draw and sound commands for the
//! host. Whenever a bullet needs a pixel probe against the rendered
//! background, the driver pauses with [`FrameStep::NeedPixels`]; the host
//! samples the frame buffer (see [`crate::pixel_ctrl`]) and continues the
//! same tick with [`Game::resume`] until [`FrameStep::FrameDone`].
//! Scene transitions are frame-synchronous: each handler runs once per
//! tick and decides the scene of the next tick.

use vstd::prelude::*;

use crate::cmd::Cmd;
use crate::enemy::{manage_ready, manage_wf, EnemyManage};
use crate::input::KeyDown;
use crate::pause::Pause;
use crate::pixel_ctrl::ProbeQuery;
use crate::player::{player_wf, Player};
use crate::ufo::{ufo_wf, Ufo};

verus! {

/// The top-level scenes. The launch and game-over scenes carry their
/// frame countdowns.
#[derive(PartialEq, Eq, Structural, Clone, Copy, Debug)]
pub enum Scene {
    Title,
    Pause,
    Play,
    LaunchStage(i32),
    GameOver(i32),
}

/// Where within a tick the driver stands while waiting for a probe
/// answer.
#[derive(PartialEq, Eq, Structural, Clone, Copy, Debug)]
pub enum Cursor {
    /// Between ticks; the next call must be `frame`.
    Ready,
    /// The player's bullet probe of a Play tick is pending.
    PlayPlayerBullet,
    /// The probe of enemy bullet `i` of a Play tick is pending.
    PlayEnemyBullet { i: usize, freeze: bool },
    /// The probe of enemy bullet `i` of a LaunchStage tick is pending.
    LaunchEnemyBullet { i: usize, freeze: bool, cnt: i32 },
    /// The player's bullet probe of a GameOver tick is pending.
    GameOverPlayerBullet { cnt: i32, explosion_cnt: i32 },
}

/// What the host must do next within the current tick.
pub enum FrameStep {
    /// Sample the listed pixels of the frame rendered so far and call
    /// `resume` with the answer.
    NeedPixels(ProbeQuery),
    /// The tick is complete; execute the commands and schedule the next
    /// frame.
    FrameDone,
}

/// The whole game state.
pub struct Game {
    pub player: Player,
    pub enemy_manage: EnemyManage,
    pub ufo: Ufo,
    /// 1 through 9; after 9 the cycle returns to 2.
    pub stage_number: usize,
    /// The next LaunchStage tick must repaint the static scenery.
    pub need_to_screen_init: bool,
    /// The next LaunchStage tick starts a fresh game.
    pub new_game: bool,
    pub canvas_width: i32,
    pub canvas_height: i32,
    pub pause: Pause,
    pub scene: Scene,
    pub cursor: Cursor,
}

pub open spec fn game_wf(g: Game) -> bool {
    &&& player_wf(g.player)
    &&& manage_wf(g.enemy_manage)
    &&& manage_ready(g.enemy_manage)
    &&& ufo_wf(g.ufo)
    &&& g.canvas_width >= 0 && g.canvas_height >= 0
    &&& 1 <= g.stage_number <= 9
    &&& (g.scene matches Scene::LaunchStage(c) ==> -1 <= c <= 1000)
    &&& (g.scene matches Scene::GameOver(c) ==> -1 <= c <= 1000)
    &&& (g.cursor matches Cursor::PlayEnemyBullet { i, .. } ==> i < 3
        && g.enemy_manage.bullets@[i as int].live)
    &&& (g.cursor matches Cursor::LaunchEnemyBullet { i, cnt, .. } ==> i < 3
        && g.enemy_manage.bullets@[i as int].live && -1 <= cnt <= 1000)
    &&& (g.cursor is PlayPlayerBullet ==> g.player.bullet.live)
    &&& (g.cursor matches Cursor::GameOverPlayerBullet { cnt, .. } ==> g.player.bullet.live && -1
        <= cnt <= 1000)
}

/// The formation has marched down to the player's row: some eligible
/// (lowest-per-column) individual sits below the player's top edge.
pub open spec fn spec_invaded(m: EnemyManage, p: Player) -> bool {
    exists|k: int|
        0 <= k < m.can_shot_enemy@.len() && p.pos.y - p.height / 2 < m.enemys_list@[#[trigger] m.can_shot_enemy@[k] as int].pos.y
}

/// The stage after a wiped formation: 9 wraps to 2, never back to 1.
pub open spec fn spec_stage_advanced(s: int) -> int {
    if s >= 9 {
        2
    } else {
        s + 1
    }
}

/// The scene a completed Play tick ends in, judged over its final state
/// `g`: life exhaustion or an invasion lose the game, a wiped formation
/// launches the next stage, and otherwise the scene the tick ran in
/// (`prev`: Play, or Pause after this tick's rising pause edge) stands.
pub open spec fn spec_play_end_scene(g: Game, prev: Scene) -> Scene {
    if g.player.life <= 0 {
        Scene::GameOver(140)
    } else if spec_invaded(g.enemy_manage, g.player) {
        Scene::GameOver(140)
    } else if g.enemy_manage.can_shot_enemy@.len() == 0 {
        Scene::LaunchStage(240)
    } else {
        prev
    }
}

/// What a completed Play tick guarantees, relating its final state
/// `post` to the state `pre` it started from and the scene `prev` it ran
/// in: the closing transitions of the scene machine, the invasion
/// breaking the player, and the stage advance with its flags exactly on
/// a wipe-out.
pub open spec fn spec_play_closed(pre: Game, post: Game, prev: Scene) -> bool {
    &&& post.scene == spec_play_end_scene(post, prev)
    &&& (spec_invaded(post.enemy_manage, post.player) ==> post.player.break_cnt == Some(
        post.player.revival_set_cnt,
    ))
    &&& (post.enemy_manage.can_shot_enemy@.len() == 0 ==> post.stage_number as int
        == spec_stage_advanced(pre.stage_number as int) && post.need_to_screen_init
        && !post.new_game)
    &&& (post.enemy_manage.can_shot_enemy@.len() > 0 ==> post.stage_number == pre.stage_number
        && post.need_to_screen_init == pre.need_to_screen_init && post.new_game == pre.new_game)
}

/// The transition relation of the scene state machine: every tick moves
/// along one of these edges, and along no other.
pub open spec fn spec_scene_edge(from: Scene, to: Scene) -> bool {
    match from {
        Scene::Title => to is Title || to == Scene::LaunchStage(120),
        Scene::LaunchStage(_) => to is Play || to matches Scene::LaunchStage(_),
        Scene::Play => to is Play || to is Pause || to == Scene::LaunchStage(240) || to
            == Scene::GameOver(140),
        Scene::Pause => to is Pause || to is Play,
        Scene::GameOver(_) => to matches Scene::GameOver(_) || to is Title,
    }
}

impl Game {
    /// A fresh game on a canvas of the given size in subpixel units: at
    /// the title screen, with the formation registered and everything
    /// waiting for the first launch.
    pub fn new(canvas_width: i32, canvas_height: i32) -> (g: Game)
        requires
            canvas_width >= 0,
            canvas_height >= 0,
        ensures
            game_wf(g),
            g.scene == Scene::Title,
            g.cursor == Cursor::Ready,
            g.stage_number == 1,
            g.need_to_screen_init,
            g.new_game,
            g.canvas_width == canvas_width,
            g.canvas_height == canvas_height,
            g.player == crate::player::spec_player_new(canvas_width as int, canvas_height as int),
            !g.pause.pre_pause_button,
    {
        let mut enemy_manage = EnemyManage::default();
        enemy_manage.register_enemys(canvas_width, canvas_height);
        Game {
            player: Player::new(canvas_width, canvas_height),
            enemy_manage,
            ufo: Ufo::new(),
            stage_number: 1,
            need_to_screen_init: true,
            new_game: true,
            canvas_width,
            canvas_height,
            pause: Pause::new(),
            scene: Scene::Title,
            cursor: Cursor::Ready,
        }
    }

    /// Finish a Play tick from right after the player's update: the
    /// formation moves, the enemy bullets step (pausing on a probe), and
    /// the tick closes with rendering and scene transitions.
    fn play_after_player(&mut self, out: &mut Vec<Cmd>) -> (step: FrameStep)
        requires
            game_wf(*old(self)),
            old(self).cursor is Ready,
        ensures
            game_wf(*final(self)),
            (step is FrameDone) == (final(self).cursor is Ready),
            step is FrameDone ==> spec_play_closed(*old(self), *final(self), old(self).scene),
            !(step is FrameDone) ==> final(self).scene == old(self).scene && final(self).stage_number == old(self).stage_number && final(self).need_to_screen_init == old(self).need_to_screen_init && final(self).new_game == old(self).new_game,
            final(self).pause == old(self).pause,
            !old(self).player.bullet.live ==> !final(self).player.bullet.live,
    {
        let freeze = self.enemy_manage.update_main(&mut self.player, out);
        self.play_bullets_from(0, freeze, out)
    }

    /// Step the enemy bullets of a Play tick from slot `i` on, pausing
    /// on a probe, then close the tick.
    fn play_bullets_from(&mut self, i: usize, freeze: bool, out: &mut Vec<Cmd>) -> (step: FrameStep)
        requires
            game_wf(*old(self)),
            old(self).cursor is Ready,
            i <= 3,
        ensures
            game_wf(*final(self)),
            (step is FrameDone) == (final(self).cursor is Ready),
            step is FrameDone ==> spec_play_closed(*old(self), *final(self), old(self).scene),
            !(step is FrameDone) ==> final(self).scene == old(self).scene && final(self).stage_number == old(self).stage_number && final(self).need_to_screen_init == old(self).need_to_screen_init && final(self).new_game == old(self).new_game,
            final(self).pause == old(self).pause,
            !old(self).player.bullet.live ==> !final(self).player.bullet.live,
            forall|k: int|
                0 <= k < i ==> (#[trigger] final(self).enemy_manage.bullets@[k]).live == old(self).enemy_manage.bullets@[k].live,
    {
        let mut j = i;
        while j < 3
            invariant
                game_wf(*self),
                self.cursor is Ready,
                i <= j <= 3,
                self.scene == old(self).scene,
                self.stage_number == old(self).stage_number,
                self.need_to_screen_init == old(self).need_to_screen_init,
                self.new_game == old(self).new_game,
                self.pause == old(self).pause,
                !old(self).player.bullet.live ==> !self.player.bullet.live,
                forall|k: int|
                    0 <= k < i ==> (#[trigger] self.enemy_manage.bullets@[k]).live == old(self).enemy_manage.bullets@[k].live,
            decreases 3 - j,
        {
            let q = self.enemy_manage.bullet_step(j, freeze, &mut self.player, out);
            if let Some(pq) = q {
                self.cursor = Cursor::PlayEnemyBullet { i: j, freeze };
                return FrameStep::NeedPixels(pq);
            }
            j += 1;
        }
        self.enemy_manage.update_end(freeze);
        self.play_tail(out)
    }

    /// Close a Play tick: the saucer acts, everything renders, and the
    /// scene transitions fire — invasion or life exhaustion to GameOver,
    /// a wiped formation to the next stage's LaunchStage (9 wraps to 2).
    fn play_tail(&mut self, out: &mut Vec<Cmd>) -> (step: FrameStep)
        requires
            game_wf(*old(self)),
            old(self).cursor is Ready,
        ensures
            game_wf(*final(self)),
            final(self).cursor is Ready,
            step is FrameDone,
            spec_play_closed(*old(self), *final(self), old(self).scene),
            final(self).pause == old(self).pause,
            !old(self).player.bullet.live ==> !final(self).player.bullet.live,
            forall|k: int|
                0 <= k < 3 ==> (#[trigger] final(self).enemy_manage.bullets@[k]).live == old(self).enemy_manage.bullets@[k].live,
    {
        self.ufo.update(self.canvas_width, &mut self.player.bullet, out);
        self.player.render(out);
        self.enemy_manage.render(out);
        self.ufo.render(out);
        let nadir = self.enemy_manage.nadir_y();
        let ghost em_checked = self.enemy_manage;
        let ghost player_checked = self.player;
        if let Some(enemy_pos_y) = nadir {
            let player_top: i64 = self.player.pos.y as i64 - (self.player.height / 2) as i64;
            if player_top < enemy_pos_y as i64 {
                // the formation reached the player's row: invasion
                self.player.break_cnt = Some(self.player.revival_set_cnt);
                self.scene = Scene::GameOver(140);
            }
        } else {
            // formation wiped out: next stage
            self.need_to_screen_init = true;
            self.new_game = false;
            self.stage_number = if self.stage_number >= 9 {
                2
            } else {
                self.stage_number + 1
            };
            self.scene = Scene::LaunchStage(240);
        }
        if self.player.life <= 0 {
            self.scene = Scene::GameOver(140);
        }
        self.cursor = Cursor::Ready;
        proof {
            let m = em_checked;
            let cs = m.can_shot_enemy@;
            assert(self.enemy_manage == em_checked);
            assert(final(self).player.pos == player_checked.pos);
            assert(final(self).player.height == player_checked.height);
            match nadir {
                Some(y) => {
                    let top = player_checked.pos.y - player_checked.height / 2;
                    if top < y {
                        let k0 = choose|k: int| 0 <= k < cs.len() && y == m.enemys_list@[#[trigger] cs[k] as int].pos.y;
                        assert(top < m.enemys_list@[cs[k0] as int].pos.y);
                        assert(spec_invaded(final(self).enemy_manage, final(self).player));
                    } else {
                        assert(!spec_invaded(final(self).enemy_manage, final(self).player)) by {
                            assert forall|k: int| 0 <= k < cs.len() implies !(top < m.enemys_list@[#[trigger] cs[k] as int].pos.y) by {
                                assert(m.enemys_list@[cs[k] as int].pos.y <= y);
                            }
                        }
                    }
                },
                None => {
                    assert(cs.len() == 0);
                    assert(!spec_invaded(final(self).enemy_manage, final(self).player));
                },
            }
        }
        FrameStep::FrameDone
    }

    /// Step the enemy bullets of a LaunchStage tick from slot `i` on
    /// (firing is suppressed, so probes cannot normally arise), then
    /// close the tick: render, and at countdown end enter Play with the
    /// saucer's spawn timer restarted.
    fn launch_bullets_from(
        &mut self,
        i: usize,
        freeze: bool,
        cnt: i32,
        out: &mut Vec<Cmd>,
    ) -> (step: FrameStep)
        requires
            game_wf(*old(self)),
            old(self).cursor is Ready,
            i <= 3,
            -1 <= cnt <= 1000,
        ensures
            game_wf(*final(self)),
            (step is FrameDone) == (final(self).cursor is Ready),
            step is FrameDone ==> final(self).scene == (if cnt < 0 {
                Scene::Play
            } else {
                Scene::LaunchStage((cnt - 1) as i32)
            }),
            !(step is FrameDone) ==> final(self).scene == old(self).scene,
            final(self).stage_number == old(self).stage_number,
            final(self).need_to_screen_init == old(self).need_to_screen_init,
            final(self).new_game == old(self).new_game,
            final(self).pause == old(self).pause,
            old(self).enemy_manage.shot_interval <= 70 ==> forall|k: int|
                0 <= k < 3 ==> ((#[trigger] final(self).enemy_manage.bullets@[k]).live ==> old(self).enemy_manage.bullets@[k].live),
    {
        let mut j = i;
        while j < 3
            invariant
                game_wf(*self),
                self.cursor is Ready,
                j <= 3,
                -1 <= cnt <= 1000,
                self.scene == old(self).scene,
                self.stage_number == old(self).stage_number,
                self.need_to_screen_init == old(self).need_to_screen_init,
                self.new_game == old(self).new_game,
                self.pause == old(self).pause,
                old(self).enemy_manage.shot_interval <= 70 ==> self.enemy_manage.shot_interval
                    == old(self).enemy_manage.shot_interval,
                old(self).enemy_manage.shot_interval <= 70 ==> forall|k: int|
                    0 <= k < 3 ==> ((#[trigger] self.enemy_manage.bullets@[k]).live ==> old(self).enemy_manage.bullets@[k].live),
            decreases 3 - j,
        {
            let q = self.enemy_manage.bullet_step(j, freeze, &mut self.player, out);
            if let Some(pq) = q {
                self.cursor = Cursor::LaunchEnemyBullet { i: j, freeze, cnt };
                return FrameStep::NeedPixels(pq);
            }
            j += 1;
        }
        self.enemy_manage.update_end(freeze);
        self.enemy_manage.render(out);
        if cnt < 0 {
            self.scene = Scene::Play;
            self.ufo.reset_timer();
        } else {
            self.scene = Scene::LaunchStage(cnt - 1);
        }
        self.cursor = Cursor::Ready;
        FrameStep::FrameDone
    }

    /// Close a GameOver tick after the player update: the death
    /// animation renders while it lasts, and at countdown end the screen
    /// clears and the title returns.
    fn game_over_tail(&mut self, cnt: i32, render_player: bool, out: &mut Vec<Cmd>) -> (step:
        FrameStep)
        requires
            game_wf(*old(self)),
            old(self).cursor is Ready,
            -1 <= cnt <= 1000,
        ensures
            game_wf(*final(self)),
            final(self).cursor is Ready,
            step is FrameDone,
            final(self).scene == (if cnt < 0 {
                Scene::Title
            } else {
                old(self).scene
            }),
            final(self).enemy_manage == old(self).enemy_manage,
            final(self).stage_number == old(self).stage_number,
            final(self).need_to_screen_init == old(self).need_to_screen_init,
            final(self).new_game == old(self).new_game,
            final(self).pause == old(self).pause,
            !old(self).player.bullet.live ==> !final(self).player.bullet.live,
    {
        if render_player {
            self.player.render(out);
        }
        if cnt < 0 {
            out.push(Cmd::ClearScreen);
            self.ufo.reset(out);
            self.scene = Scene::Title;
        }
        self.cursor = Cursor::Ready;
        FrameStep::FrameDone
    }

    /// Run one tick of the active scene, up to its first pixel probe (if
    /// any). The host then answers probes through [`Game::resume`] until
    /// the tick reports done.
    pub fn frame(&mut self, input: &KeyDown, out: &mut Vec<Cmd>) -> (step: FrameStep)
        requires
            game_wf(*old(self)),
            old(self).cursor is Ready,
        ensures
            game_wf(*final(self)),
            (step is FrameDone) == (final(self).cursor is Ready),
            spec_scene_edge(old(self).scene, final(self).scene),
            // Title: waits for fire, scheduling a fresh game; nothing
            // else of the state is touched
            old(self).scene is Title ==> (step is FrameDone) && *final(self) == (if input.shot {
                Game {
                    scene: Scene::LaunchStage(120),
                    need_to_screen_init: true,
                    new_game: true,
                    ..*old(self)
                }
            } else {
                *old(self)
            }) && final(out)@ == (if input.shot {
                old(out)@
            } else {
                old(out)@.push(Cmd::TitleText)
            }),
            // Pause: the simulation is frozen; only the edge detector
            // runs, resuming Play on a rising edge
            old(self).scene is Pause ==> (step is FrameDone) && *final(self) == (Game {
                scene: (if !old(self).pause.pre_pause_button && input.pause {
                    Scene::Play
                } else {
                    Scene::Pause
                }),
                pause: Pause { pre_pause_button: input.pause },
                ..*old(self)
            }) && final(out)@ == old(out)@,
            // Play: a rising pause edge moves to Pause for the next tick
            // unless a closing transition overrides it; a completed tick
            // obeys the closing transitions (life exhaustion and
            // invasion to GameOver, a wiped formation to the next
            // stage's LaunchStage)
            old(self).scene is Play ==> ({
                let rising = !old(self).pause.pre_pause_button && input.pause;
                let prev = if rising {
                    Scene::Pause
                } else {
                    Scene::Play
                };
                &&& final(self).pause.pre_pause_button == input.pause
                &&& (step is FrameDone ==> spec_play_closed(*old(self), *final(self), prev))
                &&& (!(step is FrameDone) ==> final(self).scene == prev && final(self).stage_number == old(self).stage_number)
            }),
            // LaunchStage: the countdown runs into Play, the first tick
            // paints and resets (stage forced to 1 exactly on a new
            // game), and no enemy bullet can be fired during the launch
            old(self).scene matches Scene::LaunchStage(cnt) ==> ({
                let skip = old(self).stage_number > 1 && cnt > 120;
                &&& (skip ==> (step is FrameDone) && *final(self) == (Game {
                    scene: Scene::LaunchStage((cnt - 1) as i32),
                    ..*old(self)
                }) && final(out)@ == old(out)@)
                &&& (!skip ==> {
                    &&& (step is FrameDone ==> final(self).scene == (if cnt < 0 {
                        Scene::Play
                    } else {
                        Scene::LaunchStage((cnt - 1) as i32)
                    }))
                    &&& (!(step is FrameDone) ==> final(self).scene == old(self).scene)
                    &&& (old(self).need_to_screen_init ==> !final(self).need_to_screen_init
                        && !final(self).new_game && final(self).stage_number as int == (if old(self).new_game {
                        1int
                    } else {
                        old(self).stage_number as int
                    }))
                    &&& (!old(self).need_to_screen_init ==> final(self).need_to_screen_init
                        == old(self).need_to_screen_init && final(self).new_game == old(self).new_game && final(self).stage_number == old(self).stage_number)
                    &&& forall|k: int|
                        0 <= k < 3 ==> ((#[trigger] final(self).enemy_manage.bullets@[k]).live
                            ==> old(self).enemy_manage.bullets@[k].live)
                })
            }),
            // GameOver: the break animation holds the countdown, then it
            // runs out into Title; the formation is untouched and Play
            // is never re-entered
            old(self).scene matches Scene::GameOver(cnt) ==> ({
                &&& final(self).new_game
                &&& final(self).enemy_manage == old(self).enemy_manage
                &&& final(self).stage_number == old(self).stage_number
                &&& (step is FrameDone ==> final(self).scene == (if cnt < 0 {
                    Scene::Title
                } else if old(self).player.break_cnt is Some {
                    Scene::GameOver(cnt)
                } else {
                    Scene::GameOver((cnt - 1) as i32)
                }))
                &&& (!(step is FrameDone) ==> final(self).scene == old(self).scene)
            }),
    {
        match self.scene {
            Scene::Title => {
                if input.shot {
                    self.need_to_screen_init = true;
                    self.new_game = true;
                    self.scene = Scene::LaunchStage(120);
                } else {
                    out.push(Cmd::TitleText);
                }
                FrameStep::FrameDone
            },
            Scene::Pause => {
                if self.pause.toggle_pause(input.pause) {
                    self.scene = Scene::Play;
                }
                FrameStep::FrameDone
            },
            Scene::LaunchStage(cnt) => {
                // after a wiped formation the long rest runs before anything is drawn
                if self.stage_number > 1 && cnt > 120 {
                    self.scene = Scene::LaunchStage(cnt - 1);
                    return FrameStep::FrameDone;
                }
                if self.need_to_screen_init {
                    // static scenery: black screen, base line, four bunkers
                    out.push(Cmd::ClearScreen);
                    out.push(Cmd::RedLine);
                    let torchika_start: i64 = self.canvas_width as i64 / 2 - 3500;
                    let mut b: usize = 0;
                    while b < 4
                        invariant
                            game_wf(*self),
                            torchika_start == old(self).canvas_width as int / 2 - 3500,
                            *self == *old(self),
                        decreases 4 - b,
                    {
                        let x64: i64 = torchika_start + 2400 * (b as i64) - 600;
                        let x: i32 = if x64 > i32::MAX as i64 {
                            i32::MAX
                        } else if x64 < i32::MIN as i64 {
                            i32::MIN
                        } else {
                            x64 as i32
                        };
                        let y = crate::geom::sat_add(self.canvas_height, -3600);
                        out.push(Cmd::Sprite { kind: crate::load_image::ImageType::Torchika, x, y, w: 1200, h: 900 });
                        b += 1;
                    }
                    if self.new_game {
                        self.stage_number = 1;
                        self.player.all_reset();
                    } else {
                        self.player.reset();
                    }
                    let stage = self.stage_number;
                    self.enemy_manage.reset(stage, out);
                    self.ufo.reset(out);
                    self.need_to_screen_init = false;
                    self.new_game = false;
                }
                // the formation marches but cannot fire before the stage starts
                self.enemy_manage.set_shot_interval(0);
                let freeze = self.enemy_manage.update_main(&mut self.player, out);
                self.launch_bullets_from(0, freeze, cnt, out)
            },
            Scene::Play => {
                if self.pause.toggle_pause(input.pause) {
                    self.scene = Scene::Pause;
                }
                let q = self.player.update(input, out);
                if let Some(pq) = q {
                    self.cursor = Cursor::PlayPlayerBullet;
                    return FrameStep::NeedPixels(pq);
                }
                self.play_after_player(out)
            },
            Scene::GameOver(cnt) => {
                self.new_game = true;
                if let Some(explosion_cnt) = self.player.break_cnt {
                    // the death animation plays out; no respawn follows
                    let q = self.player.update(input, out);
                    if let Some(pq) = q {
                        self.cursor = Cursor::GameOverPlayerBullet { cnt, explosion_cnt };
                        return FrameStep::NeedPixels(pq);
                    }
                    self.game_over_tail(cnt, explosion_cnt > 0, out)
                } else {
                    out.push(Cmd::GameOverText);
                    if cnt >= 0 {
                        self.scene = Scene::GameOver(cnt - 1);
                    }
                    self.game_over_tail(cnt, false, out)
                }
            },
        }
    }

    /// Continue the current tick with the host's probe answer.
    pub fn resume(&mut self, hit: bool, out: &mut Vec<Cmd>) -> (step: FrameStep)
        requires
            game_wf(*old(self)),
            !(old(self).cursor is Ready),
        ensures
            game_wf(*final(self)),
            (step is FrameDone) == (final(self).cursor is Ready),
            // a Play tick resumes into its closing transitions
            (old(self).cursor is PlayPlayerBullet || old(self).cursor matches
                Cursor::PlayEnemyBullet { .. }) ==> (step is FrameDone ==> spec_play_closed(
                *old(self),
                *final(self),
                old(self).scene,
            )) && (!(step is FrameDone) ==> final(self).scene == old(self).scene) && final(self).pause == old(self).pause,
            // the probe answer lands the pending bullet: a hit takes it
            // out of flight for the rest of the tick
            old(self).cursor is PlayPlayerBullet && hit ==> !final(self).player.bullet.live,
            old(self).cursor matches Cursor::PlayEnemyBullet { i, .. } ==> (hit
                ==> !final(self).enemy_manage.bullets@[i as int].live),
            // a LaunchStage tick resumes into its countdown transition
            old(self).cursor matches Cursor::LaunchEnemyBullet { cnt, .. } ==> (step is FrameDone
                ==> final(self).scene == (if cnt < 0 {
                Scene::Play
            } else {
                Scene::LaunchStage((cnt - 1) as i32)
            })) && (!(step is FrameDone) ==> final(self).scene == old(self).scene),
            // a GameOver tick resumes into its closing transition
            old(self).cursor matches Cursor::GameOverPlayerBullet { cnt, .. } ==> (step
                is FrameDone) && final(self).scene == (if cnt < 0 {
                Scene::Title
            } else {
                old(self).scene
            }) && (hit ==> !final(self).player.bullet.live),
    {
        match self.cursor {
            Cursor::Ready => FrameStep::FrameDone,
            Cursor::PlayPlayerBullet => {
                self.player.bullet.resolve_probe(hit);
                self.cursor = Cursor::Ready;
                self.play_after_player(out)
            },
            Cursor::PlayEnemyBullet { i, freeze } => {
                self.enemy_manage.bullets[i].resolve_probe(hit, out);
                self.cursor = Cursor::Ready;
                self.play_bullets_from(i + 1, freeze, out)
            },
            Cursor::LaunchEnemyBullet { i, freeze, cnt } => {
                self.enemy_manage.bullets[i].resolve_probe(hit, out);
                self.cursor = Cursor::Ready;
                self.launch_bullets_from(i + 1, freeze, cnt, out)
            },
            Cursor::GameOverPlayerBullet { cnt, explosion_cnt } => {
                self.player.bullet.resolve_probe(hit);
                self.cursor = Cursor::Ready;
                self.game_over_tail(cnt, explosion_cnt > 0, out)
            },
        }
    }
}

} // verus!
