//! The player ship and its single bullet.
//!
//! The bullet walks the cycle idle → flying → impact effect → idle; the
//! firing lock `can_shot` stays off from the frame a shot leaves until
//! the frame its impact effect has fully finished, so at most one shot
//! per owner is ever live or settling. The ship itself only moves
//! laterally, is clamped to the screen, and runs a break countdown with
//! an explosion flicker after being hit.
//!
//! Every update is specified by a spec-level step function, so callers
//! (and the frame driver) know the exact successor state.

use vstd::prelude::*;

use crate::cmd::{push_erase, push_sprite, spec_erase_rect, spec_sprite_at, Cmd, SoundKind};
use crate::dot_data::Color;
use crate::geom::{sat32, sat_add, sat_add_u64, Vec2};
use crate::input::KeyDown;
use crate::load_image::ImageType;
use crate::pixel_ctrl::{make_probe, probe_query_is, ProbeQuery};

verus! {

/// The score accumulator; it lives with the player's bullet because the
/// bullet is what earns points.
#[derive(PartialEq, Eq, Structural, Clone, Copy, Debug)]
pub struct Score {
    pub sum: u64,
}

/// The player's bullet, its firing lock and its impact effect.
#[derive(PartialEq, Eq, Structural, Clone, Copy, Debug)]
pub struct Bullet {
    /// Drawn size in subpixel units.
    pub width: i32,
    pub height: i32,
    /// Center position after the last move.
    pub pos: Vec2,
    /// Center position of the last render, to be erased first.
    pub pre_pos: Vec2,
    /// In flight.
    pub live: bool,
    /// Firing lock: true only when no shot is live or settling.
    pub can_shot: bool,
    /// Shots fired since the stage started.
    pub shot_cnt: u64,
    /// Remaining frames of the impact effect.
    pub land_effect_cnt: Option<i32>,
    /// One-shot erase instruction for a consumed bullet.
    pub remove: Option<Vec2>,
    pub score: Score,
    /// Drawn size of the impact effect in subpixel units.
    pub width_land_effect: i32,
    pub height_land_effect: i32,
}

pub open spec fn bullet_wf(b: Bullet) -> bool {
    &&& b.width >= 0 && b.height >= 0
    &&& b.width_land_effect >= 0 && b.height_land_effect >= 0
    &&& (b.land_effect_cnt matches Some(c) ==> 0 <= c <= 15)
}

/// The bullet right after impact on terrain or the top boundary: gone
/// from flight, effect armed, previous footprint queued for erasing.
pub open spec fn spec_bullet_landed(b: Bullet) -> Bullet {
    Bullet { live: false, land_effect_cnt: Some(15), remove: Some(b.pre_pos), ..b }
}

/// A shot leaves this frame: idle, lock released, owner intact, trigger
/// held.
pub open spec fn spec_bullet_fires(b: Bullet, shot: bool, broken: Option<i32>) -> bool {
    !b.live && b.can_shot && broken is None && shot
}

/// One frame of upward flight (12 px per frame).
pub open spec fn spec_bullet_moved(b: Bullet) -> Bullet {
    Bullet { pos: Vec2 { x: b.pos.x, y: sat32(b.pos.y - 240) as i32 }, ..b }
}

/// The bullet just fired from above the ship at `ppos`.
pub open spec fn spec_bullet_fired(b: Bullet, ppos: Vec2) -> Bullet {
    Bullet {
        pos: Vec2 { x: ppos.x, y: sat32(ppos.y - 480) as i32 },
        live: true,
        can_shot: false,
        shot_cnt: (if b.shot_cnt + 1 <= u64::MAX {
            b.shot_cnt + 1
        } else {
            u64::MAX as int
        }) as u64,
        ..b
    }
}

/// The successor of one bullet update: a live bullet flies and lands on
/// the top boundary (y < 20 px); an idle one fires when allowed.
pub open spec fn spec_bullet_next(b: Bullet, shot: bool, ppos: Vec2, broken: Option<i32>) -> Bullet {
    if b.live {
        let m = spec_bullet_moved(b);
        if m.pos.y < 400 {
            spec_bullet_landed(m)
        } else {
            m
        }
    } else if spec_bullet_fires(b, shot, broken) {
        spec_bullet_fired(b, ppos)
    } else {
        b
    }
}

/// The update asks the host for a pixel probe exactly when the bullet
/// stays in flight after moving.
pub open spec fn spec_bullet_probes(b: Bullet) -> bool {
    b.live && sat32(b.pos.y - 240) >= 400
}

/// The probe of a flying player bullet: one point one pixel left and one
/// point one pixel right of the bullet body, against enemy-bullet yellow
/// and bunker red, over the frame down to the bullet.
pub open spec fn spec_bullet_probe_ok(b: Bullet, q: ProbeQuery) -> bool {
    probe_query_is(
        q,
        sat32(b.pos.x - (b.width / 2 + 20)),
        sat32(b.pos.x + (b.width / 2 + 20)),
        sat32(b.pos.y - 240),
        Color::Yellow,
        Color::Red,
        sat32(sat32(b.pos.y - 240) + b.height),
    )
}

/// Sounds of one bullet update: the shot sound when it fires.
pub open spec fn spec_bullet_update_cmds(b: Bullet, shot: bool, broken: Option<i32>) -> Seq<Cmd> {
    if spec_bullet_fires(b, shot, broken) {
        seq![Cmd::PlaySound { sound: SoundKind::PlayerShot }]
    } else {
        Seq::empty()
    }
}

/// Erase queued by a consumed bullet.
pub open spec fn spec_bullet_remove_cmds(b: Bullet) -> Seq<Cmd> {
    match b.remove {
        Some(p) => seq![spec_erase_rect(p, b.width as int, b.height as int)],
        None => Seq::empty(),
    }
}

/// Erase-then-draw of a flying bullet.
pub open spec fn spec_bullet_fly_cmds(b: Bullet) -> Seq<Cmd> {
    if b.live {
        seq![
            spec_erase_rect(b.pre_pos, b.width as int, b.height as int),
            spec_sprite_at(ImageType::PlayerBullet, b.pos, b.width as int, b.height as int),
        ]
    } else {
        Seq::empty()
    }
}

/// Impact effect drawing: the front sprite while the countdown runs, and
/// the shadow sprite once on the frame the effect ends.
pub open spec fn spec_bullet_effect_cmds(b: Bullet) -> Seq<Cmd> {
    match b.land_effect_cnt {
        Some(c) => {
            let front = spec_sprite_at(
                ImageType::LandPlayerBulletFront,
                b.pos,
                b.width_land_effect as int,
                b.height_land_effect as int,
            );
            if c > 0 {
                seq![front]
            } else {
                seq![
                    front,
                    spec_sprite_at(
                        ImageType::LandPlayerBulletShadow,
                        b.pos,
                        b.width_land_effect as int,
                        b.height_land_effect as int,
                    ),
                ]
            }
        },
        None => Seq::empty(),
    }
}

pub open spec fn spec_bullet_render_cmds(b: Bullet) -> Seq<Cmd> {
    spec_bullet_remove_cmds(b) + spec_bullet_fly_cmds(b) + spec_bullet_effect_cmds(b)
}

/// The bullet after one render: erase queue cleared, footprint caught up
/// with the position, effect countdown stepped, and the firing lock
/// released on the frame the effect finishes.
pub open spec fn spec_bullet_rendered(b: Bullet) -> Bullet {
    let b1 = Bullet { remove: None, ..b };
    let b2 = if b.live {
        Bullet { pre_pos: b.pos, ..b1 }
    } else {
        b1
    };
    match b.land_effect_cnt {
        Some(c) => {
            if c > 0 {
                Bullet { land_effect_cnt: Some((c - 1) as i32), ..b2 }
            } else {
                Bullet { land_effect_cnt: None, can_shot: true, ..b2 }
            }
        },
        None => b2,
    }
}

/// The idle bullet before any images are known.
pub open spec fn spec_bullet_placeholder() -> Bullet {
    Bullet {
        width: 0,
        height: 0,
        pos: Vec2 { x: 0, y: 0 },
        pre_pos: Vec2 { x: 0, y: 0 },
        live: false,
        can_shot: true,
        shot_cnt: 0,
        land_effect_cnt: None,
        remove: None,
        score: Score { sum: 0 },
        width_land_effect: 0,
        height_land_effect: 0,
    }
}

/// A fresh bullet with the real sprite sizes (1x6 dots at 2.5 px per
/// dot; impact effect 8x8 dots at 2.5 px per dot).
pub open spec fn spec_bullet_new() -> Bullet {
    Bullet {
        width: 50,
        height: 300,
        width_land_effect: 400,
        height_land_effect: 400,
        ..spec_bullet_placeholder()
    }
}

impl Bullet {
    /// A placeholder bullet, used before setup completes.
    pub fn empty() -> (b: Bullet)
        ensures
            b == spec_bullet_placeholder(),
            bullet_wf(b),
    {
        Bullet {
            width: 0,
            height: 0,
            pos: Vec2 { x: 0, y: 0 },
            pre_pos: Vec2 { x: 0, y: 0 },
            live: false,
            can_shot: true,
            shot_cnt: 0,
            land_effect_cnt: None,
            remove: None,
            score: Score { sum: 0 },
            width_land_effect: 0,
            height_land_effect: 0,
        }
    }

    /// A fresh bullet with the real sprite sizes.
    pub fn new() -> (b: Bullet)
        ensures
            b == spec_bullet_new(),
            bullet_wf(b),
    {
        Bullet { width: 50, height: 300, width_land_effect: 400, height_land_effect: 400, ..Bullet::empty() }
    }

    /// Impact on terrain or the top boundary: the bullet leaves flight
    /// and its impact effect starts.
    pub fn land_obstacle(&mut self)
        ensures
            *final(self) == spec_bullet_landed(*old(self)),
    {
        self.live = false;
        self.land_effect_cnt = Some(15);
        self.remove = Some(self.pre_pos);
    }

    /// One frame of bullet simulation: a live bullet flies up and either
    /// lands on the top boundary or asks for a pixel probe beside its
    /// body; an idle bullet fires when the lock is free, the player is
    /// not broken and the trigger is held.
    pub fn update(
        &mut self,
        shot_input: bool,
        player_pos: Vec2,
        player_broken: Option<i32>,
        out: &mut Vec<Cmd>,
    ) -> (q: Option<ProbeQuery>)
        requires
            bullet_wf(*old(self)),
        ensures
            bullet_wf(*final(self)),
            *final(self) == spec_bullet_next(*old(self), shot_input, player_pos, player_broken),
            final(out)@ == old(out)@ + spec_bullet_update_cmds(
                *old(self),
                shot_input,
                player_broken,
            ),
            (q is Some) == spec_bullet_probes(*old(self)),
            q matches Some(pq) ==> spec_bullet_probe_ok(*old(self), pq),
    {
        if self.live {
            self.pos.y = sat_add(self.pos.y, -240);
            if self.pos.y < 400 {
                self.land_obstacle();
                proof {
                    assert(final(out)@ =~= old(out)@ + Seq::<Cmd>::empty());
                }
                None
            } else {
                let half = self.width / 2 + 20;
                let lx = sat_add(self.pos.x, -half);
                let rx = sat_add(self.pos.x, half);
                let rh = sat_add(self.pos.y, self.height);
                let q = make_probe(lx, rx, self.pos.y, Color::Yellow, Color::Red, rh);
                proof {
                    assert(final(out)@ =~= old(out)@ + Seq::<Cmd>::empty());
                }
                Some(q)
            }
        } else {
            if self.can_shot && player_broken.is_none() && shot_input {
                self.pos.x = player_pos.x;
                self.pos.y = sat_add(player_pos.y, -480);
                self.live = true;
                self.shot_cnt = sat_add_u64(self.shot_cnt, 1);
                self.can_shot = false;
                out.push(Cmd::PlaySound { sound: SoundKind::PlayerShot });
                proof {
                    assert(final(out)@ =~= old(out)@ + spec_bullet_update_cmds(
                        *old(self),
                        shot_input,
                        player_broken,
                    ));
                }
            } else {
                proof {
                    assert(final(out)@ =~= old(out)@ + Seq::<Cmd>::empty());
                }
            }
            None
        }
    }

    /// Apply the host's probe answer for a flying bullet: a hit lands it.
    pub fn resolve_probe(&mut self, hit: bool)
        requires
            old(self).live,
        ensures
            *final(self) == if hit {
                spec_bullet_landed(*old(self))
            } else {
                *old(self)
            },
    {
        if hit {
            self.land_obstacle();
        }
    }

    /// One render: erase what is queued, erase-then-draw the flight
    /// sprite, and play the impact effect to its end, releasing the
    /// firing lock on its last frame.
    pub fn render(&mut self, out: &mut Vec<Cmd>)
        requires
            bullet_wf(*old(self)),
        ensures
            bullet_wf(*final(self)),
            *final(self) == spec_bullet_rendered(*old(self)),
            final(out)@ == old(out)@ + spec_bullet_render_cmds(*old(self)),
            final(self).live ==> final(self).pre_pos == final(self).pos,
    {
        if let Some(land_pos) = self.remove {
            push_erase(out, land_pos, self.width, self.height);
            self.remove = None;
        }
        if self.live {
            push_erase(out, self.pre_pos, self.width, self.height);
            push_sprite(out, ImageType::PlayerBullet, self.pos, self.width, self.height);
            self.pre_pos = self.pos;
        }
        if let Some(cnt) = self.land_effect_cnt {
            push_sprite(
                out,
                ImageType::LandPlayerBulletFront,
                self.pos,
                self.width_land_effect,
                self.height_land_effect,
            );
            if cnt > 0 {
                self.land_effect_cnt = Some(cnt - 1);
            } else {
                push_sprite(
                    out,
                    ImageType::LandPlayerBulletShadow,
                    self.pos,
                    self.width_land_effect,
                    self.height_land_effect,
                );
                self.land_effect_cnt = None;
                self.can_shot = true;
            }
        }
        proof {
            assert(final(out)@ =~= old(out)@ + spec_bullet_render_cmds(*old(self)));
        }
    }
}

/// The firing lock holds: as long as `can_shot` is off — from the frame
/// a shot leaves until the frame its impact effect fully finishes — no
/// update can fire a second bullet, however the trigger is held.
pub proof fn lemma_firing_lock(b: Bullet, shot: bool, ppos: Vec2, broken: Option<i32>)
    requires
        !b.can_shot,
    ensures
        !spec_bullet_fires(b, shot, broken),
        !b.live ==> spec_bullet_next(b, shot, ppos, broken) == b,
{
}

/// The lock is released only by the render frame on which the impact
/// effect ends (or by an explicit consume that re-arms it); a render
/// never releases it while the effect still runs.
pub proof fn lemma_lock_released_at_effect_end(b: Bullet)
    ensures
        spec_bullet_rendered(b).can_shot == (b.can_shot || (b.land_effect_cnt matches Some(c) && c
            <= 0)),
{
}

/// The player ship: lateral movement, the break/respawn countdown after
/// a hit, and ownership of the single bullet.
#[derive(PartialEq, Eq, Structural, Clone, Copy, Debug)]
pub struct Player {
    /// Drawn size in subpixel units.
    pub width: i32,
    pub height: i32,
    /// Center position after the last move.
    pub pos: Vec2,
    /// Center position of the last render, to be erased first.
    pub pre_pos: Vec2,
    /// Frames from being hit to respawning (a constant of the game).
    pub revival_set_cnt: i32,
    /// Remaining frames of the break countdown, when broken.
    pub break_cnt: Option<i32>,
    pub bullet: Bullet,
    /// Remaining lives, the active ship included.
    pub life: i32,
    /// Drawn size of the break explosion in subpixel units.
    pub width_explosion: i32,
    pub height_explosion: i32,
    pub canvas_width: i32,
    pub canvas_height: i32,
}

pub open spec fn player_wf(p: Player) -> bool {
    &&& bullet_wf(p.bullet)
    &&& p.width >= 0 && p.height >= 0
    &&& p.width_explosion >= 0 && p.height_explosion >= 0
    &&& p.revival_set_cnt >= 0
    &&& (p.break_cnt matches Some(c) ==> -1 <= c <= p.revival_set_cnt)
}

/// The x-position after one frame of input: 3.5 px left then 3.5 px
/// right, each only while the ship stays fully on screen.
pub open spec fn spec_player_moved_x(p: Player, input: KeyDown) -> int {
    let x1 = if input.left && 0 < p.pos.x - p.width / 2 - 70 {
        sat32(p.pos.x - 70)
    } else {
        p.pos.x as int
    };
    if input.right && x1 + p.width / 2 + 70 < p.canvas_width {
        sat32(x1 + 70)
    } else {
        x1
    }
}

/// Drawing and sound of one frame of the break countdown at value `c`:
/// on entry the ship is erased and the explosion sound plays; during the
/// first 50 frames the explosion flickers (two sprites alternating every
/// 5 frames, erased at each switch); at 50 frames before respawn the
/// explosion is erased for good.
pub open spec fn spec_player_break_cmds(p: Player, c: int) -> Seq<Cmd> {
    let entry = if c == p.revival_set_cnt {
        seq![
            spec_erase_rect(p.pre_pos, p.width as int, p.height as int),
            Cmd::PlaySound { sound: SoundKind::PlayerExplosion },
        ]
    } else {
        Seq::empty()
    };
    let flicker = if c > p.revival_set_cnt - 50 {
        let img = if (c / 5) % 2 == 0 {
            ImageType::ExplosionTurquoise
        } else {
            ImageType::ExplosionPurple
        };
        seq![spec_sprite_at(img, p.pre_pos, p.width_explosion as int, p.height_explosion as int)]
            + if c % 5 == 0 {
            seq![
                spec_erase_rect(p.pre_pos, p.width_explosion as int, p.height_explosion as int),
            ]
        } else {
            Seq::empty()
        }
    } else if c == p.revival_set_cnt - 50 {
        seq![spec_erase_rect(p.pre_pos, p.width_explosion as int, p.height_explosion as int)]
    } else {
        Seq::empty()
    };
    entry + flicker
}

/// Score and life readouts, drawn every frame.
pub open spec fn spec_player_status_cmds(p: Player) -> Seq<Cmd> {
    seq![
        Cmd::ScoreText { sum: p.bullet.score.sum },
        Cmd::RemainLifeText { life: p.life },
    ]
}

/// Erase-then-draw of the ship itself (skipped while broken).
pub open spec fn spec_player_ship_cmds(p: Player) -> Seq<Cmd> {
    if p.break_cnt is Some {
        Seq::empty()
    } else {
        seq![
            spec_erase_rect(p.pre_pos, p.width as int, p.height as int),
            spec_sprite_at(ImageType::Player, p.pos, p.width as int, p.height as int),
        ]
    }
}

pub open spec fn spec_player_render_cmds(p: Player) -> Seq<Cmd> {
    spec_player_status_cmds(p) + spec_player_ship_cmds(p) + spec_bullet_render_cmds(p.bullet)
}

/// The player after one render: the footprint catches up with the
/// position unless broken, and the bullet is rendered.
pub open spec fn spec_player_rendered(p: Player) -> Player {
    if p.break_cnt is Some {
        Player { bullet: spec_bullet_rendered(p.bullet), ..p }
    } else {
        Player { pre_pos: p.pos, bullet: spec_bullet_rendered(p.bullet), ..p }
    }
}

/// The player before any images are known.
pub open spec fn spec_player_placeholder() -> Player {
    Player {
        width: 0,
        height: 0,
        pos: Vec2 { x: 0, y: 0 },
        pre_pos: Vec2 { x: 0, y: 0 },
        revival_set_cnt: 0,
        break_cnt: None,
        bullet: spec_bullet_placeholder(),
        life: 0,
        width_explosion: 0,
        height_explosion: 0,
        canvas_width: 0,
        canvas_height: 0,
    }
}

/// A fresh player on a canvas of the given size: 13x8 dots at 2.5 px per
/// dot, starting at x = 70 px, 90 px above the bottom, 3 lives, and a
/// 130-frame break countdown constant.
pub open spec fn spec_player_new(cw: int, ch: int) -> Player {
    Player {
        width: 650,
        height: 400,
        pos: Vec2 { x: 1400, y: sat32(ch - 1800) as i32 },
        pre_pos: Vec2 { x: 1400, y: sat32(ch - 1800) as i32 },
        revival_set_cnt: 130,
        break_cnt: None,
        bullet: spec_bullet_new(),
        life: 3,
        width_explosion: 780,
        height_explosion: 420,
        canvas_width: cw as i32,
        canvas_height: ch as i32,
    }
}

/// The launch position used on every stage start.
pub open spec fn spec_player_reset_pos(p: Player) -> Vec2 {
    Vec2 { x: 1400, y: sat32(p.canvas_height - 2000) as i32 }
}

/// A stage advance: back to the launch position with the stage shot
/// counter cleared; score and lives carry over.
pub open spec fn spec_player_stage_reset(p: Player) -> Player {
    Player {
        pos: spec_player_reset_pos(p),
        pre_pos: spec_player_reset_pos(p),
        bullet: Bullet { shot_cnt: 0, ..p.bullet },
        ..p
    }
}

/// A new game: launch position, 3 lives, no score, bullet idle with the
/// firing lock released.
pub open spec fn spec_player_all_reset(p: Player) -> Player {
    Player {
        pos: spec_player_reset_pos(p),
        pre_pos: spec_player_reset_pos(p),
        break_cnt: None,
        life: 3,
        bullet: Bullet {
            live: false,
            can_shot: true,
            shot_cnt: 0,
            land_effect_cnt: None,
            remove: None,
            score: Score { sum: 0 },
            ..p.bullet
        },
        ..p
    }
}

impl Player {
    /// A placeholder player, used before setup completes.
    pub fn empty() -> (p: Player)
        ensures
            p == spec_player_placeholder(),
            player_wf(p),
    {
        Player {
            width: 0,
            height: 0,
            pos: Vec2 { x: 0, y: 0 },
            pre_pos: Vec2 { x: 0, y: 0 },
            revival_set_cnt: 0,
            break_cnt: None,
            bullet: Bullet::empty(),
            life: 0,
            width_explosion: 0,
            height_explosion: 0,
            canvas_width: 0,
            canvas_height: 0,
        }
    }

    /// A fresh player on a canvas of the given size in subpixel units.
    pub fn new(canvas_width: i32, canvas_height: i32) -> (p: Player)
        ensures
            p == spec_player_new(canvas_width as int, canvas_height as int),
            player_wf(p),
    {
        let start = Vec2 { x: 1400, y: sat_add(canvas_height, -1800) };
        Player {
            width: 650,
            height: 400,
            pos: start,
            pre_pos: start,
            revival_set_cnt: 130,
            break_cnt: None,
            bullet: Bullet::new(),
            life: 3,
            width_explosion: 780,
            height_explosion: 420,
            canvas_width,
            canvas_height,
        }
    }

    /// Stage advance: back to the launch position, stage shot counter
    /// cleared, score and lives kept.
    pub fn reset(&mut self)
        requires
            player_wf(*old(self)),
        ensures
            player_wf(*final(self)),
            *final(self) == spec_player_stage_reset(*old(self)),
    {
        let start = Vec2 { x: 1400, y: sat_add(self.canvas_height, -2000) };
        self.pos = start;
        self.pre_pos = start;
        self.bullet.shot_cnt = 0;
    }

    /// New game: launch position, 3 lives, no score, bullet idle.
    pub fn all_reset(&mut self)
        requires
            player_wf(*old(self)),
        ensures
            player_wf(*final(self)),
            *final(self) == spec_player_all_reset(*old(self)),
    {
        let start = Vec2 { x: 1400, y: sat_add(self.canvas_height, -2000) };
        self.pos = start;
        self.pre_pos = start;
        self.break_cnt = None;
        self.life = 3;
        self.bullet.live = false;
        self.bullet.can_shot = true;
        self.bullet.shot_cnt = 0;
        self.bullet.land_effect_cnt = None;
        self.bullet.remove = None;
        self.bullet.score.sum = 0;
    }

    /// One frame of player simulation. While broken, the countdown runs
    /// (erase and explosion sound on entry, flicker during the first 50
    /// frames, respawn at the end) and the bullet still updates with
    /// firing blocked; otherwise the ship moves laterally and the bullet
    /// updates with firing allowed. Returns the bullet's probe, if any.
    pub fn update(&mut self, input: &KeyDown, out: &mut Vec<Cmd>) -> (q: Option<ProbeQuery>)
        requires
            player_wf(*old(self)),
        ensures
            player_wf(*final(self)),
            ({
                let p = *old(self);
                match p.break_cnt {
                    Some(c) => {
                        if c < 0 {
                            &&& *final(self) == (Player {
                                break_cnt: None,
                                pos: Vec2 { x: 1400, y: p.pos.y },
                                ..p
                            })
                            &&& q is None
                            &&& final(out)@ == old(out)@
                        } else {
                            let nb = Some((c - 1) as i32);
                            &&& *final(self) == (Player {
                                break_cnt: nb,
                                bullet: spec_bullet_next(p.bullet, input.shot, p.pos, nb),
                                ..p
                            })
                            &&& (q is Some) == spec_bullet_probes(p.bullet)
                            &&& final(out)@ == old(out)@ + spec_player_break_cmds(p, c as int)
                                + spec_bullet_update_cmds(p.bullet, input.shot, nb)
                        }
                    },
                    None => {
                        let np = Vec2 { x: spec_player_moved_x(p, *input) as i32, y: p.pos.y };
                        &&& *final(self) == (Player {
                            pos: np,
                            bullet: spec_bullet_next(p.bullet, input.shot, np, None),
                            ..p
                        })
                        &&& (q is Some) == spec_bullet_probes(p.bullet)
                        &&& final(out)@ == old(out)@ + spec_bullet_update_cmds(
                            p.bullet,
                            input.shot,
                            None,
                        )
                    },
                }
            }),
            q matches Some(pq) ==> spec_bullet_probe_ok(old(self).bullet, pq),
    {
        if let Some(cnt) = self.break_cnt {
            if cnt < 0 {
                self.break_cnt = None;
                self.pos.x = 1400;
                return None;
            }
            if cnt == self.revival_set_cnt {
                push_erase(out, self.pre_pos, self.width, self.height);
                out.push(Cmd::PlaySound { sound: SoundKind::PlayerExplosion });
            }
            if cnt > self.revival_set_cnt - 50 {
                let img = if (cnt / 5) % 2 == 0 {
                    ImageType::ExplosionTurquoise
                } else {
                    ImageType::ExplosionPurple
                };
                push_sprite(out, img, self.pre_pos, self.width_explosion, self.height_explosion);
                if cnt % 5 == 0 {
                    push_erase(out, self.pre_pos, self.width_explosion, self.height_explosion);
                }
            } else if cnt == self.revival_set_cnt - 50 {
                push_erase(out, self.pre_pos, self.width_explosion, self.height_explosion);
            }
            self.break_cnt = Some(cnt - 1);
            let ghost mid = final(out)@;
            let q = self.bullet.update(input.shot, self.pos, self.break_cnt, out);
            proof {
                assert(final(out)@ =~= old(out)@ + spec_player_break_cmds(
                    *old(self),
                    cnt as int,
                ) + spec_bullet_update_cmds(
                    old(self).bullet,
                    input.shot,
                    Some((cnt - 1) as i32),
                ));
            }
            return q;
        }
        if input.left {
            let room: i64 = self.pos.x as i64 - (self.width / 2) as i64 - 70;
            if room > 0 {
                self.pos.x = sat_add(self.pos.x, -70);
            }
        }
        if input.right {
            let edge: i64 = self.pos.x as i64 + (self.width / 2) as i64 + 70;
            if edge < self.canvas_width as i64 {
                self.pos.x = sat_add(self.pos.x, 70);
            }
        }
        self.bullet.update(input.shot, self.pos, None, out)
    }

    /// One render: score and life readouts always; while broken only the
    /// bullet is drawn, otherwise the ship is erased at its old footprint
    /// and drawn at its position, which the footprint then records.
    pub fn render(&mut self, out: &mut Vec<Cmd>)
        requires
            player_wf(*old(self)),
        ensures
            player_wf(*final(self)),
            *final(self) == spec_player_rendered(*old(self)),
            final(out)@ == old(out)@ + spec_player_render_cmds(*old(self)),
            old(self).break_cnt is None ==> final(self).pre_pos == old(self).pos,
    {
        out.push(Cmd::ScoreText { sum: self.bullet.score.sum });
        out.push(Cmd::RemainLifeText { life: self.life });
        if self.break_cnt.is_some() {
            self.bullet.render(out);
            proof {
                assert(final(out)@ =~= old(out)@ + spec_player_render_cmds(*old(self)));
            }
            return;
        }
        push_erase(out, self.pre_pos, self.width, self.height);
        push_sprite(out, ImageType::Player, self.pos, self.width, self.height);
        self.pre_pos = self.pos;
        self.bullet.render(out);
        proof {
            assert(final(out)@ =~= old(out)@ + spec_player_render_cmds(*old(self)));
        }
    }
}

} // verus!
