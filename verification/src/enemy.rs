//! The invader formation: enemy individuals, their three bullets, the
//! kill explosion, and the manager that runs formation movement, firing
//! eligibility and collisions.

use vstd::prelude::*;

use crate::cmd::{push_erase, push_sprite, spec_erase_rect, spec_sprite_at, Cmd, SoundKind};
use crate::dot_data::Color;
use crate::geom::{in_rect, sat32, sat_add, sat_add_u64, Vec2};
use crate::load_image::ImageType;
use crate::pixel_ctrl::{make_probe, probe_query_is, ProbeQuery};
use crate::player;
use crate::player::{Player, Score};

verus! {

/// The three invader kinds, worth 10, 20 and 30 points.
#[derive(PartialEq, Eq, Structural, Hash, Clone, Copy, Debug)]
pub enum EnemyType {
    Octopus,
    Crab,
    Squid,
}

/// Points credited for downing an enemy of kind `t`.
pub open spec fn spec_enemy_points(t: EnemyType) -> int {
    match t {
        EnemyType::Octopus => 10,
        EnemyType::Crab => 20,
        EnemyType::Squid => 30,
    }
}

/// The walk-animation sprite of kind `t` in the given animation phase.
pub open spec fn spec_enemy_sprite(t: EnemyType, first: bool) -> ImageType {
    match t {
        EnemyType::Octopus => if first {
            ImageType::OctopusOpen
        } else {
            ImageType::OctopusClose
        },
        EnemyType::Crab => if first {
            ImageType::CrabBanzai
        } else {
            ImageType::CrabDown
        },
        EnemyType::Squid => if first {
            ImageType::SquidOpen
        } else {
            ImageType::SquidClose
        },
    }
}

/// The kill-explosion sprite for an enemy of kind `t`.
pub open spec fn spec_explosion_sprite(t: EnemyType) -> ImageType {
    match t {
        EnemyType::Octopus => ImageType::ExplosionPurple,
        EnemyType::Crab => ImageType::ExplosionTurquoise,
        EnemyType::Squid => ImageType::ExpolsionGreen,
    }
}

/// One invader individual.
#[derive(PartialEq, Eq, Structural, Clone, Copy, Debug)]
pub struct Enemy {
    pub enemy_type: EnemyType,
    /// Drawn size in subpixel units.
    pub width: i32,
    pub height: i32,
    /// Center position after the last move.
    pub pos: Vec2,
    /// Center position of the last render, to be erased first.
    pub pre_pos: Vec2,
    /// Holds the single move token this frame.
    pub move_turn: bool,
    pub live: bool,
    /// One final erase is still owed after death.
    pub remove: bool,
    /// Which of the two walk sprites to show.
    pub show_image_type: bool,
}

pub open spec fn enemy_wf(e: Enemy) -> bool {
    e.width >= 0 && e.height >= 0
}

/// The kill explosion; while it shows, the whole formation freezes.
#[derive(PartialEq, Eq, Structural, Clone, Copy, Debug)]
pub struct Explosion {
    /// The sprite shown, while the effect is active.
    pub show: Option<ImageType>,
    pub pos: Vec2,
    /// Frames left; the effect expires below zero.
    pub count: i32,
    /// Drawn size in subpixel units.
    pub width: i32,
    pub height: i32,
}

pub open spec fn explosion_wf(x: Explosion) -> bool {
    &&& x.width >= 0 && x.height >= 0
    &&& -1 <= x.count <= 15
    &&& (x.show is Some ==> 0 <= x.count)
}

/// The explosion after one shown frame: counted down, and expired (with
/// the player's firing lock released) once the count passes zero.
pub open spec fn spec_explosion_stepped(x: Explosion) -> Explosion {
    let x1 = if x.show is Some {
        Explosion { count: (x.count - 1) as i32, ..x }
    } else {
        x
    };
    if x1.count < 0 {
        Explosion { show: None, ..x1 }
    } else {
        x1
    }
}

pub open spec fn spec_explosion_render_cmds(x: Explosion) -> Seq<Cmd> {
    (match x.show {
        Some(img) => seq![spec_sprite_at(img, x.pos, x.width as int, x.height as int)],
        None => Seq::empty(),
    }) + if spec_explosion_stepped(x).count < 0 {
        seq![spec_erase_rect(x.pos, x.width as int, x.height as int)]
    } else {
        Seq::empty()
    }
}

impl Explosion {
    /// Start the effect at `pos` with the sprite `image`.
    pub fn create_effect(&mut self, pos: Vec2, image: ImageType)
        ensures
            *final(self) == (Explosion { show: Some(image), pos, count: 15, ..*old(self) }),
    {
        self.show = Some(image);
        self.pos = pos;
        self.count = 15;
    }

    /// One frame of the effect: draw it, count down, and on expiry erase
    /// it and release the player's firing lock.
    pub fn update_render(&mut self, player_bullet: &mut player::Bullet, out: &mut Vec<Cmd>)
        requires
            explosion_wf(*old(self)),
        ensures
            explosion_wf(*final(self)),
            *final(self) == spec_explosion_stepped(*old(self)),
            *final(player_bullet) == if spec_explosion_stepped(*old(self)).count < 0 {
                player::Bullet { can_shot: true, ..*old(player_bullet) }
            } else {
                *old(player_bullet)
            },
            final(out)@ == old(out)@ + spec_explosion_render_cmds(*old(self)),
    {
        if let Some(image) = self.show {
            push_sprite(out, image, self.pos, self.width, self.height);
            self.count = self.count - 1;
        }
        if self.count < 0 {
            self.show = None;
            push_erase(out, self.pos, self.width, self.height);
            player_bullet.can_shot = true;
        }
        proof {
            assert(final(out)@ =~= old(out)@ + spec_explosion_render_cmds(*old(self)));
        }
    }
}

/// The impact effect of an enemy bullet.
#[derive(PartialEq, Eq, Structural, Clone, Copy, Debug)]
pub struct BulletExplosion {
    /// Drawn size in subpixel units.
    pub width: i32,
    pub height: i32,
    pub pos: Vec2,
    /// Frames left of the effect, while it runs.
    pub effect_cnt: Option<i32>,
}

/// One of the three enemy bullets.
#[derive(PartialEq, Eq, Structural, Clone, Copy, Debug)]
pub struct Bullet {
    /// Drawn size in subpixel units.
    pub width: i32,
    pub height: i32,
    /// Center position after the last move.
    pub pos: Vec2,
    /// Center position of the last render, to be erased first.
    pub pre_pos: Vec2,
    pub live: bool,
    /// The bullet's sprite kind.
    pub image: ImageType,
    pub explosion: BulletExplosion,
}

pub open spec fn ebullet_wf(b: Bullet) -> bool {
    &&& b.width >= 0 && b.height >= 0
    &&& b.explosion.width >= 0 && b.explosion.height >= 0
    &&& (b.explosion.effect_cnt matches Some(c) ==> 0 <= c <= 20)
}

/// Center coordinates rounded to the pixel grid (multiples of 20
/// subpixel units, halves rounding up); coordinates left of or above the
/// canvas clamp to 0.
pub open spec fn spec_round_px(u: int) -> int {
    if u <= 0 {
        0
    } else {
        sat32(((u + 10) / 20) * 20)
    }
}

/// Round a subpixel coordinate to the pixel grid.
pub fn round_px(u: i32) -> (r: i32)
    ensures
        r as int == spec_round_px(u as int),
{
    if u <= 0 {
        0
    } else {
        let v: i64 = ((u as i64 + 10) / 20) * 20;
        if v > i32::MAX as i64 {
            i32::MAX
        } else {
            v as i32
        }
    }
}

/// The bullet as fired from `pos`: snapped to the pixel grid, footprint
/// reset, in flight.
pub open spec fn spec_ebullet_fired(b: Bullet, pos: Vec2) -> Bullet {
    let p = Vec2 { x: spec_round_px(pos.x as int) as i32, y: spec_round_px(pos.y as int) as i32 };
    Bullet { pos: p, pre_pos: p, live: true, ..b }
}

/// The bullet after impact: out of flight with its impact effect armed
/// at the impact position.
pub open spec fn spec_ebullet_exploded(b: Bullet) -> Bullet {
    Bullet {
        live: false,
        explosion: BulletExplosion { pos: b.pos, effect_cnt: Some(20), ..b.explosion },
        ..b
    }
}

/// One frame of downward flight (3 px per frame).
pub open spec fn spec_ebullet_moved(b: Bullet) -> Bullet {
    Bullet { pos: Vec2 { x: b.pos.x, y: sat32(b.pos.y + 60) as i32 }, ..b }
}

/// The moved bullet reaches the landing line 52 px above the bottom.
pub open spec fn spec_ebullet_lands(b: Bullet, ch: int) -> bool {
    spec_ebullet_moved(b).pos.y > ch - 1040
}

/// The moved bullet's tip touches the player's hitbox.
pub open spec fn spec_ebullet_hits_player(b: Bullet, p: Player) -> bool {
    let m = spec_ebullet_moved(b);
    in_rect(
        Vec2 { x: m.pos.x, y: sat32(m.pos.y - b.height / 2) as i32 },
        p.pos,
        p.width as int,
        p.height as int,
    )
}

/// The probe of a flying enemy bullet: one point one pixel left and two
/// pixels right of the bullet body, against the player bullet's
/// turquoise and bunker red, over the frame down to the bullet.
pub open spec fn spec_ebullet_probe_ok(b: Bullet, q: ProbeQuery) -> bool {
    let m = spec_ebullet_moved(b);
    probe_query_is(
        q,
        sat32(m.pos.x - (b.width / 2 + 20)),
        sat32(m.pos.x + (b.width / 2 + 40)),
        m.pos.y as int,
        Color::Turquoise,
        Color::Red,
        sat32(m.pos.y + b.height),
    )
}

/// The bullet after one update against player `p` on a canvas of
/// height `ch`: a dead bullet rests; a moved bullet that reaches the
/// landing line explodes; one that touches an unbroken player is
/// consumed; otherwise it flies on.
pub open spec fn spec_ebullet_update_next(b: Bullet, ch: int, p: Player) -> Bullet {
    let m = spec_ebullet_moved(b);
    if !b.live {
        b
    } else if spec_ebullet_lands(b, ch) {
        spec_ebullet_exploded(m)
    } else if spec_ebullet_hits_player(b, p) {
        if p.break_cnt is None {
            Bullet { live: false, ..m }
        } else {
            m
        }
    } else {
        m
    }
}

/// The player after one update of bullet `b`: broken (countdown armed,
/// one life down) exactly when the flying bullet touches it while not
/// already broken.
pub open spec fn spec_ebullet_update_player(b: Bullet, ch: int, p: Player) -> Player {
    if b.live && !spec_ebullet_lands(b, ch) && spec_ebullet_hits_player(b, p) && p.break_cnt
        is None {
        Player {
            break_cnt: Some(p.revival_set_cnt),
            life: sat32(p.life - 1) as i32,
            ..p
        }
    } else {
        p
    }
}

/// Drawing of one bullet update: the footprint erase when the bullet is
/// consumed this frame.
pub open spec fn spec_ebullet_update_cmds(b: Bullet, ch: int, p: Player) -> Seq<Cmd> {
    if b.live && (spec_ebullet_lands(b, ch) || (spec_ebullet_hits_player(b, p) && p.break_cnt
        is None)) {
        seq![spec_erase_rect(b.pre_pos, b.width as int, b.height as int)]
    } else {
        Seq::empty()
    }
}

/// The update asks the host for a pixel probe exactly when the bullet
/// flies on untouched.
pub open spec fn spec_ebullet_update_probes(b: Bullet, ch: int, p: Player) -> bool {
    b.live && !spec_ebullet_lands(b, ch) && !spec_ebullet_hits_player(b, p)
}

impl Bullet {
    /// Fire the bullet from `pos`, snapped to the pixel grid.
    pub fn fire_from(&mut self, pos: Vec2)
        ensures
            *final(self) == spec_ebullet_fired(*old(self), pos),
    {
        let p = Vec2 { x: round_px(pos.x), y: round_px(pos.y) };
        self.pos = p;
        self.pre_pos = p;
        self.live = true;
    }

    /// One frame of flight. The bullet advances 3 px down, then the
    /// first match wins: reaching the landing line starts the impact
    /// effect with no damage; touching the player breaks the player
    /// (unless already broken — then the bullet just flies on this
    /// frame); otherwise the host is asked to probe the pixels beside
    /// the bullet.
    pub fn update(
        &mut self,
        canvas_height: i32,
        player: &mut Player,
        out: &mut Vec<Cmd>,
    ) -> (q: Option<ProbeQuery>)
        requires
            ebullet_wf(*old(self)),
            player::player_wf(*old(player)),
        ensures
            ebullet_wf(*final(self)),
            player::player_wf(*final(player)),
            *final(self) == spec_ebullet_update_next(*old(self), canvas_height as int, *old(player)),
            *final(player) == spec_ebullet_update_player(
                *old(self),
                canvas_height as int,
                *old(player),
            ),
            final(out)@ == old(out)@ + spec_ebullet_update_cmds(
                *old(self),
                canvas_height as int,
                *old(player),
            ),
            (q is Some) == spec_ebullet_update_probes(
                *old(self),
                canvas_height as int,
                *old(player),
            ),
            q matches Some(pq) ==> spec_ebullet_probe_ok(*old(self), pq),
    {
        proof {
            assert(old(out)@ + Seq::<Cmd>::empty() =~= old(out)@);
            assert(old(out)@ + seq![
                spec_erase_rect(
                    old(self).pre_pos,
                    old(self).width as int,
                    old(self).height as int,
                ),
            ] =~= old(out)@.push(
                spec_erase_rect(
                    old(self).pre_pos,
                    old(self).width as int,
                    old(self).height as int,
                ),
            ));
        }
        if !self.live {
            return None;
        }
        self.pos.y = sat_add(self.pos.y, 60);
        if self.pos.y as i64 > canvas_height as i64 - 1040 {
            self.live = false;
            push_erase(out, self.pre_pos, self.width, self.height);
            self.explosion.pos = self.pos;
            self.explosion.effect_cnt = Some(20);
            return None;
        }
        let tip = Vec2 { x: self.pos.x, y: sat_add(self.pos.y, -(self.height / 2)) };
        if tip.collision(&player.pos, player.width, player.height) {
            if player.break_cnt.is_none() {
                player.break_cnt = Some(player.revival_set_cnt);
                player.life = sat_add(player.life, -1);
                self.live = false;
                push_erase(out, self.pre_pos, self.width, self.height);
            }
            return None;
        }
        let half_l = self.width / 2 + 20;
        let half_r = self.width / 2 + 40;
        let lx = sat_add(self.pos.x, -half_l);
        let rx = sat_add(self.pos.x, half_r);
        let rh = sat_add(self.pos.y, self.height);
        Some(make_probe(lx, rx, self.pos.y, Color::Turquoise, Color::Red, rh))
    }

    /// Apply the host's probe answer: a hit takes the bullet out of
    /// flight and starts its impact effect.
    pub fn resolve_probe(&mut self, hit: bool, out: &mut Vec<Cmd>)
        requires
            ebullet_wf(*old(self)),
        ensures
            ebullet_wf(*final(self)),
            *final(self) == if hit {
                spec_ebullet_exploded(*old(self))
            } else {
                *old(self)
            },
            final(out)@ == if hit {
                old(out)@.push(
                    spec_erase_rect(
                        old(self).pre_pos,
                        old(self).width as int,
                        old(self).height as int,
                    ),
                )
            } else {
                old(out)@
            },
    {
        if hit {
            self.live = false;
            push_erase(out, self.pre_pos, self.width, self.height);
            self.explosion.pos = self.pos;
            self.explosion.effect_cnt = Some(20);
        }
    }
}

/// Erase-then-draw of a flying enemy bullet.
pub open spec fn spec_ebullet_fly_cmds(b: Bullet) -> Seq<Cmd> {
    if b.live {
        seq![
            spec_erase_rect(b.pre_pos, b.width as int, b.height as int),
            spec_sprite_at(b.image, b.pos, b.width as int, b.height as int),
        ]
    } else {
        Seq::empty()
    }
}

/// Impact-effect drawing of an enemy bullet: the front sprite while the
/// countdown runs, the shadow sprite once on the frame it ends.
pub open spec fn spec_ebullet_effect_cmds(b: Bullet) -> Seq<Cmd> {
    match b.explosion.effect_cnt {
        Some(c) => {
            if c > 0 {
                seq![
                    spec_sprite_at(
                        ImageType::EnemyBulletExplosionFront,
                        b.explosion.pos,
                        b.explosion.width as int,
                        b.explosion.height as int,
                    ),
                ]
            } else {
                seq![
                    spec_sprite_at(
                        ImageType::EnemyBulletExplosionShadow,
                        b.explosion.pos,
                        b.explosion.width as int,
                        b.explosion.height as int,
                    ),
                ]
            }
        },
        None => Seq::empty(),
    }
}

pub open spec fn spec_ebullet_render_cmds(b: Bullet) -> Seq<Cmd> {
    spec_ebullet_fly_cmds(b) + spec_ebullet_effect_cmds(b)
}

/// The enemy bullet after one render: footprint caught up when flying,
/// impact-effect countdown stepped.
pub open spec fn spec_ebullet_rendered(b: Bullet) -> Bullet {
    let b1 = if b.live {
        Bullet { pre_pos: b.pos, ..b }
    } else {
        b
    };
    match b.explosion.effect_cnt {
        Some(c) => {
            if c > 0 {
                Bullet {
                    explosion: BulletExplosion { effect_cnt: Some((c - 1) as i32), ..b1.explosion },
                    ..b1
                }
            } else {
                Bullet {
                    explosion: BulletExplosion { effect_cnt: None, ..b1.explosion },
                    ..b1
                }
            }
        },
        None => b1,
    }
}

impl Bullet {
    /// One render: erase-then-draw while flying, and play the impact
    /// effect to its end.
    pub fn render(&mut self, out: &mut Vec<Cmd>)
        requires
            ebullet_wf(*old(self)),
        ensures
            ebullet_wf(*final(self)),
            *final(self) == spec_ebullet_rendered(*old(self)),
            final(out)@ == old(out)@ + spec_ebullet_render_cmds(*old(self)),
            final(self).live ==> final(self).pre_pos == final(self).pos,
    {
        if self.live {
            push_erase(out, self.pre_pos, self.width, self.height);
            push_sprite(out, self.image, self.pos, self.width, self.height);
            self.pre_pos = self.pos;
        }
        if let Some(cnt) = self.explosion.effect_cnt {
            if cnt > 0 {
                push_sprite(
                    out,
                    ImageType::EnemyBulletExplosionFront,
                    self.explosion.pos,
                    self.explosion.width,
                    self.explosion.height,
                );
                self.explosion.effect_cnt = Some(cnt - 1);
            } else {
                push_sprite(
                    out,
                    ImageType::EnemyBulletExplosionShadow,
                    self.explosion.pos,
                    self.explosion.width,
                    self.explosion.height,
                );
                self.explosion.effect_cnt = None;
            }
        }
        proof {
            assert(final(out)@ =~= old(out)@ + spec_ebullet_render_cmds(*old(self)));
        }
    }
}

/// The player's bullet hits this enemy this frame.
pub open spec fn spec_enemy_hit(e: Enemy, pb: player::Bullet) -> bool {
    pb.live && in_rect(pb.pos, e.pos, e.width as int, e.height as int)
}

/// The enemy after taking its move turn: one 7 px step in the shared
/// direction, one 18.4 px drop when the formation descends, and the walk
/// sprite toggled.
pub open spec fn spec_enemy_moved(e: Enemy, dir: int, down: bool) -> Enemy {
    Enemy {
        pos: Vec2 {
            x: sat32(e.pos.x + 140 * dir) as i32,
            y: if down {
                sat32(e.pos.y + 368) as i32
            } else {
                e.pos.y
            },
        },
        show_image_type: !e.show_image_type,
        ..e
    }
}

/// The player's bullet consumed by a kill, with the points credited.
pub open spec fn spec_pbullet_consumed(pb: player::Bullet, points: int) -> player::Bullet {
    player::Bullet {
        live: false,
        remove: Some(pb.pre_pos),
        score: Score {
            sum: (if pb.score.sum + points <= u64::MAX {
                pb.score.sum + points
            } else {
                u64::MAX as int
            }) as u64,
        },
        ..pb
    }
}

impl Enemy {
    /// One frame of this individual: a live enemy hit by the player's
    /// bullet dies (bullet consumed, points credited, kill explosion
    /// started); then, if it holds the move token, it steps.
    pub fn update(
        &mut self,
        move_dir: i32,
        move_down: bool,
        player_bullet: &mut player::Bullet,
        explosion: &mut Explosion,
        out: &mut Vec<Cmd>,
    )
        requires
            move_dir == 1 || move_dir == -1,
            enemy_wf(*old(self)),
            player::bullet_wf(*old(player_bullet)),
            explosion_wf(*old(explosion)),
        ensures
            enemy_wf(*final(self)),
            player::bullet_wf(*final(player_bullet)),
            explosion_wf(*final(explosion)),
            ({
                let e = *old(self);
                if !e.live {
                    &&& *final(self) == e
                    &&& *final(player_bullet) == *old(player_bullet)
                    &&& *final(explosion) == *old(explosion)
                    &&& final(out)@ == old(out)@
                } else {
                    let hit = spec_enemy_hit(e, *old(player_bullet));
                    let e1 = if hit {
                        Enemy { live: false, remove: true, ..e }
                    } else {
                        e
                    };
                    let e2 = if e.move_turn {
                        spec_enemy_moved(e1, move_dir as int, move_down)
                    } else {
                        e1
                    };
                    &&& *final(self) == e2
                    &&& *final(player_bullet) == if hit {
                        spec_pbullet_consumed(*old(player_bullet), spec_enemy_points(e.enemy_type))
                    } else {
                        *old(player_bullet)
                    }
                    &&& *final(explosion) == if hit {
                        Explosion {
                            show: Some(spec_explosion_sprite(e.enemy_type)),
                            pos: e.pos,
                            count: 15,
                            ..*old(explosion)
                        }
                    } else {
                        *old(explosion)
                    }
                    &&& final(out)@ == old(out)@ + if hit {
                        seq![Cmd::PlaySound { sound: SoundKind::InvaderExplosion }]
                    } else {
                        Seq::empty()
                    }
                }
            }),
    {
        if !self.live {
            return ;
        }
        if player_bullet.live {
            if player_bullet.pos.collision(&self.pos, self.width, self.height) {
                self.live = false;
                self.remove = true;
                player_bullet.live = false;
                player_bullet.remove = Some(player_bullet.pre_pos);
                let points: u64 = match self.enemy_type {
                    EnemyType::Octopus => 10,
                    EnemyType::Crab => 20,
                    EnemyType::Squid => 30,
                };
                player_bullet.score.sum = sat_add_u64(player_bullet.score.sum, points);
                let img = match self.enemy_type {
                    EnemyType::Octopus => ImageType::ExplosionPurple,
                    EnemyType::Crab => ImageType::ExplosionTurquoise,
                    EnemyType::Squid => ImageType::ExpolsionGreen,
                };
                explosion.create_effect(self.pos, img);
                out.push(Cmd::PlaySound { sound: SoundKind::InvaderExplosion });
            }
        }
        if self.move_turn {
            self.pos.x = sat_add(self.pos.x, 140 * move_dir);
            if move_down {
                self.pos.y = sat_add(self.pos.y, 368);
            }
            self.show_image_type = !self.show_image_type;
        }
        proof {
            assert(final(out)@ =~= old(out)@ + if spec_enemy_hit(*old(self), *old(player_bullet)) {
                seq![Cmd::PlaySound { sound: SoundKind::InvaderExplosion }]
            } else {
                Seq::<Cmd>::empty()
            });
        }
    }

    /// One render: the owed erase after death, then erase-then-draw of
    /// the walk sprite while alive.
    pub fn render(&mut self, out: &mut Vec<Cmd>)
        requires
            enemy_wf(*old(self)),
        ensures
            enemy_wf(*final(self)),
            ({
                let e = *old(self);
                let removal = if e.remove {
                    seq![spec_erase_rect(e.pre_pos, e.width as int, e.height as int)]
                } else {
                    Seq::<Cmd>::empty()
                };
                if !e.live {
                    &&& *final(self) == (Enemy { remove: false, ..e })
                    &&& final(out)@ == old(out)@ + removal
                } else {
                    &&& *final(self) == (Enemy { remove: false, pre_pos: e.pos, ..e })
                    &&& final(out)@ == old(out)@ + removal + seq![
                        spec_erase_rect(e.pre_pos, e.width as int, e.height as int),
                        spec_sprite_at(
                            spec_enemy_sprite(e.enemy_type, e.show_image_type),
                            e.pos,
                            e.width as int,
                            e.height as int,
                        ),
                    ]
                }
            }),
            final(self).live ==> final(self).pre_pos == final(self).pos,
    {
        if self.remove {
            push_erase(out, self.pre_pos, self.width, self.height);
            self.remove = false;
        }
        if !self.live {
            proof {
                assert(final(out)@ =~= old(out)@ + if old(self).remove {
                    seq![
                        spec_erase_rect(
                            old(self).pre_pos,
                            old(self).width as int,
                            old(self).height as int,
                        ),
                    ]
                } else {
                    Seq::<Cmd>::empty()
                });
            }
            return ;
        }
        let show = if self.show_image_type {
            match self.enemy_type {
                EnemyType::Octopus => ImageType::OctopusOpen,
                EnemyType::Crab => ImageType::CrabBanzai,
                EnemyType::Squid => ImageType::SquidOpen,
            }
        } else {
            match self.enemy_type {
                EnemyType::Octopus => ImageType::OctopusClose,
                EnemyType::Crab => ImageType::CrabDown,
                EnemyType::Squid => ImageType::SquidClose,
            }
        };
        push_erase(out, self.pre_pos, self.width, self.height);
        push_sprite(out, show, self.pos, self.width, self.height);
        self.pre_pos = self.pos;
        proof {
            let e = *old(self);
            let removal = if e.remove {
                seq![spec_erase_rect(e.pre_pos, e.width as int, e.height as int)]
            } else {
                Seq::<Cmd>::empty()
            };
            assert(final(out)@ =~= old(out)@ + removal + seq![
                spec_erase_rect(e.pre_pos, e.width as int, e.height as int),
                spec_sprite_at(
                    spec_enemy_sprite(e.enemy_type, e.show_image_type),
                    e.pos,
                    e.width as int,
                    e.height as int,
                ),
            ]);
        }
    }
}

/// The invader kind at list index `i`: rows bottom-up, two octopus
/// rows, two crab rows, one squid row, 11 individuals each.
pub open spec fn spec_enemy_kind_at(i: int) -> EnemyType {
    if i < 22 {
        EnemyType::Octopus
    } else if i < 44 {
        EnemyType::Crab
    } else {
        EnemyType::Squid
    }
}

/// Drawn width of each invader kind (12, 11 and 8 dots at 2.3 px per
/// dot).
pub open spec fn spec_enemy_width_of(t: EnemyType) -> int {
    match t {
        EnemyType::Octopus => 552,
        EnemyType::Crab => 506,
        EnemyType::Squid => 368,
    }
}

/// The freshly registered individual at list index `i`: alive, at the
/// origin until the stage is laid out, index 0 holding the move token.
pub open spec fn spec_fresh_enemy(i: int) -> Enemy {
    let t = spec_enemy_kind_at(i);
    Enemy {
        enemy_type: t,
        width: spec_enemy_width_of(t) as i32,
        height: 368,
        pos: Vec2 { x: 0, y: 0 },
        pre_pos: Vec2 { x: 0, y: 0 },
        move_turn: i == 0,
        live: true,
        remove: false,
        show_image_type: true,
    }
}

/// The sprite of bullet slot `k`.
pub open spec fn spec_ebullet_kind_at(k: int) -> ImageType {
    if k == 0 {
        ImageType::EnemyBulletPlunger
    } else if k == 1 {
        ImageType::EnemyBulletSquiggly
    } else {
        ImageType::EnemyBulletRolling
    }
}

/// The freshly registered bullet of slot `k` (3x7 dots at 2.5 px per
/// dot; impact effect 6x8 dots at 3 px per dot).
pub open spec fn spec_fresh_ebullet(k: int) -> Bullet {
    Bullet {
        width: 150,
        height: 350,
        pos: Vec2 { x: 0, y: 0 },
        pre_pos: Vec2 { x: 0, y: 0 },
        live: false,
        image: spec_ebullet_kind_at(k),
        explosion: BulletExplosion { width: 360, height: 480, pos: Vec2 { x: 0, y: 0 }, effect_cnt: None },
    }
}

/// `|v|`.
pub open spec fn iabs(v: int) -> int {
    if v < 0 {
        -v
    } else {
        v
    }
}

/// The eligible individual nearest to x-position `px`, scanning entries
/// `j` onward with running best `best`; the first minimum wins.
pub open spec fn spec_nearest_from(m: Seq<Enemy>, cs: Seq<usize>, px: int, j: int, best: int) -> int
    decreases cs.len() - j,
{
    if j < 0 || j >= cs.len() {
        best
    } else {
        let c = cs[j] as int;
        if iabs(m[c].pos.x - px) < iabs(m[best].pos.x - px) {
            spec_nearest_from(m, cs, px, j + 1, c)
        } else {
            spec_nearest_from(m, cs, px, j + 1, best)
        }
    }
}

/// The deterministic pseudo-random seed of the firing choice: the sum of
/// the player's x-position and the first eligible shooter's x-position,
/// in whole pixels (negative sums clamp to 0).
pub open spec fn spec_seed(m: Seq<Enemy>, cs: Seq<usize>, px: int) -> int {
    let s = px + m[cs[0] as int].pos.x;
    (if s < 0 {
        0
    } else {
        s
    }) / 20
}

/// The shooter for the next enemy bullet: with probability 1/3 (seed
/// divisible by 3) the eligible individual nearest the player, else the
/// eligible column picked by the seed.
pub open spec fn spec_selected_shooter(m: Seq<Enemy>, cs: Seq<usize>, px: int) -> int {
    let seed = spec_seed(m, cs, px);
    if seed % 3 == 0 {
        spec_nearest_from(m, cs, px, 0, cs[0] as int)
    } else {
        cs[seed % (cs.len() as int)] as int
    }
}

/// One individual after the per-enemy pass of a formation update: a
/// live one dies when `hit`, and one holding the move token steps.
pub open spec fn spec_enemy_after(e: Enemy, hit: bool, dir: int, down: bool) -> Enemy {
    if !e.live {
        e
    } else {
        let e1 = if hit {
            Enemy { live: false, remove: true, ..e }
        } else {
            e
        };
        if e.move_turn {
            spec_enemy_moved(e1, dir, down)
        } else {
            e1
        }
    }
}

/// The first-token index is a valid index of a nonempty list.
pub proof fn lemma_first_token_in_range(m: Seq<Enemy>, i: int)
    requires
        m.len() > 0,
    ensures
        0 <= spec_first_token(m, i) < m.len(),
    decreases m.len() - i,
{
    if 0 <= i < m.len() && !m[i].move_turn {
        lemma_first_token_in_range(m, i + 1);
    }
}

/// The first-living search lands inside the list or exactly at its end.
pub proof fn lemma_first_live_in_range(m: Seq<Enemy>, i: int)
    ensures
        0 <= spec_first_live_from(m, i) <= m.len(),
    decreases m.len() - i,
{
    if 0 <= i < m.len() && !m[i].live {
        lemma_first_live_in_range(m, i + 1);
    }
}

/// The first-token search only reads the token flags.
pub proof fn lemma_first_token_congruent(a: Seq<Enemy>, b: Seq<Enemy>, i: int)
    requires
        a.len() == b.len(),
        forall|k: int| 0 <= k < a.len() ==> a[k].move_turn == (#[trigger] b[k]).move_turn,
    ensures
        spec_first_token(a, i) == spec_first_token(b, i),
    decreases a.len() - i,
{
    if 0 <= i < a.len() && !a[i].move_turn {
        lemma_first_token_congruent(a, b, i + 1);
    }
}

/// The first-living search only reads the liveness flags.
pub proof fn lemma_first_live_congruent(a: Seq<Enemy>, b: Seq<Enemy>, i: int)
    requires
        a.len() == b.len(),
        forall|k: int| 0 <= k < a.len() ==> a[k].live == (#[trigger] b[k]).live,
    ensures
        spec_first_live_from(a, i) == spec_first_live_from(b, i),
    decreases a.len() - i,
{
    if 0 <= i < a.len() && !a[i].live {
        lemma_first_live_congruent(a, b, i + 1);
    }
}

/// The individual after one render: the owed erase done, the footprint
/// caught up while alive.
pub open spec fn spec_enemy_rendered(e: Enemy) -> Enemy {
    if !e.live {
        Enemy { remove: false, ..e }
    } else {
        Enemy { remove: false, pre_pos: e.pos, ..e }
    }
}

/// Drawing of one individual's render.
pub open spec fn spec_enemy_render_cmds(e: Enemy) -> Seq<Cmd> {
    (if e.remove {
        seq![spec_erase_rect(e.pre_pos, e.width as int, e.height as int)]
    } else {
        Seq::<Cmd>::empty()
    }) + (if e.live {
        seq![
            spec_erase_rect(e.pre_pos, e.width as int, e.height as int),
            spec_sprite_at(
                spec_enemy_sprite(e.enemy_type, e.show_image_type),
                e.pos,
                e.width as int,
                e.height as int,
            ),
        ]
    } else {
        Seq::<Cmd>::empty()
    })
}

/// Drawing of the whole formation's render, individuals in list order.
pub open spec fn spec_enemies_render_cmds(m: Seq<Enemy>) -> Seq<Cmd>
    decreases m.len(),
{
    if m.len() == 0 {
        Seq::empty()
    } else {
        spec_enemies_render_cmds(m.drop_last()) + spec_enemy_render_cmds(m.last())
    }
}

/// Drawing of the three bullets' render, slots in order.
pub open spec fn spec_ebullets_render_cmds(bs: Seq<Bullet>) -> Seq<Cmd>
    decreases bs.len(),
{
    if bs.len() == 0 {
        Seq::empty()
    } else {
        spec_ebullets_render_cmds(bs.drop_last()) + spec_ebullet_render_cmds(bs.last())
    }
}

/// The bottom y-position of the laid-out formation at the start of the
/// given stage: the nearer the bunkers, the harder the stage.
pub open spec fn spec_stage_gap(stage: int) -> int {
    if stage <= 1 {
        7
    } else if stage == 2 {
        4
    } else if stage == 3 {
        2
    } else if stage <= 6 {
        1
    } else {
        0
    }
}

/// The grid position of individual `i` at the start of `stage`: 11
/// columns 36 px apart from x = 60 px, 5 rows 36.8 px apart rising from
/// a stage-dependent bottom row.
pub open spec fn spec_grid_pos(ch: int, stage: int, i: int) -> Vec2 {
    let row = i / 11;
    let col = i % 11;
    let y0 = sat32(ch - (3784 + 368 * spec_stage_gap(stage)));
    Vec2 { x: (1200 + 720 * col) as i32, y: sat32(y0 - 736 * row) as i32 }
}

/// The whole formation: 55 individuals in 11 columns of 5 rows, three
/// bullet slots, the shared kill explosion, and the per-column
/// lowest-alive shooter table.
pub struct EnemyManage {
    /// Movement range of the formation, in subpixel units.
    pub left_border: i32,
    pub right_border: i32,
    /// Current shared direction: 1 right, -1 left.
    pub move_dir: i32,
    /// Direction flip is owed at the end of the current sweep.
    pub move_dir_invert: bool,
    /// The formation descends one step during the current sweep.
    pub move_down: bool,
    /// The 55 individuals: rows bottom-up, 11 per row, 2 octopus rows,
    /// then 2 crab rows, then 1 squid row.
    pub enemys_list: Vec<Enemy>,
    /// The shared kill explosion; the formation freezes while it shows.
    pub explosion: Explosion,
    /// The three enemy bullet slots.
    pub bullets: Vec<Bullet>,
    /// Per column still holding enemies: the index of its lowest living
    /// individual, columns in ascending order.
    pub can_shot_enemy: Vec<usize>,
    /// Frames since any enemy bullet was fired.
    pub shot_interval: usize,
    /// Which marching note plays next.
    pub play_sound_index: usize,
    pub canvas_width: i32,
    pub canvas_height: i32,
}

pub open spec fn manage_wf(m: EnemyManage) -> bool {
    &&& m.move_dir == 1 || m.move_dir == -1
    &&& explosion_wf(m.explosion)
    &&& forall|i: int| 0 <= i < m.enemys_list@.len() ==> enemy_wf(#[trigger] m.enemys_list@[i])
    &&& forall|i: int| 0 <= i < m.bullets@.len() ==> ebullet_wf(#[trigger] m.bullets@[i])
    &&& forall|i: int, j: int|
        0 <= i < j < m.can_shot_enemy@.len() ==> (m.can_shot_enemy@[i] as int % 11)
            < (m.can_shot_enemy@[j] as int % 11)
    &&& m.play_sound_index <= 4
}

/// The formation is fully registered: 55 individuals, 3 bullet slots,
/// and every eligibility entry in range.
pub open spec fn manage_ready(m: EnemyManage) -> bool {
    &&& m.enemys_list@.len() == 55
    &&& m.bullets@.len() == 3
    &&& forall|i: int|
        0 <= i < m.can_shot_enemy@.len() ==> (#[trigger] m.can_shot_enemy@[i]) < m.enemys_list@.len()
}

/// One entry per column, columns in order.
pub open spec fn spec_init_columns() -> Seq<usize> {
    seq![0usize, 1usize, 2usize, 3usize, 4usize, 5usize, 6usize, 7usize, 8usize, 9usize, 10usize]
}

/// The index of the first individual holding the move token, or 0 when
/// none does.
pub open spec fn spec_first_token(m: Seq<Enemy>, i: int) -> int
    decreases m.len() - i,
{
    if i < 0 || i >= m.len() {
        0
    } else if m[i].move_turn {
        i
    } else {
        spec_first_token(m, i + 1)
    }
}

/// The index of the first living individual at or after `i`, or the
/// list length when there is none.
pub open spec fn spec_first_live_from(m: Seq<Enemy>, i: int) -> int
    decreases m.len() - i,
{
    if i < 0 || i >= m.len() {
        m.len() as int
    } else if m[i].live {
        i
    } else {
        spec_first_live_from(m, i + 1)
    }
}

/// The lowest living individual of the column of `e`, scanning upward
/// row by row (stride 11), or the list length when the column is empty.
pub open spec fn spec_next_live(m: Seq<Enemy>, e: int) -> int
    decreases m.len() + 11 - e,
{
    if e < 0 || e >= m.len() {
        m.len() as int
    } else if m[e].live {
        e
    } else {
        spec_next_live(m, e + 11)
    }
}

/// The eligible-shooter table advanced over the current list of living
/// enemies: each entry climbs its column to its lowest living
/// individual, and exhausted columns drop out.
pub open spec fn spec_advanced_columns(m: Seq<Enemy>, cs: Seq<usize>) -> Seq<usize>
    decreases cs.len(),
{
    if cs.len() == 0 {
        Seq::empty()
    } else {
        let rest = spec_advanced_columns(m, cs.drop_last());
        let e2 = spec_next_live(m, cs.last() as int);
        if e2 < m.len() {
            rest.push(e2 as usize)
        } else {
            rest
        }
    }
}

/// Advancing an entry keeps its column and only climbs: the result is in
/// range, living, congruent mod 11 and no lower than the start.
pub proof fn lemma_next_live_props(m: Seq<Enemy>, e: int)
    requires
        0 <= e < m.len(),
    ensures
        spec_next_live(m, e) == m.len() || (e <= spec_next_live(m, e) < m.len()
            && m[spec_next_live(m, e)].live && spec_next_live(m, e) % 11 == e % 11),
    decreases m.len() + 11 - e,
{
    if !m[e].live {
        vstd::arithmetic::div_mod::lemma_mod_multiples_vanish(1, e, 11);
        if e + 11 < m.len() {
            lemma_next_live_props(m, e + 11);
        }
    }
}

/// The advanced table never grows.
pub proof fn lemma_advanced_columns_len(m: Seq<Enemy>, cs: Seq<usize>)
    ensures
        spec_advanced_columns(m, cs).len() <= cs.len(),
    decreases cs.len(),
{
    if cs.len() > 0 {
        lemma_advanced_columns_len(m, cs.drop_last());
    }
}

/// Every entry of the advanced table is in range, living, no lower in
/// column than the last starting entry, and the table keeps its strictly
/// ascending column order.
pub proof fn lemma_advanced_columns_wf(m: Seq<Enemy>, cs: Seq<usize>)
    requires
        m.len() <= usize::MAX as int,
        forall|i: int| 0 <= i < cs.len() ==> (#[trigger] cs[i]) < m.len(),
        forall|i: int, j: int| 0 <= i < j < cs.len() ==> (cs[i] as int % 11) < (cs[j] as int % 11),
    ensures
        forall|i: int|
            0 <= i < spec_advanced_columns(m, cs).len() ==> (#[trigger] spec_advanced_columns(
                m,
                cs,
            )[i]) < m.len() && m[spec_advanced_columns(m, cs)[i] as int].live,
        forall|i: int, j: int|
            0 <= i < j < spec_advanced_columns(m, cs).len() ==> (spec_advanced_columns(m, cs)[i]
                as int % 11) < (spec_advanced_columns(m, cs)[j] as int % 11),
        cs.len() > 0 ==> forall|i: int|
            0 <= i < spec_advanced_columns(m, cs).len() ==> (#[trigger] spec_advanced_columns(
                m,
                cs,
            )[i]) as int % 11 <= cs.last() as int % 11,
    decreases cs.len(),
{
    if cs.len() > 0 {
        let pre = cs.drop_last();
        lemma_advanced_columns_wf(m, pre);
        lemma_advanced_columns_len(m, pre);
        lemma_next_live_props(m, cs.last() as int);
        let r = spec_advanced_columns(m, cs);
        let rest = spec_advanced_columns(m, pre);
        let e2 = spec_next_live(m, cs.last() as int);
        assert(forall|k: int| 0 <= k < pre.len() ==> pre[k] == cs[k]);
        if pre.len() > 0 {
            assert((pre.last() as int % 11) < (cs.last() as int % 11));
        }
        if e2 < m.len() {
            assert(r =~= rest.push(e2 as usize));
            assert(e2 % 11 == cs.last() as int % 11);
            assert forall|i: int| 0 <= i < r.len() implies (#[trigger] r[i]) < m.len() && m[r[i] as int].live by {
                if i < rest.len() {
                    assert(r[i] == rest[i]);
                } else {
                    assert(r[i] == e2 as usize);
                }
            }
            assert forall|i: int| 0 <= i < r.len() implies (#[trigger] r[i]) as int % 11 <= cs.last() as int % 11 by {
                if i < rest.len() {
                    assert(r[i] == rest[i]);
                    assert(rest[i] as int % 11 <= pre.last() as int % 11);
                } else {
                    assert(r[i] == e2 as usize);
                }
            }
            assert forall|i: int, j: int| 0 <= i < j < r.len() implies (r[i] as int % 11) < (
            r[j] as int % 11) by {
                if j < rest.len() {
                    assert(r[i] == rest[i] && r[j] == rest[j]);
                } else {
                    assert(r[j] == e2 as usize);
                    assert(r[i] == rest[i]);
                    assert(rest[i] as int % 11 <= pre.last() as int % 11);
                }
            }
        } else {
            assert(r =~= rest);
            if rest.len() > 0 {
                assert forall|i: int| 0 <= i < r.len() implies (#[trigger] r[i]) as int % 11 <= cs.last() as int % 11 by {
                    assert(rest[i] as int % 11 <= pre.last() as int % 11);
                }
            }
        }
    }
}

impl EnemyManage {
    /// The manager before the formation is registered: movement range 35
    /// to 505 px, marching right, all slots empty, every column eligible.
    pub fn default() -> (m: EnemyManage)
        ensures
            manage_wf(m),
            m.left_border == 700 && m.right_border == 10100,
            m.move_dir == 1 && !m.move_dir_invert && !m.move_down,
            m.enemys_list@.len() == 0,
            m.bullets@.len() == 0,
            m.explosion == (Explosion {
                show: None,
                pos: Vec2 { x: 0, y: 0 },
                count: 0,
                width: 0,
                height: 0,
            }),
            m.can_shot_enemy@ =~= spec_init_columns(),
            m.shot_interval == 0 && m.play_sound_index == 0,
            m.canvas_width == 0 && m.canvas_height == 0,
    {
        EnemyManage {
            left_border: 700,
            right_border: 10100,
            move_dir: 1,
            move_dir_invert: false,
            move_down: false,
            enemys_list: Vec::new(),
            explosion: Explosion { show: None, pos: Vec2 { x: 0, y: 0 }, count: 0, width: 0, height: 0 },
            bullets: Vec::new(),
            can_shot_enemy: vec![0, 1, 2, 3, 4, 5, 6, 7, 8, 9, 10],
            shot_interval: 0,
            play_sound_index: 0,
            canvas_width: 0,
            canvas_height: 0,
        }
    }

    /// Block or allow enemy fire by setting the frames-since-last-shot
    /// counter directly.
    pub fn set_shot_interval(&mut self, shot_interval: usize)
        ensures
            *final(self) == (EnemyManage { shot_interval, ..*old(self) }),
    {
        self.shot_interval = shot_interval;
    }

    /// The y-coordinate of the lowest living individual, or `None` once
    /// the formation is wiped out.
    pub fn nadir_y(&self) -> (r: Option<i32>)
        requires
            manage_wf(*self),
            manage_ready(*self),
        ensures
            (r is Some) == (self.can_shot_enemy@.len() > 0),
            r matches Some(y) ==> ({
                let m = self.enemys_list@;
                let cs = self.can_shot_enemy@;
                &&& exists|k: int| 0 <= k < cs.len() && y == m[cs[k] as int].pos.y
                &&& forall|k: int| 0 <= k < cs.len() ==> m[#[trigger] cs[k] as int].pos.y <= y
            }),
    {
        if self.can_shot_enemy.len() == 0 {
            return None;
        }
        let mut nadir: i32 = self.enemys_list[self.can_shot_enemy[0]].pos.y;
        let mut k: usize = 1;
        proof {
            assert(nadir == self.enemys_list@[self.can_shot_enemy@[0] as int].pos.y);
        }
        while k < self.can_shot_enemy.len()
            invariant
                manage_wf(*self),
                manage_ready(*self),
                self.can_shot_enemy@.len() > 0,
                1 <= k <= self.can_shot_enemy@.len(),
                exists|j: int|
                    0 <= j < k && nadir == self.enemys_list@[#[trigger] self.can_shot_enemy@[j] as int].pos.y,
                forall|j: int|
                    0 <= j < k ==> self.enemys_list@[#[trigger] self.can_shot_enemy@[j] as int].pos.y
                        <= nadir,
            decreases self.can_shot_enemy@.len() - k,
        {
            let idx = self.can_shot_enemy[k];
            let y = self.enemys_list[idx].pos.y;
            if y > nadir {
                nadir = y;
            }
            k += 1;
        }
        Some(nadir)
    }

    /// Advance the eligible-shooter table: each column's entry climbs to
    /// its lowest living individual, and exhausted columns drop out of
    /// the set, which therefore only ever shrinks within a stage.
    pub fn update_can_shot_list(&mut self)
        requires
            manage_wf(*old(self)),
            manage_ready(*old(self)),
        ensures
            manage_wf(*final(self)),
            manage_ready(*final(self)),
            *final(self) == (EnemyManage {
                can_shot_enemy: final(self).can_shot_enemy,
                ..*old(self)
            }),
            final(self).can_shot_enemy@ == spec_advanced_columns(
                old(self).enemys_list@,
                old(self).can_shot_enemy@,
            ),
            final(self).can_shot_enemy@.len() <= old(self).can_shot_enemy@.len(),
    {
        let ghost m = self.enemys_list@;
        let ghost cs0 = self.can_shot_enemy@;
        let mut advanced: Vec<usize> = Vec::new();
        let mut i: usize = 0;
        while i < self.can_shot_enemy.len()
            invariant
                manage_wf(*self),
                manage_ready(*self),
                m == self.enemys_list@,
                cs0 == self.can_shot_enemy@,
                i <= cs0.len(),
                advanced@ == spec_advanced_columns(m, cs0.take(i as int)),
            decreases cs0.len() - i,
        {
            let mut e: usize = self.can_shot_enemy[i];
            while e < self.enemys_list.len() && !self.enemys_list[e].live
                invariant
                    m == self.enemys_list@,
                    m.len() == 55,
                    spec_next_live(m, e as int) == spec_next_live(m, cs0[i as int] as int),
                    e <= m.len() + 10,
                decreases m.len() + 11 - e,
            {
                e = e + 11;
            }
            proof {
                assert(spec_next_live(m, e as int) == e || spec_next_live(m, e as int)
                    == m.len());
                assert(cs0.take(i as int + 1).drop_last() =~= cs0.take(i as int));
            }
            if e < self.enemys_list.len() {
                advanced.push(e);
            }
            i += 1;
        }
        proof {
            assert(cs0.take(cs0.len() as int) =~= cs0);
            lemma_advanced_columns_len(m, cs0);
            lemma_advanced_columns_wf(m, cs0);
        }
        self.can_shot_enemy = advanced;
    }

    /// Register the 55 individuals (bottom-up: 2 octopus rows, 2 crab
    /// rows, 1 squid row), the three bullet slots, and the kill
    /// explosion's drawn size, remembering the canvas size.
    pub fn register_enemys(&mut self, canvas_width: i32, canvas_height: i32)
        requires
            manage_wf(*old(self)),
            old(self).enemys_list@.len() == 0,
            old(self).bullets@.len() == 0,
            forall|i: int|
                0 <= i < old(self).can_shot_enemy@.len() ==> (#[trigger] old(
                    self,
                ).can_shot_enemy@[i]) < 55,
        ensures
            manage_wf(*final(self)),
            manage_ready(*final(self)),
            final(self).enemys_list@.len() == 55,
            forall|i: int| 0 <= i < 55 ==> final(self).enemys_list@[i] == spec_fresh_enemy(i),
            final(self).bullets@.len() == 3,
            forall|k: int| 0 <= k < 3 ==> final(self).bullets@[k] == spec_fresh_ebullet(k),
            final(self).explosion == (Explosion {
                width: 598,
                height: 322,
                ..old(self).explosion
            }),
            final(self).canvas_width == canvas_width,
            final(self).canvas_height == canvas_height,
            *final(self) == (EnemyManage {
                enemys_list: final(self).enemys_list,
                bullets: final(self).bullets,
                explosion: final(self).explosion,
                canvas_width,
                canvas_height,
                ..*old(self)
            }),
    {
        self.canvas_width = canvas_width;
        self.canvas_height = canvas_height;
        let mut i: usize = 0;
        while i < 55
            invariant
                i <= 55,
                self.enemys_list@.len() == i,
                forall|k: int| 0 <= k < i ==> self.enemys_list@[k] == spec_fresh_enemy(k),
                *self == (EnemyManage {
                    enemys_list: self.enemys_list,
                    canvas_width,
                    canvas_height,
                    ..*old(self)
                }),
            decreases 55 - i,
        {
            let t = if i < 22 {
                EnemyType::Octopus
            } else if i < 44 {
                EnemyType::Crab
            } else {
                EnemyType::Squid
            };
            let w: i32 = match t {
                EnemyType::Octopus => 552,
                EnemyType::Crab => 506,
                EnemyType::Squid => 368,
            };
            self.enemys_list.push(
                Enemy {
                    enemy_type: t,
                    width: w,
                    height: 368,
                    pos: Vec2 { x: 0, y: 0 },
                    pre_pos: Vec2 { x: 0, y: 0 },
                    move_turn: i == 0,
                    live: true,
                    remove: false,
                    show_image_type: true,
                },
            );
            i += 1;
        }
        self.bullets.push(
            Bullet {
                width: 150,
                height: 350,
                pos: Vec2 { x: 0, y: 0 },
                pre_pos: Vec2 { x: 0, y: 0 },
                live: false,
                image: ImageType::EnemyBulletPlunger,
                explosion: BulletExplosion {
                    width: 360,
                    height: 480,
                    pos: Vec2 { x: 0, y: 0 },
                    effect_cnt: None,
                },
            },
        );
        self.bullets.push(
            Bullet {
                width: 150,
                height: 350,
                pos: Vec2 { x: 0, y: 0 },
                pre_pos: Vec2 { x: 0, y: 0 },
                live: false,
                image: ImageType::EnemyBulletSquiggly,
                explosion: BulletExplosion {
                    width: 360,
                    height: 480,
                    pos: Vec2 { x: 0, y: 0 },
                    effect_cnt: None,
                },
            },
        );
        self.bullets.push(
            Bullet {
                width: 150,
                height: 350,
                pos: Vec2 { x: 0, y: 0 },
                pre_pos: Vec2 { x: 0, y: 0 },
                live: false,
                image: ImageType::EnemyBulletRolling,
                explosion: BulletExplosion {
                    width: 360,
                    height: 480,
                    pos: Vec2 { x: 0, y: 0 },
                    effect_cnt: None,
                },
            },
        );
        self.explosion.width = 598;
        self.explosion.height = 322;
        proof {
            assert forall|k: int|
                0 <= k < self.enemys_list@.len() implies enemy_wf(
                #[trigger] self.enemys_list@[k],
            ) by {
                assert(self.enemys_list@[k] == spec_fresh_enemy(k));
                assert(spec_enemy_width_of(spec_enemy_kind_at(k)) >= 0);
            }
        }
    }

    /// Pick the individual that fires the next enemy bullet, from the
    /// player's x-position and the eligibility table.
    fn select_shooter(&self, player_x: i32) -> (r: usize)
        requires
            manage_wf(*self),
            manage_ready(*self),
            self.can_shot_enemy@.len() > 0,
        ensures
            r as int == spec_selected_shooter(
                self.enemys_list@,
                self.can_shot_enemy@,
                player_x as int,
            ),
            r < self.enemys_list@.len(),
    {
        let ghost m = self.enemys_list@;
        let ghost cs = self.can_shot_enemy@;
        let ghost px = player_x as int;
        let mut i_near: usize = self.can_shot_enemy[0];
        let mut j: usize = 0;
        while j < self.can_shot_enemy.len()
            invariant
                manage_wf(*self),
                manage_ready(*self),
                m == self.enemys_list@,
                cs == self.can_shot_enemy@,
                px == player_x as int,
                cs.len() > 0,
                j <= cs.len(),
                i_near < m.len(),
                spec_nearest_from(m, cs, px, j as int, i_near as int) == spec_nearest_from(
                    m,
                    cs,
                    px,
                    0,
                    cs[0] as int,
                ),
            decreases cs.len() - j,
        {
            let c = self.can_shot_enemy[j];
            let dc_raw: i64 = self.enemys_list[c].pos.x as i64 - player_x as i64;
            let dc: i64 = if dc_raw < 0 {
                -dc_raw
            } else {
                dc_raw
            };
            let db_raw: i64 = self.enemys_list[i_near].pos.x as i64 - player_x as i64;
            let db: i64 = if db_raw < 0 {
                -db_raw
            } else {
                db_raw
            };
            let ghost near0 = i_near as int;
            if dc < db {
                i_near = c;
            }
            proof {
                let jj = j as int;
                assert(dc as int == iabs(m[cs[jj] as int].pos.x - px));
                assert(db as int == iabs(m[near0].pos.x - px));
                if iabs(m[cs[jj] as int].pos.x - px) < iabs(m[near0].pos.x - px) {
                    assert(i_near as int == cs[jj] as int);
                    assert(spec_nearest_from(m, cs, px, jj, near0) == spec_nearest_from(
                        m,
                        cs,
                        px,
                        jj + 1,
                        cs[jj] as int,
                    ));
                } else {
                    assert(i_near as int == near0);
                    assert(spec_nearest_from(m, cs, px, jj, near0) == spec_nearest_from(
                        m,
                        cs,
                        px,
                        jj + 1,
                        near0,
                    ));
                }
            }
            j += 1;
        }
        let s: i64 = player_x as i64 + self.enemys_list[self.can_shot_enemy[0]].pos.x as i64;
        let s = if s < 0 {
            0
        } else {
            s
        };
        let seed: usize = (s / 20) as usize;
        if seed % 3 == 0 {
            i_near
        } else {
            self.can_shot_enemy[seed % self.can_shot_enemy.len()]
        }
    }

    /// One step of one enemy bullet slot. With the formation wiped out
    /// nothing happens. Outside the explosion freeze, a resting slot
    /// fires once the shared cooldown has passed 70 frames and its
    /// impact effect is over, from 40 px below the selected shooter;
    /// then the slot's bullet takes its flight step against the player.
    pub fn bullet_step(
        &mut self,
        i: usize,
        freeze: bool,
        player: &mut Player,
        out: &mut Vec<Cmd>,
    ) -> (q: Option<ProbeQuery>)
        requires
            manage_wf(*old(self)),
            manage_ready(*old(self)),
            i < 3,
            player::player_wf(*old(player)),
        ensures
            manage_wf(*final(self)),
            manage_ready(*final(self)),
            player::player_wf(*final(player)),
            ({
                let me = *old(self);
                let ch = me.canvas_height as int;
                if me.can_shot_enemy@.len() == 0 {
                    &&& *final(self) == me
                    &&& *final(player) == *old(player)
                    &&& final(out)@ == old(out)@
                    &&& q is None
                } else {
                    let b = me.bullets@[i as int];
                    let fired = !freeze && !b.live && me.shot_interval > 70
                        && b.explosion.effect_cnt is None;
                    let sel = spec_selected_shooter(
                        me.enemys_list@,
                        me.can_shot_enemy@,
                        old(player).pos.x as int,
                    );
                    let fpos = Vec2 {
                        x: me.enemys_list@[sel].pos.x,
                        y: sat32(me.enemys_list@[sel].pos.y + 800) as i32,
                    };
                    let b0 = if fired {
                        spec_ebullet_fired(b, fpos)
                    } else {
                        b
                    };
                    &&& final(self).bullets@ == me.bullets@.update(
                        i as int,
                        spec_ebullet_update_next(b0, ch, *old(player)),
                    )
                    &&& final(self).shot_interval == if fired {
                        0
                    } else {
                        me.shot_interval as int
                    }
                    &&& *final(self) == (EnemyManage {
                        bullets: final(self).bullets,
                        shot_interval: final(self).shot_interval,
                        ..me
                    })
                    &&& *final(player) == spec_ebullet_update_player(b0, ch, *old(player))
                    &&& final(out)@ == old(out)@ + spec_ebullet_update_cmds(b0, ch, *old(player))
                    &&& (q is Some) == spec_ebullet_update_probes(b0, ch, *old(player))
                    &&& (q matches Some(pq) ==> spec_ebullet_probe_ok(b0, pq))
                }
            }),
    {
        if self.can_shot_enemy.len() == 0 {
            return None;
        }
        if !freeze && !self.bullets[i].live && self.shot_interval > 70
            && self.bullets[i].explosion.effect_cnt.is_none() {
            let sel = self.select_shooter(player.pos.x);
            let e = self.enemys_list[sel];
            let fpos = Vec2 { x: e.pos.x, y: sat_add(e.pos.y, 800) };
            self.bullets[i].fire_from(fpos);
            self.shot_interval = 0;
        }
        self.bullets[i].update(self.canvas_height, player, out)
    }

    /// Close one formation update: outside the freeze, and while any
    /// column can still fire, the shared cooldown advances one frame.
    pub fn update_end(&mut self, freeze: bool)
        ensures
            *final(self) == (EnemyManage { shot_interval: final(self).shot_interval, ..*old(self) }),
            final(self).shot_interval as int == if !freeze && old(self).can_shot_enemy@.len() > 0 {
                if old(self).shot_interval + 1 <= usize::MAX {
                    old(self).shot_interval + 1
                } else {
                    usize::MAX as int
                }
            } else {
                old(self).shot_interval as int
            },
    {
        if !freeze && self.can_shot_enemy.len() > 0 {
            self.shot_interval = crate::geom::sat_add_usize(self.shot_interval, 1);
        }
    }

    /// The per-enemy pass of one formation update: every individual
    /// checks the player's bullet and, holding the move token, steps.
    /// At most one kill can happen, because the first one consumes the
    /// bullet.
    fn enemies_pass(&mut self, player: &mut Player, out: &mut Vec<Cmd>)
        requires
            manage_wf(*old(self)),
            manage_ready(*old(self)),
            player::player_wf(*old(player)),
        ensures
            manage_wf(*final(self)),
            manage_ready(*final(self)),
            player::player_wf(*final(player)),
            final(self).enemys_list@.len() == 55,
            *final(self) == (EnemyManage {
                enemys_list: final(self).enemys_list,
                explosion: final(self).explosion,
                ..*old(self)
            }),
            *final(player) == (Player { bullet: final(player).bullet, ..*old(player) }),
            forall|i: int|
                0 <= i < 55 ==> (#[trigger] final(self).enemys_list@[i]).move_turn == old(
                    self,
                ).enemys_list@[i].move_turn,
            ({
                let m0 = old(self).enemys_list@;
                let dir0 = old(self).move_dir as int;
                let down0 = old(self).move_down;
                let mf = final(self).enemys_list@;
                ||| {
                    &&& forall|i: int|
                        0 <= i < 55 ==> (#[trigger] mf[i]) == spec_enemy_after(
                            m0[i],
                            false,
                            dir0,
                            down0,
                        )
                    &&& final(player).bullet == old(player).bullet
                    &&& final(self).explosion == old(self).explosion
                    &&& final(out)@ == old(out)@
                }
                ||| exists|k0: int|
                    {
                        &&& 0 <= k0 < 55
                        &&& #[trigger] m0[k0].live
                        &&& spec_enemy_hit(m0[k0], old(player).bullet)
                        &&& forall|i: int|
                            0 <= i < 55 ==> (#[trigger] mf[i]) == spec_enemy_after(
                                m0[i],
                                i == k0,
                                dir0,
                                down0,
                            )
                        &&& final(player).bullet == spec_pbullet_consumed(
                            old(player).bullet,
                            spec_enemy_points(m0[k0].enemy_type),
                        )
                        &&& final(self).explosion == (Explosion {
                            show: Some(spec_explosion_sprite(m0[k0].enemy_type)),
                            pos: m0[k0].pos,
                            count: 15,
                            ..old(self).explosion
                        })
                        &&& final(out)@ == old(out)@ + seq![
                            Cmd::PlaySound { sound: SoundKind::InvaderExplosion },
                        ]
                    }
            }),
    {
        let ghost m0 = self.enemys_list@;
        let ghost dir0 = self.move_dir as int;
        let ghost down0 = self.move_down;
        let dir = self.move_dir;
        let down = self.move_down;
        let ghost mut killed: Option<int> = None;
        let mut i: usize = 0;
        while i < 55
            invariant
                manage_wf(*self),
                manage_ready(*self),
                player::player_wf(*player),
                m0 == old(self).enemys_list@,
                dir == old(self).move_dir,
                down == old(self).move_down,
                dir0 == old(self).move_dir as int,
                down0 == old(self).move_down,
                i <= 55,
                self.enemys_list@.len() == 55,
                *self == (EnemyManage {
                    enemys_list: self.enemys_list,
                    explosion: self.explosion,
                    ..*old(self)
                }),
                *player == (Player { bullet: player.bullet, ..*old(player) }),
                forall|k: int| i <= k < 55 ==> (#[trigger] self.enemys_list@[k]) == m0[k],
                forall|k: int|
                    0 <= k < i ==> (#[trigger] self.enemys_list@[k]) == spec_enemy_after(
                        m0[k],
                        killed == Some(k),
                        dir0,
                        down0,
                    ),
                match killed {
                    None => player.bullet == old(player).bullet && self.explosion == old(
                        self,
                    ).explosion && out@ == old(out)@,
                    Some(k0) => {
                        &&& 0 <= k0 < i
                        &&& m0[k0].live
                        &&& spec_enemy_hit(m0[k0], old(player).bullet)
                        &&& player.bullet == spec_pbullet_consumed(
                            old(player).bullet,
                            spec_enemy_points(m0[k0].enemy_type),
                        )
                        &&& self.explosion == (Explosion {
                            show: Some(spec_explosion_sprite(m0[k0].enemy_type)),
                            pos: m0[k0].pos,
                            count: 15,
                            ..old(self).explosion
                        })
                        &&& out@ == old(out)@ + seq![
                            Cmd::PlaySound { sound: SoundKind::InvaderExplosion },
                        ]
                    },
                },
            decreases 55 - i,
        {
            let ghost pb_before = player.bullet;
            let ghost e_before = self.enemys_list@[i as int];
            self.enemys_list[i].update(dir, down, &mut player.bullet, &mut self.explosion, out);
            proof {
                if e_before.live && spec_enemy_hit(e_before, pb_before) {
                    killed = Some(i as int);
                }
            }
            i += 1;
        }
        proof {
            assert forall|k: int|
                0 <= k < 55 implies (#[trigger] self.enemys_list@[k]).move_turn
                == m0[k].move_turn by {
                assert(self.enemys_list@[k] == spec_enemy_after(
                    m0[k],
                    killed == Some(k),
                    dir0,
                    down0,
                ));
            }
        }
    }

    /// The token pass of one formation update: the mover is found, a
    /// position beyond either border arms the direction-invert flag
    /// (idempotently), the token moves to the next living individual,
    /// and when it wraps to the start of the list the owed invert is
    /// applied exactly once — the whole formation flips direction and
    /// descends for one sweep — with one marching note.
    #[verifier::rlimit(100)]
    fn pass_token(&mut self, out: &mut Vec<Cmd>)
        requires
            manage_wf(*old(self)),
            manage_ready(*old(self)),
        ensures
            manage_wf(*final(self)),
            manage_ready(*final(self)),
            ({
                let me0 = *old(self);
                let m0 = me0.enemys_list@;
                let t = spec_first_token(m0, 0);
                let wrapped = spec_first_live_from(m0, t + 1) == 55;
                let flag1 = me0.move_dir_invert || m0[t].pos.x < me0.left_border
                    || me0.right_border < m0[t].pos.x;
                let nxt = if wrapped {
                    spec_first_live_from(m0, 0)
                } else {
                    spec_first_live_from(m0, t + 1)
                };
                let psi_norm = if me0.play_sound_index >= 4 {
                    0int
                } else {
                    me0.play_sound_index as int
                };
                &&& final(self).enemys_list@.len() == 55
                &&& forall|i: int|
                    0 <= i < 55 ==> (#[trigger] final(self).enemys_list@[i]) == (Enemy {
                        move_turn: (i == nxt && nxt < 55) || (i != t && m0[i].move_turn),
                        ..m0[i]
                    })
                &&& final(self).move_dir as int == if wrapped && flag1 {
                    -(me0.move_dir as int)
                } else {
                    me0.move_dir as int
                }
                &&& final(self).move_dir_invert == (flag1 && !wrapped)
                &&& final(self).move_down == if wrapped {
                    flag1
                } else {
                    me0.move_down
                }
                &&& final(self).play_sound_index as int == if wrapped {
                    psi_norm + 1
                } else {
                    me0.play_sound_index as int
                }
                &&& final(out)@ == old(out)@ + if wrapped {
                    seq![Cmd::PlaySound { sound: SoundKind::InvaderMove(psi_norm as usize) }]
                } else {
                    Seq::<Cmd>::empty()
                }
                &&& *final(self) == (EnemyManage {
                    enemys_list: final(self).enemys_list,
                    move_dir: final(self).move_dir,
                    move_dir_invert: final(self).move_dir_invert,
                    move_down: final(self).move_down,
                    play_sound_index: final(self).play_sound_index,
                    ..me0
                })
            }),
    {
        let ghost m1 = self.enemys_list@;
        let mut moved_enemy_index: usize = 0;
        let mut found = false;
        let mut j: usize = 0;
        while j < 55
            invariant
                self.enemys_list@.len() == 55,
                m1 == self.enemys_list@,
                j <= 55,
                moved_enemy_index < 55,
                !found ==> moved_enemy_index == 0,
                spec_first_token(m1, 0) == if found {
                    moved_enemy_index as int
                } else {
                    spec_first_token(m1, j as int)
                },
            decreases 55 - j,
        {
            let ghost found0 = found;
            if !found && self.enemys_list[j].move_turn {
                moved_enemy_index = j;
                found = true;
            }
            proof {
                let jj = j as int;
                if !found0 {
                    if m1[jj].move_turn {
                        assert(spec_first_token(m1, jj) == jj);
                    } else {
                        assert(spec_first_token(m1, jj) == spec_first_token(m1, jj + 1));
                    }
                }
            }
            j += 1;
        }
        proof {
            assert(moved_enemy_index as int == spec_first_token(m1, 0));
        }
        // a mover beyond either border owes the formation a direction flip
        let mx = self.enemys_list[moved_enemy_index].pos.x;
        if mx < self.left_border || self.right_border < mx {
            self.move_dir_invert = true;
        }
        // pass the token on
        self.enemys_list[moved_enemy_index].move_turn = false;
        let ghost m2 = self.enemys_list@;
        let mut next_move_enemy_index: usize = 55;
        let mut found_next = false;
        let mut k: usize = moved_enemy_index + 1;
        while k < 55
            invariant
                self.enemys_list@.len() == 55,
                m2 == self.enemys_list@,
                moved_enemy_index < k,
                k <= 55,
                found_next ==> next_move_enemy_index < 55,
                !found_next ==> next_move_enemy_index == 55,
                spec_first_live_from(m2, moved_enemy_index + 1) == if found_next {
                    next_move_enemy_index as int
                } else {
                    spec_first_live_from(m2, k as int)
                },
            decreases 55 - k,
        {
            let ghost found0 = found_next;
            if !found_next && self.enemys_list[k].live {
                next_move_enemy_index = k;
                found_next = true;
            }
            proof {
                let kk = k as int;
                if !found0 {
                    if m2[kk].live {
                        assert(spec_first_live_from(m2, kk) == kk);
                    } else {
                        assert(spec_first_live_from(m2, kk) == spec_first_live_from(m2, kk + 1));
                    }
                }
            }
            k += 1;
        }
        proof {
            assert(next_move_enemy_index as int == spec_first_live_from(
                m2,
                moved_enemy_index + 1,
            ));
        }
        let wrapped = !found_next;
        if wrapped {
            if self.move_dir_invert {
                // the owed flip is applied exactly once, at the wrap
                self.move_dir = -self.move_dir;
                self.move_dir_invert = false;
                self.move_down = true;
            } else {
                self.move_down = false;
            }
            let mut k2: usize = 0;
            let mut found2 = false;
            while k2 < 55
                invariant
                    self.enemys_list@.len() == 55,
                    m2 == self.enemys_list@,
                    k2 <= 55,
                    found2 ==> next_move_enemy_index < 55,
                    !found2 ==> next_move_enemy_index == 55,
                    spec_first_live_from(m2, 0) == if found2 {
                        next_move_enemy_index as int
                    } else {
                        spec_first_live_from(m2, k2 as int)
                    },
                decreases 55 - k2,
            {
                let ghost found0 = found2;
                if !found2 && self.enemys_list[k2].live {
                    next_move_enemy_index = k2;
                    found2 = true;
                }
                proof {
                    let kk = k2 as int;
                    if !found0 {
                        if m2[kk].live {
                            assert(spec_first_live_from(m2, kk) == kk);
                        } else {
                            assert(spec_first_live_from(m2, kk) == spec_first_live_from(
                                m2,
                                kk + 1,
                            ));
                        }
                    }
                }
                k2 += 1;
            }
            proof {
                assert(next_move_enemy_index as int == spec_first_live_from(m2, 0));
            }
            // marching note, cycling through the four tones
            self.play_sound_index = if self.play_sound_index >= 4 {
                0
            } else {
                self.play_sound_index
            };
            out.push(Cmd::PlaySound { sound: SoundKind::InvaderMove(self.play_sound_index) });
            self.play_sound_index = self.play_sound_index + 1;
        }
        if next_move_enemy_index < 55 {
            self.enemys_list[next_move_enemy_index].move_turn = true;
        }
        proof {
            let t = moved_enemy_index as int;
            let mf = self.enemys_list@;
            lemma_first_token_congruent(m1, old(self).enemys_list@, 0);
            lemma_first_live_congruent(m2, old(self).enemys_list@, t + 1);
            lemma_first_live_congruent(m2, old(self).enemys_list@, 0);
            if !wrapped {
                assert(final(out)@ =~= old(out)@ + Seq::<Cmd>::empty());
            } else {
                let psi_norm = if old(self).play_sound_index >= 4 {
                    0int
                } else {
                    old(self).play_sound_index as int
                };
                assert(final(out)@ =~= old(out)@ + seq![
                    Cmd::PlaySound { sound: SoundKind::InvaderMove(psi_norm as usize) },
                ]);
            }
        }
    }

    /// The movement half of one formation update, before the bullet
    /// steps. While the kill explosion shows, everything freezes except
    /// the explosion itself (returns true). Otherwise each individual
    /// takes its per-enemy pass, the token passes on (applying an owed
    /// direction invert exactly once per sweep, at the wrap), and the
    /// eligibility table advances.
    #[verifier::rlimit(60)]
    pub fn update_main(&mut self, player: &mut Player, out: &mut Vec<Cmd>) -> (freeze: bool)
        requires
            manage_wf(*old(self)),
            manage_ready(*old(self)),
            player::player_wf(*old(player)),
        ensures
            manage_wf(*final(self)),
            manage_ready(*final(self)),
            player::player_wf(*final(player)),
            freeze == (old(self).explosion.show is Some),
            freeze ==> ({
                &&& *final(self) == (EnemyManage {
                    explosion: spec_explosion_stepped(old(self).explosion),
                    ..*old(self)
                })
                &&& *final(player) == (Player {
                    bullet: if spec_explosion_stepped(old(self).explosion).count < 0 {
                        player::Bullet { can_shot: true, ..old(player).bullet }
                    } else {
                        old(player).bullet
                    },
                    ..*old(player)
                })
                &&& final(out)@ == old(out)@ + spec_explosion_render_cmds(old(self).explosion)
            }),
            !freeze ==> ({
                let me0 = *old(self);
                let m0 = me0.enemys_list@;
                let mf = final(self).enemys_list@;
                let dir0 = me0.move_dir as int;
                let down0 = me0.move_down;
                let t = spec_first_token(m0, 0);
                let wrapped = spec_first_live_from(mf, t + 1) == 55;
                let flag1 = me0.move_dir_invert || mf[t].pos.x < me0.left_border
                    || me0.right_border < mf[t].pos.x;
                let nxt = if wrapped {
                    spec_first_live_from(mf, 0)
                } else {
                    spec_first_live_from(mf, t + 1)
                };
                let psi_norm = if me0.play_sound_index >= 4 {
                    0int
                } else {
                    me0.play_sound_index as int
                };
                let move_cmds = if wrapped {
                    seq![Cmd::PlaySound { sound: SoundKind::InvaderMove(psi_norm as usize) }]
                } else {
                    Seq::<Cmd>::empty()
                };
                &&& mf.len() == 55
                &&& forall|i: int|
                    0 <= i < 55 ==> (#[trigger] mf[i]).move_turn == ((i == nxt && nxt < 55) || (i
                        != t && m0[i].move_turn))
                &&& ({
                    ||| {
                        &&& forall|i: int|
                            0 <= i < 55 ==> (#[trigger] mf[i]) == (Enemy {
                                move_turn: mf[i].move_turn,
                                ..spec_enemy_after(m0[i], false, dir0, down0)
                            })
                        &&& final(player).bullet == old(player).bullet
                        &&& final(self).explosion == me0.explosion
                        &&& final(out)@ == old(out)@ + move_cmds
                    }
                    ||| exists|k0: int|
                        {
                            &&& 0 <= k0 < 55
                            &&& #[trigger] m0[k0].live
                            &&& spec_enemy_hit(m0[k0], old(player).bullet)
                            &&& forall|i: int|
                                0 <= i < 55 ==> (#[trigger] mf[i]) == (Enemy {
                                    move_turn: mf[i].move_turn,
                                    ..spec_enemy_after(m0[i], i == k0, dir0, down0)
                                })
                            &&& final(player).bullet == spec_pbullet_consumed(
                                old(player).bullet,
                                spec_enemy_points(m0[k0].enemy_type),
                            )
                            &&& final(self).explosion == (Explosion {
                                show: Some(spec_explosion_sprite(m0[k0].enemy_type)),
                                pos: m0[k0].pos,
                                count: 15,
                                ..me0.explosion
                            })
                            &&& final(out)@ == old(out)@ + seq![
                                Cmd::PlaySound { sound: SoundKind::InvaderExplosion },
                            ] + move_cmds
                        }
                })
                &&& final(self).move_dir as int == if wrapped && flag1 {
                    -dir0
                } else {
                    dir0
                }
                &&& final(self).move_dir_invert == (flag1 && !wrapped)
                &&& final(self).move_down == if wrapped {
                    flag1
                } else {
                    down0
                }
                &&& final(self).can_shot_enemy@ == spec_advanced_columns(mf, me0.can_shot_enemy@)
                &&& final(self).can_shot_enemy@.len() <= me0.can_shot_enemy@.len()
                &&& final(self).play_sound_index as int == if wrapped {
                    psi_norm + 1
                } else {
                    me0.play_sound_index as int
                }
                &&& final(self).left_border == me0.left_border
                &&& final(self).right_border == me0.right_border
                &&& final(self).shot_interval == me0.shot_interval
                &&& final(self).bullets@ == me0.bullets@
                &&& final(self).canvas_width == me0.canvas_width
                &&& final(self).canvas_height == me0.canvas_height
                &&& *final(player) == (Player { bullet: final(player).bullet, ..*old(player) })
            }),
    {
        if self.explosion.show.is_some() {
            self.explosion.update_render(&mut player.bullet, out);
            return true;
        }
        let ghost m0 = self.enemys_list@;
        let ghost out0 = out@;
        self.enemies_pass(player, out);
        let ghost m1 = self.enemys_list@;
        let ghost out1 = out@;
        self.pass_token(out);
        let ghost m2 = self.enemys_list@;
        let ghost out2 = out@;
        let ghost pb1 = player.bullet;
        let ghost x1 = self.explosion;
        proof {
            let t = spec_first_token(m0, 0);
            lemma_first_token_in_range(m0, 0);
            lemma_first_token_congruent(m1, m0, 0);
            lemma_first_live_congruent(m1, m2, t + 1);
            lemma_first_live_congruent(m1, m2, 0);
            lemma_first_live_in_range(m2, t + 1);
            lemma_first_live_in_range(m2, 0);
            assert(m2[t] == (Enemy { move_turn: m2[t].move_turn, ..m1[t] }));
            assert(m2[t].pos == m1[t].pos);
        }
        self.update_can_shot_list();
        proof {
            let me0 = *old(self);
            let dir0 = me0.move_dir as int;
            let down0 = me0.move_down;
            let t = spec_first_token(m0, 0);
            let mf = self.enemys_list@;
            assert(mf == m2);
            let wrapped = spec_first_live_from(mf, t + 1) == 55;
            let psi_norm = if me0.play_sound_index >= 4 {
                0int
            } else {
                me0.play_sound_index as int
            };
            let move_cmds = if wrapped {
                seq![Cmd::PlaySound { sound: SoundKind::InvaderMove(psi_norm as usize) }]
            } else {
                Seq::<Cmd>::empty()
            };
            assert(out2 =~= out1 + move_cmds);
            let pa = {
                &&& forall|i: int|
                    0 <= i < 55 ==> (#[trigger] m1[i]) == spec_enemy_after(m0[i], false, dir0, down0)
                &&& pb1 == old(player).bullet
                &&& x1 == me0.explosion
                &&& out1 == out0
            };
            if pa {
                assert forall|i: int| 0 <= i < 55 implies (#[trigger] mf[i]) == (Enemy {
                    move_turn: mf[i].move_turn,
                    ..spec_enemy_after(m0[i], false, dir0, down0)
                }) by {
                    assert(m1[i] == spec_enemy_after(m0[i], false, dir0, down0));
                    assert(mf[i] == (Enemy { move_turn: mf[i].move_turn, ..m1[i] }));
                }
                assert(out2 =~= out0 + move_cmds);
            } else {
                let k0 = choose|k0: int|
                    {
                        &&& 0 <= k0 < 55
                        &&& #[trigger] m0[k0].live
                        &&& spec_enemy_hit(m0[k0], old(player).bullet)
                        &&& forall|i: int|
                            0 <= i < 55 ==> (#[trigger] m1[i]) == spec_enemy_after(
                                m0[i],
                                i == k0,
                                dir0,
                                down0,
                            )
                        &&& pb1 == spec_pbullet_consumed(
                            old(player).bullet,
                            spec_enemy_points(m0[k0].enemy_type),
                        )
                        &&& x1 == (Explosion {
                            show: Some(spec_explosion_sprite(m0[k0].enemy_type)),
                            pos: m0[k0].pos,
                            count: 15,
                            ..me0.explosion
                        })
                        &&& out1 == out0 + seq![
                            Cmd::PlaySound { sound: SoundKind::InvaderExplosion },
                        ]
                    };
                assert forall|i: int| 0 <= i < 55 implies (#[trigger] mf[i]) == (Enemy {
                    move_turn: mf[i].move_turn,
                    ..spec_enemy_after(m0[i], i == k0, dir0, down0)
                }) by {
                    assert(m1[i] == spec_enemy_after(m0[i], i == k0, dir0, down0));
                    assert(mf[i] == (Enemy { move_turn: mf[i].move_turn, ..m1[i] }));
                }
                assert(out2 =~= out0 + seq![
                    Cmd::PlaySound { sound: SoundKind::InvaderExplosion },
                ] + move_cmds);
            }
        }
        false
    }

    /// One render of the whole formation: every individual, then every
    /// bullet, each erasing its last footprint before drawing anew.
    pub fn render(&mut self, out: &mut Vec<Cmd>)
        requires
            manage_wf(*old(self)),
            manage_ready(*old(self)),
        ensures
            manage_wf(*final(self)),
            manage_ready(*final(self)),
            forall|i: int|
                0 <= i < 55 ==> (#[trigger] final(self).enemys_list@[i]) == spec_enemy_rendered(
                    old(self).enemys_list@[i],
                ),
            forall|k: int|
                0 <= k < 3 ==> (#[trigger] final(self).bullets@[k]) == spec_ebullet_rendered(
                    old(self).bullets@[k],
                ),
            final(out)@ == old(out)@ + spec_enemies_render_cmds(old(self).enemys_list@)
                + spec_ebullets_render_cmds(old(self).bullets@),
            *final(self) == (EnemyManage {
                enemys_list: final(self).enemys_list,
                bullets: final(self).bullets,
                ..*old(self)
            }),
            forall|i: int|
                0 <= i < 55 && (#[trigger] final(self).enemys_list@[i]).live ==> final(self).enemys_list@[i].pre_pos == final(self).enemys_list@[i].pos,
    {
        let ghost m0 = self.enemys_list@;
        let ghost bs0 = self.bullets@;
        let ghost out0 = out@;
        let mut i: usize = 0;
        while i < 55
            invariant
                manage_wf(*self),
                manage_ready(*self),
                m0 == old(self).enemys_list@,
                m0.len() == 55,
                bs0 == old(self).bullets@,
                bs0.len() == 3,
                out0 == old(out)@,
                i <= 55,
                *self == (EnemyManage { enemys_list: self.enemys_list, ..*old(self) }),
                forall|k: int| i <= k < 55 ==> (#[trigger] self.enemys_list@[k]) == m0[k],
                forall|k: int|
                    0 <= k < i ==> (#[trigger] self.enemys_list@[k]) == spec_enemy_rendered(m0[k]),
                out@ == out0 + spec_enemies_render_cmds(m0.take(i as int)),
            decreases 55 - i,
        {
            let ghost out_pre = out@;
            proof {
                assert(self.enemys_list@[i as int] == m0[i as int]);
            }
            self.enemys_list[i].render(out);
            proof {
                let ii = i as int;
                let e = m0[ii];
                let removal: Seq<Cmd> = if e.remove {
                    seq![spec_erase_rect(e.pre_pos, e.width as int, e.height as int)]
                } else {
                    Seq::<Cmd>::empty()
                };
                if e.live {
                    assert(out@ =~= out_pre + removal + seq![
                        spec_erase_rect(e.pre_pos, e.width as int, e.height as int),
                        spec_sprite_at(
                            spec_enemy_sprite(e.enemy_type, e.show_image_type),
                            e.pos,
                            e.width as int,
                            e.height as int,
                        ),
                    ]);
                    assert(spec_enemy_render_cmds(e) =~= removal + seq![
                        spec_erase_rect(e.pre_pos, e.width as int, e.height as int),
                        spec_sprite_at(
                            spec_enemy_sprite(e.enemy_type, e.show_image_type),
                            e.pos,
                            e.width as int,
                            e.height as int,
                        ),
                    ]);
                } else {
                    assert(out@ =~= out_pre + removal);
                    assert(spec_enemy_render_cmds(e) =~= removal + Seq::<Cmd>::empty());
                }
                assert(out@ =~= out_pre + spec_enemy_render_cmds(e));
                assert(m0.take(ii + 1).drop_last() =~= m0.take(ii));
                assert(out@ =~= out0 + spec_enemies_render_cmds(m0.take(ii + 1)));
            }
            i += 1;
        }
        proof {
            assert(m0.take(55) =~= m0);
        }
        let mut k: usize = 0;
        while k < 3
            invariant
                manage_wf(*self),
                manage_ready(*self),
                m0 == old(self).enemys_list@,
                m0.len() == 55,
                bs0 == old(self).bullets@,
                bs0.len() == 3,
                out0 == old(out)@,
                k <= 3,
                *self == (EnemyManage {
                    enemys_list: self.enemys_list,
                    bullets: self.bullets,
                    ..*old(self)
                }),
                forall|j: int|
                    0 <= j < 55 ==> (#[trigger] self.enemys_list@[j]) == spec_enemy_rendered(
                        m0[j],
                    ),
                forall|j: int| k <= j < 3 ==> (#[trigger] self.bullets@[j]) == bs0[j],
                forall|j: int|
                    0 <= j < k ==> (#[trigger] self.bullets@[j]) == spec_ebullet_rendered(bs0[j]),
                out@ == out0 + spec_enemies_render_cmds(m0) + spec_ebullets_render_cmds(
                    bs0.take(k as int),
                ),
            decreases 3 - k,
        {
            let ghost out_pre = out@;
            self.bullets[k].render(out);
            proof {
                let kk = k as int;
                assert(out@ =~= out_pre + spec_ebullet_render_cmds(bs0[kk]));
                assert(bs0.take(kk + 1).drop_last() =~= bs0.take(kk));
                assert(out@ =~= out0 + spec_enemies_render_cmds(m0) + spec_ebullets_render_cmds(
                    bs0.take(kk + 1),
                ));
            }
            k += 1;
        }
        proof {
            assert(bs0.take(3) =~= bs0);
        }
    }

    /// Lay the formation out for the start of `stage_number`: all 55
    /// individuals revived on the stage's grid, the token back at index
    /// 0, marching right with no invert or descent owed, any leftover
    /// explosion and bullets erased, every column eligible again, and
    /// the cooldown and marching note cleared.
    pub fn reset(&mut self, stage_number: usize, out: &mut Vec<Cmd>)
        requires
            manage_wf(*old(self)),
            manage_ready(*old(self)),
            1 <= stage_number <= 9,
        ensures
            manage_wf(*final(self)),
            manage_ready(*final(self)),
            forall|i: int|
                0 <= i < 55 ==> (#[trigger] final(self).enemys_list@[i]) == (Enemy {
                    pos: spec_grid_pos(
                        old(self).canvas_height as int,
                        stage_number as int,
                        i,
                    ),
                    pre_pos: spec_grid_pos(
                        old(self).canvas_height as int,
                        stage_number as int,
                        i,
                    ),
                    move_turn: i == 0,
                    live: true,
                    show_image_type: true,
                    ..old(self).enemys_list@[i]
                }),
            forall|k: int|
                0 <= k < 3 ==> (#[trigger] final(self).bullets@[k]) == (Bullet {
                    live: false,
                    ..old(self).bullets@[k]
                }),
            final(self).move_dir == 1,
            !final(self).move_dir_invert,
            !final(self).move_down,
            final(self).explosion == (Explosion { count: 0, ..old(self).explosion }),
            final(self).can_shot_enemy@ =~= spec_init_columns(),
            final(self).shot_interval == 0,
            final(self).play_sound_index == 0,
            *final(self) == (EnemyManage {
                enemys_list: final(self).enemys_list,
                bullets: final(self).bullets,
                move_dir: 1,
                move_dir_invert: false,
                move_down: false,
                explosion: final(self).explosion,
                can_shot_enemy: final(self).can_shot_enemy,
                shot_interval: 0,
                play_sound_index: 0,
                ..*old(self)
            }),
            final(out)@ == old(out)@ + seq![
                spec_erase_rect(
                    old(self).explosion.pos,
                    old(self).explosion.width as int,
                    old(self).explosion.height as int,
                ),
            ] + spec_ebullets_reset_cmds(old(self).bullets@),
    {
        let d: i32 = if stage_number <= 1 {
            7
        } else if stage_number == 2 {
            4
        } else if stage_number == 3 {
            2
        } else if stage_number <= 6 {
            1
        } else {
            0
        };
        let y0: i32 = sat_add(self.canvas_height, -(3784 + 368 * d));
        let ghost ch = self.canvas_height as int;
        let ghost st = stage_number as int;
        let mut i: usize = 0;
        while i < 55
            invariant
                manage_wf(*self),
                manage_ready(*self),
                i <= 55,
                ch == old(self).canvas_height as int,
                st == stage_number as int,
                1 <= st <= 9,
                y0 as int == sat32(ch - (3784 + 368 * spec_stage_gap(st))),
                *self == (EnemyManage { enemys_list: self.enemys_list, ..*old(self) }),
                forall|k: int| i <= k < 55 ==> (#[trigger] self.enemys_list@[k]) == old(
                    self,
                ).enemys_list@[k],
                forall|k: int|
                    0 <= k < i ==> (#[trigger] self.enemys_list@[k]) == (Enemy {
                        pos: spec_grid_pos(ch, st, k),
                        pre_pos: spec_grid_pos(ch, st, k),
                        move_turn: k == 0,
                        live: true,
                        show_image_type: true,
                        ..old(self).enemys_list@[k]
                    }),
            decreases 55 - i,
        {
            let row: usize = i / 11;
            let col: usize = i % 11;
            let x: i32 = 1200 + 720 * (col as i32);
            let y: i32 = sat_add(y0, -(736 * (row as i32)));
            let p = Vec2 { x, y };
            self.enemys_list[i].pos = p;
            self.enemys_list[i].pre_pos = p;
            self.enemys_list[i].move_turn = i == 0;
            self.enemys_list[i].live = true;
            self.enemys_list[i].show_image_type = true;
            proof {
                assert(self.enemys_list@[i as int] == (Enemy {
                    pos: spec_grid_pos(ch, st, i as int),
                    pre_pos: spec_grid_pos(ch, st, i as int),
                    move_turn: i == 0,
                    live: true,
                    show_image_type: true,
                    ..old(self).enemys_list@[i as int]
                }));
            }
            i += 1;
        }
        self.move_dir = 1;
        self.move_dir_invert = false;
        self.move_down = false;
        // erase whatever is left of the kill explosion
        push_erase(out, self.explosion.pos, self.explosion.width, self.explosion.height);
        let ghost bs0 = self.bullets@;
        let ghost out1 = out@;
        let mut k: usize = 0;
        while k < 3
            invariant
                manage_wf(*self),
                manage_ready(*self),
                k <= 3,
                bs0 == old(self).bullets@,
                bs0.len() == 3,
                ch == old(self).canvas_height as int,
                st == stage_number as int,
                forall|j: int|
                    0 <= j < 55 ==> (#[trigger] self.enemys_list@[j]) == (Enemy {
                        pos: spec_grid_pos(ch, st, j),
                        pre_pos: spec_grid_pos(ch, st, j),
                        move_turn: j == 0,
                        live: true,
                        show_image_type: true,
                        ..old(self).enemys_list@[j]
                    }),
                *self == (EnemyManage {
                    enemys_list: self.enemys_list,
                    bullets: self.bullets,
                    move_dir: 1,
                    move_dir_invert: false,
                    move_down: false,
                    ..*old(self)
                }),
                forall|j: int| k <= j < 3 ==> (#[trigger] self.bullets@[j]) == bs0[j],
                forall|j: int|
                    0 <= j < k ==> (#[trigger] self.bullets@[j]) == (Bullet {
                        live: false,
                        ..bs0[j]
                    }),
                out@ == out1 + spec_ebullets_reset_cmds(bs0.take(k as int)),
            decreases 3 - k,
        {
            let ghost out_pre = out@;
            if self.bullets[k].live {
                push_erase(
                    out,
                    self.bullets[k].pre_pos,
                    self.bullets[k].width,
                    self.bullets[k].height,
                );
                self.bullets[k].live = false;
            }
            proof {
                let kk = k as int;
                assert(self.bullets@[kk] == (Bullet { live: false, ..bs0[kk] }));
                assert(out@ =~= out_pre + spec_ebullet_reset_cmds(bs0[kk]));
                assert(bs0.take(kk + 1).drop_last() =~= bs0.take(kk));
                assert(out@ =~= out1 + spec_ebullets_reset_cmds(bs0.take(kk + 1)));
            }
            k += 1;
        }
        proof {
            assert(bs0.take(3) =~= bs0);
        }
        self.explosion.count = 0;
        self.can_shot_enemy = vec![0, 1, 2, 3, 4, 5, 6, 7, 8, 9, 10];
        self.shot_interval = 0;
        self.play_sound_index = 0;
        proof {
            assert(self.can_shot_enemy@ =~= spec_init_columns());
            assert(final(out)@ =~= old(out)@ + seq![
                spec_erase_rect(
                    old(self).explosion.pos,
                    old(self).explosion.width as int,
                    old(self).explosion.height as int,
                ),
            ] + spec_ebullets_reset_cmds(old(self).bullets@));
        }
    }
}

/// The erase owed by one bullet still flying when the stage resets.
pub open spec fn spec_ebullet_reset_cmds(b: Bullet) -> Seq<Cmd> {
    if b.live {
        seq![spec_erase_rect(b.pre_pos, b.width as int, b.height as int)]
    } else {
        Seq::empty()
    }
}

/// The erases owed by the bullets still flying when the stage resets.
pub open spec fn spec_ebullets_reset_cmds(bs: Seq<Bullet>) -> Seq<Cmd>
    decreases bs.len(),
{
    if bs.len() == 0 {
        Seq::empty()
    } else {
        spec_ebullets_reset_cmds(bs.drop_last()) + spec_ebullet_reset_cmds(bs.last())
    }
}

} // verus!
