//! The bonus saucer: a wall-clock-timed actor that crosses the screen,
//! awards points from a fixed 15-entry table indexed by the player's
//! firing history, and shows an explosion with a score readout.
//!
//! The spawn timer uses real time, not frames, so its cadence survives a
//! variable frame rate. The clock itself is read through the trusted
//! wrappers around the `instant` crate below; all decisions about the
//! elapsed time are made by [`Ufo::step`], which is verified for every
//! possible reading.

use vstd::prelude::*;

use crate::cmd::{push_erase, push_sprite, spec_erase_rect, spec_sprite_at, Cmd, SoundKind};
use crate::geom::{sat_add, sat_add_u64, sat32, Vec2};
use crate::load_image::ImageType;
use crate::player;

verus! {

#[verifier::external_type_specification]
#[verifier::external_body]
pub struct ExInstant(instant::Instant);

/// Relies on `instant::Instant::now`: an opaque timestamp of the moment
/// of the call.
#[verifier::external_body]
fn instant_now() -> (t: instant::Instant) {
    instant::Instant::now()
}

/// Relies on `instant::Instant::elapsed`, with `Duration::as_secs`
/// converting the result: the whole seconds since `t`. The value depends
/// on the clock, so nothing is promised of it; every caller decision is
/// verified for every reading.
#[verifier::external_body]
fn elapsed_secs(t: &instant::Instant) -> (s: u64) {
    t.elapsed().as_secs()
}

/// The saucer's explosion-with-score-readout effect.
#[derive(PartialEq, Eq, Structural, Clone, Copy, Debug)]
pub struct Explosion {
    /// Drawn size in subpixel units.
    pub width: i32,
    pub height: i32,
    pub pos: Vec2,
    pub live: bool,
    /// Frames left; the sprite shows on the first frame, the score
    /// readout during the later sub-window, and everything is erased
    /// when the count passes zero.
    pub count: i32,
    /// The points awarded, shown in the readout.
    pub got_score: u64,
}

pub open spec fn ufo_explosion_wf(x: Explosion) -> bool {
    &&& x.width >= 0 && x.height >= 0
    &&& -2 <= x.count <= 120
    &&& (x.live ==> x.count >= -1)
}

/// The effect after one frame: expired below zero, and always counted
/// down while it lives.
pub open spec fn spec_ufo_explosion_stepped(x: Explosion) -> Explosion {
    if !x.live {
        x
    } else {
        let x1 = if x.count < 0 {
            Explosion { live: false, ..x }
        } else {
            x
        };
        Explosion { count: (x1.count - 1) as i32, ..x1 }
    }
}

/// Drawing of one effect frame: the explosion sprite exactly on the
/// first frame, the score readout (over an erased explosion) during
/// frames 99 down to 1, and a final erase when the count passes zero.
pub open spec fn spec_ufo_explosion_cmds(x: Explosion) -> Seq<Cmd> {
    if !x.live {
        Seq::empty()
    } else {
        (if x.count == 120 {
            seq![spec_sprite_at(ImageType::UfoExplosion, x.pos, x.width as int, x.height as int)]
        } else {
            Seq::<Cmd>::empty()
        }) + (if 0 < x.count && x.count < 100 {
            seq![
                spec_erase_rect(x.pos, x.width as int, x.height as int),
                Cmd::UfoScoreText { score: x.got_score, x: x.pos.x, y: x.pos.y },
            ]
        } else {
            Seq::<Cmd>::empty()
        }) + (if x.count < 0 {
            seq![spec_erase_rect(x.pos, x.width as int, x.height as int)]
        } else {
            Seq::<Cmd>::empty()
        })
    }
}

impl Explosion {
    /// Arm the effect at `pos` for its 120-frame run.
    pub fn create_effect(&mut self, pos: Vec2)
        ensures
            *final(self) == (Explosion { pos, count: 120, live: true, ..*old(self) }),
    {
        self.pos = pos;
        self.count = 120;
        self.live = true;
    }

    /// One frame of the effect.
    pub fn update(&mut self, out: &mut Vec<Cmd>)
        requires
            ufo_explosion_wf(*old(self)),
        ensures
            ufo_explosion_wf(*final(self)),
            *final(self) == spec_ufo_explosion_stepped(*old(self)),
            final(out)@ == old(out)@ + spec_ufo_explosion_cmds(*old(self)),
    {
        if !self.live {
            proof {
                assert(final(out)@ =~= old(out)@ + spec_ufo_explosion_cmds(*old(self)));
            }
            return ;
        }
        if self.count == 120 {
            push_sprite(out, ImageType::UfoExplosion, self.pos, self.width, self.height);
        }
        if 0 < self.count && self.count < 100 {
            push_erase(out, self.pos, self.width, self.height);
            out.push(Cmd::UfoScoreText { score: self.got_score, x: self.pos.x, y: self.pos.y });
        }
        if self.count < 0 {
            push_erase(out, self.pos, self.width, self.height);
            self.live = false;
        }
        self.count = self.count - 1;
        proof {
            assert(final(out)@ =~= old(out)@ + spec_ufo_explosion_cmds(*old(self)));
        }
    }
}

/// The award for downing the saucer after `shot_cnt` player shots: the
/// fixed table cycles every 15 shots, starting at its first entry for
/// shot count 1.
pub open spec fn spec_ufo_award_index(shot_cnt: int) -> int {
    if shot_cnt <= 0 {
        0
    } else {
        (shot_cnt - 1) % 15
    }
}

/// The saucer.
pub struct Ufo {
    /// Drawn size in subpixel units.
    pub width: i32,
    pub height: i32,
    /// Center position; x < 0 means off screen, waiting to spawn.
    pub pos: Vec2,
    /// Center position of the last render, to be erased first.
    pub pre_pos: Vec2,
    pub explosion: Explosion,
    /// When the saucer last vanished; it may spawn 25 s later.
    pub lapse_time: instant::Instant,
    /// Crossing direction: 1 rightward, -1 leftward.
    pub move_dir: i32,
    /// The 15-entry award table indexed by the player's firing history.
    pub score_table: [u64; 15],
}

pub open spec fn ufo_wf(u: Ufo) -> bool {
    &&& u.width >= 0 && u.height >= 0
    &&& -1 <= u.move_dir <= 1
    &&& ufo_explosion_wf(u.explosion)
}

/// Everything of the saucer except the opaque spawn timestamp.
pub open spec fn spec_ufo_obs(u: Ufo) -> (i32, i32, Vec2, Vec2, Explosion, i32, Seq<u64>) {
    (u.width, u.height, u.pos, u.pre_pos, u.explosion, u.move_dir, u.score_table@)
}

/// Everything one saucer step guarantees for the clock reading
/// `elapsed`: it relates the saucer and the player's bullet before
/// (`u0`, `pb0`) and after (`u1`, `pb1`) one step, and the command list
/// before (`out0`) and after (`out1`), on a canvas `cw` units wide.
pub open spec fn spec_ufo_stepped(
    u0: Ufo,
    pb0: player::Bullet,
    u1: Ufo,
    pb1: player::Bullet,
    out0: Seq<Cmd>,
    out1: Seq<Cmd>,
    elapsed: int,
    cw: int,
) -> bool {
    let u = u0;
    let pb = pb0;
    let x1 = spec_ufo_explosion_stepped(u.explosion);
    let cmds0 = spec_ufo_explosion_cmds(u.explosion);
    let award = u.score_table@[spec_ufo_award_index(pb.shot_cnt as int)];
    if elapsed < 25 {
        &&& spec_ufo_obs(u1) == spec_ufo_obs(Ufo { explosion: x1, ..u })
        &&& pb1 == pb
        &&& out1 == out0 + cmds0
    } else if pb.live && crate::geom::in_rect(pb.pos, u.pos, u.width as int, u.height as int) {
        &&& spec_ufo_obs(u1) == spec_ufo_obs(
            Ufo {
                pos: Vec2 { x: -200i32, y: u.pos.y },
                explosion: Explosion {
                    pos: u.pos,
                    count: 120,
                    live: true,
                    got_score: award,
                    ..x1
                },
                ..u
            },
        )
        &&& pb1 == (player::Bullet {
            live: false,
            remove: Some(pb.pre_pos),
            can_shot: true,
            score: player::Score {
                sum: (if pb.score.sum + award <= u64::MAX {
                    pb.score.sum + award
                } else {
                    u64::MAX as int
                }) as u64,
            },
            ..pb
        })
        &&& out1 == out0 + cmds0 + seq![
            spec_erase_rect(u.pre_pos, u.width as int, u.height as int),
            Cmd::StopLooping { sound: SoundKind::UfoFlying },
            Cmd::PlaySound { sound: SoundKind::UfoExplosion },
        ]
    } else if u.pos.x < 0 {
        let sx = if pb.shot_cnt % 2 == 0 {
            sat32(cw - u.width / 2)
        } else {
            (u.width / 2) as int
        };
        let nd = if pb.shot_cnt % 2 == 0 {
            -1int
        } else {
            1int
        };
        &&& spec_ufo_obs(u1) == spec_ufo_obs(
            Ufo {
                pos: Vec2 { x: sx as i32, y: u.pos.y },
                pre_pos: Vec2 { x: sx as i32, y: u.pos.y },
                explosion: x1,
                move_dir: nd as i32,
                ..u
            },
        )
        &&& pb1 == pb
        &&& out1 == out0 + cmds0 + seq![Cmd::PlayLooping { sound: SoundKind::UfoFlying }]
    } else {
        let mx = sat32(u.pos.x + 50 * u.move_dir);
        if mx - u.width / 2 < 0 || cw < mx + u.width / 2 {
            &&& spec_ufo_obs(u1) == spec_ufo_obs(
                Ufo { pos: Vec2 { x: -200i32, y: u.pos.y }, explosion: x1, ..u },
            )
            &&& pb1 == pb
            &&& out1 == out0 + cmds0 + seq![
                spec_erase_rect(u.pre_pos, u.width as int, u.height as int),
                Cmd::StopLooping { sound: SoundKind::UfoFlying },
            ]
        } else {
            &&& spec_ufo_obs(u1) == spec_ufo_obs(
                Ufo { pos: Vec2 { x: mx as i32, y: u.pos.y }, explosion: x1, ..u },
            )
            &&& pb1 == pb
            &&& out1 == out0 + cmds0
        }
    }
}

/// A step never revives the player's bullet: with the bullet out of
/// flight beforehand, the saucer leaves it untouched whatever the clock
/// read.
pub proof fn lemma_ufo_step_dead_bullet(
    u0: Ufo,
    pb0: player::Bullet,
    u1: Ufo,
    pb1: player::Bullet,
    out0: Seq<Cmd>,
    out1: Seq<Cmd>,
    elapsed: int,
    cw: int,
)
    requires
        spec_ufo_stepped(u0, pb0, u1, pb1, out0, out1, elapsed, cw),
        !pb0.live,
    ensures
        pb1 == pb0,
{
}

/// What one saucer render guarantees for the clock reading `elapsed`:
/// nothing before the spawn timer allows or while off screen, else
/// erase-then-draw with the footprint catching up.
pub open spec fn spec_ufo_render_stepped(
    u0: Ufo,
    u1: Ufo,
    out0: Seq<Cmd>,
    out1: Seq<Cmd>,
    elapsed: int,
) -> bool {
    if elapsed < 25 || u0.pos.x < 0 {
        &&& spec_ufo_obs(u1) == spec_ufo_obs(u0)
        &&& out1 == out0
    } else {
        &&& spec_ufo_obs(u1) == spec_ufo_obs(Ufo { pre_pos: u0.pos, ..u0 })
        &&& out1 == out0 + seq![
            spec_erase_rect(u0.pre_pos, u0.width as int, u0.height as int),
            spec_sprite_at(ImageType::Ufo, u0.pos, u0.width as int, u0.height as int),
        ]
        &&& u1.pre_pos == u1.pos
    }
}

impl Ufo {
    /// A placeholder saucer, used before setup completes.
    pub fn empty() -> (u: Ufo)
        ensures
            ufo_wf(u),
            spec_ufo_obs(u) == (
                0i32,
                0i32,
                Vec2 { x: 0, y: 0 },
                Vec2 { x: 0, y: 0 },
                Explosion {
                    width: 0,
                    height: 0,
                    pos: Vec2 { x: 0, y: 0 },
                    live: false,
                    count: 0,
                    got_score: 0,
                },
                0i32,
                Seq::<u64>::new(15, |i: int| 0u64),
            ),
    {
        let u = Ufo {
            width: 0,
            height: 0,
            pos: Vec2 { x: 0, y: 0 },
            pre_pos: Vec2 { x: 0, y: 0 },
            explosion: Explosion {
                width: 0,
                height: 0,
                pos: Vec2 { x: 0, y: 0 },
                live: false,
                count: 0,
                got_score: 0,
            },
            lapse_time: instant_now(),
            move_dir: 0,
            score_table: [0, 0, 0, 0, 0, 0, 0, 0, 0, 0, 0, 0, 0, 0, 0],
        };
        proof {
            assert(u.score_table@ =~= Seq::<u64>::new(15, |i: int| 0u64));
        }
        u
    }

    /// A fresh saucer: 16x7 dots at 2.3 px per dot, flying at 80 px
    /// height, first crossing right to left, with the classic award
    /// table.
    pub fn new() -> (u: Ufo)
        ensures
            ufo_wf(u),
            u.width == 736 && u.height == 322,
            u.pos == (Vec2 { x: -200i32, y: 1600i32 }),
            u.pre_pos == (Vec2 { x: -200i32, y: -200i32 }),
            u.explosion == (Explosion {
                width: 966,
                height: 368,
                pos: Vec2 { x: 0, y: 0 },
                live: false,
                count: 0,
                got_score: 0,
            }),
            u.move_dir == -1,
            u.score_table@ =~= seq![
                50u64, 50u64, 100u64, 150u64, 100u64, 100u64, 50u64, 300u64, 100u64, 100u64,
                100u64, 50u64, 150u64, 100u64, 100u64,
            ],
    {
        Ufo {
            width: 736,
            height: 322,
            pos: Vec2 { x: -200, y: 1600 },
            pre_pos: Vec2 { x: -200, y: -200 },
            explosion: Explosion {
                width: 966,
                height: 368,
                pos: Vec2 { x: 0, y: 0 },
                live: false,
                count: 0,
                got_score: 0,
            },
            lapse_time: instant_now(),
            move_dir: -1,
            score_table: [50, 50, 100, 150, 100, 100, 50, 300, 100, 100, 100, 50, 150, 100, 100],
        }
    }

    /// Restart the 25-second spawn timer from now.
    pub fn reset_timer(&mut self)
        ensures
            spec_ufo_obs(*final(self)) == spec_ufo_obs(*old(self)),
    {
        self.lapse_time = instant_now();
    }

    /// Erase the saucer's last footprint.
    pub fn remove_shadow(&self, out: &mut Vec<Cmd>)
        requires
            ufo_wf(*self),
        ensures
            final(out)@ == old(out)@.push(
                spec_erase_rect(self.pre_pos, self.width as int, self.height as int),
            ),
    {
        push_erase(out, self.pre_pos, self.width, self.height);
    }

    /// Take the saucer off screen: erase it, restart the spawn timer and
    /// stop the flying sound.
    fn remove(&mut self, out: &mut Vec<Cmd>)
        requires
            ufo_wf(*old(self)),
        ensures
            ufo_wf(*final(self)),
            spec_ufo_obs(*final(self)) == spec_ufo_obs(
                Ufo { pos: Vec2 { x: -200i32, y: old(self).pos.y }, ..*old(self) },
            ),
            final(out)@ == old(out)@ + seq![
                spec_erase_rect(old(self).pre_pos, old(self).width as int, old(self).height as int),
                Cmd::StopLooping { sound: SoundKind::UfoFlying },
            ],
    {
        self.remove_shadow(out);
        self.lapse_time = instant_now();
        self.pos.x = -200;
        out.push(Cmd::StopLooping { sound: SoundKind::UfoFlying });
        proof {
            assert(final(out)@ =~= old(out)@ + seq![
                spec_erase_rect(old(self).pre_pos, old(self).width as int, old(self).height as int),
                Cmd::StopLooping { sound: SoundKind::UfoFlying },
            ]);
        }
    }

    /// Clear any leftover display when a new stage begins.
    pub fn reset(&mut self, out: &mut Vec<Cmd>)
        requires
            ufo_wf(*old(self)),
        ensures
            ufo_wf(*final(self)),
            spec_ufo_obs(*final(self)) == spec_ufo_obs(
                Ufo { pos: Vec2 { x: -200i32, y: old(self).pos.y }, ..*old(self) },
            ),
            final(out)@ == old(out)@ + seq![
                spec_erase_rect(old(self).pre_pos, old(self).width as int, old(self).height as int),
                Cmd::StopLooping { sound: SoundKind::UfoFlying },
            ],
    {
        self.reset_timer();
        self.remove(out);
    }

    /// One frame of saucer simulation, given the whole seconds since the
    /// spawn timer restarted. The explosion effect always runs; before 25
    /// seconds nothing else happens. A live player bullet touching the
    /// saucer downs it: the award from the table entry for the player's
    /// shot count is credited and shown, the bullet is consumed and the
    /// firing lock released. Otherwise the saucer spawns (entering from
    /// the side given by the parity of the player's shot count), crosses
    /// at 2.5 px per frame, and despawns past either edge.
    pub fn step(
        &mut self,
        elapsed: u64,
        canvas_width: i32,
        player_bullet: &mut player::Bullet,
        out: &mut Vec<Cmd>,
    )
        requires
            ufo_wf(*old(self)),
            player::bullet_wf(*old(player_bullet)),
        ensures
            ufo_wf(*final(self)),
            player::bullet_wf(*final(player_bullet)),
            spec_ufo_stepped(
                *old(self),
                *old(player_bullet),
                *final(self),
                *final(player_bullet),
                old(out)@,
                final(out)@,
                elapsed as int,
                canvas_width as int,
            ),
    {
        self.explosion.update(out);
        if elapsed < 25 {
            proof {
                assert(final(out)@ =~= old(out)@ + spec_ufo_explosion_cmds(old(self).explosion));
            }
            return ;
        }
        if player_bullet.live && player_bullet.pos.collision(&self.pos, self.width, self.height) {
            self.explosion.create_effect(self.pos);
            self.remove(out);
            player_bullet.live = false;
            player_bullet.remove = Some(player_bullet.pre_pos);
            player_bullet.can_shot = true;
            let idx: usize = if player_bullet.shot_cnt == 0 {
                0
            } else {
                ((player_bullet.shot_cnt - 1) % 15) as usize
            };
            let got_score: u64 = self.score_table[idx];
            player_bullet.score.sum = sat_add_u64(player_bullet.score.sum, got_score);
            self.explosion.got_score = got_score;
            out.push(Cmd::PlaySound { sound: SoundKind::UfoExplosion });
            proof {
                assert(final(out)@ =~= old(out)@ + spec_ufo_explosion_cmds(old(self).explosion)
                    + seq![
                    spec_erase_rect(
                        old(self).pre_pos,
                        old(self).width as int,
                        old(self).height as int,
                    ),
                    Cmd::StopLooping { sound: SoundKind::UfoFlying },
                    Cmd::PlaySound { sound: SoundKind::UfoExplosion },
                ]);
            }
            return ;
        }
        if self.pos.x < 0 {
            if player_bullet.shot_cnt % 2 == 0 {
                self.pos.x = sat_add(canvas_width, -(self.width / 2));
                self.move_dir = -1;
            } else {
                self.pos.x = self.width / 2;
                self.move_dir = 1;
            }
            self.pre_pos = self.pos;
            out.push(Cmd::PlayLooping { sound: SoundKind::UfoFlying });
            proof {
                assert(final(out)@ =~= old(out)@ + spec_ufo_explosion_cmds(old(self).explosion)
                    + seq![Cmd::PlayLooping { sound: SoundKind::UfoFlying }]);
            }
            return ;
        }
        self.pos.x = sat_add(self.pos.x, 50 * self.move_dir);
        let left_edge: i64 = self.pos.x as i64 - (self.width / 2) as i64;
        let right_edge: i64 = self.pos.x as i64 + (self.width / 2) as i64;
        if left_edge < 0 || (canvas_width as i64) < right_edge {
            self.remove(out);
            proof {
                assert(final(out)@ =~= old(out)@ + spec_ufo_explosion_cmds(old(self).explosion)
                    + seq![
                    spec_erase_rect(
                        old(self).pre_pos,
                        old(self).width as int,
                        old(self).height as int,
                    ),
                    Cmd::StopLooping { sound: SoundKind::UfoFlying },
                ]);
            }
        } else {
            proof {
                assert(final(out)@ =~= old(out)@ + spec_ufo_explosion_cmds(old(self).explosion));
            }
        }
    }

    /// One frame of saucer simulation against the real spawn clock; the
    /// decisions for every possible reading are those of [`Ufo::step`].
    pub fn update(
        &mut self,
        canvas_width: i32,
        player_bullet: &mut player::Bullet,
        out: &mut Vec<Cmd>,
    )
        requires
            ufo_wf(*old(self)),
            player::bullet_wf(*old(player_bullet)),
        ensures
            ufo_wf(*final(self)),
            player::bullet_wf(*final(player_bullet)),
            exists|e: int|
                0 <= e && #[trigger] spec_ufo_stepped(
                    *old(self),
                    *old(player_bullet),
                    *final(self),
                    *final(player_bullet),
                    old(out)@,
                    final(out)@,
                    e,
                    canvas_width as int,
                ),
            !old(player_bullet).live ==> *final(player_bullet) == *old(player_bullet),
            final(player_bullet).score.sum >= old(player_bullet).score.sum,
            final(self).score_table@ == old(self).score_table@,
    {
        let e = elapsed_secs(&self.lapse_time);
        self.step(e, canvas_width, player_bullet, out);
        proof {
            assert(spec_ufo_stepped(
                *old(self),
                *old(player_bullet),
                *final(self),
                *final(player_bullet),
                old(out)@,
                final(out)@,
                e as int,
                canvas_width as int,
            ));
            if !old(player_bullet).live {
                lemma_ufo_step_dead_bullet(
                    *old(self),
                    *old(player_bullet),
                    *final(self),
                    *final(player_bullet),
                    old(out)@,
                    final(out)@,
                    e as int,
                    canvas_width as int,
                );
            }
        }
    }

    /// One render, given the whole seconds since the spawn timer
    /// restarted: nothing before the timer allows or while off screen,
    /// else erase-then-draw with the footprint catching up.
    pub fn render_step(&mut self, elapsed: u64, out: &mut Vec<Cmd>)
        requires
            ufo_wf(*old(self)),
        ensures
            ufo_wf(*final(self)),
            spec_ufo_render_stepped(
                *old(self),
                *final(self),
                old(out)@,
                final(out)@,
                elapsed as int,
            ),
    {
        if self.pos.x < 0 || elapsed < 25 {
            return ;
        }
        self.remove_shadow(out);
        push_sprite(out, ImageType::Ufo, self.pos, self.width, self.height);
        self.pre_pos = self.pos;
        proof {
            assert(final(out)@ =~= old(out)@ + seq![
                spec_erase_rect(old(self).pre_pos, old(self).width as int, old(self).height as int),
                spec_sprite_at(
                    ImageType::Ufo,
                    old(self).pos,
                    old(self).width as int,
                    old(self).height as int,
                ),
            ]);
        }
    }

    /// One render against the real spawn clock.
    pub fn render(&mut self, out: &mut Vec<Cmd>)
        requires
            ufo_wf(*old(self)),
        ensures
            ufo_wf(*final(self)),
            exists|e: int|
                0 <= e && #[trigger] spec_ufo_render_stepped(
                    *old(self),
                    *final(self),
                    old(out)@,
                    final(out)@,
                    e,
                ),
            final(self).pos == old(self).pos,
            final(self).explosion == old(self).explosion,
    {
        let e = elapsed_secs(&self.lapse_time);
        self.render_step(e, out);
        proof {
            assert(spec_ufo_render_stepped(
                *old(self),
                *final(self),
                old(out)@,
                final(out)@,
                e as int,
            ));
        }
    }
}

} // verus!
