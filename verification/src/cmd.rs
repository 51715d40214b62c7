//! Render and sound commands. The simulation never draws or plays
//! anything itself: each update appends commands that the host executes
//! in order, so every visible effect of a frame is a plain value.
//!
//! Rectangles are given by their top-left corner and size in subpixel
//! units (20 per screen pixel); the host divides by 20 when drawing, and
//! inflates erase rectangles by one pixel on each side to avoid seam
//! artifacts on some canvas backends.

use vstd::prelude::*;

use crate::geom::{sat32, sat_add, Vec2};
use crate::load_image::ImageType;

verus! {

/// A sound effect of the game. `InvaderMove` carries which of the four
/// marching notes to play.
#[derive(PartialEq, Eq, Structural, Clone, Copy, Debug)]
pub enum SoundKind {
    InvaderMove(usize),
    PlayerShot,
    InvaderExplosion,
    PlayerExplosion,
    UfoFlying,
    UfoExplosion,
}

/// One drawing or sound instruction for the host, in subpixel units.
#[derive(PartialEq, Eq, Structural, Clone, Copy, Debug)]
pub enum Cmd {
    /// Paint the background color over the rectangle.
    Erase { x: i32, y: i32, w: i32, h: i32 },
    /// Blit the sprite `kind` scaled into the rectangle.
    Sprite { kind: ImageType, x: i32, y: i32, w: i32, h: i32 },
    /// Show the zero-padded score readout.
    ScoreText { sum: u64 },
    /// Show the remaining-life readout and one ship icon per spare life.
    RemainLifeText { life: i32 },
    /// Show the points awarded for a downed saucer at the given center.
    UfoScoreText { score: u64, x: i32, y: i32 },
    /// Show the title screen text.
    TitleText,
    /// Show the game-over message.
    GameOverText,
    /// Clear the whole screen to the background color.
    ClearScreen,
    /// Draw the red base line above the life readout.
    RedLine,
    /// Play a sound effect once.
    PlaySound { sound: SoundKind },
    /// Start looping a sound effect.
    PlayLooping { sound: SoundKind },
    /// Stop a looping sound effect.
    StopLooping { sound: SoundKind },
}

/// The erase command for the rectangle of center `c`, width `w` and
/// height `h`.
pub open spec fn spec_erase_rect(c: Vec2, w: int, h: int) -> Cmd {
    Cmd::Erase {
        x: sat32(c.x - w / 2) as i32,
        y: sat32(c.y - h / 2) as i32,
        w: w as i32,
        h: h as i32,
    }
}

/// The sprite command blitting `k` into the rectangle of center `c`,
/// width `w` and height `h`.
pub open spec fn spec_sprite_at(k: ImageType, c: Vec2, w: int, h: int) -> Cmd {
    Cmd::Sprite {
        kind: k,
        x: sat32(c.x - w / 2) as i32,
        y: sat32(c.y - h / 2) as i32,
        w: w as i32,
        h: h as i32,
    }
}

/// Append an erase of the rectangle centered at `c`.
pub fn push_erase(out: &mut Vec<Cmd>, c: Vec2, w: i32, h: i32)
    requires
        w >= 0,
        h >= 0,
    ensures
        final(out)@ == old(out)@.push(spec_erase_rect(c, w as int, h as int)),
{
    let x = sat_add(c.x, -(w / 2));
    let y = sat_add(c.y, -(h / 2));
    out.push(Cmd::Erase { x, y, w, h });
}

/// Append a blit of the sprite `k` into the rectangle centered at `c`.
pub fn push_sprite(out: &mut Vec<Cmd>, k: ImageType, c: Vec2, w: i32, h: i32)
    requires
        w >= 0,
        h >= 0,
    ensures
        final(out)@ == old(out)@.push(spec_sprite_at(k, c, w as int, h as int)),
{
    let x = sat_add(c.x, -(w / 2));
    let y = sat_add(c.y, -(h / 2));
    out.push(Cmd::Sprite { kind: k, x, y, w, h });
}

} // verus!
