//! The closed set of sprite kinds drawn by the game, and the recipe (dot
//! data name and color) from which the host builds each bitmap.

use vstd::prelude::*;
use crate::dot_data::Color;

verus! {

/// Every bitmap the game draws, one variant per sprite.
#[derive(PartialEq, Eq, Structural, Hash, Clone, Copy, Debug)]
pub enum ImageType {
    Player,
    OctopusOpen,
    OctopusClose,
    CrabBanzai,
    CrabDown,
    SquidOpen,
    SquidClose,
    PlayerBullet,
    ExplosionTurquoise,
    ExplosionPurple,
    ExpolsionGreen,
    ExplosionShadow,
    LandPlayerBulletFront,
    LandPlayerBulletShadow,
    Torchika,
    Ufo,
    UfoExplosion,
    EnemyBulletSquiggly,
    EnemyBulletPlunger,
    EnemyBulletRolling,
    EnemyBulletExplosionFront,
    EnemyBulletExplosionShadow,
}

impl ImageType {
    /// All sprite kinds, in the order the host loads them.
    pub fn ret_all_types() -> (r: Vec<ImageType>)
        ensures
            r@ =~= seq![
                ImageType::Player,
                ImageType::CrabBanzai,
                ImageType::CrabDown,
                ImageType::OctopusOpen,
                ImageType::OctopusClose,
                ImageType::SquidOpen,
                ImageType::SquidClose,
                ImageType::PlayerBullet,
                ImageType::ExplosionTurquoise,
                ImageType::ExplosionPurple,
                ImageType::ExpolsionGreen,
                ImageType::ExplosionShadow,
                ImageType::LandPlayerBulletFront,
                ImageType::LandPlayerBulletShadow,
                ImageType::Torchika,
                ImageType::Ufo,
                ImageType::UfoExplosion,
                ImageType::EnemyBulletSquiggly,
                ImageType::EnemyBulletPlunger,
                ImageType::EnemyBulletRolling,
                ImageType::EnemyBulletExplosionFront,
                ImageType::EnemyBulletExplosionShadow,
            ],
    {
        vec![
            ImageType::Player,
            ImageType::CrabBanzai,
            ImageType::CrabDown,
            ImageType::OctopusOpen,
            ImageType::OctopusClose,
            ImageType::SquidOpen,
            ImageType::SquidClose,
            ImageType::PlayerBullet,
            ImageType::ExplosionTurquoise,
            ImageType::ExplosionPurple,
            ImageType::ExpolsionGreen,
            ImageType::ExplosionShadow,
            ImageType::LandPlayerBulletFront,
            ImageType::LandPlayerBulletShadow,
            ImageType::Torchika,
            ImageType::Ufo,
            ImageType::UfoExplosion,
            ImageType::EnemyBulletSquiggly,
            ImageType::EnemyBulletPlunger,
            ImageType::EnemyBulletRolling,
            ImageType::EnemyBulletExplosionFront,
            ImageType::EnemyBulletExplosionShadow,
        ]
    }
}

/// The dot data name from which the sprite of kind `t` is built.
pub open spec fn spec_sprite_name(t: ImageType) -> Seq<char> {
    match t {
        ImageType::Player => "player"@,
        ImageType::OctopusOpen => "octopus_open"@,
        ImageType::OctopusClose => "octopus_close"@,
        ImageType::CrabBanzai => "crab_banzai"@,
        ImageType::CrabDown => "crab_down"@,
        ImageType::SquidOpen => "squid_open"@,
        ImageType::SquidClose => "squid_close"@,
        ImageType::PlayerBullet => "player_bullet"@,
        ImageType::ExplosionTurquoise => "explosion"@,
        ImageType::ExplosionPurple => "explosion"@,
        ImageType::ExpolsionGreen => "explosion"@,
        ImageType::ExplosionShadow => "explosion"@,
        ImageType::LandPlayerBulletFront => "land_player_bullet"@,
        ImageType::LandPlayerBulletShadow => "land_player_bullet"@,
        ImageType::Torchika => "torchika"@,
        ImageType::Ufo => "ufo"@,
        ImageType::UfoExplosion => "ufo_explosion"@,
        ImageType::EnemyBulletSquiggly => "enemy_bullet_squiggly"@,
        ImageType::EnemyBulletPlunger => "enemy_bullet_plunger"@,
        ImageType::EnemyBulletRolling => "enemy_bullet_rolling"@,
        ImageType::EnemyBulletExplosionFront => "enemy_bullet_explosion"@,
        ImageType::EnemyBulletExplosionShadow => "enemy_bullet_explosion"@,
    }
}

/// The color in which the sprite of kind `t` is painted.
pub open spec fn spec_sprite_color(t: ImageType) -> Color {
    match t {
        ImageType::Player => Color::Turquoise,
        ImageType::OctopusOpen => Color::Purple,
        ImageType::OctopusClose => Color::Purple,
        ImageType::CrabBanzai => Color::Turquoise,
        ImageType::CrabDown => Color::Turquoise,
        ImageType::SquidOpen => Color::Green,
        ImageType::SquidClose => Color::Green,
        ImageType::PlayerBullet => Color::Turquoise,
        ImageType::ExplosionTurquoise => Color::Turquoise,
        ImageType::ExplosionPurple => Color::Purple,
        ImageType::ExpolsionGreen => Color::Green,
        ImageType::ExplosionShadow => Color::Background,
        ImageType::LandPlayerBulletFront => Color::Red,
        ImageType::LandPlayerBulletShadow => Color::Background,
        ImageType::Torchika => Color::Red,
        ImageType::Ufo => Color::Purple,
        ImageType::UfoExplosion => Color::Purple,
        ImageType::EnemyBulletSquiggly => Color::Yellow,
        ImageType::EnemyBulletPlunger => Color::Yellow,
        ImageType::EnemyBulletRolling => Color::Yellow,
        ImageType::EnemyBulletExplosionFront => Color::Red,
        ImageType::EnemyBulletExplosionShadow => Color::Background,
    }
}

/// The dot data name for the sprite of kind `t`, for the host's loader.
pub fn sprite_name(t: ImageType) -> (r: &'static str)
    ensures
        r@ == spec_sprite_name(t),
{
    match t {
        ImageType::Player => "player",
        ImageType::OctopusOpen => "octopus_open",
        ImageType::OctopusClose => "octopus_close",
        ImageType::CrabBanzai => "crab_banzai",
        ImageType::CrabDown => "crab_down",
        ImageType::SquidOpen => "squid_open",
        ImageType::SquidClose => "squid_close",
        ImageType::PlayerBullet => "player_bullet",
        ImageType::ExplosionTurquoise => "explosion",
        ImageType::ExplosionPurple => "explosion",
        ImageType::ExpolsionGreen => "explosion",
        ImageType::ExplosionShadow => "explosion",
        ImageType::LandPlayerBulletFront => "land_player_bullet",
        ImageType::LandPlayerBulletShadow => "land_player_bullet",
        ImageType::Torchika => "torchika",
        ImageType::Ufo => "ufo",
        ImageType::UfoExplosion => "ufo_explosion",
        ImageType::EnemyBulletSquiggly => "enemy_bullet_squiggly",
        ImageType::EnemyBulletPlunger => "enemy_bullet_plunger",
        ImageType::EnemyBulletRolling => "enemy_bullet_rolling",
        ImageType::EnemyBulletExplosionFront => "enemy_bullet_explosion",
        ImageType::EnemyBulletExplosionShadow => "enemy_bullet_explosion",
    }
}

/// The paint color for the sprite of kind `t`, for the host's loader.
pub fn sprite_color(t: ImageType) -> (r: Color)
    ensures
        r == spec_sprite_color(t),
{
    match t {
        ImageType::Player => Color::Turquoise,
        ImageType::OctopusOpen => Color::Purple,
        ImageType::OctopusClose => Color::Purple,
        ImageType::CrabBanzai => Color::Turquoise,
        ImageType::CrabDown => Color::Turquoise,
        ImageType::SquidOpen => Color::Green,
        ImageType::SquidClose => Color::Green,
        ImageType::PlayerBullet => Color::Turquoise,
        ImageType::ExplosionTurquoise => Color::Turquoise,
        ImageType::ExplosionPurple => Color::Purple,
        ImageType::ExpolsionGreen => Color::Green,
        ImageType::ExplosionShadow => Color::Background,
        ImageType::LandPlayerBulletFront => Color::Red,
        ImageType::LandPlayerBulletShadow => Color::Background,
        ImageType::Torchika => Color::Red,
        ImageType::Ufo => Color::Purple,
        ImageType::UfoExplosion => Color::Purple,
        ImageType::EnemyBulletSquiggly => Color::Yellow,
        ImageType::EnemyBulletPlunger => Color::Yellow,
        ImageType::EnemyBulletRolling => Color::Yellow,
        ImageType::EnemyBulletExplosionFront => Color::Red,
        ImageType::EnemyBulletExplosionShadow => Color::Background,
    }
}

} // verus!
