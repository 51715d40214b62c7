//! Simulation core of a browser arcade shooter: a player ship fires at a
//! marching formation of invaders while a bonus saucer crosses the screen.
//!
//! All game logic runs on integer coordinates with 20 subpixel units per
//! screen pixel, so every speed and sprite size of the game is exact.
//! Drawing and sound are never performed here: update functions append
//! [`cmd::Cmd`] values that a thin host executes, and collision probes
//! against the rendered background are answered by the host through the
//! query/resume protocol of [`game::Game`].

pub mod cmd;
pub mod dot_data;
pub mod enemy;
pub mod game;
pub mod geom;
pub mod input;
pub mod load_image;
pub mod pause;
pub mod player;
pub mod pixel_ctrl;
pub mod strutil;
pub mod ufo;
