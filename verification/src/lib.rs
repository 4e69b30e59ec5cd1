//! A verified core for a small hand-made game and its Wayland front end:
//! the game's frame update and test picture, the input bookkeeping of the
//! platform layer, and the decisions the platform layer takes around the
//! compositor, the sound server and the input devices.
pub mod debug_platform;
pub mod grid;
pub mod game;
pub mod handle;
pub mod sys;
pub mod wl;
pub mod xdg;
pub mod pw;
pub mod libevdev;
pub mod platform;
