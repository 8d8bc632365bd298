//! Core of a tiling window manager for X11.
//!
//! The crate holds the decision-making half of the manager: the master–stack
//! tiling engine, the per-workspace window lists, the window float/fullscreen
//! state machine, and the parsing of configuration values (commands, key
//! names, modifier masks, colours). Every mutation of the X server is
//! represented as an [`actions::XAction`] value; a thin unverified shell
//! around the crate performs those actions on a real display connection and
//! feeds server events back in as plain values.

pub mod actions;
pub mod appearance;
pub mod commands;
pub mod config;
pub mod geometry;
pub mod keybind;
pub mod layout;
pub mod text;
pub mod window;
pub mod wm;
pub mod workspace;
