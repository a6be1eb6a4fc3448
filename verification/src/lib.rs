//! Verified decision logic of the wlrip game assistant: surface and weapon
//! tables for the wall-penetration estimate, the shot log kept for the HUD,
//! the triggerbot's shot scheduling, the game loop's status transitions and
//! the lag instrumentation counters.

pub mod cs2;
pub mod game;
pub mod gates;
pub mod lagdbg;
pub mod overlay;
pub mod penetration;
pub mod shot_log;
mod text;
pub mod triggerbot;
