//! Verified core of the HandyX voice dictation tool: configuration rules,
//! vocabulary corrections, history bookkeeping, GNOME shortcut registration,
//! tray and HUD presentation, and the daemon's command handling.

pub mod text;
pub mod vocabulary;
pub mod paths;
pub mod config;
pub mod shortcut;
pub mod hud;
pub mod daemon;
pub mod ipc;
pub mod autostart;
pub mod history;
pub mod tray;
pub mod media;
pub mod paste;
pub mod polish;
pub mod engines;
