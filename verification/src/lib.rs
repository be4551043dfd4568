//! The decisions of panes, a keyboard- and menu-driven window manager for
//! macOS and Windows: its commands and their ids, the command line, the
//! configuration's hotkey and command sections, default hotkeys and menus,
//! queued hotkey presses, per-window history, launch at login, failure
//! reporting and what the tray shows, each with its contract.

pub mod accessibility;
pub mod cli;
pub mod command;
pub mod config;
pub mod failure;
pub mod geometry;
pub mod history;
pub mod hotkeys;
pub mod login;
pub mod navigation;
pub mod pending;
pub mod platform;
pub mod text;
pub mod tray;
