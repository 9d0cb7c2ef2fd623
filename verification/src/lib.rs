//! Decision logic of the Vector terminal's app shell: toasts, pickers,
//! search, reconnect bookkeeping, frame pacing and the copy shown to users.
//! The AppKit / winit / wgpu plumbing that drives these lives in `app/`.

use vstd::prelude::*;

pub mod text;
pub mod tint;
pub mod relative_time;
pub mod toast;
pub mod devtunnels_actor;
pub mod devtunnels_modal;
pub mod codespaces_modal;
pub mod frame_tick;
pub mod ske;
pub mod config;
pub mod menu;
pub mod profile_picker;
pub mod search_bar;
pub mod clipboard_router;
pub mod hyperlink_dispatch;
pub mod ime;
pub mod pty_actor;
pub mod mux_commands;
pub mod tab_window;
pub mod app;
pub mod auth_actor;
pub mod auth_modal;
pub mod github_auth_modal;

verus! {

/// Default config written to `~/.config/vector/config.toml` on first launch;
/// it ships the Cmd-Shift-R reload-config keybind.
pub const DEFAULT_CONFIG_TOML: &'static str = "[default]\ntheme = \"vector-dark\"\n\n# Cmd-Shift-R fallback for missed config-file change events.\n[[keybind]]\nkey = \"cmd-shift-r\"\naction = \"reload-config\"\n";

} // verus!
