//! Verified core of the Firmium music client: the terminal client's state
//! machine and keymap, and the pure rules behind the desktop client's
//! navigation, caches, formatting and visualizer settings.

pub mod text;
pub mod seq_facts;
pub mod keymap;
pub mod termium;
pub mod desktop;
pub mod format;
pub mod viz_modes;
pub mod rng;
pub mod color;
pub mod library;
pub mod settings;
pub mod sorted_ids;
pub mod toasts;
pub mod playback;
pub mod forms;
pub mod playlist_sync;
pub mod covers;
pub mod session;
pub mod cli;
pub mod startup;
pub mod screens;
