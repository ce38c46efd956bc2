//! A movie-folder viewer: the user picks a folder, its immediate
//! subdirectories become movie entries, and the entries are shown as a
//! tiled grid.
//!
//! The library holds everything the screen decides and computes: the
//! state machine stepping on messages, the loader building movie records
//! from a filesystem scan, and the renderer wrapping the movies into rows
//! of four tiles. The surrounding application performs the effects the
//! state machine asks for: the native folder dialog, the directory
//! scan, the window requests; and draws the rendered tree.

pub mod config;
pub mod movies;
pub mod state;
pub mod theme;
pub mod view;
