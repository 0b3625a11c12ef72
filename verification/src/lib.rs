//! An updater for NextUI, Pakman and itself.
//!
//! The library decides, and its surroundings do: an operation hands out one piece
//! of [`work::Work`] at a time, goes on with the [`work::Event`] that tells how it
//! ended, and keeps what is to be seen of it in the shared
//! [`app_state::AppState`]. What holds of every run of an operation, whatever the
//! surroundings answer, is stated in [`laws`].

pub mod app_state;
pub mod archive;
pub mod download;
pub mod files;
pub mod github;
pub mod input;
pub mod laws;
pub mod pakman;
pub mod screen;
pub mod text;
pub mod update;
pub mod version;
pub mod work;
