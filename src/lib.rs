//! Wallpaper acquisition engine: provider clients, option resolution, the
//! acquisition pipeline, terminal capability detection, preview synthesis and
//! the interactive picker's command construction.

pub mod error;
pub mod text;
pub mod paths;
pub mod config;
pub mod source;
pub mod pipeline;
pub mod terminal;
pub mod picker;
pub mod schedule;
pub mod gowall;
pub mod upgrade;
