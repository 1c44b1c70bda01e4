//! Rendering state for a window-bound GPU surface: the decisions behind
//! start-up, resizing and the per-frame draw pass.

pub mod app;
pub mod context;
pub mod error;
pub mod format;
pub mod frame;
pub mod pipeline;
pub mod size;
pub mod startup;
pub mod state;
pub mod surface;
pub mod vertex;
