//! Core logic of a non-destructive photo editor: backend policy, preview
//! scheduling, batch-render planning and lossless pixel geometry.

pub mod text;
pub mod backend;
pub mod raster;
pub mod preview_cache;
pub mod viewer;
pub mod decimal;
pub mod paths;
pub mod render;
pub mod gpu_pipeline;
pub mod gpu_spike;
pub mod thumbnail;
pub mod state;
pub mod metadata;
pub mod status;
pub mod readback;
