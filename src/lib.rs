//! Screen magnifier overlay: the verified model of its geometry, settings,
//! per-monitor state, double-buffered overlay surfaces, render planning and
//! the session controller that reacts to compositor events.

pub mod config;
pub mod layer_surface;
pub mod magnifier;
pub mod monitor;
pub mod pointer;
pub mod pool_buffer;
pub mod renderer;
pub mod vector;
