//! Decision logic for bootstrapping a window and a low-level graphics
//! context for a small 2D shooter.
//!
//! The native windowing and graphics libraries are driven from an outer
//! binary; this crate holds the pure selection and configuration rules
//! (instance extensions, validation layers, physical-device suitability,
//! queue-family lookup, and swapchain configuration) over plain values,
//! each with a verified contract.

pub mod debug_messenger;
pub mod device;
pub mod instance;
pub mod model;
pub mod swapchain;
pub mod version;
