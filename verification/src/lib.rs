//! A rendering backend for an immediate-mode GUI, as far as it can be
//! decided without touching the GPU.
//!
//! The GUI engine hands over the draw data of a frame; [`renderer::Renderer`]
//! turns it into the exact sequence of graphics operations that draws it
//! ([`ops::GpuOp`]), or names the fault that forbids drawing it. Start-up is
//! planned the same way ([`init`]). Whoever owns the device carries the
//! operations out, and asks [`release`] what to give back when one fails.
//!
//! All coordinates are fixed-point numbers, so that every product, comparison
//! and rounding here is exact: see [`units`].

pub mod clip;
pub mod frame;
pub mod init;
pub mod ops;
pub mod plan;
pub mod projection;
pub mod registry;
pub mod release;
pub mod renderer;
pub mod state;
pub mod units;
