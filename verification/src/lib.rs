//! Render core for a single-window, single-triangle GPU demo.
//!
//! The host window adapter forwards every paint notification, with the
//! window's current client-area size, to the render core. The core
//! decides what the notification demands — construct the render context
//! (first notification only), reconfigure the presentation surface (the
//! size changed), or nothing beyond a redraw — and the host carries the
//! decision out against the GPU backend. The fixed drawing commands and
//! the staged context construction are described as plain data, so that
//! every decision the demo makes is verified here, while the backend
//! calls themselves stay with the host.

pub mod config;
pub mod init;
pub mod plan;
pub mod render;
pub mod size;
pub mod target;
