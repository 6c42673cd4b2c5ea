//! Verified decision core of a single-window widget-gallery application.
//!
//! The library models the application's state and decisions: the GPU surface
//! configuration with its resize rules, adapter and pixel-format selection,
//! the recovery policy for failed frame acquisitions, the per-frame render
//! plan with its texture-upload ordering, the widget gallery's display
//! state, and the window-event lifecycle. A thin unverified shell performs
//! the actual windowing and GPU calls and feeds their results back in as
//! plain values.

pub mod gallery;
pub mod gpu;
pub mod host;
pub mod render;
