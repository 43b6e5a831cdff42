//! The decisions of a small swapchain renderer, verified: which physical
//! device and queue family to use, how the swapchain is configured and when
//! what hangs on it is rebuilt, and the per-frame presentation protocol with
//! its fence slots. The GPU work itself is done by the caller.

pub mod commands;
pub mod context;
pub mod device;
pub mod frame;
pub mod swapchain;
