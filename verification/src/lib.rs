//! Core of a two-pass, ping-pong renderer.
//!
//! Each frame runs two dependent draw passes: pass 0 reads off-screen
//! target 0 and writes off-screen target 1; pass 1 reads target 1 and
//! writes the presentable surface texture. This crate holds the verified
//! core: the surface configuration and its clamping rules, the pool of
//! two render targets and its rebuild-on-resize policy, the packed
//! uniform record written before each pass, and the ordered command
//! stream of one frame. The host that owns the window, the GPU device
//! and the queue executes that command stream.

pub mod command;
pub mod laws;
pub mod renderer;
pub mod uniform;

pub use command::Command;
pub use command::FrameError;
pub use command::PassDestination;
pub use renderer::Renderer;
pub use renderer::RenderTarget;
pub use renderer::SurfaceConfig;
pub use uniform::UniformRecord;
