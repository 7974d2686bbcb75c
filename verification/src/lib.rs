//! The frame loop of a windowed GPU application, with its decisions proved.
//!
//! The crate holds no window and no device. It keeps the presentation
//! configuration in step with the window, describes the one pipeline and the
//! one render pass that are used, and decides, event by event, what the
//! program around it must do next: configure the surface, acquire a frame,
//! draw and present, skip the frame, or stop.

pub mod frame_loop;
pub mod history;
pub mod pass;
pub mod pipeline;
pub mod renderer;
pub mod startup;
pub mod surface;

pub use renderer::Renderer;
