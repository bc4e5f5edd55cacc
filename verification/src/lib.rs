//! Verified core of an interactive image viewer: the parameter record that is
//! shared with the shaders, the render targets and their resolution, and the
//! order of the passes that turn a source bitmap into a displayed frame.

pub mod image_display;
pub mod scalar;
pub mod stages;
pub mod pipelines;
pub mod texture;
pub mod input;
pub mod thread_context;
pub mod frame;
pub mod context;
