//! A verified safety layer over an explicit graphics API: the recording
//! state machine of command buffers and the lifecycle of graphics pipelines.

pub mod command_buffer;
pub mod handle;
pub mod memory;
pub mod pipeline;
pub mod shader_stage;
pub mod state;
