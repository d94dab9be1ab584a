//! Native objects made by sibling subsystems, identified by their raw handles.
//! The core reads their handles and keeps them alive through shared ownership.
use vstd::prelude::*;

verus! {

/// A logical device.
#[derive(Clone, Copy, Debug, PartialEq, Eq, Structural)]
pub struct Device {
    pub raw: u64,
}

/// A compiled shader module.
#[derive(Clone, Copy, Debug, PartialEq, Eq, Structural)]
pub struct ShaderModule {
    pub raw: u64,
}

/// A render pass.
#[derive(Clone, Copy, Debug, PartialEq, Eq, Structural)]
pub struct RenderPass {
    pub raw: u64,
}

/// A descriptor-set layout.
#[derive(Clone, Copy, Debug, PartialEq, Eq, Structural)]
pub struct DescriptorSetLayout {
    pub raw: u64,
}

/// A descriptor set.
#[derive(Clone, Copy, Debug, PartialEq, Eq, Structural)]
pub struct DescriptorSet {
    pub raw: u64,
}

/// A framebuffer.
#[derive(Clone, Copy, Debug, PartialEq, Eq, Structural)]
pub struct Framebuffer {
    pub raw: u64,
}

/// A buffer.
#[derive(Clone, Copy, Debug, PartialEq, Eq, Structural)]
pub struct Buffer {
    pub raw: u64,
}

/// The status code of a failed native call.
#[derive(Clone, Copy, Debug, PartialEq, Eq, Structural)]
pub struct DriverError {
    pub code: i32,
}

} // verus!
