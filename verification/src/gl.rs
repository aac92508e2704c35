//! The WebGL2 enumerants the renderer hands to the driver.

use vstd::prelude::*;

verus! {

/// Bit of the clear mask that selects the color buffer.
pub const COLOR_BUFFER_BIT: u32 = 0x4000;

/// Primitive mode: every three vertices form one independent triangle.
pub const TRIANGLES: u32 = 0x0004;

/// Binding point for vertex attribute data.
pub const ARRAY_BUFFER: u32 = 0x8892;

/// Usage hint: contents are written once and drawn many times.
pub const STATIC_DRAW: u32 = 0x88E4;

/// Component type: 32-bit IEEE-754 float.
pub const FLOAT: u32 = 0x1406;

/// Shader kind of the fragment stage.
pub const FRAGMENT_SHADER: u32 = 0x8B30;

/// Shader kind of the vertex stage.
pub const VERTEX_SHADER: u32 = 0x8B31;

/// Program parameter that holds the outcome of the last link.
pub const LINK_STATUS: u32 = 0x8B82;

/// Shader parameter that holds the outcome of the last compilation.
pub const COMPILE_STATUS: u32 = 0x8B81;

/// Identifier under which a canvas hands out a WebGL2 context.
pub const CONTEXT_ID: &'static str = "webgl2";

/// A dimension as a signed parameter of the driver holds it: the
/// dimension itself up to `i32::MAX`, beyond that the largest size there
/// is. Never negative.
pub open spec fn signed_size_of(dimension: u32) -> i32 {
    if dimension <= i32::MAX {
        dimension as i32
    } else {
        i32::MAX
    }
}

/// Narrows a dimension for a driver call that takes signed sizes.
pub fn signed_size(dimension: u32) -> (size: i32)
    ensures
        size == signed_size_of(dimension),
{
    if dimension <= 0x7FFF_FFFF {
        dimension as i32
    } else {
        i32::MAX
    }
}

/// The two programmable stages of the pipeline.
#[derive(Clone, Copy, Debug, PartialEq, Eq, Structural)]
pub enum ShaderStage {
    Vertex,
    Fragment,
}

impl ShaderStage {
    /// The shader kind the driver knows this stage by.
    pub open spec fn kind(self) -> u32 {
        match self {
            ShaderStage::Vertex => VERTEX_SHADER,
            ShaderStage::Fragment => FRAGMENT_SHADER,
        }
    }

    /// The shader kind the driver knows this stage by.
    pub fn gl_kind(self) -> (kind: u32)
        ensures
            kind == self.kind(),
    {
        match self {
            ShaderStage::Vertex => VERTEX_SHADER,
            ShaderStage::Fragment => FRAGMENT_SHADER,
        }
    }
}

} // verus!
