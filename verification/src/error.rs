//! Why a renderer could not be built.

use vstd::prelude::*;

verus! {

/// Diagnostic used when the driver has no log for a failed compilation.
pub const UNKNOWN_COMPILE_ERROR: &'static str = "Unknown error creating shader";

/// Diagnostic used when the driver has no log for a failed link.
pub const UNKNOWN_LINK_ERROR: &'static str = "Unknown error creating program object";

/// Message for a canvas that hands out no WebGL2 context.
pub const CONTEXT_UNAVAILABLE: &'static str = "Unable to acquire a WebGL2 rendering context";

/// Message for a driver that hands out no shader object.
pub const SHADER_UNAVAILABLE: &'static str = "Unable to create shader object";

/// Message for a driver that hands out no program object.
pub const PROGRAM_UNAVAILABLE: &'static str = "Unable to create shader program";

/// Message for a driver that hands out no buffer object.
pub const BUFFER_UNAVAILABLE: &'static str = "Unable to create buffer";

/// The kinds of driver object the renderer allocates.
#[derive(Clone, Copy, Debug, PartialEq, Eq, Structural)]
pub enum Resource {
    Shader,
    Program,
    Buffer,
}

/// A failed construction. None of these can occur once a renderer exists.
#[derive(Debug, PartialEq, Eq)]
pub enum RenderError {
    /// The surface produced no compatible rendering context.
    ContextUnavailable,
    /// The driver refused to allocate an object of the given kind.
    Allocation(Resource),
    /// A shader did not compile; carries the diagnostic.
    Compile(String),
    /// The program did not link; carries the diagnostic.
    Link(String),
}

/// Mathematical value of a [`RenderError`].
pub enum RenderErrorView {
    ContextUnavailable,
    Allocation(Resource),
    Compile(Seq<char>),
    Link(Seq<char>),
}

impl RenderErrorView {
    /// The text shown to the host for this error.
    pub open spec fn message(self) -> Seq<char> {
        match self {
            RenderErrorView::ContextUnavailable => CONTEXT_UNAVAILABLE@,
            RenderErrorView::Allocation(Resource::Shader) => SHADER_UNAVAILABLE@,
            RenderErrorView::Allocation(Resource::Program) => PROGRAM_UNAVAILABLE@,
            RenderErrorView::Allocation(Resource::Buffer) => BUFFER_UNAVAILABLE@,
            RenderErrorView::Compile(log) => log,
            RenderErrorView::Link(log) => log,
        }
    }
}

impl View for RenderError {
    type V = RenderErrorView;

    open spec fn view(&self) -> RenderErrorView {
        match *self {
            RenderError::ContextUnavailable => RenderErrorView::ContextUnavailable,
            RenderError::Allocation(resource) => RenderErrorView::Allocation(resource),
            RenderError::Compile(log) => RenderErrorView::Compile(log@),
            RenderError::Link(log) => RenderErrorView::Link(log@),
        }
    }
}

/// Both fallback diagnostics say something.
pub proof fn lemma_fallback_diagnostics_are_not_empty()
    ensures
        UNKNOWN_COMPILE_ERROR@.len() > 0,
        UNKNOWN_LINK_ERROR@.len() > 0,
{
    reveal_strlit("Unknown error creating shader");
    reveal_strlit("Unknown error creating program object");
}

impl RenderError {
    /// The text shown to the host: a fixed sentence for a missing context
    /// or object, the diagnostic itself for a failed compilation or link.
    pub fn message(&self) -> (text: String)
        ensures
            text@ == self@.message(),
    {
        match self {
            RenderError::ContextUnavailable => CONTEXT_UNAVAILABLE.to_owned(),
            RenderError::Allocation(Resource::Shader) => SHADER_UNAVAILABLE.to_owned(),
            RenderError::Allocation(Resource::Program) => PROGRAM_UNAVAILABLE.to_owned(),
            RenderError::Allocation(Resource::Buffer) => BUFFER_UNAVAILABLE.to_owned(),
            RenderError::Compile(log) => log.clone(),
            RenderError::Link(log) => log.clone(),
        }
    }
}

} // verus!
