//! The vertex buffer: one driver allocation that holds vertex positions.

use vstd::prelude::*;
use crate::command::{views, Command, CommandView, FloatBits, Handle, Reply, ReplyView};
use crate::error::{RenderError, RenderErrorView, Resource};
use crate::gl::{ARRAY_BUFFER, STATIC_DRAW};

verus! {

/// Attribute slot that the positions feed.
pub const POSITION_ATTRIBUTE: u32 = 0;

/// Floats per vertex: x, y, z.
pub const COMPONENTS_PER_VERTEX: i32 = 3;

/// Bytes between consecutive vertices; zero means tightly packed.
pub const STRIDE: i32 = 0;

/// Byte offset of the first vertex.
pub const OFFSET: i32 = 0;

/// A buffer object the driver has allocated.
#[derive(Clone, Copy, Debug, PartialEq, Eq, Structural)]
pub struct VertexBuffer {
    pub handle: Handle,
}

impl VertexBuffer {
    /// The batch that asks the driver for a buffer object.
    pub open spec fn allocation() -> Seq<CommandView> {
        seq![CommandView::CreateBuffer]
    }

    /// The buffer that a reply to [`VertexBuffer::allocate`] stands for: the
    /// object it names, or an allocation error where it names none.
    pub open spec fn outcome(reply: ReplyView) -> Result<VertexBuffer, RenderErrorView> {
        match reply {
            ReplyView::Object(handle) => Ok(VertexBuffer { handle }),
            _ => Err(RenderErrorView::Allocation(Resource::Buffer)),
        }
    }

    /// The batch that replaces the whole contents of the buffer: bind it
    /// as the array buffer, then store `data` with the static-draw hint.
    pub open spec fn upload_commands(self, data: Seq<FloatBits>) -> Seq<CommandView> {
        seq![
            CommandView::BindBuffer { target: ARRAY_BUFFER, buffer: self.handle },
            CommandView::BufferData { target: ARRAY_BUFFER, data, usage: STATIC_DRAW },
        ]
    }

    /// Asks the driver for a buffer object.
    pub fn allocate() -> (commands: Vec<Command>)
        ensures
            views(commands@) == VertexBuffer::allocation(),
    {
        let commands = vec![Command::CreateBuffer];
        assert(views(commands@) =~= VertexBuffer::allocation());
        commands
    }

    /// Reads the driver's reply to [`VertexBuffer::allocate`].
    pub fn allocated(reply: Reply) -> (result: Result<VertexBuffer, RenderError>)
        ensures
            match VertexBuffer::outcome(reply@) {
                Ok(buffer) => result == Ok::<VertexBuffer, RenderError>(buffer),
                Err(error) => result is Err && result->Err_0@ == error,
            },
    {
        match reply {
            Reply::Object(handle) => Ok(VertexBuffer { handle }),
            _ => Err(RenderError::Allocation(Resource::Buffer)),
        }
    }

    /// Replaces the contents of the buffer with `data`. Always succeeds:
    /// the driver reports nothing back for an upload.
    pub fn upload(&self, data: Vec<FloatBits>) -> (result: Result<Vec<Command>, RenderError>)
        ensures
            result is Ok,
            views(result->Ok_0@) == self.upload_commands(data@),
    {
        let ghost floats = data@;
        let commands = vec![
            Command::BindBuffer { target: ARRAY_BUFFER, buffer: self.handle },
            Command::BufferData { target: ARRAY_BUFFER, data, usage: STATIC_DRAW },
        ];
        assert(views(commands@) =~= self.upload_commands(floats));
        Ok(commands)
    }
}

} // verus!
