//! A reading of the commands: what each driver call does to the state of
//! the driver, as far as the renderer relies on it. Nothing here runs; the
//! laws are stated against it.

use vstd::prelude::*;
use crate::buffer::POSITION_ATTRIBUTE;
use crate::command::{CommandView, FloatBits, Handle, ReplyView};
use crate::gl::{ARRAY_BUFFER, COLOR_BUFFER_BIT, FLOAT};

verus! {

/// A driver object, by kind and name.
pub enum Object {
    Shader(Handle),
    Program(Handle),
    Buffer(Handle),
}

/// A color, channel by channel.
pub struct Color {
    pub red: FloatBits,
    pub green: FloatBits,
    pub blue: FloatBits,
    pub alpha: FloatBits,
}

/// What the color buffer shows.
pub enum ColorBuffer {
    /// One color all over, left by the last clear.
    Filled(Color),
    /// Anything else: never cleared, or drawn on since.
    Painted,
}

/// The rectangle that drawing is mapped to.
pub struct Viewport {
    pub x: i32,
    pub y: i32,
    pub width: u32,
    pub height: u32,
}

/// How an attribute reads its buffer, with the buffer that was bound as
/// the array buffer when the layout was described.
pub struct Layout {
    pub buffer: Option<Handle>,
    pub size: i32,
    pub kind: u32,
    pub normalized: bool,
    pub stride: i32,
    pub offset: i32,
}

/// One draw call as the driver saw it.
pub struct Draw {
    /// The program in use.
    pub program: Option<Handle>,
    pub mode: u32,
    pub first: i32,
    pub count: i32,
    /// The floats that fed the position attribute, vertex after vertex;
    /// `None` where the call reads outside what the renderer set up, so
    /// that what is drawn is up to the driver.
    pub positions: Option<Seq<FloatBits>>,
}

/// The state of the driver.
pub struct Driver {
    /// The shaders, programs and buffers created and not yet deleted.
    pub objects: Set<Object>,
    /// The viewport, once one has been set.
    pub viewport: Option<Viewport>,
    pub clear_color: Color,
    pub color_buffer: ColorBuffer,
    /// The program in use.
    pub program: Option<Handle>,
    /// The buffer bound as the array buffer.
    pub array_buffer: Option<Handle>,
    /// The contents of every buffer that has been given some.
    pub stores: Map<Handle, Seq<FloatBits>>,
    /// The attributes that read from a buffer.
    pub enabled: Set<u32>,
    /// The layout of every attribute that has been given one.
    pub layouts: Map<u32, Layout>,
    /// Every draw call so far, oldest first.
    pub draws: Seq<Draw>,
}

impl Driver {
    /// The floats that a draw of `count` vertices from vertex `first` feeds
    /// to the position attribute: a run of the buffer the attribute was
    /// pointed at, where that attribute is enabled, reads tightly packed
    /// floats from the start of the buffer, and the run lies inside the
    /// buffer's contents.
    pub open spec fn positions(self, first: i32, count: i32) -> Option<Seq<FloatBits>> {
        if self.enabled.contains(POSITION_ATTRIBUTE) && self.layouts.dom().contains(
            POSITION_ATTRIBUTE,
        ) {
            let layout = self.layouts[POSITION_ATTRIBUTE];
            match layout.buffer {
                Some(buffer) => if self.stores.dom().contains(buffer) && layout.kind == FLOAT
                    && layout.size >= 1 && layout.stride == 0 && layout.offset == 0 && first >= 0
                    && count >= 0 && (first + count) * layout.size <= self.stores[buffer].len() {
                    Some(
                        self.stores[buffer].subrange(
                            first * layout.size,
                            (first + count) * layout.size,
                        ),
                    )
                } else {
                    None
                },
                None => None,
            }
        } else {
            None
        }
    }

    /// The driver after one call that returned `reply`.
    pub open spec fn call(self, command: CommandView, reply: ReplyView) -> Driver {
        match command {
            CommandView::CreateShader { kind } => match reply {
                ReplyView::Object(handle) => Driver {
                    objects: self.objects.insert(Object::Shader(handle)),
                    ..self
                },
                _ => self,
            },
            CommandView::CreateProgram => match reply {
                ReplyView::Object(handle) => Driver {
                    objects: self.objects.insert(Object::Program(handle)),
                    ..self
                },
                _ => self,
            },
            CommandView::CreateBuffer => match reply {
                ReplyView::Object(handle) => Driver {
                    objects: self.objects.insert(Object::Buffer(handle)),
                    ..self
                },
                _ => self,
            },
            CommandView::DeleteShader { shader } => Driver {
                objects: self.objects.remove(Object::Shader(shader)),
                ..self
            },
            CommandView::DeleteProgram { program } => Driver {
                objects: self.objects.remove(Object::Program(program)),
                ..self
            },
            CommandView::Viewport { x, y, width, height } => Driver {
                viewport: Some(Viewport { x, y, width, height }),
                ..self
            },
            CommandView::ClearColor { red, green, blue, alpha } => Driver {
                clear_color: Color { red, green, blue, alpha },
                ..self
            },
            CommandView::Clear { mask } => if mask & COLOR_BUFFER_BIT != 0 {
                Driver { color_buffer: ColorBuffer::Filled(self.clear_color), ..self }
            } else {
                self
            },
            CommandView::UseProgram { program } => Driver { program: Some(program), ..self },
            CommandView::EnableVertexAttribArray { index } => Driver {
                enabled: self.enabled.insert(index),
                ..self
            },
            CommandView::BindBuffer { target, buffer } => if target == ARRAY_BUFFER {
                Driver { array_buffer: Some(buffer), ..self }
            } else {
                self
            },
            CommandView::BufferData { target, data, usage } => match self.array_buffer {
                Some(buffer) => if target == ARRAY_BUFFER {
                    Driver { stores: self.stores.insert(buffer, data), ..self }
                } else {
                    self
                },
                None => self,
            },
            CommandView::VertexAttribPointer {
                index,
                size,
                kind,
                normalized,
                stride,
                offset,
            } => Driver {
                layouts: self.layouts.insert(
                    index,
                    Layout { buffer: self.array_buffer, size, kind, normalized, stride, offset },
                ),
                ..self
            },
            CommandView::DrawArrays { mode, first, count } => Driver {
                color_buffer: ColorBuffer::Painted,
                draws: self.draws.push(
                    Draw {
                        program: self.program,
                        mode,
                        first,
                        count,
                        positions: self.positions(first, count),
                    },
                ),
                ..self
            },
            _ => self,
        }
    }

    /// The driver after the calls of `batch` from index `from` on, where
    /// the last call returned `reply` and the others nothing.
    pub open spec fn perform_from(
        self,
        batch: Seq<CommandView>,
        reply: ReplyView,
        from: int,
    ) -> Driver
        decreases batch.len() - from,
    {
        if from < 0 || from >= batch.len() {
            self
        } else {
            let returned = if from == batch.len() - 1 {
                reply
            } else {
                ReplyView::Nothing
            };
            self.call(batch[from], returned).perform_from(batch, reply, from + 1)
        }
    }

    /// The driver after a batch whose last call returned `reply`.
    pub open spec fn perform(self, batch: Seq<CommandView>, reply: ReplyView) -> Driver {
        self.perform_from(batch, reply, 0)
    }

    /// The driver after a batch whose calls return nothing.
    pub open spec fn issue(self, batch: Seq<CommandView>) -> Driver {
        self.perform(batch, ReplyView::Nothing)
    }
}

} // verus!
