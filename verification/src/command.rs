//! The vocabulary between the renderer and its host.
//!
//! The renderer never touches the driver. It decides which driver calls are
//! due and hands them out as [`Command`] values; the host performs them on
//! the rendering context, in order, and answers with a [`Reply`] that says
//! what the last call of the batch returned.

use vstd::prelude::*;

verus! {

/// Name under which the host keeps a driver object (context, shader,
/// program or buffer). The renderer only stores names and passes them back.
pub type Handle = u32;

/// Bit pattern of an IEEE-754 single. Vertex coordinates and color
/// channels travel through the renderer in this form, untouched.
pub type FloatBits = u32;

/// Bit pattern of the single `0.0`.
pub const ZERO: FloatBits = 0x0000_0000;

/// Bit pattern of the single `1.0`.
pub const ONE: FloatBits = 0x3F80_0000;

/// One driver call, with every argument the host has to pass.
#[derive(Debug, PartialEq, Eq)]
pub enum Command {
    /// Ask the canvas for a rendering context of the given kind.
    GetContext { context_id: String },
    /// `createShader(kind)`
    CreateShader { kind: u32 },
    /// `shaderSource(shader, source)`
    ShaderSource { shader: Handle, source: String },
    /// `compileShader(shader)`
    CompileShader { shader: Handle },
    /// `getShaderParameter(shader, pname)`
    GetShaderParameter { shader: Handle, pname: u32 },
    /// `getShaderInfoLog(shader)`
    GetShaderInfoLog { shader: Handle },
    /// `deleteShader(shader)`
    DeleteShader { shader: Handle },
    /// `createProgram()`
    CreateProgram,
    /// `attachShader(program, shader)`
    AttachShader { program: Handle, shader: Handle },
    /// `linkProgram(program)`
    LinkProgram { program: Handle },
    /// `getProgramParameter(program, pname)`
    GetProgramParameter { program: Handle, pname: u32 },
    /// `getProgramInfoLog(program)`
    GetProgramInfoLog { program: Handle },
    /// `deleteProgram(program)`
    DeleteProgram { program: Handle },
    /// `createBuffer()`
    CreateBuffer,
    /// `viewport(x, y, width, height)`
    Viewport { x: i32, y: i32, width: u32, height: u32 },
    /// `clearColor(red, green, blue, alpha)`
    ClearColor { red: FloatBits, green: FloatBits, blue: FloatBits, alpha: FloatBits },
    /// `clear(mask)`
    Clear { mask: u32 },
    /// `useProgram(program)`
    UseProgram { program: Handle },
    /// `enableVertexAttribArray(index)`
    EnableVertexAttribArray { index: u32 },
    /// `bindBuffer(target, buffer)`
    BindBuffer { target: u32, buffer: Handle },
    /// `bufferData(target, data, usage)`
    BufferData { target: u32, data: Vec<FloatBits>, usage: u32 },
    /// `vertexAttribPointer(index, size, kind, normalized, stride, offset)`
    VertexAttribPointer {
        index: u32,
        size: i32,
        kind: u32,
        normalized: bool,
        stride: i32,
        offset: i32,
    },
    /// `drawArrays(mode, first, count)`
    DrawArrays { mode: u32, first: i32, count: i32 },
}

/// Mathematical value of a [`Command`].
pub enum CommandView {
    GetContext { context_id: Seq<char> },
    CreateShader { kind: u32 },
    ShaderSource { shader: Handle, source: Seq<char> },
    CompileShader { shader: Handle },
    GetShaderParameter { shader: Handle, pname: u32 },
    GetShaderInfoLog { shader: Handle },
    DeleteShader { shader: Handle },
    CreateProgram,
    AttachShader { program: Handle, shader: Handle },
    LinkProgram { program: Handle },
    GetProgramParameter { program: Handle, pname: u32 },
    GetProgramInfoLog { program: Handle },
    DeleteProgram { program: Handle },
    CreateBuffer,
    Viewport { x: i32, y: i32, width: u32, height: u32 },
    ClearColor { red: FloatBits, green: FloatBits, blue: FloatBits, alpha: FloatBits },
    Clear { mask: u32 },
    UseProgram { program: Handle },
    EnableVertexAttribArray { index: u32 },
    BindBuffer { target: u32, buffer: Handle },
    BufferData { target: u32, data: Seq<FloatBits>, usage: u32 },
    VertexAttribPointer {
        index: u32,
        size: i32,
        kind: u32,
        normalized: bool,
        stride: i32,
        offset: i32,
    },
    DrawArrays { mode: u32, first: i32, count: i32 },
}

impl View for Command {
    type V = CommandView;

    open spec fn view(&self) -> CommandView {
        match *self {
            Command::GetContext { context_id } => CommandView::GetContext {
                context_id: context_id@,
            },
            Command::CreateShader { kind } => CommandView::CreateShader { kind },
            Command::ShaderSource { shader, source } => CommandView::ShaderSource {
                shader,
                source: source@,
            },
            Command::CompileShader { shader } => CommandView::CompileShader { shader },
            Command::GetShaderParameter { shader, pname } => CommandView::GetShaderParameter {
                shader,
                pname,
            },
            Command::GetShaderInfoLog { shader } => CommandView::GetShaderInfoLog { shader },
            Command::DeleteShader { shader } => CommandView::DeleteShader { shader },
            Command::CreateProgram => CommandView::CreateProgram,
            Command::AttachShader { program, shader } => CommandView::AttachShader {
                program,
                shader,
            },
            Command::LinkProgram { program } => CommandView::LinkProgram { program },
            Command::GetProgramParameter { program, pname } => CommandView::GetProgramParameter {
                program,
                pname,
            },
            Command::GetProgramInfoLog { program } => CommandView::GetProgramInfoLog { program },
            Command::DeleteProgram { program } => CommandView::DeleteProgram { program },
            Command::CreateBuffer => CommandView::CreateBuffer,
            Command::Viewport { x, y, width, height } => CommandView::Viewport {
                x,
                y,
                width,
                height,
            },
            Command::ClearColor { red, green, blue, alpha } => CommandView::ClearColor {
                red,
                green,
                blue,
                alpha,
            },
            Command::Clear { mask } => CommandView::Clear { mask },
            Command::UseProgram { program } => CommandView::UseProgram { program },
            Command::EnableVertexAttribArray { index } => CommandView::EnableVertexAttribArray {
                index,
            },
            Command::BindBuffer { target, buffer } => CommandView::BindBuffer { target, buffer },
            Command::BufferData { target, data, usage } => CommandView::BufferData {
                target,
                data: data@,
                usage,
            },
            Command::VertexAttribPointer {
                index,
                size,
                kind,
                normalized,
                stride,
                offset,
            } => CommandView::VertexAttribPointer { index, size, kind, normalized, stride, offset },
            Command::DrawArrays { mode, first, count } => CommandView::DrawArrays {
                mode,
                first,
                count,
            },
        }
    }
}

/// The commands of a batch, by their mathematical values.
pub open spec fn views(commands: Seq<Command>) -> Seq<CommandView> {
    commands.map_values(|c: Command| c@)
}

/// What the driver returned for the last call of a batch, as far as the
/// renderer reads it.
#[derive(Debug, PartialEq, Eq)]
pub enum Reply {
    /// Nothing usable: the call returns no value, returned null, or raised.
    Nothing,
    /// An object, which the host now keeps under this name.
    Object(Handle),
    /// A boolean.
    Flag(bool),
    /// A text.
    Text(String),
}

/// Mathematical value of a [`Reply`].
pub enum ReplyView {
    Nothing,
    Object(Handle),
    Flag(bool),
    Text(Seq<char>),
}

impl View for Reply {
    type V = ReplyView;

    open spec fn view(&self) -> ReplyView {
        match *self {
            Reply::Nothing => ReplyView::Nothing,
            Reply::Object(handle) => ReplyView::Object(handle),
            Reply::Flag(flag) => ReplyView::Flag(flag),
            Reply::Text(text) => ReplyView::Text(text@),
        }
    }
}

} // verus!
