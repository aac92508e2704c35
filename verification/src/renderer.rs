//! The renderer: built in turns with the driver, then a source of
//! command batches for resizing, clearing, uploading and drawing.

use vstd::prelude::*;
use crate::buffer::{VertexBuffer, COMPONENTS_PER_VERTEX, OFFSET, POSITION_ATTRIBUTE, STRIDE};
use crate::command::{
    views, Command, CommandView, FloatBits, Handle, Reply, ReplyView, ONE, ZERO,
};
use crate::error::{RenderError, RenderErrorView};
use crate::gl::{
    ShaderStage, ARRAY_BUFFER, COLOR_BUFFER_BIT, CONTEXT_ID, FLOAT, TRIANGLES,
};
use crate::shaders::{
    compile_shader, link_program, LinkJob, ShaderJob, ShaderJobView, ShaderProgram, ShaderUnit,
    FRAGMENT_SHADER_SOURCE, VERTEX_SHADER_SOURCE,
};
use crate::step::{Step, StepView};

verus! {

/// A renderer that is ready to draw: it owns a rendering surface, the
/// linked program and the vertex buffer, and none of them ever changes.
#[derive(Debug, PartialEq, Eq)]
pub struct Renderer {
    surface: Handle,
    program: ShaderProgram,
    buffer: VertexBuffer,
}

/// Mathematical value of a [`Renderer`].
pub struct RendererView {
    pub surface: Handle,
    pub program: ShaderProgram,
    pub buffer: VertexBuffer,
}

impl View for Renderer {
    type V = RendererView;

    closed spec fn view(&self) -> RendererView {
        RendererView { surface: self.surface, program: self.program, buffer: self.buffer }
    }
}

/// A renderer under construction.
#[derive(Debug, PartialEq, Eq)]
pub enum Construction {
    /// The canvas has been asked for a context; the reply names it.
    AcquiringContext,
    /// The vertex stage is being compiled.
    CompilingVertex { surface: Handle, job: ShaderJob },
    /// The vertex stage is compiled, the fragment stage is on its way.
    CompilingFragment { surface: Handle, vertex: ShaderUnit, job: ShaderJob },
    /// Both stages are compiled and are being linked.
    Linking { surface: Handle, vertex: ShaderUnit, fragment: ShaderUnit, link: LinkJob },
    /// The program is linked; the driver has been asked for the buffer.
    AllocatingBuffer {
        surface: Handle,
        vertex: ShaderUnit,
        fragment: ShaderUnit,
        program: ShaderProgram,
    },
}

/// Mathematical value of a [`Construction`].
pub enum ConstructionView {
    AcquiringContext,
    CompilingVertex { surface: Handle, job: ShaderJobView },
    CompilingFragment { surface: Handle, vertex: ShaderUnit, job: ShaderJobView },
    Linking { surface: Handle, vertex: ShaderUnit, fragment: ShaderUnit, link: LinkJob },
    AllocatingBuffer {
        surface: Handle,
        vertex: ShaderUnit,
        fragment: ShaderUnit,
        program: ShaderProgram,
    },
}

impl View for Construction {
    type V = ConstructionView;

    open spec fn view(&self) -> ConstructionView {
        match *self {
            Construction::AcquiringContext => ConstructionView::AcquiringContext,
            Construction::CompilingVertex { surface, job } => ConstructionView::CompilingVertex {
                surface,
                job: job@,
            },
            Construction::CompilingFragment {
                surface,
                vertex,
                job,
            } => ConstructionView::CompilingFragment { surface, vertex, job: job@ },
            Construction::Linking { surface, vertex, fragment, link } => ConstructionView::Linking {
                surface,
                vertex,
                fragment,
                link,
            },
            Construction::AllocatingBuffer {
                surface,
                vertex,
                fragment,
                program,
            } => ConstructionView::AllocatingBuffer { surface, vertex, fragment, program },
        }
    }
}

impl ConstructionView {
    /// The first turn: ask the canvas for a WebGL2 context.
    pub open spec fn start() -> StepView<ConstructionView, RendererView> {
        StepView::Continue {
            state: ConstructionView::AcquiringContext,
            commands: seq![CommandView::GetContext { context_id: CONTEXT_ID@ }],
        }
    }

    /// What a turn of the vertex stage means for the construction: a
    /// finished unit starts the fragment stage on the built-in source.
    pub open spec fn after_vertex(
        surface: Handle,
        step: StepView<ShaderJobView, ShaderUnit>,
    ) -> StepView<ConstructionView, RendererView> {
        match step {
            StepView::Continue { state, commands } => StepView::Continue {
                state: ConstructionView::CompilingVertex { surface, job: state },
                commands,
            },
            StepView::Finished(vertex) => Self::after_fragment(
                surface,
                vertex,
                ShaderJobView::start(ShaderStage::Fragment, FRAGMENT_SHADER_SOURCE@),
            ),
            StepView::Failed { error, release } => StepView::Failed { error, release },
        }
    }

    /// What a turn of the fragment stage means for the construction: a
    /// finished unit starts the link; a failure also releases the vertex
    /// unit.
    pub open spec fn after_fragment(
        surface: Handle,
        vertex: ShaderUnit,
        step: StepView<ShaderJobView, ShaderUnit>,
    ) -> StepView<ConstructionView, RendererView> {
        match step {
            StepView::Continue { state, commands } => StepView::Continue {
                state: ConstructionView::CompilingFragment { surface, vertex, job: state },
                commands,
            },
            StepView::Finished(fragment) => Self::after_link(
                surface,
                vertex,
                fragment,
                LinkJob::start(vertex, fragment),
            ),
            StepView::Failed { error, release } => StepView::Failed {
                error,
                release: release.push(CommandView::DeleteShader { shader: vertex.handle }),
            },
        }
    }

    /// What a turn of the link means for the construction: a finished
    /// program leads to the buffer allocation; a failure also releases
    /// both units, the fragment unit first.
    pub open spec fn after_link(
        surface: Handle,
        vertex: ShaderUnit,
        fragment: ShaderUnit,
        step: StepView<LinkJob, ShaderProgram>,
    ) -> StepView<ConstructionView, RendererView> {
        match step {
            StepView::Continue { state, commands } => StepView::Continue {
                state: ConstructionView::Linking { surface, vertex, fragment, link: state },
                commands,
            },
            StepView::Finished(program) => StepView::Continue {
                state: ConstructionView::AllocatingBuffer { surface, vertex, fragment, program },
                commands: VertexBuffer::allocation(),
            },
            StepView::Failed { error, release } => StepView::Failed {
                error,
                release: release.push(CommandView::DeleteShader { shader: fragment.handle }).push(
                    CommandView::DeleteShader { shader: vertex.handle },
                ),
            },
        }
    }

    /// The turn that follows `reply`.
    ///
    /// - No context: the construction fails, with nothing to release.
    /// - A context: the vertex stage is compiled from the built-in source,
    ///   then the fragment stage, then both are linked, each job reading
    ///   the replies that arrive while it runs.
    /// - The reply to the buffer allocation ends the construction: with a
    ///   ready renderer where it names an object, otherwise with an
    ///   allocation error that releases the program and both units.
    pub open spec fn next(self, reply: ReplyView) -> StepView<ConstructionView, RendererView> {
        match self {
            ConstructionView::AcquiringContext => match reply {
                ReplyView::Object(surface) => Self::after_vertex(
                    surface,
                    ShaderJobView::start(ShaderStage::Vertex, VERTEX_SHADER_SOURCE@),
                ),
                _ => StepView::Failed {
                    error: RenderErrorView::ContextUnavailable,
                    release: seq![],
                },
            },
            ConstructionView::CompilingVertex { surface, job } => Self::after_vertex(
                surface,
                job.next(reply),
            ),
            ConstructionView::CompilingFragment { surface, vertex, job } => Self::after_fragment(
                surface,
                vertex,
                job.next(reply),
            ),
            ConstructionView::Linking { surface, vertex, fragment, link } => Self::after_link(
                surface,
                vertex,
                fragment,
                link.next(reply),
            ),
            ConstructionView::AllocatingBuffer {
                surface,
                vertex,
                fragment,
                program,
            } => match VertexBuffer::outcome(reply) {
                Ok(buffer) => StepView::Finished(RendererView { surface, program, buffer }),
                Err(error) => StepView::Failed {
                    error,
                    release: seq![
                        CommandView::DeleteProgram { program: program.handle },
                        CommandView::DeleteShader { shader: fragment.handle },
                        CommandView::DeleteShader { shader: vertex.handle },
                    ],
                },
            },
        }
    }
}

fn after_vertex(surface: Handle, step: Step<ShaderJob, ShaderUnit>) -> (next: Step<
    Construction,
    Renderer,
>)
    ensures
        next@ == ConstructionView::after_vertex(surface, step@),
{
    match step {
        Step::Continue { state, commands } => Step::Continue {
            state: Construction::CompilingVertex { surface, job: state },
            commands,
        },
        Step::Finished(vertex) => after_fragment(
            surface,
            vertex,
            compile_shader(ShaderStage::Fragment, FRAGMENT_SHADER_SOURCE),
        ),
        Step::Failed { error, release } => Step::Failed { error, release },
    }
}

fn after_fragment(surface: Handle, vertex: ShaderUnit, step: Step<ShaderJob, ShaderUnit>) -> (next:
    Step<Construction, Renderer>)
    ensures
        next@ == ConstructionView::after_fragment(surface, vertex, step@),
{
    match step {
        Step::Continue { state, commands } => Step::Continue {
            state: Construction::CompilingFragment { surface, vertex, job: state },
            commands,
        },
        Step::Finished(fragment) => after_link(
            surface,
            vertex,
            fragment,
            link_program(&vertex, &fragment),
        ),
        Step::Failed { error, release } => {
            let mut release = release;
            let ghost before = views(release@);
            release.push(Command::DeleteShader { shader: vertex.handle });
            assert(views(release@) =~= before.push(
                CommandView::DeleteShader { shader: vertex.handle },
            ));
            Step::Failed { error, release }
        },
    }
}

fn after_link(
    surface: Handle,
    vertex: ShaderUnit,
    fragment: ShaderUnit,
    step: Step<LinkJob, ShaderProgram>,
) -> (next: Step<Construction, Renderer>)
    ensures
        next@ == ConstructionView::after_link(surface, vertex, fragment, step@),
{
    match step {
        Step::Continue { state, commands } => Step::Continue {
            state: Construction::Linking { surface, vertex, fragment, link: state },
            commands,
        },
        Step::Finished(program) => Step::Continue {
            state: Construction::AllocatingBuffer { surface, vertex, fragment, program },
            commands: VertexBuffer::allocate(),
        },
        Step::Failed { error, release } => {
            let mut release = release;
            let ghost before = views(release@);
            release.push(Command::DeleteShader { shader: fragment.handle });
            release.push(Command::DeleteShader { shader: vertex.handle });
            assert(views(release@) =~= before.push(
                CommandView::DeleteShader { shader: fragment.handle },
            ).push(CommandView::DeleteShader { shader: vertex.handle }));
            Step::Failed { error, release }
        },
    }
}

impl Construction {
    /// Reads the driver's reply to the last batch and decides the next turn.
    pub fn advance(self, reply: Reply) -> (step: Step<Construction, Renderer>)
        ensures
            step@ == self@.next(reply@),
    {
        match self {
            Construction::AcquiringContext => match reply {
                Reply::Object(surface) => after_vertex(
                    surface,
                    compile_shader(ShaderStage::Vertex, VERTEX_SHADER_SOURCE),
                ),
                _ => {
                    let release: Vec<Command> = Vec::new();
                    assert(views(release@) =~= seq![]);
                    Step::Failed { error: RenderError::ContextUnavailable, release }
                },
            },
            Construction::CompilingVertex { surface, job } => after_vertex(
                surface,
                job.advance(reply),
            ),
            Construction::CompilingFragment { surface, vertex, job } => after_fragment(
                surface,
                vertex,
                job.advance(reply),
            ),
            Construction::Linking { surface, vertex, fragment, link } => after_link(
                surface,
                vertex,
                fragment,
                link.advance(reply),
            ),
            Construction::AllocatingBuffer {
                surface,
                vertex,
                fragment,
                program,
            } => match VertexBuffer::allocated(reply) {
                Ok(buffer) => Step::Finished(Renderer { surface, program, buffer }),
                Err(error) => {
                    let release = vec![
                        Command::DeleteProgram { program: program.handle },
                        Command::DeleteShader { shader: fragment.handle },
                        Command::DeleteShader { shader: vertex.handle },
                    ];
                    assert(views(release@) =~= seq![
                        CommandView::DeleteProgram { program: program.handle },
                        CommandView::DeleteShader { shader: fragment.handle },
                        CommandView::DeleteShader { shader: vertex.handle },
                    ]);
                    Step::Failed { error, release }
                },
            },
        }
    }
}

impl RendererView {
    /// The batch that sets the viewport to the whole drawable area: one
    /// viewport call, from the origin, with the two dimensions as given.
    pub open spec fn resize(self, width: u32, height: u32) -> Seq<CommandView> {
        seq![CommandView::Viewport { x: 0, y: 0, width, height }]
    }

    /// The batch that fills the color buffer, and no other buffer, with
    /// opaque black.
    pub open spec fn clear(self) -> Seq<CommandView> {
        seq![
            CommandView::ClearColor { red: ZERO, green: ZERO, blue: ZERO, alpha: ONE },
            CommandView::Clear { mask: COLOR_BUFFER_BIT },
        ]
    }

    /// The batch that replaces the contents of the vertex buffer.
    pub open spec fn set_vertices(self, vertices: Seq<FloatBits>) -> Seq<CommandView> {
        self.buffer.upload_commands(vertices)
    }

    /// The batch that draws one frame: clear to opaque black, bind the
    /// program, enable the position attribute, bind the vertex buffer,
    /// describe its layout (three tightly packed floats per vertex from
    /// the start of the buffer), and draw `vertex_count` vertices from
    /// vertex 0 as a triangle list.
    pub open spec fn render(self, vertex_count: i32) -> Seq<CommandView> {
        self.clear() + seq![
            CommandView::UseProgram { program: self.program.handle },
            CommandView::EnableVertexAttribArray { index: POSITION_ATTRIBUTE },
            CommandView::BindBuffer { target: ARRAY_BUFFER, buffer: self.buffer.handle },
            CommandView::VertexAttribPointer {
                index: POSITION_ATTRIBUTE,
                size: COMPONENTS_PER_VERTEX,
                kind: FLOAT,
                normalized: false,
                stride: STRIDE,
                offset: OFFSET,
            },
            CommandView::DrawArrays { mode: TRIANGLES, first: 0, count: vertex_count },
        ]
    }
}

impl Renderer {
    /// Starts the construction of a renderer on the host's canvas.
    pub fn new() -> (step: Step<Construction, Renderer>)
        ensures
            step@ == ConstructionView::start(),
    {
        let commands = vec![Command::GetContext { context_id: CONTEXT_ID.to_owned() }];
        assert(views(commands@) =~= seq![CommandView::GetContext { context_id: CONTEXT_ID@ }]);
        Step::Continue { state: Construction::AcquiringContext, commands }
    }

    /// Sets the viewport to `(0, 0, width, height)`. The host calls this
    /// whenever the drawable area changes size.
    pub fn resize(&self, width: u32, height: u32) -> (commands: Vec<Command>)
        ensures
            views(commands@) == self@.resize(width, height),
    {
        let commands = vec![Command::Viewport { x: 0, y: 0, width, height }];
        assert(views(commands@) =~= self@.resize(width, height));
        commands
    }

    /// Clears the color buffer to opaque black.
    pub fn clear(&self) -> (commands: Vec<Command>)
        ensures
            views(commands@) == self@.clear(),
    {
        let commands = vec![
            Command::ClearColor { red: ZERO, green: ZERO, blue: ZERO, alpha: ONE },
            Command::Clear { mask: COLOR_BUFFER_BIT },
        ];
        assert(views(commands@) =~= self@.clear());
        commands
    }

    /// Replaces the contents of the vertex buffer with `vertices`, a flat
    /// run of x, y, z triples. Always succeeds.
    pub fn set_vertices(&self, vertices: Vec<FloatBits>) -> (result: Result<
        Vec<Command>,
        RenderError,
    >)
        ensures
            result is Ok,
            views(result->Ok_0@) == self@.set_vertices(vertices@),
    {
        self.buffer.upload(vertices)
    }

    /// Draws `vertex_count` vertices of the vertex buffer as a triangle
    /// list. The count is passed on as given: it is not held against what
    /// the buffer contains.
    pub fn render(&self, vertex_count: i32) -> (commands: Vec<Command>)
        ensures
            views(commands@) == self@.render(vertex_count),
    {
        let commands = vec![
            Command::ClearColor { red: ZERO, green: ZERO, blue: ZERO, alpha: ONE },
            Command::Clear { mask: COLOR_BUFFER_BIT },
            Command::UseProgram { program: self.program.handle },
            Command::EnableVertexAttribArray { index: POSITION_ATTRIBUTE },
            Command::BindBuffer { target: ARRAY_BUFFER, buffer: self.buffer.handle },
            Command::VertexAttribPointer {
                index: POSITION_ATTRIBUTE,
                size: COMPONENTS_PER_VERTEX,
                kind: FLOAT,
                normalized: false,
                stride: STRIDE,
                offset: OFFSET,
            },
            Command::DrawArrays { mode: TRIANGLES, first: 0, count: vertex_count },
        ];
        assert(views(commands@) =~= self@.render(vertex_count));
        commands
    }

    /// The rendering surface this renderer draws to.
    pub fn surface(&self) -> (surface: Handle)
        ensures
            surface == self@.surface,
    {
        self.surface
    }

    /// The linked program.
    pub fn program(&self) -> (program: ShaderProgram)
        ensures
            program == self@.program,
    {
        self.program
    }

    /// The vertex buffer.
    pub fn buffer(&self) -> (buffer: VertexBuffer)
        ensures
            buffer == self@.buffer,
    {
        self.buffer
    }
}

} // verus!
