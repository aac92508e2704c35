//! Compiling the two shader stages and linking them into a program.
//!
//! Both jobs talk to the driver in turns: each turn hands out a batch of
//! commands and reads the reply to the last of them.

use vstd::prelude::*;
use crate::command::{views, Command, CommandView, Handle, Reply, ReplyView};
use crate::error::{
    RenderError, RenderErrorView, Resource, UNKNOWN_COMPILE_ERROR, UNKNOWN_LINK_ERROR,
};
use crate::gl::{ShaderStage, COMPILE_STATUS, LINK_STATUS};
use crate::step::{Step, StepView};

verus! {

/// Built-in vertex stage: passes the position at attribute 0 through.
pub const VERTEX_SHADER_SOURCE: &'static str =
    "#version 300 es\nlayout(location = 0) in vec3 position;\nvoid main() {\n    gl_Position = vec4(position, 1.0);\n}\n";

/// Built-in fragment stage: paints every fragment opaque white.
pub const FRAGMENT_SHADER_SOURCE: &'static str =
    "#version 300 es\nprecision mediump float;\nout vec4 color;\nvoid main() {\n    color = vec4(1.0, 1.0, 1.0, 1.0);\n}\n";

/// The diagnostic a failure carries: the driver's log where the reply is
/// a text that says something, the fallback where it is an empty text or
/// no text at all.
pub open spec fn diagnostic(reply: ReplyView, fallback: Seq<char>) -> Seq<char> {
    match reply {
        ReplyView::Text(log) => if log.len() > 0 {
            log
        } else {
            fallback
        },
        _ => fallback,
    }
}

fn read_diagnostic(reply: Reply, fallback: &str) -> (log: String)
    ensures
        log@ == diagnostic(reply@, fallback@),
{
    match reply {
        Reply::Text(log) => if log.as_str().is_empty() {
            fallback.to_owned()
        } else {
            log
        },
        _ => fallback.to_owned(),
    }
}

/// A shader object that has compiled.
#[derive(Clone, Copy, Debug, PartialEq, Eq, Structural)]
pub struct ShaderUnit {
    pub handle: Handle,
    pub stage: ShaderStage,
}

impl View for ShaderUnit {
    type V = ShaderUnit;

    open spec fn view(&self) -> ShaderUnit {
        *self
    }
}

/// A shader on its way to a [`ShaderUnit`].
#[derive(Debug, PartialEq, Eq)]
pub enum ShaderJob {
    /// `createShader` is out; the reply names the object.
    AwaitingObject { stage: ShaderStage, source: String },
    /// Source is submitted and compiled; the reply is the compile status.
    AwaitingStatus { unit: ShaderUnit },
    /// Compilation failed; the reply is the driver's log.
    AwaitingLog { unit: ShaderUnit },
}

/// Mathematical value of a [`ShaderJob`].
pub enum ShaderJobView {
    AwaitingObject { stage: ShaderStage, source: Seq<char> },
    AwaitingStatus { unit: ShaderUnit },
    AwaitingLog { unit: ShaderUnit },
}

impl View for ShaderJob {
    type V = ShaderJobView;

    open spec fn view(&self) -> ShaderJobView {
        match *self {
            ShaderJob::AwaitingObject { stage, source } => ShaderJobView::AwaitingObject {
                stage,
                source: source@,
            },
            ShaderJob::AwaitingStatus { unit } => ShaderJobView::AwaitingStatus { unit },
            ShaderJob::AwaitingLog { unit } => ShaderJobView::AwaitingLog { unit },
        }
    }
}

impl ShaderJobView {
    /// The first turn: ask the driver for a shader object of the stage's kind.
    pub open spec fn start(stage: ShaderStage, source: Seq<char>) -> StepView<
        ShaderJobView,
        ShaderUnit,
    > {
        StepView::Continue {
            state: ShaderJobView::AwaitingObject { stage, source },
            commands: seq![CommandView::CreateShader { kind: stage.kind() }],
        }
    }

    /// The turn that follows `reply`.
    ///
    /// - No object: the job fails with an allocation error and has nothing
    ///   to release.
    /// - An object: its source is submitted, it is compiled, and its
    ///   compile status is queried.
    /// - Status `true`: the job is finished. Any other reply counts as a
    ///   failed compilation, and the driver's log is queried.
    /// - The log, or the fallback where the reply is an empty text or no
    ///   text, becomes the compile error, and the shader object is
    ///   released.
    pub open spec fn next(self, reply: ReplyView) -> StepView<ShaderJobView, ShaderUnit> {
        match self {
            ShaderJobView::AwaitingObject { stage, source } => match reply {
                ReplyView::Object(handle) => StepView::Continue {
                    state: ShaderJobView::AwaitingStatus { unit: ShaderUnit { handle, stage } },
                    commands: seq![
                        CommandView::ShaderSource { shader: handle, source },
                        CommandView::CompileShader { shader: handle },
                        CommandView::GetShaderParameter { shader: handle, pname: COMPILE_STATUS },
                    ],
                },
                _ => StepView::Failed {
                    error: RenderErrorView::Allocation(Resource::Shader),
                    release: seq![],
                },
            },
            ShaderJobView::AwaitingStatus { unit } => if reply == ReplyView::Flag(true) {
                StepView::Finished(unit)
            } else {
                StepView::Continue {
                    state: ShaderJobView::AwaitingLog { unit },
                    commands: seq![CommandView::GetShaderInfoLog { shader: unit.handle }],
                }
            },
            ShaderJobView::AwaitingLog { unit } => StepView::Failed {
                error: RenderErrorView::Compile(diagnostic(reply, UNKNOWN_COMPILE_ERROR@)),
                release: seq![CommandView::DeleteShader { shader: unit.handle }],
            },
        }
    }
}

/// Starts compiling `source` as a shader of the given stage.
pub fn compile_shader(stage: ShaderStage, source: &str) -> (step: Step<ShaderJob, ShaderUnit>)
    ensures
        step@ == ShaderJobView::start(stage, source@),
{
    let commands = vec![Command::CreateShader { kind: stage.gl_kind() }];
    assert(views(commands@) =~= seq![CommandView::CreateShader { kind: stage.kind() }]);
    Step::Continue { state: ShaderJob::AwaitingObject { stage, source: source.to_owned() }, commands }
}

impl ShaderJob {
    /// Reads the driver's reply to the last batch and decides the next turn.
    pub fn advance(self, reply: Reply) -> (step: Step<ShaderJob, ShaderUnit>)
        ensures
            step@ == self@.next(reply@),
    {
        match self {
            ShaderJob::AwaitingObject { stage, source } => match reply {
                Reply::Object(handle) => {
                    let commands = vec![
                        Command::ShaderSource { shader: handle, source },
                        Command::CompileShader { shader: handle },
                        Command::GetShaderParameter { shader: handle, pname: COMPILE_STATUS },
                    ];
                    assert(views(commands@) =~= seq![
                        CommandView::ShaderSource { shader: handle, source: source@ },
                        CommandView::CompileShader { shader: handle },
                        CommandView::GetShaderParameter { shader: handle, pname: COMPILE_STATUS },
                    ]);
                    Step::Continue {
                        state: ShaderJob::AwaitingStatus { unit: ShaderUnit { handle, stage } },
                        commands,
                    }
                },
                _ => {
                    let release: Vec<Command> = Vec::new();
                    assert(views(release@) =~= seq![]);
                    Step::Failed { error: RenderError::Allocation(Resource::Shader), release }
                },
            },
            ShaderJob::AwaitingStatus { unit } => match reply {
                Reply::Flag(true) => Step::Finished(unit),
                _ => {
                    let commands = vec![Command::GetShaderInfoLog { shader: unit.handle }];
                    assert(views(commands@) =~= seq![
                        CommandView::GetShaderInfoLog { shader: unit.handle },
                    ]);
                    Step::Continue { state: ShaderJob::AwaitingLog { unit }, commands }
                },
            },
            ShaderJob::AwaitingLog { unit } => {
                let release = vec![Command::DeleteShader { shader: unit.handle }];
                assert(views(release@) =~= seq![CommandView::DeleteShader { shader: unit.handle }]);
                let log = read_diagnostic(reply, UNKNOWN_COMPILE_ERROR);
                Step::Failed { error: RenderError::Compile(log), release }
            },
        }
    }
}

/// A program object that has linked.
#[derive(Clone, Copy, Debug, PartialEq, Eq, Structural)]
pub struct ShaderProgram {
    pub handle: Handle,
}

impl View for ShaderProgram {
    type V = ShaderProgram;

    open spec fn view(&self) -> ShaderProgram {
        *self
    }
}

/// A program on its way to a [`ShaderProgram`].
#[derive(Clone, Copy, Debug, PartialEq, Eq, Structural)]
pub enum LinkJob {
    /// `createProgram` is out; the reply names the object.
    AwaitingObject { vertex: ShaderUnit, fragment: ShaderUnit },
    /// Both units are attached and the program is linked; the reply is
    /// the link status.
    AwaitingStatus { program: ShaderProgram },
    /// Linking failed; the reply is the driver's log.
    AwaitingLog { program: ShaderProgram },
}

impl View for LinkJob {
    type V = LinkJob;

    open spec fn view(&self) -> LinkJob {
        *self
    }
}

impl LinkJob {
    /// The first turn: ask the driver for a program object.
    pub open spec fn start(vertex: ShaderUnit, fragment: ShaderUnit) -> StepView<
        LinkJob,
        ShaderProgram,
    > {
        StepView::Continue {
            state: LinkJob::AwaitingObject { vertex, fragment },
            commands: seq![CommandView::CreateProgram],
        }
    }

    /// The turn that follows `reply`.
    ///
    /// - No object: the job fails with an allocation error and has nothing
    ///   to release.
    /// - An object: the first unit is attached, then the second, the
    ///   program is linked, and its link status is queried. The stages of
    ///   the two units are not looked at.
    /// - Status `true`: the job is finished. Any other reply counts as a
    ///   failed link, and the driver's log is queried.
    /// - The log, or the fallback where the reply is an empty text or no
    ///   text, becomes the link error, and the program object is released.
    ///   The units stay with whoever lent them.
    pub open spec fn next(self, reply: ReplyView) -> StepView<LinkJob, ShaderProgram> {
        match self {
            LinkJob::AwaitingObject { vertex, fragment } => match reply {
                ReplyView::Object(handle) => StepView::Continue {
                    state: LinkJob::AwaitingStatus { program: ShaderProgram { handle } },
                    commands: seq![
                        CommandView::AttachShader { program: handle, shader: vertex.handle },
                        CommandView::AttachShader { program: handle, shader: fragment.handle },
                        CommandView::LinkProgram { program: handle },
                        CommandView::GetProgramParameter { program: handle, pname: LINK_STATUS },
                    ],
                },
                _ => StepView::Failed {
                    error: RenderErrorView::Allocation(Resource::Program),
                    release: seq![],
                },
            },
            LinkJob::AwaitingStatus { program } => if reply == ReplyView::Flag(true) {
                StepView::Finished(program)
            } else {
                StepView::Continue {
                    state: LinkJob::AwaitingLog { program },
                    commands: seq![CommandView::GetProgramInfoLog { program: program.handle }],
                }
            },
            LinkJob::AwaitingLog { program } => StepView::Failed {
                error: RenderErrorView::Link(diagnostic(reply, UNKNOWN_LINK_ERROR@)),
                release: seq![CommandView::DeleteProgram { program: program.handle }],
            },
        }
    }

    /// Reads the driver's reply to the last batch and decides the next turn.
    pub fn advance(self, reply: Reply) -> (step: Step<LinkJob, ShaderProgram>)
        ensures
            step@ == self.next(reply@),
    {
        match self {
            LinkJob::AwaitingObject { vertex, fragment } => match reply {
                Reply::Object(handle) => {
                    let commands = vec![
                        Command::AttachShader { program: handle, shader: vertex.handle },
                        Command::AttachShader { program: handle, shader: fragment.handle },
                        Command::LinkProgram { program: handle },
                        Command::GetProgramParameter { program: handle, pname: LINK_STATUS },
                    ];
                    assert(views(commands@) =~= seq![
                        CommandView::AttachShader { program: handle, shader: vertex.handle },
                        CommandView::AttachShader { program: handle, shader: fragment.handle },
                        CommandView::LinkProgram { program: handle },
                        CommandView::GetProgramParameter { program: handle, pname: LINK_STATUS },
                    ]);
                    Step::Continue {
                        state: LinkJob::AwaitingStatus { program: ShaderProgram { handle } },
                        commands,
                    }
                },
                _ => {
                    let release: Vec<Command> = Vec::new();
                    assert(views(release@) =~= seq![]);
                    Step::Failed { error: RenderError::Allocation(Resource::Program), release }
                },
            },
            LinkJob::AwaitingStatus { program } => match reply {
                Reply::Flag(true) => Step::Finished(program),
                _ => {
                    let commands = vec![Command::GetProgramInfoLog { program: program.handle }];
                    assert(views(commands@) =~= seq![
                        CommandView::GetProgramInfoLog { program: program.handle },
                    ]);
                    Step::Continue { state: LinkJob::AwaitingLog { program }, commands }
                },
            },
            LinkJob::AwaitingLog { program } => {
                let release = vec![Command::DeleteProgram { program: program.handle }];
                assert(views(release@) =~= seq![
                    CommandView::DeleteProgram { program: program.handle },
                ]);
                let log = read_diagnostic(reply, UNKNOWN_LINK_ERROR);
                Step::Failed { error: RenderError::Link(log), release }
            },
        }
    }
}

/// Starts linking two compiled units into a program.
pub fn link_program(vertex: &ShaderUnit, fragment: &ShaderUnit) -> (step: Step<
    LinkJob,
    ShaderProgram,
>)
    ensures
        step@ == LinkJob::start(*vertex, *fragment),
{
    let commands = vec![Command::CreateProgram];
    assert(views(commands@) =~= seq![CommandView::CreateProgram]);
    Step::Continue {
        state: LinkJob::AwaitingObject { vertex: *vertex, fragment: *fragment },
        commands,
    }
}

} // verus!
