use render_core::buffer::VertexBuffer;
use render_core::command::{Command, Reply};
use render_core::error::{RenderError, Resource};
use render_core::renderer::{Construction, Renderer};
use render_core::shaders::{ShaderProgram, FRAGMENT_SHADER_SOURCE, VERTEX_SHADER_SOURCE};
use render_core::step::Step;

const VERTEX_SHADER: u32 = 35633;
const FRAGMENT_SHADER: u32 = 35632;
const COMPILE_STATUS: u32 = 35713;
const LINK_STATUS: u32 = 35714;

/// Plays the host: answers each batch with the next scripted reply and
/// keeps every command it was handed, the release batch included.
fn serve(replies: Vec<Reply>) -> (Step<Construction, Renderer>, Vec<Command>) {
    let mut transcript = Vec::new();
    let mut replies = replies.into_iter();
    let mut step = Renderer::new();
    loop {
        step = match step {
            Step::Continue { state, commands } => match replies.next() {
                Some(reply) => {
                    transcript.extend(commands);
                    state.advance(reply)
                }
                None => return (Step::Continue { state, commands }, transcript),
            },
            Step::Finished(renderer) => return (Step::Finished(renderer), transcript),
            Step::Failed { error, release } => {
                transcript.extend(release.iter().map(copy_of_delete));
                return (Step::Failed { error, release }, transcript);
            }
        };
    }
}

fn copy_of_delete(command: &Command) -> Command {
    match command {
        Command::DeleteShader { shader } => Command::DeleteShader { shader: *shader },
        Command::DeleteProgram { program } => Command::DeleteProgram { program: *program },
        other => panic!("a release batch holds {:?}", other),
    }
}

/// The shaders and programs that are created and not deleted again, given
/// the handles the scripted driver named for each creation.
fn left_behind(transcript: &[Command], replies: &[Reply]) -> Vec<(char, u32)> {
    let mut live: Vec<(char, u32)> = Vec::new();
    let mut answered = 0;
    let mut index = 0;
    while index < transcript.len() {
        let command = &transcript[index];
        let is_query = matches!(
            command,
            Command::GetContext { .. }
                | Command::CreateShader { .. }
                | Command::CreateProgram
                | Command::CreateBuffer
                | Command::GetShaderParameter { .. }
                | Command::GetProgramParameter { .. }
                | Command::GetShaderInfoLog { .. }
                | Command::GetProgramInfoLog { .. }
        );
        let reply = if is_query && answered < replies.len() {
            answered += 1;
            Some(&replies[answered - 1])
        } else {
            None
        };
        match (command, reply) {
            (Command::CreateShader { .. }, Some(Reply::Object(handle))) => live.push(('s', *handle)),
            (Command::CreateProgram, Some(Reply::Object(handle))) => live.push(('p', *handle)),
            (Command::CreateBuffer, Some(Reply::Object(handle))) => live.push(('b', *handle)),
            (Command::DeleteShader { shader }, _) => live.retain(|object| *object != ('s', *shader)),
            (Command::DeleteProgram { program }, _) => {
                live.retain(|object| *object != ('p', *program))
            }
            _ => {}
        }
        index += 1;
    }
    live
}

fn accepting() -> Vec<Reply> {
    vec![
        Reply::Object(7),
        Reply::Object(11),
        Reply::Flag(true),
        Reply::Object(12),
        Reply::Flag(true),
        Reply::Object(21),
        Reply::Flag(true),
        Reply::Object(31),
    ]
}

fn failure(step: Step<Construction, Renderer>) -> (RenderError, Vec<Command>) {
    match step {
        Step::Failed { error, release } => (error, release),
        other => panic!("construction did not fail: {:?}", other),
    }
}

#[test]
fn construction_starts_by_asking_for_a_webgl2_context() {
    match Renderer::new() {
        Step::Continue { state, commands } => {
            assert_eq!(state, Construction::AcquiringContext);
            assert_eq!(commands, vec![Command::GetContext { context_id: "webgl2".to_string() }]);
        }
        other => panic!("unexpected first step: {:?}", other),
    }
}

#[test]
fn accepted_sources_yield_a_ready_renderer() {
    let (step, transcript) = serve(accepting());
    let renderer = match step {
        Step::Finished(renderer) => renderer,
        other => panic!("construction did not finish: {:?}", other),
    };
    assert_eq!(renderer.surface(), 7);
    assert_eq!(renderer.program(), ShaderProgram { handle: 21 });
    assert_eq!(renderer.buffer(), VertexBuffer { handle: 31 });
    assert_eq!(
        transcript,
        vec![
            Command::GetContext { context_id: "webgl2".to_string() },
            Command::CreateShader { kind: VERTEX_SHADER },
            Command::ShaderSource { shader: 11, source: VERTEX_SHADER_SOURCE.to_string() },
            Command::CompileShader { shader: 11 },
            Command::GetShaderParameter { shader: 11, pname: COMPILE_STATUS },
            Command::CreateShader { kind: FRAGMENT_SHADER },
            Command::ShaderSource { shader: 12, source: FRAGMENT_SHADER_SOURCE.to_string() },
            Command::CompileShader { shader: 12 },
            Command::GetShaderParameter { shader: 12, pname: COMPILE_STATUS },
            Command::CreateProgram,
            Command::AttachShader { program: 21, shader: 11 },
            Command::AttachShader { program: 21, shader: 12 },
            Command::LinkProgram { program: 21 },
            Command::GetProgramParameter { program: 21, pname: LINK_STATUS },
            Command::CreateBuffer,
        ]
    );
}

#[test]
fn accepted_sources_leave_no_delete_in_the_transcript() {
    let (_, transcript) = serve(accepting());
    assert!(transcript.iter().all(|command| !matches!(
        command,
        Command::DeleteShader { .. } | Command::DeleteProgram { .. }
    )));
}

#[test]
fn construction_waits_while_a_reply_is_due() {
    let mut replies = accepting();
    replies.truncate(5);
    let (step, _) = serve(replies);
    match step {
        Step::Continue { commands, .. } => assert_eq!(commands, vec![Command::CreateProgram]),
        other => panic!("construction ended early: {:?}", other),
    }
}

#[test]
fn missing_context_is_context_unavailable() {
    let (step, transcript) = serve(vec![Reply::Nothing]);
    let (error, release) = failure(step);
    assert_eq!(error, RenderError::ContextUnavailable);
    assert!(release.is_empty());
    assert_eq!(transcript, vec![Command::GetContext { context_id: "webgl2".to_string() }]);
}

#[test]
fn context_reply_of_another_kind_is_context_unavailable() {
    let (error, _) = failure(serve(vec![Reply::Flag(true)]).0);
    assert_eq!(error, RenderError::ContextUnavailable);
    let (error, _) = failure(serve(vec![Reply::Text("webgl2".to_string())]).0);
    assert_eq!(error, RenderError::ContextUnavailable);
}

#[test]
fn refused_vertex_shader_object_is_an_allocation_error() {
    let (error, release) = failure(serve(vec![Reply::Object(7), Reply::Nothing]).0);
    assert_eq!(error, RenderError::Allocation(Resource::Shader));
    assert!(release.is_empty());
}

#[test]
fn vertex_compile_error_carries_the_driver_log() {
    let log = "ERROR: 0:3: 'vec5' : undeclared identifier";
    let replies = vec![
        Reply::Object(7),
        Reply::Object(11),
        Reply::Flag(false),
        Reply::Text(log.to_string()),
    ];
    let (step, transcript) = serve(replies);
    let (error, release) = failure(step);
    assert_eq!(error, RenderError::Compile(log.to_string()));
    assert!(!error.message().is_empty());
    assert_eq!(release, vec![Command::DeleteShader { shader: 11 }]);
    assert_eq!(
        transcript[5..],
        [Command::GetShaderInfoLog { shader: 11 }, Command::DeleteShader { shader: 11 }]
    );
}

#[test]
fn vertex_compile_error_without_a_log_uses_the_fallback() {
    let replies = vec![Reply::Object(7), Reply::Object(11), Reply::Flag(false), Reply::Nothing];
    let (error, _) = failure(serve(replies).0);
    assert_eq!(error, RenderError::Compile("Unknown error creating shader".to_string()));
}

#[test]
fn compile_status_that_is_no_boolean_counts_as_failure() {
    for status in [Reply::Nothing, Reply::Object(1), Reply::Text("true".to_string())] {
        let replies =
            vec![Reply::Object(7), Reply::Object(11), status, Reply::Text("bad".to_string())];
        let (error, _) = failure(serve(replies).0);
        assert_eq!(error, RenderError::Compile("bad".to_string()));
    }
}

#[test]
fn empty_vertex_log_uses_the_fallback() {
    let replies =
        vec![Reply::Object(7), Reply::Object(11), Reply::Flag(false), Reply::Text(String::new())];
    let (error, release) = failure(serve(replies).0);
    assert_eq!(error, RenderError::Compile("Unknown error creating shader".to_string()));
    assert!(!error.message().is_empty());
    assert_eq!(release, vec![Command::DeleteShader { shader: 11 }]);
}

#[test]
fn empty_fragment_log_uses_the_fallback() {
    let replies = vec![
        Reply::Object(7),
        Reply::Object(11),
        Reply::Flag(true),
        Reply::Object(12),
        Reply::Flag(false),
        Reply::Text(String::new()),
    ];
    let (error, _) = failure(serve(replies).0);
    assert_eq!(error, RenderError::Compile("Unknown error creating shader".to_string()));
    assert!(!error.message().is_empty());
}

#[test]
fn empty_link_log_uses_the_fallback() {
    let mut replies = accepting();
    replies.truncate(6);
    replies.push(Reply::Flag(false));
    replies.push(Reply::Text(String::new()));
    let (error, _) = failure(serve(replies).0);
    assert_eq!(error, RenderError::Link("Unknown error creating program object".to_string()));
    assert!(!error.message().is_empty());
}

#[test]
fn fragment_compile_error_is_not_the_vertex_log() {
    let replies = vec![
        Reply::Object(7),
        Reply::Object(11),
        Reply::Flag(true),
        Reply::Object(12),
        Reply::Flag(false),
        Reply::Text("fragment: bad".to_string()),
    ];
    let (step, transcript) = serve(replies);
    let (error, _) = failure(step);
    assert_eq!(error, RenderError::Compile("fragment: bad".to_string()));
    assert!(transcript.contains(&Command::GetShaderInfoLog { shader: 12 }));
    assert!(!transcript.contains(&Command::GetShaderInfoLog { shader: 11 }));
}

#[test]
fn refused_fragment_shader_object_releases_the_vertex_shader() {
    let replies = vec![Reply::Object(7), Reply::Object(11), Reply::Flag(true), Reply::Nothing];
    let (error, release) = failure(serve(replies).0);
    assert_eq!(error, RenderError::Allocation(Resource::Shader));
    assert_eq!(release, vec![Command::DeleteShader { shader: 11 }]);
}

#[test]
fn fragment_compile_error_carries_the_driver_log() {
    let log = "ERROR: 0:5: 'color' : syntax error";
    let replies = vec![
        Reply::Object(7),
        Reply::Object(11),
        Reply::Flag(true),
        Reply::Object(12),
        Reply::Flag(false),
        Reply::Text(log.to_string()),
    ];
    let (error, release) = failure(serve(replies).0);
    assert_eq!(error, RenderError::Compile(log.to_string()));
    assert!(!error.message().is_empty());
    assert_eq!(
        release,
        vec![Command::DeleteShader { shader: 12 }, Command::DeleteShader { shader: 11 }]
    );
}

#[test]
fn fragment_compile_error_without_a_log_uses_the_fallback() {
    let replies = vec![
        Reply::Object(7),
        Reply::Object(11),
        Reply::Flag(true),
        Reply::Object(12),
        Reply::Nothing,
        Reply::Flag(false),
    ];
    let (error, _) = failure(serve(replies).0);
    assert_eq!(error, RenderError::Compile("Unknown error creating shader".to_string()));
}

#[test]
fn refused_program_object_releases_both_shaders() {
    let mut replies = accepting();
    replies.truncate(5);
    replies.push(Reply::Nothing);
    let (error, release) = failure(serve(replies).0);
    assert_eq!(error, RenderError::Allocation(Resource::Program));
    assert_eq!(
        release,
        vec![Command::DeleteShader { shader: 12 }, Command::DeleteShader { shader: 11 }]
    );
}

#[test]
fn link_error_carries_the_driver_log() {
    let log = "ERROR: varying 'tint' not written by vertex shader";
    let mut replies = accepting();
    replies.truncate(6);
    replies.push(Reply::Flag(false));
    replies.push(Reply::Text(log.to_string()));
    let (step, transcript) = serve(replies);
    let (error, release) = failure(step);
    assert_eq!(error, RenderError::Link(log.to_string()));
    assert_eq!(
        release,
        vec![
            Command::DeleteProgram { program: 21 },
            Command::DeleteShader { shader: 12 },
            Command::DeleteShader { shader: 11 },
        ]
    );
    assert_eq!(transcript[14], Command::GetProgramInfoLog { program: 21 });
}

#[test]
fn link_error_without_a_log_uses_the_fallback() {
    let mut replies = accepting();
    replies.truncate(6);
    replies.push(Reply::Nothing);
    replies.push(Reply::Nothing);
    let (error, _) = failure(serve(replies).0);
    assert_eq!(error, RenderError::Link("Unknown error creating program object".to_string()));
}

#[test]
fn refused_buffer_object_releases_program_and_shaders() {
    let mut replies = accepting();
    replies.truncate(7);
    replies.push(Reply::Nothing);
    let (error, release) = failure(serve(replies).0);
    assert_eq!(error, RenderError::Allocation(Resource::Buffer));
    assert_eq!(
        release,
        vec![
            Command::DeleteProgram { program: 21 },
            Command::DeleteShader { shader: 12 },
            Command::DeleteShader { shader: 11 },
        ]
    );
}

#[test]
fn failed_construction_leaves_no_object_behind() {
    let garbage_vertex_source = vec![
        Reply::Object(7),
        Reply::Object(11),
        Reply::Flag(false),
        Reply::Text("ERROR: 0:1: '' : syntax error".to_string()),
    ];
    let mut no_link = accepting();
    no_link.truncate(6);
    no_link.push(Reply::Flag(false));
    no_link.push(Reply::Nothing);
    let mut no_buffer = accepting();
    no_buffer.truncate(7);
    no_buffer.push(Reply::Nothing);
    for replies in [garbage_vertex_source, no_link, no_buffer] {
        let (step, transcript) = serve(replies.iter().map(copy_of_reply).collect());
        assert!(matches!(step, Step::Failed { .. }));
        assert_eq!(left_behind(&transcript, &replies), Vec::<(char, u32)>::new());
        assert!(transcript.iter().all(|command| !matches!(
            command,
            Command::Clear { .. } | Command::ClearColor { .. } | Command::DrawArrays { .. }
        )));
    }
}

fn copy_of_reply(reply: &Reply) -> Reply {
    match reply {
        Reply::Nothing => Reply::Nothing,
        Reply::Object(handle) => Reply::Object(*handle),
        Reply::Flag(flag) => Reply::Flag(*flag),
        Reply::Text(text) => Reply::Text(text.to_string()),
    }
}

#[test]
fn finished_construction_keeps_what_it_was_handed() {
    let replies = accepting();
    let (_, transcript) = serve(accepting());
    assert_eq!(
        left_behind(&transcript, &replies),
        vec![('s', 11), ('s', 12), ('p', 21), ('b', 31)]
    );
}
