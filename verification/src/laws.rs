//! What holds of every construction and of every frame.

use vstd::prelude::*;
use crate::buffer::{VertexBuffer, POSITION_ATTRIBUTE};
use crate::command::{CommandView, FloatBits, Handle, ReplyView, ONE, ZERO};
use crate::driver::{Color, ColorBuffer, Draw, Driver, Object, Viewport};
use crate::error::{
    lemma_fallback_diagnostics_are_not_empty, RenderErrorView, Resource, UNKNOWN_COMPILE_ERROR,
    UNKNOWN_LINK_ERROR,
};
use crate::gl::{
    COLOR_BUFFER_BIT, COMPILE_STATUS, CONTEXT_ID, FRAGMENT_SHADER, LINK_STATUS, TRIANGLES,
    VERTEX_SHADER,
};
use crate::renderer::{ConstructionView, RendererView};
use crate::shaders::{
    diagnostic, LinkJob, ShaderJobView, ShaderProgram, FRAGMENT_SHADER_SOURCE,
    VERTEX_SHADER_SOURCE,
};
use crate::step::StepView;

verus! {

/// Where `step` has got to once the driver has given the replies from
/// index `from` on, one per turn. Replies that arrive after the
/// construction has ended are not read.
pub open spec fn settle(
    step: StepView<ConstructionView, RendererView>,
    replies: Seq<ReplyView>,
    from: int,
) -> StepView<ConstructionView, RendererView>
    decreases replies.len() - from,
{
    if from < 0 || from >= replies.len() {
        step
    } else {
        match step {
            StepView::Continue { state, commands } => settle(
                state.next(replies[from]),
                replies,
                from + 1,
            ),
            _ => step,
        }
    }
}

/// Where a construction stands once the driver has given `replies`.
pub open spec fn construct(replies: Seq<ReplyView>) -> StepView<ConstructionView, RendererView> {
    settle(ConstructionView::start(), replies, 0)
}

/// A construction that has ended with `renderer`.
pub open spec fn finished(renderer: RendererView) -> StepView<ConstructionView, RendererView> {
    StepView::Finished(renderer)
}

/// A construction that has ended with `error` and hands out `release`.
pub open spec fn failed(error: RenderErrorView, release: Seq<CommandView>) -> StepView<
    ConstructionView,
    RendererView,
> {
    StepView::Failed { error, release }
}

/// The replies of a driver that accepts everything: it hands out the
/// context and every object, and reports both compilations and the link
/// as successful.
pub open spec fn accepting(
    surface: Handle,
    vertex: Handle,
    fragment: Handle,
    program: Handle,
    buffer: Handle,
) -> Seq<ReplyView> {
    seq![
        ReplyView::Object(surface),
        ReplyView::Object(vertex),
        ReplyView::Flag(true),
        ReplyView::Object(fragment),
        ReplyView::Flag(true),
        ReplyView::Object(program),
        ReplyView::Flag(true),
        ReplyView::Object(buffer),
    ]
}

/// Every command the host is handed while the driver gives the replies
/// from index `from` on: batch after batch, and at the end of a failed
/// construction the batch that releases what it had acquired.
pub open spec fn transcript(
    step: StepView<ConstructionView, RendererView>,
    replies: Seq<ReplyView>,
    from: int,
) -> Seq<CommandView>
    decreases replies.len() - from,
{
    match step {
        StepView::Continue { state, commands } => if 0 <= from < replies.len() {
            commands + transcript(state.next(replies[from]), replies, from + 1)
        } else {
            commands
        },
        StepView::Finished(renderer) => seq![],
        StepView::Failed { error, release } => release,
    }
}

/// The driver calls of a construction that meets no refusal, in order.
pub open spec fn smooth_construction(
    vertex: Handle,
    fragment: Handle,
    program: Handle,
) -> Seq<CommandView> {
    seq![
        CommandView::GetContext { context_id: CONTEXT_ID@ },
        CommandView::CreateShader { kind: VERTEX_SHADER },
        CommandView::ShaderSource { shader: vertex, source: VERTEX_SHADER_SOURCE@ },
        CommandView::CompileShader { shader: vertex },
        CommandView::GetShaderParameter { shader: vertex, pname: COMPILE_STATUS },
        CommandView::CreateShader { kind: FRAGMENT_SHADER },
        CommandView::ShaderSource { shader: fragment, source: FRAGMENT_SHADER_SOURCE@ },
        CommandView::CompileShader { shader: fragment },
        CommandView::GetShaderParameter { shader: fragment, pname: COMPILE_STATUS },
        CommandView::CreateProgram,
        CommandView::AttachShader { program, shader: vertex },
        CommandView::AttachShader { program, shader: fragment },
        CommandView::LinkProgram { program },
        CommandView::GetProgramParameter { program, pname: LINK_STATUS },
        CommandView::CreateBuffer,
    ]
}

/// Whenever the driver accepts both built-in sources and hands out every
/// object, the construction ends with a renderer that owns the surface,
/// the program and the buffer the driver named, and no error; and on the
/// way the driver is asked for nothing but the calls of
/// [`smooth_construction`], none of which deletes anything.
pub proof fn law_accepted_sources_yield_renderer(
    surface: Handle,
    vertex: Handle,
    fragment: Handle,
    program: Handle,
    buffer: Handle,
)
    ensures
        construct(accepting(surface, vertex, fragment, program, buffer)) == finished(
            (RendererView {
                surface,
                program: ShaderProgram { handle: program },
                buffer: VertexBuffer { handle: buffer },
            }),
        ),
        transcript(
            ConstructionView::start(),
            accepting(surface, vertex, fragment, program, buffer),
            0,
        ) == smooth_construction(vertex, fragment, program),
{
    reveal_with_fuel(settle, 9);
    reveal_with_fuel(transcript, 9);
    assert(transcript(
        ConstructionView::start(),
        accepting(surface, vertex, fragment, program, buffer),
        0,
    ) =~= smooth_construction(vertex, fragment, program));
}

/// How a construction ends, read off the driver's replies alone: `None`
/// while a reply is still due, otherwise the renderer or the error.
///
/// The replies are, in order: the context; then for the vertex and for
/// the fragment stage the shader object and its compile status, followed
/// by the log where the status is not `true`; then the program object and
/// its link status, again followed by the log where it is not `true`; then
/// the buffer object. The first reply that is not what success needs
/// decides the error.
pub open spec fn verdict(replies: Seq<ReplyView>) -> Option<Result<RendererView, RenderErrorView>> {
    let r = replies;
    if r.len() < 1 {
        None
    } else if !(r[0] is Object) {
        Some(Err(RenderErrorView::ContextUnavailable))
    } else if r.len() < 2 {
        None
    } else if !(r[1] is Object) {
        Some(Err(RenderErrorView::Allocation(Resource::Shader)))
    } else if r.len() < 3 {
        None
    } else if r[2] != ReplyView::Flag(true) {
        if r.len() < 4 {
            None
        } else {
            Some(Err(RenderErrorView::Compile(diagnostic(r[3], UNKNOWN_COMPILE_ERROR@))))
        }
    } else if r.len() < 4 {
        None
    } else if !(r[3] is Object) {
        Some(Err(RenderErrorView::Allocation(Resource::Shader)))
    } else if r.len() < 5 {
        None
    } else if r[4] != ReplyView::Flag(true) {
        if r.len() < 6 {
            None
        } else {
            Some(Err(RenderErrorView::Compile(diagnostic(r[5], UNKNOWN_COMPILE_ERROR@))))
        }
    } else if r.len() < 6 {
        None
    } else if !(r[5] is Object) {
        Some(Err(RenderErrorView::Allocation(Resource::Program)))
    } else if r.len() < 7 {
        None
    } else if r[6] != ReplyView::Flag(true) {
        if r.len() < 8 {
            None
        } else {
            Some(Err(RenderErrorView::Link(diagnostic(r[7], UNKNOWN_LINK_ERROR@))))
        }
    } else if r.len() < 8 {
        None
    } else {
        match r[7] {
            ReplyView::Object(buffer) => Some(
                Ok(
                    RendererView {
                        surface: r[0]->Object_0,
                        program: ShaderProgram { handle: r[5]->Object_0 },
                        buffer: VertexBuffer { handle: buffer },
                    },
                ),
            ),
            _ => Some(Err(RenderErrorView::Allocation(Resource::Buffer))),
        }
    }
}

/// The turn-by-turn construction ends exactly as the replies say: with
/// the renderer where [`verdict`] names one, with the error where it
/// names one, and it is still under way where a reply is due.
pub proof fn law_construction_ends_as_replies_say(replies: Seq<ReplyView>)
    ensures
        match verdict(replies) {
            None => construct(replies) is Continue,
            Some(Ok(renderer)) => construct(replies) == finished(renderer),
            Some(Err(error)) => construct(replies) is Failed && construct(replies)->error == error,
        },
{
    reveal_with_fuel(settle, 9);
}

/// A vertex source that the driver does not compile ends the
/// construction with a compile error. The error carries the driver's log,
/// or the fallback where the driver has none or an empty one, and so
/// always says something. The shader object is released.
pub proof fn law_rejected_vertex_source_is_a_compile_error(
    surface: Handle,
    vertex: Handle,
    status: ReplyView,
    log: ReplyView,
)
    requires
        status != ReplyView::Flag(true),
    ensures
        construct(seq![ReplyView::Object(surface), ReplyView::Object(vertex), status, log])
            == failed(
            RenderErrorView::Compile(diagnostic(log, UNKNOWN_COMPILE_ERROR@)),
            seq![(CommandView::DeleteShader { shader: vertex })],
        ),
        diagnostic(log, UNKNOWN_COMPILE_ERROR@).len() > 0,
{
    reveal_with_fuel(settle, 5);
    lemma_fallback_diagnostics_are_not_empty();
}

/// A fragment source that the driver does not compile ends the
/// construction with a compile error. The error carries the driver's log
/// for the fragment shader, or the fallback where the driver has none or
/// an empty one, and so always says something. Both shader objects are
/// released, the fragment shader first.
pub proof fn law_rejected_fragment_source_is_a_compile_error(
    surface: Handle,
    vertex: Handle,
    fragment: Handle,
    status: ReplyView,
    log: ReplyView,
)
    requires
        status != ReplyView::Flag(true),
    ensures
        construct(
            seq![
                ReplyView::Object(surface),
                ReplyView::Object(vertex),
                ReplyView::Flag(true),
                ReplyView::Object(fragment),
                status,
                log,
            ],
        ) == failed(
            RenderErrorView::Compile(diagnostic(log, UNKNOWN_COMPILE_ERROR@)),
            seq![
                (CommandView::DeleteShader { shader: fragment }),
                (CommandView::DeleteShader { shader: vertex }),
            ],
        ),
        diagnostic(log, UNKNOWN_COMPILE_ERROR@).len() > 0,
{
    reveal_with_fuel(settle, 7);
    lemma_fallback_diagnostics_are_not_empty();
    let step = construct(
        seq![
            ReplyView::Object(surface),
            ReplyView::Object(vertex),
            ReplyView::Flag(true),
            ReplyView::Object(fragment),
            status,
            log,
        ],
    );
    assert(step->release =~= seq![
        CommandView::DeleteShader { shader: fragment },
        CommandView::DeleteShader { shader: vertex },
    ]);
}

/// Sources that compile one by one but that the driver does not link end
/// the construction with a link error. The error carries the driver's
/// log, or the fallback where the driver has none or an empty one, and so
/// always says something. The program and both shader objects are
/// released, newest first.
pub proof fn law_rejected_link_is_a_link_error(
    surface: Handle,
    vertex: Handle,
    fragment: Handle,
    program: Handle,
    status: ReplyView,
    log: ReplyView,
)
    requires
        status != ReplyView::Flag(true),
    ensures
        construct(
            seq![
                ReplyView::Object(surface),
                ReplyView::Object(vertex),
                ReplyView::Flag(true),
                ReplyView::Object(fragment),
                ReplyView::Flag(true),
                ReplyView::Object(program),
                status,
                log,
            ],
        ) == failed(
            RenderErrorView::Link(diagnostic(log, UNKNOWN_LINK_ERROR@)),
            seq![
                (CommandView::DeleteProgram { program }),
                (CommandView::DeleteShader { shader: fragment }),
                (CommandView::DeleteShader { shader: vertex }),
            ],
        ),
        diagnostic(log, UNKNOWN_LINK_ERROR@).len() > 0,
{
    reveal_with_fuel(settle, 9);
    lemma_fallback_diagnostics_are_not_empty();
    let step = construct(
        seq![
            ReplyView::Object(surface),
            ReplyView::Object(vertex),
            ReplyView::Flag(true),
            ReplyView::Object(fragment),
            ReplyView::Flag(true),
            ReplyView::Object(program),
            status,
            log,
        ],
    );
    assert(step->release =~= seq![
        CommandView::DeleteProgram { program },
        CommandView::DeleteShader { shader: fragment },
        CommandView::DeleteShader { shader: vertex },
    ]);
}

/// The driver after it has served a construction: it has performed every
/// batch that was answered by one of the replies from index `from` on,
/// and at the end of a failed construction the batch that releases what
/// the construction had acquired.
pub open spec fn served(
    driver: Driver,
    step: StepView<ConstructionView, RendererView>,
    replies: Seq<ReplyView>,
    from: int,
) -> Driver
    decreases replies.len() - from,
{
    match step {
        StepView::Continue { state, commands } => if 0 <= from < replies.len() {
            served(
                driver.perform(commands, replies[from]),
                state.next(replies[from]),
                replies,
                from + 1,
            )
        } else {
            driver
        },
        StepView::Finished(renderer) => driver,
        StepView::Failed { error, release } => driver.issue(release),
    }
}

/// The objects that a construction in this state has been handed and
/// would have to release.
spec fn held(state: ConstructionView) -> Set<Object> {
    match state {
        ConstructionView::AcquiringContext => Set::empty(),
        ConstructionView::CompilingVertex { surface, job } => unit_held(job),
        ConstructionView::CompilingFragment { surface, vertex, job } => unit_held(job).insert(
            Object::Shader(vertex.handle),
        ),
        ConstructionView::Linking { surface, vertex, fragment, link } => program_held(
            link,
        ).insert(Object::Shader(fragment.handle)).insert(Object::Shader(vertex.handle)),
        ConstructionView::AllocatingBuffer { surface, vertex, fragment, program } => Set::empty(
        ).insert(Object::Program(program.handle)).insert(Object::Shader(fragment.handle)).insert(
            Object::Shader(vertex.handle),
        ),
    }
}

/// The shader object that a compilation in this state has been handed.
spec fn unit_held(job: ShaderJobView) -> Set<Object> {
    match job {
        ShaderJobView::AwaitingObject { stage, source } => Set::empty(),
        ShaderJobView::AwaitingStatus { unit } => Set::empty().insert(Object::Shader(unit.handle)),
        ShaderJobView::AwaitingLog { unit } => Set::empty().insert(Object::Shader(unit.handle)),
    }
}

/// The program object that a link in this state has been handed.
spec fn program_held(link: LinkJob) -> Set<Object> {
    match link {
        LinkJob::AwaitingObject { vertex, fragment } => Set::empty(),
        LinkJob::AwaitingStatus { program } => Set::empty().insert(
            Object::Program(program.handle),
        ),
        LinkJob::AwaitingLog { program } => Set::empty().insert(Object::Program(program.handle)),
    }
}

/// `step` is what the construction hands out: at its start, or after
/// the state and reply in `origin`.
spec fn produced(
    step: StepView<ConstructionView, RendererView>,
    origin: Option<(ConstructionView, ReplyView)>,
) -> bool {
    step == match origin {
        None => ConstructionView::start(),
        Some((state, reply)) => state.next(reply),
    }
}

/// `driver` differs from `before` in its objects alone.
spec fn same_but_objects(before: Driver, driver: Driver) -> bool {
    driver == (Driver { objects: driver.objects, ..before })
}

/// The books balance: every object in `driver` that was not in `before`
/// is held by the construction, and a failed construction's release
/// batch deletes them all.
spec fn accounted(
    before: Driver,
    driver: Driver,
    step: StepView<ConstructionView, RendererView>,
) -> bool {
    &&& same_but_objects(before, driver)
    &&& match step {
        StepView::Continue { state, commands } => driver.objects.subset_of(
            before.objects.union(held(state)),
        ),
        StepView::Finished(renderer) => true,
        StepView::Failed { error, release } => {
            &&& driver.issue(release).objects.subset_of(before.objects)
            &&& same_but_objects(before, driver.issue(release))
        },
    }
}

/// One turn keeps the books balanced.
proof fn lemma_turn_keeps_account(
    before: Driver,
    driver: Driver,
    origin: Option<(ConstructionView, ReplyView)>,
    step: StepView<ConstructionView, RendererView>,
    reply: ReplyView,
)
    requires
        produced(step, origin),
        accounted(before, driver, step),
        step is Continue,
    ensures
        accounted(before, driver.perform(step->commands, reply), step->state.next(reply)),
{
    reveal_with_fuel(Driver::perform_from, 5);
}

/// The books stay balanced to the end of a failed construction.
proof fn lemma_failure_settles_account(
    before: Driver,
    driver: Driver,
    origin: Option<(ConstructionView, ReplyView)>,
    step: StepView<ConstructionView, RendererView>,
    replies: Seq<ReplyView>,
    from: int,
)
    requires
        produced(step, origin),
        accounted(before, driver, step),
        0 <= from,
        settle(step, replies, from) is Failed,
    ensures
        served(driver, step, replies, from).objects.subset_of(before.objects),
        same_but_objects(before, served(driver, step, replies, from)),
    decreases replies.len() - from,
{
    match step {
        StepView::Continue { state, commands } => {
            if from < replies.len() {
                lemma_turn_keeps_account(before, driver, origin, step, replies[from]);
                lemma_failure_settles_account(
                    before,
                    driver.perform(commands, replies[from]),
                    Some((state, replies[from])),
                    state.next(replies[from]),
                    replies,
                    from + 1,
                );
            }
        },
        _ => {},
    }
}

/// A failed construction leaves nothing behind: once the host has
/// performed the release batch, the driver holds no shader, program or
/// buffer that it did not hold before the construction began, and
/// everything else in the driver is as it was.
pub proof fn law_failed_construction_leaves_nothing(driver: Driver, replies: Seq<ReplyView>)
    requires
        construct(replies) is Failed,
    ensures
        served(driver, ConstructionView::start(), replies, 0).objects.subset_of(driver.objects),
        served(driver, ConstructionView::start(), replies, 0) == (Driver {
            objects: served(driver, ConstructionView::start(), replies, 0).objects,
            ..driver
        }),
{
    lemma_failure_settles_account(driver, driver, None, ConstructionView::start(), replies, 0);
}

/// Opaque black.
pub open spec fn opaque_black() -> Color {
    Color { red: ZERO, green: ZERO, blue: ZERO, alpha: ONE }
}

/// The driver after `times` clears in a row.
pub open spec fn cleared(driver: Driver, renderer: RendererView, times: nat) -> Driver
    decreases times,
{
    if times == 0 {
        driver
    } else {
        cleared(driver, renderer, (times - 1) as nat).issue(renderer.clear())
    }
}

/// Clearing is idempotent: however often the renderer clears in a row,
/// the color buffer is opaque black all over, and the driver is in the
/// state that a single clear leaves it in.
pub proof fn law_clear_is_idempotent(driver: Driver, renderer: RendererView, times: nat)
    requires
        times >= 1,
    ensures
        cleared(driver, renderer, times).color_buffer == ColorBuffer::Filled(opaque_black()),
        cleared(driver, renderer, times) == driver.issue(renderer.clear()),
    decreases times,
{
    reveal_with_fuel(Driver::perform_from, 3);
    reveal_with_fuel(cleared, 2);
    assert(COLOR_BUFFER_BIT & COLOR_BUFFER_BIT != 0) by (bit_vector);
    if times > 1 {
        law_clear_is_idempotent(driver, renderer, (times - 1) as nat);
    }
}

/// What is uploaded is what is drawn: after `set_vertices` with whole
/// triples and a `render` of that many vertices, the driver has made one
/// more draw call, a triangle list with the renderer's program, and the
/// floats that fed its position attribute are exactly the upload.
pub proof fn law_uploaded_vertices_are_drawn(
    driver: Driver,
    renderer: RendererView,
    vertices: Seq<FloatBits>,
)
    requires
        vertices.len() % 3 == 0,
        vertices.len() / 3 <= i32::MAX,
    ensures
        ({
            let count = (vertices.len() / 3) as i32;
            let after = driver.issue(renderer.set_vertices(vertices)).issue(
                renderer.render(count),
            );
            &&& after.draws.len() == driver.draws.len() + 1
            &&& after.draws.last() == Draw {
                program: Some(renderer.program.handle),
                mode: TRIANGLES,
                first: 0,
                count,
                positions: Some(vertices),
            }
        }),
{
    let count = (vertices.len() / 3) as i32;
    let upload = renderer.set_vertices(vertices);
    let frame = renderer.render(count);
    let nothing = ReplyView::Nothing;
    let loaded = driver.issue(upload);
    assert(loaded == driver.call(upload[0], nothing).call(upload[1], nothing)) by {
        reveal_with_fuel(Driver::perform_from, 3);
    }
    let ready = loaded.call(frame[0], nothing).call(frame[1], nothing).call(
        frame[2],
        nothing,
    ).call(frame[3], nothing).call(frame[4], nothing).call(frame[5], nothing);
    assert(loaded.issue(frame) == ready.call(frame[6], nothing)) by {
        reveal_with_fuel(Driver::perform_from, 8);
    }
    let layout = ready.layouts[POSITION_ATTRIBUTE];
    assert(layout.buffer == Some(renderer.buffer.handle));
    assert(layout.size == 3);
    assert(ready.stores[renderer.buffer.handle] == vertices);
    assert((0 + count) * layout.size == vertices.len());
    assert(0 * layout.size == 0);
    assert(vertices.subrange(0, vertices.len() as int) =~= vertices);
    assert(ready.positions(0, count) == Some(vertices));
}

/// A resize sets the viewport to the whole drawable area, from the
/// origin, whatever the two dimensions are; nothing else in the driver
/// changes.
pub proof fn law_resize_sets_viewport(
    driver: Driver,
    renderer: RendererView,
    width: u32,
    height: u32,
)
    ensures
        driver.issue(renderer.resize(width, height)) == (Driver {
            viewport: Some(Viewport { x: 0, y: 0, width, height }),
            ..driver
        }),
{
    reveal_with_fuel(Driver::perform_from, 2);
}

} // verus!
