use render_core::command::{Command, Reply, ONE, ZERO};
use render_core::renderer::Renderer;
use render_core::step::Step;

const COLOR_BUFFER_BIT: u32 = 0x4000;
const ARRAY_BUFFER: u32 = 0x8892;
const STATIC_DRAW: u32 = 0x88E4;
const FLOAT: u32 = 0x1406;
const TRIANGLES: u32 = 0x0004;

const PROGRAM: u32 = 21;
const BUFFER: u32 = 31;

fn ready_renderer() -> Renderer {
    let replies = vec![
        Reply::Object(7),
        Reply::Object(11),
        Reply::Flag(true),
        Reply::Object(12),
        Reply::Flag(true),
        Reply::Object(PROGRAM),
        Reply::Flag(true),
        Reply::Object(BUFFER),
    ];
    let mut step = Renderer::new();
    for reply in replies {
        step = match step {
            Step::Continue { state, .. } => state.advance(reply),
            other => other,
        };
    }
    match step {
        Step::Finished(renderer) => renderer,
        other => panic!("construction did not finish: {:?}", other),
    }
}

fn bits(floats: &[f32]) -> Vec<u32> {
    floats.iter().map(|float| float.to_bits()).collect()
}

/// A stand-in for the driver that keeps what the renderer relies on.
#[derive(Debug, Default)]
struct Double {
    viewport: Option<(i32, i32, u32, u32)>,
    clear_color: [u32; 4],
    color_buffer: Option<[u32; 4]>,
    program: Option<u32>,
    array_buffer: Option<u32>,
    stores: Vec<(u32, Vec<u32>)>,
    enabled: Vec<u32>,
    layouts: Vec<(u32, Option<u32>, i32, u32, i32, i32)>,
    draws: Vec<Drawn>,
    clears: usize,
    binds: usize,
}

#[derive(Debug, PartialEq)]
struct Drawn {
    program: Option<u32>,
    mode: u32,
    first: i32,
    count: i32,
    positions: Option<Vec<u32>>,
}

impl Double {
    fn store(&self, buffer: u32) -> Option<&Vec<u32>> {
        self.stores.iter().rev().find(|(name, _)| *name == buffer).map(|(_, data)| data)
    }

    fn positions(&self, first: i32, count: i32) -> Option<Vec<u32>> {
        if !self.enabled.contains(&0) {
            return None;
        }
        let (_, buffer, size, kind, stride, offset) =
            *self.layouts.iter().rev().find(|layout| layout.0 == 0)?;
        let store = self.store(buffer?)?;
        if kind != FLOAT || size < 1 || stride != 0 || offset != 0 || first < 0 || count < 0 {
            return None;
        }
        let from = first as usize * size as usize;
        let to = (first as usize + count as usize) * size as usize;
        if to > store.len() {
            return None;
        }
        Some(store[from..to].to_vec())
    }

    fn issue(&mut self, batch: &[Command]) {
        for command in batch {
            match command {
                Command::Viewport { x, y, width, height } => {
                    self.viewport = Some((*x, *y, *width, *height));
                }
                Command::ClearColor { red, green, blue, alpha } => {
                    self.clear_color = [*red, *green, *blue, *alpha];
                }
                Command::Clear { mask } => {
                    self.clears += 1;
                    if mask & COLOR_BUFFER_BIT != 0 {
                        self.color_buffer = Some(self.clear_color);
                    }
                }
                Command::UseProgram { program } => {
                    self.binds += 1;
                    self.program = Some(*program);
                }
                Command::EnableVertexAttribArray { index } => self.enabled.push(*index),
                Command::BindBuffer { target, buffer } => {
                    if *target == ARRAY_BUFFER {
                        self.array_buffer = Some(*buffer);
                    }
                }
                Command::BufferData { target, data, .. } => {
                    if let (true, Some(buffer)) = (*target == ARRAY_BUFFER, self.array_buffer) {
                        self.stores.push((buffer, data.to_vec()));
                    }
                }
                Command::VertexAttribPointer { index, size, kind, stride, offset, .. } => {
                    self.layouts.push((*index, self.array_buffer, *size, *kind, *stride, *offset));
                }
                Command::DrawArrays { mode, first, count } => {
                    let positions = self.positions(*first, *count);
                    self.color_buffer = None;
                    self.draws.push(Drawn {
                        program: self.program,
                        mode: *mode,
                        first: *first,
                        count: *count,
                        positions,
                    });
                }
                other => panic!("not a frame command: {:?}", other),
            }
        }
    }
}

#[test]
fn float_bit_patterns_are_those_of_zero_and_one() {
    assert_eq!(ZERO, 0.0f32.to_bits());
    assert_eq!(ONE, 1.0f32.to_bits());
}

#[test]
fn resize_sets_viewport_from_origin() {
    let renderer = ready_renderer();
    assert_eq!(
        renderer.resize(800, 600),
        vec![Command::Viewport { x: 0, y: 0, width: 800, height: 600 }]
    );
    let mut double = Double::default();
    double.issue(&renderer.resize(800, 600));
    assert_eq!(double.viewport, Some((0, 0, 800, 600)));
}

#[test]
fn resize_takes_zero_and_the_largest_signed_dimension() {
    let renderer = ready_renderer();
    assert_eq!(
        renderer.resize(0, 2147483647),
        vec![Command::Viewport { x: 0, y: 0, width: 0, height: 2147483647 }]
    );
}

#[test]
fn resize_carries_dimensions_beyond_the_signed_range_as_given() {
    let renderer = ready_renderer();
    assert_eq!(
        renderer.resize(2147483648, 4294967295),
        vec![Command::Viewport { x: 0, y: 0, width: 2147483648, height: 4294967295 }]
    );
    let mut double = Double::default();
    double.issue(&renderer.resize(640, 480));
    double.issue(&renderer.resize(4294967295, 480));
    assert_eq!(double.viewport, Some((0, 0, 4294967295, 480)));
}

#[test]
fn resize_keeps_width_and_height_apart() {
    let renderer = ready_renderer();
    assert_eq!(
        renderer.resize(1, 2),
        vec![Command::Viewport { x: 0, y: 0, width: 1, height: 2 }]
    );
}

#[test]
fn clear_fills_the_color_buffer_with_opaque_black() {
    let renderer = ready_renderer();
    assert_eq!(
        renderer.clear(),
        vec![
            Command::ClearColor {
                red: 0.0f32.to_bits(),
                green: 0.0f32.to_bits(),
                blue: 0.0f32.to_bits(),
                alpha: 1.0f32.to_bits(),
            },
            Command::Clear { mask: COLOR_BUFFER_BIT },
        ]
    );
}

#[test]
fn clear_any_number_of_times_leaves_opaque_black() {
    let renderer = ready_renderer();
    let black = [0.0f32.to_bits(), 0.0f32.to_bits(), 0.0f32.to_bits(), 1.0f32.to_bits()];
    for times in [1, 2, 5, 40] {
        let mut double = Double::default();
        double.clear_color = bits(&[0.25, 0.5, 0.75, 0.5]).try_into().unwrap();
        for _ in 0..times {
            double.issue(&renderer.clear());
        }
        assert_eq!(double.color_buffer, Some(black));
        assert_eq!(double.clear_color, black);
        assert!(double.draws.is_empty());
    }
}

#[test]
fn set_vertices_binds_the_buffer_then_replaces_its_contents() {
    let renderer = ready_renderer();
    let vertices = bits(&[0.0, 0.0, 0.0, 1.0, 0.0, 0.0, 0.0, 1.0, 0.0]);
    assert_eq!(
        renderer.set_vertices(bits(&[0.0, 0.0, 0.0, 1.0, 0.0, 0.0, 0.0, 1.0, 0.0])),
        Ok(vec![
            Command::BindBuffer { target: ARRAY_BUFFER, buffer: BUFFER },
            Command::BufferData { target: ARRAY_BUFFER, data: vertices, usage: STATIC_DRAW },
        ])
    );
}

#[test]
fn set_vertices_takes_an_empty_upload() {
    let renderer = ready_renderer();
    assert_eq!(
        renderer.set_vertices(Vec::new()),
        Ok(vec![
            Command::BindBuffer { target: ARRAY_BUFFER, buffer: BUFFER },
            Command::BufferData { target: ARRAY_BUFFER, data: Vec::new(), usage: STATIC_DRAW },
        ])
    );
}

#[test]
fn set_vertices_overwrites_the_previous_upload() {
    let renderer = ready_renderer();
    let mut double = Double::default();
    double.issue(&renderer.set_vertices(bits(&[9.0, 9.0, 9.0, 8.0, 8.0, 8.0])).unwrap());
    double.issue(&renderer.set_vertices(bits(&[1.0, 2.0, 3.0])).unwrap());
    assert_eq!(double.store(BUFFER), Some(&bits(&[1.0, 2.0, 3.0])));
}

#[test]
fn render_issues_its_calls_in_the_fixed_order() {
    let renderer = ready_renderer();
    assert_eq!(
        renderer.render(3),
        vec![
            Command::ClearColor { red: ZERO, green: ZERO, blue: ZERO, alpha: ONE },
            Command::Clear { mask: COLOR_BUFFER_BIT },
            Command::UseProgram { program: PROGRAM },
            Command::EnableVertexAttribArray { index: 0 },
            Command::BindBuffer { target: ARRAY_BUFFER, buffer: BUFFER },
            Command::VertexAttribPointer {
                index: 0,
                size: 3,
                kind: FLOAT,
                normalized: false,
                stride: 0,
                offset: 0,
            },
            Command::DrawArrays { mode: TRIANGLES, first: 0, count: 3 },
        ]
    );
}

#[test]
fn one_triangle_is_drawn_once_after_one_clear_and_one_program_bind() {
    let renderer = ready_renderer();
    let mut issued = renderer.set_vertices(bits(&[0.0, 0.0, 0.0, 1.0, 0.0, 0.0, 0.0, 1.0, 0.0])).unwrap();
    issued.extend(renderer.render(3));

    let position = |wanted: fn(&Command) -> bool| -> Vec<usize> {
        issued.iter().enumerate().filter(|(_, command)| wanted(command)).map(|(at, _)| at).collect()
    };
    let clears = position(|command| matches!(command, Command::Clear { .. }));
    let binds = position(|command| matches!(command, Command::UseProgram { .. }));
    let draws = position(|command| matches!(command, Command::DrawArrays { .. }));
    assert_eq!(clears.len(), 1);
    assert_eq!(binds.len(), 1);
    assert_eq!(draws.len(), 1);
    assert!(clears[0] < binds[0] && binds[0] < draws[0]);
    assert_eq!(issued[draws[0]], Command::DrawArrays { mode: TRIANGLES, first: 0, count: 3 });
    assert_eq!(draws[0], issued.len() - 1);
}

#[test]
fn uploaded_vertices_are_the_ones_drawn() {
    let renderer = ready_renderer();
    let uploads: [&[f32]; 3] = [
        &[0.0, 0.0, 0.0, 1.0, 0.0, 0.0, 0.0, 1.0, 0.0],
        &[],
        &[-1.0, -1.0, 0.5, 1.0, -1.0, 0.5, 0.0, 1.0, 0.5, 0.25, 0.5, 0.75, 2.0, 3.0, 4.0, 5.0, 6.0, 7.0],
    ];
    for upload in uploads {
        let mut double = Double::default();
        double.issue(&renderer.set_vertices(bits(upload)).unwrap());
        double.issue(&renderer.render((upload.len() / 3) as i32));
        assert_eq!(
            double.draws,
            vec![Drawn {
                program: Some(PROGRAM),
                mode: TRIANGLES,
                first: 0,
                count: (upload.len() / 3) as i32,
                positions: Some(bits(upload)),
            }]
        );
        assert_eq!((double.clears, double.binds), (1, 1));
    }
}

#[test]
fn render_passes_the_vertex_count_on_unchecked() {
    let renderer = ready_renderer();
    let mut double = Double::default();
    double.issue(&renderer.set_vertices(bits(&[0.0, 0.0, 0.0])).unwrap());
    double.issue(&renderer.render(1000));
    assert_eq!(double.draws[0].count, 1000);
    assert_eq!(double.draws[0].positions, None);
    assert_eq!(
        renderer.render(-1).last(),
        Some(&Command::DrawArrays { mode: TRIANGLES, first: 0, count: -1 })
    );
}

#[test]
fn a_draw_leaves_the_color_buffer_painted_until_the_next_clear() {
    let renderer = ready_renderer();
    let mut double = Double::default();
    double.issue(&renderer.set_vertices(bits(&[0.0, 0.0, 0.0, 1.0, 0.0, 0.0, 0.0, 1.0, 0.0])).unwrap());
    double.issue(&renderer.render(3));
    assert_eq!(double.color_buffer, None);
    double.issue(&renderer.clear());
    assert_eq!(double.color_buffer, Some([ZERO, ZERO, ZERO, ONE]));
}
