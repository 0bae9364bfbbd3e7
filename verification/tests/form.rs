use graphics_engine::constants::{default_matrix4x4, default_vector4};
use graphics_engine::error::Error;
use graphics_engine::form::{BufferHandle, DrawCommand, Form, FormState, Uniforms};
use graphics_engine::geometry::{rectangle_vertices, VertexBuffer};
use graphics_engine::program::{Program, ProgramHandle, UniformLocations};
use graphics_engine::scalar::Scalar;
use graphics_engine::types::{DrawProps, Matrix4x4, Rotation, Vector4, XYTuple};

fn s(x: f32) -> Scalar {
    Scalar::from_bits(x.to_bits())
}

fn v4(values: [f32; 4]) -> Vector4 {
    [s(values[0]), s(values[1]), s(values[2]), s(values[3])]
}

fn floats(values: &[Scalar]) -> Vec<f32> {
    values.iter().map(|x| f32::from_bits(x.to_bits())).collect()
}

fn column(m: &Matrix4x4, col: usize) -> Vec<f32> {
    (0..4).map(|row| f32::from_bits(m[4 * row + col].to_bits())).collect()
}

fn diagonal(m: &Matrix4x4) -> Vec<f32> {
    (0..4).map(|i| f32::from_bits(m[5 * i].to_bits())).collect()
}

fn program() -> Program {
    Program {
        program: ProgramHandle { id: 7 },
        uniform_locations: UniformLocations {
            u_viewport: 10,
            u_position: 11,
            u_rotation: 12,
            u_scale: 13,
            u_color: 14,
        },
        a_vertex_location: 3,
    }
}

fn props(position: (f32, f32), angle: f32, scale: (f32, f32), color: [f32; 4]) -> DrawProps {
    DrawProps {
        position: XYTuple { x: s(position.0), y: s(position.1) },
        rotation: Rotation { cos: s(angle.cos()), sin: s(angle.sin()) },
        scale: XYTuple { x: s(scale.0), y: s(scale.1) },
        color: v4(color),
    }
}

fn triangle() -> VertexBuffer {
    let data: [f32; 12] = [0.0, 0.0, 1.0, 1.0, 200.0, 0.0, 1.0, 1.0, 200.0, 200.0, 1.0, 1.0];
    VertexBuffer::from_components(data.iter().map(|x| s(*x)).collect()).unwrap()
}

#[test]
fn init_fails_without_a_buffer() {
    let p = program();
    let r = Form::init(&triangle(), &p, None);
    assert_eq!(r.err(), Some(Error::BufferAllocError));
}

#[test]
fn init_starts_unprepared_with_default_uniforms() {
    let p = program();
    let data = triangle();
    let form = Form::init(&data, &p, Some(BufferHandle { id: 5 })).unwrap();
    assert!(!form.is_prepared());
    assert_eq!(form.state(), FormState::Unprepared);
    assert_eq!(form.vertex_buffer(), BufferHandle { id: 5 });
    assert_eq!(form.program(), &p);
    assert_eq!(form.vertex_data(), &data);
    assert_eq!(
        form.uniforms(),
        &Uniforms {
            viewport: default_vector4(),
            position: default_matrix4x4(),
            rotation: default_matrix4x4(),
            scale: default_matrix4x4(),
            color: default_vector4(),
        }
    );
}

#[test]
fn init_stores_a_copy_of_the_vertex_data() {
    let p = program();
    let data = rectangle_vertices(s(2.0), s(3.0));
    let form = Form::init(&data, &p, Some(BufferHandle { id: 0 })).unwrap();
    drop(data);
    assert_eq!(form.vertex_data(), &rectangle_vertices(s(2.0), s(3.0)));
}

#[test]
fn prepare_stages_the_scenario_without_rotation() {
    let p = program();
    let mut form = Form::init(&triangle(), &p, Some(BufferHandle { id: 5 })).unwrap();
    let draw_props = props((200.0, 200.0), 0.0, (200.0, 200.0), [0.7, 0.33, 0.1, 1.0]);
    form.prepare(v4([800.0, 800.0, 1.0, 1.0]), &draw_props);
    assert!(form.is_prepared());
    assert_eq!(form.state(), FormState::Prepared);
    let u = *form.uniforms();
    assert_eq!(floats(&u.viewport), vec![800.0, 800.0, 1.0, 1.0]);
    assert_eq!(column(&u.position, 3), vec![200.0, 200.0, 0.0, 1.0]);
    assert_eq!(
        floats(&u.position),
        vec![
            1.0, 0.0, 0.0, 200.0, //
            0.0, 1.0, 0.0, 200.0, //
            0.0, 0.0, 1.0, 0.0, //
            0.0, 0.0, 0.0, 1.0,
        ]
    );
    assert_eq!(diagonal(&u.scale), vec![200.0, 200.0, 1.0, 1.0]);
    assert_eq!(
        floats(&u.scale),
        vec![
            200.0, 0.0, 0.0, 0.0, //
            0.0, 200.0, 0.0, 0.0, //
            0.0, 0.0, 1.0, 0.0, //
            0.0, 0.0, 0.0, 1.0,
        ]
    );
    assert_eq!(floats(&u.rotation), floats(&default_matrix4x4()));
    assert_eq!(floats(&u.color), vec![0.7, 0.33, 0.1, 1.0]);

    // The draw that follows uploads what was staged.
    let commands = form.draw();
    assert_eq!(commands[6], DrawCommand::UniformMatrix4 { location: 11, matrix: u.position });
    assert_eq!(commands[7], DrawCommand::UniformMatrix4 { location: 12, matrix: u.rotation });
    assert_eq!(commands[8], DrawCommand::UniformMatrix4 { location: 13, matrix: u.scale });
}

#[test]
fn prepare_stages_a_rotation_by_a_quarter_of_pi() {
    let p = program();
    let mut form = Form::init(&triangle(), &p, Some(BufferHandle { id: 5 })).unwrap();
    let angle = std::f32::consts::PI / 4.0;
    let draw_props = props((400.0, 400.0), angle, (200.0, 100.0), [0.0, 0.33, 0.1, 1.0]);
    form.prepare(v4([800.0, 800.0, 1.0, 1.0]), &draw_props);
    let r = floats(&form.uniforms().rotation);
    let h = std::f32::consts::FRAC_1_SQRT_2;
    assert!((r[0] - h).abs() < 1.0e-6);
    assert!((r[5] - h).abs() < 1.0e-6);
    assert!((r[1] + h).abs() < 1.0e-6);
    assert!((r[4] - h).abs() < 1.0e-6);
    assert_eq!(r[0], angle.cos());
    assert_eq!(r[1], -angle.sin());
    assert_eq!(r[4], angle.sin());
    assert_eq!(r[5], angle.cos());
    assert!(r[1] < 0.0 && r[4] > 0.0);
    assert_eq!(&r[2..4], &[0.0, 0.0]);
    assert_eq!(&r[6..], &[0.0, 0.0, 0.0, 0.0, 1.0, 0.0, 0.0, 0.0, 0.0, 1.0]);
    assert_eq!(diagonal(&form.uniforms().scale), vec![200.0, 100.0, 1.0, 1.0]);
}

#[test]
fn prepare_twice_gives_the_same_bits() {
    let p = program();
    let mut form = Form::init(&triangle(), &p, Some(BufferHandle { id: 5 })).unwrap();
    let draw_props = props((12.5, -3.0), 1.25, (2.0, 0.5), [0.7, 0.33, 0.1, 1.0]);
    let viewport = v4([800.0, 400.0, 1.0, 1.0]);
    form.prepare(viewport, &draw_props);
    let once = *form.uniforms();
    let drawn = form.draw();
    form.prepare(viewport, &draw_props);
    assert_eq!(*form.uniforms(), once);
    assert_eq!(form.draw(), drawn);

    // What was staged before plays no part.
    let mut other = Form::init(&triangle(), &p, Some(BufferHandle { id: 5 })).unwrap();
    other.prepare(v4([1.0, 2.0, 3.0, 4.0]), &props((1.0, 1.0), 3.0, (9.0, 9.0), [1.0; 4]));
    other.prepare(viewport, &draw_props);
    assert_eq!(*other.uniforms(), once);
}

#[test]
fn prepare_keeps_data_buffer_and_program() {
    let p = program();
    let data = triangle();
    let mut form = Form::init(&data, &p, Some(BufferHandle { id: 5 })).unwrap();
    form.prepare(v4([800.0, 800.0, 1.0, 1.0]), &props((1.0, 2.0), 0.5, (3.0, 4.0), [0.5; 4]));
    assert_eq!(form.vertex_data(), &data);
    assert_eq!(form.vertex_buffer(), BufferHandle { id: 5 });
    assert_eq!(form.program(), &p);
}

#[test]
fn draw_plans_the_commands_in_order() {
    let p = program();
    let mut form = Form::init(&rectangle_vertices(s(2.0), s(3.0)), &p, Some(BufferHandle { id: 5 }))
        .unwrap();
    let draw_props = props((200.0, 100.0), 0.0, (2.0, 4.0), [0.7, 0.33, 0.1, 1.0]);
    let viewport = v4([800.0, 400.0, 1.0, 1.0]);
    form.prepare(viewport, &draw_props);
    let u = *form.uniforms();
    assert_eq!(
        form.draw(),
        vec![
            DrawCommand::UseProgram { program: ProgramHandle { id: 7 } },
            DrawCommand::EnableVertexAttribArray { location: 3 },
            DrawCommand::VertexAttribPointer { location: 3, size: 4 },
            DrawCommand::BindBuffer { buffer: BufferHandle { id: 5 } },
            DrawCommand::BufferData { buffer: BufferHandle { id: 5 }, components: 24 },
            DrawCommand::Uniform4 { location: 10, vector: viewport },
            DrawCommand::UniformMatrix4 { location: 11, matrix: u.position },
            DrawCommand::UniformMatrix4 { location: 12, matrix: u.rotation },
            DrawCommand::UniformMatrix4 { location: 13, matrix: u.scale },
            DrawCommand::Uniform4 { location: 14, vector: draw_props.color },
            DrawCommand::DrawTriangles { first: 0, count: 6 },
        ]
    );
}

#[test]
fn draw_of_an_unprepared_form_uses_the_defaults() {
    let p = program();
    let form = Form::init(&triangle(), &p, Some(BufferHandle { id: 1 })).unwrap();
    let commands = form.draw();
    assert_eq!(commands.len(), 11);
    assert_eq!(commands[5], DrawCommand::Uniform4 { location: 10, vector: default_vector4() });
    for i in 6..9 {
        match commands[i] {
            DrawCommand::UniformMatrix4 { matrix, .. } => assert_eq!(matrix, default_matrix4x4()),
            _ => panic!("a matrix is set here"),
        }
    }
    assert_eq!(commands[9], DrawCommand::Uniform4 { location: 14, vector: default_vector4() });
    assert_eq!(commands[10], DrawCommand::DrawTriangles { first: 0, count: 3 });
    assert!(!form.is_prepared());
}

#[test]
fn draw_counts_a_vertex_for_every_four_components() {
    let p = program();
    for triangles in [0usize, 1, 2, 785] {
        let data = VertexBuffer::from_components(vec![s(1.0); 12 * triangles]).unwrap();
        let form = Form::init(&data, &p, Some(BufferHandle { id: 1 })).unwrap();
        let commands = form.draw();
        assert_eq!(
            commands[4],
            DrawCommand::BufferData { buffer: BufferHandle { id: 1 }, components: 12 * triangles }
        );
        assert_eq!(commands[10], DrawCommand::DrawTriangles { first: 0, count: 3 * triangles });
    }
}

#[test]
fn draw_does_not_change_the_form() {
    let p = program();
    let mut form = Form::init(&triangle(), &p, Some(BufferHandle { id: 1 })).unwrap();
    form.prepare(v4([8.0, 4.0, 1.0, 1.0]), &props((1.0, 2.0), 0.5, (3.0, 4.0), [0.5; 4]));
    let before = *form.uniforms();
    let first = form.draw();
    let second = form.draw();
    assert_eq!(first, second);
    assert_eq!(*form.uniforms(), before);
    assert!(form.is_prepared());
}
