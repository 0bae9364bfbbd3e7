use graphics_engine::builder::{BackendReply, BuildRequest, BuildState, ProgramBuilder};
use graphics_engine::error::{Error, ShaderStage};
use graphics_engine::program::{
    is_valid_u_location, Binding, LinkReply, Program, ProgramHandle, RawLocations, ShaderHandle,
    ShaderReply, UniformLocations,
};

const ALL: [Binding; 6] = [
    Binding::AVertex,
    Binding::UViewport,
    Binding::UPosition,
    Binding::URotation,
    Binding::UScale,
    Binding::UColor,
];

fn raw() -> RawLocations {
    RawLocations {
        a_vertex: 0,
        u_viewport: Some(4),
        u_position: Some(0),
        u_rotation: Some(1),
        u_scale: Some(2),
        u_color: Some(3),
    }
}

fn compiled(id: u32) -> ShaderReply {
    ShaderReply { shader: Some(ShaderHandle { id }), compiled: true, diagnostic: String::new() }
}

fn linked(id: u32) -> LinkReply {
    LinkReply { program: Some(ProgramHandle { id }), linked: true, diagnostic: String::new() }
}

fn not_found(name: &str) -> Error {
    Error::LocationNotFound { name: name.to_string() }
}

fn program() -> Program {
    Program::init(ProgramHandle { id: 7 }, &raw()).unwrap()
}

#[test]
fn binding_names() {
    let names: Vec<&str> = ALL.iter().map(|b| b.name()).collect();
    assert_eq!(
        names,
        vec!["a_vertex", "u_viewport", "u_position", "u_rotation", "u_scale", "u_color"]
    );
}

#[test]
fn binding_from_name_inverts_name() {
    for b in ALL {
        assert_eq!(Binding::from_name(b.name()), Some(b));
    }
    for name in ["", "a_vertex ", "A_VERTEX", "u_viewport_x_scale", "u_colour", "vertex", "u_"] {
        assert_eq!(Binding::from_name(name), None);
    }
}

#[test]
fn valid_locations_are_not_negative() {
    assert!(is_valid_u_location(0));
    assert!(is_valid_u_location(1));
    assert!(is_valid_u_location(i32::MAX));
    assert!(!is_valid_u_location(-1));
    assert!(!is_valid_u_location(i32::MIN));
}

#[test]
fn compile_shader_takes_a_compiled_shader() {
    assert_eq!(
        Program::compile_shader(ShaderStage::Vertex, compiled(3)),
        Ok(ShaderHandle { id: 3 })
    );
    assert_eq!(
        Program::compile_shader(ShaderStage::Fragment, compiled(0)),
        Ok(ShaderHandle { id: 0 })
    );
}

#[test]
fn compile_shader_fails_on_a_false_status() {
    let reply = ShaderReply {
        shader: Some(ShaderHandle { id: 3 }),
        compiled: false,
        diagnostic: "ERROR: 0:3: syntax error".to_string(),
    };
    assert_eq!(
        Program::compile_shader(ShaderStage::Fragment, reply),
        Err(Error::ShaderCompileError {
            stage: ShaderStage::Fragment,
            diagnostic: "ERROR: 0:3: syntax error".to_string(),
        })
    );
}

#[test]
fn compile_shader_fails_without_a_shader() {
    for status in [false, true] {
        let reply = ShaderReply {
            shader: None,
            compiled: status,
            diagnostic: "Unable to create shader".to_string(),
        };
        assert_eq!(
            Program::compile_shader(ShaderStage::Vertex, reply),
            Err(Error::ShaderCompileError {
                stage: ShaderStage::Vertex,
                diagnostic: "Unable to create shader".to_string(),
            })
        );
    }
}

#[test]
fn init_program_takes_a_linked_program() {
    assert_eq!(Program::init_program(linked(12)), Ok(ProgramHandle { id: 12 }));
}

#[test]
fn init_program_fails_on_a_false_status_or_without_a_program() {
    let unlinked = LinkReply {
        program: Some(ProgramHandle { id: 1 }),
        linked: false,
        diagnostic: "varying mismatch".to_string(),
    };
    assert_eq!(
        Program::init_program(unlinked),
        Err(Error::LinkError { diagnostic: "varying mismatch".to_string() })
    );
    for status in [false, true] {
        let none = LinkReply {
            program: None,
            linked: status,
            diagnostic: "Unable to create program".to_string(),
        };
        assert_eq!(
            Program::init_program(none),
            Err(Error::LinkError { diagnostic: "Unable to create program".to_string() })
        );
    }
}

#[test]
fn retrieve_uniforms_takes_all_five() {
    assert_eq!(
        Program::retrieve_uniforms(&raw()),
        Ok(UniformLocations {
            u_viewport: 4,
            u_position: 0,
            u_rotation: 1,
            u_scale: 2,
            u_color: 3,
        })
    );
}

#[test]
fn retrieve_uniforms_names_the_first_that_is_missing() {
    let mut r = raw();
    r.u_color = None;
    assert_eq!(Program::retrieve_uniforms(&r), Err(not_found("u_color")));
    r.u_scale = Some(-1);
    assert_eq!(Program::retrieve_uniforms(&r), Err(not_found("u_scale")));
    r.u_rotation = None;
    assert_eq!(Program::retrieve_uniforms(&r), Err(not_found("u_rotation")));
    r.u_position = Some(i32::MIN);
    assert_eq!(Program::retrieve_uniforms(&r), Err(not_found("u_position")));
    r.u_viewport = None;
    assert_eq!(Program::retrieve_uniforms(&r), Err(not_found("u_viewport")));
    // The attribute plays no part here.
    let mut r = raw();
    r.a_vertex = -1;
    assert!(Program::retrieve_uniforms(&r).is_ok());
}

#[test]
fn init_makes_the_program_of_valid_locations() {
    assert_eq!(
        Program::init(ProgramHandle { id: 7 }, &raw()),
        Ok(Program {
            program: ProgramHandle { id: 7 },
            uniform_locations: UniformLocations {
                u_viewport: 4,
                u_position: 0,
                u_rotation: 1,
                u_scale: 2,
                u_color: 3,
            },
            a_vertex_location: 0,
        })
    );
}

#[test]
fn init_names_the_attribute_before_the_uniforms() {
    let mut r = raw();
    r.a_vertex = -1;
    assert_eq!(Program::init(ProgramHandle { id: 7 }, &r), Err(not_found("a_vertex")));
    r.u_viewport = None;
    r.u_color = None;
    assert_eq!(Program::init(ProgramHandle { id: 7 }, &r), Err(not_found("a_vertex")));
    r.a_vertex = 5;
    assert_eq!(Program::init(ProgramHandle { id: 7 }, &r), Err(not_found("u_viewport")));
}

#[test]
fn init_fails_for_each_binding_that_is_missing() {
    for b in ALL {
        let mut r = raw();
        match b {
            Binding::AVertex => r.a_vertex = -1,
            Binding::UViewport => r.u_viewport = None,
            Binding::UPosition => r.u_position = None,
            Binding::URotation => r.u_rotation = None,
            Binding::UScale => r.u_scale = None,
            Binding::UColor => r.u_color = None,
        }
        assert_eq!(Program::init(ProgramHandle { id: 1 }, &r), Err(not_found(b.name())));
    }
}

#[test]
fn round_trip_of_the_six_locations() {
    let p = program();
    assert_eq!(p.attribute_location("a_vertex"), Ok(0));
    assert_eq!(p.uniform_location("u_viewport"), Ok(4));
    assert_eq!(p.uniform_location("u_position"), Ok(0));
    assert_eq!(p.uniform_location("u_rotation"), Ok(1));
    assert_eq!(p.uniform_location("u_scale"), Ok(2));
    assert_eq!(p.uniform_location("u_color"), Ok(3));
    // Asking again gives the same.
    for b in ALL {
        assert_eq!(p.location(b), p.location(b));
    }
    assert_eq!(p.location(Binding::AVertex), 0);
    assert_eq!(p.location(Binding::UViewport), 4);
    assert_eq!(p.location(Binding::UColor), 3);
}

#[test]
fn lookups_of_other_names_are_not_found() {
    let p = program();
    assert_eq!(p.attribute_location("u_viewport"), Err(not_found("u_viewport")));
    assert_eq!(p.attribute_location("a_normal"), Err(not_found("a_normal")));
    assert_eq!(p.attribute_location(""), Err(not_found("")));
    assert_eq!(p.uniform_location("a_vertex"), Err(not_found("a_vertex")));
    assert_eq!(p.uniform_location("u_viewport_x_scale"), Err(not_found("u_viewport_x_scale")));
    assert_eq!(p.uniform_location(""), Err(not_found("")));
}

#[test]
fn build_asks_in_order_and_ends_ready() {
    let mut b = ProgramBuilder::new();
    assert_eq!(b.state, BuildState::CompilingVertex);
    assert_eq!(b.request(), Some(BuildRequest::CompileShader { stage: ShaderStage::Vertex }));
    assert_eq!(b.program(), None);

    assert_eq!(b.advance(BackendReply::Shader(compiled(1))), Ok(()));
    assert_eq!(b.request(), Some(BuildRequest::CompileShader { stage: ShaderStage::Fragment }));

    assert_eq!(b.advance(BackendReply::Shader(compiled(2))), Ok(()));
    assert_eq!(
        b.request(),
        Some(BuildRequest::LinkProgram {
            vertex: ShaderHandle { id: 1 },
            fragment: ShaderHandle { id: 2 },
        })
    );

    assert_eq!(b.advance(BackendReply::Link(linked(7))), Ok(()));
    assert_eq!(
        b.request(),
        Some(BuildRequest::LocateBindings { program: ProgramHandle { id: 7 } })
    );
    assert_eq!(b.program(), None);

    assert_eq!(b.advance(BackendReply::Locations(raw())), Ok(()));
    assert_eq!(b.request(), None);
    assert_eq!(b.program(), Some(program()));
    assert_eq!(b.state, BuildState::Ready { program: program() });
}

#[test]
fn build_fails_when_the_vertex_stage_does_not_compile() {
    let mut b = ProgramBuilder::new();
    let reply = ShaderReply {
        shader: Some(ShaderHandle { id: 1 }),
        compiled: false,
        diagnostic: "bad vertex".to_string(),
    };
    assert_eq!(
        b.advance(BackendReply::Shader(reply)),
        Err(Error::ShaderCompileError {
            stage: ShaderStage::Vertex,
            diagnostic: "bad vertex".to_string(),
        })
    );
    assert_eq!(b.state, BuildState::Failed);
    assert_eq!(b.request(), None);
    assert_eq!(b.program(), None);
}

#[test]
fn build_fails_when_the_fragment_stage_does_not_compile() {
    let mut b = ProgramBuilder::new();
    assert_eq!(b.advance(BackendReply::Shader(compiled(1))), Ok(()));
    let reply = ShaderReply { shader: None, compiled: false, diagnostic: "bad fragment".to_string() };
    assert_eq!(
        b.advance(BackendReply::Shader(reply)),
        Err(Error::ShaderCompileError {
            stage: ShaderStage::Fragment,
            diagnostic: "bad fragment".to_string(),
        })
    );
    assert_eq!(b.state, BuildState::Failed);
    assert_eq!(b.request(), None);
}

#[test]
fn build_fails_when_the_program_does_not_link() {
    let mut b = ProgramBuilder::new();
    assert_eq!(b.advance(BackendReply::Shader(compiled(1))), Ok(()));
    assert_eq!(b.advance(BackendReply::Shader(compiled(2))), Ok(()));
    let reply = LinkReply {
        program: Some(ProgramHandle { id: 7 }),
        linked: false,
        diagnostic: "no main".to_string(),
    };
    assert_eq!(
        b.advance(BackendReply::Link(reply)),
        Err(Error::LinkError { diagnostic: "no main".to_string() })
    );
    assert_eq!(b.state, BuildState::Failed);
    assert_eq!(b.program(), None);
}

#[test]
fn build_fails_when_a_binding_is_missing() {
    for b in ALL {
        let mut builder = ProgramBuilder::new();
        assert_eq!(builder.advance(BackendReply::Shader(compiled(1))), Ok(()));
        assert_eq!(builder.advance(BackendReply::Shader(compiled(2))), Ok(()));
        assert_eq!(builder.advance(BackendReply::Link(linked(7))), Ok(()));
        let mut r = raw();
        match b {
            Binding::AVertex => r.a_vertex = -1,
            Binding::UViewport => r.u_viewport = Some(-1),
            Binding::UPosition => r.u_position = None,
            Binding::URotation => r.u_rotation = Some(-7),
            Binding::UScale => r.u_scale = None,
            Binding::UColor => r.u_color = Some(i32::MIN),
        }
        assert_eq!(builder.advance(BackendReply::Locations(r)), Err(not_found(b.name())));
        assert_eq!(builder.state, BuildState::Failed);
        assert_eq!(builder.program(), None);
        assert_eq!(builder.request(), None);
    }
}

#[test]
fn build_fails_on_a_reply_to_another_request() {
    let mut b = ProgramBuilder::new();
    assert_eq!(b.advance(BackendReply::Link(linked(7))), Err(Error::InvalidParameter));
    assert_eq!(b.state, BuildState::Failed);

    let mut b = ProgramBuilder::new();
    assert_eq!(b.advance(BackendReply::Shader(compiled(1))), Ok(()));
    assert_eq!(b.advance(BackendReply::Locations(raw())), Err(Error::InvalidParameter));
    assert_eq!(b.state, BuildState::Failed);

    let mut b = ProgramBuilder::new();
    assert_eq!(b.advance(BackendReply::Shader(compiled(1))), Ok(()));
    assert_eq!(b.advance(BackendReply::Shader(compiled(2))), Ok(()));
    assert_eq!(b.advance(BackendReply::Shader(compiled(3))), Err(Error::InvalidParameter));
    assert_eq!(b.state, BuildState::Failed);

    let mut b = ProgramBuilder::new();
    assert_eq!(b.advance(BackendReply::Shader(compiled(1))), Ok(()));
    assert_eq!(b.advance(BackendReply::Shader(compiled(2))), Ok(()));
    assert_eq!(b.advance(BackendReply::Link(linked(7))), Ok(()));
    assert_eq!(b.advance(BackendReply::Link(linked(8))), Err(Error::InvalidParameter));
    assert_eq!(b.state, BuildState::Failed);
}

#[test]
fn build_that_has_failed_stays_failed() {
    let mut b = ProgramBuilder::new();
    assert_eq!(b.advance(BackendReply::Link(linked(7))), Err(Error::InvalidParameter));
    for reply in [
        BackendReply::Shader(compiled(1)),
        BackendReply::Link(linked(7)),
        BackendReply::Locations(raw()),
    ] {
        assert_eq!(b.advance(reply), Err(Error::InvalidParameter));
        assert_eq!(b.state, BuildState::Failed);
        assert_eq!(b.request(), None);
    }
}

#[test]
fn build_that_is_ready_stays_ready() {
    let mut b = ProgramBuilder::new();
    assert_eq!(b.advance(BackendReply::Shader(compiled(1))), Ok(()));
    assert_eq!(b.advance(BackendReply::Shader(compiled(2))), Ok(()));
    assert_eq!(b.advance(BackendReply::Link(linked(7))), Ok(()));
    assert_eq!(b.advance(BackendReply::Locations(raw())), Ok(()));
    let mut other = raw();
    other.u_color = Some(99);
    for reply in [
        BackendReply::Shader(compiled(1)),
        BackendReply::Link(linked(8)),
        BackendReply::Locations(other),
    ] {
        assert_eq!(b.advance(reply), Err(Error::InvalidParameter));
        assert_eq!(b.program(), Some(program()));
    }
}

#[test]
fn build_by_a_loop_over_a_backend() {
    // A caller's loop: ask, answer, advance, until nothing is asked.
    let mut b = ProgramBuilder::new();
    let mut asked = Vec::new();
    while let Some(request) = b.request() {
        asked.push(request);
        let reply = match request {
            BuildRequest::CompileShader { stage: ShaderStage::Vertex } => {
                BackendReply::Shader(compiled(10))
            }
            BuildRequest::CompileShader { stage: ShaderStage::Fragment } => {
                BackendReply::Shader(compiled(11))
            }
            BuildRequest::LinkProgram { vertex, fragment } => {
                assert_eq!((vertex.id, fragment.id), (10, 11));
                BackendReply::Link(linked(12))
            }
            BuildRequest::LocateBindings { program } => {
                assert_eq!(program.id, 12);
                BackendReply::Locations(raw())
            }
        };
        assert_eq!(b.advance(reply), Ok(()));
    }
    assert_eq!(asked.len(), 4);
    let p = b.program().unwrap();
    assert_eq!(p.program, ProgramHandle { id: 12 });
    for binding in ALL {
        let found = if binding == Binding::AVertex {
            p.attribute_location(binding.name())
        } else {
            p.uniform_location(binding.name())
        };
        assert_eq!(found, Ok(p.location(binding)));
    }
}
