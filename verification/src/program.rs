//! The shader program: the names it binds, how it is built from what the
//! rendering backend reports, and the locations it resolved.
//!
//! The backend compiles, links and answers queries; this module decides. A
//! [`ProgramBuilder`] says what to ask of the backend next and takes the reply,
//! until a [`Program`] is ready or the build has failed.

use vstd::prelude::*;
use crate::error::{Error, ErrorView, ShaderStage};

verus! {

/// The name that a backend gave to a compiled shader.
#[derive(Clone, Copy, Debug, PartialEq, Eq, Structural)]
pub struct ShaderHandle {
    pub id: u32,
}

/// The name that a backend gave to a linked program.
#[derive(Clone, Copy, Debug, PartialEq, Eq, Structural)]
pub struct ProgramHandle {
    pub id: u32,
}

/// The inputs that every shader pair declares: one attribute and five
/// uniforms.
#[derive(Clone, Copy, Debug, PartialEq, Eq, Structural)]
pub enum Binding {
    AVertex,
    UViewport,
    UPosition,
    URotation,
    UScale,
    UColor,
}

impl Binding {
    /// The name of the binding in shader text.
    pub open spec fn name_spec(self) -> Seq<char> {
        match self {
            Binding::AVertex => "a_vertex"@,
            Binding::UViewport => "u_viewport"@,
            Binding::UPosition => "u_position"@,
            Binding::URotation => "u_rotation"@,
            Binding::UScale => "u_scale"@,
            Binding::UColor => "u_color"@,
        }
    }

    /// Whether the binding is one of the five uniforms.
    pub open spec fn is_uniform(self) -> bool {
        self != Binding::AVertex
    }

    /// The name of the binding in shader text.
    pub fn name(self) -> (r: &'static str)
        ensures
            r@ == self.name_spec(),
    {
        match self {
            Binding::AVertex => "a_vertex",
            Binding::UViewport => "u_viewport",
            Binding::UPosition => "u_position",
            Binding::URotation => "u_rotation",
            Binding::UScale => "u_scale",
            Binding::UColor => "u_color",
        }
    }

    /// The binding of a name, if it is one of the six.
    pub fn from_name(name: &str) -> (r: Option<Binding>)
        ensures
            match r {
                Some(b) => b.name_spec() == name@,
                None => forall|b: Binding| b.name_spec() != name@,
            },
    {
        if same_text(name, "a_vertex") {
            Some(Binding::AVertex)
        } else if same_text(name, "u_viewport") {
            Some(Binding::UViewport)
        } else if same_text(name, "u_position") {
            Some(Binding::UPosition)
        } else if same_text(name, "u_rotation") {
            Some(Binding::URotation)
        } else if same_text(name, "u_scale") {
            Some(Binding::UScale)
        } else if same_text(name, "u_color") {
            Some(Binding::UColor)
        } else {
            None
        }
    }
}

/// Whether two texts are the same.
fn same_text(a: &str, b: &str) -> (r: bool)
    ensures
        r == (a@ == b@),
{
    a.to_owned() == b.to_owned()
}

/// No two bindings share a name.
pub proof fn lemma_names_distinct(a: Binding, b: Binding)
    requires
        a != b,
    ensures
        a.name_spec() != b.name_spec(),
{
    reveal_strlit("a_vertex");
    reveal_strlit("u_viewport");
    reveal_strlit("u_position");
    reveal_strlit("u_rotation");
    reveal_strlit("u_scale");
    reveal_strlit("u_color");
    let x = a.name_spec();
    let y = b.name_spec();
    if x.len() == y.len() {
        // Names of one length differ in a character.
        assert(x[0] != y[0] || x[2] != y[2]);
    }
}

/// No two bindings share a name, for all pairs at once.
pub proof fn lemma_names_distinct_all()
    ensures
        forall|a: Binding, b: Binding| a != b ==> #[trigger] a.name_spec() != #[trigger] b.name_spec(),
{
    assert forall|a: Binding, b: Binding| a != b implies #[trigger] a.name_spec()
        != #[trigger] b.name_spec() by {
        lemma_names_distinct(a, b);
    }
}

/// What came of creating a shader, giving it its source and compiling it.
#[derive(Clone, Debug, PartialEq, Eq)]
pub struct ShaderReply {
    /// The shader, where the backend could create one.
    pub shader: Option<ShaderHandle>,
    /// The compile status.
    pub compiled: bool,
    /// What the backend had to say about the source.
    pub diagnostic: String,
}

/// What came of creating a program, attaching both shaders and linking it.
#[derive(Clone, Debug, PartialEq, Eq)]
pub struct LinkReply {
    /// The program, where the backend could create one.
    pub program: Option<ProgramHandle>,
    /// The link status.
    pub linked: bool,
    /// What the backend had to say about the link.
    pub diagnostic: String,
}

/// What the backend answered when asked where the six bindings are. An
/// attribute that the program lacks has a negative location; a uniform that
/// it lacks has none, or a negative one.
#[derive(Clone, Copy, Debug, PartialEq, Eq, Structural)]
pub struct RawLocations {
    pub a_vertex: i32,
    pub u_viewport: Option<i32>,
    pub u_position: Option<i32>,
    pub u_rotation: Option<i32>,
    pub u_scale: Option<i32>,
    pub u_color: Option<i32>,
}

/// The locations of the five uniforms.
#[derive(Clone, Copy, Debug, PartialEq, Eq, Structural)]
pub struct UniformLocations {
    pub u_viewport: u32,
    pub u_position: u32,
    pub u_rotation: u32,
    pub u_scale: u32,
    pub u_color: u32,
}

/// A linked program with the locations of its bindings. It is made once and
/// read by every form that draws with it.
#[derive(Clone, Copy, Debug, PartialEq, Eq, Structural)]
pub struct Program {
    pub program: ProgramHandle,
    pub uniform_locations: UniformLocations,
    pub a_vertex_location: u32,
}

/// A location is valid when it is not negative.
pub open spec fn valid_location(v: i32) -> bool {
    v >= 0
}

/// A uniform is found when the backend gave a location for it and the
/// location is valid.
pub open spec fn valid_uniform(v: Option<i32>) -> bool {
    v matches Some(n) && valid_location(n)
}

impl RawLocations {
    /// What the backend answered for one binding.
    pub open spec fn of(self, binding: Binding) -> Option<i32> {
        match binding {
            Binding::AVertex => Some(self.a_vertex),
            Binding::UViewport => self.u_viewport,
            Binding::UPosition => self.u_position,
            Binding::URotation => self.u_rotation,
            Binding::UScale => self.u_scale,
            Binding::UColor => self.u_color,
        }
    }

    /// The first uniform without a valid location, in the order viewport,
    /// position, rotation, scale, color.
    pub open spec fn first_missing_uniform(self) -> Option<Binding> {
        if !valid_uniform(self.u_viewport) {
            Some(Binding::UViewport)
        } else if !valid_uniform(self.u_position) {
            Some(Binding::UPosition)
        } else if !valid_uniform(self.u_rotation) {
            Some(Binding::URotation)
        } else if !valid_uniform(self.u_scale) {
            Some(Binding::UScale)
        } else if !valid_uniform(self.u_color) {
            Some(Binding::UColor)
        } else {
            None
        }
    }

    /// The first binding without a valid location: the attribute before the
    /// uniforms.
    pub open spec fn first_missing(self) -> Option<Binding> {
        if !valid_location(self.a_vertex) {
            Some(Binding::AVertex)
        } else {
            self.first_missing_uniform()
        }
    }

    /// The uniform locations, where all five are valid.
    pub open spec fn uniforms(self) -> UniformLocations
        recommends
            self.first_missing_uniform() is None,
    {
        UniformLocations {
            u_viewport: self.u_viewport.unwrap() as u32,
            u_position: self.u_position.unwrap() as u32,
            u_rotation: self.u_rotation.unwrap() as u32,
            u_scale: self.u_scale.unwrap() as u32,
            u_color: self.u_color.unwrap() as u32,
        }
    }

    /// The program that these locations make of a linked program, where all
    /// six are valid.
    pub open spec fn program(self, handle: ProgramHandle) -> Program
        recommends
            self.first_missing() is None,
    {
        Program {
            program: handle,
            uniform_locations: self.uniforms(),
            a_vertex_location: self.a_vertex as u32,
        }
    }
}

/// The error for a binding that the program lacks.
pub open spec fn not_found(binding: Binding) -> ErrorView {
    ErrorView::LocationNotFound { name: binding.name_spec() }
}

/// Whether a location that the backend gave is valid.
pub fn is_valid_u_location(v: i32) -> (r: bool)
    ensures
        r == valid_location(v),
{
    v >= 0
}

/// The error for a binding that the program lacks.
fn missing(binding: Binding) -> (e: Error)
    ensures
        e@ == not_found(binding),
{
    Error::LocationNotFound { name: binding.name().to_owned() }
}

/// The location of one uniform, or the error that names the uniform.
fn locate_uniform(binding: Binding, v: Option<i32>) -> (r: Result<u32, Error>)
    ensures
        match r {
            Ok(location) => valid_uniform(v) && location == v.unwrap(),
            Err(e) => !valid_uniform(v) && e@ == not_found(binding),
        },
{
    match v {
        Some(n) => {
            if is_valid_u_location(n) {
                Ok(n as u32)
            } else {
                Err(missing(binding))
            }
        },
        None => Err(missing(binding)),
    }
}

/// What a shader reply means for a stage: the shader, where one was created
/// and it compiled.
pub open spec fn shader_failure(stage: ShaderStage, reply: ShaderReply) -> Option<ErrorView> {
    if reply.shader is Some && reply.compiled {
        None
    } else {
        Some(ErrorView::ShaderCompileError { stage, diagnostic: reply.diagnostic@ })
    }
}

/// What a link reply means: the program, where one was created and it
/// linked.
pub open spec fn link_failure(reply: LinkReply) -> Option<ErrorView> {
    if reply.program is Some && reply.linked {
        None
    } else {
        Some(ErrorView::LinkError { diagnostic: reply.diagnostic@ })
    }
}

impl Program {
    /// Takes the shader of a stage from the backend's reply. It fails with
    /// `ShaderCompileError`, which carries the stage and the backend's
    /// diagnostic, exactly when no shader was created or the compile status
    /// is false.
    pub fn compile_shader(stage: ShaderStage, reply: ShaderReply) -> (r: Result<
        ShaderHandle,
        Error,
    >)
        ensures
            match r {
                Ok(shader) => shader_failure(stage, reply) is None && reply.shader == Some(
                    shader,
                ),
                Err(e) => shader_failure(stage, reply) == Some(e@),
            },
    {
        match reply.shader {
            Some(shader) => {
                if reply.compiled {
                    Ok(shader)
                } else {
                    Err(Error::ShaderCompileError { stage, diagnostic: reply.diagnostic })
                }
            },
            None => Err(Error::ShaderCompileError { stage, diagnostic: reply.diagnostic }),
        }
    }

    /// Takes the linked program from the backend's reply. It fails with
    /// `LinkError` exactly when no program was created or the link status is
    /// false.
    pub fn init_program(reply: LinkReply) -> (r: Result<ProgramHandle, Error>)
        ensures
            match r {
                Ok(program) => link_failure(reply) is None && reply.program == Some(program),
                Err(e) => link_failure(reply) == Some(e@),
            },
    {
        match reply.program {
            Some(program) => {
                if reply.linked {
                    Ok(program)
                } else {
                    Err(Error::LinkError { diagnostic: reply.diagnostic })
                }
            },
            None => Err(Error::LinkError { diagnostic: reply.diagnostic }),
        }
    }

    /// Takes the five uniform locations, all or none: it fails with
    /// `LocationNotFound` for the first uniform that has no valid location.
    pub fn retrieve_uniforms(raw: &RawLocations) -> (r: Result<UniformLocations, Error>)
        ensures
            match r {
                Ok(locations) => raw.first_missing_uniform() is None && locations
                    == raw.uniforms(),
                Err(e) => raw.first_missing_uniform() matches Some(b) && e@ == not_found(b),
            },
    {
        let u_viewport = match locate_uniform(Binding::UViewport, raw.u_viewport) {
            Ok(location) => location,
            Err(e) => { return Err(e); },
        };
        let u_position = match locate_uniform(Binding::UPosition, raw.u_position) {
            Ok(location) => location,
            Err(e) => { return Err(e); },
        };
        let u_rotation = match locate_uniform(Binding::URotation, raw.u_rotation) {
            Ok(location) => location,
            Err(e) => { return Err(e); },
        };
        let u_scale = match locate_uniform(Binding::UScale, raw.u_scale) {
            Ok(location) => location,
            Err(e) => { return Err(e); },
        };
        let u_color = match locate_uniform(Binding::UColor, raw.u_color) {
            Ok(location) => location,
            Err(e) => { return Err(e); },
        };
        Ok(UniformLocations { u_viewport, u_position, u_rotation, u_scale, u_color })
    }

    /// Makes the program of a linked program and the locations that the
    /// backend reported for it. It fails with `LocationNotFound` for the
    /// first binding without a valid location, the attribute before the
    /// uniforms, and succeeds when all six are valid.
    pub fn init(program: ProgramHandle, raw: &RawLocations) -> (r: Result<Program, Error>)
        ensures
            match r {
                Ok(p) => raw.first_missing() is None && p == raw.program(program),
                Err(e) => raw.first_missing() matches Some(b) && e@ == not_found(b),
            },
    {
        if !is_valid_u_location(raw.a_vertex) {
            return Err(missing(Binding::AVertex));
        }
        let uniform_locations = match Self::retrieve_uniforms(raw) {
            Ok(locations) => locations,
            Err(e) => { return Err(e); },
        };
        Ok(Program { program, uniform_locations, a_vertex_location: raw.a_vertex as u32 })
    }

    /// The location of a binding.
    pub open spec fn location_spec(self, binding: Binding) -> u32 {
        match binding {
            Binding::AVertex => self.a_vertex_location,
            Binding::UViewport => self.uniform_locations.u_viewport,
            Binding::UPosition => self.uniform_locations.u_position,
            Binding::URotation => self.uniform_locations.u_rotation,
            Binding::UScale => self.uniform_locations.u_scale,
            Binding::UColor => self.uniform_locations.u_color,
        }
    }

    /// The location of the attribute of a name, if the name is that of the
    /// attribute.
    pub open spec fn attribute_spec(self, name: Seq<char>) -> Option<u32> {
        if name == Binding::AVertex.name_spec() {
            Some(self.a_vertex_location)
        } else {
            None
        }
    }

    /// The location of the uniform of a name, if the name is that of one of
    /// the five uniforms.
    pub open spec fn uniform_spec(self, name: Seq<char>) -> Option<u32> {
        if name == Binding::UViewport.name_spec() {
            Some(self.uniform_locations.u_viewport)
        } else if name == Binding::UPosition.name_spec() {
            Some(self.uniform_locations.u_position)
        } else if name == Binding::URotation.name_spec() {
            Some(self.uniform_locations.u_rotation)
        } else if name == Binding::UScale.name_spec() {
            Some(self.uniform_locations.u_scale)
        } else if name == Binding::UColor.name_spec() {
            Some(self.uniform_locations.u_color)
        } else {
            None
        }
    }

    /// The location of a binding.
    pub fn location(&self, binding: Binding) -> (r: u32)
        ensures
            r == self.location_spec(binding),
    {
        match binding {
            Binding::AVertex => self.a_vertex_location,
            Binding::UViewport => self.uniform_locations.u_viewport,
            Binding::UPosition => self.uniform_locations.u_position,
            Binding::URotation => self.uniform_locations.u_rotation,
            Binding::UScale => self.uniform_locations.u_scale,
            Binding::UColor => self.uniform_locations.u_color,
        }
    }

    /// Reads the stored location of the attribute `a_vertex`; every other
    /// name is not found.
    pub fn attribute_location(&self, name: &str) -> (r: Result<u32, Error>)
        ensures
            match r {
                Ok(location) => self.attribute_spec(name@) == Some(location),
                Err(e) => self.attribute_spec(name@) is None && e@
                    == (ErrorView::LocationNotFound { name: name@ }),
            },
    {
        if same_text(name, Binding::AVertex.name()) {
            Ok(self.a_vertex_location)
        } else {
            Err(Error::LocationNotFound { name: name.to_owned() })
        }
    }

    /// Reads the stored location of one of the five uniforms; every other
    /// name is not found.
    pub fn uniform_location(&self, name: &str) -> (r: Result<u32, Error>)
        ensures
            match r {
                Ok(location) => self.uniform_spec(name@) == Some(location),
                Err(e) => self.uniform_spec(name@) is None && e@
                    == (ErrorView::LocationNotFound { name: name@ }),
            },
    {
        match Binding::from_name(name) {
            Some(binding) => {
                proof {
                    lemma_names_distinct_all();
                }
                if let Binding::AVertex = binding {
                    Err(Error::LocationNotFound { name: name.to_owned() })
                } else {
                    Ok(self.location(binding))
                }
            },
            None => Err(Error::LocationNotFound { name: name.to_owned() }),
        }
    }
}

/// Looking a binding up by its name gives the location of the binding: the
/// attribute among the attributes, a uniform among the uniforms, and neither
/// among the others.
pub proof fn lemma_lookup_of_binding(program: Program, binding: Binding)
    ensures
        binding.is_uniform() ==> program.uniform_spec(binding.name_spec()) == Some(
            program.location_spec(binding),
        ) && program.attribute_spec(binding.name_spec()) is None,
        !binding.is_uniform() ==> program.attribute_spec(binding.name_spec()) == Some(
            program.location_spec(binding),
        ) && program.uniform_spec(binding.name_spec()) is None,
{
    lemma_names_distinct_all();
}

} // verus!
