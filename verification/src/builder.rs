//! Building a program step by step.
//!
//! The builder never touches the backend. Its caller asks it what to do
//! ([`ProgramBuilder::request`]), does that against the backend, and hands the
//! reply back ([`ProgramBuilder::advance`]). The vertex stage is compiled
//! first, then the fragment stage, then the two are linked, then the six
//! bindings are located. The first failure ends the build.

use vstd::prelude::*;
use crate::error::{Error, ErrorView, ShaderStage};
use crate::program::{
    Binding, LinkReply, Program, ProgramHandle, RawLocations, ShaderHandle, ShaderReply,
    link_failure, not_found, shader_failure, lemma_lookup_of_binding,
};

verus! {

/// What the backend is asked to do.
#[derive(Clone, Copy, Debug, PartialEq, Eq, Structural)]
pub enum BuildRequest {
    /// Create a shader of the stage, give it the source of that stage and
    /// compile it.
    CompileShader { stage: ShaderStage },
    /// Create a program, attach the two shaders and link it.
    LinkProgram { vertex: ShaderHandle, fragment: ShaderHandle },
    /// Look up the locations of the six bindings in the program.
    LocateBindings { program: ProgramHandle },
}

/// What the backend reports of a request.
#[derive(Clone, Debug, PartialEq, Eq)]
pub enum BackendReply {
    /// Of compiling a stage.
    Shader(ShaderReply),
    /// Of linking.
    Link(LinkReply),
    /// Of locating the bindings.
    Locations(RawLocations),
}

/// How far a build has come.
#[derive(Clone, Copy, Debug, PartialEq, Eq, Structural)]
pub enum BuildState {
    /// The vertex stage is to be compiled.
    CompilingVertex,
    /// The vertex stage compiled; the fragment stage is to be compiled.
    CompilingFragment { vertex: ShaderHandle },
    /// Both stages compiled; they are to be linked.
    Linking { vertex: ShaderHandle, fragment: ShaderHandle },
    /// The program linked; its bindings are to be located.
    Locating { linked: ProgramHandle },
    /// The program is made.
    Ready { program: Program },
    /// The build has failed, and no program is made.
    Failed,
}

impl BuildState {
    /// Whether the build has ended, well or badly.
    pub open spec fn finished(self) -> bool {
        self is Ready || self is Failed
    }

    /// What to ask of the backend in this state: nothing once the build has
    /// ended.
    pub open spec fn request(self) -> Option<BuildRequest> {
        match self {
            BuildState::CompilingVertex => Some(
                BuildRequest::CompileShader { stage: ShaderStage::Vertex },
            ),
            BuildState::CompilingFragment { .. } => Some(
                BuildRequest::CompileShader { stage: ShaderStage::Fragment },
            ),
            BuildState::Linking { vertex, fragment } => Some(
                BuildRequest::LinkProgram { vertex, fragment },
            ),
            BuildState::Locating { linked } => Some(
                BuildRequest::LocateBindings { program: linked },
            ),
            BuildState::Ready { .. } => None,
            BuildState::Failed => None,
        }
    }

    /// The error that a reply brings in this state, if any. A reply that does
    /// not answer the pending request, or that comes after the end, is an
    /// invalid parameter.
    pub open spec fn failure(self, reply: BackendReply) -> Option<ErrorView> {
        match (self, reply) {
            (BuildState::CompilingVertex, BackendReply::Shader(r)) => shader_failure(
                ShaderStage::Vertex,
                r,
            ),
            (BuildState::CompilingFragment { .. }, BackendReply::Shader(r)) => shader_failure(
                ShaderStage::Fragment,
                r,
            ),
            (BuildState::Linking { .. }, BackendReply::Link(r)) => link_failure(r),
            (BuildState::Locating { .. }, BackendReply::Locations(raw)) => match raw.first_missing() {
                Some(binding) => Some(not_found(binding)),
                None => None,
            },
            _ => Some(ErrorView::InvalidParameter),
        }
    }

    /// The state after a reply. A reply that brings an error fails the build,
    /// except that a program that is ready stays ready.
    pub open spec fn next(self, reply: BackendReply) -> BuildState {
        if self is Ready {
            self
        } else if self.failure(reply) is Some {
            BuildState::Failed
        } else {
            match (self, reply) {
                (BuildState::CompilingVertex, BackendReply::Shader(r)) => BuildState::CompilingFragment {
                    vertex: r.shader.unwrap(),
                },
                (
                    BuildState::CompilingFragment { vertex },
                    BackendReply::Shader(r),
                ) => BuildState::Linking { vertex, fragment: r.shader.unwrap() },
                (BuildState::Linking { .. }, BackendReply::Link(r)) => BuildState::Locating {
                    linked: r.program.unwrap(),
                },
                (BuildState::Locating { linked }, BackendReply::Locations(raw)) => BuildState::Ready {
                    program: raw.program(linked),
                },
                _ => BuildState::Failed,
            }
        }
    }
}

/// A build in progress.
#[derive(Clone, Copy, Debug, PartialEq, Eq, Structural)]
pub struct ProgramBuilder {
    pub state: BuildState,
}

impl ProgramBuilder {
    /// A build that has not asked anything yet.
    pub fn new() -> (r: ProgramBuilder)
        ensures
            r.state == BuildState::CompilingVertex,
    {
        ProgramBuilder { state: BuildState::CompilingVertex }
    }

    /// What to ask of the backend next, or nothing when the build has ended.
    pub fn request(&self) -> (r: Option<BuildRequest>)
        ensures
            r == self.state.request(),
            r is None <==> self.state.finished(),
    {
        match self.state {
            BuildState::CompilingVertex => Some(
                BuildRequest::CompileShader { stage: ShaderStage::Vertex },
            ),
            BuildState::CompilingFragment { .. } => Some(
                BuildRequest::CompileShader { stage: ShaderStage::Fragment },
            ),
            BuildState::Linking { vertex, fragment } => Some(
                BuildRequest::LinkProgram { vertex, fragment },
            ),
            BuildState::Locating { linked } => Some(
                BuildRequest::LocateBindings { program: linked },
            ),
            BuildState::Ready { .. } => None,
            BuildState::Failed => None,
        }
    }

    /// Takes the backend's reply to the pending request and moves on. It
    /// returns the error exactly when the reply brings one; the build has
    /// then failed, unless it was ready before.
    pub fn advance(&mut self, reply: BackendReply) -> (r: Result<(), Error>)
        ensures
            final(self).state == old(self).state.next(reply),
            match r {
                Ok(_) => old(self).state.failure(reply) is None,
                Err(e) => old(self).state.failure(reply) == Some(e@),
            },
    {
        let state = self.state;
        let outcome: Result<BuildState, Error> = match (state, reply) {
            (BuildState::CompilingVertex, BackendReply::Shader(r)) => {
                match Program::compile_shader(ShaderStage::Vertex, r) {
                    Ok(vertex) => Ok(BuildState::CompilingFragment { vertex }),
                    Err(e) => Err(e),
                }
            },
            (BuildState::CompilingFragment { vertex }, BackendReply::Shader(r)) => {
                match Program::compile_shader(ShaderStage::Fragment, r) {
                    Ok(fragment) => Ok(BuildState::Linking { vertex, fragment }),
                    Err(e) => Err(e),
                }
            },
            (BuildState::Linking { .. }, BackendReply::Link(r)) => {
                match Program::init_program(r) {
                    Ok(linked) => Ok(BuildState::Locating { linked }),
                    Err(e) => Err(e),
                }
            },
            (BuildState::Locating { linked }, BackendReply::Locations(raw)) => {
                match Program::init(linked, &raw) {
                    Ok(program) => Ok(BuildState::Ready { program }),
                    Err(e) => Err(e),
                }
            },
            _ => Err(Error::InvalidParameter),
        };
        match outcome {
            Ok(next) => {
                self.state = next;
                Ok(())
            },
            Err(e) => {
                if let BuildState::Ready { .. } = state {
                } else {
                    self.state = BuildState::Failed;
                }
                Err(e)
            },
        }
    }

    /// The program, once the build is ready.
    pub fn program(&self) -> (r: Option<Program>)
        ensures
            match r {
                Some(program) => self.state == (BuildState::Ready { program }),
                None => !(self.state is Ready),
            },
    {
        match self.state {
            BuildState::Ready { program } => Some(program),
            _ => None,
        }
    }
}

/// A build that has ended asks nothing more and stays as it is, whatever is
/// replied; one that has not ended asks something.
pub proof fn lemma_finished_is_final(state: BuildState, reply: BackendReply)
    ensures
        state.finished() <==> state.request() is None,
        state.finished() ==> state.next(reply) == state && state.failure(reply) == Some(
            ErrorView::InvalidParameter,
        ),
{
}

/// The state that a new build reaches over the four replies of a whole run.
pub open spec fn built(
    vertex: ShaderReply,
    fragment: ShaderReply,
    link: LinkReply,
    raw: RawLocations,
) -> BuildState {
    BuildState::CompilingVertex.next(BackendReply::Shader(vertex)).next(
        BackendReply::Shader(fragment),
    ).next(BackendReply::Link(link)).next(BackendReply::Locations(raw))
}

/// A build is all or nothing. It is ready exactly when both stages compiled,
/// the program linked and all six bindings have a valid location; otherwise
/// it has failed. The program of a build that is ready answers for every one
/// of the six bindings, looked up by name, with the location that the backend
/// reported, which is not negative.
pub proof fn lemma_build_round_trip(
    vertex: ShaderReply,
    fragment: ShaderReply,
    link: LinkReply,
    raw: RawLocations,
)
    ensures
        built(vertex, fragment, link, raw) is Ready <==> {
            &&& shader_failure(ShaderStage::Vertex, vertex) is None
            &&& shader_failure(ShaderStage::Fragment, fragment) is None
            &&& link_failure(link) is None
            &&& raw.first_missing() is None
        },
        !(built(vertex, fragment, link, raw) is Ready) ==> built(vertex, fragment, link, raw)
            is Failed,
        built(vertex, fragment, link, raw) matches BuildState::Ready { program } ==> {
            &&& program.program == link.program.unwrap()
            &&& program.attribute_spec(Binding::AVertex.name_spec()) == Some(raw.a_vertex as u32)
            &&& forall|b: Binding| #[trigger]
                b.is_uniform() ==> program.uniform_spec(b.name_spec()) == Some(
                    raw.of(b).unwrap() as u32,
                )
            &&& forall|b: Binding| 0 <= #[trigger] raw.of(b).unwrap() == program.location_spec(b)
        },
{
    if let BuildState::Ready { program } = built(vertex, fragment, link, raw) {
        assert forall|b: Binding| #[trigger] b.is_uniform() implies program.uniform_spec(
            b.name_spec(),
        ) == Some(raw.of(b).unwrap() as u32) by {
            lemma_lookup_of_binding(program, b);
        }
        lemma_lookup_of_binding(program, Binding::AVertex);
    }
}

} // verus!
