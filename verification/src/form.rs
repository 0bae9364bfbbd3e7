//! A drawable form: one vertex buffer and the values of the uniforms that it
//! is drawn with.
//!
//! A form is unprepared when it is made, with the identity for every
//! transform and zeros for the viewport and the color. [`Form::prepare`]
//! stages the values of a draw and makes the form prepared; [`Form::draw`]
//! plans the commands that a backend carries out, in their order.

use vstd::prelude::*;
use crate::constants::{
    default_matrix4x4, default_vector4, identity_matrix, zero_vector, VERTEX_SIZE,
};
use crate::matrix::{
    rotation, rotation_matrix, scale, scale_matrix, translation, translation_matrix,
};
use crate::error::{Error, ErrorView};
use crate::geometry::VertexBuffer;
use crate::program::{Program, ProgramHandle};
use crate::scalar::Scalar;
use crate::types::{DrawProps, Matrix4x4, Vector4};

verus! {

/// The name that a backend gave to a buffer.
#[derive(Clone, Copy, Debug, PartialEq, Eq, Structural)]
pub struct BufferHandle {
    pub id: u32,
}

/// The two states of a form.
#[derive(Clone, Copy, Debug, PartialEq, Eq, Structural)]
pub enum FormState {
    /// Made and never prepared: the uniforms have their initial values.
    Unprepared,
    /// The uniforms are those of the last `prepare`.
    Prepared,
}

/// The values of the five uniforms.
#[derive(Clone, Copy, Debug, PartialEq, Eq)]
pub struct Uniforms {
    pub viewport: Vector4,
    pub position: Matrix4x4,
    pub rotation: Matrix4x4,
    pub scale: Matrix4x4,
    pub color: Vector4,
}

/// One step of a draw, for a backend to carry out.
#[derive(Clone, Copy, Debug, PartialEq, Eq)]
pub enum DrawCommand {
    /// Make the program the active one.
    UseProgram { program: ProgramHandle },
    /// Enable the array of the vertex attribute at the location.
    EnableVertexAttribArray { location: u32 },
    /// Read the attribute at the location from the bound buffer, `size`
    /// single-precision components for a vertex, tightly packed from the start.
    VertexAttribPointer { location: u32, size: usize },
    /// Bind the buffer as the array buffer.
    BindBuffer { buffer: BufferHandle },
    /// Upload the form's vertex data to the bound buffer: `components`
    /// single-precision numbers from the start of the data, which is all of it.
    BufferData { buffer: BufferHandle, components: usize },
    /// Set the vector uniform at the location.
    Uniform4 { location: u32, vector: Vector4 },
    /// Set the matrix uniform at the location, from the sixteen values as
    /// they are stored.
    UniformMatrix4 { location: u32, matrix: Matrix4x4 },
    /// Draw `count` vertices as a list of triangles, from vertex `first` on.
    DrawTriangles { first: usize, count: usize },
}

/// The uniforms of a form that was never prepared.
pub open spec fn default_uniforms() -> Uniforms {
    Uniforms {
        viewport: zero_vector(),
        position: identity_matrix(),
        rotation: identity_matrix(),
        scale: identity_matrix(),
        color: zero_vector(),
    }
}

/// The uniforms that a viewport and the properties of a draw are staged as:
/// the viewport and the color as they are, the position as a translation, the
/// rotation as its matrix, the scale on the diagonal.
pub open spec fn staged_uniforms(viewport: Vector4, draw_props: DrawProps) -> Uniforms {
    Uniforms {
        viewport,
        position: translation_matrix(draw_props.position),
        rotation: rotation_matrix(draw_props.rotation),
        scale: scale_matrix(draw_props.scale),
        color: draw_props.color,
    }
}

/// What a form is: its uniforms, its buffer and vertex data, the program it
/// draws with, and its state.
pub struct FormView {
    pub uniforms: Uniforms,
    pub vertex_buffer: BufferHandle,
    pub vertex_data: Seq<Scalar>,
    pub program: Program,
    pub state: FormState,
}

impl FormView {
    /// What holds of every form: its vertex data is whole triangles, and
    /// while it is unprepared its uniforms have their initial values.
    pub open spec fn well_formed(self) -> bool {
        &&& self.vertex_data.len() % 12 == 0
        &&& self.state is Unprepared ==> self.uniforms == default_uniforms()
    }

    /// The form as it is made.
    pub open spec fn initial(
        vertex_data: Seq<Scalar>,
        program: Program,
        vertex_buffer: BufferHandle,
    ) -> FormView {
        FormView {
            uniforms: default_uniforms(),
            vertex_buffer,
            vertex_data,
            program,
            state: FormState::Unprepared,
        }
    }

    /// The form after `prepare`: prepared, with the staged uniforms, and the
    /// same in everything else.
    pub open spec fn prepare(self, viewport: Vector4, draw_props: DrawProps) -> FormView {
        FormView {
            uniforms: staged_uniforms(viewport, draw_props),
            state: FormState::Prepared,
            ..self
        }
    }

    /// The number of vertices that a draw issues.
    pub open spec fn vertex_count(self) -> int {
        self.vertex_data.len() as int / 4
    }

    /// The commands of a draw, in their order: the program, the vertex
    /// attribute, the buffer and its data, the five uniforms, and the draw of
    /// all vertices as triangles.
    pub open spec fn draw(self) -> Seq<DrawCommand> {
        let locations = self.program.uniform_locations;
        seq![
            DrawCommand::UseProgram { program: self.program.program },
            DrawCommand::EnableVertexAttribArray { location: self.program.a_vertex_location },
            DrawCommand::VertexAttribPointer {
                location: self.program.a_vertex_location,
                size: VERTEX_SIZE,
            },
            DrawCommand::BindBuffer { buffer: self.vertex_buffer },
            DrawCommand::BufferData {
                buffer: self.vertex_buffer,
                components: self.vertex_data.len() as usize,
            },
            DrawCommand::Uniform4 { location: locations.u_viewport, vector: self.uniforms.viewport },
            DrawCommand::UniformMatrix4 {
                location: locations.u_position,
                matrix: self.uniforms.position,
            },
            DrawCommand::UniformMatrix4 {
                location: locations.u_rotation,
                matrix: self.uniforms.rotation,
            },
            DrawCommand::UniformMatrix4 { location: locations.u_scale, matrix: self.uniforms.scale },
            DrawCommand::Uniform4 { location: locations.u_color, vector: self.uniforms.color },
            DrawCommand::DrawTriangles { first: 0, count: self.vertex_count() as usize },
        ]
    }
}

/// A drawable form.
#[derive(Debug)]
pub struct Form<'a> {
    uniforms: Uniforms,
    vertex_buffer: BufferHandle,
    vertex_data: VertexBuffer,
    program: &'a Program,
    state: FormState,
}

impl<'a> View for Form<'a> {
    type V = FormView;

    closed spec fn view(&self) -> FormView {
        FormView {
            uniforms: self.uniforms,
            vertex_buffer: self.vertex_buffer,
            vertex_data: self.vertex_data@,
            program: *self.program,
            state: self.state,
        }
    }
}

impl<'a> Form<'a> {
    #[verifier::type_invariant]
    spec fn starts_with_defaults(&self) -> bool {
        self.state is Unprepared ==> self.uniforms == default_uniforms()
    }

    /// Makes a form of a copy of the vertex data, for the program, with the
    /// buffer that the backend allocated for it. It fails with
    /// `BufferAllocError` exactly when the backend gave no buffer.
    pub fn init(
        vertex_data: &VertexBuffer,
        program: &'a Program,
        vertex_buffer: Option<BufferHandle>,
    ) -> (r: Result<Form<'a>, Error>)
        ensures
            match r {
                Ok(form) => vertex_buffer matches Some(buffer) && form@ == FormView::initial(
                    vertex_data@,
                    *program,
                    buffer,
                ) && form@.well_formed(),
                Err(e) => vertex_buffer is None && e@ == ErrorView::BufferAllocError,
            },
    {
        proof {
            use_type_invariant(vertex_data);
        }
        match vertex_buffer {
            Some(buffer) => Ok(
                Form {
                    uniforms: Uniforms {
                        viewport: default_vector4(),
                        position: default_matrix4x4(),
                        rotation: default_matrix4x4(),
                        scale: default_matrix4x4(),
                        color: default_vector4(),
                    },
                    vertex_buffer: buffer,
                    vertex_data: vertex_data.duplicate(),
                    program,
                    state: FormState::Unprepared,
                },
            ),
            None => Err(Error::BufferAllocError),
        }
    }

    /// Stages the viewport and the properties of the next draw. The form is
    /// prepared afterwards; its vertex data, buffer and program stay.
    pub fn prepare(&mut self, viewport: Vector4, draw_props: &DrawProps)
        ensures
            final(self)@ == old(self)@.prepare(viewport, *draw_props),
            final(self)@.well_formed(),
    {
        proof {
            use_type_invariant(&self.vertex_data);
        }
        self.state = FormState::Prepared;
        self.uniforms = Uniforms {
            viewport,
            position: translation(draw_props.position),
            rotation: rotation(draw_props.rotation),
            scale: scale(draw_props.scale),
            color: draw_props.color,
        };
    }

    /// Plans a draw with the values that are staged: those of the last
    /// `prepare`, or the initial ones. The form does not change.
    pub fn draw(&self) -> (commands: Vec<DrawCommand>)
        ensures
            commands@ == self@.draw(),
            self@.well_formed(),
    {
        proof {
            use_type_invariant(self);
            use_type_invariant(&self.vertex_data);
        }
        let locations = self.program.uniform_locations;
        let mut commands: Vec<DrawCommand> = Vec::new();
        commands.push(DrawCommand::UseProgram { program: self.program.program });
        commands.push(
            DrawCommand::EnableVertexAttribArray { location: self.program.a_vertex_location },
        );
        commands.push(
            DrawCommand::VertexAttribPointer {
                location: self.program.a_vertex_location,
                size: VERTEX_SIZE,
            },
        );
        commands.push(DrawCommand::BindBuffer { buffer: self.vertex_buffer });
        commands.push(
            DrawCommand::BufferData {
                buffer: self.vertex_buffer,
                components: self.vertex_data.components().len(),
            },
        );
        commands.push(
            DrawCommand::Uniform4 { location: locations.u_viewport, vector: self.uniforms.viewport },
        );
        commands.push(
            DrawCommand::UniformMatrix4 {
                location: locations.u_position,
                matrix: self.uniforms.position,
            },
        );
        commands.push(
            DrawCommand::UniformMatrix4 {
                location: locations.u_rotation,
                matrix: self.uniforms.rotation,
            },
        );
        commands.push(
            DrawCommand::UniformMatrix4 { location: locations.u_scale, matrix: self.uniforms.scale },
        );
        commands.push(
            DrawCommand::Uniform4 { location: locations.u_color, vector: self.uniforms.color },
        );
        commands.push(DrawCommand::DrawTriangles { first: 0, count: self.vertex_data.vertex_count() });
        commands
    }

    /// The values of the uniforms as they are staged.
    pub fn uniforms(&self) -> (r: &Uniforms)
        ensures
            *r == self@.uniforms,
    {
        &self.uniforms
    }

    /// The vertex data, as it was given when the form was made.
    pub fn vertex_data(&self) -> (r: &VertexBuffer)
        ensures
            r@ == self@.vertex_data,
    {
        &self.vertex_data
    }

    /// The buffer that the vertex data is uploaded to.
    pub fn vertex_buffer(&self) -> (r: BufferHandle)
        ensures
            r == self@.vertex_buffer,
    {
        self.vertex_buffer
    }

    /// The program that the form draws with.
    pub fn program(&self) -> (r: &'a Program)
        ensures
            *r == self@.program,
    {
        self.program
    }

    /// The state of the form.
    pub fn state(&self) -> (r: FormState)
        ensures
            r == self@.state,
            self@.well_formed(),
    {
        proof {
            use_type_invariant(self);
            use_type_invariant(&self.vertex_data);
        }
        self.state
    }

    /// Whether `prepare` was called.
    pub fn is_prepared(&self) -> (r: bool)
        ensures
            r == (self@.state is Prepared),
    {
        match self.state {
            FormState::Prepared => true,
            FormState::Unprepared => false,
        }
    }
}

/// Preparing a form twice with the same viewport and properties leaves it as
/// preparing it once does, and what was staged before plays no part: any two
/// forms have the same uniforms after the same `prepare`.
pub proof fn lemma_prepare_idempotent(
    form: FormView,
    other: FormView,
    viewport: Vector4,
    draw_props: DrawProps,
)
    ensures
        form.prepare(viewport, draw_props).prepare(viewport, draw_props) == form.prepare(
            viewport,
            draw_props,
        ),
        form.prepare(viewport, draw_props).uniforms == other.prepare(viewport, draw_props).uniforms,
{
}

} // verus!
