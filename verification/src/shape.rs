//! Shapes: a kind of shape, the form that holds its mesh, and where and how
//! the shape is drawn.

use vstd::prelude::*;
use crate::constants::{one, zero, zero_vector, default_vector4, MESH_COMPRESSION_FACTOR_BITS};
use crate::error::{Error, ErrorView};
use crate::form::{BufferHandle, DrawCommand, Form, FormView};
use crate::geometry::{
    copy_components, fan, meshable, polygon_approximating_ellipse, rectangle, rectangle_vertices,
    Outline, VertexBuffer,
};
use crate::program::Program;
use crate::scalar::Scalar;
use crate::types::{DrawProps, Rotation, Vector4, XYTuple};

verus! {

/// The kinds of shape. `G` is the type of a generator, a function that is
/// called once, when the shape is made, for the components of the mesh.
pub enum ShapeType<G> {
    /// The rectangle between the origin and `(width, height)`.
    Rectangle { width: Scalar, height: Scalar },
    /// The ellipse of a radius around the origin, meshed over an outline.
    Ellipse { radius: Scalar },
    /// The components of a mesh, taken as they are.
    Polygon(Vec<Scalar>),
    /// A generator of the components of a mesh.
    Procedural(G),
}

/// The origin of the plane.
pub open spec fn origin() -> XYTuple {
    XYTuple { x: zero(), y: zero() }
}

/// The budget that ellipses are meshed with.
pub open spec fn budget() -> Scalar {
    Scalar { bits: MESH_COMPRESSION_FACTOR_BITS }
}

/// The mesh of components that are given: they are taken as they are. No
/// vertex at all is an empty input; components that are not whole triangles
/// are an invalid parameter.
pub open spec fn mesh_as_given(components: Seq<Scalar>) -> Result<Seq<Scalar>, ErrorView> {
    if components.len() / 4 == 0 {
        Err(ErrorView::EmptyInput)
    } else if components.len() % 12 != 0 {
        Err(ErrorView::InvalidParameter)
    } else {
        Ok(components)
    }
}

impl<G> ShapeType<G> {
    /// The mesh of a shape of this kind. `outline` is read for an ellipse,
    /// which cannot be meshed without one, and `generated`, what the generator
    /// returned, for a procedural shape.
    pub open spec fn mesh(
        self,
        outline: Option<&Outline>,
        generated: Option<Vec<Scalar>>,
    ) -> Result<Seq<Scalar>, ErrorView> {
        match self {
            ShapeType::Rectangle { width, height } => Ok(rectangle(width, height)),
            ShapeType::Ellipse { radius } => match outline {
                Some(sampled) => if meshable(radius, budget(), sampled.steps, sampled.points@) {
                    Ok(fan(origin(), sampled.points@))
                } else {
                    Err(ErrorView::InvalidParameter)
                },
                None => Err(ErrorView::InvalidParameter),
            },
            ShapeType::Polygon(components) => mesh_as_given(components@),
            ShapeType::Procedural(_) => match generated {
                Some(components) => mesh_as_given(components@),
                None => Err(ErrorView::InvalidParameter),
            },
        }
    }
}

impl<G: Fn() -> Vec<Scalar>> ShapeType<G> {
    /// Whether `generated` is what a call of the generator may return: a
    /// result of the generator of a procedural shape, and nothing for the
    /// other kinds, which have no generator.
    pub open spec fn generates(self, generated: Option<Vec<Scalar>>) -> bool {
        match self {
            ShapeType::Procedural(generator) => generated matches Some(components)
                && call_ensures(generator, (), components),
            _ => generated is None,
        }
    }
}

/// What making a shape comes to, given the mesh of its kind and the buffer
/// that the backend allocated: the error of the mesh, else the error of the
/// buffer, else the vertex data and the buffer of the form.
pub open spec fn prototype_of(
    mesh: Result<Seq<Scalar>, ErrorView>,
    vertex_buffer: Option<BufferHandle>,
) -> Result<(Seq<Scalar>, BufferHandle), ErrorView> {
    match mesh {
        Err(e) => Err(e),
        Ok(vertex_data) => match vertex_buffer {
            None => Err(ErrorView::BufferAllocError),
            Some(buffer) => Ok((vertex_data, buffer)),
        },
    }
}

/// What a shape is: its form, its kind, and the position, angle and color
/// that it is drawn with.
pub struct ShapeView<G> {
    pub prototype: FormView,
    pub shape_props: ShapeType<G>,
    pub position: XYTuple,
    pub angle: Rotation,
    pub color: Vector4,
}

impl<G> ShapeView<G> {
    /// The properties that the shape is drawn with: its position, angle and
    /// color, and the scale one, since the mesh has the size of the shape.
    pub open spec fn draw_props(self) -> DrawProps {
        DrawProps {
            position: self.position,
            rotation: self.angle,
            scale: XYTuple { x: one(), y: one() },
            color: self.color,
        }
    }

    /// The shape after `prepare`: its form is prepared with the shape's
    /// properties.
    pub open spec fn prepare(self, viewport: Vector4) -> ShapeView<G> {
        ShapeView { prototype: self.prototype.prepare(viewport, self.draw_props()), ..self }
    }

    /// The shape as it is made: at the origin, not rotated, with the color
    /// zero, and its form unprepared.
    pub open spec fn initial(
        shape_props: ShapeType<G>,
        vertex_data: Seq<Scalar>,
        program: Program,
        vertex_buffer: BufferHandle,
    ) -> ShapeView<G> {
        ShapeView {
            prototype: FormView::initial(vertex_data, program, vertex_buffer),
            shape_props,
            position: origin(),
            angle: Rotation { cos: one(), sin: zero() },
            color: zero_vector(),
        }
    }
}

/// A shape.
pub struct Shape<'a, G> {
    prototype: Form<'a>,
    shape_props: ShapeType<G>,
    position: XYTuple,
    angle: Rotation,
    color: Vector4,
}

impl<'a, G> View for Shape<'a, G> {
    type V = ShapeView<G>;

    closed spec fn view(&self) -> ShapeView<G> {
        ShapeView {
            prototype: self.prototype@,
            shape_props: self.shape_props,
            position: self.position,
            angle: self.angle,
            color: self.color,
        }
    }
}

/// The mesh of components that are given, a copy of them.
fn mesh_of_components(components: &Vec<Scalar>) -> (r: Result<VertexBuffer, Error>)
    ensures
        match r {
            Ok(buffer) => mesh_as_given(components@) == Ok::<Seq<Scalar>, ErrorView>(buffer@),
            Err(e) => mesh_as_given(components@) == Err::<Seq<Scalar>, ErrorView>(e@),
        },
{
    if components.len() / 4 == 0 {
        Err(Error::EmptyInput)
    } else {
        VertexBuffer::from_components(copy_components(components))
    }
}

impl<'a, G: Fn() -> Vec<Scalar>> Shape<'a, G> {
    /// Makes the form of a shape: the mesh of the kind, in a form for the
    /// program with the buffer that the backend allocated. `generated` is what
    /// the generator of a procedural shape returned. It fails with the error
    /// of the mesh, or else with `BufferAllocError` when there is no buffer.
    pub fn init_prototype(
        shape_props: &ShapeType<G>,
        outline: Option<&Outline>,
        generated: Option<Vec<Scalar>>,
        program: &'a Program,
        vertex_buffer: Option<BufferHandle>,
    ) -> (r: Result<Form<'a>, Error>)
        ensures
            match r {
                Ok(form) => prototype_of(shape_props.mesh(outline, generated), vertex_buffer)
                    matches Ok((vertex_data, buffer)) && form@ == FormView::initial(
                    vertex_data,
                    *program,
                    buffer,
                ),
                Err(e) => prototype_of(shape_props.mesh(outline, generated), vertex_buffer)
                    == Err::<(Seq<Scalar>, BufferHandle), ErrorView>(e@),
            },
    {
        let mesh = match shape_props {
            ShapeType::Rectangle { width, height } => Ok(rectangle_vertices(*width, *height)),
            ShapeType::Ellipse { radius } => match outline {
                Some(sampled) => polygon_approximating_ellipse(
                    *radius,
                    Scalar::from_bits(MESH_COMPRESSION_FACTOR_BITS),
                    XYTuple { x: Scalar::zero(), y: Scalar::zero() },
                    sampled,
                ),
                None => Err(Error::InvalidParameter),
            },
            ShapeType::Polygon(components) => mesh_of_components(components),
            ShapeType::Procedural(_) => match &generated {
                Some(components) => mesh_of_components(components),
                None => Err(Error::InvalidParameter),
            },
        };
        match mesh {
            Ok(vertex_data) => Form::init(&vertex_data, program, vertex_buffer),
            Err(e) => Err(e),
        }
    }

    /// Makes a shape of a kind. The generator of a procedural shape is called
    /// once, and what it returns is the mesh; an ellipse is meshed over the
    /// outline; a polygon is taken as it is. The shape starts at the origin,
    /// not rotated, with the color zero. It fails as `init_prototype` does.
    pub fn init(
        shape_props: ShapeType<G>,
        outline: Option<&Outline>,
        program: &'a Program,
        vertex_buffer: Option<BufferHandle>,
    ) -> (r: Result<Shape<'a, G>, Error>)
        requires
            shape_props matches ShapeType::Procedural(generator) ==> call_requires(generator, ()),
        ensures
            exists|generated: Option<Vec<Scalar>>|
                {
                    &&& #[trigger] shape_props.generates(generated)
                    &&& match r {
                        Ok(shape) => prototype_of(
                            shape_props.mesh(outline, generated),
                            vertex_buffer,
                        ) matches Ok((vertex_data, buffer)) && shape@ == ShapeView::initial(
                            shape_props,
                            vertex_data,
                            *program,
                            buffer,
                        ),
                        Err(e) => prototype_of(
                            shape_props.mesh(outline, generated),
                            vertex_buffer,
                        ) == Err::<(Seq<Scalar>, BufferHandle), ErrorView>(e@),
                    }
                },
    {
        let generated = match &shape_props {
            ShapeType::Procedural(generator) => Some(generator()),
            _ => None,
        };
        let ghost witness = generated;
        assert(shape_props.generates(witness));
        match Self::init_prototype(&shape_props, outline, generated, program, vertex_buffer) {
            Ok(prototype) => {
                let shape = Shape {
                    prototype,
                    shape_props,
                    position: XYTuple { x: Scalar::zero(), y: Scalar::zero() },
                    angle: Rotation::none(),
                    color: default_vector4(),
                };
                proof {
                    let made = prototype_of(shape_props.mesh(outline, witness), vertex_buffer);
                    assert(shape@ == ShapeView::initial(
                        shape_props,
                        made->Ok_0.0,
                        *program,
                        made->Ok_0.1,
                    ));
                }
                Ok(shape)
            },
            Err(e) => Err(e),
        }
    }

    /// Stages the shape's position, angle and color, with the scale one, in
    /// its form.
    pub fn prepare(&mut self, viewport: Vector4)
        ensures
            final(self)@ == old(self)@.prepare(viewport),
    {
        let draw_props = DrawProps {
            position: self.position,
            rotation: self.angle,
            scale: XYTuple { x: Scalar::one(), y: Scalar::one() },
            color: self.color,
        };
        self.prototype.prepare(viewport, &draw_props);
    }

    /// Plans a draw of the shape's form.
    pub fn draw(&self) -> (commands: Vec<DrawCommand>)
        ensures
            commands@ == self@.prototype.draw(),
    {
        self.prototype.draw()
    }

    /// Moves the shape. The form is staged anew by the next `prepare`.
    pub fn set_position(&mut self, position: XYTuple)
        ensures
            final(self)@ == (ShapeView { position, ..old(self)@ }),
    {
        self.position = position;
    }

    /// Turns the shape. The form is staged anew by the next `prepare`.
    pub fn set_angle(&mut self, angle: Rotation)
        ensures
            final(self)@ == (ShapeView { angle, ..old(self)@ }),
    {
        self.angle = angle;
    }

    /// Colors the shape. The form is staged anew by the next `prepare`.
    pub fn set_color(&mut self, color: Vector4)
        ensures
            final(self)@ == (ShapeView { color, ..old(self)@ }),
    {
        self.color = color;
    }

    /// Where the shape is.
    pub fn position(&self) -> (r: XYTuple)
        ensures
            r == self@.position,
    {
        self.position
    }

    /// How the shape is turned.
    pub fn angle(&self) -> (r: Rotation)
        ensures
            r == self@.angle,
    {
        self.angle
    }

    /// The color of the shape.
    pub fn color(&self) -> (r: Vector4)
        ensures
            r == self@.color,
    {
        self.color
    }

    /// The form that holds the mesh.
    pub fn prototype(&self) -> (r: &Form<'a>)
        ensures
            r@ == self@.prototype,
    {
        &self.prototype
    }

    /// The kind that the shape was made of.
    pub fn shape_props(&self) -> (r: &ShapeType<G>)
        ensures
            *r == self@.shape_props,
    {
        &self.shape_props
    }
}

} // verus!
