//! What one frame clears, draws and presents.
//!
//! The renderer decides; a graphics backend carries out. Each method returns
//! the work that the backend must do on the frame's render target.
use vstd::prelude::*;
use crate::color::Color;
use crate::math::{rows, Matrix4};
use crate::mesh::Mesh;
use crate::scalar::{Scalar, ONE};

verus! {

/// When a fragment replaces the pixel that is already in the target.
#[derive(Clone, Copy, Debug, PartialEq, Eq, Structural)]
pub enum DepthTest {
    /// Never.
    Ignore,
    /// Always.
    Overwrite,
    /// If its depth equals the depth in the target.
    IfEqual,
    /// If its depth differs from the depth in the target.
    IfNotEqual,
    /// If its depth is more than the depth in the target.
    IfMore,
    /// If its depth is more than or equal to the depth in the target.
    IfMoreOrEqual,
    /// If its depth is less than the depth in the target.
    IfLess,
    /// If its depth is less than or equal to the depth in the target.
    IfLessOrEqual,
}

/// How draw submissions treat the depth buffer.
#[derive(Clone, Copy, Debug, PartialEq, Eq, Structural)]
pub struct DrawParameters {
    pub depth_test: DepthTest,
    /// Whether a fragment that passes the test writes its depth.
    pub depth_write: bool,
}

/// The name of the model matrix in the shader source.
pub const UNIFORM_MODEL: &'static str = "model";

/// The name of the view matrix in the shader source.
pub const UNIFORM_VIEW: &'static str = "view";

/// The name of the perspective matrix in the shader source.
pub const UNIFORM_PERSPECTIVE: &'static str = "perspective";

/// The name of the light position in the shader source.
pub const UNIFORM_LIGHT: &'static str = "u_light";

/// The name of the albedo colour in the shader source.
pub const UNIFORM_COLOR: &'static str = "u_color";

/// The values that one draw submission hands to the shader stage. Each
/// field goes to the uniform of the same name.
#[derive(Clone, Copy, Debug)]
pub struct Uniforms {
    pub model: Matrix4,
    pub view: Matrix4,
    pub perspective: Matrix4,
    /// The position of the light in world space.
    pub u_light: [Scalar; 3],
    /// The albedo of the surface: red, green, blue. Alpha is not passed on.
    pub u_color: [Scalar; 3],
}

/// One draw submission: the shared vertex buffer of the mesh with index
/// buffer `surface`, the shader of material `surface`, and these uniforms
/// and parameters.
#[derive(Clone, Copy, Debug)]
pub struct DrawCall {
    pub surface: usize,
    pub uniforms: Uniforms,
    pub params: DrawParameters,
}

/// Clearing the render target: every pixel gets `color` and depth `depth`.
#[derive(Clone, Copy, Debug)]
pub struct ClearCommand {
    pub color: Color,
    pub depth: Scalar,
}

/// The render target of one frame, as far as the renderer keeps track of
/// it: acquired with a fixed size when the frame begins, and released once,
/// by presenting it.
pub struct Frame {
    dimensions: (u32, u32),
    finished: bool,
}

impl Frame {
    /// Width and height of the target, in pixels.
    pub closed spec fn dimensions(&self) -> (u32, u32) {
        self.dimensions
    }

    /// Whether the target has been released.
    pub closed spec fn is_finished(&self) -> bool {
        self.finished
    }

    /// A target of the given width and height that has just been acquired.
    pub fn new(dimensions: (u32, u32)) -> (frame: Frame)
        ensures
            frame.dimensions() == dimensions,
            !frame.is_finished(),
    {
        Frame { dimensions, finished: false }
    }

    /// Width and height of the target, in pixels.
    pub fn get_dimensions(&self) -> (dimensions: (u32, u32))
        ensures
            dimensions == self.dimensions(),
    {
        self.dimensions
    }

    /// Releases the target. Returns whether the backend must present it
    /// now: `true` if it was still held, `false` if it was released before.
    pub fn set_finish(&mut self) -> (present: bool)
        ensures
            present == !old(self).is_finished(),
            final(self).is_finished(),
            final(self).dimensions() == old(self).dimensions(),
    {
        let present = !self.finished;
        self.finished = true;
        present
    }
}

/// The renderer of one frame: camera, light and draw parameters, and the
/// frame's render target.
pub struct Renderer {
    pub camera_position: [Scalar; 3],
    pub light_position: [Scalar; 3],
    pub view_matrix: Matrix4,
    pub perspective_matrix: Matrix4,
    pub params: DrawParameters,
    pub target: Frame,
}

/// How many surfaces of a mesh are drawn: those that have both an index
/// buffer and a material.
pub open spec fn submission_count<S>(mesh: Mesh<S>) -> nat {
    if mesh.materials@.len() < mesh.index_buffers@.len() {
        mesh.materials@.len()
    } else {
        mesh.index_buffers@.len()
    }
}

impl Renderer {
    /// `call` is the submission that draws surface `i` of `mesh`: index
    /// buffer and material `i`, with the model matrix of the mesh's
    /// transform, this renderer's view and perspective matrices, its light
    /// position, the material's albedo without alpha, and its parameters.
    pub open spec fn is_submission<S>(&self, mesh: Mesh<S>, i: int, call: DrawCall) -> bool {
        &&& call.surface == i
        &&& rows(call.uniforms.model) == mesh.transform.matrix_rows()
        &&& call.uniforms.view == self.view_matrix
        &&& call.uniforms.perspective == self.perspective_matrix
        &&& call.uniforms.u_light == self.light_position
        &&& call.uniforms.u_color@ == seq![
            mesh.materials@[i].albedo.r,
            mesh.materials@[i].albedo.g,
            mesh.materials@[i].albedo.b,
        ]
        &&& call.params == self.params
    }

    /// The renderer of a frame whose render target, of the given width and
    /// height, has just been acquired.
    pub fn new(
        dimensions: (u32, u32),
        cp: [Scalar; 3],
        lp: [Scalar; 3],
        v: Matrix4,
        p: Matrix4,
        params: DrawParameters,
    ) -> (renderer: Renderer)
        ensures
            renderer.camera_position == cp,
            renderer.light_position == lp,
            renderer.view_matrix == v,
            renderer.perspective_matrix == p,
            renderer.params == params,
            renderer.target.dimensions() == dimensions,
            !renderer.target.is_finished(),
    {
        Renderer {
            camera_position: cp,
            light_position: lp,
            view_matrix: v,
            perspective_matrix: p,
            params,
            target: Frame::new(dimensions),
        }
    }

    /// Clears colour and depth: the target is filled with `color` and the
    /// depth buffer with one, the far end of the depth range.
    pub fn clear(&self, color: Color) -> (command: ClearCommand)
        ensures
            command.color == color,
            command.depth == ONE,
    {
        ClearCommand { color, depth: ONE }
    }

    /// The draw submissions for `mesh`, in the order in which they are
    /// issued: one per surface, in index-buffer order, for as long as there
    /// are materials. Index buffers beyond the last material are skipped.
    pub fn draw<S>(&self, mesh: &Mesh<S>) -> (calls: Vec<DrawCall>)
        ensures
            calls@.len() == submission_count(*mesh),
            forall|i: int| 0 <= i < calls@.len() ==> self.is_submission(*mesh, i, #[trigger] calls@[i]),
    {
        let mut calls: Vec<DrawCall> = Vec::new();
        let mut surface_i: usize = 0;
        while surface_i < mesh.index_buffers.len() && surface_i < mesh.materials.len()
            invariant
                surface_i <= mesh.index_buffers@.len(),
                surface_i <= mesh.materials@.len(),
                calls@.len() == surface_i,
                forall|i: int|
                    0 <= i < calls@.len() ==> self.is_submission(*mesh, i, #[trigger] calls@[i]),
            decreases mesh.index_buffers@.len() - surface_i,
        {
            let material = &mesh.materials[surface_i];
            calls.push(
                DrawCall {
                    surface: surface_i,
                    uniforms: Uniforms {
                        model: mesh.transform.form_matrix(),
                        view: self.view_matrix,
                        perspective: self.perspective_matrix,
                        u_light: self.light_position,
                        u_color: material.albedo.as_array_rgb(),
                    },
                    params: self.params,
                },
            );
            surface_i += 1;
        }
        calls
    }

    /// Ends the frame. Returns whether the backend must present the render
    /// target now: `true` the first time, `false` on every later call, so
    /// that the target is released once whichever way the frame ends.
    pub fn show(&mut self) -> (present: bool)
        ensures
            present == !old(self).target.is_finished(),
            final(self).target.is_finished(),
            final(self).camera_position == old(self).camera_position,
            final(self).light_position == old(self).light_position,
            final(self).view_matrix == old(self).view_matrix,
            final(self).perspective_matrix == old(self).perspective_matrix,
            final(self).params == old(self).params,
            final(self).target.dimensions() == old(self).target.dimensions(),
    {
        self.target.set_finish()
    }

    /// Width and height of the frame's render target, in pixels.
    pub fn size(&self) -> (dimensions: (u32, u32))
        ensures
            dimensions == self.target.dimensions(),
    {
        self.target.get_dimensions()
    }
}

} // verus!
