//! Surface materials.
use vstd::prelude::*;
use std::rc::Rc;
use crate::color::Color;

verus! {

/// How a surface is shaded: an albedo colour and the shader program that
/// draws it.
///
/// `S` is the backend's compiled shader program. It is shared by every
/// material that refers to it, never copied and never changed, and lives as
/// long as the last of them.
pub struct Material<S> {
    pub albedo: Color,
    pub shader: Rc<S>,
}

impl<S> Clone for Material<S> {
    /// A second material with the same albedo that shares the shader.
    fn clone(&self) -> (copy: Self)
        ensures
            copy == *self,
    {
        Material { albedo: self.albedo, shader: Rc::clone(&self.shader) }
    }
}

} // verus!
