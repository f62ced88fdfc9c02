use vstd::prelude::*;

verus! {

/// Errors surfaced by the renderer.
///
/// Resource-creation failures (`Vertex`, `Index`, `Program`, `Texture`) and
/// draw-submission failures (`Draw`) are reported by the GPU backend; the
/// embedding layer maps the backend's error values onto these variants.
/// `BadTexture` carries the offending identifier: a draw command referenced a
/// non-sentinel texture id that was never registered (or already removed).
#[derive(Clone, Copy, Debug, PartialEq, Eq, Structural)]
pub enum RendererError {
    /// Vertex-buffer creation was rejected, or a vertex byte buffer did not
    /// match the fixed vertex layout.
    Vertex,
    /// Index-buffer creation was rejected.
    Index,
    /// Shader-program creation was rejected.
    Program,
    /// GPU-texture creation was rejected.
    Texture,
    /// The backend rejected a draw call.
    Draw,
    /// A draw command referenced an unregistered, non-sentinel texture id.
    BadTexture(usize),
}

impl RendererError {
    /// A short human-readable description of the error.
    pub fn describe(&self) -> (r: &'static str)
        ensures
            r@ == self.describe_spec(),
    {
        match self {
            RendererError::Vertex => "Vertex buffer creation failed",
            RendererError::Index => "Index buffer creation failed",
            RendererError::Program => "Program creation failed",
            RendererError::Texture => "Texture creation failed",
            RendererError::Draw => "Drawing failed",
            RendererError::BadTexture(_) => "Bad texture ID",
        }
    }

    /// The description returned by [`RendererError::describe`].
    pub open spec fn describe_spec(&self) -> Seq<char> {
        match self {
            RendererError::Vertex => "Vertex buffer creation failed"@,
            RendererError::Index => "Index buffer creation failed"@,
            RendererError::Program => "Program creation failed"@,
            RendererError::Texture => "Texture creation failed"@,
            RendererError::Draw => "Drawing failed"@,
            RendererError::BadTexture(_) => "Bad texture ID"@,
        }
    }
}

} // verus!
