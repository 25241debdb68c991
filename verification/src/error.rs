//! What a refused draw call reports.
use vstd::prelude::*;

verus! {

#[derive(Debug)]
pub struct RendererError {
    pub reason: String,
}

impl RendererError {
    pub fn new(reason: String) -> (e: RendererError)
        ensures
            e.reason == reason,
    {
        RendererError { reason }
    }

    /// The reason, as text.
    pub fn message(&self) -> (text: String)
        ensures
            text@ == self.reason@,
    {
        self.reason.clone()
    }
}

/// Why a draw call's buffers cannot be taken as a list of triangles.
#[derive(Debug, Clone, Copy, PartialEq, Eq, Structural)]
pub enum DrawError {
    /// The elements (the indices, or the vertices where there are no
    /// indices) do not come in threes; their count.
    PartialTriangle { count: usize },
    /// Corner `corner` of triangle `triangle` names vertex `index`, which
    /// the vertex buffer does not hold.
    VertexOutOfRange { triangle: usize, corner: usize, index: usize },
}

impl DrawError {
    /// The error in words.
    pub fn to_renderer_error(&self) -> (e: RendererError)
        ensures
            e.reason@ == match self {
                DrawError::PartialTriangle { .. } => "element count is not a multiple of three"@,
                DrawError::VertexOutOfRange { .. } => "index names no vertex"@,
            },
    {
        match self {
            DrawError::PartialTriangle { .. } => RendererError {
                reason: "element count is not a multiple of three".to_owned(),
            },
            DrawError::VertexOutOfRange { .. } => RendererError {
                reason: "index names no vertex".to_owned(),
            },
        }
    }
}

} // verus!
