//! The kinds of GPU pipeline that a primitive can be drawn with.

use vstd::prelude::*;

verus! {

/// Selects the pipeline object, vertex layout and binding layout of a
/// primitive.
#[derive(Debug, Clone, Copy, PartialEq, Eq, Hash, Structural)]
pub enum Pipeline {
    /// Atlas backed glyphs that were rasterized as plain bitmaps.
    PlanarGlyph,
    /// Atlas backed glyphs that were rasterized as signed distance fields.
    SdfGlyph,
    /// Opaque colored quads.
    Quads,
}

impl Pipeline {
    /// Whether batches of this kind carry a binding to an atlas texture in
    /// slot 1, beside the camera uniform in slot 0.
    pub open spec fn spec_uses_atlas(self) -> bool {
        self != Pipeline::Quads
    }

    /// Whether batches of this kind carry a binding to an atlas texture in
    /// slot 1, beside the camera uniform in slot 0.
    #[verifier::when_used_as_spec(spec_uses_atlas)]
    pub fn uses_atlas(self) -> (r: bool)
        ensures
            r == self.spec_uses_atlas(),
    {
        match self {
            Pipeline::PlanarGlyph => true,
            Pipeline::SdfGlyph => true,
            Pipeline::Quads => false,
        }
    }
}

/// The order in which a frame goes through the pipeline kinds.
pub open spec fn pipeline_order() -> Seq<Pipeline> {
    seq![Pipeline::PlanarGlyph, Pipeline::SdfGlyph, Pipeline::Quads]
}

} // verus!
