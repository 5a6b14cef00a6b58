//! How a glyph is rasterized, chosen from the regime it is shown in.

use crate::pipeline::Pipeline;
use vstd::prelude::*;

verus! {

/// The regime in which a glyph is currently shown, which follows from the
/// nature of the transform in effect.
#[derive(Debug, Clone, Copy, PartialEq, Eq, Hash, Structural)]
pub enum GlyphClass {
    /// Shown at its native size, aligned to the pixel grid.
    PixelPerfect,
    /// Shown under a uniform scale.
    Zoomed,
    /// Shown under an arbitrary affine transform.
    Distorted,
}

/// The weight that a font is rasterized with where none is asked for.
pub const DEFAULT_WEIGHT: u16 = 400;

/// Parameters handed to the font rasterizer.
#[derive(Debug, Copy, Clone, PartialEq, Eq, Hash, Structural)]
pub struct SwashRasterizationParam {
    pub hinted: bool,
    /// Used with variable fonts only, as the value of their `wght` axis.
    pub weight: u16,
}

/// The rasterization strategy of one glyph.
#[derive(Debug, Copy, Clone, PartialEq, Eq, Hash, Structural)]
pub struct GlyphRasterizationParam {
    /// Prefer a signed distance field, if the glyph is monochrome.
    pub prefer_sdf: bool,
    pub swash: SwashRasterizationParam,
}

/// The font weight that `swash` takes as its default, by
/// `<swash::Weight as Default>::default`. Trusted: the contract claims that
/// this default is the normal weight, 400.
#[verifier::external_body]
fn default_weight() -> (w: u16)
    ensures
        w == DEFAULT_WEIGHT,
{
    swash::Weight::default().0
}

impl GlyphRasterizationParam {
    /// The strategy for a class of glyph: a distance field exactly for
    /// distorted glyphs, hinting and the default weight for every class.
    pub open spec fn select(class: GlyphClass) -> GlyphRasterizationParam {
        GlyphRasterizationParam {
            prefer_sdf: class == GlyphClass::Distorted,
            swash: SwashRasterizationParam { hinted: true, weight: DEFAULT_WEIGHT },
        }
    }

    /// The pipeline kind that draws glyphs rasterized with these parameters.
    pub open spec fn spec_pipeline(&self) -> Pipeline {
        if self.prefer_sdf {
            Pipeline::SdfGlyph
        } else {
            Pipeline::PlanarGlyph
        }
    }

    /// The pipeline kind that draws glyphs rasterized with these parameters.
    #[verifier::when_used_as_spec(spec_pipeline)]
    pub fn pipeline(&self) -> (r: Pipeline)
        ensures
            r == self.spec_pipeline(),
    {
        if self.prefer_sdf {
            Pipeline::SdfGlyph
        } else {
            Pipeline::PlanarGlyph
        }
    }
}

impl From<GlyphClass> for GlyphRasterizationParam {
    fn from(class: GlyphClass) -> (r: Self) {
        match class {
            GlyphClass::Zoomed | GlyphClass::PixelPerfect => GlyphRasterizationParam {
                swash: SwashRasterizationParam { hinted: true, weight: default_weight() },
                prefer_sdf: false,
            },
            GlyphClass::Distorted => GlyphRasterizationParam {
                swash: SwashRasterizationParam { hinted: true, weight: default_weight() },
                prefer_sdf: true,
            },
        }
    }
}

impl vstd::std_specs::convert::FromSpecImpl<GlyphClass> for GlyphRasterizationParam {
    open spec fn obeys_from_spec() -> bool {
        true
    }

    open spec fn from_spec(class: GlyphClass) -> Self {
        GlyphRasterizationParam::select(class)
    }
}

/// The selection is total and only distorted glyphs go through the distance
/// field pipeline: pixel perfect and zoomed glyphs are hinted bitmaps, a
/// distorted glyph is a hinted distance field.
pub proof fn lemma_selection_total(class: GlyphClass)
    ensures
        GlyphRasterizationParam::select(class).swash.hinted,
        GlyphRasterizationParam::select(class).swash.weight == DEFAULT_WEIGHT,
        class == GlyphClass::PixelPerfect || class == GlyphClass::Zoomed ==> {
            &&& !GlyphRasterizationParam::select(class).prefer_sdf
            &&& GlyphRasterizationParam::select(class).spec_pipeline() == Pipeline::PlanarGlyph
        },
        class == GlyphClass::Distorted ==> {
            &&& GlyphRasterizationParam::select(class).prefer_sdf
            &&& GlyphRasterizationParam::select(class).spec_pipeline() == Pipeline::SdfGlyph
        },
        class == GlyphClass::PixelPerfect || class == GlyphClass::Zoomed || class
            == GlyphClass::Distorted,
{
}

} // verus!
