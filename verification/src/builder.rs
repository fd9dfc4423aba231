//! The builder: accumulates the font list, the default render state (alpha
//! blending on), and the optional overrides, then hands a fully formed
//! [`FrameRenderer`](crate::frame::FrameRenderer) over in one terminal step.
//! The GPU-side pieces of construction — shader compilation, the initial
//! texture and buffers — belong to the embedding, which calls
//! [`GlyphBrushBuilder::build`] with the layout engine's initial atlas
//! dimensions once those allocations have succeeded.

use crate::frame::FrameRenderer;
use vstd::prelude::*;

verus! {

/// The render state a draw call runs under. The one piece of it this
/// adapter decides is blending; everything else passes through the
/// embedding untouched.
#[derive(Clone, Copy, Debug, PartialEq, Eq, Structural)]
pub struct DrawParams {
    pub alpha_blending: bool,
}

/// Builder for a frame renderer: the font list (index 0 is the implicit
/// default font), the draw state, and whether the caller overrode the
/// section hasher the layout engine uses for section-identity caching.
pub struct GlyphBrushBuilder<F> {
    pub fonts: Vec<F>,
    pub params: DrawParams,
    pub custom_hasher: bool,
}

impl<F> GlyphBrushBuilder<F> {
    /// Start from a single font, referenced as the default font.
    pub fn using_font(font_0: F) -> (b: Self)
        ensures
            b.fonts@.len() == 1,
            b.fonts@[0] == font_0,
            b.params == (DrawParams { alpha_blending: true }),
            !b.custom_hasher,
    {
        Self::using_fonts(vec![font_0])
    }

    /// Start from a list of fonts, referenced by their index; alpha
    /// blending is the default render state.
    pub fn using_fonts(fonts: Vec<F>) -> (b: Self)
        ensures
            b.fonts == fonts,
            b.params == (DrawParams { alpha_blending: true }),
            !b.custom_hasher,
    {
        GlyphBrushBuilder { fonts, params: DrawParams { alpha_blending: true }, custom_hasher: false }
    }

    /// Record that the caller supplies its own section hasher; the hasher
    /// value itself passes through the embedding to the layout engine
    /// untouched.
    pub fn section_hasher(self) -> (b: Self)
        ensures
            b.fonts == self.fonts,
            b.params == self.params,
            b.custom_hasher,
    {
        GlyphBrushBuilder { custom_hasher: true, ..self }
    }

    /// Override the default draw state.
    pub fn params(self, params: DrawParams) -> (b: Self)
        ensures
            b.fonts == self.fonts,
            b.params == params,
            b.custom_hasher == self.custom_hasher,
    {
        GlyphBrushBuilder { params, ..self }
    }

    /// The terminal operation: consume the builder and produce a renderer
    /// whose atlas matches the layout engine's initial atlas dimensions,
    /// with an empty vertex buffer and a clean protocol state. The
    /// embedding performs the GPU allocations and aborts construction if
    /// any of them fails, before anything reaches this step.
    pub fn build(self, cache_width: u32, cache_height: u32) -> (r: FrameRenderer<F>)
        requires
            self.fonts@.len() >= 1,
        ensures
            r.wf(),
            r.fonts == self.fonts,
            r.params == self.params,
            r.atlas.width == cache_width,
            r.atlas.height == cache_height,
            r.atlas.texels@ == Map::<(int, int), u8>::empty(),
            r.cache_width == cache_width,
            r.cache_height == cache_height,
            r.vertices@.len() == 0,
            r.buffer_generation@ == 0,
            !r.has_queued,
            r.last_suggested is None,
    {
        FrameRenderer {
            fonts: self.fonts,
            params: self.params,
            atlas: crate::atlas::AtlasTexture::new(cache_width, cache_height),
            cache_width,
            cache_height,
            vertices: Vec::new(),
            buffer_generation: Ghost(0),
            has_queued: false,
            last_suggested: None,
        }
    }
}

} // verus!
