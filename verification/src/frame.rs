//! The frame renderer's draw protocol. Each frame the embedding asks the
//! layout engine to process the queued sections against the current atlas
//! size and hands the engine's answer to [`FrameRenderer::step`], which
//! decides what happens next: reallocate the atlas and retry, abort a stalled
//! retry loop, or finish the frame with exactly one instanced draw call. The
//! renderer keeps the atlas texture and the engine's tracked atlas size in
//! lock step, so that no draw call ever samples a texture of the wrong size.

use crate::atlas::AtlasTexture;
use crate::vertex::RendererVertex;
use vstd::prelude::*;

verus! {

/// The layout engine's answer for one processing attempt.
pub enum BrushEvent {
    /// Fresh vertex data: the vertex buffer must be replaced wholesale.
    Draw(Vec<RendererVertex>),
    /// Nothing changed since the last frame: the previous vertex buffer is
    /// reused unmodified.
    ReDraw,
    /// The atlas is too small for the queued glyphs; the engine suggests
    /// this size.
    TextureTooSmall { width: u32, height: u32 },
}

/// What the embedding must do after one protocol step.
#[derive(Clone, Copy, Debug, PartialEq, Eq, Structural)]
pub enum StepAction {
    /// Reallocate the GPU texture to the given size (the engine's atlas has
    /// already been retargeted to match), then ask the engine again.
    Reallocate { width: u32, height: u32 },
    /// The engine asked for an atlas that does not grow past its previous
    /// request: a stalled retry loop is a fatal configuration error, and
    /// the frame must be aborted rather than retried forever.
    Abort,
    /// The protocol finished: upload the vertex buffer if it was replaced
    /// and issue exactly one instanced draw call with this many instances.
    IssueDraw { instances: usize },
}

/// A new suggestion is acceptable only while it keeps growing: its area must
/// exceed the previously granted suggestion's, if there was one this frame.
pub open spec fn grows(last: Option<(u32, u32)>, width: u32, height: u32) -> bool {
    match last {
        None => true,
        Some(prev) => (width as int) * (height as int) > (prev.0 as int) * (prev.1 as int),
    }
}

/// The frame renderer: owns the atlas texture, the per-frame vertex buffer,
/// and the retry bookkeeping of the draw protocol. `fonts` carries the
/// caller's font values through untouched; the font at index 0 is the
/// default. `cache_width`/`cache_height` mirror the layout engine's tracked
/// atlas dimensions.
pub struct FrameRenderer<F> {
    pub fonts: Vec<F>,
    pub params: crate::builder::DrawParams,
    pub atlas: AtlasTexture,
    pub cache_width: u32,
    pub cache_height: u32,
    pub vertices: Vec<RendererVertex>,
    pub buffer_generation: Ghost<nat>,
    pub has_queued: bool,
    pub last_suggested: Option<(u32, u32)>,
}

impl<F> FrameRenderer<F> {
    /// The atlas texture's dimensions always equal the layout engine's
    /// tracked atlas dimensions: a draw call never samples a stale-sized
    /// texture.
    pub open spec fn wf(self) -> bool {
        &&& self.atlas.wf()
        &&& self.atlas.width == self.cache_width
        &&& self.atlas.height == self.cache_height
    }

    /// Record that a section was queued for the next draw; the section
    /// itself goes to the layout engine.
    pub fn queue(&mut self)
        ensures
            *final(self) == (FrameRenderer { has_queued: true, ..*old(self) }),
    {
        self.has_queued = true;
    }

    /// Add one more font after construction. The returned identifier is the
    /// font's index, matching the identifier the layout engine assigns.
    pub fn add_font(&mut self, font: F) -> (id: usize)
        ensures
            final(self).fonts@ == old(self).fonts@.push(font),
            id == old(self).fonts@.len(),
            *final(self) == (FrameRenderer { fonts: final(self).fonts, ..*old(self) }),
    {
        let id: usize = self.fonts.len();
        self.fonts.push(font);
        id
    }

    /// The fonts available to queued sections, in identifier order.
    pub fn fonts(&self) -> (r: &Vec<F>)
        ensures
            *r == self.fonts,
    {
        &self.fonts
    }

    /// The current vertex buffer, one entry per glyph instance drawn by the
    /// last (or, mid-protocol, the coming) draw call.
    pub fn vertices(&self) -> (r: &Vec<RendererVertex>)
        ensures
            *r == self.vertices,
    {
        &self.vertices
    }

    /// One step of the draw protocol: consume the layout engine's answer
    /// and decide what the embedding does next.
    ///
    /// On `TextureTooSmall` the atlas and the engine's tracked size move to
    /// the suggested size together and the embedding retries — unless the
    /// suggestion has stopped growing, which aborts the frame with the state
    /// unchanged. On `Draw` the vertex buffer is replaced wholesale; on
    /// `ReDraw` it is reused unchanged. Either way the frame ends, the
    /// queued-section mark and the retry bookkeeping are cleared, and the
    /// embedding issues exactly one draw call.
    pub fn step(&mut self, event: BrushEvent) -> (a: StepAction)
        requires
            old(self).wf(),
        ensures
            final(self).wf(),
            final(self).fonts == old(self).fonts,
            final(self).params == old(self).params,
            match event {
                BrushEvent::TextureTooSmall { width, height } => {
                    if grows(old(self).last_suggested, width, height) {
                        &&& a == (StepAction::Reallocate { width, height })
                        &&& final(self).atlas.width == width
                        &&& final(self).atlas.height == height
                        &&& final(self).atlas.texels@ == Map::<(int, int), u8>::empty()
                        &&& final(self).cache_width == width
                        &&& final(self).cache_height == height
                        &&& final(self).vertices == old(self).vertices
                        &&& final(self).buffer_generation == old(self).buffer_generation
                        &&& final(self).has_queued == old(self).has_queued
                        &&& final(self).last_suggested == Some((width, height))
                    } else {
                        &&& a == StepAction::Abort
                        &&& *final(self) == *old(self)
                    }
                },
                BrushEvent::Draw(verts) => {
                    &&& a == (StepAction::IssueDraw { instances: verts.len() })
                    &&& final(self).vertices == verts
                    &&& final(self).buffer_generation@ == old(self).buffer_generation@ + 1
                    &&& final(self).atlas == old(self).atlas
                    &&& final(self).cache_width == old(self).cache_width
                    &&& final(self).cache_height == old(self).cache_height
                    &&& final(self).has_queued == false
                    &&& final(self).last_suggested is None
                },
                BrushEvent::ReDraw => {
                    &&& a == (StepAction::IssueDraw { instances: old(self).vertices.len() })
                    &&& final(self).vertices == old(self).vertices
                    &&& final(self).buffer_generation == old(self).buffer_generation
                    &&& final(self).atlas == old(self).atlas
                    &&& final(self).cache_width == old(self).cache_width
                    &&& final(self).cache_height == old(self).cache_height
                    &&& final(self).has_queued == false
                    &&& final(self).last_suggested is None
                },
            },
    {
        match event {
            BrushEvent::TextureTooSmall { width, height } => {
                let ok: bool = match self.last_suggested {
                    None => true,
                    Some((pw, ph)) => {
                        proof {
                            vstd::arithmetic::mul::lemma_mul_upper_bound(
                                width as int,
                                0xffff_ffff,
                                height as int,
                                0xffff_ffff,
                            );
                            vstd::arithmetic::mul::lemma_mul_upper_bound(
                                pw as int,
                                0xffff_ffff,
                                ph as int,
                                0xffff_ffff,
                            );
                        }
                        (width as u64) * (height as u64) > (pw as u64) * (ph as u64)
                    },
                };
                if ok {
                    self.atlas.reallocate(width, height);
                    self.cache_width = width;
                    self.cache_height = height;
                    self.last_suggested = Some((width, height));
                    StepAction::Reallocate { width, height }
                } else {
                    StepAction::Abort
                }
            },
            BrushEvent::Draw(verts) => {
                let instances: usize = verts.len();
                self.vertices = verts;
                self.buffer_generation = Ghost(self.buffer_generation@ + 1);
                self.has_queued = false;
                self.last_suggested = None;
                StepAction::IssueDraw { instances }
            },
            BrushEvent::ReDraw => {
                self.has_queued = false;
                self.last_suggested = None;
                StepAction::IssueDraw { instances: self.vertices.len() }
            },
        }
    }
}

} // verus!

