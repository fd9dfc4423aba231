//! Feeds positioned text glyphs from a text-layout engine into an OpenGL
//! backend. The modules here hold the adapter's own logic: converting a
//! positioned glyph into an instanced-rendering vertex ([`vertex`]), tracking
//! the shared glyph-atlas texture ([`atlas`]), running the per-frame
//! resize-retry draw protocol ([`frame`]), and assembling a renderer from a
//! configuration ([`builder`]). The GPU and the layout engine themselves are
//! collaborators behind this library's boundary; callers hand their outputs in
//! as plain values.

pub mod atlas;
pub mod builder;
pub mod frame;
pub mod vertex;
