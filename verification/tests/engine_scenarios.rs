//! Scenarios driven through the real text-layout engine: a minimal TrueType
//! font is assembled in memory (every printable ASCII character renders as a
//! filled box), the engine lays text out and rasterizes it, and the
//! library's adapter and draw protocol consume the engine's real output.

use glium_glyph::frame::{BrushEvent, FrameRenderer, StepAction};
use glium_glyph::vertex::{self, RendererVertex, COORD_LIMIT};
use glyph_brush::ab_glyph::FontVec;
use glyph_brush::{BrushAction, BrushError, Extra, Section, Text};

fn push_u16(out: &mut Vec<u8>, v: u16) {
    out.extend_from_slice(&v.to_be_bytes());
}

fn push_i16(out: &mut Vec<u8>, v: i16) {
    out.extend_from_slice(&v.to_be_bytes());
}

fn push_u32(out: &mut Vec<u8>, v: u32) {
    out.extend_from_slice(&v.to_be_bytes());
}

/// One simple glyph: a single square contour, 1000 units per em.
fn square_glyph() -> Vec<u8> {
    let mut g = Vec::new();
    push_i16(&mut g, 1); // one contour
    push_i16(&mut g, 50); // xMin
    push_i16(&mut g, 0); // yMin
    push_i16(&mut g, 550); // xMax
    push_i16(&mut g, 700); // yMax
    push_u16(&mut g, 3); // last point index of the contour
    push_u16(&mut g, 0); // no instructions
    for _ in 0..4 {
        g.push(0x01); // on-curve point, 16-bit deltas
    }
    for dx in [50i16, 500, 0, -500] {
        push_i16(&mut g, dx);
    }
    for dy in [0i16, 0, 700, 0] {
        push_i16(&mut g, dy);
    }
    g
}

/// Build a minimal TrueType font mapping ' '..='~' to glyphs 1..=95:
/// the space glyph is empty, every other character is a filled square.
fn build_test_font() -> Vec<u8> {
    let num_glyphs: u16 = 96;

    // glyf and loca (short format: byte offset / 2).
    let mut glyf: Vec<u8> = Vec::new();
    let mut loca_words: Vec<u16> = vec![0, 0, 0]; // .notdef and space are empty
    let square = square_glyph();
    for _gid in 2..num_glyphs {
        glyf.extend_from_slice(&square);
        loca_words.push((glyf.len() / 2) as u16);
    }
    let mut loca: Vec<u8> = Vec::new();
    for w in &loca_words {
        push_u16(&mut loca, *w);
    }

    let mut head: Vec<u8> = Vec::new();
    push_u32(&mut head, 0x0001_0000); // version
    push_u32(&mut head, 0x0001_0000); // font revision
    push_u32(&mut head, 0); // checksum adjustment
    push_u32(&mut head, 0x5F0F_3CF5); // magic
    push_u16(&mut head, 0); // flags
    push_u16(&mut head, 1000); // units per em
    push_u32(&mut head, 0); // created (high)
    push_u32(&mut head, 0); // created (low)
    push_u32(&mut head, 0); // modified (high)
    push_u32(&mut head, 0); // modified (low)
    push_i16(&mut head, 0); // xMin
    push_i16(&mut head, -200); // yMin
    push_i16(&mut head, 600); // xMax
    push_i16(&mut head, 800); // yMax
    push_u16(&mut head, 0); // mac style
    push_u16(&mut head, 8); // lowest rec ppem
    push_i16(&mut head, 2); // font direction hint
    push_i16(&mut head, 0); // short loca format
    push_i16(&mut head, 0); // glyph data format

    let mut hhea: Vec<u8> = Vec::new();
    push_u32(&mut hhea, 0x0001_0000);
    push_i16(&mut hhea, 800); // ascender
    push_i16(&mut hhea, -200); // descender
    push_i16(&mut hhea, 0); // line gap
    push_u16(&mut hhea, 600); // max advance width
    push_i16(&mut hhea, 0); // min left side bearing
    push_i16(&mut hhea, 50); // min right side bearing
    push_i16(&mut hhea, 550); // max x extent
    push_i16(&mut hhea, 1); // caret slope rise
    push_i16(&mut hhea, 0); // caret slope run
    push_i16(&mut hhea, 0); // caret offset
    for _ in 0..4 {
        push_i16(&mut hhea, 0); // reserved
    }
    push_i16(&mut hhea, 0); // metric data format
    push_u16(&mut hhea, num_glyphs); // number of h-metrics

    let mut maxp: Vec<u8> = Vec::new();
    push_u32(&mut maxp, 0x0001_0000);
    push_u16(&mut maxp, num_glyphs);
    push_u16(&mut maxp, 4); // max points
    push_u16(&mut maxp, 1); // max contours
    for _ in 0..11 {
        push_u16(&mut maxp, 0);
    }
    // zones field sits among the zeros above; the parser does not mind

    let mut hmtx: Vec<u8> = Vec::new();
    for _ in 0..num_glyphs {
        push_u16(&mut hmtx, 600); // advance width
        push_i16(&mut hmtx, 50); // left side bearing
    }

    let mut cmap: Vec<u8> = Vec::new();
    push_u16(&mut cmap, 0); // table version
    push_u16(&mut cmap, 1); // one encoding record
    push_u16(&mut cmap, 3); // platform: windows
    push_u16(&mut cmap, 1); // encoding: unicode bmp
    push_u32(&mut cmap, 12); // subtable offset
    push_u16(&mut cmap, 4); // format 4
    push_u16(&mut cmap, 32); // subtable length
    push_u16(&mut cmap, 0); // language
    push_u16(&mut cmap, 4); // segCount * 2
    push_u16(&mut cmap, 4); // search range
    push_u16(&mut cmap, 1); // entry selector
    push_u16(&mut cmap, 0); // range shift
    push_u16(&mut cmap, 0x007E); // end codes
    push_u16(&mut cmap, 0xFFFF);
    push_u16(&mut cmap, 0); // reserved pad
    push_u16(&mut cmap, 0x0020); // start codes
    push_u16(&mut cmap, 0xFFFF);
    push_u16(&mut cmap, 0xFFE1); // id delta: ' ' -> glyph 1
    push_u16(&mut cmap, 0x0001);
    push_u16(&mut cmap, 0); // id range offsets
    push_u16(&mut cmap, 0);

    // Assemble the font: header, table records sorted by tag, table data.
    let tables: [(&[u8; 4], &Vec<u8>); 7] = [
        (b"cmap", &cmap),
        (b"glyf", &glyf),
        (b"head", &head),
        (b"hhea", &hhea),
        (b"hmtx", &hmtx),
        (b"loca", &loca),
        (b"maxp", &maxp),
    ];
    let mut font: Vec<u8> = Vec::new();
    push_u32(&mut font, 0x0001_0000); // sfnt version
    push_u16(&mut font, 7); // table count
    push_u16(&mut font, 64); // search range
    push_u16(&mut font, 2); // entry selector
    push_u16(&mut font, 48); // range shift
    let mut offset: u32 = 12 + 7 * 16;
    for (tag, data) in &tables {
        font.extend_from_slice(*tag);
        push_u32(&mut font, 0); // checksum, unchecked by the parser
        push_u32(&mut font, offset);
        push_u32(&mut font, data.len() as u32);
        offset += ((data.len() + 3) & !3) as u32;
    }
    for (_tag, data) in &tables {
        font.extend_from_slice(data);
        while font.len() % 4 != 0 {
            font.push(0);
        }
    }
    font
}

fn test_font() -> FontVec {
    FontVec::try_from_vec(build_test_font()).expect("the assembled font must parse")
}

/// Scale one engine coordinate to the library's fixed-point unit,
/// saturating at the coordinate limit (unbounded clip bounds arrive as
/// infinities).
fn to_fixed(v: f32) -> i64 {
    let scaled = (v as f64) * 65536.0;
    if scaled >= COORD_LIMIT as f64 {
        COORD_LIMIT
    } else if scaled <= -(COORD_LIMIT as f64) {
        -COORD_LIMIT
    } else {
        scaled.round() as i64
    }
}

fn to_fixed_rect(r: glyph_brush::ab_glyph::Rect) -> vertex::Rect {
    vertex::Rect {
        min_x: to_fixed(r.min.x),
        min_y: to_fixed(r.min.y),
        max_x: to_fixed(r.max.x),
        max_y: to_fixed(r.max.y),
    }
}

/// The engine-facing side of the vertex adapter, as the embedding wires it:
/// convert to fixed point, then run the library's verified adapter.
fn adapt(gv: glyph_brush::GlyphVertex<Extra>) -> Option<RendererVertex> {
    let ch = |v: f32| (v.clamp(0.0, 1.0) * 65535.0).round() as u16;
    let record = vertex::GlyphVertex {
        tex_coords: to_fixed_rect(gv.tex_coords),
        pixel_coords: to_fixed_rect(gv.pixel_coords),
        bounds: to_fixed_rect(gv.bounds),
        color: vertex::Color {
            r: ch(gv.extra.color[0]),
            g: ch(gv.extra.color[1]),
            b: ch(gv.extra.color[2]),
            a: ch(gv.extra.color[3]),
        },
        z: to_fixed(gv.extra.z),
    };
    vertex::to_vertex(&record)
}

type EngineBrush = glyph_brush::GlyphBrush<Option<RendererVertex>, Extra, FontVec>;

/// Run one processing attempt, mirroring the engine's atlas uploads into the
/// library's atlas model.
fn process(
    brush: &mut EngineBrush,
    model: &mut FrameRenderer<u8>,
) -> Result<BrushAction<Option<RendererVertex>>, BrushError> {
    let atlas = &mut model.atlas;
    brush.process_queued(
        |rect, tex_data| {
            let region = glium_glyph::atlas::Region {
                min_x: rect.min[0],
                min_y: rect.min[1],
                max_x: rect.max[0],
                max_y: rect.max[1],
            };
            let (w, h) = atlas.dimensions();
            assert!(region.min_x <= region.max_x && region.min_y <= region.max_y);
            assert!(region.max_x <= w && region.max_y <= h);
            assert_eq!(
                tex_data.len(),
                (region.max_x - region.min_x) as usize * (region.max_y - region.min_y) as usize
            );
            let up = atlas.upload(&region, tex_data);
            assert_eq!(up.left, region.min_x);
            assert_eq!(up.bottom, region.min_y);
        },
        adapt,
    )
}

fn hello_section() -> Section<'static> {
    Section::default()
        .add_text(Text::new("Hello, World!").with_scale(48.0))
        .with_bounds((800.0, 300.0))
}

#[test]
fn engine_hello_world_one_instance_per_visible_glyph() {
    // Queue "Hello, World!" at scale 48, bounds (800, 300); draw. Exactly
    // one draw call is issued and the instance count equals the number of
    // visible (non-whitespace) glyphs.
    let mut brush: EngineBrush = glyph_brush::GlyphBrushBuilder::using_font(test_font()).build();
    let (cw, ch) = brush.texture_dimensions();
    let mut model: FrameRenderer<u8> =
        glium_glyph::builder::GlyphBrushBuilder::using_font(0u8).build(cw, ch);

    brush.queue(hello_section());
    model.queue();

    let mut draw_calls: u32 = 0;
    let action = process(&mut brush, &mut model).expect("the default atlas fits this text");
    match action {
        BrushAction::Draw(verts) => {
            let flat: Vec<RendererVertex> = verts.into_iter().flatten().collect();
            assert_eq!(flat.len(), 12);
            match model.step(BrushEvent::Draw(flat)) {
                StepAction::IssueDraw { instances } => {
                    draw_calls += 1;
                    assert_eq!(instances, 12);
                }
                other => panic!("expected a draw call, got {:?}", other),
            }
        }
        BrushAction::ReDraw => panic!("first frame cannot be a redraw"),
    }
    assert_eq!(draw_calls, 1);
    assert_eq!(model.vertices().len(), 12);
}

#[test]
fn engine_small_atlas_grows_to_last_suggested_size() {
    // The atlas starts at (256, 256); queueing every distinct printable
    // character at a large scale exceeds its capacity. The retry loop fires
    // at least once, the atlas ends at the engine's last suggested size,
    // and the final draw call succeeds.
    let mut brush: EngineBrush = glyph_brush::GlyphBrushBuilder::using_font(test_font())
        .initial_cache_size((256, 256))
        .build();
    let (cw, ch) = brush.texture_dimensions();
    assert_eq!((cw, ch), (256, 256));
    let mut model: FrameRenderer<u8> =
        glium_glyph::builder::GlyphBrushBuilder::using_font(0u8).build(cw, ch);

    let all_chars: String = ('!'..='~').collect();
    brush.queue(
        Section::default()
            .add_text(Text::new(&all_chars).with_scale(100.0))
            .with_bounds((100000.0, 100000.0)),
    );
    model.queue();

    let mut retries: u32 = 0;
    let mut last_suggested: (u32, u32) = (0, 0);
    let instances: usize = loop {
        match process(&mut brush, &mut model) {
            Ok(BrushAction::Draw(verts)) => {
                let flat: Vec<RendererVertex> = verts.into_iter().flatten().collect();
                match model.step(BrushEvent::Draw(flat)) {
                    StepAction::IssueDraw { instances } => break instances,
                    other => panic!("expected a draw call, got {:?}", other),
                }
            }
            Ok(BrushAction::ReDraw) => panic!("first frame cannot be a redraw"),
            Err(BrushError::TextureTooSmall { suggested: (w, h) }) => {
                retries += 1;
                assert!(retries < 32, "the resize loop must settle");
                let action = model.step(BrushEvent::TextureTooSmall { width: w, height: h });
                assert_eq!(action, StepAction::Reallocate { width: w, height: h });
                assert_eq!(model.atlas.dimensions(), (w, h));
                brush.resize_texture(w, h);
                assert_eq!(brush.texture_dimensions(), (w, h));
                last_suggested = (w, h);
            }
        }
    };
    assert!(retries >= 1, "the scenario must overflow the initial atlas");
    assert_eq!(model.atlas.dimensions(), last_suggested);
    assert_eq!(instances, ('!'..='~').count());
}

#[test]
fn engine_identical_sections_reuse_cached_layout() {
    // Queue two sections with identical content and layout parameters:
    // the cached layout is reused, so both halves of the vertex data carry
    // identical glyph rectangles. Re-queueing the same sections and drawing
    // again takes the redraw path and leaves the vertex buffer unchanged.
    let mut brush: EngineBrush = glyph_brush::GlyphBrushBuilder::using_font(test_font()).build();
    let (cw, ch) = brush.texture_dimensions();
    let mut model: FrameRenderer<u8> =
        glium_glyph::builder::GlyphBrushBuilder::using_font(0u8).build(cw, ch);

    brush.queue(hello_section());
    brush.queue(hello_section());
    model.queue();
    model.queue();

    let action = process(&mut brush, &mut model).expect("the default atlas fits this text");
    let flat: Vec<RendererVertex> = match action {
        BrushAction::Draw(verts) => verts.into_iter().flatten().collect(),
        BrushAction::ReDraw => panic!("first frame cannot be a redraw"),
    };
    assert_eq!(flat.len(), 24);
    assert_eq!(flat[..12], flat[12..], "identical sections must reuse the computed layout");
    model.step(BrushEvent::Draw(flat));
    let before = model.vertices().clone();

    // Same two sections again: the engine reports nothing changed.
    brush.queue(hello_section());
    brush.queue(hello_section());
    model.queue();
    model.queue();
    match process(&mut brush, &mut model).expect("no resize on a cached frame") {
        BrushAction::ReDraw => {
            let action = model.step(BrushEvent::ReDraw);
            assert_eq!(action, StepAction::IssueDraw { instances: 24 });
        }
        BrushAction::Draw(_) => panic!("an unchanged queue must take the redraw path"),
    }
    assert_eq!(model.vertices(), &before);
}
