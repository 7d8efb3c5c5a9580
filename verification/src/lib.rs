//! A cursor-theme rendering pipeline.
//!
//! A theme declares named cursors as vector path outlines on a fixed 256-unit
//! design canvas, with one shared style. Each cursor is rasterized once per
//! configured nominal size — a fill pass, an inverted-coverage mask, and a
//! stroke pass confined to the outline's exterior — and the per-size frames
//! are serialized into one multi-resolution binary cursor container.
//!
//! Numbers that only the rasterizer consumes (rotation angles, hotspot and
//! path coordinates, the stroke width) are carried as decimal text end to end.

use vstd::prelude::*;

pub mod digits;
pub mod path;
pub mod skia;
pub mod text;
pub mod xcursor;

use crate::path::{parse, path_parse, PathCommand, PathSyntaxError};
use crate::xcursor::CursorImage;

verus! {

/// A point on the 256-unit design canvas; each coordinate is decimal text.
#[derive(Clone, Debug)]
pub struct Point {
    pub x: String,
    pub y: String,
}

/// A straight 8-bit RGBA color.
#[derive(Clone, Copy, Debug)]
pub struct Color {
    pub r: u8,
    pub g: u8,
    pub b: u8,
    pub a: u8,
}

/// One named cursor: its path outlines, its hotspot on the design canvas, and
/// its rotation in degrees as decimal text.
#[derive(Clone, Debug)]
pub struct Cursor {
    pub paths: Vec<String>,
    pub hot: Point,
    pub rotation_degrees: String,
}

/// The visual style shared by every cursor of a theme.
#[derive(Clone, Debug)]
pub struct Style {
    pub sizes: Vec<u32>,
    pub fill_color: Color,
    pub stroke_width: String,
    pub stroke_color: Color,
}

/// A whole theme: named cursors, the shared style, and alias links.
#[derive(Clone, Debug)]
pub struct CursorTheme {
    pub cursors: Vec<(String, Cursor)>,
    pub style: Style,
    pub name: String,
    pub links: Vec<(String, String)>,
}

/// A style holds at least one size; sizes are positive and distinct.
pub open spec fn wf_style(s: Style) -> bool {
    &&& s.sizes@.len() > 0
    &&& forall|i: int| 0 <= i < s.sizes@.len() ==> #[trigger] s.sizes@[i] > 0
    &&& forall|i: int, j: int| 0 <= i < j < s.sizes@.len() ==> s.sizes@[i] != s.sizes@[j]
}

/// Cursor names and alias names are unique within a theme, and its style is
/// well formed.
pub open spec fn wf_theme(t: CursorTheme) -> bool {
    &&& forall|i: int, j: int|
        0 <= i < j < t.cursors@.len() ==> t.cursors@[i].0@ != t.cursors@[j].0@
    &&& forall|i: int, j: int| 0 <= i < j < t.links@.len() ==> t.links@[i].0@ != t.links@[j].0@
    &&& wf_style(t.style)
}

/// Why one frame could not be rendered.
#[derive(Clone, Debug)]
pub enum RenderError {
    /// The requested nominal size admits no pixel surface.
    InvalidSize { size: u32 },
    /// One of the cursor's path strings is malformed.
    Path { path: String, error: PathSyntaxError },
}

/// Every path string of the cursor parses.
pub open spec fn paths_parse(cursor: Cursor) -> bool {
    forall|i: int|
        0 <= i < cursor.paths@.len() ==> path_parse(#[trigger] cursor.paths@[i]@) is Some
}

/// Rendering one frame succeeds exactly when the size admits a surface and
/// every path string of the cursor parses.
pub open spec fn spec_renders(cursor: Cursor, size: u32) -> bool {
    skia::valid_size(size) && paths_parse(cursor)
}

/// The decimal text of the design-canvas centre, negated: hotspots are given
/// relative to the centre (128, 128) of the 256-unit canvas.
pub open spec fn design_center_text() -> Seq<char> {
    seq!['-', '1', '2', '8']
}

/// Re-centres one rounded, transformed hotspot coordinate on the output
/// frame: half the frame size is added, and the result is clamped to the
/// 32-bit range of the container format.
pub open spec fn spec_recenter(c: int, size: int) -> int {
    let v = c + size / 2;
    if v < 0 {
        0
    } else if v > 0xffffffff {
        0xffffffff
    } else {
        v
    }
}

/// The transformed hotspot of the cursor at one size, as stored in a frame.
pub open spec fn spec_hotspot(cursor: Cursor, size: u32) -> (u32, u32) {
    let c = skia::hotspot_centered(
        cursor.rotation_degrees@,
        digits::spec_scale_text(size),
        cursor.hot.x@,
        cursor.hot.y@,
        design_center_text(),
    );
    (
        spec_recenter(c.0 as int, size as int) as u32,
        spec_recenter(c.1 as int, size as int) as u32,
    )
}

/// A frame rendered from `cursor` at nominal size `size`: square, four bytes
/// per pixel, hotspot transformed exactly as the geometry.
pub open spec fn image_matches(cursor: Cursor, size: u32, img: CursorImage) -> bool {
    &&& img.width == size
    &&& img.height == size
    &&& img.pixels@.len() == 4 * ((size as int) * (size as int))
    &&& img.xhot == spec_hotspot(cursor, size).0
    &&& img.yhot == spec_hotspot(cursor, size).1
}

/// Adds half the frame size to a rounded, centred hotspot coordinate and
/// clamps the result to the container's 32-bit range.
pub fn recenter(c: i64, size: u32) -> (r: u32)
    ensures
        r as int == spec_recenter(c as int, size as int),
{
    let half: i64 = (size / 2) as i64;
    if c >= 0x100000000i64 {
        0xffffffffu32
    } else {
        let v: i64 = c + half;
        if v < 0 {
            0u32
        } else if v > 0xffffffffi64 {
            0xffffffffu32
        } else {
            v as u32
        }
    }
}

/// Builds one rasterizer path from a parsed command sequence; an empty
/// command sequence yields nothing and the shape contributes nothing.
fn build_skia_path(cmds: &Vec<PathCommand>) -> Option<tiny_skia::Path> {
    let mut pb = skia::pb_new();
    let mut i: usize = 0;
    while i < cmds.len()
        decreases cmds@.len() - i,
    {
        match &cmds[i] {
            PathCommand::Move(x, y) => skia::pb_move(&mut pb, x.as_str(), y.as_str()),
            PathCommand::Line(x, y) => skia::pb_line(&mut pb, x.as_str(), y.as_str()),
            PathCommand::Quad(x1, y1, x, y) => skia::pb_quad(
                &mut pb,
                x1.as_str(),
                y1.as_str(),
                x.as_str(),
                y.as_str(),
            ),
            PathCommand::Cubic(x1, y1, x2, y2, x, y) => skia::pb_cubic(
                &mut pb,
                x1.as_str(),
                y1.as_str(),
                x2.as_str(),
                y2.as_str(),
                x.as_str(),
                y.as_str(),
            ),
            PathCommand::Close => skia::pb_close(&mut pb),
        }
        i = i + 1;
    }
    skia::pb_finish(pb)
}

/// Renders one frame of the cursor at one nominal size: a transparent square
/// surface takes a fill pass for the union of the outlines, the coverage mask
/// of that union is inverted, a stroke pass is confined to the outlines'
/// exterior, and the hotspot is sent through the same transform as the
/// geometry.
pub fn render_cursor_one_size(cursor: &Cursor, style: &Style, size: u32) -> (r: Result<
    CursorImage,
    RenderError,
>)
    ensures
        r is Ok <==> spec_renders(*cursor, size),
        size == 0 ==> (r matches Err(e) && e matches RenderError::InvalidSize { size: s } && s
            == 0),
        r matches Ok(img) ==> image_matches(*cursor, size, img),
        r matches Err(e) ==> match e {
            RenderError::InvalidSize { size: s } => s == size && !skia::valid_size(size),
            RenderError::Path { path, error: _ } => skia::valid_size(size) && exists|i: int|
                0 <= i < cursor.paths@.len() && path_parse(#[trigger] cursor.paths@[i]@) is None
                    && path@ == cursor.paths@[i]@,
        },
{
    let mut pixmap = match skia::pixmap_new(size) {
        Some(p) => p,
        None => { return Err(RenderError::InvalidSize { size }); },
    };
    // A surface of this size exists, so a mask of the same size does too.
    let mut mask = match skia::mask_new(size) {
        Some(m) => m,
        None => vstd::pervasive::unreached(),
    };
    let mut shapes: Vec<Option<tiny_skia::Path>> = Vec::new();
    let mut i: usize = 0;
    while i < cursor.paths.len()
        invariant
            0 <= i <= cursor.paths@.len(),
            forall|j: int| 0 <= j < i ==> path_parse(#[trigger] cursor.paths@[j]@) is Some,
            skia::valid_size(size),
        decreases cursor.paths@.len() - i,
    {
        let p = &cursor.paths[i];
        match parse(p.as_str()) {
            Ok(cmds) => {
                let shape = build_skia_path(&cmds);
                shapes.push(shape);
            },
            Err(e) => {
                return Err(RenderError::Path { path: p.clone(), error: e });
            },
        }
        i = i + 1;
    }
    let scale = digits::scale_of_size(size);
    let transform = skia::build_transform(cursor.rotation_degrees.as_str(), scale.as_str());
    let mut i: usize = 0;
    while i < shapes.len()
        invariant
            skia::pixmap_width(pixmap) == size,
            skia::pixmap_height(pixmap) == size,
        decreases shapes@.len() - i,
    {
        match &shapes[i] {
            Some(shape) => {
                skia::fill_path(
                    &mut pixmap,
                    shape,
                    style.fill_color.r,
                    style.fill_color.g,
                    style.fill_color.b,
                    style.fill_color.a,
                    &transform,
                );
                skia::mask_fill_path(&mut mask, shape, &transform);
            },
            None => {},
        }
        i = i + 1;
    }
    skia::mask_invert(&mut mask);
    let mut i: usize = 0;
    while i < shapes.len()
        invariant
            skia::pixmap_width(pixmap) == size,
            skia::pixmap_height(pixmap) == size,
        decreases shapes@.len() - i,
    {
        match &shapes[i] {
            Some(shape) => {
                skia::stroke_path(
                    &mut pixmap,
                    shape,
                    style.stroke_color.r,
                    style.stroke_color.g,
                    style.stroke_color.b,
                    style.stroke_color.a,
                    style.stroke_width.as_str(),
                    &transform,
                    &mask,
                );
            },
            None => {},
        }
        i = i + 1;
    }
    let hot = skia::transformed_hotspot(
        cursor.rotation_degrees.as_str(),
        scale.as_str(),
        cursor.hot.x.as_str(),
        cursor.hot.y.as_str(),
        "-128",
    );
    proof {
        reveal_strlit("-128");
        assert("-128"@ =~= design_center_text());
    }
    let xhot = recenter(hot.0, size);
    let yhot = recenter(hot.1, size);
    let pixels = skia::pixmap_take(pixmap);
    Ok(CursorImage { pixels, width: size, height: size, xhot, yhot })
}

/// Renders the whole per-size image set of one cursor: exactly one frame per
/// entry of `style.sizes`, in that order, failing as a whole if any single
/// size fails.
pub fn render_cursor(cursor: &Cursor, style: &Style) -> (r: Result<Vec<CursorImage>, RenderError>)
    ensures
        r is Ok <==> forall|i: int|
            0 <= i < style.sizes@.len() ==> spec_renders(*cursor, #[trigger] style.sizes@[i]),
        r matches Ok(imgs) ==> imgs@.len() == style.sizes@.len() && forall|i: int|
            0 <= i < imgs@.len() ==> image_matches(
                *cursor,
                style.sizes@[i],
                #[trigger] imgs@[i],
            ),
        r matches Err(_) ==> exists|i: int|
            0 <= i < style.sizes@.len() && !spec_renders(*cursor, #[trigger] style.sizes@[i]),
        r matches Err(e) ==> match e {
            RenderError::InvalidSize { size: s } => !skia::valid_size(s) && exists|i: int|
                0 <= i < style.sizes@.len() && #[trigger] style.sizes@[i] == s,
            RenderError::Path { path, error: _ } => exists|k: int|
                0 <= k < cursor.paths@.len() && path_parse(#[trigger] cursor.paths@[k]@) is None
                    && path@ == cursor.paths@[k]@,
        },
{
    let mut imgs: Vec<CursorImage> = Vec::new();
    let mut i: usize = 0;
    while i < style.sizes.len()
        invariant
            0 <= i <= style.sizes@.len(),
            imgs@.len() == i,
            forall|j: int|
                0 <= j < i ==> spec_renders(*cursor, #[trigger] style.sizes@[j]),
            forall|j: int|
                0 <= j < i ==> image_matches(*cursor, style.sizes@[j], #[trigger] imgs@[j]),
        decreases style.sizes@.len() - i,
    {
        match render_cursor_one_size(cursor, style, style.sizes[i]) {
            Ok(img) => imgs.push(img),
            Err(e) => {
                return Err(e);
            },
        }
        i = i + 1;
    }
    Ok(imgs)
}

} // verus!
