//! Trusted boundary to the rasterizer.
//!
//! The surface, mask, path and transform values of the rasterizer are opaque
//! here; each wrapper makes one small, documented call. Rotation angles,
//! scale factors and hotspot coordinates cross this boundary as decimal text,
//! and text that does not parse as a number is taken as zero.

use vstd::prelude::*;

verus! {

#[verifier::external_type_specification]
#[verifier::external_body]
pub struct ExPixmap(tiny_skia::Pixmap);

#[verifier::external_type_specification]
#[verifier::external_body]
pub struct ExMask(tiny_skia::Mask);

#[verifier::external_type_specification]
#[verifier::external_body]
pub struct ExPath(tiny_skia::Path);

#[verifier::external_type_specification]
#[verifier::external_body]
pub struct ExTransform(tiny_skia::Transform);

#[verifier::external_type_specification]
#[verifier::external_body]
pub struct ExPathBuilder(tiny_skia::PathBuilder);

/// What tiny_skia::Pixmap::width returns for a surface.
pub uninterp spec fn pixmap_width(p: tiny_skia::Pixmap) -> u32;

/// What tiny_skia::Pixmap::height returns for a surface.
pub uninterp spec fn pixmap_height(p: tiny_skia::Pixmap) -> u32;

/// A square surface of this size can be allocated: the rasterizer needs a
/// positive size whose four-byte row length fits a signed 32-bit count.
pub open spec fn valid_size(size: u32) -> bool {
    1 <= size && 4 * size <= 0x7fffffff
}

/// Where the transformed, rounded hotspot lands, still relative to the centre
/// of the frame: the point (x, y), translated by (center, center), sent
/// through the rotate-then-scale transform, and rounded. All five arguments
/// are decimal text and the result depends on them alone.
pub uninterp spec fn hotspot_centered(
    rotation: Seq<char>,
    scale: Seq<char>,
    x: Seq<char>,
    y: Seq<char>,
    center: Seq<char>,
) -> (i64, i64);

/// Relies on tiny_skia::Pixmap::new: a fresh, fully transparent square
/// surface, or None exactly when the size is zero or a row of four-byte
/// pixels would not fit a signed 32-bit byte count.
#[verifier::external_body]
pub(crate) fn pixmap_new(size: u32) -> (r: Option<tiny_skia::Pixmap>)
    ensures
        r is Some <==> valid_size(size),
        r matches Some(p) ==> pixmap_width(p) == size && pixmap_height(p) == size,
{
    tiny_skia::Pixmap::new(size, size)
}

/// Relies on tiny_skia::Mask::new: a fresh empty square mask, or None exactly
/// when the size is zero.
#[verifier::external_body]
pub(crate) fn mask_new(size: u32) -> (r: Option<tiny_skia::Mask>)
    ensures
        r is Some <==> 1 <= size,
{
    tiny_skia::Mask::new(size, size)
}

/// Relies on tiny_skia::Pixmap::fill_path with the winding fill rule: it
/// repaints pixels under the transformed path and keeps the surface size.
#[verifier::external_body]
pub(crate) fn fill_path(
    pix: &mut tiny_skia::Pixmap,
    path: &tiny_skia::Path,
    r: u8,
    g: u8,
    b: u8,
    a: u8,
    t: &tiny_skia::Transform,
)
    ensures
        pixmap_width(*final(pix)) == pixmap_width(*old(pix)),
        pixmap_height(*final(pix)) == pixmap_height(*old(pix)),
{
    let mut paint = tiny_skia::Paint::default();
    paint.set_color_rgba8(r, g, b, a);
    pix.fill_path(path, &paint, tiny_skia::FillRule::Winding, *t, None);
}

/// Relies on tiny_skia::Pixmap::stroke_path: it paints the outline of the
/// transformed path — round caps and joins, miter limit disabled — restricted
/// to the given mask, and keeps the surface size.
#[verifier::external_body]
pub(crate) fn stroke_path(
    pix: &mut tiny_skia::Pixmap,
    path: &tiny_skia::Path,
    r: u8,
    g: u8,
    b: u8,
    a: u8,
    width: &str,
    t: &tiny_skia::Transform,
    mask: &tiny_skia::Mask,
)
    ensures
        pixmap_width(*final(pix)) == pixmap_width(*old(pix)),
        pixmap_height(*final(pix)) == pixmap_height(*old(pix)),
{
    let mut paint = tiny_skia::Paint::default();
    paint.set_color_rgba8(r, g, b, a);
    let mut stroke = tiny_skia::Stroke::default();
    stroke.width = width.parse().unwrap_or_default();
    stroke.miter_limit = Default::default();
    stroke.line_cap = tiny_skia::LineCap::Round;
    stroke.line_join = tiny_skia::LineJoin::Round;
    pix.stroke_path(path, &paint, &stroke, *t, Some(mask));
}

/// Relies on tiny_skia::Mask::fill_path with the winding fill rule and
/// anti-aliasing: it adds the coverage of the transformed path to the mask.
#[verifier::external_body]
pub(crate) fn mask_fill_path(
    mask: &mut tiny_skia::Mask,
    path: &tiny_skia::Path,
    t: &tiny_skia::Transform,
) {
    mask.fill_path(path, tiny_skia::FillRule::Winding, true, *t);
}

/// Relies on tiny_skia::Mask::invert: coverage becomes its complement.
#[verifier::external_body]
pub(crate) fn mask_invert(mask: &mut tiny_skia::Mask) {
    mask.invert();
}

/// Relies on tiny_skia::Pixmap::take: the premultiplied RGBA bytes of the
/// surface, four bytes per pixel, row major.
#[verifier::external_body]
pub(crate) fn pixmap_take(p: tiny_skia::Pixmap) -> (r: Vec<u8>)
    ensures
        r@.len() == 4 * ((pixmap_width(p) as int) * (pixmap_height(p) as int)),
{
    p.take()
}

/// Relies on tiny_skia::PathBuilder::new: a fresh, empty path builder.
#[verifier::external_body]
pub(crate) fn pb_new() -> tiny_skia::PathBuilder {
    tiny_skia::PathBuilder::new()
}

/// Relies on tiny_skia::PathBuilder::move_to.
#[verifier::external_body]
pub(crate) fn pb_move(pb: &mut tiny_skia::PathBuilder, x: &str, y: &str) {
    pb.move_to(x.parse().unwrap_or_default(), y.parse().unwrap_or_default());
}

/// Relies on tiny_skia::PathBuilder::line_to.
#[verifier::external_body]
pub(crate) fn pb_line(pb: &mut tiny_skia::PathBuilder, x: &str, y: &str) {
    pb.line_to(x.parse().unwrap_or_default(), y.parse().unwrap_or_default());
}

/// Relies on tiny_skia::PathBuilder::quad_to.
#[verifier::external_body]
pub(crate) fn pb_quad(pb: &mut tiny_skia::PathBuilder, x1: &str, y1: &str, x: &str, y: &str) {
    pb.quad_to(
        x1.parse().unwrap_or_default(),
        y1.parse().unwrap_or_default(),
        x.parse().unwrap_or_default(),
        y.parse().unwrap_or_default(),
    );
}

/// Relies on tiny_skia::PathBuilder::cubic_to.
#[verifier::external_body]
pub(crate) fn pb_cubic(
    pb: &mut tiny_skia::PathBuilder,
    x1: &str,
    y1: &str,
    x2: &str,
    y2: &str,
    x: &str,
    y: &str,
) {
    pb.cubic_to(
        x1.parse().unwrap_or_default(),
        y1.parse().unwrap_or_default(),
        x2.parse().unwrap_or_default(),
        y2.parse().unwrap_or_default(),
        x.parse().unwrap_or_default(),
        y.parse().unwrap_or_default(),
    );
}

/// Relies on tiny_skia::PathBuilder::close.
#[verifier::external_body]
pub(crate) fn pb_close(pb: &mut tiny_skia::PathBuilder) {
    pb.close();
}

/// Relies on tiny_skia::PathBuilder::finish: the built path, or None when the
/// builder holds no segments (such a shape simply contributes nothing).
#[verifier::external_body]
pub(crate) fn pb_finish(pb: tiny_skia::PathBuilder) -> (r: Option<tiny_skia::Path>) {
    pb.finish()
}

/// Relies on tiny_skia::Transform::post_rotate and post_scale: rotation about
/// the design origin first, then the uniform scale, both from decimal text.
#[verifier::external_body]
pub(crate) fn build_transform(rotation_degrees: &str, scale: &str) -> tiny_skia::Transform {
    tiny_skia::Transform::identity().post_rotate(rotation_degrees.parse().unwrap_or_default())
        .post_scale(scale.parse().unwrap_or_default(), scale.parse().unwrap_or_default())
}

/// Relies on tiny_skia's Transform::from_translate, post_rotate, post_scale
/// and map_point, and on f32::round: the point (x, y) is translated by
/// (center, center), sent through the same rotate-then-scale transform as the
/// geometry, and each coordinate rounded to the nearest integer.
#[verifier::external_body]
pub(crate) fn transformed_hotspot(
    rotation_degrees: &str,
    scale: &str,
    x: &str,
    y: &str,
    center: &str,
) -> (r: (i64, i64))
    ensures
        r == hotspot_centered(rotation_degrees@, scale@, x@, y@, center@),
{
    let t = tiny_skia::Transform::identity().post_rotate(
        rotation_degrees.parse().unwrap_or_default(),
    ).post_scale(scale.parse().unwrap_or_default(), scale.parse().unwrap_or_default());
    let mut p = tiny_skia::Point::from_xy(
        x.parse().unwrap_or_default(),
        y.parse().unwrap_or_default(),
    );
    let c = tiny_skia::Transform::from_translate(
        center.parse().unwrap_or_default(),
        center.parse().unwrap_or_default(),
    );
    c.map_point(&mut p);
    t.map_point(&mut p);
    (p.x.round() as i64, p.y.round() as i64)
}

} // verus!
