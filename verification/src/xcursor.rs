//! The binary cursor container.
//!
//! A container is a fixed 16-byte header, one 12-byte table-of-contents entry
//! per image, then the image chunks in the same order. Every word is a 32-bit
//! little-endian integer; pixels are stored as four bytes each, in B, G, R, A
//! order, as the consuming windowing system expects.

use vstd::prelude::*;

verus! {

/// Tag of an image entry, in the table of contents and in each chunk header.
pub const IMAGE_TYPE: u32 = 0xfffd0002;

/// One rendered frame: premultiplied RGBA bytes, four per pixel, row major,
/// with the hotspot in pixel coordinates of this frame.
pub struct CursorImage {
    pub pixels: Vec<u8>,
    pub width: u32,
    pub height: u32,
    pub xhot: u32,
    pub yhot: u32,
}

/// The pixel buffer holds exactly four bytes per pixel.
pub open spec fn wf_image(img: CursorImage) -> bool {
    img.pixels@.len() == 4 * ((img.width as int) * (img.height as int))
}

/// The four little-endian bytes of a 32-bit word.
pub open spec fn le32(x: u32) -> Seq<u8> {
    seq![
        (x & 0xff) as u8,
        ((x >> 8) & 0xff) as u8,
        ((x >> 16) & 0xff) as u8,
        ((x >> 24) & 0xff) as u8,
    ]
}

/// The 32-bit word encoded by four little-endian bytes.
pub open spec fn u32_of_le(s: Seq<u8>) -> u32 {
    (s[0] as int + s[1] as int * 0x100 + s[2] as int * 0x10000 + s[3] as int * 0x1000000) as u32
}

/// Reading four little-endian bytes back gives the word they encode.
pub proof fn lemma_le32_roundtrip(x: u32)
    ensures
        u32_of_le(le32(x)) == x,
{
    assert(((x & 0xff) as u8) as int + (((x >> 8) & 0xff) as u8) as int * 0x100 + (((x >> 16)
        & 0xff) as u8) as int * 0x10000 + (((x >> 24) & 0xff) as u8) as int * 0x1000000 == x as int)
        by (bit_vector);
    assert(le32(x)[0] == (x & 0xff) as u8);
    assert(le32(x)[1] == ((x >> 8) & 0xff) as u8);
    assert(le32(x)[2] == ((x >> 16) & 0xff) as u8);
    assert(le32(x)[3] == ((x >> 24) & 0xff) as u8);
}

/// Byte length of one image chunk: a 36-byte chunk header plus the pixels.
pub open spec fn chunk_len(img: CursorImage) -> int {
    36 + 4 * ((img.width as int) * (img.height as int))
}

/// Total byte length of the first `i` image chunks.
pub open spec fn chunks_len_prefix(imgs: Seq<CursorImage>, i: int) -> int
    decreases i,
{
    if i <= 0 {
        0
    } else {
        chunks_len_prefix(imgs, i - 1) + chunk_len(imgs[i - 1])
    }
}

/// Byte offset of image chunk `i` from the start of the container: the header,
/// all table-of-contents entries, and every earlier chunk come before it.
pub open spec fn spec_offset(imgs: Seq<CursorImage>, i: int) -> int {
    16 + 12 * imgs.len() + chunks_len_prefix(imgs, i)
}

/// Total byte length of the whole container.
pub open spec fn spec_total_len(imgs: Seq<CursorImage>) -> int {
    spec_offset(imgs, imgs.len() as int)
}

/// The 16-byte file header: magic "Xcur", header length, format version one,
/// and the number of table-of-contents entries.
pub open spec fn spec_header(count: u32) -> Seq<u8> {
    seq![0x58u8, 0x63u8, 0x75u8, 0x72u8] + le32(16) + le32(1) + le32(count)
}

/// One 12-byte table-of-contents entry: entry type, nominal size, byte offset.
pub open spec fn spec_toc_entry(size: u32, offset: u32) -> Seq<u8> {
    le32(IMAGE_TYPE) + le32(size) + le32(offset)
}

/// The first `i` table-of-contents entries, concatenated.
pub open spec fn spec_toc(imgs: Seq<CursorImage>, i: int) -> Seq<u8>
    decreases i,
{
    if i <= 0 {
        Seq::empty()
    } else {
        spec_toc(imgs, i - 1) + spec_toc_entry(imgs[i - 1].width, spec_offset(imgs, i - 1) as u32)
    }
}

/// The first `k` pixels of an RGBA buffer, rewritten as B, G, R, A bytes.
pub open spec fn bgra_pixels(p: Seq<u8>, k: int) -> Seq<u8>
    decreases k,
{
    if k <= 0 {
        Seq::empty()
    } else {
        bgra_pixels(p, k - 1) + seq![
            p[4 * (k - 1) + 2],
            p[4 * (k - 1) + 1],
            p[4 * (k - 1)],
            p[4 * (k - 1) + 3],
        ]
    }
}

/// The 36-byte chunk header: header length, chunk type, nominal size, image
/// format version one, width, height, hotspot, and a fixed one-millisecond
/// animation delay (the pipeline only produces static frames).
pub open spec fn spec_chunk_header(img: CursorImage) -> Seq<u8> {
    le32(36) + le32(IMAGE_TYPE) + le32(img.width) + le32(1) + le32(img.width) + le32(img.height)
        + le32(img.xhot) + le32(img.yhot) + le32(1)
}

/// One full image chunk: the chunk header, then the pixels in B,G,R,A order.
pub open spec fn spec_chunk(img: CursorImage) -> Seq<u8> {
    spec_chunk_header(img) + bgra_pixels(img.pixels@, (img.width as int) * (img.height as int))
}

/// The first `i` image chunks, concatenated.
pub open spec fn spec_chunks(imgs: Seq<CursorImage>, i: int) -> Seq<u8>
    decreases i,
{
    if i <= 0 {
        Seq::empty()
    } else {
        spec_chunks(imgs, i - 1) + spec_chunk(imgs[i - 1])
    }
}

/// The bytes of the whole container for an ordered set of images.
pub open spec fn spec_encode(imgs: Seq<CursorImage>) -> Seq<u8> {
    spec_header(imgs.len() as u32) + spec_toc(imgs, imgs.len() as int) + spec_chunks(
        imgs,
        imgs.len() as int,
    )
}

/// Every chunk offset lies between the end of the table of contents and the
/// total length of the container.
pub proof fn lemma_offset_bounds(imgs: Seq<CursorImage>, i: int)
    requires
        0 <= i <= imgs.len(),
    ensures
        16 + 12 * imgs.len() <= spec_offset(imgs, i) <= spec_total_len(imgs),
    decreases imgs.len() - i,
{
    lemma_chunks_len_prefix_nonneg(imgs, i);
    if i < imgs.len() {
        lemma_offset_bounds(imgs, i + 1);
        lemma_chunks_len_prefix_nonneg(imgs, i + 1);
    }
}

/// A prefix of the chunks has a non-negative length.
pub proof fn lemma_chunks_len_prefix_nonneg(imgs: Seq<CursorImage>, i: int)
    ensures
        chunks_len_prefix(imgs, i) >= 0,
    decreases i,
{
    if i > 0 {
        lemma_chunks_len_prefix_nonneg(imgs, i - 1);
    }
}

/// One image chunk is at least its 36-byte header long.
pub proof fn lemma_chunk_len_nonneg(img: CursorImage)
    ensures
        chunk_len(img) >= 36,
{
    assert((img.width as int) * (img.height as int) >= 0) by (nonlinear_arith);
}

/// Chunk prefix lengths never decrease.
pub proof fn lemma_clp_monotone(imgs: Seq<CursorImage>, a: int, b: int)
    requires
        a <= b,
    ensures
        chunks_len_prefix(imgs, a) <= chunks_len_prefix(imgs, b),
    decreases b - a,
{
    if a < b {
        lemma_clp_monotone(imgs, a, b - 1);
        if b > 0 {
            lemma_chunk_len_nonneg(imgs[b - 1]);
        }
    }
}

/// The first `i` table-of-contents entries occupy exactly `12 * i` bytes.
pub proof fn lemma_toc_len(imgs: Seq<CursorImage>, i: int)
    requires
        i >= 0,
    ensures
        spec_toc(imgs, i).len() == 12 * i,
    decreases i,
{
    if i > 0 {
        lemma_toc_len(imgs, i - 1);
    }
}

/// The swizzled text of `k` pixels is `4 * k` bytes long.
pub proof fn lemma_bgra_len(p: Seq<u8>, k: int)
    requires
        k >= 0,
    ensures
        bgra_pixels(p, k).len() == 4 * k,
    decreases k,
{
    if k > 0 {
        lemma_bgra_len(p, k - 1);
    }
}

/// One encoded chunk is exactly `chunk_len` bytes long.
pub proof fn lemma_spec_chunk_len(img: CursorImage)
    ensures
        spec_chunk(img).len() == chunk_len(img),
{
    lemma_chunk_len_nonneg(img);
    lemma_bgra_len(img.pixels@, (img.width as int) * (img.height as int));
}

/// The first `i` encoded chunks occupy exactly their summed chunk lengths.
pub proof fn lemma_chunks_len(imgs: Seq<CursorImage>, i: int)
    requires
        i >= 0,
    ensures
        spec_chunks(imgs, i).len() == chunks_len_prefix(imgs, i),
    decreases i,
{
    if i > 0 {
        lemma_chunks_len(imgs, i - 1);
        lemma_spec_chunk_len(imgs[i - 1]);
    }
}

/// Within the first `n` table-of-contents entries, entry `j` stands at byte
/// `12 * j` and records the image's nominal size and its chunk offset.
pub proof fn lemma_toc_entry_at(imgs: Seq<CursorImage>, n: int, j: int)
    requires
        0 <= j < n,
    ensures
        spec_toc(imgs, n).subrange(12 * j, 12 * j + 12) == spec_toc_entry(
            imgs[j].width,
            spec_offset(imgs, j) as u32,
        ),
    decreases n,
{
    lemma_toc_len(imgs, n - 1);
    if j == n - 1 {
        assert(spec_toc(imgs, n).subrange(12 * j, 12 * j + 12) =~= spec_toc_entry(
            imgs[j].width,
            spec_offset(imgs, j) as u32,
        ));
    } else {
        lemma_toc_entry_at(imgs, n - 1, j);
        assert(spec_toc(imgs, n).subrange(12 * j, 12 * j + 12) =~= spec_toc(
            imgs,
            n - 1,
        ).subrange(12 * j, 12 * j + 12));
    }
}

/// Within the first `n` encoded chunks, chunk `j` stands at its summed prefix
/// offset and is exactly the encoding of image `j`.
pub proof fn lemma_chunk_at(imgs: Seq<CursorImage>, n: int, j: int)
    requires
        0 <= j < n,
    ensures
        spec_chunks(imgs, n).subrange(
            chunks_len_prefix(imgs, j),
            chunks_len_prefix(imgs, j) + chunk_len(imgs[j]),
        ) == spec_chunk(imgs[j]),
    decreases n,
{
    lemma_chunks_len(imgs, n - 1);
    lemma_chunks_len(imgs, j);
    lemma_spec_chunk_len(imgs[j]);
    if j == n - 1 {
        assert(spec_chunks(imgs, n).subrange(
            chunks_len_prefix(imgs, j),
            chunks_len_prefix(imgs, j) + chunk_len(imgs[j]),
        ) =~= spec_chunk(imgs[j]));
    } else {
        lemma_chunk_at(imgs, n - 1, j);
        lemma_clp_monotone(imgs, j + 1, n - 1);
        lemma_chunk_len_nonneg(imgs[j]);
        assert(spec_chunks(imgs, n).subrange(
            chunks_len_prefix(imgs, j),
            chunks_len_prefix(imgs, j) + chunk_len(imgs[j]),
        ) =~= spec_chunks(imgs, n - 1).subrange(
            chunks_len_prefix(imgs, j),
            chunks_len_prefix(imgs, j) + chunk_len(imgs[j]),
        ));
    }
}

/// The three words of one table-of-contents entry, as a decoder reads them
/// back: the image tag, the nominal size, and the chunk's byte offset.
pub proof fn lemma_toc_entry_fields(size: u32, offset: u32)
    ensures
        u32_of_le(spec_toc_entry(size, offset).subrange(0, 4)) == IMAGE_TYPE,
        u32_of_le(spec_toc_entry(size, offset).subrange(4, 8)) == size,
        u32_of_le(spec_toc_entry(size, offset).subrange(8, 12)) == offset,
{
    assert(spec_toc_entry(size, offset).subrange(0, 4) =~= le32(IMAGE_TYPE));
    assert(spec_toc_entry(size, offset).subrange(4, 8) =~= le32(size));
    assert(spec_toc_entry(size, offset).subrange(8, 12) =~= le32(offset));
    lemma_le32_roundtrip(IMAGE_TYPE);
    lemma_le32_roundtrip(size);
    lemma_le32_roundtrip(offset);
}

/// The nine header words and the pixel text of one image chunk, as a decoder
/// reads them back: width, height and hotspot are recovered exactly, and the
/// payload is the image's pixels in B,G,R,A order.
pub proof fn lemma_chunk_fields(img: CursorImage)
    ensures
        u32_of_le(spec_chunk(img).subrange(0, 4)) == 36,
        u32_of_le(spec_chunk(img).subrange(4, 8)) == IMAGE_TYPE,
        u32_of_le(spec_chunk(img).subrange(8, 12)) == img.width,
        u32_of_le(spec_chunk(img).subrange(12, 16)) == 1,
        u32_of_le(spec_chunk(img).subrange(16, 20)) == img.width,
        u32_of_le(spec_chunk(img).subrange(20, 24)) == img.height,
        u32_of_le(spec_chunk(img).subrange(24, 28)) == img.xhot,
        u32_of_le(spec_chunk(img).subrange(28, 32)) == img.yhot,
        u32_of_le(spec_chunk(img).subrange(32, 36)) == 1,
        spec_chunk(img).subrange(36, chunk_len(img)) == bgra_pixels(
            img.pixels@,
            (img.width as int) * (img.height as int),
        ),
{
    lemma_chunk_len_nonneg(img);
    lemma_bgra_len(img.pixels@, (img.width as int) * (img.height as int));
    assert(spec_chunk(img).subrange(0, 4) =~= le32(36));
    assert(spec_chunk(img).subrange(4, 8) =~= le32(IMAGE_TYPE));
    assert(spec_chunk(img).subrange(8, 12) =~= le32(img.width));
    assert(spec_chunk(img).subrange(12, 16) =~= le32(1));
    assert(spec_chunk(img).subrange(16, 20) =~= le32(img.width));
    assert(spec_chunk(img).subrange(20, 24) =~= le32(img.height));
    assert(spec_chunk(img).subrange(24, 28) =~= le32(img.xhot));
    assert(spec_chunk(img).subrange(28, 32) =~= le32(img.yhot));
    assert(spec_chunk(img).subrange(32, 36) =~= le32(1));
    assert(spec_chunk(img).subrange(36, chunk_len(img)) =~= bgra_pixels(
        img.pixels@,
        (img.width as int) * (img.height as int),
    ));
    lemma_le32_roundtrip(36);
    lemma_le32_roundtrip(IMAGE_TYPE);
    lemma_le32_roundtrip(img.width);
    lemma_le32_roundtrip(1);
    lemma_le32_roundtrip(img.height);
    lemma_le32_roundtrip(img.xhot);
    lemma_le32_roundtrip(img.yhot);
}

/// A correct decoder recovers the whole container from its bytes: the magic,
/// the header words, one table-of-contents entry per image whose count, sizes
/// and offsets are exact, and at each recorded offset the matching image
/// chunk, whose width, height, hotspot and B,G,R,A pixel bytes are those of
/// the encoded image. The first chunk starts right after the header and the
/// table of contents.
pub proof fn lemma_container_layout(imgs: Seq<CursorImage>)
    requires
        spec_total_len(imgs) <= u32::MAX,
    ensures
        spec_encode(imgs).len() == spec_total_len(imgs),
        spec_offset(imgs, 0) == 16 + 12 * imgs.len(),
        spec_encode(imgs).subrange(0, 4) == seq![0x58u8, 0x63u8, 0x75u8, 0x72u8],
        u32_of_le(spec_encode(imgs).subrange(4, 8)) == 16,
        u32_of_le(spec_encode(imgs).subrange(8, 12)) == 1,
        u32_of_le(spec_encode(imgs).subrange(12, 16)) == imgs.len(),
        forall|j: int|
            0 <= j < imgs.len() ==> spec_encode(imgs).subrange(16 + 12 * j, 28 + 12 * j)
                == spec_toc_entry(#[trigger] imgs[j].width, spec_offset(imgs, j) as u32),
        forall|j: int|
            0 <= j < imgs.len() ==> spec_encode(imgs).subrange(
                spec_offset(imgs, j),
                spec_offset(imgs, j) + chunk_len(#[trigger] imgs[j]),
            ) == spec_chunk(imgs[j]),
{
    let n = imgs.len() as int;
    lemma_toc_len(imgs, n);
    lemma_chunks_len(imgs, n);
    lemma_chunks_len_prefix_nonneg(imgs, n);
    let enc = spec_encode(imgs);
    assert(enc.len() == spec_total_len(imgs));
    assert(n <= 0xffffffff);
    assert(enc.subrange(0, 4) =~= seq![0x58u8, 0x63u8, 0x75u8, 0x72u8]);
    assert(enc.subrange(4, 8) =~= le32(16));
    assert(enc.subrange(8, 12) =~= le32(1));
    assert(enc.subrange(12, 16) =~= le32(n as u32));
    lemma_le32_roundtrip(16);
    lemma_le32_roundtrip(1);
    lemma_le32_roundtrip(n as u32);
    assert forall|j: int| 0 <= j < imgs.len() implies spec_encode(imgs).subrange(
        16 + 12 * j,
        28 + 12 * j,
    ) == spec_toc_entry(#[trigger] imgs[j].width, spec_offset(imgs, j) as u32) by {
        lemma_toc_entry_at(imgs, n, j);
        assert(enc.subrange(16 + 12 * j, 28 + 12 * j) =~= spec_toc(imgs, n).subrange(
            12 * j,
            12 * j + 12,
        ));
    }
    assert forall|j: int| 0 <= j < imgs.len() implies spec_encode(imgs).subrange(
        spec_offset(imgs, j),
        spec_offset(imgs, j) + chunk_len(#[trigger] imgs[j]),
    ) == spec_chunk(imgs[j]) by {
        lemma_chunk_at(imgs, n, j);
        lemma_clp_monotone(imgs, j + 1, n);
        lemma_chunks_len_prefix_nonneg(imgs, j);
        lemma_chunk_len_nonneg(imgs[j]);
        assert(enc.subrange(
            spec_offset(imgs, j),
            spec_offset(imgs, j) + chunk_len(imgs[j]),
        ) =~= spec_chunks(imgs, n).subrange(
            chunks_len_prefix(imgs, j),
            chunks_len_prefix(imgs, j) + chunk_len(imgs[j]),
        ));
    }
}

/// Appends the four little-endian bytes of `x`.
pub fn write_u32(out: &mut Vec<u8>, x: u32)
    ensures
        final(out)@ == old(out)@ + le32(x),
{
    out.push((x & 0xff) as u8);
    out.push(((x >> 8) & 0xff) as u8);
    out.push(((x >> 16) & 0xff) as u8);
    out.push(((x >> 24) & 0xff) as u8);
    assert(out@ =~= old(out)@ + le32(x));
}

/// Appends the 16-byte file header for a container of `count` images.
pub fn write_header(out: &mut Vec<u8>, count: u32)
    ensures
        final(out)@ == old(out)@ + spec_header(count),
{
    out.push(0x58);
    out.push(0x63);
    out.push(0x75);
    out.push(0x72);
    write_u32(out, 16);
    write_u32(out, 1);
    write_u32(out, count);
    assert(out@ =~= old(out)@ + spec_header(count));
}

/// Appends one 12-byte table-of-contents entry.
pub fn write_toc_entry(out: &mut Vec<u8>, size: u32, offset: u32)
    ensures
        final(out)@ == old(out)@ + spec_toc_entry(size, offset),
{
    write_u32(out, IMAGE_TYPE);
    write_u32(out, size);
    write_u32(out, offset);
    assert(out@ =~= old(out)@ + spec_toc_entry(size, offset));
}

/// Appends one image chunk: its header, then the pixels in B,G,R,A order.
pub fn write_image(out: &mut Vec<u8>, img: &CursorImage)
    requires
        wf_image(*img),
    ensures
        final(out)@ == old(out)@ + spec_chunk(*img),
{
    write_u32(out, 36);
    write_u32(out, IMAGE_TYPE);
    write_u32(out, img.width);
    write_u32(out, 1);
    write_u32(out, img.width);
    write_u32(out, img.height);
    write_u32(out, img.xhot);
    write_u32(out, img.yhot);
    write_u32(out, 1);
    assert(out@ =~= old(out)@ + spec_chunk_header(*img));
    let ghost wh: int = (img.width as int) * (img.height as int);
    let count: usize = img.pixels.len() / 4;
    proof {
        assert(count == wh) by (nonlinear_arith)
            requires
                img.pixels@.len() == 4 * wh,
                count == img.pixels@.len() as int / 4,
        ;
    }
    let mut k: usize = 0;
    while k < count
        invariant
            0 <= k <= count,
            wh == (img.width as int) * (img.height as int),
            img.pixels@.len() == 4 * wh,
            count == wh,
            out@ == old(out)@ + spec_chunk_header(*img) + bgra_pixels(img.pixels@, k as int),
        decreases count - k,
    {
        let len: usize = img.pixels.len();
        assert(4 * (k as int) + 3 < len);
        let b = img.pixels[4 * k + 2];
        let g = img.pixels[4 * k + 1];
        let r = img.pixels[4 * k];
        let a = img.pixels[4 * k + 3];
        out.push(b);
        out.push(g);
        out.push(r);
        out.push(a);
        assert(out@ =~= old(out)@ + spec_chunk_header(*img) + bgra_pixels(
            img.pixels@,
            k as int + 1,
        ));
        k = k + 1;
    }
    assert(out@ =~= old(out)@ + spec_chunk(*img));
}

/// Serializes an ordered set of rendered frames into the bytes of one
/// container file: header, table of contents, then every image chunk.
pub fn write(images: &Vec<CursorImage>) -> (out: Vec<u8>)
    requires
        forall|i: int| 0 <= i < images@.len() ==> wf_image(#[trigger] images@[i]),
        spec_total_len(images@) <= u32::MAX,
    ensures
        out@ == spec_encode(images@),
{
    proof {
        lemma_offset_bounds(images@, 0);
    }
    let n: u32 = images.len() as u32;
    let mut out: Vec<u8> = Vec::new();
    write_header(&mut out, n);
    let mut offset: u32 = 16 + 12 * n;
    let mut i: usize = 0;
    while i < images.len()
        invariant
            0 <= i <= images@.len(),
            n == images@.len(),
            forall|j: int| 0 <= j < images@.len() ==> wf_image(#[trigger] images@[j]),
            spec_total_len(images@) <= u32::MAX,
            offset == spec_offset(images@, i as int),
            out@ == spec_header(n) + spec_toc(images@, i as int),
        decreases images@.len() - i,
    {
        proof {
            lemma_offset_bounds(images@, i as int);
            lemma_offset_bounds(images@, i as int + 1);
            assert(spec_offset(images@, i as int + 1) == spec_offset(images@, i as int)
                + chunk_len(images@[i as int]));
        }
        let img = &images[i];
        assert(36 + 4 * ((img.width as int) * (img.height as int)) <= u32::MAX);
        assert((img.width as int) * (img.height as int) <= 0x3fffffff) by (nonlinear_arith)
            requires
                36 + 4 * ((img.width as int) * (img.height as int)) <= 0xffffffffu32,
        ;
        write_toc_entry(&mut out, img.width, offset);
        assert(out@ =~= spec_header(n) + spec_toc(images@, i as int + 1));
        let area: u32 = img.width * img.height;
        offset = offset + 36 + 4 * area;
        i = i + 1;
    }
    let mut i: usize = 0;
    while i < images.len()
        invariant
            0 <= i <= images@.len(),
            n == images@.len(),
            forall|j: int| 0 <= j < images@.len() ==> wf_image(#[trigger] images@[j]),
            out@ == spec_header(n) + spec_toc(images@, images@.len() as int) + spec_chunks(
                images@,
                i as int,
            ),
        decreases images@.len() - i,
    {
        write_image(&mut out, &images[i]);
        assert(out@ =~= spec_header(n) + spec_toc(images@, images@.len() as int) + spec_chunks(
            images@,
            i as int + 1,
        ));
        i = i + 1;
    }
    assert(out@ =~= spec_encode(images@));
    out
}

} // verus!
