use nickel_cursor::digits::{scale_of_size, uint_string};
use nickel_cursor::xcursor::{write_header, write_toc_entry, write_u32, CursorImage};
use nickel_cursor::{render_cursor, Color, Cursor, Point, Style};

fn read_u32(b: &[u8], pos: usize) -> u32 {
    u32::from_le_bytes([b[pos], b[pos + 1], b[pos + 2], b[pos + 3]])
}

#[test]
fn write_u32_is_little_endian() {
    let mut out = Vec::new();
    write_u32(&mut out, 0x01020304);
    assert_eq!(out, vec![0x04, 0x03, 0x02, 0x01]);
}

#[test]
fn header_bytes() {
    let mut out = Vec::new();
    write_header(&mut out, 2);
    assert_eq!(&out[0..4], b"Xcur");
    assert_eq!(read_u32(&out, 4), 16);
    assert_eq!(read_u32(&out, 8), 1);
    assert_eq!(read_u32(&out, 12), 2);
    assert_eq!(out.len(), 16);
}

#[test]
fn toc_entry_bytes() {
    let mut out = Vec::new();
    write_toc_entry(&mut out, 24, 40);
    assert_eq!(read_u32(&out, 0), 0xfffd0002);
    assert_eq!(read_u32(&out, 4), 24);
    assert_eq!(read_u32(&out, 8), 40);
    assert_eq!(out.len(), 12);
}

#[test]
fn one_pixel_container() {
    let img = CursorImage {
        pixels: vec![10, 20, 30, 40],
        width: 1,
        height: 1,
        xhot: 0,
        yhot: 0,
    };
    let out = nickel_cursor::xcursor::write(&vec![img]);
    assert_eq!(out.len(), 16 + 12 + 36 + 4);
    assert_eq!(read_u32(&out, 12), 1);
    // One table-of-contents entry; the chunk starts right after it.
    assert_eq!(read_u32(&out, 16), 0xfffd0002);
    assert_eq!(read_u32(&out, 20), 1);
    assert_eq!(read_u32(&out, 24), 28);
    // The chunk, and the pixel rewritten from R,G,B,A to B,G,R,A.
    assert_eq!(read_u32(&out, 28), 36);
    assert_eq!(read_u32(&out, 32), 0xfffd0002);
    assert_eq!(&out[64..68], [30, 20, 10, 40]);
}

#[test]
fn encoded_theme_decodes_to_the_rendered_frames() {
    let cursor = Cursor {
        paths: vec!["M0,0 L256,0 L256,256 L0,256 Z".to_string()],
        hot: Point { x: "128".to_string(), y: "128".to_string() },
        rotation_degrees: "0".to_string(),
    };
    let style = Style {
        sizes: vec![24, 32],
        fill_color: Color { r: 255, g: 0, b: 0, a: 255 },
        stroke_width: "0".to_string(),
        stroke_color: Color { r: 0, g: 255, b: 0, a: 255 },
    };
    let imgs = render_cursor(&cursor, &style).unwrap();
    let out = nickel_cursor::xcursor::write(&imgs);

    // Header: magic, header length, version, table-of-contents count.
    assert_eq!(&out[0..4], b"Xcur");
    assert_eq!(read_u32(&out, 4), 16);
    assert_eq!(read_u32(&out, 8), 1);
    assert_eq!(read_u32(&out, 12), 2);

    // The first chunk starts right after the header and the two entries.
    let mut expected_offset = 16 + 12 * 2;
    for (i, img) in imgs.iter().enumerate() {
        let entry = 16 + 12 * i;
        assert_eq!(read_u32(&out, entry), 0xfffd0002);
        assert_eq!(read_u32(&out, entry + 4), img.width);
        let offset = read_u32(&out, entry + 8) as usize;
        assert_eq!(offset, expected_offset);

        // The chunk header decodes back to the frame's fields.
        assert_eq!(read_u32(&out, offset), 36);
        assert_eq!(read_u32(&out, offset + 4), 0xfffd0002);
        assert_eq!(read_u32(&out, offset + 8), img.width);
        assert_eq!(read_u32(&out, offset + 12), 1);
        assert_eq!(read_u32(&out, offset + 16), img.width);
        assert_eq!(read_u32(&out, offset + 20), img.height);
        assert_eq!(read_u32(&out, offset + 24), img.xhot);
        assert_eq!(read_u32(&out, offset + 28), img.yhot);
        assert_eq!(read_u32(&out, offset + 32), 1);

        // The payload is the frame's pixels, each turned to B,G,R,A.
        let payload = &out[offset + 36..offset + 36 + img.pixels.len()];
        for (got, rgba) in payload.chunks(4).zip(img.pixels.chunks(4)) {
            assert_eq!(got, [rgba[2], rgba[1], rgba[0], rgba[3]]);
        }
        expected_offset = offset + 36 + img.pixels.len();
    }
    assert_eq!(out.len(), expected_offset);
    assert_eq!(read_u32(&out, 16 + 4), 24);
    assert_eq!(read_u32(&out, 16 + 12 + 4), 32);
}

#[test]
fn scale_text_is_exact() {
    assert_eq!(scale_of_size(32), "0.12500000");
    assert_eq!(scale_of_size(24), "0.09375000");
    assert_eq!(scale_of_size(256), "1.00000000");
    assert_eq!(scale_of_size(0), "0.00000000");
    assert_eq!(scale_of_size(640), "2.50000000");
}

#[test]
fn uint_text() {
    assert_eq!(uint_string(0), "0");
    assert_eq!(uint_string(7), "7");
    assert_eq!(uint_string(1234567890123), "1234567890123");
}
