use nickel_cursor::{
    recenter, render_cursor, render_cursor_one_size, Color, Cursor, Point, RenderError, Style,
};

fn square_cursor(hot_x: &str, hot_y: &str, rotation: &str) -> Cursor {
    Cursor {
        paths: vec!["M0,0 L256,0 L256,256 L0,256 Z".to_string()],
        hot: Point { x: hot_x.to_string(), y: hot_y.to_string() },
        rotation_degrees: rotation.to_string(),
    }
}

fn red_style(sizes: Vec<u32>) -> Style {
    Style {
        sizes,
        fill_color: Color { r: 255, g: 0, b: 0, a: 255 },
        stroke_width: "0".to_string(),
        stroke_color: Color { r: 0, g: 0, b: 0, a: 255 },
    }
}

#[test]
fn render_square_is_fully_red() {
    let cursor = square_cursor("128", "128", "0");
    let style = red_style(vec![32]);
    let img = render_cursor_one_size(&cursor, &style, 32).unwrap();
    assert_eq!(img.width, 32);
    assert_eq!(img.height, 32);
    assert_eq!(img.pixels.len(), 4 * 32 * 32);
    for px in img.pixels.chunks(4) {
        assert_eq!(px, [255, 0, 0, 255]);
    }
    assert_eq!(img.xhot, 16);
    assert_eq!(img.yhot, 16);
}

#[test]
fn render_hotspot_at_origin() {
    let cursor = square_cursor("0", "0", "0");
    let style = red_style(vec![32]);
    let img = render_cursor_one_size(&cursor, &style, 32).unwrap();
    assert_eq!(img.xhot, 0);
    assert_eq!(img.yhot, 0);
}

#[test]
fn render_size_zero_fails() {
    let cursor = square_cursor("0", "0", "0");
    let style = red_style(vec![32]);
    let r = render_cursor_one_size(&cursor, &style, 0);
    assert!(matches!(r, Err(RenderError::InvalidSize { size: 0 })));
}

#[test]
fn render_sizes_match_request() {
    let cursor = square_cursor("0", "0", "0");
    let style = red_style(vec![16]);
    for size in [1u32, 7, 24, 33, 64] {
        let img = render_cursor_one_size(&cursor, &style, size).unwrap();
        assert_eq!(img.width, size);
        assert_eq!(img.height, size);
        assert_eq!(img.pixels.len(), 4 * (size as usize) * (size as usize));
    }
}

#[test]
fn render_hotspot_matches_formula_without_rotation() {
    let cursor = square_cursor("10.5", "20", "0");
    let style = red_style(vec![64]);
    let img = render_cursor_one_size(&cursor, &style, 64).unwrap();
    let ex = ((10.5f32 - 128.0) * 64.0 / 256.0).round() + 32.0;
    let ey = ((20.0f32 - 128.0) * 64.0 / 256.0).round() + 32.0;
    assert_eq!(img.xhot, ex as u32);
    assert_eq!(img.yhot, ey as u32);
    assert_eq!((img.xhot, img.yhot), (3, 5));
}

#[test]
fn render_hotspot_tracks_rotation() {
    let cursor = square_cursor("0", "0", "90");
    let style = red_style(vec![32]);
    let img = render_cursor_one_size(&cursor, &style, 32).unwrap();
    assert_eq!((img.xhot, img.yhot), (32, 0));
}

#[test]
fn render_bad_path_fails_with_the_path() {
    let cursor = Cursor {
        paths: vec!["M 0 0 L 10 10".to_string(), "M 0 0 C 10 10".to_string()],
        hot: Point { x: "0".to_string(), y: "0".to_string() },
        rotation_degrees: "0".to_string(),
    };
    let style = red_style(vec![32]);
    match render_cursor_one_size(&cursor, &style, 32) {
        Err(RenderError::Path { path, error: _ }) => assert_eq!(path, "M 0 0 C 10 10"),
        _ => panic!("a malformed path must fail the whole render"),
    }
    assert!(render_cursor(&cursor, &style).is_err());
}

#[test]
fn render_empty_geometry_is_transparent() {
    let cursor = Cursor {
        paths: vec!["".to_string()],
        hot: Point { x: "128".to_string(), y: "128".to_string() },
        rotation_degrees: "0".to_string(),
    };
    let style = red_style(vec![16]);
    let img = render_cursor_one_size(&cursor, &style, 16).unwrap();
    assert!(img.pixels.iter().all(|b| *b == 0));
}

#[test]
fn render_cursor_yields_one_image_per_size_in_order() {
    let cursor = square_cursor("0", "0", "0");
    let style = red_style(vec![24, 32]);
    let imgs = render_cursor(&cursor, &style).unwrap();
    assert_eq!(imgs.len(), 2);
    assert_eq!(imgs[0].width, 24);
    assert_eq!(imgs[1].width, 32);
}

#[test]
fn render_size_too_large_fails() {
    // Four bytes per pixel of one row must fit a signed 32-bit byte count.
    let cursor = square_cursor("0", "0", "0");
    let style = red_style(vec![32]);
    let r = render_cursor_one_size(&cursor, &style, 0x20000000);
    assert!(matches!(r, Err(RenderError::InvalidSize { size: 0x20000000 })));
}

#[test]
fn render_cursor_fails_as_a_whole() {
    let cursor = square_cursor("0", "0", "0");
    let style = red_style(vec![24, 0]);
    assert!(render_cursor(&cursor, &style).is_err());
}

#[test]
fn recenter_clamps_at_zero() {
    assert_eq!(recenter(-16, 32), 0);
    assert_eq!(recenter(-17, 32), 0);
    assert_eq!(recenter(-15, 32), 1);
    assert_eq!(recenter(3, 33), 19);
    assert_eq!(recenter(4294967296, 0), u32::MAX);
}
