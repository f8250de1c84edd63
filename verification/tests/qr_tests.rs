use penguin_downloader_tui::qr_renderer::{estimate_block_size, render_luma, render_modules, render_to_string, QrData};

fn module_dark(x: u32, y: u32) -> bool {
    x == 0 || y == 0 || x == 20 || y == 20 || (x + y) % 3 == 0
}

fn expected_grid(n: u32) -> String {
    let mut rows = Vec::new();
    for y in 0..n {
        let mut row = String::new();
        for x in 0..n {
            row.push_str(if module_dark(x, y) { "██" } else { "  " });
        }
        rows.push(row);
    }
    rows.join("\n")
}

/// A 21-module code drawn at 3 pixels a module with a 6-pixel white margin.
fn code_pixels() -> (u32, u32, Vec<u8>) {
    let side = 21 * 3 + 12;
    let mut p = vec![255u8; (side * side) as usize];
    for y in 0..side {
        for x in 0..side {
            if x >= 6 && y >= 6 && x < 6 + 63 && y < 6 + 63 && module_dark((x - 6) / 3, (y - 6) / 3) {
                p[(y * side + x) as usize] = 0;
            }
        }
    }
    (side, side, p)
}

fn png_bytes(w: u32, h: u32, p: &[u8]) -> Vec<u8> {
    let img = image::GrayImage::from_raw(w, h, p.to_vec()).unwrap();
    let mut buf = std::io::Cursor::new(Vec::new());
    image::DynamicImage::ImageLuma8(img).write_to(&mut buf, image::ImageFormat::Png).unwrap();
    buf.into_inner()
}

#[test]
fn block_size_estimates() {
    assert_eq!(estimate_block_size(63, 63), 3);
    assert_eq!(estimate_block_size(100, 100), 4);
    assert_eq!(estimate_block_size(45, 45), 1);
    assert_eq!(estimate_block_size(10, 10), 1);
    assert_eq!(estimate_block_size(0, 0), 1);
    assert_eq!(estimate_block_size(84, 86), 1);
    assert_eq!(estimate_block_size(130, 120), 5);
}

#[test]
fn modules_drawn_row_by_row() {
    assert_eq!(render_modules(2, &vec![true, false, false, true]), "██  \n  ██");
    assert_eq!(render_modules(0, &vec![]), "");
}

#[test]
fn luma_picture_is_read_module_by_module() {
    let (w, h, p) = code_pixels();
    assert_eq!(render_luma(w, h, &p), Some(expected_grid(21)));
}

#[test]
fn blank_picture_draws_light_modules() {
    let p = vec![255u8; 4 * 3];
    assert_eq!(render_luma(4, 3, &p), Some("        \n        \n        ".to_string()));
}

#[test]
fn mostly_dark_block_is_dark() {
    // one module of 3×3 pixels with five dark pixels, inside a 21×21 frame
    let side = 63u32;
    let mut p = vec![255u8; (side * side) as usize];
    for i in 0..side {
        p[i as usize] = 0;
        p[((side - 1) * side + i) as usize] = 0;
        p[(i * side) as usize] = 0;
        p[(i * side + side - 1) as usize] = 0;
    }
    for &(x, y) in &[(30u32, 30u32), (31, 30), (32, 30), (30, 31), (31, 31)] {
        p[(y * side + x) as usize] = 0;
    }
    let text = render_luma(side, side, &p).unwrap();
    let rows: Vec<&str> = text.split('\n').collect();
    assert_eq!(rows.len(), 21);
    assert_eq!(rows[10].chars().nth(20), Some('█'));
    assert_eq!(rows[10].chars().nth(18), Some(' '));
}

#[test]
fn png_image_renders_its_code() {
    let (w, h, p) = code_pixels();
    let bytes = png_bytes(w, h, &p);
    assert_eq!(render_to_string(&QrData::Image(bytes)), expected_grid(21));
}

#[test]
fn undecodable_image_gives_notice() {
    assert_eq!(render_to_string(&QrData::Image(vec![1, 2, 3])), "  (无法显示二维码)");
}

#[test]
fn url_is_encoded_as_qr_code() {
    let url = "https://y.qq.com/login?token=abc";
    let code = qrcode::QrCode::new(url).unwrap();
    let w = code.width();
    let colors = code.to_colors();
    let mut rows = Vec::new();
    for y in 0..w {
        let mut row = String::new();
        for x in 0..w {
            row.push_str(if colors[y * w + x] == qrcode::Color::Dark { "██" } else { "  " });
        }
        rows.push(row);
    }
    let out = render_to_string(&QrData::Url(url.to_string()));
    assert_eq!(out, rows.join("\n"));
    assert_ne!(out, url);
}

#[test]
fn too_long_url_is_shown_as_text() {
    let url: String = std::iter::repeat('字').take(3000).collect();
    let out = render_to_string(&QrData::Url(url.clone()));
    assert_eq!(out, format!("请复制链接到浏览器打开:\n{}", url));
}
