use curosu::overlay::render::{
    decode_png, is_decodable, texture_from_frame, Area, Argb, Compositor, PngColor, PngFrame,
    Texel, Texture,
};
use curosu::settings_ui::{icon_image, is_icon_loadable, load_app_icon};

fn encoded(width: u32, height: u32, color: png::ColorType, data: &[u8]) -> Vec<u8> {
    let mut out = Vec::new();
    {
        let mut encoder = png::Encoder::new(&mut out, width, height);
        encoder.set_color(color);
        encoder.set_depth(png::BitDepth::Eight);
        let mut writer = encoder.write_header().expect("a header");
        writer.write_image_data(data).expect("pixels");
    }
    out
}

fn decoded(bytes: &[u8]) -> Option<Texture> {
    assert!(is_decodable(bytes));
    decode_png(bytes)
}

fn icon(image: &[u8]) -> Vec<u8> {
    let mut out = vec![0, 0, 1, 0, 1, 0, 16, 16, 0, 0, 1, 0, 32, 0];
    out.extend_from_slice(&(image.len() as u32).to_le_bytes());
    out.extend_from_slice(&22u32.to_le_bytes());
    out.extend_from_slice(image);
    out
}

#[test]
fn a_picture_is_decoded() {
    let pixels = [1, 2, 3, 4, 5, 6, 7, 8];
    let texture = decoded(&encoded(2, 1, png::ColorType::Rgba, &pixels)).expect("a picture");
    assert_eq!((texture.w, texture.h), (2, 1));
    assert_eq!(texture.data, pixels);
}

#[test]
fn pictures_without_alpha_are_refused() {
    assert!(decoded(&encoded(1, 1, png::ColorType::Rgb, &[1, 2, 3])).is_none());
    assert!(decoded(&encoded(1, 1, png::ColorType::Grayscale, &[1])).is_none());
    assert!(decoded(&encoded(1, 1, png::ColorType::GrayscaleAlpha, &[1, 2])).is_none());
}

#[test]
fn broken_pictures_are_refused() {
    assert!(decoded(b"").is_none());
    assert!(decoded(b"this is not a picture at all").is_none());
    let mut cut = encoded(2, 1, png::ColorType::Rgba, &[1, 2, 3, 4, 5, 6, 7, 8]);
    cut.truncate(40);
    assert!(decoded(&cut).is_none());
}

#[test]
fn enormous_pictures_are_not_decodable() {
    let mut header = encoded(1, 1, png::ColorType::Rgba, &[1, 2, 3, 4]);
    assert!(is_decodable(&header));
    // Four times 2^30 by 2^31 pixels are too many bytes for a vector.
    header[16..24].copy_from_slice(&[0x40, 0, 0, 0, 0x80, 0, 0, 0]);
    assert!(!is_decodable(&header));
    // Half as many pixels can be held, but not counted in bits.
    header[16] = 0x20;
    assert!(is_decodable(&header));
    header[28] = 1;
    assert!(!is_decodable(&header));
    // Rows in an unknown order, or unknown colours: the decoder refuses the file.
    header[28] = 2;
    assert!(decoded(&header).is_none());
    header[28] = 1;
    for color in [1, 5, 7, 255] {
        header[25] = color;
        assert!(decoded(&header).is_none());
    }
    header[25] = 6;
    assert!(!is_decodable(&header));
    // So many bytes cannot be counted: the decoder refuses the file.
    header[16..24].copy_from_slice(&[0xFF; 8]);
    assert!(decoded(&header).is_none());
}

fn chunk(kind: &[u8; 4], body: &[u8], checksum: [u8; 4]) -> Vec<u8> {
    let mut out = (body.len() as u32).to_be_bytes().to_vec();
    out.extend_from_slice(kind);
    out.extend_from_slice(body);
    out.extend_from_slice(&checksum);
    out
}

fn indexed(palette: Vec<u8>, trns: Option<Vec<u8>>, pixels: &[u8]) -> Vec<u8> {
    let mut out = Vec::new();
    {
        let mut encoder = png::Encoder::new(&mut out, pixels.len() as u32, 1);
        encoder.set_color(png::ColorType::Indexed);
        encoder.set_depth(png::BitDepth::Eight);
        encoder.set_palette(palette);
        if let Some(alphas) = trns {
            encoder.set_trns(alphas);
        }
        let mut writer = encoder.write_header().expect("a header");
        writer.write_image_data(pixels).expect("pixels");
    }
    out
}

const AFTER_HEADER: usize = 33;

/// An indexed file with this in the place of its palette.
fn with_preamble(preamble: &[u8]) -> Vec<u8> {
    let file = indexed(vec![1, 2, 3], None, &[0]);
    let mut out = file[..AFTER_HEADER].to_vec();
    out.extend_from_slice(preamble);
    out.extend_from_slice(&file[AFTER_HEADER + 15..]);
    out
}

#[test]
fn indexed_pictures_with_transparency_are_decoded() {
    let file = indexed(vec![1, 2, 3, 4, 5, 6], Some(vec![7, 8]), &[1, 0]);
    let texture = decoded(&file).expect("a picture");
    assert_eq!(texture.data, [4, 5, 6, 8, 1, 2, 3, 7]);
    assert!(decoded(&indexed(vec![1, 2, 3], None, &[0])).is_none());
    let full = indexed(vec![9; 768], Some(vec![5]), &[0, 255]);
    assert_eq!(decoded(&full).expect("a full palette").data, [9, 9, 9, 5, 9, 9, 9, 255]);
}

#[test]
fn palettes_that_do_not_fit_are_not_decodable() {
    let sum = [0; 4];
    for size in [1, 2, 4, 5, 767, 769, 771] {
        let palette = chunk(b"PLTE", &vec![0; size], sum);
        assert!(!is_decodable(&with_preamble(&palette)));
    }
    for size in [3, 6, 768] {
        let palette = chunk(b"PLTE", &vec![0; size], sum);
        assert!(is_decodable(&with_preamble(&palette)));
    }
    let late = [chunk(b"gAMA", &[0; 4], sum), chunk(b"PLTE", &[0; 4], sum)].concat();
    assert!(!is_decodable(&with_preamble(&late)));
    assert!(decoded(&with_preamble(&[])).is_none());
}

#[test]
fn empty_palettes_are_passed_over() {
    let empty = chunk(b"PLTE", &[], 0x4BA8_8955u32.to_be_bytes());
    let bad = [empty.clone(), chunk(b"PLTE", &[0; 4], [0; 4])].concat();
    assert!(!is_decodable(&with_preamble(&bad)));
    assert!(decoded(&with_preamble(&empty)).is_none());
}

#[test]
fn palettes_of_other_pictures_do_not_count() {
    let file = encoded(1, 1, png::ColorType::Rgba, &[1, 2, 3, 4]);
    let mut out = file[..AFTER_HEADER].to_vec();
    out.extend_from_slice(&chunk(b"PLTE", &[0; 4], [0; 4]));
    out.extend_from_slice(&file[AFTER_HEADER..]);
    assert!(is_decodable(&out));
    assert!(decoded(&out).is_none());
}

#[test]
fn palettes_that_are_cut_off_are_decodable() {
    let palette = chunk(b"PLTE", &[0; 4], [0; 4]);
    let cut = with_preamble(&palette)[..AFTER_HEADER + palette.len() - 1].to_vec();
    assert!(decoded(&cut).is_none());
}

#[test]
fn empty_headers_are_passed_over() {
    let file = encoded(1, 1, png::ColorType::Rgba, &[1, 2, 3, 4]);
    let mut out = file[..8].to_vec();
    out.extend_from_slice(&chunk(b"IHDR", &[], 0xA8A1_AE0Au32.to_be_bytes()));
    out.extend_from_slice(&file[8..]);
    assert_eq!(decoded(&out).expect("a picture").data, [1, 2, 3, 4]);
    out[28..36].copy_from_slice(&[0x40, 0, 0, 0, 0x80, 0, 0, 0]);
    assert!(!is_decodable(&out));
}

/// A picture of one pixel with this between its header and its pixels.
fn animated(frames: u32, size: usize) -> Vec<u8> {
    let file = encoded(1, 1, png::ColorType::Rgba, &[1, 2, 3, 4]);
    let mut body = frames.to_be_bytes().to_vec();
    body.resize(size, 0);
    let mut out = file[..AFTER_HEADER].to_vec();
    out.extend_from_slice(&chunk(b"acTL", &body, [0; 4]));
    out.extend_from_slice(&file[AFTER_HEADER..]);
    out
}

#[test]
fn frames_are_counted_with_the_image_beside_them() {
    for frames in [0, 1, u32::MAX - 1] {
        assert_eq!(decoded(&animated(frames, 8)).expect("a picture").data, [1, 2, 3, 4]);
    }
    let most = animated(u32::MAX, 8);
    assert_eq!(is_decodable(&most), usize::BITS > 32);
    if is_decodable(&most) {
        assert_eq!(decode_png(&most).expect("a picture").data, [1, 2, 3, 4]);
    }
    assert!(decoded(&animated(u32::MAX, 7)).is_none());
}

#[test]
fn what_follows_the_pixels_is_cut_off() {
    let frame = PngFrame {
        width: 1,
        height: 1,
        color: PngColor::Rgba,
        pixels: vec![1, 2, 3, 4, 5, 6],
    };
    let texture = texture_from_frame(Some(frame)).expect("a picture");
    assert_eq!(texture.data, [1, 2, 3, 4]);
    assert!(texture_from_frame(None).is_none());
}

#[test]
fn the_neighbours_of_a_point_are_found() {
    let mut data = Vec::new();
    for i in 0..4u8 {
        data.extend_from_slice(&[i, 10 + i, 20 + i, 30 + i]);
    }
    let texture = Texture { w: 2, h: 2, data };
    let around = texture.sample(0, 0, 1, 1).expect("a point on the picture");
    assert_eq!(around.top_left, Texel { r: 0, g: 10, b: 20, a: 30 });
    assert_eq!(around.top_right, Texel { r: 1, g: 11, b: 21, a: 31 });
    assert_eq!(around.bottom_left, Texel { r: 2, g: 12, b: 22, a: 32 });
    assert_eq!(around.bottom_right, Texel { r: 3, g: 13, b: 23, a: 33 });
    let edge = texture.sample(1, 1, 2, 2).expect("a point at the edge");
    assert_eq!(edge.bottom_right, Texel { r: 3, g: 13, b: 23, a: 33 });
    assert!(texture.sample(-1, 0, 0, 0).is_none());
    assert!(texture.sample(2, 0, 2, 0).is_none());
    assert!(texture.sample(0, 2, 0, 2).is_none());
}

#[test]
fn pixels_are_packed_from_opacity_to_blue() {
    assert_eq!(Argb { a: 0x12, r: 0x34, g: 0x56, b: 0x78 }.pack(), 0x12345678);
    assert_eq!(Argb { a: 255, r: 255, g: 255, b: 255 }.pack(), u32::MAX);
}

#[test]
fn drawing_clears_what_is_outside() {
    let mut canvas = Compositor::new(3, 3);
    canvas.buffer[0] = 99;
    let area = Area { x0: 1, x1: 2, y0: 0, y1: 1 };
    let pixels: Vec<Argb> = (1..=4).map(|b| Argb { a: 0, r: 0, g: 0, b }).collect();
    canvas.draw(area, &pixels);
    assert_eq!(canvas.buffer, [0, 1, 2, 0, 3, 4, 0, 0, 0]);
    canvas.draw(area, &pixels);
    assert_eq!(canvas.buffer, [0, 1, 2, 0, 3, 4, 0, 0, 0]);
    canvas.draw(Area { x0: 2, x1: 1, y0: 0, y1: 2 }, &[]);
    assert_eq!(canvas.buffer, [0; 9]);
}

#[test]
fn bounds_stay_on_the_canvas() {
    let canvas = Compositor::new(10, 20);
    assert_eq!(canvas.bounds(-3, 12, 4, 30), Area { x0: 0, x1: 9, y0: 4, y1: 19 });
    assert_eq!(canvas.bounds(2, 3, 5, 6), Area { x0: 2, x1: 3, y0: 5, y1: 6 });
    assert!(canvas.differs(10, 21));
    assert!(!canvas.differs(10, 20));
}

#[test]
fn the_first_image_of_an_icon_is_decoded() {
    let image = encoded(1, 2, png::ColorType::Rgba, &[9, 8, 7, 6, 5, 4, 3, 2]);
    let file = icon(&image);
    assert_eq!(icon_image(&file), Some(image.as_slice()));
    assert!(is_icon_loadable(&file));
    let picture = load_app_icon(&file).expect("an icon");
    assert_eq!((picture.w, picture.h), (1, 2));
    assert_eq!(picture.data, [9, 8, 7, 6, 5, 4, 3, 2]);
}

#[test]
fn cut_icons_have_no_image() {
    let image = encoded(1, 1, png::ColorType::Rgba, &[1, 2, 3, 4]);
    let mut file = icon(&image);
    file.pop();
    assert_eq!(icon_image(&file), None);
    assert!(load_app_icon(&file).is_none());
    assert_eq!(icon_image(&file[..21]), None);
    let mut far = icon(&image);
    far[18..22].copy_from_slice(&[0xFF; 4]);
    assert_eq!(icon_image(&far), None);
}
