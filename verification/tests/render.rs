use image::ImageEncoder;
use viuer::config::Config;
use viuer::config::Protocol;
use viuer::dispatch::render;
use viuer::error::ViuError;
use viuer::iterm::iTermPrinter;
use viuer::probe::Capabilities;
use viuer::raster::ColorModel;
use viuer::raster::RasterImage;

fn plain_config() -> Config {
    Config { width: None, height: None, x: 0, y: 0, protocol: None, truecolor: true }
}

fn find_sub(hay: &[u8], needle: &[u8]) -> Option<usize> {
    if needle.len() > hay.len() {
        return None;
    }
    (0..=hay.len() - needle.len()).find(|&i| &hay[i..i + needle.len()] == needle)
}

fn count_sub(hay: &[u8], needle: &[u8]) -> usize {
    if needle.len() > hay.len() {
        return 0;
    }
    (0..=hay.len() - needle.len())
        .filter(|&i| &hay[i..i + needle.len()] == needle)
        .count()
}

fn red_square(side: u32) -> RasterImage {
    let mut data = Vec::new();
    for _ in 0..side * side {
        data.extend_from_slice(&[255, 0, 0, 255]);
    }
    RasterImage::new(side, side, ColorModel::Rgba8, data).unwrap()
}

#[test]
fn raster_image_checks_buffer_length() {
    assert!(RasterImage::new(2, 2, ColorModel::Rgba8, vec![0; 16]).is_some());
    assert!(RasterImage::new(2, 2, ColorModel::Rgba8, vec![0; 15]).is_none());
    assert!(RasterImage::new(2, 2, ColorModel::L8, vec![0; 4]).is_some());
    assert!(RasterImage::new(2, 2, ColorModel::Rgb8, vec![0; 16]).is_none());
}

#[test]
fn encoding_twice_is_byte_identical() {
    let img = red_square(6);
    let printer = iTermPrinter {};
    let config = Config { width: Some(12), height: None, x: 2, y: 1, ..plain_config() };
    let a = printer.print(&img, &config, 80, 24).unwrap();
    let b = printer.print(&img, &config, 80, 24).unwrap();
    assert_eq!(a.bytes, b.bytes);
    assert_eq!((a.width, a.height), (b.width, b.height));
}

#[test]
fn requested_dimensions_emit_exactly_those_directives() {
    let img = red_square(3);
    let printer = iTermPrinter {};
    let config = Config { width: Some(40), height: Some(20), ..plain_config() };
    let out = printer.print(&img, &config, 80, 24).unwrap();
    assert!(find_sub(&out.bytes, b"width=40;").is_some());
    assert!(find_sub(&out.bytes, b"height=20;").is_some());
    assert_eq!(count_sub(&out.bytes, b"width="), 1);
    assert_eq!(count_sub(&out.bytes, b"height="), 1);
    assert_eq!((out.width, out.height), (40, 20));
}

#[test]
fn unconstrained_config_emits_no_size_directives() {
    let img = red_square(3);
    let printer = iTermPrinter {};
    let config = plain_config();
    let out = printer.print(&img, &config, 80, 24).unwrap();
    assert_eq!(find_sub(&out.bytes, b"width="), None);
    assert_eq!(find_sub(&out.bytes, b"height="), None);
    assert!(find_sub(&out.bytes, b"preserveAspectRatio=1;").is_some());
}

#[test]
fn no_directives_for_any_padding_shape() {
    // Transport payloads of every length class modulo three, so the base64
    // rendering ends without padding, with one '=', and with two '=': none of
    // the paddings may complete a width= or height= directive lookalike.
    for len in [6usize, 7, 8] {
        let payload: Vec<u8> = (0..len).map(|i| 0xf8u8.wrapping_add(i as u8)).collect();
        let out = viuer::iterm::print_buffer(&payload, 5, 5, &plain_config(), 80, 24).unwrap();
        assert_eq!(find_sub(&out.bytes, b"width="), None);
        assert_eq!(find_sub(&out.bytes, b"height="), None);
        assert_eq!(*out.bytes.last().unwrap(), 0x07);
    }
}

#[test]
fn offsets_emit_cursor_movement_before_payload() {
    let img = red_square(3);
    let printer = iTermPrinter {};
    let config = Config { x: 5, y: 3, ..plain_config() };
    let out = printer.print(&img, &config, 80, 24).unwrap();
    assert!(out.bytes.starts_with(b"\x1b[3B\x1b[5C\x1b]1337;"));
}

#[test]
fn degenerate_image_fails_before_encoding() {
    let img = RasterImage::new(0, 4, ColorModel::Rgba8, Vec::new()).unwrap();
    let printer = iTermPrinter {};
    assert_eq!(printer.print(&img, &plain_config(), 80, 24), Err(ViuError::InvalidImage));
}

#[test]
fn end_to_end_red_square_inline_blob() {
    // A 10x10 all-red opaque image, no explicit width/height, no offsets,
    // inline-blob protocol forced active.
    let img = red_square(10);
    let config = Config { protocol: Some(Protocol::Iterm), ..plain_config() };
    let mut caps = Capabilities::new();
    let out = render(&img, &config, &mut caps, &None, 80, 24).unwrap();
    assert!(out.width > 0 && out.height > 0);

    let bytes = &out.bytes;
    let head = b"\x1b]1337;File=inline=1;preserveAspectRatio=1;size=";
    assert!(bytes.starts_with(head));
    assert_eq!(*bytes.last().unwrap(), 0x07);

    // size=<L>;: where L is the byte length of the transport payload.
    let rest = &bytes[head.len()..];
    let semi = rest.iter().position(|&b| b == b';').unwrap();
    let declared: usize = std::str::from_utf8(&rest[..semi]).unwrap().parse().unwrap();
    assert_eq!(rest[semi + 1], b':');
    let b64_payload = &rest[semi + 2..rest.len() - 1];
    let payload = base64::decode(b64_payload).unwrap();
    assert_eq!(payload.len(), declared);
    // The base64 wrapper really transformed the payload.
    assert_ne!(payload.as_slice(), b64_payload);

    // The transport payload is a PNG holding the same 10x10 all-red pixels.
    let decoded = image::load_from_memory(&payload).unwrap();
    let rgba = decoded.to_rgba8();
    assert_eq!(rgba.dimensions(), (10, 10));
    assert!(rgba.pixels().all(|p| p.0 == [255, 0, 0, 255]));
}

#[test]
fn dispatcher_honours_explicit_override() {
    let img = red_square(4);
    // Fallback forced although the probed capability says iTerm is there:
    // nothing is written.
    let config = Config { protocol: Some(Protocol::Fallback), ..plain_config() };
    let mut caps = Capabilities { iterm: Some(true) };
    let out = render(&img, &config, &mut caps, &Some(b"iTerm.app".to_vec()), 80, 24).unwrap();
    assert!(out.bytes.is_empty());
    assert_eq!((out.width, out.height), (4, 2));

    // The inline-blob protocol forced although nothing reports support.
    let config = Config { protocol: Some(Protocol::Iterm), ..plain_config() };
    let mut caps = Capabilities { iterm: Some(false) };
    let out = render(&img, &config, &mut caps, &None, 80, 24).unwrap();
    assert!(out.bytes.starts_with(b"\x1b]1337;"));
}

#[test]
fn dispatcher_probes_when_no_override() {
    let img = red_square(4);
    let config = plain_config();
    let mut caps = Capabilities::new();
    let out = render(&img, &config, &mut caps, &Some(b"iTerm.app".to_vec()), 80, 24).unwrap();
    assert!(out.bytes.starts_with(b"\x1b]1337;"));
    assert_eq!(caps.iterm, Some(true));

    let mut caps = Capabilities::new();
    let out = render(&img, &config, &mut caps, &Some(b"xterm".to_vec()), 80, 24).unwrap();
    assert!(out.bytes.is_empty());
    assert_eq!(caps.iterm, Some(false));
}

#[test]
fn print_from_bytes_reuses_file_bytes_verbatim() {
    // Build a real PNG file in memory, then render from its bytes.
    let mut file_bytes: Vec<u8> = Vec::new();
    let img = image::RgbaImage::from_pixel(8, 4, image::Rgba([0, 128, 255, 255]));
    image::codecs::png::PngEncoder::new(&mut file_bytes)
        .write_image(img.as_raw(), 8, 4, image::ColorType::Rgba8)
        .unwrap();

    let printer = iTermPrinter {};
    let out = printer.print_from_bytes(&file_bytes, &plain_config(), 80, 24).unwrap();
    // The payload is the original file content, not a re-encoding.
    let expected_b64 = base64::encode(&file_bytes).into_bytes();
    assert!(find_sub(&out.bytes, &expected_b64).is_some());
    let declared = format!("size={};", file_bytes.len()).into_bytes();
    assert!(find_sub(&out.bytes, &declared).is_some());
    // Dimensions come from the decoded image: 8x4 pixels -> 8x2 cells.
    assert_eq!((out.width, out.height), (8, 2));
}

#[test]
fn print_from_bytes_rejects_undecodable_input() {
    let printer = iTermPrinter {};
    let garbage = b"this is not an image".to_vec();
    assert_eq!(
        printer.print_from_bytes(&garbage, &plain_config(), 80, 24),
        Err(ViuError::Decode)
    );
}
