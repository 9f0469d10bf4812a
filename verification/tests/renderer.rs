use ascii_term::media_core::errors::MediaError;
use ascii_term::media_core::picture::raster::{PixelLayout, RasterImage};
use ascii_term::terminal_player::renderer::{AsciiRenderer, RenderConfig, RenderedFrame};

fn luminance(rgb: &[u8]) -> Vec<u8> {
    rgb.chunks(3)
        .map(|p| (0.2126 * p[0] as f32 + 0.7152 * p[1] as f32 + 0.0722 * p[2] as f32) as u8)
        .collect()
}

#[test]
fn test_ascii_renderer_creation() {
    let config = RenderConfig::default();
    let renderer = AsciiRenderer::new(config);
    assert_eq!(renderer.config().target_width, 80);
    assert_eq!(renderer.config().target_height, 24);
}

#[test]
fn test_render_small_image() {
    let mut config = RenderConfig::default();
    config.target_width = 4;
    config.target_height = 2;

    let renderer = AsciiRenderer::new(config);

    // Create a small 2x2 image
    let pixels = vec![
        255, 255, 255, // White
        0, 0, 0, // Black
        128, 128, 128, // Gray
        200, 200, 200, // Light gray
    ];
    let img = RasterImage::from_raw(PixelLayout::Rgb8, 2, 2, pixels).unwrap();
    let resized = renderer.resize_image(img).unwrap();
    let brightness = luminance(resized.as_raw());
    let result = renderer.render_image(&resized, &brightness).unwrap();

    assert_eq!(result.width, 4);
    assert_eq!(result.height, 2);
    assert!(!result.ascii_text.is_empty());
    assert_eq!(result.rgb_data.len(), 4 * 2 * 3); // width * height * RGB
}

#[test]
fn resize_changes_the_picture() {
    let mut config = RenderConfig::default();
    config.target_width = 1;
    config.target_height = 1;
    let renderer = AsciiRenderer::new(config);
    let pixels = vec![255, 0, 0, 255, 0, 0, 255, 0, 0, 255, 0, 0];
    let img = RasterImage::from_raw(PixelLayout::Rgb8, 2, 2, pixels.clone()).unwrap();
    let resized = renderer.resize_image(img).unwrap();
    assert_eq!(resized.width(), 1);
    assert_eq!(resized.height(), 1);
    assert_eq!(resized.as_raw().len(), 3);
    assert_ne!(resized.as_raw(), &pixels);
    // four red pixels make one red pixel
    assert_eq!(resized.as_raw(), &vec![255, 0, 0]);
}

#[test]
fn resize_to_and_from_nothing() {
    let mut config = RenderConfig::default();
    config.target_width = 0;
    config.target_height = 3;
    let renderer = AsciiRenderer::new(config);
    let img = RasterImage::from_raw(PixelLayout::Rgb8, 2, 1, vec![1, 2, 3, 4, 5, 6]).unwrap();
    let none = renderer.resize_image(img).unwrap();
    assert_eq!((none.width(), none.height()), (0, 3));
    assert_eq!(none.as_raw().len(), 0);

    let mut config = RenderConfig::default();
    config.target_width = 2;
    config.target_height = 2;
    let renderer = AsciiRenderer::new(config);
    let empty = RasterImage::from_raw(PixelLayout::Rgb8, 0, 0, vec![]).unwrap();
    let blank = renderer.resize_image(empty).unwrap();
    assert_eq!(blank.as_raw(), &vec![0; 12]);
}

#[test]
fn resize_keeps_a_picture_of_the_target_size() {
    let mut config = RenderConfig::default();
    config.target_width = 2;
    config.target_height = 1;
    let renderer = AsciiRenderer::new(config);
    let img = RasterImage::from_raw(PixelLayout::Rgb8, 2, 1, vec![1, 2, 3, 4, 5, 6]).unwrap();
    let same = renderer.resize_image(img).unwrap();
    assert_eq!(same.as_raw(), &vec![1, 2, 3, 4, 5, 6]);
    let grey = RasterImage::from_raw(PixelLayout::Luma8, 2, 1, vec![1, 2]).unwrap();
    match renderer.resize_image(grey) {
        Err(MediaError::Image(m)) => assert_eq!(m, "Expected a picture of red, green and blue"),
        _ => panic!("expected an error"),
    }
}

#[test]
fn text_and_colors_of_a_picture() {
    let config = RenderConfig::default();
    let renderer = AsciiRenderer::new(config);
    let pixels = vec![
        255, 255, 255, 0, 0, 0, 128, 128, 128, // row 0
        10, 20, 30, 200, 200, 200, 255, 0, 0, // row 1
    ];
    let img = RasterImage::from_raw(PixelLayout::Rgb8, 3, 2, pixels.clone()).unwrap();
    let brightness = luminance(&pixels);
    assert_eq!(brightness, vec![255, 0, 128, 18, 200, 54]);
    let (text, colors) = renderer.image_to_ascii_with_color(&img, &brightness).unwrap();
    assert_eq!(text, "@ + #:");
    assert_eq!(text.chars().count(), 6);
    assert_eq!(colors, pixels);
}

#[test]
fn line_ends_are_black() {
    let mut config = RenderConfig::default();
    config.add_newlines = true;
    config.char_map_index = 7; // " █"
    let renderer = AsciiRenderer::new(config);
    let pixels = vec![255, 255, 255, 0, 0, 0, 9, 9, 9, 255, 255, 255];
    let img = RasterImage::from_raw(PixelLayout::Rgb8, 2, 2, pixels).unwrap();
    let (text, colors) = renderer.image_to_ascii_with_color(&img, &[255, 0, 0, 255]).unwrap();
    assert_eq!(text, "█ \r\n █");
    assert_eq!(
        colors,
        vec![255, 255, 255, 0, 0, 0, 0, 0, 0, 0, 0, 0, 9, 9, 9, 255, 255, 255]
    );
    // a single row has no line end
    let row = RasterImage::from_raw(PixelLayout::Rgb8, 2, 1, vec![0; 6]).unwrap();
    let (text, colors) = renderer.image_to_ascii_with_color(&row, &[0, 255]).unwrap();
    assert_eq!(text, " █");
    assert_eq!(colors.len(), 6);
    // an empty picture gives nothing
    let none = RasterImage::from_raw(PixelLayout::Rgb8, 0, 5, vec![]).unwrap();
    let (text, colors) = renderer.image_to_ascii_with_color(&none, &[]).unwrap();
    assert_eq!(text, "\r\n\r\n\r\n\r\n");
    assert_eq!(colors.len(), 24);
}

#[test]
fn brightness_must_fit_the_picture() {
    let renderer = AsciiRenderer::new(RenderConfig::default());
    let img = RasterImage::from_raw(PixelLayout::Rgb8, 2, 1, vec![0; 6]).unwrap();
    match renderer.image_to_ascii_with_color(&img, &[0]) {
        Err(MediaError::Image(m)) => assert_eq!(m, "The brightness does not fit the picture"),
        _ => panic!("expected an error"),
    }
    assert!(renderer.render_image(&img, &[0, 0, 0]).is_err());
    let grey = RasterImage::from_raw(PixelLayout::Luma8, 2, 1, vec![0; 2]).unwrap();
    assert!(renderer.image_to_ascii_with_color(&grey, &[0, 0]).is_err());
}

#[test]
fn renderer_settings() {
    let mut renderer = AsciiRenderer::new(RenderConfig::default());
    renderer.set_char_map(4);
    renderer.set_grayscale(true);
    renderer.update_resolution(200, 50);
    let config = renderer.config();
    assert_eq!(config.char_map_index, 4);
    assert!(config.grayscale);
    assert_eq!(config.target_width, 200);
    assert_eq!(config.target_height, 50);
    let mut other = RenderConfig::default();
    other.width_modifier = 65_536 + 3;
    renderer.update_config(other);
    renderer.update_resolution(10, 5);
    // the width is divided by the low sixteen bits of the modifier
    assert_eq!(renderer.config().target_width, 3);
    assert_eq!(renderer.config().target_height, 5);
}

#[test]
fn cell_colors() {
    let frame = RenderedFrame {
        ascii_text: "ab\r\nc".to_string(),
        rgb_data: vec![1, 2, 3, 4, 5, 6, 7, 8],
        width: 2,
        height: 2,
    };
    assert_eq!(frame.cell_color(0), Some((1, 2, 3)));
    assert_eq!(frame.cell_color(1), Some((4, 5, 6)));
    // two bytes are no colour
    assert_eq!(frame.cell_color(2), None);
    assert_eq!(frame.cell_color(usize::MAX), None);
    let empty = RenderedFrame { ascii_text: String::new(), rgb_data: vec![], width: 0, height: 0 };
    assert_eq!(empty.cell_color(0), None);
}
