use font_kit::canvas::{Canvas, Format, RasterizationOptions};
use font_kit::geometry::{Size, TextureBounds};

#[test]
fn bytes_per_pixel_of_each_format() {
    assert_eq!(Format::A8.bytes_per_pixel(), 1);
    assert_eq!(Format::Rgb24.bytes_per_pixel(), 3);
    assert_eq!(Format::Rgba32.bytes_per_pixel(), 4);
    assert_eq!(Format::A8.bits_per_pixel(), 8);
    assert_eq!(Format::Rgb24.bits_per_pixel(), 24);
    assert_eq!(Format::Rgba32.bits_per_pixel(), 32);
}

#[test]
fn new_canvas_is_zeroed_with_tight_stride() {
    let canvas = Canvas::new(&Size { width: 5, height: 3 }, Format::Rgb24);
    assert_eq!(canvas.stride, 15);
    assert_eq!(canvas.pixels, vec![0u8; 45]);
    assert_eq!(canvas.size, Size { width: 5, height: 3 });
    assert_eq!(canvas.format, Format::Rgb24);
}

#[test]
fn new_canvas_stride_covers_a_row_in_every_format() {
    for format in [Format::A8, Format::Rgb24, Format::Rgba32] {
        let canvas = Canvas::new(&Size { width: 7, height: 2 }, format);
        assert!(canvas.stride >= 7 * format.bytes_per_pixel() as usize);
        assert_eq!(canvas.pixels.len(), canvas.stride * 2);
    }
}

#[test]
fn empty_canvas_has_no_pixels() {
    let canvas = Canvas::new(&Size { width: 0, height: 4 }, Format::A8);
    assert_eq!(canvas.stride, 0);
    assert!(canvas.pixels.is_empty());
    let canvas = Canvas::new(&Size { width: 4, height: 0 }, Format::A8);
    assert_eq!(canvas.stride, 4);
    assert!(canvas.pixels.is_empty());
}

#[test]
fn with_stride_pads_rows() {
    let canvas = Canvas::with_stride(&Size { width: 3, height: 2 }, 8, Format::A8);
    assert_eq!(canvas.stride, 8);
    assert_eq!(canvas.pixels, vec![0u8; 16]);
}

#[test]
fn blit_converts_stride_only() {
    let mut canvas = Canvas::with_stride(&Size { width: 2, height: 2 }, 4, Format::A8);
    let source = [1u8, 2, 9, 3, 4, 9];
    canvas.blit_from(&source, &Size { width: 2, height: 2 }, 3, Format::A8);
    assert_eq!(canvas.pixels, vec![1, 2, 0, 0, 3, 4, 0, 0]);
    assert_eq!(canvas.stride, 4);
    assert_eq!(canvas.size, Size { width: 2, height: 2 });
}

#[test]
fn blit_from_larger_source_is_clamped_to_canvas() {
    let mut canvas = Canvas::new(&Size { width: 2, height: 2 }, Format::A8);
    let source = [1u8, 2, 3, 4, 5, 6, 7, 8, 9, 10, 11, 12];
    canvas.blit_from(&source, &Size { width: 4, height: 3 }, 4, Format::A8);
    assert_eq!(canvas.pixels, vec![1, 2, 5, 6]);
}

#[test]
fn blit_from_smaller_source_keeps_the_rest() {
    let mut canvas = Canvas::new(&Size { width: 3, height: 3 }, Format::A8);
    for byte in canvas.pixels.iter_mut() {
        *byte = 7;
    }
    let source = [1u8, 2, 3, 4];
    canvas.blit_from(&source, &Size { width: 2, height: 2 }, 2, Format::A8);
    assert_eq!(canvas.pixels, vec![1, 2, 7, 3, 4, 7, 7, 7, 7]);
}

#[test]
fn blit_copies_whole_pixels_in_rgb24() {
    let mut canvas = Canvas::new(&Size { width: 1, height: 2 }, Format::Rgb24);
    let source = [1u8, 2, 3, 4, 5, 6, 7, 8, 9, 10, 11, 12];
    canvas.blit_from(&source, &Size { width: 2, height: 2 }, 6, Format::Rgb24);
    assert_eq!(canvas.pixels, vec![1, 2, 3, 7, 8, 9]);
}

#[test]
fn blit_of_nothing_changes_nothing() {
    let mut canvas = Canvas::new(&Size { width: 2, height: 1 }, Format::A8);
    canvas.pixels[0] = 5;
    canvas.blit_from(&[], &Size { width: 0, height: 0 }, 0, Format::A8);
    assert_eq!(canvas.pixels, vec![5, 0]);
}

#[test]
fn texture_bounds_size_is_the_extent() {
    let bounds = TextureBounds { left: -3, top: -20, right: 14, bottom: 2 };
    assert!(bounds.is_well_formed());
    assert_eq!(bounds.size(), Size { width: 17, height: 22 });
}

#[test]
fn texture_bounds_out_of_order_are_not_well_formed() {
    assert!(!TextureBounds { left: 1, top: 0, right: 0, bottom: 0 }.is_well_formed());
    assert!(!TextureBounds { left: 0, top: 1, right: 0, bottom: 0 }.is_well_formed());
    assert!(!TextureBounds { left: i32::MIN, top: 0, right: i32::MAX, bottom: 0 }.is_well_formed());
    assert!(TextureBounds { left: 0, top: 0, right: 0, bottom: 0 }.is_well_formed());
}

#[test]
fn rasterization_options_are_distinct() {
    assert_ne!(RasterizationOptions::Bilevel, RasterizationOptions::GrayscaleAa);
    assert_ne!(RasterizationOptions::GrayscaleAa, RasterizationOptions::SubpixelAa);
}

#[test]
fn check_blit_from_tests_the_source() {
    let canvas = Canvas::new(&Size { width: 2, height: 2 }, Format::A8);
    let size = Size { width: 3, height: 2 };
    assert!(canvas.check_blit_from(6, &size, 3, Format::A8));
    assert!(canvas.check_blit_from(8, &size, 4, Format::A8));
    assert!(!canvas.check_blit_from(5, &size, 3, Format::A8));
    assert!(!canvas.check_blit_from(6, &size, 2, Format::A8));
    assert!(!canvas.check_blit_from(18, &size, 9, Format::Rgb24));
}

#[test]
fn malformed_canvas_is_detected() {
    let mut canvas = Canvas::new(&Size { width: 2, height: 2 }, Format::Rgb24);
    assert!(canvas.is_well_formed());
    canvas.stride = 5;
    assert!(!canvas.is_well_formed());
    canvas.stride = 6;
    canvas.pixels.pop();
    assert!(!canvas.is_well_formed());
}
