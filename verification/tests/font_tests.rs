use font_kit::canvas::{Canvas, Format, RasterizationOptions};
use font_kit::descriptor::{
    stretch_for_native_stretch, style_for_dwrite_style, NativeStyle, Stretch, Style, Weight,
};
use font_kit::font::{
    check_layout_fits, glyph_index, rendering_mode, texture_format, texture_layout,
    texture_type, Font,
    GlyphMetrics, GlyphRun,
    HintingOptions, IntPoint, IntVector, MeasuringMode, NativeMetrics, RenderingMode,
    TextureType, Type,
};
use font_kit::geometry::{IntRect, Size, TextureBounds};
use font_kit::outline::Coord;

fn glyph_metrics() -> GlyphMetrics {
    GlyphMetrics {
        left_side_bearing: 50,
        advance_width: 1200,
        right_side_bearing: 70,
        top_side_bearing: 100,
        advance_height: 2000,
        bottom_side_bearing: 300,
        vertical_origin_y: 1800,
    }
}

#[test]
fn from_bytes_keeps_the_bytes() {
    let font = Font::from_bytes(vec![1, 2, 3], 0, 1).unwrap();
    assert!(!font.wants_font_data());
    assert_eq!(font.font_data().unwrap().as_slice(), &[1u8, 2, 3][..]);
}

#[test]
fn from_bytes_rejects_unrecognized_data() {
    assert!(Font::from_bytes(vec![1, 2, 3], 0, 0).is_err());
}

#[test]
fn from_bytes_rejects_an_index_out_of_range() {
    assert!(Font::from_bytes(vec![1, 2, 3], 2, 2).is_err());
    assert!(Font::from_bytes(vec![1, 2, 3], 1, 2).is_ok());
    assert!(Font::from_bytes(vec![], u32::MAX, u32::MAX).is_err());
}

#[test]
fn from_native_font_knows_no_bytes() {
    let font = Font::from_native_font();
    assert!(font.wants_font_data());
    assert!(font.font_data().is_none());
}

#[test]
fn analyze_bytes_classifies_by_count() {
    assert_eq!(Font::analyze_bytes(0), Err(()));
    assert_eq!(Font::analyze_bytes(1), Ok(Type::Single));
    assert_eq!(Font::analyze_bytes(2), Ok(Type::Collection(2)));
    assert_eq!(Font::analyze_bytes(u32::MAX), Ok(Type::Collection(u32::MAX)));
}

#[test]
fn names_fall_back_to_the_family_name() {
    let font = Font::from_native_font();
    assert_eq!(
        font.postscript_name(Some(String::from("ArialMT")), String::from("Arial")),
        "ArialMT"
    );
    assert_eq!(font.postscript_name(None, String::from("Arial")), "Arial");
    assert_eq!(
        font.full_name(Some(String::from("Arial Bold")), String::from("Arial")),
        "Arial Bold"
    );
    assert_eq!(font.full_name(None, String::from("Arial")), "Arial");
}

#[test]
fn every_face_is_monospace() {
    assert!(Font::from_native_font().is_monospace());
}

#[test]
fn properties_map_style_stretch_and_weight() {
    let font = Font::from_native_font();
    let properties = font.properties(NativeStyle::Oblique, 5, 700);
    assert_eq!(properties.style, Style::Oblique);
    assert_eq!(properties.stretch, Stretch(1000));
    assert_eq!(properties.weight, Weight(700));
}

#[test]
fn stretch_table_has_nine_entries() {
    let expected = [500u32, 625, 750, 875, 1000, 1125, 1250, 1500, 2000];
    for (index, thousandths) in expected.iter().enumerate() {
        assert_eq!(stretch_for_native_stretch(index as u32 + 1), Stretch(*thousandths));
    }
}

#[test]
fn styles_map_by_name() {
    assert_eq!(style_for_dwrite_style(NativeStyle::Normal), Style::Normal);
    assert_eq!(style_for_dwrite_style(NativeStyle::Oblique), Style::Oblique);
    assert_eq!(style_for_dwrite_style(NativeStyle::Italic), Style::Italic);
}

#[test]
fn glyph_for_char_takes_the_first_index() {
    let font = Font::from_native_font();
    assert_eq!(font.glyph_for_char(&[36]), Some(36));
    assert_eq!(font.glyph_for_char(&[65535, 4]), Some(65535));
}

#[test]
fn missing_char_has_no_glyph() {
    let font = Font::from_native_font();
    assert_eq!(font.glyph_for_char(&[0]), None);
    assert_eq!(font.glyph_for_char(&[]), None);
    assert_eq!(font.glyph_for_char(&[0, 7]), None);
}

#[test]
fn typographic_bounds_follow_the_bearings() {
    let font = Font::from_native_font();
    assert_eq!(
        font.typographic_bounds(&glyph_metrics()),
        IntRect { x: 50, y: 100, width: 1080, height: 1600 }
    );
}

#[test]
fn typographic_bounds_width_is_advance_less_bearings() {
    let font = Font::from_native_font();
    for (left, advance, right) in [(0i32, 0u32, 0i32), (-30, 500, 40), (i32::MAX, u32::MAX, i32::MAX), (i32::MIN, 0, i32::MIN)] {
        let metrics = GlyphMetrics {
            left_side_bearing: left,
            advance_width: advance,
            right_side_bearing: right,
            ..glyph_metrics()
        };
        let bounds = font.typographic_bounds(&metrics);
        assert_eq!(bounds.width, advance as i64 - left as i64 - right as i64);
        assert_eq!(bounds.x, left as i64);
    }
}

#[test]
fn advance_is_horizontal() {
    let font = Font::from_native_font();
    assert_eq!(font.advance(&glyph_metrics()), IntVector { x: 1200, y: 0 });
}

#[test]
fn origin_is_zero() {
    let font = Font::from_native_font();
    assert_eq!(font.origin(3), IntPoint { x: 0, y: 0 });
    assert_eq!(font.origin(u32::MAX), IntPoint { x: 0, y: 0 });
}

#[test]
fn metrics_negate_the_descent() {
    let font = Font::from_native_font();
    let metrics = font.metrics(&NativeMetrics {
        design_units_per_em: 2048,
        ascent: 1854,
        descent: 434,
        line_gap: 67,
        cap_height: 1467,
        x_height: 1062,
        underline_position: -217,
        underline_thickness: 150,
    });
    assert_eq!(metrics.units_per_em, 2048);
    assert_eq!(metrics.ascent, 1854);
    assert_eq!(metrics.descent, -434);
    assert_eq!(metrics.line_gap, 67);
    assert_eq!(metrics.cap_height, 1467);
    assert_eq!(metrics.x_height, 1062);
    assert_eq!(metrics.underline_position, -217);
    assert_eq!(metrics.underline_thickness, 150);
}

#[test]
fn descent_is_never_positive() {
    let font = Font::from_native_font();
    for descent in [0u16, 1, 434, u16::MAX] {
        let metrics = font.metrics(&NativeMetrics {
            design_units_per_em: 1000,
            ascent: 0,
            descent,
            line_gap: 0,
            cap_height: 0,
            x_height: 0,
            underline_position: 0,
            underline_thickness: 0,
        });
        assert!(metrics.descent <= 0);
        assert_eq!(metrics.descent, -(descent as i32));
    }
}

#[test]
fn font_data_is_stored_once() {
    let mut font = Font::from_native_font();
    font.store_font_data(Some(vec![1, 2]));
    font.store_font_data(Some(vec![3, 4, 5]));
    assert_eq!(font.font_data().unwrap().as_slice(), &[1u8, 2][..]);
    font.store_font_data(None);
    assert_eq!(font.font_data().unwrap().as_slice(), &[1u8, 2][..]);
}

#[test]
fn font_data_stays_absent_without_a_file() {
    let mut font = Font::from_native_font();
    font.store_font_data(None);
    assert!(!font.wants_font_data());
    assert!(font.font_data().is_none());
    font.store_font_data(Some(vec![1, 2, 3]));
    assert!(!font.wants_font_data());
    assert!(font.font_data().is_none());
}

#[test]
fn two_readers_see_the_same_bytes() {
    let mut font = Font::from_native_font();
    let first_wants = font.wants_font_data();
    let second_wants = font.wants_font_data();
    assert!(first_wants && second_wants);
    font.store_font_data(Some(vec![4, 5, 6]));
    let first = font.font_data().unwrap().as_slice().to_vec();
    font.store_font_data(Some(vec![7, 8, 9]));
    let second = font.font_data().unwrap().as_slice().to_vec();
    assert_eq!(first, vec![4, 5, 6]);
    assert_eq!(second, first);
}

#[test]
fn cloned_font_keeps_the_bytes() {
    let font = Font::from_bytes(vec![9, 8], 0, 1).unwrap();
    let copy = font.clone();
    assert_eq!(copy.font_data().unwrap().as_slice(), &[9u8, 8][..]);
}

#[test]
fn single_glyph_run_has_one_upright_glyph() {
    let em_size = Coord { bits: 32.0f32.to_bits() };
    let run = GlyphRun::single(em_size, 36);
    assert_eq!(run.font_em_size, em_size);
    assert_eq!(run.glyph_count, 1);
    assert_eq!(run.glyph_index, 36);
    assert_eq!(f32::from_bits(run.glyph_advance.bits), 0.0);
    assert_eq!(f32::from_bits(run.advance_offset.bits), 0.0);
    assert_eq!(f32::from_bits(run.ascender_offset.bits), 0.0);
    assert!(!run.is_sideways);
    assert_eq!(run.bidi_level, 0);
}

#[test]
fn glyph_index_wraps_at_sixteen_bits() {
    let em_size = Coord { bits: 1.0f32.to_bits() };
    assert_eq!(GlyphRun::single(em_size, 65535).glyph_index, 65535);
    assert_eq!(GlyphRun::single(em_size, 65536).glyph_index, 0);
    assert_eq!(GlyphRun::single(em_size, 65536 + 7).glyph_index, 7);
    assert_eq!(glyph_index(u32::MAX), u16::MAX);
    assert_eq!(glyph_index(0), 0);
    assert!(!GlyphRun::single(em_size, 1).is_right_to_left());
}

#[test]
fn odd_bidi_levels_read_right_to_left() {
    let em_size = Coord { bits: 1.0f32.to_bits() };
    let mut run = GlyphRun::single(em_size, 1);
    run.bidi_level = 1;
    assert!(run.is_right_to_left());
    run.bidi_level = 2;
    assert!(!run.is_right_to_left());
}

#[test]
fn can_rasterize_glyph_tests_format_and_length() {
    let font = Font::from_native_font();
    let bounds = TextureBounds { left: 0, top: 0, right: 2, bottom: 2 };
    let a8 = Canvas::new(&Size { width: 2, height: 2 }, Format::A8);
    let rgb = Canvas::new(&Size { width: 2, height: 2 }, Format::Rgb24);
    let rgba = Canvas::new(&Size { width: 2, height: 2 }, Format::Rgba32);
    assert!(font.can_rasterize_glyph(&a8, 4, &bounds, RasterizationOptions::Bilevel));
    assert!(!font.can_rasterize_glyph(&a8, 3, &bounds, RasterizationOptions::Bilevel));
    assert!(!font.can_rasterize_glyph(&rgb, 12, &bounds, RasterizationOptions::Bilevel));
    assert!(font.can_rasterize_glyph(&rgb, 12, &bounds, RasterizationOptions::SubpixelAa));
    assert!(font.can_rasterize_glyph(&rgb, 12, &bounds, RasterizationOptions::GrayscaleAa));
    assert!(!font.can_rasterize_glyph(&rgb, 11, &bounds, RasterizationOptions::GrayscaleAa));
    assert!(!font.can_rasterize_glyph(&a8, 12, &bounds, RasterizationOptions::GrayscaleAa));
    for options in [
        RasterizationOptions::Bilevel,
        RasterizationOptions::GrayscaleAa,
        RasterizationOptions::SubpixelAa,
    ] {
        assert!(!font.can_rasterize_glyph(&rgba, 16, &bounds, options));
    }
    let reversed = TextureBounds { left: 2, top: 0, right: 0, bottom: 2 };
    assert!(!font.can_rasterize_glyph(&a8, 4, &reversed, RasterizationOptions::Bilevel));
}

#[test]
fn rendering_mode_and_texture_follow_the_options() {
    assert_eq!(rendering_mode(RasterizationOptions::Bilevel), RenderingMode::Aliased);
    assert_eq!(rendering_mode(RasterizationOptions::GrayscaleAa), RenderingMode::Natural);
    assert_eq!(rendering_mode(RasterizationOptions::SubpixelAa), RenderingMode::Natural);
    assert_eq!(texture_type(RasterizationOptions::Bilevel), TextureType::Aliased1x1);
    assert_eq!(texture_type(RasterizationOptions::GrayscaleAa), TextureType::ClearType3x1);
    assert_eq!(texture_type(RasterizationOptions::SubpixelAa), TextureType::ClearType3x1);
    assert_eq!(texture_format(TextureType::Aliased1x1), Format::A8);
    assert_eq!(texture_format(TextureType::ClearType3x1), Format::Rgb24);
}

#[test]
fn glyph_analysis_request_is_complete() {
    let font = Font::from_native_font();
    let point_size = Coord { bits: 32.0f32.to_bits() };
    let request = font.build_glyph_analysis(
        36,
        point_size,
        HintingOptions::Unhinted,
        RasterizationOptions::Bilevel,
    );
    assert_eq!(request.glyph_run, GlyphRun::single(point_size, 36));
    assert_eq!(f32::from_bits(request.pixels_per_dip.bits), 1.0);
    assert_eq!(request.rendering_mode, RenderingMode::Aliased);
    assert_eq!(request.measuring_mode, MeasuringMode::Natural);
    assert_eq!(f32::from_bits(request.baseline_x.bits), 0.0);
    assert_eq!(f32::from_bits(request.baseline_y.bits), 0.0);
    let request = font.build_glyph_analysis(
        36,
        point_size,
        HintingOptions::Vertical(point_size),
        RasterizationOptions::SubpixelAa,
    );
    assert_eq!(request.rendering_mode, RenderingMode::Natural);
}

#[test]
fn layout_fits_ordered_bounds_only() {
    let bounds = TextureBounds { left: -1, top: -24, right: 20, bottom: 1 };
    assert!(check_layout_fits(&bounds, TextureType::ClearType3x1));
    assert!(check_layout_fits(&bounds, TextureType::Aliased1x1));
    let reversed = TextureBounds { left: 20, top: -24, right: -1, bottom: 1 };
    assert!(!check_layout_fits(&reversed, TextureType::Aliased1x1));
}

#[test]
fn texture_layout_is_tight() {
    let bounds = TextureBounds { left: -1, top: -24, right: 20, bottom: 1 };
    let layout = texture_layout(&bounds, TextureType::ClearType3x1);
    assert_eq!(layout.size, Size { width: 21, height: 25 });
    assert_eq!(layout.stride, 63);
    assert_eq!(layout.format, Format::Rgb24);
    let layout = texture_layout(&bounds, TextureType::Aliased1x1);
    assert_eq!(layout.size, Size { width: 21, height: 25 });
    assert_eq!(layout.stride, 21);
    assert_eq!(layout.format, Format::A8);
}

#[test]
fn rasterize_glyph_copies_the_texture() {
    let font = Font::from_native_font();
    let bounds = TextureBounds { left: 2, top: -3, right: 5, bottom: -1 };
    let mut canvas = Canvas::new(&Size { width: 3, height: 2 }, Format::A8);
    let texture = [0u8, 255, 0, 255, 255, 255];
    font.rasterize_glyph(
        &mut canvas,
        &texture,
        &bounds,
        HintingOptions::Unhinted,
        RasterizationOptions::Bilevel,
    );
    assert_eq!(canvas.pixels, vec![0, 255, 0, 255, 255, 255]);
    assert!(canvas.pixels.iter().any(|byte| *byte != 0));
}

#[test]
fn rasterize_glyph_in_subpixel_mode_fills_rgb24() {
    let font = Font::from_native_font();
    let bounds = TextureBounds { left: 0, top: 0, right: 2, bottom: 1 };
    let mut canvas = Canvas::with_stride(&Size { width: 1, height: 1 }, 4, Format::Rgb24);
    let texture = [10u8, 20, 30, 40, 50, 60];
    font.rasterize_glyph(
        &mut canvas,
        &texture,
        &bounds,
        HintingOptions::Unhinted,
        RasterizationOptions::GrayscaleAa,
    );
    assert_eq!(canvas.pixels, vec![10, 20, 30, 0]);
}
