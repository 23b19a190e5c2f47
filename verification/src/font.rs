//! One face of a font as a native engine serves it: what the engine answers is
//! handed in as plain values, and what the caller sees is decided here.

use vstd::prelude::*;
use crate::canvas::{blitted, Canvas, Format, RasterizationOptions};
use crate::descriptor::{
    spec_style_for_dwrite_style, stretch_for_native_stretch, stretch_mapping,
    style_for_dwrite_style, NativeStyle, Properties, Weight, NATIVE_STRETCH_MAX,
    NATIVE_STRETCH_MIN,
};
use crate::geometry::{IntRect, Size, TextureBounds};
use crate::outline::{Coord, OutlineBuffer, PathEvent};

verus! {

/// What a font image holds.
#[derive(Clone, Copy, Debug, PartialEq, Eq, Structural)]
pub enum Type {
    /// One face.
    Single,
    /// A collection of this many faces.
    Collection(u32),
}

/// How outlines are fitted to the pixel grid. Each size is a single-precision
/// number of points, carried as its bit pattern.
#[derive(Clone, Copy, Debug, PartialEq, Eq, Structural)]
pub enum HintingOptions {
    /// No fitting at all.
    Unhinted,
    /// Fitting along the vertical axis only, for the given size.
    Vertical(Coord),
    /// Fitting along both axes, for the given size.
    Full(Coord),
}

/// The metrics of a face as the native engine reports them, in design units.
/// The native descent is a distance below the baseline and so is not negative.
#[derive(Clone, Copy, Debug, PartialEq, Eq, Structural)]
pub struct NativeMetrics {
    pub design_units_per_em: u16,
    pub ascent: u16,
    pub descent: u16,
    pub line_gap: i16,
    pub cap_height: u16,
    pub x_height: u16,
    pub underline_position: i16,
    pub underline_thickness: u16,
}

/// The metrics of a face in design units, with the vertical axis pointing up:
/// the descent is zero or negative.
#[derive(Clone, Copy, Debug, PartialEq, Eq, Structural)]
pub struct Metrics {
    pub units_per_em: u32,
    pub ascent: i32,
    pub descent: i32,
    pub line_gap: i32,
    pub cap_height: i32,
    pub x_height: i32,
    pub underline_position: i32,
    pub underline_thickness: i32,
}

/// The metrics of one glyph as the native engine reports them, in design units.
#[derive(Clone, Copy, Debug, PartialEq, Eq, Structural)]
pub struct GlyphMetrics {
    pub left_side_bearing: i32,
    pub advance_width: u32,
    pub right_side_bearing: i32,
    pub top_side_bearing: i32,
    pub advance_height: u32,
    pub bottom_side_bearing: i32,
    pub vertical_origin_y: i32,
}

/// A displacement in design units.
#[derive(Clone, Copy, Debug, PartialEq, Eq, Structural)]
pub struct IntVector {
    pub x: i64,
    pub y: i64,
}

/// A position in design units.
#[derive(Clone, Copy, Debug, PartialEq, Eq, Structural)]
pub struct IntPoint {
    pub x: i64,
    pub y: i64,
}

/// How the native engine is to render a glyph run.
#[derive(Clone, Copy, Debug, PartialEq, Eq, Structural)]
pub enum RenderingMode {
    Aliased,
    Natural,
}

/// How the native engine is to measure a glyph run.
#[derive(Clone, Copy, Debug, PartialEq, Eq, Structural)]
pub enum MeasuringMode {
    Natural,
}

/// The layout of the texture that the native engine is asked for.
#[derive(Clone, Copy, Debug, PartialEq, Eq, Structural)]
pub enum TextureType {
    /// One byte of coverage per pixel.
    Aliased1x1,
    /// Three bytes of coverage per pixel, one for each subpixel.
    ClearType3x1,
}

/// A run of one glyph, as the native engine wants it described.
#[derive(Clone, Copy, Debug, PartialEq, Eq, Structural)]
pub struct GlyphRun {
    pub font_em_size: Coord,
    pub glyph_count: u32,
    pub glyph_index: u16,
    pub glyph_advance: Coord,
    pub advance_offset: Coord,
    pub ascender_offset: Coord,
    pub is_sideways: bool,
    pub bidi_level: u32,
}

/// Everything the native engine needs to analyse a glyph run.
#[derive(Clone, Copy, Debug, PartialEq, Eq, Structural)]
pub struct GlyphAnalysisRequest {
    pub glyph_run: GlyphRun,
    pub pixels_per_dip: Coord,
    pub rendering_mode: RenderingMode,
    pub measuring_mode: MeasuringMode,
    pub baseline_x: Coord,
    pub baseline_y: Coord,
}

/// Size, stride and format of a texture that the native engine hands back
/// with no padding between its rows.
#[derive(Clone, Copy, Debug, PartialEq, Eq, Structural)]
pub struct TextureLayout {
    pub size: Size,
    pub stride: usize,
    pub format: Format,
}

/// The bit pattern of the single-precision number zero.
pub const ZERO_BITS: u32 = 0;

/// The bit pattern of the single-precision number one.
pub const ONE_BITS: u32 = 0x3f80_0000;

/// The native engine can only address this many glyphs.
pub const GLYPH_INDEX_LIMIT: u32 = 0x1_0000;

/// The run of the one glyph `glyph_id` at `em_size`: no advance, no offset,
/// upright, left to right. The native engine addresses glyphs with 16 bits, so
/// the glyph's number is taken modulo `GLYPH_INDEX_LIMIT`.
pub open spec fn single_glyph_run(em_size: Coord, glyph_id: u32) -> GlyphRun {
    GlyphRun {
        font_em_size: em_size,
        glyph_count: 1,
        glyph_index: (glyph_id % GLYPH_INDEX_LIMIT) as u16,
        glyph_advance: Coord { bits: ZERO_BITS },
        advance_offset: Coord { bits: ZERO_BITS },
        ascender_offset: Coord { bits: ZERO_BITS },
        is_sideways: false,
        bidi_level: 0,
    }
}

/// Aliased rendering for bilevel output, natural rendering for both
/// antialiased kinds.
pub open spec fn spec_rendering_mode(options: RasterizationOptions) -> RenderingMode {
    match options {
        RasterizationOptions::Bilevel => RenderingMode::Aliased,
        RasterizationOptions::GrayscaleAa => RenderingMode::Natural,
        RasterizationOptions::SubpixelAa => RenderingMode::Natural,
    }
}

/// A one-byte texture for bilevel output, a three-byte texture for both
/// antialiased kinds.
pub open spec fn spec_texture_type(options: RasterizationOptions) -> TextureType {
    match options {
        RasterizationOptions::Bilevel => TextureType::Aliased1x1,
        RasterizationOptions::GrayscaleAa => TextureType::ClearType3x1,
        RasterizationOptions::SubpixelAa => TextureType::ClearType3x1,
    }
}

/// The canvas format that holds a texture of the given type.
pub open spec fn spec_texture_format(texture_type: TextureType) -> Format {
    match texture_type {
        TextureType::Aliased1x1 => Format::A8,
        TextureType::ClearType3x1 => Format::Rgb24,
    }
}

/// The layout of a tightly packed texture with the given bounds and type.
pub open spec fn spec_texture_layout(bounds: TextureBounds, texture_type: TextureType)
    -> TextureLayout {
    TextureLayout {
        size: Size {
            width: (bounds.right - bounds.left) as u32,
            height: (bounds.bottom - bounds.top) as u32,
        },
        stride: ((bounds.right - bounds.left) * spec_texture_format(
            texture_type,
        ).spec_bytes_per_pixel()) as usize,
        format: spec_texture_format(texture_type),
    }
}

/// The 16-bit index by which the native engine knows the glyph `glyph_id`:
/// the glyph's number modulo `GLYPH_INDEX_LIMIT`.
pub fn glyph_index(glyph_id: u32) -> (index: u16)
    ensures
        index == glyph_id % GLYPH_INDEX_LIMIT,
        glyph_id < GLYPH_INDEX_LIMIT ==> index == glyph_id,
{
    (glyph_id % GLYPH_INDEX_LIMIT) as u16
}

impl GlyphRun {
    /// Whether the run reads from right to left: its bidi level is odd.
    pub open spec fn spec_is_right_to_left(&self) -> bool {
        self.bidi_level % 2 == 1
    }

    /// Whether the run reads from right to left.
    pub fn is_right_to_left(&self) -> (right_to_left: bool)
        ensures
            right_to_left == self.spec_is_right_to_left(),
    {
        self.bidi_level % 2 == 1
    }

    /// Describes the run of the one glyph `glyph_id` at `em_size`.
    pub fn single(em_size: Coord, glyph_id: u32) -> (run: GlyphRun)
        ensures
            run == single_glyph_run(em_size, glyph_id),
            !run.spec_is_right_to_left(),
    {
        GlyphRun {
            font_em_size: em_size,
            glyph_count: 1,
            glyph_index: glyph_index(glyph_id),
            glyph_advance: Coord { bits: ZERO_BITS },
            advance_offset: Coord { bits: ZERO_BITS },
            ascender_offset: Coord { bits: ZERO_BITS },
            is_sideways: false,
            bidi_level: 0,
        }
    }
}

/// Chooses the native rendering mode for a kind of rasterization.
pub fn rendering_mode(options: RasterizationOptions) -> (mode: RenderingMode)
    ensures
        mode == spec_rendering_mode(options),
{
    match options {
        RasterizationOptions::Bilevel => RenderingMode::Aliased,
        RasterizationOptions::GrayscaleAa | RasterizationOptions::SubpixelAa => {
            RenderingMode::Natural
        },
    }
}

/// Chooses the native texture type for a kind of rasterization.
pub fn texture_type(options: RasterizationOptions) -> (kind: TextureType)
    ensures
        kind == spec_texture_type(options),
{
    match options {
        RasterizationOptions::Bilevel => TextureType::Aliased1x1,
        RasterizationOptions::GrayscaleAa | RasterizationOptions::SubpixelAa => {
            TextureType::ClearType3x1
        },
    }
}

/// The canvas format that holds a texture of the given type.
pub fn texture_format(kind: TextureType) -> (format: Format)
    ensures
        format == spec_texture_format(kind),
{
    match kind {
        TextureType::Aliased1x1 => Format::A8,
        TextureType::ClearType3x1 => Format::Rgb24,
    }
}

/// Whether a tightly packed row of a texture with these bounds and this type
/// has a length that the machine can address.
pub open spec fn layout_fits(bounds: TextureBounds, texture_type: TextureType) -> bool {
    &&& bounds.well_formed()
    &&& (bounds.right - bounds.left) * spec_texture_format(texture_type).spec_bytes_per_pixel()
        <= usize::MAX
}

/// Tests `layout_fits`.
pub fn check_layout_fits(bounds: &TextureBounds, kind: TextureType) -> (ok: bool)
    ensures
        ok == layout_fits(*bounds, kind),
{
    if !bounds.is_well_formed() {
        return false;
    }
    let width: u128 = bounds.size().width as u128;
    let pixel_bytes: u128 = texture_format(kind).bytes_per_pixel() as u128;
    assert(width * pixel_bytes <= 0xffff_ffff * 4) by (nonlinear_arith)
        requires
            0 <= width <= 0xffff_ffff,
            0 <= pixel_bytes <= 4,
    ;
    width * pixel_bytes <= usize::MAX as u128
}

/// Derives size, tight stride and format of the texture that the native
/// engine returns for `bounds`.
pub fn texture_layout(bounds: &TextureBounds, kind: TextureType) -> (layout: TextureLayout)
    requires
        layout_fits(*bounds, kind),
    ensures
        layout == spec_texture_layout(*bounds, kind),
        layout.size.width == bounds.right - bounds.left,
        layout.size.height == bounds.bottom - bounds.top,
        layout.stride == layout.size.width * layout.format.spec_bytes_per_pixel(),
{
    let format = texture_format(kind);
    let bytes_per_pixel: usize = format.bytes_per_pixel() as usize;
    let size = bounds.size();
    let stride: usize = size.width as usize * bytes_per_pixel;
    TextureLayout { size, stride, format }
}

/// What a font image holds, given how many faces the native engine counts
/// in it: none means that the engine does not recognise the image.
pub open spec fn spec_analyze_bytes(font_count: u32) -> Result<Type, ()> {
    if font_count == 0 {
        Err(())
    } else if font_count == 1 {
        Ok(Type::Single)
    } else {
        Ok(Type::Collection(font_count))
    }
}

/// The glyph that the native engine's answer for one code point names. The
/// engine answers 0 for a code point that the font does not map, and 0 is
/// never taken for a glyph.
pub open spec fn spec_glyph_for_char(glyph_indices: Seq<u16>) -> Option<u32> {
    if glyph_indices.len() == 0 || glyph_indices[0] == 0 {
        None
    } else {
        Some(glyph_indices[0] as u32)
    }
}

/// The design-space bounding box that a glyph's advances and bearings span.
pub open spec fn spec_typographic_bounds(metrics: GlyphMetrics) -> IntRect {
    IntRect {
        x: metrics.left_side_bearing as i64,
        y: (metrics.vertical_origin_y + metrics.bottom_side_bearing
            - metrics.advance_height) as i64,
        width: (metrics.advance_width - (metrics.left_side_bearing
            + metrics.right_side_bearing)) as i64,
        height: (metrics.advance_height - (metrics.top_side_bearing
            + metrics.bottom_side_bearing)) as i64,
    }
}

/// The portable metrics for native ones: each value kept, the descent negated.
pub open spec fn spec_metrics(native: NativeMetrics) -> Metrics {
    Metrics {
        units_per_em: native.design_units_per_em as u32,
        ascent: native.ascent as i32,
        descent: (-(native.descent as int)) as i32,
        line_gap: native.line_gap as i32,
        cap_height: native.cap_height as i32,
        x_height: native.x_height as i32,
        underline_position: native.underline_position as i32,
        underline_thickness: native.underline_thickness as i32,
    }
}

/// What a face knows of the bytes of its font.
pub enum FontDataCache {
    /// Nothing yet: the bytes have never been asked for.
    Unfetched,
    /// The bytes were asked for, and no file backs the native handle.
    Absent,
    /// The bytes.
    Present(Seq<u8>),
}

/// The cache after a fetch has come back with the bytes of the first file
/// behind the native handle, or with nothing where no file backs it. Only a
/// cache that was never filled takes the outcome; any other stays as it is.
pub open spec fn spec_store_font_data(cache: FontDataCache, fetched: Option<Seq<u8>>)
    -> FontDataCache {
    match cache {
        FontDataCache::Unfetched => match fetched {
            Some(bytes) => FontDataCache::Present(bytes),
            None => FontDataCache::Absent,
        },
        _ => cache,
    }
}

/// The bytes that a cache holds, if it holds any.
pub open spec fn cached_bytes(cache: FontDataCache) -> Option<Seq<u8>> {
    match cache {
        FontDataCache::Present(bytes) => Some(bytes),
        _ => None,
    }
}

/// The request that analyses the one glyph `glyph_id` at `point_size`: scale
/// one, no transform, natural measuring, the baseline at the origin.
pub open spec fn spec_glyph_analysis(
    glyph_id: u32,
    point_size: Coord,
    options: RasterizationOptions,
) -> GlyphAnalysisRequest {
    GlyphAnalysisRequest {
        glyph_run: single_glyph_run(point_size, glyph_id),
        pixels_per_dip: Coord { bits: ONE_BITS },
        rendering_mode: spec_rendering_mode(options),
        measuring_mode: MeasuringMode::Natural,
        baseline_x: Coord { bits: ZERO_BITS },
        baseline_y: Coord { bits: ZERO_BITS },
    }
}

/// Whether a texture of `texture_len` bytes with the given bounds can be
/// copied into `canvas` for this kind of rasterization: the canvas has the
/// texture's format, and the texture holds every row of its bounds.
pub open spec fn can_rasterize(
    canvas: Canvas,
    texture_len: int,
    bounds: TextureBounds,
    options: RasterizationOptions,
) -> bool {
    let kind = spec_texture_type(options);
    let layout = spec_texture_layout(bounds, kind);
    &&& canvas.well_formed()
    &&& canvas.format == spec_texture_format(kind)
    &&& layout_fits(bounds, kind)
    &&& texture_len >= layout.stride * layout.size.height
}

/// A read-only view of the bytes of the font that a face was made from.
pub struct FontData<'a> {
    font_data: &'a Vec<u8>,
}

impl<'a> View for FontData<'a> {
    type V = Seq<u8>;

    closed spec fn view(&self) -> Seq<u8> {
        self.font_data@
    }
}

impl<'a> FontData<'a> {
    /// The bytes of the font.
    pub fn as_slice(&self) -> (bytes: &'a [u8])
        ensures
            bytes@ == self@,
    {
        self.font_data.as_slice()
    }
}

/// The state that a face keeps beside its native handle: the bytes of the
/// font it was made from, once they are known. The view is what is known of
/// those bytes.
#[derive(Debug)]
pub struct Font {
    cached_data: Option<Vec<u8>>,
    fetched: bool,
}

impl View for Font {
    type V = FontDataCache;

    closed spec fn view(&self) -> FontDataCache {
        match self.cached_data {
            Some(bytes) => FontDataCache::Present(bytes@),
            None => if self.fetched {
                FontDataCache::Absent
            } else {
                FontDataCache::Unfetched
            },
        }
    }
}

impl Clone for Font {
    /// A copy that knows exactly what this face knows of its bytes. From then
    /// on each of the two fills its own cache.
    fn clone(&self) -> (copy: Font)
        ensures
            copy@ == self@,
    {
        let cached_data = match &self.cached_data {
            Some(bytes) => {
                let copied = bytes.clone();
                assert(copied@ =~= bytes@);
                Some(copied)
            },
            None => None,
        };
        Font { cached_data, fetched: self.fetched }
    }
}

impl Font {
    /// The face at `font_index` of a font image in which the native engine
    /// counts `font_count` faces. There is one exactly if the index is below
    /// the count; an image that the engine does not recognise counts none.
    /// The face remembers the bytes it was made from.
    pub fn from_bytes(font_data: Vec<u8>, font_index: u32, font_count: u32) -> (result: Result<
        Font,
        (),
    >)
        ensures
            result is Ok <==> font_index < font_count,
            result is Ok ==> result->Ok_0@ == FontDataCache::Present(font_data@),
    {
        if font_index < font_count {
            Ok(Font { cached_data: Some(font_data), fetched: true })
        } else {
            Err(())
        }
    }

    /// The state of a face that wraps an existing native handle: no bytes are
    /// known yet.
    pub fn from_native_font() -> (font: Font)
        ensures
            font@ == FontDataCache::Unfetched,
    {
        Font { cached_data: None, fetched: false }
    }

    /// Classifies a font image by the number of faces that the native engine
    /// counts in it.
    pub fn analyze_bytes(font_count: u32) -> (result: Result<Type, ()>)
        ensures
            result == spec_analyze_bytes(font_count),
    {
        if font_count == 0 {
            Err(())
        } else if font_count == 1 {
            Ok(Type::Single)
        } else {
            Ok(Type::Collection(font_count))
        }
    }

    /// The PostScript name: the native informational string where the engine
    /// has one, else the family name.
    pub fn postscript_name(
        &self,
        informational: Option<String>,
        family_name: String,
    ) -> (name: String)
        ensures
            name@ == (match informational {
                Some(given) => given@,
                None => family_name@,
            }),
    {
        match informational {
            Some(given) => given,
            None => family_name,
        }
    }

    /// The full name: the native informational string where the engine has
    /// one, else the family name.
    pub fn full_name(&self, informational: Option<String>, family_name: String) -> (name: String)
        ensures
            name@ == (match informational {
                Some(given) => given@,
                None => family_name@,
            }),
    {
        match informational {
            Some(given) => given,
            None => family_name,
        }
    }

    /// Every face is reported as monospaced.
    pub fn is_monospace(&self) -> (monospace: bool)
        ensures
            monospace,
    {
        true
    }

    /// The shape of the face, from the native style, width class and weight.
    pub fn properties(
        &self,
        style: NativeStyle,
        stretch: u32,
        weight: u32,
    ) -> (properties: Properties)
        requires
            NATIVE_STRETCH_MIN <= stretch <= NATIVE_STRETCH_MAX,
        ensures
            properties.style == spec_style_for_dwrite_style(style),
            properties.stretch.0 == stretch_mapping(stretch as int),
            properties.weight.0 == weight,
    {
        Properties {
            style: style_for_dwrite_style(style),
            stretch: stretch_for_native_stretch(stretch),
            weight: Weight(weight),
        }
    }

    /// The glyph for a character, from the native engine's answer for its
    /// code point alone. A code point that the font does not map has no glyph.
    pub fn glyph_for_char(&self, glyph_indices: &[u16]) -> (glyph: Option<u32>)
        ensures
            glyph == spec_glyph_for_char(glyph_indices@),
            glyph is Some ==> glyph->Some_0 != 0,
    {
        if glyph_indices.len() == 0 {
            None
        } else {
            let first: u16 = glyph_indices[0];
            if first == 0 {
                None
            } else {
                Some(first as u32)
            }
        }
    }

    /// Hands out the outline that the native engine has reported into
    /// `outline_buffer`, in the order of the reports, and empties the buffer.
    /// The hinting options have no part in it.
    pub fn outline(
        &self,
        hinting_options: HintingOptions,
        outline_buffer: &mut OutlineBuffer,
    ) -> (result: Result<Vec<PathEvent>, ()>)
        ensures
            result is Ok,
            result->Ok_0@ == old(outline_buffer)@,
            final(outline_buffer)@ == Seq::<PathEvent>::empty(),
    {
        Ok(outline_buffer.flush())
    }

    /// The design-space bounding box of a glyph: its width is the advance
    /// width less both side bearings, its height the advance height less the
    /// top and bottom bearings; it starts at the left bearing and at the
    /// vertical origin plus the bottom bearing less the advance height.
    pub fn typographic_bounds(&self, metrics: &GlyphMetrics) -> (bounds: IntRect)
        ensures
            bounds == spec_typographic_bounds(*metrics),
            bounds.x == metrics.left_side_bearing,
            bounds.y == metrics.vertical_origin_y + metrics.bottom_side_bearing
                - metrics.advance_height,
            bounds.width == metrics.advance_width - metrics.left_side_bearing
                - metrics.right_side_bearing,
            bounds.height == metrics.advance_height - metrics.top_side_bearing
                - metrics.bottom_side_bearing,
    {
        let advance_width: i64 = metrics.advance_width as i64;
        let advance_height: i64 = metrics.advance_height as i64;
        let left_side_bearing: i64 = metrics.left_side_bearing as i64;
        let right_side_bearing: i64 = metrics.right_side_bearing as i64;
        let top_side_bearing: i64 = metrics.top_side_bearing as i64;
        let bottom_side_bearing: i64 = metrics.bottom_side_bearing as i64;
        let vertical_origin_y: i64 = metrics.vertical_origin_y as i64;

        let y_offset: i64 = vertical_origin_y + bottom_side_bearing - advance_height;
        let width: i64 = advance_width - (left_side_bearing + right_side_bearing);
        let height: i64 = advance_height - (top_side_bearing + bottom_side_bearing);

        IntRect { x: left_side_bearing, y: y_offset, width, height }
    }

    /// The advance of a glyph: its advance width along the line, nothing across.
    pub fn advance(&self, metrics: &GlyphMetrics) -> (advance: IntVector)
        ensures
            advance.x == metrics.advance_width,
            advance.y == 0,
    {
        IntVector { x: metrics.advance_width as i64, y: 0 }
    }

    /// The origin of a glyph for vertical writing. No glyph has another
    /// origin than zero yet.
    pub fn origin(&self, glyph_id: u32) -> (origin: IntPoint)
        ensures
            origin.x == 0,
            origin.y == 0,
    {
        IntPoint { x: 0, y: 0 }
    }

    /// The metrics of the face. The native descent is a distance below the
    /// baseline; here it is a coordinate, so it is negated and never positive.
    pub fn metrics(&self, native: &NativeMetrics) -> (metrics: Metrics)
        ensures
            metrics == spec_metrics(*native),
            metrics.descent == -native.descent,
            metrics.descent <= 0,
    {
        Metrics {
            units_per_em: native.design_units_per_em as u32,
            ascent: native.ascent as i32,
            descent: -(native.descent as i32),
            line_gap: native.line_gap as i32,
            cap_height: native.cap_height as i32,
            x_height: native.x_height as i32,
            underline_position: native.underline_position as i32,
            underline_thickness: native.underline_thickness as i32,
        }
    }

    /// Whether the bytes of the font have never been asked for, so that they
    /// have to be fetched from the file behind the native handle.
    pub fn wants_font_data(&self) -> (wanted: bool)
        ensures
            wanted == (self@ == FontDataCache::Unfetched),
    {
        self.cached_data.is_none() && !self.fetched
    }

    /// Takes the outcome of a fetch of the font's bytes: the bytes of the
    /// first file behind the native handle, or nothing where no file backs it.
    /// Only the first outcome is kept: bytes that are known are never
    /// replaced, and a face that was found to have no file stays without bytes.
    pub fn store_font_data(&mut self, fetched: Option<Vec<u8>>)
        ensures
            final(self)@ == spec_store_font_data(
                old(self)@,
                match fetched {
                    Some(bytes) => Some(bytes@),
                    None => None,
                },
            ),
    {
        if self.cached_data.is_none() && !self.fetched {
            self.cached_data = fetched;
            self.fetched = true;
        }
    }

    /// The bytes of the font where they are known.
    pub fn font_data(&self) -> (data: Option<FontData<'_>>)
        ensures
            data is Some <==> cached_bytes(self@) is Some,
            data is Some ==> Some(data->Some_0@) == cached_bytes(self@),
    {
        match &self.cached_data {
            Some(bytes) => Some(FontData { font_data: bytes }),
            None => None,
        }
    }

    /// Describes the analysis of the one glyph `glyph_id` at `point_size` for
    /// the native engine. The hinting options have no part in it.
    pub fn build_glyph_analysis(
        &self,
        glyph_id: u32,
        point_size: Coord,
        hinting_options: HintingOptions,
        rasterization_options: RasterizationOptions,
    ) -> (request: GlyphAnalysisRequest)
        ensures
            request == spec_glyph_analysis(glyph_id, point_size, rasterization_options),
    {
        GlyphAnalysisRequest {
            glyph_run: GlyphRun::single(point_size, glyph_id),
            pixels_per_dip: Coord { bits: ONE_BITS },
            rendering_mode: rendering_mode(rasterization_options),
            measuring_mode: MeasuringMode::Natural,
            baseline_x: Coord { bits: ZERO_BITS },
            baseline_y: Coord { bits: ZERO_BITS },
        }
    }

    /// Tests `can_rasterize` for a texture of `texture_len` bytes.
    pub fn can_rasterize_glyph(
        &self,
        canvas: &Canvas,
        texture_len: usize,
        texture_bounds: &TextureBounds,
        rasterization_options: RasterizationOptions,
    ) -> (ok: bool)
        ensures
            ok == can_rasterize(
                *canvas,
                texture_len as int,
                *texture_bounds,
                rasterization_options,
            ),
    {
        let kind = texture_type(rasterization_options);
        if !canvas.is_well_formed() || canvas.format != texture_format(kind)
            || !check_layout_fits(texture_bounds, kind) {
            return false;
        }
        let layout = texture_layout(texture_bounds, kind);
        let row_bytes: u128 = layout.stride as u128;
        let height: u128 = layout.size.height as u128;
        assert(row_bytes * height <= 0xffff_ffff_ffff_ffff * 0xffff_ffff) by (nonlinear_arith)
            requires
                0 <= row_bytes <= 0xffff_ffff_ffff_ffff,
                0 <= height <= 0xffff_ffff,
        ;
        texture_len as u128 >= row_bytes * height
    }

    /// Copies the texture that the native engine has made for a glyph into
    /// the canvas. The texture is tightly packed: its stride is its width
    /// times the bytes of a pixel. Rows and columns beyond the canvas are
    /// left out, and the canvas keeps every byte that the texture does not
    /// cover.
    pub fn rasterize_glyph(
        &self,
        canvas: &mut Canvas,
        texture_bytes: &[u8],
        texture_bounds: &TextureBounds,
        hinting_options: HintingOptions,
        rasterization_options: RasterizationOptions,
    )
        requires
            can_rasterize(
                *old(canvas),
                texture_bytes@.len() as int,
                *texture_bounds,
                rasterization_options,
            ),
        ensures
            final(canvas).well_formed(),
            final(canvas).size == old(canvas).size,
            final(canvas).stride == old(canvas).stride,
            final(canvas).format == old(canvas).format,
            final(canvas).pixels@ == blitted(
                old(canvas).pixels@,
                old(canvas).stride as int,
                texture_bytes@,
                spec_texture_layout(
                    *texture_bounds,
                    spec_texture_type(rasterization_options),
                ).stride as int,
                old(canvas).blit_rows(
                    spec_texture_layout(
                        *texture_bounds,
                        spec_texture_type(rasterization_options),
                    ).size,
                ),
                old(canvas).blit_row_bytes(
                    spec_texture_layout(
                        *texture_bounds,
                        spec_texture_type(rasterization_options),
                    ).size,
                ),
            ),
    {
        let kind = texture_type(rasterization_options);
        let layout = texture_layout(texture_bounds, kind);
        canvas.blit_from(texture_bytes, &layout.size, layout.stride, layout.format);
    }
}

/// No canvas of four-byte pixels is ever rasterized into: a glyph texture has
/// one byte or three bytes to a pixel, and the canvas must have its format.
pub proof fn lemma_rgba32_is_never_rasterized(
    canvas: Canvas,
    texture_len: int,
    bounds: TextureBounds,
    options: RasterizationOptions,
)
    requires
        can_rasterize(canvas, texture_len, bounds, options),
    ensures
        canvas.format != Format::Rgba32,
        options == RasterizationOptions::Bilevel <==> canvas.format == Format::A8,
{
}

/// The cache is filled exactly once: whatever the first fetch brings, the
/// cache is no longer unfetched after it, and no later fetch changes it. Two
/// readers that each fetch and store therefore see the same bytes.
pub proof fn lemma_font_data_stored_once(
    cache: FontDataCache,
    first: Option<Seq<u8>>,
    second: Option<Seq<u8>>,
)
    ensures
        spec_store_font_data(cache, first) != FontDataCache::Unfetched,
        spec_store_font_data(spec_store_font_data(cache, first), second) == spec_store_font_data(
            cache,
            first,
        ),
        cache == FontDataCache::Unfetched ==> cached_bytes(spec_store_font_data(cache, first))
            == first,
        cache != FontDataCache::Unfetched ==> spec_store_font_data(cache, first) == cache,
{
}

/// The descent of portable metrics is never positive, whatever the native
/// engine reports.
pub proof fn lemma_descent_not_positive(native: NativeMetrics)
    ensures
        spec_metrics(native).descent <= 0,
        spec_metrics(native).descent == -native.descent,
{
}

/// The width of the typographic bounds is the advance width less the two
/// side bearings, and the height is the advance height less the top and
/// bottom bearings.
pub proof fn lemma_typographic_bounds_consistent(metrics: GlyphMetrics)
    ensures
        spec_typographic_bounds(metrics).width == metrics.advance_width
            - metrics.left_side_bearing - metrics.right_side_bearing,
        spec_typographic_bounds(metrics).height == metrics.advance_height
            - metrics.top_side_bearing - metrics.bottom_side_bearing,
{
}

/// A code point for which the native engine answers 0 has no glyph, and no
/// glyph that is handed out is 0.
pub proof fn lemma_missing_char_has_no_glyph(glyph_indices: Seq<u16>)
    ensures
        glyph_indices.len() > 0 && glyph_indices[0] == 0 ==> spec_glyph_for_char(glyph_indices)
            is None,
        spec_glyph_for_char(glyph_indices) != Some(0u32),
{
}

} // verus!
