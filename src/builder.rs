//! Builder of the glyph cache: fonts given as parsed font objects or as raw
//! font-file bytes.
use vstd::prelude::*;

use std::hash::BuildHasher;

use glyph_brush::ab_glyph::{Font, FontRef, InvalidFont};
use glyph_brush::{DefaultSectionHasher, FontId, GlyphBrushBuilder};

use crate::atlas::Dimensions;

verus! {

#[verifier::external_type_specification]
#[verifier::external_body]
pub struct ExFontRef<'a>(FontRef<'a>);

#[verifier::external_type_specification]
#[verifier::external_body]
pub struct ExInvalidFont(InvalidFont);

#[verifier::external_type_specification]
#[verifier::external_body]
pub struct ExDefaultSectionHasher(DefaultSectionHasher);

#[verifier::external_type_specification]
pub struct ExFontId(FontId);

#[verifier::external_type_specification]
#[verifier::external_body]
#[verifier::reject_recursive_types(F)]
#[verifier::reject_recursive_types(H)]
pub struct ExGlyphBrushBuilder<F, H>(GlyphBrushBuilder<F, H>);

/// The bytes are a font file that the font parser accepts.
pub uninterp spec fn parses_as_font(data: Seq<u8>) -> bool;

/// Relies on ab_glyph::FontRef::try_from_slice: it fails exactly when the
/// bytes do not parse as a font, and the outcome depends on the bytes alone.
#[verifier::external_body]
fn parse_font<'a>(data: &'a [u8]) -> (r: Result<FontRef<'a>, InvalidFont>)
    ensures
        r is Ok <==> parses_as_font(data@),
{
    FontRef::try_from_slice(data)
}

/// Relies on glyph_brush::GlyphBrushBuilder::using_fonts to make a glyph-cache
/// builder over the given fonts.
#[verifier::external_body]
fn glyph_brush_builder<F: Font>(fonts: Vec<F>) -> GlyphBrushBuilder<F> {
    GlyphBrushBuilder::using_fonts(fonts)
}

/// Relies on glyph_brush::GlyphBrushBuilder::initial_cache_size to set the
/// size of the atlas that the built cache starts with.
#[verifier::external_body]
fn with_initial_cache_size<F: Font, H: BuildHasher>(
    b: GlyphBrushBuilder<F, H>,
    size: (u32, u32),
) -> GlyphBrushBuilder<F, H> {
    b.initial_cache_size(size)
}

/// Relies on glyph_brush::GlyphBrushBuilder::draw_cache_align_4x4 to set
/// whether glyphs are aligned to 4x4 texel blocks in the atlas.
#[verifier::external_body]
fn with_align_4x4<F: Font, H: BuildHasher>(b: GlyphBrushBuilder<F, H>, align: bool) -> GlyphBrushBuilder<F, H> {
    b.draw_cache_align_4x4(align)
}

/// Relies on glyph_brush::GlyphBrushBuilder::cache_glyph_positioning to set
/// whether glyph layouts are reused across frames.
#[verifier::external_body]
fn with_cache_glyph_positioning<F: Font, H: BuildHasher>(
    b: GlyphBrushBuilder<F, H>,
    cache: bool,
) -> GlyphBrushBuilder<F, H> {
    b.cache_glyph_positioning(cache)
}

/// Relies on glyph_brush::GlyphBrushBuilder::cache_redraws to set whether an
/// unchanged draw queue is redrawn without new vertices.
#[verifier::external_body]
fn with_cache_redraws<F: Font, H: BuildHasher>(b: GlyphBrushBuilder<F, H>, cache: bool) -> GlyphBrushBuilder<F, H> {
    b.cache_redraws(cache)
}

/// Relies on glyph_brush::GlyphBrushBuilder::section_hasher to replace the
/// hasher that identifies queued sections across frames.
#[verifier::external_body]
fn with_section_hasher<F: Font, T: BuildHasher>(
    b: GlyphBrushBuilder<F>,
    section_hasher: T,
) -> GlyphBrushBuilder<F, T> {
    b.section_hasher(section_hasher)
}

/// Relies on DefaultSectionHasher's `Default`, the hasher a glyph-cache
/// builder starts with; it may be seeded anew in each call.
#[verifier::external_body]
fn default_section_hasher() -> DefaultSectionHasher {
    DefaultSectionHasher::default()
}

/// Why a builder could not be made.
#[derive(Clone, Copy, Debug, PartialEq, Eq, Structural)]
pub enum FontError {
    /// The bytes given are not a font file.
    InvalidFont,
}

impl FontError {
    /// The error's message.
    pub fn message(&self) -> (r: String)
        ensures
            r@ == "invalid font data"@,
    {
        proof {
            reveal_strlit("invalid font data");
        }
        match self {
            FontError::InvalidFont => String::from_str("invalid font data"),
        }
    }
}

/// Maps the font parser's error to this library's own.
fn font_error(e: InvalidFont) -> (r: FontError)
    ensures
        r == FontError::InvalidFont,
{
    FontError::InvalidFont
}

/// Side of the square atlas that a glyph cache starts with unless told
/// otherwise.
pub const DEFAULT_CACHE_SIDE: u32 = 256;

/// Collects the fonts and options of a glyph cache before it is built.
#[verifier::reject_recursive_types(F)]
#[verifier::reject_recursive_types(H)]
pub struct BrushBuilder<F, H = DefaultSectionHasher> {
    fonts: Vec<F>,
    cache_size: Dimensions,
    align_4x4: bool,
    cache_glyph_positioning: bool,
    cache_redraws: bool,
    section_hasher: H,
}

impl<F, H> BrushBuilder<F, H> {
    /// The fonts, in the order of their ids.
    pub closed spec fn spec_fonts(&self) -> Seq<F> {
        self.fonts@
    }

    /// The size of the atlas that the built cache starts with.
    pub closed spec fn spec_cache_size(&self) -> Dimensions {
        self.cache_size
    }

    /// Glyphs are aligned to 4x4 texel blocks in the atlas.
    pub closed spec fn spec_align_4x4(&self) -> bool {
        self.align_4x4
    }

    /// Glyph layouts of an unchanged section are reused across frames.
    pub closed spec fn spec_cache_glyph_positioning(&self) -> bool {
        self.cache_glyph_positioning
    }

    /// An unchanged draw queue is redrawn without new vertices.
    pub closed spec fn spec_cache_redraws(&self) -> bool {
        self.cache_redraws
    }

    pub closed spec fn spec_section_hasher(&self) -> H {
        self.section_hasher
    }

    /// Every option but the fonts and the hasher is the glyph cache's default:
    /// a 256 by 256 atlas, no 4x4 alignment, layouts and redraws reused.
    pub open spec fn has_default_options(&self) -> bool {
        &&& self.spec_cache_size() == (Dimensions { width: DEFAULT_CACHE_SIDE, height: DEFAULT_CACHE_SIDE })
        &&& !self.spec_align_4x4()
        &&& self.spec_cache_glyph_positioning()
        &&& self.spec_cache_redraws()
    }

    /// `self` and `other` agree on every option but the fonts.
    pub open spec fn same_options<T>(&self, other: &BrushBuilder<F, T>) -> bool {
        &&& self.spec_cache_size() == other.spec_cache_size()
        &&& self.spec_align_4x4() == other.spec_align_4x4()
        &&& self.spec_cache_glyph_positioning() == other.spec_cache_glyph_positioning()
        &&& self.spec_cache_redraws() == other.spec_cache_redraws()
    }

    pub fn fonts(&self) -> (r: &Vec<F>)
        ensures
            r@ == self.spec_fonts(),
    {
        &self.fonts
    }

    pub fn cache_size(&self) -> (r: Dimensions)
        ensures
            r == self.spec_cache_size(),
    {
        self.cache_size
    }

    pub fn is_align_4x4(&self) -> (r: bool)
        ensures
            r == self.spec_align_4x4(),
    {
        self.align_4x4
    }

    pub fn caches_glyph_positioning(&self) -> (r: bool)
        ensures
            r == self.spec_cache_glyph_positioning(),
    {
        self.cache_glyph_positioning
    }

    pub fn caches_redraws(&self) -> (r: bool)
        ensures
            r == self.spec_cache_redraws(),
    {
        self.cache_redraws
    }

    /// Adds a font after those already given; returns its id, its place in
    /// the list.
    pub fn add_font(&mut self, font: F) -> (r: FontId)
        ensures
            final(self).spec_fonts() == old(self).spec_fonts().push(font),
            r.0 == old(self).spec_fonts().len(),
            final(self).same_options(old(self)),
            final(self).spec_section_hasher() == old(self).spec_section_hasher(),
    {
        self.fonts.push(font);
        FontId(self.fonts.len() - 1)
    }

    /// Sets the size of the atlas that the glyph cache starts with, so that
    /// draws need not grow it.
    pub fn initial_cache_size(self, size: Dimensions) -> (r: Self)
        ensures
            r.spec_fonts() == self.spec_fonts(),
            r.spec_cache_size() == size,
            r.spec_align_4x4() == self.spec_align_4x4(),
            r.spec_cache_glyph_positioning() == self.spec_cache_glyph_positioning(),
            r.spec_cache_redraws() == self.spec_cache_redraws(),
            r.spec_section_hasher() == self.spec_section_hasher(),
    {
        BrushBuilder { cache_size: size, ..self }
    }

    /// Sets whether glyphs are aligned to 4x4 texel blocks in the atlas, as
    /// some backends need for texture updates.
    pub fn draw_cache_align_4x4(self, align: bool) -> (r: Self)
        ensures
            r.spec_fonts() == self.spec_fonts(),
            r.spec_cache_size() == self.spec_cache_size(),
            r.spec_align_4x4() == align,
            r.spec_cache_glyph_positioning() == self.spec_cache_glyph_positioning(),
            r.spec_cache_redraws() == self.spec_cache_redraws(),
            r.spec_section_hasher() == self.spec_section_hasher(),
    {
        BrushBuilder { align_4x4: align, ..self }
    }

    /// Sets whether glyph layouts of an unchanged section are reused across
    /// frames.
    pub fn cache_glyph_positioning(self, cache: bool) -> (r: Self)
        ensures
            r.spec_fonts() == self.spec_fonts(),
            r.spec_cache_size() == self.spec_cache_size(),
            r.spec_align_4x4() == self.spec_align_4x4(),
            r.spec_cache_glyph_positioning() == cache,
            r.spec_cache_redraws() == self.spec_cache_redraws(),
            r.spec_section_hasher() == self.spec_section_hasher(),
    {
        BrushBuilder { cache_glyph_positioning: cache, ..self }
    }

    /// Sets whether an unchanged draw queue is redrawn without new vertices.
    pub fn cache_redraws(self, cache: bool) -> (r: Self)
        ensures
            r.spec_fonts() == self.spec_fonts(),
            r.spec_cache_size() == self.spec_cache_size(),
            r.spec_align_4x4() == self.spec_align_4x4(),
            r.spec_cache_glyph_positioning() == self.spec_cache_glyph_positioning(),
            r.spec_cache_redraws() == cache,
            r.spec_section_hasher() == self.spec_section_hasher(),
    {
        BrushBuilder { cache_redraws: cache, ..self }
    }

    /// Replaces the hasher that identifies queued sections across frames.
    pub fn section_hasher<T>(self, section_hasher: T) -> (r: BrushBuilder<F, T>)
        ensures
            r.spec_fonts() == self.spec_fonts(),
            r.same_options(&self),
            r.spec_section_hasher() == section_hasher,
    {
        BrushBuilder {
            fonts: self.fonts,
            cache_size: self.cache_size,
            align_4x4: self.align_4x4,
            cache_glyph_positioning: self.cache_glyph_positioning,
            cache_redraws: self.cache_redraws,
            section_hasher,
        }
    }
}

impl BrushBuilder<()> {
    /// A builder with one font and the default options.
    pub fn using_font<F>(font: F) -> (r: BrushBuilder<F>)
        ensures
            r.spec_fonts() == seq![font],
            r.has_default_options(),
    {
        let r = BrushBuilder::using_fonts(vec![font]);
        assert(r.spec_fonts() =~= seq![font]);
        r
    }

    /// A builder with one font read from font-file bytes and the default
    /// options; fails exactly when the bytes are not a font.
    pub fn using_font_bytes<'a>(data: &'a [u8]) -> (r: Result<BrushBuilder<FontRef<'a>>, FontError>)
        ensures
            r is Ok <==> parses_as_font(data@),
            r is Ok ==> r->Ok_0.spec_fonts().len() == 1 && r->Ok_0.has_default_options(),
            r is Err ==> r->Err_0 == FontError::InvalidFont,
    {
        match parse_font(data) {
            Ok(font) => Ok(BrushBuilder::using_font(font)),
            Err(e) => Err(font_error(e)),
        }
    }

    /// A builder with the font read from font-file bytes and the default
    /// options; fails exactly when the bytes are not a font.
    pub fn using_font_bytes_vec<'a>(data: &'a [u8]) -> (r: Result<BrushBuilder<FontRef<'a>>, FontError>)
        ensures
            r is Ok <==> parses_as_font(data@),
            r is Ok ==> r->Ok_0.spec_fonts().len() == 1 && r->Ok_0.has_default_options(),
            r is Err ==> r->Err_0 == FontError::InvalidFont,
    {
        BrushBuilder::using_font_bytes(data)
    }

    /// A builder with several fonts, in the order given, and the default
    /// options.
    pub fn using_fonts<F>(fonts: Vec<F>) -> (r: BrushBuilder<F>)
        ensures
            r.spec_fonts() == fonts@,
            r.has_default_options(),
    {
        BrushBuilder {
            fonts,
            cache_size: Dimensions::new(DEFAULT_CACHE_SIDE, DEFAULT_CACHE_SIDE),
            align_4x4: false,
            cache_glyph_positioning: true,
            cache_redraws: true,
            section_hasher: default_section_hasher(),
        }
    }
}

impl<F: Font, H: BuildHasher> BrushBuilder<F, H> {
    /// The glyph-cache builder with these fonts and options, to build the
    /// cache from.
    pub fn into_inner(self) -> GlyphBrushBuilder<F, H> {
        let b = glyph_brush_builder(self.fonts);
        let b = with_section_hasher(b, self.section_hasher);
        let b = with_initial_cache_size(b, self.cache_size.as_pair());
        let b = with_align_4x4(b, self.align_4x4);
        let b = with_cache_glyph_positioning(b, self.cache_glyph_positioning);
        with_cache_redraws(b, self.cache_redraws)
    }
}

} // verus!
