//! Rasterization of the vector document through resvg, and the ways it can
//! fail.
use resvg::tiny_skia::Pixmap;
use resvg::usvg;
use resvg::usvg::TreeParsing;
use vstd::prelude::*;

verus! {

#[verifier::external_type_specification]
#[verifier::external_body]
pub struct ExSvgError(usvg::Error);

/// Why rendering failed.
#[derive(Clone, Copy, Debug, PartialEq, Eq)]
pub enum RenderError {
    /// The vector document did not parse.
    InvalidDocument,
    /// No pixel buffer of the requested size could be made.
    PixmapAllocation,
    /// Rasterizing the document failed.
    Rasterization,
    /// Encoding the pixels as PNG failed.
    Encoding,
}

/// Whether a square pixel buffer of edge `size` can be made: four bytes per
/// pixel, a row within `i32`, the whole within `usize`.
pub open spec fn pixmap_fits(size: u32) -> bool {
    &&& size > 0
    &&& 4 * (size as int) <= i32::MAX
    &&& 4 * (size as int) * (size as int) <= usize::MAX
}

/// Whether the SVG text parses (usvg, loading no files).
pub uninterp spec fn svg_parses(svg: Seq<char>) -> bool;

/// Whether resvg renders the parsed SVG text, scaled to width `size`, onto a
/// fresh transparent `size` by `size` pixmap.
pub uninterp spec fn rasterizes(svg: Seq<char>, size: u32) -> bool;

/// The PNG encoding of that rendering, or `None` when encoding fails.
pub uninterp spec fn encoded_png(svg: Seq<char>, size: u32) -> Option<Seq<u8>>;

/// The big-endian 32-bit integer at byte `i`.
pub open spec fn be_u32_at(b: Seq<u8>, i: int) -> nat {
    ((b[i] as nat * 256 + b[i + 1] as nat) * 256 + b[i + 2] as nat) * 256 + b[i + 3] as nat
}

/// A PNG whose header chunk gives width and height `size`: the eight-byte
/// signature, the chunk length and type, then width and height.
pub open spec fn png_has_size(png: Seq<u8>, size: u32) -> bool {
    &&& png.len() >= 24
    &&& be_u32_at(png, 16) == size as nat
    &&& be_u32_at(png, 20) == size as nat
}

/// What rendering the SVG text at `size` by `size` pixels comes to: the PNG
/// bytes, or the first stage that failed.
pub open spec fn render_outcome(svg: Seq<char>, size: u32) -> Result<Seq<u8>, RenderError> {
    if !svg_parses(svg) {
        Err(RenderError::InvalidDocument)
    } else if !pixmap_fits(size) {
        Err(RenderError::PixmapAllocation)
    } else if !rasterizes(svg, size) {
        Err(RenderError::Rasterization)
    } else {
        match encoded_png(svg, size) {
            Some(png) => Ok(png),
            None => Err(RenderError::Encoding),
        }
    }
}

/// The bytes of a render result, as a value.
pub open spec fn outcome_view(r: Result<Vec<u8>, RenderError>) -> Result<Seq<u8>, RenderError> {
    match r {
        Ok(png) => Ok(png@),
        Err(e) => Err(e),
    }
}

/// A parsed document. Only `parse_document` makes one.
#[verifier::external_body]
pub struct Document {
    tree: usvg::Tree,
}

/// A square pixmap and its edge length. Only `new_canvas` makes one.
#[verifier::external_body]
pub struct Canvas {
    pixmap: Pixmap,
    size: u32,
}

/// The text a document was parsed from.
pub uninterp spec fn document_source(d: Document) -> Seq<char>;

/// The edge length of a canvas.
pub uninterp spec fn canvas_size(c: Canvas) -> u32;

/// The text last rendered onto a canvas since it was made or cleared
/// (`None` while it is transparent).
pub uninterp spec fn canvas_painting(c: Canvas) -> Option<Seq<char>>;

/// Relies on usvg's `Tree::from_data`, with an `<image>` resolver that loads
/// no file: whether it succeeds depends on the text alone.
#[verifier::external_body]
fn parse_document(svg: &str) -> (r: Result<Document, usvg::Error>)
    ensures
        r is Ok <==> svg_parses(svg@),
        r is Ok ==> document_source(r->Ok_0) == svg@,
{
    let mut opt = usvg::Options::default();
    opt.image_href_resolver.resolve_string = Box::new(|_: &str, _: &usvg::Options| None);
    usvg::Tree::from_data(svg.as_bytes(), &opt).map(|tree| Document { tree })
}

/// Relies on tiny-skia's `Pixmap::new`: fails exactly on a zero edge, a row
/// of more than `i32::MAX` bytes, or a buffer longer than `usize::MAX`; a new
/// pixmap is transparent.
#[verifier::external_body]
fn new_canvas(size: u32) -> (r: Option<Canvas>)
    ensures
        r is Some <==> pixmap_fits(size),
        r is Some ==> canvas_size(r->Some_0) == size && canvas_painting(r->Some_0) is None,
{
    Pixmap::new(size, size).map(|pixmap| Canvas { pixmap, size })
}

/// Relies on tiny-skia's `Pixmap::fill` with the transparent color: every
/// pixel becomes transparent.
#[verifier::external_body]
fn clear_canvas(canvas: &mut Canvas)
    ensures
        canvas_size(*final(canvas)) == canvas_size(*old(canvas)),
        canvas_painting(*final(canvas)) is None,
{
    canvas.pixmap.fill(resvg::tiny_skia::Color::TRANSPARENT)
}

/// Relies on resvg's `render`: draws the document, scaled to the canvas
/// width, onto the transparent canvas; `false` when it could not.
#[verifier::external_body]
fn rasterize(doc: &Document, canvas: &mut Canvas) -> (r: bool)
    requires
        canvas_painting(*old(canvas)) is None,
    ensures
        r == rasterizes(document_source(*doc), canvas_size(*old(canvas))),
        canvas_size(*final(canvas)) == canvas_size(*old(canvas)),
        r ==> canvas_painting(*final(canvas)) == Some(document_source(*doc)),
{
    resvg::render(
        &doc.tree,
        resvg::FitTo::Width(canvas.size),
        resvg::tiny_skia::Transform::default(),
        canvas.pixmap.as_mut(),
    ).is_some()
}

/// Relies on tiny-skia's `Pixmap::encode_png`: the PNG of the pixmap, whose
/// header gives the pixmap's width and height; `None` on an encoding error.
#[verifier::external_body]
fn encode_png(canvas: &Canvas) -> (r: Option<Vec<u8>>)
    ensures
        canvas_painting(*canvas) is Some ==> match encoded_png(
            canvas_painting(*canvas)->Some_0,
            canvas_size(*canvas),
        ) {
            Some(png) => r is Some && r->Some_0@ == png,
            None => r is None,
        },
        r is Some ==> png_has_size(r->Some_0@, canvas_size(*canvas)),
{
    match canvas.pixmap.encode_png() {
        Ok(bytes) => Some(bytes),
        Err(_) => None,
    }
}

impl Document {
    /// Parses SVG text; `<image>` elements that name files are left empty.
    pub fn parse(svg: &str) -> (r: Result<Document, RenderError>)
        ensures
            r is Ok <==> svg_parses(svg@),
            r is Ok ==> document_source(r->Ok_0) == svg@,
            r is Err ==> r == Err::<Document, RenderError>(RenderError::InvalidDocument),
    {
        match parse_document(svg) {
            Ok(doc) => Ok(doc),
            Err(_) => Err(RenderError::InvalidDocument),
        }
    }
}

/// Renders SVG text as a PNG image of `size` by `size` pixels over a
/// transparent background; an error names the first stage that failed.
pub fn render_svg(svg: &str, size: u32) -> (r: Result<Vec<u8>, RenderError>)
    ensures
        outcome_view(r) == render_outcome(svg@, size),
        r is Ok ==> png_has_size(r->Ok_0@, size),
{
    let doc = match Document::parse(svg) {
        Ok(d) => d,
        Err(e) => return Err(e),
    };
    let mut canvas = match new_canvas(size) {
        Some(c) => c,
        None => return Err(RenderError::PixmapAllocation),
    };
    clear_canvas(&mut canvas);
    if !rasterize(&doc, &mut canvas) {
        return Err(RenderError::Rasterization);
    }
    match encode_png(&canvas) {
        Some(bytes) => Ok(bytes),
        None => Err(RenderError::Encoding),
    }
}

} // verus!
