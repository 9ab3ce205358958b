//! Turns the bytes of a raster or vector image file into one uniform
//! [`PixelBuffer`](crate::pixel::PixelBuffer).
//!
//! The decode path is chosen by the file name's suffix alone: a `.svg` path
//! is parsed as a vector document and rasterized to a fixed reference width,
//! every other path is handed to the raster codecs. Decoding itself is the
//! `image` and `usvg` crates' work behind trusted wrappers; rasterization
//! needs floating-point transforms, so the caller injects it as a plain
//! bytes-for-dimensions callback and nothing it returns is trusted.

use vstd::prelude::*;
use vstd::string::StringSliceAdditionalSpecFns;

use crate::pixel::PixelBuffer;
use crate::size::{scale_spec, scale_wide};

verus! {

/// Vector documents are rasterized this many device pixels wide; the height
/// follows from the document's intrinsic aspect ratio.
pub const SVG_RASTER_WIDTH: u32 = 1000;

/// Why an image file could not be turned into a pixel buffer.
#[derive(Debug, Clone, PartialEq, Eq)]
pub enum LoadImageError {
    /// The vector document was malformed, or rasterization produced no
    /// output.
    VectorDecodeFailure(String),
    /// The raster codec rejected the file; the description is the codec's
    /// own, unchanged.
    RasterDecodeFailure(String),
}

impl LoadImageError {
    /// The human-readable description the failure carries.
    pub fn message(&self) -> (r: &String)
        ensures
            self matches LoadImageError::VectorDecodeFailure(m) ==> r@ == m@,
            self matches LoadImageError::RasterDecodeFailure(m) ==> r@ == m@,
    {
        match self {
            LoadImageError::VectorDecodeFailure(m) => m,
            LoadImageError::RasterDecodeFailure(m) => m,
        }
    }
}

/// A path takes the vector decode path exactly when its UTF-8 bytes end in
/// `.svg`.
pub open spec fn is_svg_path_spec(path: Seq<u8>) -> bool {
    let n = path.len();
    n >= 4 && path[n - 4] == 46u8 && path[n - 3] == 115u8 && path[n - 2] == 118u8 && path[n - 1]
        == 103u8
}

/// The suffix check that dispatches between the two decode paths: a pure
/// file-name test, no content sniffing.
pub fn is_svg_path(path: &str) -> (r: bool)
    ensures
        r == is_svg_path_spec(path.spec_bytes()),
{
    let bytes = path.as_bytes();
    let n = bytes.len();
    if n < 4 {
        return false;
    }
    // the bytes of ".svg"
    bytes[n - 4] == 46 && bytes[n - 3] == 115 && bytes[n - 2] == 118 && bytes[n - 1] == 103
}

/// What the raster codecs make of a byte stream: the decoded image's
/// dimensions and its row-major RGBA bytes, or nothing when the codecs
/// reject the stream. Decoding is a pure function of the bytes alone.
pub uninterp spec fn raster_decode_of(data: Seq<u8>) -> Option<(u32, u32, Seq<u8>)>;

/// The raster codecs' own description of why they rejected a byte stream;
/// a function of the bytes alone.
pub uninterp spec fn raster_error_of(data: Seq<u8>) -> Seq<char>;

/// Relies on image::load_from_memory and image::DynamicImage::to_rgba8:
/// decoding guesses the format from the bytes, and an RGBA image buffer
/// holds exactly four bytes per pixel in row-major order. The error string
/// is the codec error's own display text, unchanged.
#[verifier::external_body]
fn decode_raster(data: &[u8]) -> (r: Result<(u32, u32, Vec<u8>), String>)
    ensures
        match r {
            Ok(d) => raster_decode_of(data@) == Some((d.0, d.1, d.2@)) && d.2@.len() == 4 * (
            (d.0 as int) * (d.1 as int)),
            Err(m) => raster_decode_of(data@) is None && m@ == raster_error_of(data@),
        },
{
    match image::load_from_memory(data) {
        Ok(img) => {
            let rgba = img.to_rgba8();
            let width = rgba.width();
            let height = rgba.height();
            Ok((width, height, rgba.into_raw()))
        },
        Err(e) => Err(e.to_string()),
    }
}

#[verifier::external_type_specification]
#[verifier::external_body]
pub struct ExSvgTree(usvg::Tree);

/// Whether the bytes parse as an SVG document when external references are
/// ignored: with an empty font set and no reference ever read from disk,
/// parse success is a function of the bytes alone (unresolvable references
/// are skipped, never a parse failure).
pub uninterp spec fn svg_parses(data: Seq<u8>) -> bool;

/// The parsed document's intrinsic `(width, height)`, rounded to integers
/// and clamped to at least one pixel per axis; with external references
/// ignored it is a function of the bytes alone.
pub uninterp spec fn svg_intrinsic_of(data: Seq<u8>) -> (u32, u32);

/// Relies on usvg::Tree::from_data, usvg::Tree::size and
/// tiny_skia_path::Size::to_int_size. The options keep the data-URL image
/// resolver but drop the file-path one (the treatment usvg itself gives
/// nested documents), so no `href` is ever read from disk and both the parse
/// outcome and the document's intrinsic size — rounded and clamped to at
/// least one pixel per axis — are functions of the bytes alone.
#[verifier::external_body]
fn parse_svg(data: &[u8]) -> (r: Option<(usvg::Tree, u32, u32)>)
    ensures
        r is Some <==> svg_parses(data@),
        r matches Some(t) ==> (t.1, t.2) == svg_intrinsic_of(data@) && t.1 >= 1 && t.2 >= 1,
{
    let options = usvg::Options {
        image_href_resolver: usvg::ImageHrefResolver {
            resolve_data: usvg::ImageHrefResolver::default_data_resolver(),
            resolve_string: Box::new(|_, _| None),
        },
        ..usvg::Options::default()
    };
    let tree = match usvg::Tree::from_data(data, &options) {
        Ok(tree) => tree,
        Err(_) => return None,
    };
    let size = tree.size().to_int_size();
    Some((tree, size.width(), size.height()))
}

/// The height a parsed document is rasterized at: the fixed reference width
/// scaled by the document's intrinsic aspect ratio, rounded half-up.
pub open spec fn svg_target_height(data: Seq<u8>) -> int {
    scale_spec(
        SVG_RASTER_WIDTH as int,
        svg_intrinsic_of(data).1 as int,
        svg_intrinsic_of(data).0 as int,
    )
}

/// Whether the derived raster height is a usable dimension; outside this
/// range the document is degenerate and decoding fails.
pub open spec fn svg_target_ok(data: Seq<u8>) -> bool {
    1 <= svg_target_height(data) <= u32::MAX
}

/// Decodes the file at `path`, whose content is `data`, into a pixel buffer.
///
/// `rasterize` is the vector rasterizer collaborator: handed a parsed
/// document and target pixel dimensions, it returns the rendered row-major
/// RGBA bytes, or nothing when the document renders to no image. Its output
/// is checked, not trusted: a buffer of the wrong length is a decode
/// failure.
pub fn get_image<F: Fn(&usvg::Tree, u32, u32) -> Option<Vec<u8>>>(
    path: &str,
    data: &[u8],
    rasterize: F,
) -> (r: Result<PixelBuffer, LoadImageError>)
    requires
        forall|t: &usvg::Tree, w: u32, h: u32| call_requires(rasterize, (t, w, h)),
    ensures
        r matches Ok(buf) ==> buf.wf() && buf.spec_width() >= 1 && buf.spec_height() >= 1,
        is_svg_path_spec(path.spec_bytes()) ==> {
            &&& (r matches Err(e) ==> e is VectorDecodeFailure)
            &&& (!svg_parses(data@) ==> r is Err)
            &&& (svg_parses(data@) && !svg_target_ok(data@) ==> r is Err)
            &&& (r matches Ok(buf) ==> {
                &&& svg_parses(data@)
                &&& svg_target_ok(data@)
                &&& buf.spec_width() == SVG_RASTER_WIDTH
                &&& buf.spec_height() as int == svg_target_height(data@)
                &&& exists|t: &usvg::Tree, bytes: Vec<u8>|
                    call_ensures(
                        rasterize,
                        (t, SVG_RASTER_WIDTH, buf.spec_height()),
                        Some(bytes),
                    ) && buf.spec_data() == bytes@
            })
        },
        !is_svg_path_spec(path.spec_bytes()) ==> {
            &&& (r matches Err(e) ==> e is RasterDecodeFailure)
            &&& (r is Ok <==> (raster_decode_of(data@) matches Some(d) && d.0 >= 1 && d.1 >= 1))
            &&& (r matches Ok(buf) ==> (raster_decode_of(data@) matches Some(d)
                && buf.spec_width() == d.0 && buf.spec_height() == d.1 && buf.spec_data()
                == d.2))
            &&& (raster_decode_of(data@) is None ==> (r matches Err(e) ==> e matches
                LoadImageError::RasterDecodeFailure(m) && m@ == raster_error_of(data@)))
        },
{
    if is_svg_path(path) {
        let parsed = match parse_svg(data) {
            Some(p) => p,
            None => {
                return Err(
                    LoadImageError::VectorDecodeFailure("Failed to load svg".to_owned()),
                );
            },
        };
        let tree = parsed.0;
        let target_height_wide: u64 = scale_wide(SVG_RASTER_WIDTH, parsed.2, parsed.1);
        if target_height_wide < 1 || target_height_wide > 0xFFFF_FFFF {
            return Err(
                LoadImageError::VectorDecodeFailure(
                    "Svg has a degenerate aspect ratio".to_owned(),
                ),
            );
        }
        let target_height: u32 = target_height_wide as u32;
        let expected_len: u64 = 4 * ((SVG_RASTER_WIDTH as u64) * (target_height as u64));
        match rasterize(&tree, SVG_RASTER_WIDTH, target_height) {
            Some(bytes) => {
                let ghost returned: Vec<u8> = bytes;
                if bytes.len() as u64 == expected_len {
                    let buf = PixelBuffer::from_rgba(SVG_RASTER_WIDTH, target_height, bytes);
                    proof {
                        assert(call_ensures(
                            rasterize,
                            (&tree, SVG_RASTER_WIDTH, target_height),
                            Some(returned),
                        ));
                        assert(buf.spec_data() == returned@);
                    }
                    Ok(buf)
                } else {
                    Err(
                        LoadImageError::VectorDecodeFailure(
                            "Svg rasterizer returned a malformed buffer".to_owned(),
                        ),
                    )
                }
            },
            None => Err(
                LoadImageError::VectorDecodeFailure("Svg rendered to no image".to_owned()),
            ),
        }
    } else {
        match decode_raster(data) {
            Ok(decoded) => {
                let width = decoded.0;
                let height = decoded.1;
                if width >= 1 && height >= 1 {
                    Ok(PixelBuffer::from_rgba(width, height, decoded.2))
                } else {
                    Err(
                        LoadImageError::RasterDecodeFailure(
                            "Decoded image has a zero dimension".to_owned(),
                        ),
                    )
                }
            },
            Err(msg) => Err(LoadImageError::RasterDecodeFailure(msg)),
        }
    }
}

} // verus!
