//! Render pipeline: turns payload bytes, an error-correction level and two
//! colors into a displayable QR artifact, or a typed failure.
//!
//! The QR symbol encoding itself and the image serialization are external
//! capabilities; they are reached through the trusted wrappers below, whose
//! results are named by uninterpreted functions so that the reducer's and
//! exporter's contracts can speak about them exactly.

use vstd::prelude::*;
use base64::Engine;
use qrcode::QrCode;
use qrcode::render::svg::Color as SvgColor;
use qrcode::types::EcLevel as QrEcLevel;
use qrcode::types::QrError;
use image::ImageOutputFormat;
use image::Rgb;
use std::io::Cursor;

verus! {

/// The QR symbol value produced by the external encoder.
#[verifier::external_type_specification]
#[verifier::external_body]
pub struct ExQrCode(QrCode);

/// QR error-correction level: redundancy tier trading capacity for
/// resilience.
#[derive(Clone, Copy, Debug, PartialEq, Eq, Structural)]
pub enum EcLevel {
    L,
    M,
    Q,
    H,
}

/// A raster export encoding.
#[derive(Clone, Copy, Debug, PartialEq, Eq, Structural)]
pub enum RasterFormat {
    Png,
    Jpeg,
}

/// Why a render failed: the payload exceeds the symbol capacity for the
/// chosen level, or the encoder reported some other fault, with its
/// diagnostic text.
#[derive(Debug)]
pub enum RenderError {
    PayloadTooLarge,
    OtherEncodingError(String),
}

/// The outcome of offering a payload to the QR encoder at a level: accepted,
/// rejected for exceeding the capacity, or rejected with a diagnostic text.
pub enum EncodeOutcome {
    Accepted,
    TooLong,
    Rejected(Seq<char>),
}

/// What the external QR encoder decides for a payload at a level. The
/// decision is a pure function of the two arguments.
pub uninterp spec fn encode_outcome(data: Seq<u8>, level: EcLevel) -> EncodeOutcome;

/// The QR symbol that the external encoder produces for an accepted payload
/// at a level; encoding is deterministic, so the symbol is a function of the
/// two arguments.
pub uninterp spec fn qr_symbol(data: Seq<u8>, level: EcLevel) -> QrCode;

/// The SVG text that the external renderer produces for an accepted payload
/// at a level with the given foreground and background color strings.
pub uninterp spec fn svg_image(
    data: Seq<u8>,
    level: EcLevel,
    fg: Seq<char>,
    bg: Seq<char>,
) -> Seq<char>;

/// What the external raster serializer produces for an accepted payload at
/// a level with the given RGB colors and format: the image bytes, or the
/// writer's own diagnostic text. Rendering and serialization are
/// deterministic, so the outcome is a function of the five arguments.
pub uninterp spec fn raster_outcome(
    data: Seq<u8>,
    level: EcLevel,
    fg: (u8, u8, u8),
    bg: (u8, u8, u8),
    format: RasterFormat,
) -> Result<Seq<u8>, Seq<char>>;

/// The base64 text (standard alphabet, no padding) of a byte sequence.
pub uninterp spec fn base64_chars(data: Seq<u8>) -> Seq<char>;

/// Offers a payload to the QR encoder at a level.
///
/// Relies on `qrcode::QrCode::with_error_correction_level`: the outcome is a
/// pure function of the payload and level, `QrError::DataTooLong` is the
/// capacity failure, and every other `QrError` carries a diagnostic the
/// caller reports.
#[verifier::external_body]
pub(crate) fn qr_encode(data: &Vec<u8>, level: EcLevel) -> (r: Result<QrCode, RenderError>)
    ensures
        (r is Ok) == (encode_outcome(data@, level) is Accepted),
        r matches Ok(c) ==> c == qr_symbol(data@, level),
        r matches Err(e) ==> match e {
            RenderError::PayloadTooLarge => encode_outcome(data@, level) is TooLong,
            RenderError::OtherEncodingError(m) => encode_outcome(data@, level) matches
                EncodeOutcome::Rejected(t) && m@ == t,
        },
{
    let ec = match level {
        EcLevel::L => QrEcLevel::L,
        EcLevel::M => QrEcLevel::M,
        EcLevel::Q => QrEcLevel::Q,
        EcLevel::H => QrEcLevel::H,
    };
    match QrCode::with_error_correction_level(data, ec) {
        Ok(c) => Ok(c),
        Err(QrError::DataTooLong) => Err(RenderError::PayloadTooLarge),
        Err(e) => Err(RenderError::OtherEncodingError(format!("{e:?}"))),
    }
}

/// Renders an encoded symbol to SVG text with the given color strings.
///
/// Relies on the `qrcode::render::svg` renderer: for the symbol of the given
/// payload and level, the SVG text is a pure function of the payload, level
/// and colors.
#[verifier::external_body]
pub(crate) fn svg_render(
    code: &QrCode,
    data: &Vec<u8>,
    level: EcLevel,
    fg: &str,
    bg: &str,
) -> (r: String)
    requires
        *code == qr_symbol(data@, level),
    ensures
        r@ == svg_image(data@, level, fg@, bg@),
{
    code.render::<SvgColor>().light_color(SvgColor(bg)).dark_color(SvgColor(fg)).max_dimensions(
        1,
        1,
    ).build()
}

/// Serializes an encoded symbol to raster image bytes with the given colors,
/// scaled up to the fixed minimum output dimension of 200 by 200.
///
/// Relies on the `qrcode::render` image renderer and `ImageBuffer::write_to`:
/// for the symbol of the given payload and level, both the raster bytes and
/// any fault of the image writer are a pure function of the payload, level,
/// colors and format; a fault surfaces as its diagnostic text.
#[verifier::external_body]
pub(crate) fn raster_render(
    code: &QrCode,
    data: &Vec<u8>,
    level: EcLevel,
    fg: (u8, u8, u8),
    bg: (u8, u8, u8),
    format: RasterFormat,
) -> (r: Result<Vec<u8>, RenderError>)
    requires
        *code == qr_symbol(data@, level),
    ensures
        (r is Ok) == (raster_outcome(data@, level, fg, bg, format) is Ok),
        r matches Ok(bytes) ==> raster_outcome(data@, level, fg, bg, format) matches Ok(b)
            && bytes@ == b,
        r matches Err(e) ==> e matches RenderError::OtherEncodingError(m) && raster_outcome(
            data@,
            level,
            fg,
            bg,
            format,
        ) matches Err(t) && m@ == t,
{
    let img = code.render::<Rgb<u8>>().light_color(Rgb([bg.0, bg.1, bg.2])).dark_color(
        Rgb([fg.0, fg.1, fg.2]),
    ).min_dimensions(200, 200).build();
    let fmt = match format {
        RasterFormat::Png => ImageOutputFormat::Png,
        RasterFormat::Jpeg => ImageOutputFormat::Jpeg(70),
    };
    let mut cur = Cursor::new(vec![]);
    match img.write_to(&mut cur, fmt) {
        Ok(()) => Ok(cur.into_inner()),
        Err(e) => Err(RenderError::OtherEncodingError(format!("{e:?}"))),
    }
}

/// Encodes bytes as base64 text, standard alphabet, no padding.
///
/// Relies on base64's `STANDARD_NO_PAD` engine: the result is a pure
/// function of the bytes, four characters per complete three-byte chunk and
/// one more than the remainder for a trailing partial chunk.
#[verifier::external_body]
pub(crate) fn base64_encode(data: &[u8]) -> (r: String)
    requires
        data@.len() < 0x1000000000000000,
    ensures
        r@ == base64_chars(data@),
        r@.len() == 4 * (data@.len() as int / 3) + (
        if data@.len() as int % 3 == 0 {
            0int
        } else {
            data@.len() as int % 3 + 1
        }),
{
    base64::engine::general_purpose::STANDARD_NO_PAD.encode(data)
}

} // verus!
