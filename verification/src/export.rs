//! Export adapter: serializes the current artifact to a downloadable data
//! URI with a fixed filename per target format.
//!
//! The vector export reuses the artifact's stored SVG text; a raster export
//! re-renders the artifact's stored payload at the current configuration,
//! scaled to the fixed minimum raster output dimension.

use vstd::prelude::*;
use vstd::string::StringExecFns;
use vstd::utf8::encode_utf8;
use crate::color::Color;
use crate::color::rgb_spec;
use crate::color::lemma_rgb_spec_bounds;
use crate::render::EncodeOutcome;
use crate::render::RasterFormat;
use crate::render::RenderError;
use crate::render::base64_chars;
use crate::render::base64_encode;
use crate::render::encode_outcome;
use crate::render::qr_encode;
use crate::render::raster_outcome;
use crate::render::raster_render;
use crate::state::AppState;
use crate::state::artifact_view;
use crate::state::state_wf;

verus! {

/// The ceiling on byte streams handed to the base64 encoder.
pub const EXPORT_SIZE_LIMIT: u64 = 0x1000000000000000;

/// A downloadable export target.
#[derive(Clone, Copy, Debug, PartialEq, Eq, Structural)]
pub enum ExportFormat {
    Svg,
    Png,
    Jpeg,
}

/// A serialized export: the fixed download filename for the format and the
/// `data:` URI holding the base64 payload.
#[derive(Debug)]
pub struct ExportFile {
    pub filename: String,
    pub data_uri: String,
}

/// The MIME type text for each export format.
pub open spec fn mime_text(f: ExportFormat) -> Seq<char> {
    match f {
        ExportFormat::Svg => "image/svg+xml"@,
        ExportFormat::Png => "image/png"@,
        ExportFormat::Jpeg => "image/jpeg"@,
    }
}

/// The fixed download filename for each export format.
pub open spec fn filename_text(f: ExportFormat) -> Seq<char> {
    match f {
        ExportFormat::Svg => "qr.svg"@,
        ExportFormat::Png => "qr.png"@,
        ExportFormat::Jpeg => "qr.jpeg"@,
    }
}

/// A `data:` URI around a MIME type and a base64 payload.
pub open spec fn data_uri_text(mime: Seq<char>, payload: Seq<char>) -> Seq<char> {
    "data:"@ + mime + ";base64,"@ + payload
}

/// The raster encoding used for a raster export format.
pub open spec fn raster_format_of(f: ExportFormat) -> RasterFormat {
    match f {
        ExportFormat::Jpeg => RasterFormat::Jpeg,
        _ => RasterFormat::Png,
    }
}

/// The 8-bit RGB triple of a color.
pub open spec fn rgb_u8_spec(c: Color) -> (u8, u8, u8) {
    (rgb_spec(c).0 as u8, rgb_spec(c).1 as u8, rgb_spec(c).2 as u8)
}

/// The MIME type for an export format.
fn mime_str(f: ExportFormat) -> (s: &'static str)
    ensures
        s@ == mime_text(f),
{
    match f {
        ExportFormat::Svg => "image/svg+xml",
        ExportFormat::Png => "image/png",
        ExportFormat::Jpeg => "image/jpeg",
    }
}

/// The fixed download filename for an export format.
fn filename_str(f: ExportFormat) -> (s: &'static str)
    ensures
        s@ == filename_text(f),
{
    match f {
        ExportFormat::Svg => "qr.svg",
        ExportFormat::Png => "qr.png",
        ExportFormat::Jpeg => "qr.jpeg",
    }
}

/// Builds the `data:` URI around a MIME type and a base64 payload.
fn data_uri(mime: &str, payload: &String) -> (r: String)
    ensures
        r@ == data_uri_text(mime@, payload@),
{
    String::from_str("data:").concat(mime).concat(";base64,").concat(payload.as_str())
}

/// Serializes the current artifact for download in the given format.
///
/// With no artifact there is nothing to export. The vector format wraps the
/// artifact's stored SVG text in a data URI. A raster format re-renders the
/// artifact's stored payload at the state's current level and colors; the
/// render pipeline's failures pass through. A stream too large for the
/// base64 encoder is refused rather than encoded.
pub fn export(state: &AppState, format: ExportFormat) -> (r: Result<
    Option<ExportFile>,
    RenderError,
>)
    requires
        state_wf(*state),
    ensures
        match artifact_view(state.artifact) {
            Option::None => r matches Ok(o) && o is None,
            Option::Some(a) => match format {
                ExportFormat::Svg => {
                    if encode_utf8(a.1).len() < EXPORT_SIZE_LIMIT {
                        r matches Ok(o) && o matches Some(e) && e.filename@ == filename_text(
                            format,
                        ) && e.data_uri@ == data_uri_text(
                            mime_text(format),
                            base64_chars(encode_utf8(a.1)),
                        )
                    } else {
                        r matches Err(RenderError::OtherEncodingError(m)) && m@
                            == "artifact too large to encode"@
                    }
                },
                _ => {
                    match encode_outcome(a.0, state.ec_level) {
                        EncodeOutcome::Accepted => match raster_outcome(
                            a.0,
                            state.ec_level,
                            rgb_u8_spec(state.foreground),
                            rgb_u8_spec(state.background),
                            raster_format_of(format),
                        ) {
                            Result::Ok(bytes) => {
                                if bytes.len() < EXPORT_SIZE_LIMIT {
                                    r matches Ok(o) && o matches Some(e) && e.filename@
                                        == filename_text(format) && e.data_uri@ == data_uri_text(
                                        mime_text(format),
                                        base64_chars(bytes),
                                    )
                                } else {
                                    r matches Err(RenderError::OtherEncodingError(m)) && m@
                                        == "artifact too large to encode"@
                                }
                            },
                            Result::Err(t) => r matches Err(
                                RenderError::OtherEncodingError(m),
                            ) && m@ == t,
                        },
                        EncodeOutcome::TooLong => r matches Err(RenderError::PayloadTooLarge),
                        EncodeOutcome::Rejected(t) => r matches Err(
                            RenderError::OtherEncodingError(m),
                        ) && m@ == t,
                    }
                },
            },
        },
{
    let artifact = match &state.artifact {
        None => {
            return Ok(None);
        },
        Some(a) => a,
    };
    match format {
        ExportFormat::Svg => {
            let bytes: &[u8] = artifact.svg.as_str().as_bytes();
            if (bytes.len() as u64) >= EXPORT_SIZE_LIMIT {
                return Err(
                    RenderError::OtherEncodingError(
                        String::from_str("artifact too large to encode"),
                    ),
                );
            }
            let payload = base64_encode(bytes);
            Ok(
                Some(
                    ExportFile {
                        filename: String::from_str(filename_str(format)),
                        data_uri: data_uri(mime_str(format), &payload),
                    },
                ),
            )
        },
        _ => {
            let raster = match format {
                ExportFormat::Jpeg => RasterFormat::Jpeg,
                _ => RasterFormat::Png,
            };
            let fg = state.foreground.to_rgb_u8();
            let bg = state.background.to_rgb_u8();
            proof {
                lemma_rgb_spec_bounds(state.foreground);
                lemma_rgb_spec_bounds(state.background);
            }
            let code = match qr_encode(&artifact.payload, state.ec_level) {
                Ok(c) => c,
                Err(e) => {
                    return Err(e);
                },
            };
            match raster_render(&code, &artifact.payload, state.ec_level, fg, bg, raster) {
                Ok(bytes) => {
                    if (bytes.len() as u64) >= EXPORT_SIZE_LIMIT {
                        return Err(
                            RenderError::OtherEncodingError(
                                String::from_str("artifact too large to encode"),
                            ),
                        );
                    }
                    let payload = base64_encode(bytes.as_slice());
                    Ok(
                        Some(
                            ExportFile {
                                filename: String::from_str(filename_str(format)),
                                data_uri: data_uri(mime_str(format), &payload),
                            },
                        ),
                    )
                },
                Err(e) => Err(e),
            }
        },
    }
}

} // verus!
