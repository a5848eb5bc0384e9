use base64::Engine;
use qr_portal::export::ExportFormat;
use qr_portal::export::export;
use qr_portal::render::EcLevel;
use qr_portal::state::AppAction;
use qr_portal::state::AppState;

fn state_with_artifact() -> AppState {
    let s = AppState::initial();
    AppState::reduce(s, AppAction::GenerateQrCode(b"HELLO".to_vec()))
}

fn decode_uri(uri: &str, prefix: &str) -> Vec<u8> {
    assert!(uri.starts_with(prefix), "unexpected prefix in {uri}");
    base64::engine::general_purpose::STANDARD_NO_PAD
        .decode(&uri[prefix.len()..])
        .expect("data URI payload must be valid base64")
}

#[test]
fn export_without_artifact_yields_nothing() {
    let s = AppState::initial();
    for format in [ExportFormat::Svg, ExportFormat::Png, ExportFormat::Jpeg] {
        let r = export(&s, format).unwrap();
        assert!(r.is_none());
    }
}

#[test]
fn svg_export_wraps_the_stored_artifact() {
    let s = state_with_artifact();
    let e = export(&s, ExportFormat::Svg).unwrap().unwrap();
    assert_eq!(e.filename, "qr.svg");
    let decoded = decode_uri(&e.data_uri, "data:image/svg+xml;base64,");
    assert_eq!(decoded, s.artifact.as_ref().unwrap().svg.as_bytes());
}

#[test]
fn png_export_produces_a_png_stream() {
    let s = state_with_artifact();
    let e = export(&s, ExportFormat::Png).unwrap().unwrap();
    assert_eq!(e.filename, "qr.png");
    let decoded = decode_uri(&e.data_uri, "data:image/png;base64,");
    assert_eq!(&decoded[..8], &[0x89, 0x50, 0x4e, 0x47, 0x0d, 0x0a, 0x1a, 0x0a]);
}

#[test]
fn jpeg_export_produces_a_jpeg_stream() {
    let s = state_with_artifact();
    let e = export(&s, ExportFormat::Jpeg).unwrap().unwrap();
    assert_eq!(e.filename, "qr.jpeg");
    let decoded = decode_uri(&e.data_uri, "data:image/jpeg;base64,");
    assert_eq!(&decoded[..2], &[0xff, 0xd8]);
}

#[test]
fn raster_export_fails_when_the_stored_payload_exceeds_the_new_level() {
    // A payload near the capacity ceiling encodes at the lowest level but
    // not at the highest; after such a level change the raster export must
    // report the capacity failure instead of serializing something else.
    let s = AppState::initial();
    let s = AppState::reduce(s, AppAction::UpdateErrorCorrectionLevel(EcLevel::L));
    let s = AppState::reduce(s, AppAction::GenerateQrCode(vec![65u8; 2900]));
    assert!(s.artifact.is_some(), "payload must fit at the lowest level");
    let s = AppState::reduce(s, AppAction::UpdateErrorCorrectionLevel(EcLevel::H));
    assert!(s.error_message.is_some());
    assert!(s.artifact.is_some());
    let r = export(&s, ExportFormat::Png);
    assert!(matches!(r, Err(qr_portal::render::RenderError::PayloadTooLarge)));
}

#[test]
fn png_export_uses_the_configured_colors() {
    let s = AppState::initial();
    let s = AppState::reduce(s, AppAction::GenerateQrCode(b"HELLO".to_vec()));
    let s = AppState::reduce(
        s,
        AppAction::UpdateForegroundColor(qr_portal::color::Color::from_rgb(200, 10, 30)),
    );
    let e = export(&s, ExportFormat::Png).unwrap().unwrap();
    let decoded = decode_uri(&e.data_uri, "data:image/png;base64,");
    let img = image::load_from_memory(&decoded).expect("png must decode").to_rgb8();
    let mut found_fg = false;
    let mut found_bg = false;
    for p in img.pixels() {
        if p.0 == [200, 10, 30] {
            found_fg = true;
        }
        if p.0 == [255, 255, 255] {
            found_bg = true;
        }
    }
    assert!(found_fg && found_bg);
}
