use qr_portal::color::Color;
use qr_portal::render::EcLevel;
use qr_portal::state::AppAction;
use qr_portal::state::AppState;

const TOO_LONG_NOTICE: &str =
    "Data is too large! (2,331 max bytes or 3,391 max alphanumeric characters)";

#[test]
fn initial_state_has_defaults() {
    let s = AppState::initial();
    assert!(s.artifact.is_none());
    assert!(s.error_message.is_none());
    assert_eq!(s.ec_level, EcLevel::M);
    assert_eq!(s.foreground, Color::from_rgb(0, 0, 0));
    assert_eq!(s.background, Color::from_rgb(255, 255, 255));
}

#[test]
fn generate_produces_an_artifact_and_no_error() {
    let s = AppState::initial();
    let s = AppState::reduce(s, AppAction::GenerateQrCode(b"HELLO".to_vec()));
    let artifact = s.artifact.as_ref().unwrap();
    assert_eq!(artifact.payload, b"HELLO".to_vec());
    assert!(artifact.svg.starts_with("<?xml"));
    assert!(artifact.svg.contains("#000000"));
    assert!(artifact.svg.contains("#ffffff"));
    assert!(s.error_message.is_none());
}

#[test]
fn oversized_payload_sets_the_capacity_error_and_keeps_the_artifact() {
    let s = AppState::initial();
    let s = AppState::reduce(s, AppAction::GenerateQrCode(b"HELLO".to_vec()));
    let kept_payload = s.artifact.as_ref().unwrap().payload.clone();
    let kept_svg = s.artifact.as_ref().unwrap().svg.clone();
    let s = AppState::reduce(s, AppAction::GenerateQrCode(vec![7u8; 3000]));
    assert_eq!(s.error_message.as_deref(), Some(TOO_LONG_NOTICE));
    let artifact = s.artifact.as_ref().unwrap();
    assert_eq!(artifact.payload, kept_payload);
    assert_eq!(artifact.svg, kept_svg);
}

#[test]
fn oversized_payload_on_fresh_state_leaves_no_artifact() {
    let s = AppState::initial();
    let s = AppState::reduce(s, AppAction::GenerateQrCode(vec![7u8; 3000]));
    assert!(s.artifact.is_none());
    assert_eq!(s.error_message.as_deref(), Some(TOO_LONG_NOTICE));
}

#[test]
fn level_change_regenerates_from_the_stored_payload() {
    let s = AppState::initial();
    let s = AppState::reduce(s, AppAction::GenerateQrCode(b"stored payload".to_vec()));
    let s = AppState::reduce(s, AppAction::GenerateQrCode(vec![7u8; 3000]));
    // The failed generation left the artifact at "stored payload"; the level
    // change must regenerate from that payload, not from the rejected bytes.
    let s = AppState::reduce(s, AppAction::UpdateErrorCorrectionLevel(EcLevel::H));
    assert_eq!(s.ec_level, EcLevel::H);
    let artifact = s.artifact.as_ref().unwrap();
    assert_eq!(artifact.payload, b"stored payload".to_vec());
    assert!(s.error_message.is_none());
}

#[test]
fn level_change_without_artifact_only_updates_configuration() {
    let s = AppState::initial();
    let s = AppState::reduce(s, AppAction::UpdateErrorCorrectionLevel(EcLevel::L));
    assert_eq!(s.ec_level, EcLevel::L);
    assert!(s.artifact.is_none());
    assert!(s.error_message.is_none());
}

#[test]
fn close_error_clears_only_the_notice() {
    let s = AppState::initial();
    let s = AppState::reduce(s, AppAction::GenerateQrCode(b"HELLO".to_vec()));
    let s = AppState::reduce(s, AppAction::GenerateQrCode(vec![7u8; 3000]));
    assert!(s.error_message.is_some());
    let kept_payload = s.artifact.as_ref().unwrap().payload.clone();
    let s = AppState::reduce(s, AppAction::CloseError);
    assert!(s.error_message.is_none());
    assert_eq!(s.artifact.as_ref().unwrap().payload, kept_payload);
}

#[test]
fn generation_scenario_end_to_end() {
    // Fresh state, generate "HELLO": artifact present, no error.
    let s = AppState::initial();
    let s = AppState::reduce(s, AppAction::GenerateQrCode(b"HELLO".to_vec()));
    assert!(s.artifact.is_some());
    assert!(s.error_message.is_none());

    // Recolor: regenerated from "HELLO" with the new foreground.
    let red = Color::from_rgb(255, 0, 0);
    let s = AppState::reduce(s, AppAction::UpdateForegroundColor(red));
    assert_eq!(s.foreground, red);
    let artifact = s.artifact.as_ref().unwrap();
    assert_eq!(artifact.payload, b"HELLO".to_vec());
    assert!(artifact.svg.contains("#ff0000"));
    assert!(s.error_message.is_none());
    let red_svg = artifact.svg.clone();

    // An oversized payload: error set, the red "HELLO" artifact untouched.
    let s = AppState::reduce(s, AppAction::GenerateQrCode(vec![7u8; 3000]));
    assert_eq!(s.error_message.as_deref(), Some(TOO_LONG_NOTICE));
    let artifact = s.artifact.as_ref().unwrap();
    assert_eq!(artifact.payload, b"HELLO".to_vec());
    assert_eq!(artifact.svg, red_svg);

    // Closing the notice keeps the artifact.
    let s = AppState::reduce(s, AppAction::CloseError);
    assert!(s.error_message.is_none());
    let artifact = s.artifact.as_ref().unwrap();
    assert_eq!(artifact.payload, b"HELLO".to_vec());
    assert_eq!(artifact.svg, red_svg);
}

#[test]
fn background_change_regenerates_with_the_new_color() {
    let s = AppState::initial();
    let s = AppState::reduce(s, AppAction::GenerateQrCode(b"HELLO".to_vec()));
    let blue = Color::from_rgb(0, 0, 255);
    let s = AppState::reduce(s, AppAction::UpdateBackgroundColor(blue));
    assert_eq!(s.background, blue);
    let artifact = s.artifact.as_ref().unwrap();
    assert_eq!(artifact.payload, b"HELLO".to_vec());
    assert!(artifact.svg.contains("#0000ff"));
}
