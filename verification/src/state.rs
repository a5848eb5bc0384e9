//! Application state and its reducer.
//!
//! The reducer is a pure transition function from a state and an action to
//! the next state. A generation action offers the payload to the render
//! pipeline: on success the artifact is replaced and the error cleared, on
//! failure the error is set and the prior artifact kept — never both. A
//! configuration action (level or color) re-renders the stored payload of
//! the existing artifact, if any, so the visible output follows the
//! configuration without re-entering input.

use vstd::prelude::*;
use vstd::string::StringExecFns;
use crate::color::Color;
use crate::color::color_wf;
use crate::color::from_rgb_spec;
use crate::color::hex_view;
use crate::render::EcLevel;
use crate::render::EncodeOutcome;
use crate::render::RenderError;
use crate::render::encode_outcome;
use crate::render::qr_encode;
use crate::render::svg_render;
use crate::render::svg_image;

verus! {

/// A successfully rendered QR artifact: the exact payload bytes that
/// produced it, kept so it can be re-rendered under new styling, and the
/// rendered SVG text.
#[derive(Debug)]
pub struct QrArtifact {
    pub payload: Vec<u8>,
    pub svg: String,
}

/// The whole application state: the current artifact if any, the current
/// error notice if any, and the forward-looking render configuration.
#[derive(Debug)]
pub struct AppState {
    pub artifact: Option<QrArtifact>,
    pub error_message: Option<String>,
    pub ec_level: EcLevel,
    pub foreground: Color,
    pub background: Color,
}

/// An action dispatched to the reducer.
#[derive(Debug)]
pub enum AppAction {
    CloseError,
    GenerateQrCode(Vec<u8>),
    UpdateErrorCorrectionLevel(EcLevel),
    UpdateForegroundColor(Color),
    UpdateBackgroundColor(Color),
}

/// The artifact as payload bytes and SVG text.
pub open spec fn artifact_view(a: Option<QrArtifact>) -> Option<(Seq<u8>, Seq<char>)> {
    match a {
        Option::None => Option::None,
        Option::Some(q) => Option::Some((q.payload@, q.svg@)),
    }
}

/// The error notice as text.
pub open spec fn error_view(e: Option<String>) -> Option<Seq<char>> {
    match e {
        Option::None => Option::None,
        Option::Some(m) => Option::Some(m@),
    }
}

/// A state is well formed when both configured colors are.
pub open spec fn state_wf(s: AppState) -> bool {
    color_wf(s.foreground) && color_wf(s.background)
}

/// The notice shown when the payload exceeds the symbol capacity.
pub open spec fn too_long_message() -> Seq<char> {
    "Data is too large! (2,331 max bytes or 3,391 max alphanumeric characters)"@
}

/// The notice shown for any other encoder fault, around its diagnostic.
pub open spec fn other_error_message(t: Seq<char>) -> Seq<char> {
    "An error has occured. ("@ + t + ")"@
}

/// What a generation step does to the state: configuration untouched, and
/// depending on what the encoder decides for the payload at the current
/// level, either the artifact replaced and the error cleared, or an error
/// set and the artifact untouched.
pub open spec fn generate_transition(pre: AppState, payload: Seq<u8>, post: AppState) -> bool {
    &&& post.ec_level == pre.ec_level
    &&& post.foreground == pre.foreground
    &&& post.background == pre.background
    &&& match encode_outcome(payload, pre.ec_level) {
        EncodeOutcome::Accepted => {
            &&& artifact_view(post.artifact) == Option::Some(
                (
                    payload,
                    svg_image(
                        payload,
                        pre.ec_level,
                        hex_view(pre.foreground),
                        hex_view(pre.background),
                    ),
                ),
            )
            &&& post.error_message is None
        },
        EncodeOutcome::TooLong => {
            &&& error_view(post.error_message) == Option::Some(too_long_message())
            &&& artifact_view(post.artifact) == artifact_view(pre.artifact)
        },
        EncodeOutcome::Rejected(t) => {
            &&& error_view(post.error_message) == Option::Some(other_error_message(t))
            &&& artifact_view(post.artifact) == artifact_view(pre.artifact)
        },
    }
}

/// The capacity-exceeded notice.
fn too_long_text() -> (r: String)
    ensures
        r@ == too_long_message(),
{
    String::from_str("Data is too large! (2,331 max bytes or 3,391 max alphanumeric characters)")
}

/// The notice for any other encoder fault, around its diagnostic.
fn other_error_text(t: &String) -> (r: String)
    ensures
        r@ == other_error_message(t@),
{
    String::from_str("An error has occured. (").concat(t.as_str()).concat(")")
}

/// Runs the render pipeline for a payload against the state's current
/// configuration and folds the outcome into the next state.
fn apply_generate(state: AppState, payload: Vec<u8>) -> (post: AppState)
    requires
        state_wf(state),
    ensures
        state_wf(post),
        generate_transition(state, payload@, post),
{
    let fg_hex = state.foreground.to_hex();
    let bg_hex = state.background.to_hex();
    match qr_encode(&payload, state.ec_level) {
        Ok(code) => {
            let svg = svg_render(&code, &payload, state.ec_level, fg_hex.as_str(), bg_hex.as_str());
            AppState {
                artifact: Some(QrArtifact { payload, svg }),
                error_message: None,
                ec_level: state.ec_level,
                foreground: state.foreground,
                background: state.background,
            }
        },
        Err(RenderError::PayloadTooLarge) => AppState {
            error_message: Some(too_long_text()),
            artifact: state.artifact,
            ec_level: state.ec_level,
            foreground: state.foreground,
            background: state.background,
        },
        Err(RenderError::OtherEncodingError(m)) => AppState {
            error_message: Some(other_error_text(&m)),
            artifact: state.artifact,
            ec_level: state.ec_level,
            foreground: state.foreground,
            background: state.background,
        },
    }
}

/// The stored payload of the artifact, if there is one.
fn stored_payload(artifact: &Option<QrArtifact>) -> (r: Option<Vec<u8>>)
    ensures
        match artifact_view(*artifact) {
            Option::None => r is None,
            Option::Some(a) => r matches Some(p) && p@ == a.0,
        },
{
    match artifact {
        None => None,
        Some(q) => {
            let p = q.payload.clone();
            proof {
                assert(p@ =~= q.payload@);
            }
            Some(p)
        },
    }
}

impl AppState {
    /// The state at startup: nothing generated, no error, medium error
    /// correction, black on white.
    pub fn initial() -> (s: AppState)
        ensures
            state_wf(s),
            s.artifact is None,
            s.error_message is None,
            s.ec_level == EcLevel::M,
            s.foreground == from_rgb_spec(0, 0, 0),
            s.background == from_rgb_spec(255, 255, 255),
    {
        AppState {
            artifact: None,
            error_message: None,
            ec_level: EcLevel::M,
            foreground: Color::from_rgb(0, 0, 0),
            background: Color::from_rgb(255, 255, 255),
        }
    }

    /// The pure state transition for one action.
    ///
    /// Closing the error only clears the notice. A generation action runs
    /// the render pipeline on the given bytes. A configuration action
    /// records the new configuration and, when an artifact exists,
    /// immediately re-renders that artifact's stored payload — not any
    /// other input — under the new configuration; with no artifact only the
    /// configuration changes.
    pub fn reduce(state: AppState, action: AppAction) -> (post: AppState)
        requires
            state_wf(state),
            match action {
                AppAction::UpdateForegroundColor(c) => color_wf(c),
                AppAction::UpdateBackgroundColor(c) => color_wf(c),
                _ => true,
            },
        ensures
            state_wf(post),
            match action {
                AppAction::CloseError => {
                    &&& post.error_message is None
                    &&& artifact_view(post.artifact) == artifact_view(state.artifact)
                    &&& post.ec_level == state.ec_level
                    &&& post.foreground == state.foreground
                    &&& post.background == state.background
                },
                AppAction::GenerateQrCode(data) => generate_transition(state, data@, post),
                AppAction::UpdateErrorCorrectionLevel(level) => {
                    &&& post.ec_level == level
                    &&& post.foreground == state.foreground
                    &&& post.background == state.background
                    &&& match artifact_view(state.artifact) {
                        Option::None => {
                            &&& artifact_view(post.artifact) is None
                            &&& error_view(post.error_message) == error_view(
                                state.error_message,
                            )
                        },
                        Option::Some(a) => generate_transition(
                            (AppState {
                                ec_level: level,
                                artifact: state.artifact,
                                error_message: state.error_message,
                                foreground: state.foreground,
                                background: state.background,
                            }),
                            a.0,
                            post,
                        ),
                    }
                },
                AppAction::UpdateForegroundColor(color) => {
                    &&& post.ec_level == state.ec_level
                    &&& post.foreground == color
                    &&& post.background == state.background
                    &&& match artifact_view(state.artifact) {
                        Option::None => {
                            &&& artifact_view(post.artifact) is None
                            &&& error_view(post.error_message) == error_view(
                                state.error_message,
                            )
                        },
                        Option::Some(a) => generate_transition(
                            (AppState {
                                foreground: color,
                                artifact: state.artifact,
                                error_message: state.error_message,
                                ec_level: state.ec_level,
                                background: state.background,
                            }),
                            a.0,
                            post,
                        ),
                    }
                },
                AppAction::UpdateBackgroundColor(color) => {
                    &&& post.ec_level == state.ec_level
                    &&& post.foreground == state.foreground
                    &&& post.background == color
                    &&& match artifact_view(state.artifact) {
                        Option::None => {
                            &&& artifact_view(post.artifact) is None
                            &&& error_view(post.error_message) == error_view(
                                state.error_message,
                            )
                        },
                        Option::Some(a) => generate_transition(
                            (AppState {
                                background: color,
                                artifact: state.artifact,
                                error_message: state.error_message,
                                ec_level: state.ec_level,
                                foreground: state.foreground,
                            }),
                            a.0,
                            post,
                        ),
                    }
                },
            },
    {
        match action {
            AppAction::CloseError => AppState {
                error_message: None,
                artifact: state.artifact,
                ec_level: state.ec_level,
                foreground: state.foreground,
                background: state.background,
            },
            AppAction::GenerateQrCode(data) => apply_generate(state, data),
            AppAction::UpdateErrorCorrectionLevel(level) => {
                let next = AppState {
                    ec_level: level,
                    artifact: state.artifact,
                    error_message: state.error_message,
                    foreground: state.foreground,
                    background: state.background,
                };
                match stored_payload(&next.artifact) {
                    Some(payload) => apply_generate(next, payload),
                    None => next,
                }
            },
            AppAction::UpdateForegroundColor(color) => {
                let next = AppState {
                    foreground: color,
                    artifact: state.artifact,
                    error_message: state.error_message,
                    ec_level: state.ec_level,
                    background: state.background,
                };
                match stored_payload(&next.artifact) {
                    Some(payload) => apply_generate(next, payload),
                    None => next,
                }
            },
            AppAction::UpdateBackgroundColor(color) => {
                let next = AppState {
                    background: color,
                    artifact: state.artifact,
                    error_message: state.error_message,
                    ec_level: state.ec_level,
                    foreground: state.foreground,
                };
                match stored_payload(&next.artifact) {
                    Some(payload) => apply_generate(next, payload),
                    None => next,
                }
            },
        }
    }
}

} // verus!
