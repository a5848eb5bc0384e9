//! Engine for an interactive QR-code studio: an HSV color model with exact
//! rational channels, the pointer-driven color-picker state machine, the
//! application state reducer that decides when a QR symbol is re-rendered,
//! and the export adapter that turns an artifact into a downloadable data URI.

pub mod color;
pub mod picker;
pub mod render;
pub mod state;
pub mod export;
