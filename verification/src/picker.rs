//! Pointer-driven color-picker state machine.
//!
//! The picker watches pointer events against two screen regions: a
//! saturation/value square and a hue strip. A pointer press inside a region
//! starts a drag, a release anywhere ends it, and a move while dragging maps
//! the pointer position to a color update, clamping coordinates to the
//! region instead of extrapolating beyond it.

use vstd::prelude::*;
use crate::color::Color;
use crate::color::Frac;
use crate::color::color_wf;
use crate::color::frac_wf;

verus! {

/// The width in pixels of the hue slider handle, used only for the visual
/// handle offset along the hue strip.
pub const HUE_HANDLE_WIDTH: u32 = 10;

/// A widget's bounding box in screen coordinates.
#[derive(Clone, Copy, Debug, PartialEq, Eq, Structural)]
pub struct Rect {
    pub x: i32,
    pub y: i32,
    pub width: u32,
    pub height: u32,
}

/// The drag state of the picker; reset to `Idle` on every pointer release.
#[derive(Clone, Copy, Debug, PartialEq, Eq, Structural)]
pub enum PickerState {
    Idle,
    DraggingSquare,
    DraggingHue,
}

/// Which region a pointer press landed in.
#[derive(Clone, Copy, Debug, PartialEq, Eq, Structural)]
pub enum PickerRegion {
    Square,
    HueStrip,
}

/// A pointer event, with screen coordinates for moves.
#[derive(Clone, Copy, Debug, PartialEq, Eq, Structural)]
pub enum PointerEvent {
    Down(PickerRegion),
    Up,
    Move(i32, i32),
}

/// What one picker step produces: the next drag state, an emitted color
/// update if the move changed the color, and a new hue slider handle offset
/// if the move dragged the hue.
#[derive(Clone, Copy, Debug, PartialEq, Eq, Structural)]
pub struct PickerUpdate {
    pub state: PickerState,
    pub color: Option<Color>,
    pub slider_x: Option<u32>,
}

/// `x` clamped into `[lo, hi]`.
pub open spec fn clamp_spec(x: int, lo: int, hi: int) -> int {
    if x < lo {
        lo
    } else if x > hi {
        hi
    } else {
        x
    }
}

/// The color emitted while dragging inside the saturation/value square:
/// saturation is the clamped horizontal position over the width, value one
/// minus the clamped vertical position over the height, hue untouched.
pub open spec fn square_color_spec(c: Color, r: Rect, x: int, y: int) -> Color {
    let sx = clamp_spec(x - r.x, 0, r.width as int);
    let sy = clamp_spec(y - r.y, 0, r.height as int);
    Color {
        hue: c.hue,
        saturation: (Frac { num: sx as u32, den: r.width }),
        value: (Frac { num: (r.height - sy) as u32, den: r.height }),
    }
}

/// The color emitted while dragging along the hue strip: hue is the clamped
/// horizontal position over the width, saturation and value untouched.
pub open spec fn hue_color_spec(c: Color, r: Rect, x: int) -> Color {
    let hx = clamp_spec(x - r.x, 0, r.width as int);
    Color { hue: (Frac { num: hx as u32, den: r.width }), saturation: c.saturation, value: c.value }
}

/// The visual offset of the hue slider handle: the clamped position, kept
/// at most a handle's width from the right edge of the strip.
pub open spec fn hue_slider_spec(r: Rect, x: int) -> int {
    let hx = clamp_spec(x - r.x, 0, r.width as int);
    if hx > r.width - HUE_HANDLE_WIDTH {
        r.width - HUE_HANDLE_WIDTH
    } else {
        hx
    }
}

/// `v` clamped into `[0, hi]`.
fn clamp_to(v: i64, hi: i64) -> (r: i64)
    requires
        0 <= hi,
    ensures
        r == clamp_spec(v as int, 0, hi as int),
{
    if v < 0 {
        0
    } else if v > hi {
        hi
    } else {
        v
    }
}

/// One step of the picker state machine.
///
/// A press inside a region starts the matching drag; a release anywhere
/// returns to `Idle`; a move while dragging emits a color update computed
/// from the pointer position against the region's bounding box, with
/// coordinates clamped to the box; a move while idle changes nothing.
pub fn picker_step(
    state: PickerState,
    event: PointerEvent,
    square: Rect,
    hue_strip: Rect,
    color: Color,
) -> (r: PickerUpdate)
    requires
        color_wf(color),
        match event {
            PointerEvent::Move(_, _) => match state {
                PickerState::DraggingSquare => 1 <= square.width && 1 <= square.height,
                PickerState::DraggingHue => HUE_HANDLE_WIDTH <= hue_strip.width,
                PickerState::Idle => true,
            },
            _ => true,
        },
    ensures
        match event {
            PointerEvent::Down(region) => r == (PickerUpdate {
                state: match region {
                    PickerRegion::Square => PickerState::DraggingSquare,
                    PickerRegion::HueStrip => PickerState::DraggingHue,
                },
                color: None,
                slider_x: None,
            }),
            PointerEvent::Up => r == (PickerUpdate {
                state: PickerState::Idle,
                color: None,
                slider_x: None,
            }),
            PointerEvent::Move(x, y) => match state {
                PickerState::Idle => r == (PickerUpdate { state, color: None, slider_x: None }),
                PickerState::DraggingSquare => r == (PickerUpdate {
                    state,
                    color: Some(square_color_spec(color, square, x as int, y as int)),
                    slider_x: None,
                }),
                PickerState::DraggingHue => r == (PickerUpdate {
                    state,
                    color: Some(hue_color_spec(color, hue_strip, x as int)),
                    slider_x: Some(hue_slider_spec(hue_strip, x as int) as u32),
                }),
            },
        },
        r.color matches Some(c2) ==> color_wf(c2),
{
    match event {
        PointerEvent::Down(PickerRegion::Square) => PickerUpdate {
            state: PickerState::DraggingSquare,
            color: None,
            slider_x: None,
        },
        PointerEvent::Down(PickerRegion::HueStrip) => PickerUpdate {
            state: PickerState::DraggingHue,
            color: None,
            slider_x: None,
        },
        PointerEvent::Up => PickerUpdate { state: PickerState::Idle, color: None, slider_x: None },
        PointerEvent::Move(x, y) => match state {
            PickerState::Idle => PickerUpdate { state, color: None, slider_x: None },
            PickerState::DraggingSquare => {
                let sx: i64 = clamp_to((x as i64) - (square.x as i64), square.width as i64);
                let sy: i64 = clamp_to((y as i64) - (square.y as i64), square.height as i64);
                let saturation = Frac { num: sx as u32, den: square.width };
                let value = Frac { num: square.height - (sy as u32), den: square.height };
                PickerUpdate {
                    state,
                    color: Some(color.update_saturation(saturation).update_value(value)),
                    slider_x: None,
                }
            },
            PickerState::DraggingHue => {
                let hx: i64 = clamp_to((x as i64) - (hue_strip.x as i64), hue_strip.width as i64);
                let hue = Frac { num: hx as u32, den: hue_strip.width };
                let slider: u32 = if (hx as u32) > hue_strip.width - HUE_HANDLE_WIDTH {
                    hue_strip.width - HUE_HANDLE_WIDTH
                } else {
                    hx as u32
                };
                PickerUpdate {
                    state,
                    color: Some(color.update_hue(hue)),
                    slider_x: Some(slider),
                }
            },
        },
    }
}

/// Whether a point lies inside a bounding box, edges included.
pub open spec fn point_in_rect(x: int, y: int, r: Rect) -> bool {
    &&& r.x <= x <= r.x + r.width
    &&& r.y <= y <= r.y + r.height
}

/// Whether a pointer release should schedule the picker popover to close:
/// only while the popover is open and only for a release outside its
/// bounding box, so the click that opened it does not close it again.
pub fn popover_release_closes(open: bool, x: i32, y: i32, popover: Rect) -> (close: bool)
    ensures
        close == (open && !point_in_rect(x as int, y as int, popover)),
{
    if !open {
        return false;
    }
    let xi: i64 = x as i64;
    let yi: i64 = y as i64;
    let inside: bool = (popover.x as i64) <= xi && xi <= (popover.x as i64) + (popover.width
        as i64) && (popover.y as i64) <= yi && yi <= (popover.y as i64) + (popover.height as i64);
    !inside
}

} // verus!
