use qr_portal::color::Color;
use qr_portal::color::Frac;
use qr_portal::picker::PickerRegion;
use qr_portal::picker::PickerState;
use qr_portal::picker::PointerEvent;
use qr_portal::picker::Rect;
use qr_portal::picker::picker_step;
use qr_portal::picker::popover_release_closes;

fn square() -> Rect {
    Rect { x: 10, y: 20, width: 100, height: 50 }
}

fn strip() -> Rect {
    Rect { x: 5, y: 200, width: 360, height: 16 }
}

fn base_color() -> Color {
    Color::from_hsv(Frac::new(1, 3), Frac::new(1, 2), Frac::new(1, 2))
}

#[test]
fn pointer_down_starts_the_matching_drag() {
    let r = picker_step(
        PickerState::Idle,
        PointerEvent::Down(PickerRegion::Square),
        square(),
        strip(),
        base_color(),
    );
    assert_eq!(r.state, PickerState::DraggingSquare);
    assert_eq!(r.color, None);
    assert_eq!(r.slider_x, None);
    let r = picker_step(
        PickerState::Idle,
        PointerEvent::Down(PickerRegion::HueStrip),
        square(),
        strip(),
        base_color(),
    );
    assert_eq!(r.state, PickerState::DraggingHue);
}

#[test]
fn pointer_up_always_returns_to_idle() {
    for state in [PickerState::Idle, PickerState::DraggingSquare, PickerState::DraggingHue] {
        let r = picker_step(state, PointerEvent::Up, square(), strip(), base_color());
        assert_eq!(r.state, PickerState::Idle);
        assert_eq!(r.color, None);
        assert_eq!(r.slider_x, None);
    }
}

#[test]
fn move_while_idle_changes_nothing() {
    let r = picker_step(
        PickerState::Idle,
        PointerEvent::Move(55, 33),
        square(),
        strip(),
        base_color(),
    );
    assert_eq!(r.state, PickerState::Idle);
    assert_eq!(r.color, None);
    assert_eq!(r.slider_x, None);
}

#[test]
fn square_drag_maps_local_position_to_saturation_and_value() {
    // Local position (50, 10) in a 100 by 50 box: saturation 50/100,
    // value 1 - 10/50 = 40/50.
    let r = picker_step(
        PickerState::DraggingSquare,
        PointerEvent::Move(60, 30),
        square(),
        strip(),
        base_color(),
    );
    assert_eq!(r.state, PickerState::DraggingSquare);
    let c = r.color.unwrap();
    assert_eq!(c.saturation, Frac::new(50, 100));
    assert_eq!(c.value, Frac::new(40, 50));
    assert_eq!(c.hue, base_color().hue);
    assert_eq!(r.slider_x, None);
}

#[test]
fn square_drag_clamps_rather_than_extrapolates() {
    // Far left and above: clamps to (0, 0), so saturation 0 and value 1.
    let r = picker_step(
        PickerState::DraggingSquare,
        PointerEvent::Move(-500, -500),
        square(),
        strip(),
        base_color(),
    );
    let c = r.color.unwrap();
    assert_eq!(c.saturation, Frac::new(0, 100));
    assert_eq!(c.value, Frac::new(50, 50));
    // Far right and below: clamps to (width, height).
    let r = picker_step(
        PickerState::DraggingSquare,
        PointerEvent::Move(5000, 5000),
        square(),
        strip(),
        base_color(),
    );
    let c = r.color.unwrap();
    assert_eq!(c.saturation, Frac::new(100, 100));
    assert_eq!(c.value, Frac::new(0, 50));
}

#[test]
fn hue_drag_maps_position_and_offsets_the_handle() {
    let r = picker_step(
        PickerState::DraggingHue,
        PointerEvent::Move(95, 210),
        square(),
        strip(),
        base_color(),
    );
    assert_eq!(r.state, PickerState::DraggingHue);
    let c = r.color.unwrap();
    assert_eq!(c.hue, Frac::new(90, 360));
    assert_eq!(c.saturation, base_color().saturation);
    assert_eq!(c.value, base_color().value);
    assert_eq!(r.slider_x, Some(90));
}

#[test]
fn hue_handle_offset_stays_inside_the_strip() {
    // Beyond the right edge: hue clamps to 1, the handle to width - 10.
    let r = picker_step(
        PickerState::DraggingHue,
        PointerEvent::Move(10_000, 0),
        square(),
        strip(),
        base_color(),
    );
    let c = r.color.unwrap();
    assert_eq!(c.hue, Frac::new(360, 360));
    assert_eq!(r.slider_x, Some(350));
    // Beyond the left edge: both clamp to 0.
    let r = picker_step(
        PickerState::DraggingHue,
        PointerEvent::Move(-10_000, 0),
        square(),
        strip(),
        base_color(),
    );
    let c = r.color.unwrap();
    assert_eq!(c.hue, Frac::new(0, 360));
    assert_eq!(r.slider_x, Some(0));
}

#[test]
fn popover_closes_only_on_release_outside_while_open() {
    let popover = Rect { x: 100, y: 100, width: 200, height: 150 };
    assert!(!popover_release_closes(false, 50, 50, popover));
    assert!(!popover_release_closes(true, 150, 150, popover));
    // Edges count as inside.
    assert!(!popover_release_closes(true, 100, 100, popover));
    assert!(!popover_release_closes(true, 300, 250, popover));
    assert!(popover_release_closes(true, 99, 150, popover));
    assert!(popover_release_closes(true, 150, 99, popover));
    assert!(popover_release_closes(true, 301, 150, popover));
    assert!(popover_release_closes(true, 150, 251, popover));
}
