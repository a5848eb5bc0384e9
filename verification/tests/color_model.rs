use qr_portal::color::Color;
use qr_portal::color::Frac;

#[test]
fn rgb_round_trip_is_exact_on_u8_grid() {
    let samples: Vec<(u8, u8, u8)> = vec![
        (0, 0, 0),
        (255, 255, 255),
        (255, 0, 0),
        (0, 255, 0),
        (0, 0, 255),
        (12, 200, 77),
        (200, 12, 77),
        (77, 12, 200),
        (1, 2, 3),
        (254, 254, 255),
        (128, 128, 128),
        (90, 200, 90),
    ];
    for (r, g, b) in samples {
        let c = Color::from_rgb(r, g, b);
        assert_eq!(c.to_rgb_u8(), (r, g, b));
    }
}

#[test]
fn rgb_round_trip_exhaustive_slice() {
    for r in (0u16..=255).step_by(17) {
        for g in (0u16..=255).step_by(17) {
            for b in (0u16..=255).step_by(17) {
                let c = Color::from_rgb(r as u8, g as u8, b as u8);
                assert_eq!(c.to_rgb_u8(), (r as u8, g as u8, b as u8));
            }
        }
    }
}

#[test]
fn hue_one_wraps_to_hue_zero() {
    let s = Frac::new(3, 4);
    let v = Frac::new(7, 9);
    let at_zero = Color::from_hsv(Frac::zero(), s, v);
    let at_one = Color::from_hsv(Frac::one(), s, v);
    assert_eq!(at_zero.to_rgb_u8(), at_one.to_rgb_u8());
    let at_one_wide = Color::from_hsv(Frac::new(360, 360), s, v);
    assert_eq!(at_zero.to_rgb_u8(), at_one_wide.to_rgb_u8());
}

#[test]
fn achromatic_input_yields_zero_saturation() {
    for level in [0u8, 1, 17, 128, 254, 255] {
        let c = Color::from_rgb(level, level, level);
        assert_eq!(c.saturation, Frac::new(0, 1));
        assert_eq!(c.hue, Frac::new(0, 1));
    }
}

#[test]
fn to_hex_known_values() {
    assert_eq!(Color::from_rgb(0, 0, 0).to_hex(), "#000000");
    assert_eq!(Color::from_rgb(255, 255, 255).to_hex(), "#ffffff");
    assert_eq!(Color::from_rgb(255, 0, 0).to_hex(), "#ff0000");
    assert_eq!(Color::from_rgb(0, 255, 0).to_hex(), "#00ff00");
    assert_eq!(Color::from_rgb(0, 0, 255).to_hex(), "#0000ff");
    assert_eq!(Color::from_rgb(1, 2, 3).to_hex(), "#010203");
    assert_eq!(Color::from_rgb(171, 205, 239).to_hex(), "#abcdef");
}

#[test]
fn to_hex_shape_holds_for_many_colors() {
    for r in (0u16..=255).step_by(51) {
        for g in (0u16..=255).step_by(51) {
            for b in (0u16..=255).step_by(51) {
                let hex = Color::from_rgb(r as u8, g as u8, b as u8).to_hex();
                assert_eq!(hex.len(), 7);
                let chars: Vec<char> = hex.chars().collect();
                assert_eq!(chars[0], '#');
                for ch in &chars[1..] {
                    assert!(ch.is_ascii_hexdigit() && !ch.is_ascii_uppercase());
                }
            }
        }
    }
}

#[test]
fn updates_replace_one_channel_without_clamping() {
    let c = Color::from_hsv(Frac::new(1, 2), Frac::new(1, 3), Frac::new(1, 4));
    let c2 = c.update_hue(Frac::new(5, 8));
    assert_eq!(c2.hue, Frac::new(5, 8));
    assert_eq!(c2.saturation, Frac::new(1, 3));
    assert_eq!(c2.value, Frac::new(1, 4));
    let c3 = c.update_saturation(Frac::new(2, 3));
    assert_eq!(c3.hue, Frac::new(1, 2));
    assert_eq!(c3.saturation, Frac::new(2, 3));
    assert_eq!(c3.value, Frac::new(1, 4));
    let c4 = c.update_value(Frac::new(3, 4));
    assert_eq!(c4.hue, Frac::new(1, 2));
    assert_eq!(c4.saturation, Frac::new(1, 3));
    assert_eq!(c4.value, Frac::new(3, 4));
}

#[test]
fn hue_sectors_cover_the_wheel() {
    // One color from each of the six sectors of the hue circle.
    let v = Frac::new(1, 1);
    let s = Frac::new(1, 1);
    let sector_hues = [
        (Frac::new(0, 12), (255u8, 0u8, 0u8)),
        (Frac::new(2, 12), (255, 255, 0)),
        (Frac::new(4, 12), (0, 255, 0)),
        (Frac::new(6, 12), (0, 255, 255)),
        (Frac::new(8, 12), (0, 0, 255)),
        (Frac::new(10, 12), (255, 0, 255)),
    ];
    for (hue, rgb) in sector_hues {
        assert_eq!(Color::from_hsv(hue, s, v).to_rgb_u8(), rgb);
    }
}
