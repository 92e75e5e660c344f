use bevy::color::Srgba;
use hypocycloid::scalar::Scalar;
use hypocycloid::style::{get_color, try_get_color, ColorControl, HypocycloidControls, SrgbColor};

fn s(x: f32) -> Scalar {
    Scalar::from_bits(x.to_bits())
}

fn rgba(r: f32, g: f32, b: f32, a: f32) -> SrgbColor {
    SrgbColor { red: s(r), green: s(g), blue: s(b), alpha: s(a) }
}

#[test]
fn get_color_of_six_digits() {
    assert_eq!(get_color("000000"), rgba(0.0, 0.0, 0.0, 1.0));
    assert_eq!(get_color("00FF00"), rgba(0.0, 1.0, 0.0, 1.0));
    assert_eq!(get_color("FFFFFF"), rgba(1.0, 1.0, 1.0, 1.0));
    assert_eq!(get_color("C84C05"), rgba(200.0 / 255.0, 76.0 / 255.0, 5.0 / 255.0, 1.0));
    assert_eq!(get_color("c84c05"), get_color("C84C05"));
    assert_eq!(get_color("#C84C05"), get_color("C84C05"));
}

#[test]
fn get_color_of_other_lengths() {
    assert_eq!(get_color("FF00FF7F"), rgba(1.0, 0.0, 1.0, 127.0 / 255.0));
    assert_eq!(get_color("#f2a"), rgba(1.0, 34.0 / 255.0, 170.0 / 255.0, 1.0));
    assert_eq!(get_color("#e23030"), rgba(226.0 / 255.0, 48.0 / 255.0, 48.0 / 255.0, 1.0));
    assert_eq!(get_color("f2a8"), rgba(1.0, 34.0 / 255.0, 170.0 / 255.0, 136.0 / 255.0));
}

#[test]
fn get_color_is_what_bevy_parses() {
    for hex in ["000000", "C84C05", "00FF00", "1f1f1f", "#abc", "#ABCD", "12345678", "#FFFFFF"] {
        let want = Srgba::hex(hex).unwrap();
        assert_eq!(get_color(hex), rgba(want.red, want.green, want.blue, want.alpha), "{hex}");
        assert_eq!(try_get_color(hex), Some(get_color(hex)), "{hex}");
    }
}

#[test]
fn try_get_color_of_what_names_no_color() {
    for hex in ["", "#", "1", "12", "12345", "1234567", "123456789", "GGGGGG", "#xyz", "00 000", "##FFF"] {
        assert!(Srgba::hex(hex).is_err(), "{hex}");
        assert_eq!(try_get_color(hex), None, "{hex}");
    }
}

#[test]
fn white_is_all_ones() {
    assert_eq!(SrgbColor::white(), rgba(1.0, 1.0, 1.0, 1.0));
    assert_eq!(
        SrgbColor::from_components((
            0.25f32.to_bits(),
            0.5f32.to_bits(),
            0.75f32.to_bits(),
            1.0f32.to_bits()
        )),
        rgba(0.25, 0.5, 0.75, 1.0)
    );
}

#[test]
fn color_control_default_is_off_and_white() {
    let control = ColorControl::default();
    assert!(!control.override_enabled);
    assert_eq!(control.override_color, SrgbColor::white());
}

#[test]
fn color_control_resolves_to_the_override_only_when_enabled() {
    let green = get_color("00FF00");
    let red = get_color("FF0000");
    let off = ColorControl { override_enabled: false, override_color: red };
    let on = ColorControl { override_enabled: true, override_color: red };
    assert_eq!(off.resolve(green), green);
    assert_eq!(on.resolve(green), red);
    assert_eq!(ColorControl::default().resolve(green), green);
}

#[test]
fn controls_default() {
    let controls = HypocycloidControls::default();
    assert_eq!(controls.color, ColorControl::default());
    assert_eq!(controls.inferior_color, ColorControl::default());
    assert_eq!(controls.superior_color, ColorControl::default());
    assert!(!controls.draw_inferior);
    assert!(!controls.draw_exterior);
}
