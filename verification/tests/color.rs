use centipede::color::{Rgb, ANIMATION_STEP, FULL_INTENSITY, GREEN_STEP, RED_STEP};

fn fraction(units: u64) -> f64 {
    units as f64 / FULL_INTENSITY as f64
}

#[test]
fn steps_are_two_hundredths_and_one_thousandth() {
    assert_eq!(FULL_INTENSITY, 1000);
    assert_eq!(RED_STEP, 20);
    assert_eq!(GREEN_STEP, 20);
    assert_eq!(ANIMATION_STEP, 1);
    assert_eq!(fraction(RED_STEP), 0.02);
    assert_eq!(fraction(GREEN_STEP), 0.02);
    assert_eq!(fraction(ANIMATION_STEP), 0.001);
}

#[test]
fn white_is_full_intensity_on_every_channel() {
    let white = Rgb::white();
    assert_eq!(white, Rgb { red: 1000, green: 1000, blue: 1000 });
    assert_eq!(fraction(white.red), 1.0);
    assert_eq!(fraction(white.green), 1.0);
    assert_eq!(fraction(white.blue), 1.0);
}

#[test]
fn first_tile_has_one_step_of_red_and_green() {
    assert_eq!(Rgb::of_tile(0, 0, 0), Rgb { red: 20, green: 20, blue: 0 });
}

#[test]
fn red_follows_the_column_and_green_the_row() {
    assert_eq!(Rgb::of_tile(3, 5, 7), Rgb { red: 120, green: 80, blue: 7 });
    assert_eq!(Rgb::of_tile(5, 3, 7), Rgb { red: 80, green: 120, blue: 7 });
    for row in 0..40u32 {
        for col in 0..40u32 {
            let color = Rgb::of_tile(row, col, 11);
            assert_eq!(color.red, (col as u64 + 1) * 20);
            assert_eq!(color.green, (row as u64 + 1) * 20);
            assert_eq!(color.blue, 11);
        }
    }
}

#[test]
fn blue_is_the_phase_whatever_the_tile() {
    for phase in [0u64, 1, 999, 1000, 1001, u64::MAX] {
        assert_eq!(Rgb::of_tile(0, 0, phase).blue, phase);
        assert_eq!(Rgb::of_tile(14, 24, phase).blue, phase);
        assert_eq!(Rgb::of_tile(u32::MAX, u32::MAX, phase).blue, phase);
    }
}

#[test]
fn channels_are_not_clamped() {
    let color = Rgb::of_tile(49, 50, 2500);
    assert_eq!(color, Rgb { red: 1020, green: 1000, blue: 2500 });
    assert!(color.red > FULL_INTENSITY);
    assert!(color.blue > FULL_INTENSITY);
}

#[test]
fn last_possible_tile_does_not_overflow() {
    let color = Rgb::of_tile(u32::MAX, u32::MAX, 0);
    assert_eq!(color.red, 4_294_967_296 * 20);
    assert_eq!(color.green, 4_294_967_296 * 20);
}
