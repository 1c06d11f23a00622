use bubble_level::level::{Bubble, ButtonPress, DisplayData, Level, SenseResolution};

fn grid_with_single(row: usize, col: usize) -> [[u8; 5]; 5] {
    let mut g = [[0u8; 5]; 5];
    g[row][col] = 1;
    g
}

#[test]
fn new_state_is_centered_and_clear() {
    let level = Level::new();
    assert_eq!(level.current_render(), [[0u8; 5]; 5]);
    assert_eq!(level.bubble_x_y(), Bubble { row: 2, col: 2 });
    assert_eq!(level.sense_mode, SenseResolution::Course);
    assert!(!level.upside_down);
}

#[test]
fn update_is_deterministic() {
    let mut a = Level::new();
    let mut b = Level::new();
    let ga = a.update_display(300, -200);
    let gb = b.update_display(300, -200);
    assert_eq!(ga, gb);

    // The same state fed the same angles twice renders the same grid again.
    let ga2 = a.update_display(300, -200);
    assert_eq!(ga, ga2);
}

#[test]
fn handle_buttons_is_idempotent() {
    let mut level = Level::new();
    level.handle_buttons(ButtonPress::ButtonA);
    assert_eq!(level.sense_mode, SenseResolution::Course);
    level.handle_buttons(ButtonPress::ButtonA);
    assert_eq!(level.sense_mode, SenseResolution::Course);

    level.handle_buttons(ButtonPress::ButtonB);
    assert_eq!(level.sense_mode, SenseResolution::Fine);
    level.handle_buttons(ButtonPress::ButtonB);
    assert_eq!(level.sense_mode, SenseResolution::Fine);

    level.handle_buttons(ButtonPress::NoPress);
    assert_eq!(level.sense_mode, SenseResolution::Fine);
}

#[test]
fn clamp_never_escapes_the_grid() {
    let mut level = Level::new();
    level.pixel_on(2_000_000_000, -2_000_000_000);
    let b = level.bubble_x_y();
    assert_eq!(b, Bubble { row: 4, col: 0 });

    level.pixel_on(-2_000_000_000, 2_000_000_000);
    let b = level.bubble_x_y();
    assert_eq!(b, Bubble { row: 0, col: 4 });
}

#[test]
fn coarse_scenario_pins_the_corner_cell() {
    // roll = 0.5 rad, pitch = -0.3 rad, coarse scale 6:
    // row = round(0.5 * 6) + 2 = 5 -> clamps to 4
    // col = round(-0.3 * 6) + 2 = 0 -> clamps to 0
    let mut level = Level::new();
    let grid = level.pixel_on(500, -300);
    assert_eq!(level.bubble_x_y(), Bubble { row: 4, col: 0 });
    assert_eq!(grid, grid_with_single(4, 0));
    assert_eq!(level.current_render(), grid_with_single(4, 0));
}

#[test]
fn rounding_is_half_away_from_zero() {
    // roll = 0.25 rad, coarse: 0.25 * 6 = 1.5 rounds to 2 -> row 4
    let mut level = Level::new();
    level.pixel_on(250, 0);
    assert_eq!(level.bubble_x_y(), Bubble { row: 4, col: 2 });

    // roll = -0.25 rad: -1.5 rounds to -2 -> row 0
    level.pixel_on(-250, 0);
    assert_eq!(level.bubble_x_y(), Bubble { row: 0, col: 2 });

    // roll ~ 0.2498 rad: 1.4988 rounds to 1 -> row 3
    level.pixel_on(249, 0);
    assert_eq!(level.bubble_x_y(), Bubble { row: 3, col: 2 });
}

#[test]
fn fine_mode_is_more_sensitive() {
    // 0.1 rad of roll: coarse moves the bubble one pixel, fine pegs it.
    let mut coarse = Level::new();
    coarse.pixel_on(100, 0);
    assert_eq!(coarse.bubble_x_y(), Bubble { row: 3, col: 2 });

    let mut fine = Level::new();
    fine.handle_buttons(ButtonPress::ButtonB);
    fine.pixel_on(100, 0);
    assert_eq!(fine.bubble_x_y(), Bubble { row: 4, col: 2 });
}

#[test]
fn upside_down_blanks_the_grid() {
    let mut level = Level::new();
    assert!(level.note_upside_down(-100));
    let grid = level.update_display(500, -300);
    assert_eq!(grid, [[0u8; 5]; 5]);
    assert_eq!(level.current_render(), [[0u8; 5]; 5]);
}

#[test]
fn zero_vertical_reading_counts_as_upright() {
    let mut level = Level::new();
    assert!(!level.note_upside_down(0));
    assert!(level.note_upside_down(-1));
    assert!(!level.note_upside_down(1));
}

#[test]
fn clearing_after_a_write_restores_the_fresh_grid() {
    let mut d = DisplayData::new();
    d.clear();
    d.pixel_on(3, 1);
    assert_eq!(d.led_array, grid_with_single(3, 1));
    let cleared = d.clear();
    assert_eq!(cleared, DisplayData::new().led_array);
    assert_eq!(cleared, [[0u8; 5]; 5]);
}

#[test]
fn pixel_on_off_grid_changes_nothing() {
    let mut d = DisplayData::new();
    d.pixel_on(2, 2);
    let before = d.led_array;
    d.pixel_on(9, 9);
    assert_eq!(d.led_array, before);
    d.pixel_on(-1, 0);
    assert_eq!(d.led_array, before);
}
