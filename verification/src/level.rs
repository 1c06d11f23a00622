//! Tilt-to-pixel mapping: the bubble position, sense resolution, and the
//! 5x5 display grid that renders a single bubble pixel.
//!
//! Angles arrive as integer milliradians. A scale factor selected by the
//! sense mode turns an angle into a pixel offset (rounded to the nearest
//! pixel, halves away from zero), a fixed center offset places a level
//! reading at the grid center, and a saturating clamp keeps the bubble on
//! the grid.

use vstd::prelude::*;

verus! {

pub const CENTER_ROW_OFFSET: i8 = 2;
pub const CENTER_COL_OFFSET: i8 = 2;
pub const BUBBLE_MAX_ROW: i8 = 4;
pub const BUBBLE_MAX_COL: i8 = 4;

/// Scale factors (pixels per radian) for the two sense resolutions:
/// coarse gives a -500 mG to 500 mG reading range across the grid,
/// fine a -50 mG to 50 mG range.
pub const LEVEL_SCALE_COURSE: i64 = 6;
pub const LEVEL_SCALE_FINE: i64 = 60;

/// A button event fed into the level's mode handling. Exactly one value is
/// live at a time; `NoPress` stands for "no qualifying press".
#[derive(Debug, Copy, Clone, PartialEq, Eq, Structural)]
pub enum ButtonPress {
    ButtonA,
    ButtonB,
    NoPress,
}

/// The display sensitivity: a scale factor applied when mapping an angle
/// to a pixel. Mutated only by button events; persists across frames.
#[derive(Debug, Copy, Clone, PartialEq, Eq, Structural)]
pub enum SenseResolution {
    Course,
    Fine,
}

/// The single "on" pixel of the level display, as a row/column pair.
/// After any update both coordinates lie in `[0, 4]`.
#[derive(Debug, Copy, Clone, PartialEq, Eq, Structural)]
pub struct Bubble {
    pub row: i8,
    pub col: i8,
}

/// The 5x5 grid of binary LED intensities handed to the display.
#[derive(Debug, Copy, Clone)]
pub struct DisplayData {
    pub led_array: [[u8; 5]; 5],
}

/// Every cell of the grid is off.
pub open spec fn grid_all_zero(g: [[u8; 5]; 5]) -> bool {
    forall|r: int, c: int| 0 <= r < 5 && 0 <= c < 5 ==> g@[r]@[c] == 0u8
}

/// Exactly the cell at (row, col) is on; every other cell is off.
pub open spec fn grid_single(g: [[u8; 5]; 5], row: int, col: int) -> bool {
    forall|r: int, c: int|
        0 <= r < 5 && 0 <= c < 5 ==> g@[r]@[c] == (if r == row && c == col {
            1u8
        } else {
            0u8
        })
}

/// The scale factor selected by a sense resolution.
pub open spec fn scale_of(m: SenseResolution) -> int {
    match m {
        SenseResolution::Course => LEVEL_SCALE_COURSE as int,
        SenseResolution::Fine => LEVEL_SCALE_FINE as int,
    }
}

/// Milliradians times a scale, rounded to the nearest whole pixel with
/// halves away from zero.
pub open spec fn round_milli(x: int) -> int {
    if x >= 0 {
        (x + 500) / 1000
    } else {
        -((-x + 500) / 1000)
    }
}

/// Saturating clamp of a pixel coordinate to `[0, max]`.
pub open spec fn clamped(v: int, max: int) -> int {
    if v <= 0 {
        0
    } else if v >= max {
        max
    } else {
        v
    }
}

/// The row the bubble lands on for a roll angle under a sense resolution.
pub open spec fn bubble_row_spec(m: SenseResolution, roll_milli: int) -> int {
    clamped(round_milli(roll_milli * scale_of(m)) + CENTER_ROW_OFFSET as int, BUBBLE_MAX_ROW as int)
}

/// The column the bubble lands on for a pitch angle under a sense resolution.
pub open spec fn bubble_col_spec(m: SenseResolution, pitch_milli: int) -> int {
    clamped(round_milli(pitch_milli * scale_of(m)) + CENTER_COL_OFFSET as int, BUBBLE_MAX_COL as int)
}

/// The sense resolution after one button event: button A selects coarse,
/// button B selects fine, no press leaves the mode alone.
pub open spec fn sense_after(m: SenseResolution, e: ButtonPress) -> SenseResolution {
    match e {
        ButtonPress::ButtonA => SenseResolution::Course,
        ButtonPress::ButtonB => SenseResolution::Fine,
        ButtonPress::NoPress => m,
    }
}

/// The grid a frame renders: blank when the device is upside down, else a
/// single bubble pixel at the clamped position for the given angles.
pub open spec fn renders(
    m: SenseResolution,
    upside_down: bool,
    roll_milli: int,
    pitch_milli: int,
    g: [[u8; 5]; 5],
) -> bool {
    if upside_down {
        grid_all_zero(g)
    } else {
        grid_single(g, bubble_row_spec(m, roll_milli), bubble_col_spec(m, pitch_milli))
    }
}

impl DisplayData {
    pub fn new() -> (d: Self)
        ensures
            grid_all_zero(d.led_array),
    {
        let zero_row: [u8; 5] = [0, 0, 0, 0, 0];
        let led_array: [[u8; 5]; 5] = [zero_row, zero_row, zero_row, zero_row, zero_row];
        Self { led_array }
    }

    /// Switch every cell off and hand back the cleared grid.
    pub fn clear(&mut self) -> (g: [[u8; 5]; 5])
        ensures
            grid_all_zero(final(self).led_array),
            g == final(self).led_array,
    {
        let zero_row: [u8; 5] = [0, 0, 0, 0, 0];
        self.led_array = [zero_row, zero_row, zero_row, zero_row, zero_row];
        self.led_array
    }

    /// Switch the cell at (row, col) on, leaving every other cell as it
    /// was; coordinates off the grid change nothing.
    pub fn pixel_on(&mut self, row: i8, col: i8) -> (g: [[u8; 5]; 5])
        ensures
            forall|r: int, c: int|
                0 <= r < 5 && 0 <= c < 5 ==> final(self).led_array@[r]@[c] == (if r == row && c
                    == col {
                    1u8
                } else {
                    old(self).led_array@[r]@[c]
                }),
            g == final(self).led_array,
    {
        if 0 <= row && row <= BUBBLE_MAX_ROW && 0 <= col && col <= BUBBLE_MAX_COL {
            let mut row_cells: [u8; 5] = self.led_array[row as usize];
            row_cells[col as usize] = 1;
            self.led_array[row as usize] = row_cells;
        }
        self.led_array
    }
}

/// The run-time state of the level: the grid rendered last frame, the
/// bubble position, the sense resolution, and the orientation flag.
pub struct Level {
    pub display_data: DisplayData,
    pub bubble: Bubble,
    pub sense_mode: SenseResolution,
    pub upside_down: bool,
}

impl Level {
    pub fn new() -> (l: Self)
        ensures
            grid_all_zero(l.display_data.led_array),
            l.bubble == (Bubble { row: CENTER_ROW_OFFSET, col: CENTER_COL_OFFSET }),
            l.sense_mode == SenseResolution::Course,
            !l.upside_down,
    {
        let mut display_data = DisplayData::new();
        display_data.clear();
        let bubble = Bubble { row: CENTER_ROW_OFFSET, col: CENTER_COL_OFFSET };
        Self { display_data, bubble, sense_mode: SenseResolution::Course, upside_down: false }
    }

    /// Diagnostic accessor for the current bubble coordinates.
    pub fn bubble_x_y(&self) -> (b: Bubble)
        ensures
            b == self.bubble,
    {
        self.bubble
    }

    /// Re-classify the orientation from the vertical acceleration
    /// component, in milli-g: a negative reading means upside down, zero
    /// or positive means not. A single-sample decision, no hysteresis.
    pub fn note_upside_down(&mut self, z_accel_milli: i32) -> (u: bool)
        ensures
            final(self).upside_down == (z_accel_milli < 0),
            u == final(self).upside_down,
            final(self).display_data == old(self).display_data,
            final(self).bubble == old(self).bubble,
            final(self).sense_mode == old(self).sense_mode,
    {
        if z_accel_milli < 0 {
            self.upside_down = true;
        } else {
            self.upside_down = false;
        }
        self.upside_down
    }

    /// The grid as rendered by the last update.
    pub fn current_render(&self) -> (g: [[u8; 5]; 5])
        ensures
            g == self.display_data.led_array,
    {
        self.display_data.led_array
    }

    /// Map a roll/pitch pair (milliradians) to the bubble position under
    /// the current sense mode and render it: the grid is cleared and
    /// exactly the bubble's cell is switched on. Roll drives the row axis,
    /// pitch the column axis.
    pub fn pixel_on(&mut self, roll_milli: i32, pitch_milli: i32) -> (g: [[u8; 5]; 5])
        ensures
            final(self).bubble.row as int == bubble_row_spec(old(self).sense_mode, roll_milli as int),
            final(self).bubble.col as int == bubble_col_spec(old(self).sense_mode, pitch_milli as int),
            0 <= final(self).bubble.row <= BUBBLE_MAX_ROW,
            0 <= final(self).bubble.col <= BUBBLE_MAX_COL,
            grid_single(
                final(self).display_data.led_array,
                final(self).bubble.row as int,
                final(self).bubble.col as int,
            ),
            final(self).sense_mode == old(self).sense_mode,
            final(self).upside_down == old(self).upside_down,
            g == final(self).display_data.led_array,
    {
        self.display_data.clear();

        let new_row: i8 = axis_position(roll_milli, &self.sense_mode, CENTER_ROW_OFFSET, BUBBLE_MAX_ROW);
        let new_col: i8 = axis_position(pitch_milli, &self.sense_mode, CENTER_COL_OFFSET, BUBBLE_MAX_COL);

        self.bubble.row = new_row;
        self.bubble.col = new_col;

        self.display_data.pixel_on(new_row, new_col);
        self.display_data.led_array
    }

    /// Render one frame: a bubble pixel when the device is upright, an
    /// all-clear grid when it is upside down (the bubble position is then
    /// left as it was).
    pub fn update_display(&mut self, roll_milli: i32, pitch_milli: i32) -> (g: [[u8; 5]; 5])
        ensures
            renders(
                old(self).sense_mode,
                old(self).upside_down,
                roll_milli as int,
                pitch_milli as int,
                final(self).display_data.led_array,
            ),
            final(self).sense_mode == old(self).sense_mode,
            final(self).upside_down == old(self).upside_down,
            old(self).upside_down ==> final(self).bubble == old(self).bubble,
            !old(self).upside_down ==> final(self).bubble.row as int == bubble_row_spec(
                old(self).sense_mode,
                roll_milli as int,
            ) && final(self).bubble.col as int == bubble_col_spec(
                old(self).sense_mode,
                pitch_milli as int,
            ),
            g == final(self).display_data.led_array,
    {
        if self.upside_down == false {
            self.pixel_on(roll_milli, pitch_milli);
        } else {
            self.display_data.clear();
        }
        self.display_data.led_array
    }

    /// Button A selects the coarse resolution; repeated presses change
    /// nothing further.
    pub fn handle_button_a(&mut self)
        ensures
            final(self).sense_mode == SenseResolution::Course,
            final(self).display_data == old(self).display_data,
            final(self).bubble == old(self).bubble,
            final(self).upside_down == old(self).upside_down,
    {
        self.sense_mode = SenseResolution::Course;
    }

    /// Button B selects the fine resolution; repeated presses change
    /// nothing further.
    pub fn handle_button_b(&mut self)
        ensures
            final(self).sense_mode == SenseResolution::Fine,
            final(self).display_data == old(self).display_data,
            final(self).bubble == old(self).bubble,
            final(self).upside_down == old(self).upside_down,
    {
        self.sense_mode = SenseResolution::Fine;
    }

    /// Feed one button event into the mode: only the sense resolution can
    /// change, and only as `sense_after` says.
    pub fn handle_buttons(&mut self, binput: ButtonPress)
        ensures
            final(self).sense_mode == sense_after(old(self).sense_mode, binput),
            final(self).display_data == old(self).display_data,
            final(self).bubble == old(self).bubble,
            final(self).upside_down == old(self).upside_down,
    {
        match binput {
            ButtonPress::ButtonA => self.handle_button_a(),
            ButtonPress::ButtonB => self.handle_button_b(),
            ButtonPress::NoPress => {},
        }
    }
}

/// Law: the clamp never escapes the grid. For every sense resolution and
/// every angle, the bubble row and column each lie in `[0, 4]`.
pub proof fn lemma_bubble_position_in_range(m: SenseResolution, value_milli: int)
    ensures
        0 <= bubble_row_spec(m, value_milli) <= BUBBLE_MAX_ROW as int,
        0 <= bubble_col_spec(m, value_milli) <= BUBBLE_MAX_COL as int,
{
}

/// Law: a frame is a pure function of the sense mode, the orientation
/// flag and the two angles. Two grids rendered from identical state and
/// identical angles are bit-identical.
pub proof fn lemma_render_deterministic(
    m: SenseResolution,
    upside_down: bool,
    roll_milli: int,
    pitch_milli: int,
    g1: [[u8; 5]; 5],
    g2: [[u8; 5]; 5],
)
    requires
        renders(m, upside_down, roll_milli, pitch_milli, g1),
        renders(m, upside_down, roll_milli, pitch_milli, g2),
    ensures
        g1 == g2,
{
    lemma_cellwise_equal_grids(g1, g2);
}

/// Law: selecting a mode by button press is idempotent. A second press of
/// the same button (or a second empty event) leaves the mode exactly
/// where the first put it.
pub proof fn lemma_handle_buttons_idempotent(m: SenseResolution, e: ButtonPress)
    ensures
        sense_after(sense_after(m, e), e) == sense_after(m, e),
{
}

/// Law: clearing is a round trip. A grid cleared after any sequence of
/// pixel writes is bit-identical to a freshly constructed all-clear grid:
/// there is only one all-zero grid value.
pub proof fn lemma_cleared_grid_unique(g1: [[u8; 5]; 5], g2: [[u8; 5]; 5])
    requires
        grid_all_zero(g1),
        grid_all_zero(g2),
    ensures
        g1 == g2,
{
    lemma_cellwise_equal_grids(g1, g2);
}

/// Two grids equal in every cell are equal as values.
proof fn lemma_cellwise_equal_grids(g1: [[u8; 5]; 5], g2: [[u8; 5]; 5])
    requires
        forall|r: int, c: int| 0 <= r < 5 && 0 <= c < 5 ==> g1@[r]@[c] == g2@[r]@[c],
    ensures
        g1 == g2,
{
    broadcast use vstd::array::group_array_axioms;

    assert forall|r: int| 0 <= r < 5 implies g1@[r] == g2@[r] by {
        assert(forall|c: int| 0 <= c < 5 ==> g1@[r]@[c] == g2@[r]@[c]);
        assert(g1@[r] =~= g2@[r]);
    }
    assert(g1 =~= g2);
}

/// An angle in milliradians times the mode's scale factor.
fn scaled_milli(value_milli: i32, m: &SenseResolution) -> (s: i64)
    ensures
        s == value_milli as int * scale_of(*m),
        -200_000_000_000 <= s <= 200_000_000_000,
{
    match m {
        SenseResolution::Course => (value_milli as i64) * LEVEL_SCALE_COURSE,
        SenseResolution::Fine => (value_milli as i64) * LEVEL_SCALE_FINE,
    }
}

/// Divide a scaled angle by 1000, rounding to the nearest integer with
/// halves away from zero.
fn round_milli_exec(scaled: i64) -> (q: i64)
    requires
        -200_000_000_000 <= scaled <= 200_000_000_000,
    ensures
        q == round_milli(scaled as int),
{
    if scaled >= 0 {
        let mag: u64 = scaled as u64;
        ((mag + 500) / 1000) as i64
    } else {
        let mag: u64 = (-scaled) as u64;
        -(((mag + 500) / 1000) as i64)
    }
}

/// The clamped pixel coordinate for one axis: scale, round, add the
/// center offset, and saturate into `[0, max]`.
fn axis_position(value_milli: i32, m: &SenseResolution, center: i8, max: i8) -> (p: i8)
    requires
        0 < max,
    ensures
        p as int == clamped(round_milli(value_milli as int * scale_of(*m)) + center as int, max as int),
        0 <= p <= max,
{
    let scaled: i64 = scaled_milli(value_milli, m);
    let off: i64 = round_milli_exec(scaled);
    let pos: i64 = off + (center as i64);
    if pos <= 0 {
        0
    } else if pos >= (max as i64) {
        max
    } else {
        pos as i8
    }
}

} // verus!
