use vstd::prelude::*;

verus! {

/// Width of the smallest tile, in pixels.
pub const BASE_W: i32 = 8;

/// Height of the smallest tile, in pixels.
pub const BASE_H: i32 = 8;

/// Glyphs per row in the font texture.
pub const CHARS_PER_ROW: i32 = 16;

/// Height of one glyph, in pixels.
pub const FONT_H: i32 = 8;

/// Width of one glyph, in pixels.
pub const FONT_W: i32 = 8;

/// Logical screen height.
pub const ORIG_HEIGHT: i32 = 192;

/// Logical screen width.
pub const ORIG_WIDTH: i32 = 256;

/// Status returned to the host on success.
pub const RET_SUCCESS: i32 = 0;

/// Status returned to the host on failure.
pub const RET_FAILURE: i32 = 1;

/// Status reserved for a future "quit" request.
pub const RET_QUIT: i32 = -1;

/// One full cycle of a phase accumulator: phases are fixed-point fractions
/// in units of 1/PHASE_ONE, always in `[0, PHASE_ONE)`.
pub const PHASE_ONE: u64 = 10_000_000_000;

/// Simulation speed: phase units gained per nanosecond of accepted time
/// (0.0012 cycles per millisecond).
pub const GAME_SPEED: u64 = 12;

/// Ceiling on an acceptable frame delta, in nanoseconds (800 ms).
pub const MAX_LAG: i64 = 800_000_000;

/// Host key codes.
pub struct KeyCode;

impl KeyCode {
    pub const UNKNOWN: i32 = 0;
    pub const BACKSPACE: i32 = 8;
    pub const TAB: i32 = 9;
    pub const RETURN: i32 = 13;
    pub const ESCAPE: i32 = 27;
    pub const SPACE: i32 = 32;
    pub const RIGHT: i32 = 1073741903;
    pub const LEFT: i32 = 1073741904;
    pub const DOWN: i32 = 1073741905;
    pub const UP: i32 = 1073741906;
}

} // verus!
