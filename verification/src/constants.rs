//! Sizes and fixed addresses of the machine.

use vstd::prelude::*;

verus! {

/// Bytes of addressable memory (4 KB).
pub const RAM_SIZE: usize = 4096;

/// General registers, `V0` to `VF`.
pub const NUM_VREGS: usize = 16;

/// Return addresses the subroutine stack can hold.
pub const STACK_SIZE: usize = 16;

/// Keys of the hexadecimal keypad.
pub const NUM_KEYS: usize = 16;

/// Pixels in one display row.
pub const SCREEN_WIDTH: usize = 64;

/// Rows of the display.
pub const SCREEN_HEIGHT: usize = 32;

/// Pixels of the whole display, stored row by row.
pub const SCREEN_SIZE: usize = SCREEN_WIDTH * SCREEN_HEIGHT;

/// Address at which a program image is placed and execution starts.
pub const START_ADDR: u16 = 0x200;

/// Index of `VF`, the register that instructions overwrite with their flag.
pub const FLAG_REG: usize = 0xF;

/// Width of an instruction in bytes.
pub const INSTRUCTION_SIZE: u16 = 2;

/// Tallest sprite a draw instruction can name: its row count is one nibble.
pub const MAX_SPRITE_ROWS: u16 = 15;

} // verus!
