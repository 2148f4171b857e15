//! The executable machine.
//!
//! [`Emulator`] owns the whole machine state. Every method says what it does
//! as an equation between the state before and after, over the model in
//! [`crate::state`].

use vstd::pervasive::unreached;
use vstd::prelude::*;
pub use crate::constants::{
    FLAG_REG, INSTRUCTION_SIZE, MAX_SPRITE_ROWS, NUM_KEYS, NUM_VREGS, RAM_SIZE, SCREEN_HEIGHT,
    SCREEN_SIZE, SCREEN_WIDTH, STACK_SIZE, START_ADDR,
};
use crate::fontset::{FONTSET, FONTSET_SIZE};
use crate::keypad::{is_lowest_pressed, lemma_lowest_pressed_unique};
use crate::opcode::{address, decode, is_random_op, op_nnn, Instruction};
use crate::rng::random_byte;
use crate::sprite::{
    lemma_collides_next_bit, lemma_collides_next_row, lemma_cover_next_bit, lemma_cover_next_row,
    sprite_bit, sprite_collides_before, sprite_covers_before,
};
use crate::state::{Fault, MachineState};

verus! {

/// The machine: program counter, memory, display, registers, index register,
/// subroutine stack, keypad and the two timers.
pub struct Emulator {
    pc: u16,
    ram: [u8; RAM_SIZE],
    screen: [bool; SCREEN_SIZE],
    v_reg: [u8; NUM_VREGS],
    i_reg: u16,
    sp: u16,
    stack: [u16; STACK_SIZE],
    keys: [bool; NUM_KEYS],
    dt: u8,
    st: u8,
}

impl View for Emulator {
    type V = MachineState;

    closed spec fn view(&self) -> MachineState {
        MachineState {
            pc: self.pc,
            memory: self.ram@,
            display: self.screen@,
            registers: self.v_reg@,
            index: self.i_reg,
            sp: self.sp,
            stack: self.stack@,
            keys: self.keys@,
            delay_timer: self.dt,
            sound_timer: self.st,
        }
    }
}

impl Emulator {
    /// The invariant of the machine: see [`MachineState::wf`]. Every
    /// constructor establishes it and every method keeps it.
    pub open spec fn wf(&self) -> bool {
        self@.wf()
    }

    /// A machine in its initial state.
    pub fn new() -> (emulator: Self)
        ensures
            emulator.wf(),
            emulator@ == MachineState::initial(),
    {
        let mut new_emulator: Emulator = Self {
            pc: START_ADDR,
            ram: [0; RAM_SIZE],
            screen: [false; SCREEN_SIZE],
            v_reg: [0; NUM_VREGS],
            i_reg: 0,
            sp: 0,
            stack: [0; STACK_SIZE],
            keys: [false; NUM_KEYS],
            dt: 0,
            st: 0,
        };
        new_emulator.install_font();
        assert(new_emulator@ =~= MachineState::initial());
        new_emulator
    }

    /// Copies the font to the bottom of memory.
    fn install_font(&mut self)
        ensures
            final(self)@ == (MachineState {
                memory: Seq::new(
                    RAM_SIZE as nat,
                    |a: int|
                        if a < FONTSET_SIZE {
                            FONTSET@[a]
                        } else {
                            old(self)@.memory[a]
                        },
                ),
                ..old(self)@
            }),
    {
        let ghost before = self@;
        let mut i: usize = 0;
        while i < FONTSET_SIZE
            invariant
                i <= FONTSET_SIZE,
                self@ == (MachineState { memory: self@.memory, ..before }),
                forall|a: int| 0 <= a < i ==> self@.memory[a] == FONTSET@[a],
                forall|a: int| i <= a < RAM_SIZE ==> self@.memory[a] == before.memory[a],
            decreases FONTSET_SIZE - i,
        {
            self.ram[i] = FONTSET[i];
            i += 1;
        }
        assert(self@.memory =~= Seq::new(
            RAM_SIZE as nat,
            |a: int|
                if a < FONTSET_SIZE {
                    FONTSET@[a]
                } else {
                    before.memory[a]
                },
        ));
    }

    /// Pushes `value` on the subroutine stack.
    pub fn push(&mut self, value: u16)
        requires
            old(self).wf(),
            old(self)@.sp < STACK_SIZE,
        ensures
            final(self).wf(),
            final(self)@ == old(self)@.push_return(value),
    {
        self.stack[self.sp as usize] = value;
        self.sp += 1;
    }

    /// Pops the most recent value off the subroutine stack.
    pub fn pop(&mut self) -> (value: u16)
        requires
            old(self).wf(),
            old(self)@.sp > 0,
        ensures
            final(self).wf(),
            value == old(self)@.top_return(),
            final(self)@ == old(self)@.pop_return(),
    {
        self.sp -= 1;
        self.stack[self.sp as usize]
    }

    /// The instruction word at the program counter, high byte first.
    pub fn current_word(&self) -> (op: u16)
        requires
            self.wf(),
            self@.pc + 1 < RAM_SIZE,
        ensures
            op == self@.instruction_word(),
    {
        let higher_byte: u16 = self.ram[self.pc as usize] as u16;
        let lower_byte: u16 = self.ram[(self.pc + 1) as usize] as u16;
        assert((higher_byte << 8) | lower_byte == higher_byte * 256 + lower_byte) by (bit_vector)
            requires
                higher_byte < 256,
                lower_byte < 256,
        ;
        (higher_byte << 8) | lower_byte
    }

    /// Reads the instruction word at the program counter, high byte first, and
    /// moves the program counter past it.
    pub fn fetch(&mut self) -> (op: u16)
        requires
            old(self).wf(),
            old(self)@.pc + 1 < RAM_SIZE,
        ensures
            final(self).wf(),
            op == old(self)@.instruction_word(),
            final(self)@ == old(self)@.advance(),
    {
        let op: u16 = self.current_word();
        self.pc += INSTRUCTION_SIZE;
        op
    }

    /// `00E0`: switches every pixel off.
    pub fn clear_screen(&mut self)
        requires
            old(self).wf(),
        ensures
            final(self).wf(),
            final(self)@ == old(self)@.clear_display(),
    {
        self.screen = [false; SCREEN_SIZE];
        assert(self@.display =~= old(self)@.clear_display().display);
    }

    /// `00EE`: pops the return address into the program counter.
    pub fn return_from_subroutine(&mut self)
        requires
            old(self).wf(),
            old(self)@.sp > 0,
        ensures
            final(self).wf(),
            final(self)@ == old(self)@.return_from_subroutine(),
    {
        let ret_addr: u16 = self.pop();
        self.pc = ret_addr;
    }

    /// `1NNN`: sets the program counter to the low twelve bits of `op`.
    pub fn jump(&mut self, op: u16)
        requires
            old(self).wf(),
        ensures
            final(self).wf(),
            final(self)@ == old(self)@.jump(op_nnn(op) as u16),
    {
        let nnn: u16 = address(op);
        self.pc = nnn;
    }

    /// `2NNN`: pushes the program counter, then sets it to the low twelve bits
    /// of `op`.
    pub fn call(&mut self, op: u16)
        requires
            old(self).wf(),
            old(self)@.sp < STACK_SIZE,
        ensures
            final(self).wf(),
            final(self)@ == old(self)@.call(op_nnn(op) as u16),
    {
        let nnn: u16 = address(op);
        let return_addr: u16 = self.pc;
        self.push(return_addr);
        self.pc = nnn;
    }

    /// Moves the program counter past one more instruction if `condition`
    /// holds.
    fn skip_next_if(&mut self, condition: bool)
        requires
            old(self).wf(),
            old(self)@.pc + INSTRUCTION_SIZE <= u16::MAX,
        ensures
            final(self).wf(),
            final(self)@ == old(self)@.skip_if(condition),
    {
        if condition {
            self.pc += INSTRUCTION_SIZE;
        }
    }

    /// `3XNN`: skips the next instruction if register `idx` holds `val`.
    pub fn skip_next_if_reg_equals_val(&mut self, idx: usize, val: u8)
        requires
            old(self).wf(),
            idx < NUM_VREGS,
            old(self)@.pc + INSTRUCTION_SIZE <= u16::MAX,
        ensures
            final(self).wf(),
            final(self)@ == old(self)@.skip_if(old(self)@.reg(idx as int) == val),
    {
        let equal: bool = self.v_reg[idx] == val;
        self.skip_next_if(equal);
    }

    /// `4XNN`: skips the next instruction if register `idx` does not hold
    /// `val`.
    pub fn skip_next_if_reg_not_equals_val(&mut self, idx: usize, val: u8)
        requires
            old(self).wf(),
            idx < NUM_VREGS,
            old(self)@.pc + INSTRUCTION_SIZE <= u16::MAX,
        ensures
            final(self).wf(),
            final(self)@ == old(self)@.skip_if(old(self)@.reg(idx as int) != val),
    {
        let differ: bool = self.v_reg[idx] != val;
        self.skip_next_if(differ);
    }

    /// `5XY0`: skips the next instruction if the two registers hold equal
    /// values.
    pub fn skip_next_if_reg_equals_reg(&mut self, idx_a: usize, idx_b: usize)
        requires
            old(self).wf(),
            idx_a < NUM_VREGS,
            idx_b < NUM_VREGS,
            old(self)@.pc + INSTRUCTION_SIZE <= u16::MAX,
        ensures
            final(self).wf(),
            final(self)@ == old(self)@.skip_if(
                old(self)@.reg(idx_a as int) == old(self)@.reg(idx_b as int),
            ),
    {
        let equal: bool = self.v_reg[idx_a] == self.v_reg[idx_b];
        self.skip_next_if(equal);
    }

    /// `9XY0`: the second register-to-register skip. In this machine it takes
    /// the same decision as `5XY0`: it skips exactly when the two registers
    /// hold equal values.
    pub fn skip_next_if_reg_not_equals_reg(&mut self, idx_a: usize, idx_b: usize)
        requires
            old(self).wf(),
            idx_a < NUM_VREGS,
            idx_b < NUM_VREGS,
            old(self)@.pc + INSTRUCTION_SIZE <= u16::MAX,
        ensures
            final(self).wf(),
            final(self)@ == old(self)@.skip_if(
                old(self)@.reg(idx_a as int) == old(self)@.reg(idx_b as int),
            ),
    {
        let equal: bool = self.v_reg[idx_a] == self.v_reg[idx_b];
        self.skip_next_if(equal);
    }

    /// `6XNN`: sets register `idx` to `val`.
    pub fn assign_val_to_reg(&mut self, idx: usize, val: u8)
        requires
            old(self).wf(),
            idx < NUM_VREGS,
        ensures
            final(self).wf(),
            final(self)@ == old(self)@.with_register(idx as int, val),
    {
        self.v_reg[idx] = val;
    }

    /// `7XNN`: adds `val` to register `idx` modulo 256. The flag register is
    /// left alone.
    pub fn add_val_to_reg(&mut self, idx: usize, val: u8)
        requires
            old(self).wf(),
            idx < NUM_VREGS,
        ensures
            final(self).wf(),
            final(self)@ == old(self)@.add_value(idx as int, val),
    {
        self.v_reg[idx] = self.v_reg[idx].wrapping_add(val);
    }

    /// `8XY0`: copies register `idx_b` to register `idx_a`.
    pub fn assign_reg_to_reg(&mut self, idx_a: usize, idx_b: usize)
        requires
            old(self).wf(),
            idx_a < NUM_VREGS,
            idx_b < NUM_VREGS,
        ensures
            final(self).wf(),
            final(self)@ == old(self)@.with_register(idx_a as int, old(self)@.reg(idx_b as int)),
    {
        self.v_reg[idx_a] = self.v_reg[idx_b];
    }

    /// `8XY1`: ors register `idx_b` into register `idx_a`.
    pub fn reg_or_reg(&mut self, idx_a: usize, idx_b: usize)
        requires
            old(self).wf(),
            idx_a < NUM_VREGS,
            idx_b < NUM_VREGS,
        ensures
            final(self).wf(),
            final(self)@ == old(self)@.with_register(
                idx_a as int,
                old(self)@.reg(idx_a as int) | old(self)@.reg(idx_b as int),
            ),
    {
        self.v_reg[idx_a] = self.v_reg[idx_a] | self.v_reg[idx_b];
    }

    /// `8XY2`: ands register `idx_b` into register `idx_a`.
    pub fn reg_and_reg(&mut self, idx_a: usize, idx_b: usize)
        requires
            old(self).wf(),
            idx_a < NUM_VREGS,
            idx_b < NUM_VREGS,
        ensures
            final(self).wf(),
            final(self)@ == old(self)@.with_register(
                idx_a as int,
                old(self)@.reg(idx_a as int) & old(self)@.reg(idx_b as int),
            ),
    {
        self.v_reg[idx_a] = self.v_reg[idx_a] & self.v_reg[idx_b];
    }

    /// `8XY3`: xors register `idx_b` into register `idx_a`.
    pub fn reg_xor_reg(&mut self, idx_a: usize, idx_b: usize)
        requires
            old(self).wf(),
            idx_a < NUM_VREGS,
            idx_b < NUM_VREGS,
        ensures
            final(self).wf(),
            final(self)@ == old(self)@.with_register(
                idx_a as int,
                old(self)@.reg(idx_a as int) ^ old(self)@.reg(idx_b as int),
            ),
    {
        self.v_reg[idx_a] = self.v_reg[idx_a] ^ self.v_reg[idx_b];
    }

    /// `8XY4`: adds register `idx_b` to register `idx_a` modulo 256 and sets
    /// the flag register to 1 if the sum passed 255, else to 0.
    ///
    /// The flag is written last: where `idx_a` is the flag register, it holds
    /// the flag afterwards, not the sum.
    pub fn add_reg_to_reg(&mut self, idx_a: usize, idx_b: usize)
        requires
            old(self).wf(),
            idx_a < NUM_VREGS,
            idx_b < NUM_VREGS,
        ensures
            final(self).wf(),
            final(self)@ == old(self)@.add_registers(idx_a as int, idx_b as int),
            idx_a != FLAG_REG ==> final(self)@.reg(idx_a as int) == (old(self)@.reg(idx_a as int)
                + old(self)@.reg(idx_b as int)) % 256,
            final(self)@.reg(FLAG_REG as int) == 1 <==> old(self)@.reg(idx_a as int) + old(
                self,
            )@.reg(idx_b as int) >= 256,
            final(self)@.reg(FLAG_REG as int) <= 1,
    {
        let a: u8 = self.v_reg[idx_a];
        let b: u8 = self.v_reg[idx_b];
        let sum: u8 = a.wrapping_add(b);
        let carry: bool = a > u8::MAX - b;
        self.v_reg[idx_a] = sum;
        self.v_reg[FLAG_REG] = if carry {
            1
        } else {
            0
        };
    }

    /// `8XY5`: subtracts register `idx_b` from register `idx_a` modulo 256 and
    /// sets the flag register to 1 if nothing was borrowed, that is if the old
    /// `idx_a` was at least `idx_b`, else to 0.
    ///
    /// The flag is written last: where `idx_a` is the flag register, it holds
    /// the flag afterwards, not the difference.
    pub fn sub_reg_to_reg(&mut self, idx_a: usize, idx_b: usize)
        requires
            old(self).wf(),
            idx_a < NUM_VREGS,
            idx_b < NUM_VREGS,
        ensures
            final(self).wf(),
            final(self)@ == old(self)@.sub_registers(idx_a as int, idx_b as int),
            idx_a != FLAG_REG ==> final(self)@.reg(idx_a as int) == (old(self)@.reg(idx_a as int)
                - old(self)@.reg(idx_b as int)) % 256,
            final(self)@.reg(FLAG_REG as int) == 1 <==> old(self)@.reg(idx_a as int) >= old(
                self,
            )@.reg(idx_b as int),
            final(self)@.reg(FLAG_REG as int) <= 1,
    {
        let a: u8 = self.v_reg[idx_a];
        let b: u8 = self.v_reg[idx_b];
        let difference: u8 = a.wrapping_sub(b);
        let borrow: bool = a < b;
        self.v_reg[idx_a] = difference;
        self.v_reg[FLAG_REG] = if borrow {
            0
        } else {
            1
        };
    }

    /// `8XY7`: sets register `idx_a` to register `idx_b` minus register
    /// `idx_a` modulo 256 and sets the flag register to 1 if nothing was
    /// borrowed, that is if `idx_b` was at least the old `idx_a`, else to 0.
    ///
    /// The flag is written last, as in [`Self::sub_reg_to_reg`].
    pub fn opposite_sub_reg_to_reg(&mut self, idx_a: usize, idx_b: usize)
        requires
            old(self).wf(),
            idx_a < NUM_VREGS,
            idx_b < NUM_VREGS,
        ensures
            final(self).wf(),
            final(self)@ == old(self)@.sub_registers_reversed(idx_a as int, idx_b as int),
            idx_a != FLAG_REG ==> final(self)@.reg(idx_a as int) == (old(self)@.reg(idx_b as int)
                - old(self)@.reg(idx_a as int)) % 256,
            final(self)@.reg(FLAG_REG as int) == 1 <==> old(self)@.reg(idx_b as int) >= old(
                self,
            )@.reg(idx_a as int),
            final(self)@.reg(FLAG_REG as int) <= 1,
    {
        let a: u8 = self.v_reg[idx_a];
        let b: u8 = self.v_reg[idx_b];
        let difference: u8 = b.wrapping_sub(a);
        let borrow: bool = b < a;
        self.v_reg[idx_a] = difference;
        self.v_reg[FLAG_REG] = if borrow {
            0
        } else {
            1
        };
    }

    /// `8XY6`: shifts register `idx` right by one bit and sets the flag
    /// register to the bit that fell out, the lowest bit of the old value.
    ///
    /// The flag is written last: where `idx` is the flag register, it holds
    /// the flag afterwards.
    pub fn single_right_shift(&mut self, idx: usize)
        requires
            old(self).wf(),
            idx < NUM_VREGS,
        ensures
            final(self).wf(),
            final(self)@ == old(self)@.shift_right(idx as int),
            idx != FLAG_REG ==> final(self)@.reg(idx as int) == old(self)@.reg(idx as int) >> 1,
            final(self)@.reg(FLAG_REG as int) == old(self)@.reg(idx as int) & 1,
    {
        let value: u8 = self.v_reg[idx];
        let dropped_bit: u8 = value & 1;
        assert(value >> 1 == value / 2 && value & 1 == value % 2) by (bit_vector);
        self.v_reg[idx] = value >> 1;
        self.v_reg[FLAG_REG] = dropped_bit;
    }

    /// `8XYE`: shifts register `idx` left by one bit, dropping what passes the
    /// eighth, and sets the flag register to the bit that fell out, the highest
    /// bit of the old value.
    ///
    /// The flag is written last: where `idx` is the flag register, it holds
    /// the flag afterwards.
    pub fn single_left_shift(&mut self, idx: usize)
        requires
            old(self).wf(),
            idx < NUM_VREGS,
        ensures
            final(self).wf(),
            final(self)@ == old(self)@.shift_left(idx as int),
            idx != FLAG_REG ==> final(self)@.reg(idx as int) == old(self)@.reg(idx as int) << 1,
            final(self)@.reg(FLAG_REG as int) == (old(self)@.reg(idx as int) >> 7) & 1,
    {
        let value: u8 = self.v_reg[idx];
        let dropped_bit: u8 = (value >> 7) & 1;
        assert(value << 1 == (value * 2) % 256 && (value >> 7) & 1 == value / 128) by (bit_vector);
        self.v_reg[idx] = value << 1;
        self.v_reg[FLAG_REG] = dropped_bit;
    }

    /// `ANNN`: sets the index register to the low twelve bits of `op`.
    pub fn assign_addr_to_ram_pointer(&mut self, op: u16)
        requires
            old(self).wf(),
        ensures
            final(self).wf(),
            final(self)@ == old(self)@.with_index(op_nnn(op) as u16),
    {
        let nnn: u16 = address(op);
        self.i_reg = nnn;
    }

    /// `CXNN`: sets register `idx` to a random byte masked by `val`.
    ///
    /// Which byte is drawn is not known; [`Self::assign_masked_to_reg`] says
    /// what is stored for each.
    pub fn assign_random_to_reg(&mut self, idx: usize, val: u8)
        requires
            old(self).wf(),
            idx < NUM_VREGS,
        ensures
            final(self).wf(),
            exists|random: u8| final(self)@ == #[trigger] old(self)@.with_random(idx as int, val, random),
    {
        let rand: u8 = random_byte();
        self.assign_masked_to_reg(idx, val, rand);
    }

    /// Sets register `idx` to `byte & mask`: what `CXNN` does once its random
    /// byte is drawn.
    pub fn assign_masked_to_reg(&mut self, idx: usize, mask: u8, byte: u8)
        requires
            old(self).wf(),
            idx < NUM_VREGS,
        ensures
            final(self).wf(),
            final(self)@ == old(self)@.with_random(idx as int, mask, byte),
    {
        self.v_reg[idx] = byte & mask;
    }

    /// `DXYN`: draws the sprite of `num_rows` rows that memory holds at the
    /// index register, its top left corner at `(x_coord, y_coord)`.
    ///
    /// Each set bit of the sprite flips one pixel; the bit `c` places from the
    /// left in row `r` flips the pixel at column `(x_coord + c) % 64` and row
    /// `(y_coord + r) % 32`. The flag register becomes 1 if a pixel that was
    /// lit went dark, else 0.
    pub fn draw_sprite(&mut self, x_coord: u16, y_coord: u16, num_rows: u16)
        requires
            old(self).wf(),
            num_rows <= MAX_SPRITE_ROWS,
            num_rows > 0 ==> old(self)@.index + num_rows <= RAM_SIZE,
        ensures
            final(self).wf(),
            final(self)@ == old(self)@.draw_sprite(x_coord as int, y_coord as int, num_rows as int),
    {
        let ghost before = self@;
        let ghost sprite = before.sprite_at_index(num_rows as int);
        let ghost x = x_coord as int;
        let ghost y = y_coord as int;
        let mut flipped: bool = false;
        let mut y_line: u16 = 0;
        proof {
            assert forall|p: int| 0 <= p < SCREEN_SIZE implies !sprite_covers_before(
                sprite,
                x,
                y,
                p,
                0,
                0,
            ) by {
                lemma_cover_next_row(sprite, x, y, p, 0);
            }
            lemma_collides_next_row(before.display, sprite, x, y, 0);
        }
        while y_line < num_rows
            invariant
                y_line <= num_rows <= MAX_SPRITE_ROWS,
                num_rows > 0 ==> before.index + num_rows <= RAM_SIZE,
                before.wf(),
                sprite == before.sprite_at_index(num_rows as int),
                x == x_coord,
                y == y_coord,
                self@ == (MachineState { display: self@.display, ..before }),
                self@.display.len() == SCREEN_SIZE,
                forall|p: int|
                    0 <= p < SCREEN_SIZE ==> self@.display[p] == (before.display[p]
                        != sprite_covers_before(sprite, x, y, p, y_line as int, 0)),
                flipped == sprite_collides_before(before.display, sprite, x, y, y_line as int, 0),
            decreases num_rows - y_line,
        {
            let addr: usize = self.i_reg as usize + y_line as usize;
            let pixels: u8 = self.ram[addr];
            let mut x_line: u8 = 0;
            while x_line < 8
                invariant
                    x_line <= 8,
                    y_line < num_rows <= MAX_SPRITE_ROWS,
                    before.index + num_rows <= RAM_SIZE,
                    before.wf(),
                    sprite == before.sprite_at_index(num_rows as int),
                    pixels == sprite[y_line as int],
                    x == x_coord,
                    y == y_coord,
                    self@ == (MachineState { display: self@.display, ..before }),
                    self@.display.len() == SCREEN_SIZE,
                    forall|p: int|
                        0 <= p < SCREEN_SIZE ==> self@.display[p] == (before.display[p]
                            != sprite_covers_before(sprite, x, y, p, y_line as int, x_line as int)),
                    flipped == sprite_collides_before(
                        before.display,
                        sprite,
                        x,
                        y,
                        y_line as int,
                        x_line as int,
                    ),
                decreases 8 - x_line,
            {
                let px: usize = (x_coord as usize + x_line as usize) % SCREEN_WIDTH;
                let py: usize = (y_coord as usize + y_line as usize) % SCREEN_HEIGHT;
                let idx: usize = px + SCREEN_WIDTH * py;
                proof {
                    lemma_collides_next_bit(before.display, sprite, x, y, y_line as int, x_line as int);
                    lemma_cover_next_bit(sprite, x, y, idx as int, y_line as int, x_line as int);
                }
                if (pixels & (0x80u8 >> x_line)) != 0 {
                    flipped = flipped || self.screen[idx];
                    self.screen[idx] = !self.screen[idx];
                }
                proof {
                    assert(sprite_bit(pixels, x_line as int) == ((pixels & (0x80u8 >> x_line)) != 0));
                    assert forall|p: int| 0 <= p < SCREEN_SIZE implies self@.display[p] == (
                    before.display[p] != sprite_covers_before(
                        sprite,
                        x,
                        y,
                        p,
                        y_line as int,
                        x_line + 1,
                    )) by {
                        lemma_cover_next_bit(sprite, x, y, p, y_line as int, x_line as int);
                    }
                }
                x_line += 1;
            }
            proof {
                assert forall|p: int| 0 <= p < SCREEN_SIZE implies self@.display[p] == (
                before.display[p] != sprite_covers_before(sprite, x, y, p, y_line + 1, 0)) by {
                    lemma_cover_next_row(sprite, x, y, p, y_line as int);
                }
                lemma_collides_next_row(before.display, sprite, x, y, y_line as int);
            }
            y_line += 1;
        }
        self.v_reg[FLAG_REG] = if flipped {
            1
        } else {
            0
        };
        proof {
            let after = before.draw_sprite(x, y, num_rows as int);
            lemma_collides_next_row(before.display, sprite, x, y, 0);
            assert forall|p: int| 0 <= p < SCREEN_SIZE implies self@.display[p] == after.display[p] by {
                lemma_cover_next_row(sprite, x, y, p, 0);
            }
            assert(self@.display =~= after.display);
            assert(self@ =~= after);
        }
    }

    /// `EX9E`: skips the next instruction if the key whose number register
    /// `idx` holds is down.
    pub fn skip_if_key_pressed(&mut self, idx: usize)
        requires
            old(self).wf(),
            idx < NUM_VREGS,
            old(self)@.reg(idx as int) < NUM_KEYS,
            old(self)@.pc + INSTRUCTION_SIZE <= u16::MAX,
        ensures
            final(self).wf(),
            final(self)@ == old(self)@.skip_if(old(self)@.keys[old(self)@.reg(idx as int) as int]),
    {
        let vx: u8 = self.v_reg[idx];
        let key: bool = self.keys[vx as usize];
        self.skip_next_if(key);
    }

    /// `EXA1`: skips the next instruction if the key whose number register
    /// `idx` holds is up.
    pub fn skip_if_key_not_pressed(&mut self, idx: usize)
        requires
            old(self).wf(),
            idx < NUM_VREGS,
            old(self)@.reg(idx as int) < NUM_KEYS,
            old(self)@.pc + INSTRUCTION_SIZE <= u16::MAX,
        ensures
            final(self).wf(),
            final(self)@ == old(self)@.skip_if(!old(self)@.keys[old(self)@.reg(idx as int) as int]),
    {
        let vx: u8 = self.v_reg[idx];
        let key: bool = self.keys[vx as usize];
        self.skip_next_if(!key);
    }

    /// `FX07`: copies the delay timer to register `idx`.
    pub fn assign_delay_timer_to_reg(&mut self, idx: usize)
        requires
            old(self).wf(),
            idx < NUM_VREGS,
        ensures
            final(self).wf(),
            final(self)@ == old(self)@.with_register(idx as int, old(self)@.delay_timer),
    {
        self.v_reg[idx] = self.dt;
    }

    /// `FX0A`: waits for a key.
    ///
    /// With no key down the program counter goes back by one instruction, so
    /// that the next step meets this instruction again, and nothing else
    /// changes. With a key down, register `idx` receives the number of the
    /// lowest such key and the program counter stays.
    pub fn wait_for_key_press(&mut self, idx: usize)
        requires
            old(self).wf(),
            idx < NUM_VREGS,
            old(self)@.pc >= INSTRUCTION_SIZE,
        ensures
            final(self).wf(),
            final(self)@ == old(self)@.wait_for_key(idx as int),
    {
        let ghost before = self@;
        let mut pressed: bool = false;
        let mut i: usize = 0;
        while i < NUM_KEYS
            invariant_except_break
                !pressed,
                self@ == before,
            invariant
                i <= NUM_KEYS,
                idx < NUM_VREGS,
                before.wf(),
                forall|j: int| 0 <= j < i ==> !before.keys[j],
            ensures
                pressed ==> is_lowest_pressed(before.keys, i as int) && self@
                    == before.with_register(idx as int, i as u8),
                !pressed ==> i == NUM_KEYS && self@ == before,
            decreases NUM_KEYS - i,
        {
            if self.keys[i] {
                self.v_reg[idx] = i as u8;
                pressed = true;
                break;
            }
            i += 1;
        }
        if !pressed {
            self.pc -= INSTRUCTION_SIZE;
        } else {
            proof {
                lemma_lowest_pressed_unique(before.keys, i as int);
            }
        }
    }

    /// `FX15`: copies register `idx` to the delay timer.
    pub fn assign_reg_to_delay_timer(&mut self, idx: usize)
        requires
            old(self).wf(),
            idx < NUM_VREGS,
        ensures
            final(self).wf(),
            final(self)@ == old(self)@.with_delay(old(self)@.reg(idx as int)),
    {
        self.dt = self.v_reg[idx];
    }

    /// `FX18`: copies register `idx` to the sound timer.
    pub fn assign_reg_to_sound_timer(&mut self, idx: usize)
        requires
            old(self).wf(),
            idx < NUM_VREGS,
        ensures
            final(self).wf(),
            final(self)@ == old(self)@.with_sound(old(self)@.reg(idx as int)),
    {
        self.st = self.v_reg[idx];
    }

    /// `FX1E`: adds register `idx` to the index register modulo 65536. The
    /// flag register is left alone.
    pub fn increment_ram_pointer_by_reg(&mut self, idx: usize)
        requires
            old(self).wf(),
            idx < NUM_VREGS,
        ensures
            final(self).wf(),
            final(self)@ == old(self)@.add_index(idx as int),
    {
        let vx: u16 = self.v_reg[idx] as u16;
        self.i_reg = self.i_reg.wrapping_add(vx);
    }

    /// `FX29`: points the index register at the glyph for the low nibble of
    /// register `idx`: five times that nibble.
    pub fn set_ram_pointer_to_font_addr(&mut self, idx: usize)
        requires
            old(self).wf(),
            idx < NUM_VREGS,
        ensures
            final(self).wf(),
            final(self)@ == old(self)@.font_address(idx as int),
            final(self)@.index == 5 * (old(self)@.reg(idx as int) % 16),
    {
        let value: u8 = self.v_reg[idx];
        let c: u16 = (value & 0x0F) as u16;
        assert(value & 0x0F == value % 16) by (bit_vector);
        self.i_reg = c * 5;
    }

    /// `FX33`: stores the decimal digits of register `idx` at the index
    /// register: hundreds first, then tens, then ones.
    pub fn set_ram_pointer_to_bcd_of_reg(&mut self, idx: usize)
        requires
            old(self).wf(),
            idx < NUM_VREGS,
            old(self)@.index + 2 < RAM_SIZE,
        ensures
            final(self).wf(),
            final(self)@ == old(self)@.store_bcd(idx as int),
    {
        let vx: u8 = self.v_reg[idx];
        let hundreds: u8 = vx / 100;
        let tens: u8 = (vx / 10) % 10;
        let ones: u8 = vx % 10;
        let at: usize = self.i_reg as usize;
        self.ram[at] = hundreds;
        self.ram[at + 1] = tens;
        self.ram[at + 2] = ones;
    }

    /// `FX55`: stores the registers `V0` to `V[idx]`, both included, in memory
    /// from the index register on. The index register keeps its value.
    pub fn store_regs_in_ram(&mut self, idx: usize)
        requires
            old(self).wf(),
            idx < NUM_VREGS,
            old(self)@.index + idx < RAM_SIZE,
        ensures
            final(self).wf(),
            final(self)@ == old(self)@.store_registers(idx as int),
    {
        let ghost before = self@;
        let i: usize = self.i_reg as usize;
        let mut x: usize = 0;
        while x <= idx
            invariant
                x <= idx + 1,
                idx < NUM_VREGS,
                i == before.index,
                i + idx < RAM_SIZE,
                before.wf(),
                self@ == (MachineState { memory: self@.memory, ..before }),
                self@.memory.len() == RAM_SIZE,
                forall|a: int|
                    0 <= a < RAM_SIZE ==> self@.memory[a] == if i <= a < i + x {
                        before.registers[a - i]
                    } else {
                        before.memory[a]
                    },
            decreases idx + 1 - x,
        {
            self.ram[i + x] = self.v_reg[x];
            x += 1;
        }
        assert(self@.memory =~= before.store_registers(idx as int).memory);
    }

    /// `FX65`: loads the registers `V0` to `V[idx]`, both included, from
    /// memory from the index register on. The index register keeps its value.
    pub fn load_regs_from_ram(&mut self, idx: usize)
        requires
            old(self).wf(),
            idx < NUM_VREGS,
            old(self)@.index + idx < RAM_SIZE,
        ensures
            final(self).wf(),
            final(self)@ == old(self)@.load_registers(idx as int),
    {
        let ghost before = self@;
        let i: usize = self.i_reg as usize;
        let mut x: usize = 0;
        while x <= idx
            invariant
                x <= idx + 1,
                idx < NUM_VREGS,
                i == before.index,
                i + idx < RAM_SIZE,
                before.wf(),
                self@ == (MachineState { registers: self@.registers, ..before }),
                self@.registers.len() == NUM_VREGS,
                forall|r: int|
                    0 <= r < NUM_VREGS ==> self@.registers[r] == if r < x {
                        before.memory[i + r]
                    } else {
                        before.registers[r]
                    },
            decreases idx + 1 - x,
        {
            self.v_reg[x] = self.ram[i + x];
            x += 1;
        }
        assert(self@.registers =~= before.load_registers(idx as int).registers);
    }

    /// Executes the instruction word `op`, which [`Self::fetch`] has read: the
    /// program counter is already past it.
    ///
    /// The outcome is that of [`MachineState::execute`] for the byte that the
    /// random instruction drew; for every other instruction it does not depend
    /// on that byte.
    pub fn execute(&mut self, op: u16)
        requires
            old(self).wf(),
            INSTRUCTION_SIZE <= old(self)@.pc <= RAM_SIZE,
            old(self)@.execute_fault(op) is None,
        ensures
            final(self).wf(),
            exists|random: u8| final(self)@ == #[trigger] old(self)@.execute(op, random),
            !is_random_op(op) ==> final(self)@ == old(self)@.execute(op, 0),
    {
        let ghost before = self@;
        match decode(op) {
            Some(Instruction::Nop) => {},
            Some(Instruction::ClearScreen) => self.clear_screen(),
            Some(Instruction::Return) => self.return_from_subroutine(),
            Some(Instruction::Jump { .. }) => self.jump(op),
            Some(Instruction::Call { .. }) => self.call(op),
            Some(Instruction::SkipIfEqualsValue { x, value }) => self.skip_next_if_reg_equals_val(
                x,
                value,
            ),
            Some(
                Instruction::SkipIfNotEqualsValue { x, value },
            ) => self.skip_next_if_reg_not_equals_val(x, value),
            Some(Instruction::SkipIfEqualsRegister { x, y }) => self.skip_next_if_reg_equals_reg(
                x,
                y,
            ),
            Some(Instruction::LoadValue { x, value }) => self.assign_val_to_reg(x, value),
            Some(Instruction::AddValue { x, value }) => self.add_val_to_reg(x, value),
            Some(Instruction::Copy { x, y }) => self.assign_reg_to_reg(x, y),
            Some(Instruction::Or { x, y }) => self.reg_or_reg(x, y),
            Some(Instruction::And { x, y }) => self.reg_and_reg(x, y),
            Some(Instruction::Xor { x, y }) => self.reg_xor_reg(x, y),
            Some(Instruction::Add { x, y }) => self.add_reg_to_reg(x, y),
            Some(Instruction::Sub { x, y }) => self.sub_reg_to_reg(x, y),
            Some(Instruction::ShiftRight { x }) => self.single_right_shift(x),
            Some(Instruction::SubReversed { x, y }) => self.opposite_sub_reg_to_reg(x, y),
            Some(Instruction::ShiftLeft { x }) => self.single_left_shift(x),
            Some(Instruction::SkipRegisterPair { x, y }) => self.skip_next_if_reg_not_equals_reg(
                x,
                y,
            ),
            Some(Instruction::LoadIndex { .. }) => self.assign_addr_to_ram_pointer(op),
            Some(Instruction::Random { x, mask }) => {
                self.assign_random_to_reg(x, mask);
                proof {
                    let random = choose|random: u8|
                        self@ == #[trigger] before.with_random(x as int, mask, random);
                    assert(self@ == before.execute(op, random));
                }
            },
            Some(Instruction::Draw { x, y, rows }) => {
                let x_coord: u16 = self.v_reg[x] as u16;
                let y_coord: u16 = self.v_reg[y] as u16;
                self.draw_sprite(x_coord, y_coord, rows)
            },
            Some(Instruction::SkipIfKeyPressed { x }) => self.skip_if_key_pressed(x),
            Some(Instruction::SkipIfKeyNotPressed { x }) => self.skip_if_key_not_pressed(x),
            Some(Instruction::ReadDelay { x }) => self.assign_delay_timer_to_reg(x),
            Some(Instruction::WaitKey { x }) => self.wait_for_key_press(x),
            Some(Instruction::SetDelay { x }) => self.assign_reg_to_delay_timer(x),
            Some(Instruction::SetSound { x }) => self.assign_reg_to_sound_timer(x),
            Some(Instruction::AddIndex { x }) => self.increment_ram_pointer_by_reg(x),
            Some(Instruction::FontAddress { x }) => self.set_ram_pointer_to_font_addr(x),
            Some(Instruction::StoreBcd { x }) => self.set_ram_pointer_to_bcd_of_reg(x),
            Some(Instruction::StoreRegisters { x }) => self.store_regs_in_ram(x),
            Some(Instruction::LoadRegisters { x }) => self.load_regs_from_ram(x),
            None => unreached(),
        }
        proof {
            if !is_random_op(op) {
                assert(self@ == before.execute(op, 0));
            }
        }
    }

    /// What stops the execution of the instruction word `op` in this state, if
    /// anything does.
    pub fn execution_fault(&self, op: u16) -> (fault: Option<Fault>)
        requires
            self.wf(),
        ensures
            fault == self@.execute_fault(op),
    {
        match decode(op) {
            None => Some(Fault::UnknownOpcode { opcode: op }),
            Some(Instruction::Return) => if self.sp == 0 {
                Some(Fault::StackUnderflow)
            } else {
                None
            },
            Some(Instruction::Call { .. }) => if self.sp as usize >= STACK_SIZE {
                Some(Fault::StackOverflow)
            } else {
                None
            },
            Some(Instruction::Draw { rows, .. }) => if rows > 0 && self.i_reg as usize
                + rows as usize > RAM_SIZE {
                Some(Fault::MemoryOutOfBounds)
            } else {
                None
            },
            Some(Instruction::SkipIfKeyPressed { x }) => if self.v_reg[x] as usize >= NUM_KEYS {
                Some(Fault::InvalidKey)
            } else {
                None
            },
            Some(Instruction::SkipIfKeyNotPressed { x }) => if self.v_reg[x] as usize >= NUM_KEYS {
                Some(Fault::InvalidKey)
            } else {
                None
            },
            Some(Instruction::StoreBcd { .. }) => if self.i_reg as usize + 2 >= RAM_SIZE {
                Some(Fault::MemoryOutOfBounds)
            } else {
                None
            },
            Some(Instruction::StoreRegisters { x }) => if self.i_reg as usize + x >= RAM_SIZE {
                Some(Fault::MemoryOutOfBounds)
            } else {
                None
            },
            Some(Instruction::LoadRegisters { x }) => if self.i_reg as usize + x >= RAM_SIZE {
                Some(Fault::MemoryOutOfBounds)
            } else {
                None
            },
            Some(_) => None,
        }
    }

    /// What stops the next [`Self::tick`], if anything does.
    pub fn next_fault(&self) -> (fault: Option<Fault>)
        requires
            self.wf(),
        ensures
            fault == self@.step_fault(),
    {
        if self.pc as usize + 1 >= RAM_SIZE {
            Some(Fault::MemoryOutOfBounds)
        } else {
            let op: u16 = self.current_word();
            self.execution_fault(op)
        }
    }

    /// Puts the machine back into its initial state, whatever it held.
    pub fn reset(&mut self)
        ensures
            final(self).wf(),
            final(self)@ == MachineState::initial(),
    {
        self.pc = START_ADDR;
        self.ram = [0; RAM_SIZE];
        self.screen = [false; SCREEN_SIZE];
        self.v_reg = [0; NUM_VREGS];
        self.i_reg = 0;
        self.sp = 0;
        self.stack = [0; STACK_SIZE];
        self.keys = [false; NUM_KEYS];
        self.dt = 0;
        self.st = 0;
        self.install_font();
        assert(self@ =~= MachineState::initial());
    }

    /// Runs one instruction: fetches the word at the program counter and
    /// executes it.
    ///
    /// The caller has to know that the step does not fault; [`Self::step`]
    /// finds that out by itself.
    pub fn tick(&mut self)
        requires
            old(self).wf(),
            old(self)@.step_fault() is None,
        ensures
            final(self).wf(),
            exists|random: u8| final(self)@ == #[trigger] old(self)@.step(random),
            !old(self)@.next_is_random() ==> final(self)@ == old(self)@.step(0),
    {
        let ghost before = self@;
        let op: u16 = self.fetch();
        let ghost fetched = self@;
        self.execute(op);
        proof {
            let random = choose|random: u8| self@ == #[trigger] fetched.execute(op, random);
            assert(self@ == before.step(random));
        }
    }

    /// Runs one instruction if none of the machine's faults stands in the way,
    /// and reports the fault otherwise, leaving the machine as it was.
    pub fn step(&mut self) -> (result: Result<(), Fault>)
        requires
            old(self).wf(),
        ensures
            final(self).wf(),
            result is Ok <==> old(self)@.step_fault() is None,
            result is Ok ==> exists|random: u8|
                final(self)@ == #[trigger] old(self)@.step(random),
            result is Ok && !old(self)@.next_is_random() ==> final(self)@ == old(self)@.step(0),
            result is Err ==> old(self)@.step_fault() == Some(result->Err_0) && final(self)@ == old(
                self,
            )@,
    {
        match self.next_fault() {
            Some(fault) => Err(fault),
            None => {
                self.tick();
                Ok(())
            },
        }
    }

    /// Counts both timers down by one, except that a timer at zero stays at
    /// zero. Returns whether the tone sounds during this tick: whether the
    /// sound timer was above zero.
    pub fn tick_timers(&mut self) -> (tone: bool)
        requires
            old(self).wf(),
        ensures
            final(self).wf(),
            final(self)@ == old(self)@.tick_timers(),
            tone == (old(self)@.sound_timer > 0),
    {
        if self.dt > 0 {
            self.dt -= 1;
        }
        let tone: bool = self.st > 0;
        if tone {
            self.st -= 1;
        }
        tone
    }

    /// The display, row by row: pixel `(x, y)` is at `x + 64 * y`.
    pub fn get_display(&self) -> (display: &[bool])
        ensures
            display@ == self@.display,
    {
        &self.screen
    }

    /// Records that key `idx` is now down (`pressed`) or up.
    pub fn keypress(&mut self, idx: usize, pressed: bool)
        requires
            old(self).wf(),
            idx < NUM_KEYS,
        ensures
            final(self).wf(),
            final(self)@ == old(self)@.with_key(idx as int, pressed),
    {
        self.keys[idx] = pressed;
    }

    /// Copies a program image into memory at the entry address. Nothing else
    /// changes: registers, display and program counter keep their values.
    pub fn load(&mut self, data: &[u8])
        requires
            old(self).wf(),
            data@.len() <= RAM_SIZE - START_ADDR,
        ensures
            final(self).wf(),
            final(self)@ == old(self)@.load_program(data@),
    {
        let ghost before = self@;
        let start: usize = START_ADDR as usize;
        let mut i: usize = 0;
        while i < data.len()
            invariant
                i <= data@.len() <= RAM_SIZE - START_ADDR,
                start == START_ADDR,
                before.wf(),
                self@ == (MachineState { memory: self@.memory, ..before }),
                self@.memory.len() == RAM_SIZE,
                forall|a: int|
                    0 <= a < RAM_SIZE ==> self@.memory[a] == if start <= a < start + i {
                        data@[a - start]
                    } else {
                        before.memory[a]
                    },
            decreases data@.len() - i,
        {
            self.ram[start + i] = data[i];
            i += 1;
        }
        assert(self@.memory =~= before.load_program(data@).memory);
    }

    /// The address of the next instruction.
    pub fn program_counter(&self) -> (pc: u16)
        ensures
            pc == self@.pc,
    {
        self.pc
    }

    /// The index register.
    pub fn index_register(&self) -> (index: u16)
        ensures
            index == self@.index,
    {
        self.i_reg
    }

    /// The number of return addresses on the subroutine stack.
    pub fn stack_pointer(&self) -> (sp: u16)
        ensures
            sp == self@.sp,
    {
        self.sp
    }

    /// The value of register `idx`.
    pub fn register(&self, idx: usize) -> (value: u8)
        requires
            idx < NUM_VREGS,
        ensures
            value == self@.reg(idx as int),
    {
        self.v_reg[idx]
    }

    /// The whole memory.
    pub fn memory(&self) -> (memory: &[u8])
        ensures
            memory@ == self@.memory,
    {
        &self.ram
    }

    /// The delay timer.
    pub fn delay_timer(&self) -> (value: u8)
        ensures
            value == self@.delay_timer,
    {
        self.dt
    }

    /// The sound timer.
    pub fn sound_timer(&self) -> (value: u8)
        ensures
            value == self@.sound_timer,
    {
        self.st
    }

    /// Whether key `idx` is down.
    pub fn is_key_pressed(&self, idx: usize) -> (pressed: bool)
        requires
            idx < NUM_KEYS,
        ensures
            pressed == self@.keys[idx as int],
    {
        self.keys[idx]
    }
}

} // verus!
