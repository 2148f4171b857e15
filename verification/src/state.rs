//! The machine as a mathematical value, and the meaning of every instruction
//! as a function from one such value to the next.

use vstd::prelude::*;
use crate::constants::{
    FLAG_REG, INSTRUCTION_SIZE, NUM_KEYS, NUM_VREGS, RAM_SIZE, SCREEN_SIZE, STACK_SIZE, START_ADDR,
};
use crate::fontset::{font_table, glyph_offset, FONTSET_SIZE};
use crate::keypad::{any_pressed, lowest_pressed};
use crate::opcode::{instruction_of, is_random_op, Instruction};
use crate::sprite::{draw_pixels, sprite_collides};

verus! {

/// Everything the machine holds between two instructions.
#[verifier::ext_equal]
pub struct MachineState {
    /// Address of the next instruction.
    pub pc: u16,
    /// The 4096 bytes of memory.
    pub memory: Seq<u8>,
    /// The 2048 pixels, row by row; `true` is lit.
    pub display: Seq<bool>,
    /// The registers `V0` to `VF`.
    pub registers: Seq<u8>,
    /// The index register `I`.
    pub index: u16,
    /// Number of return addresses on the stack.
    pub sp: u16,
    /// The 16 stack slots; those below `sp` are live.
    pub stack: Seq<u16>,
    /// The 16 key states; `true` is down.
    pub keys: Seq<bool>,
    /// The delay timer.
    pub delay_timer: u8,
    /// The sound timer; a tone sounds while it is not zero.
    pub sound_timer: u8,
}

/// Why the machine cannot execute its next instruction.
#[derive(Clone, Copy, Debug, PartialEq, Eq, Structural)]
pub enum Fault {
    /// The instruction, or the fetch itself, would touch an address past the
    /// end of memory.
    MemoryOutOfBounds,
    /// The word at the program counter is no instruction.
    UnknownOpcode { opcode: u16 },
    /// A call with sixteen return addresses already on the stack.
    StackOverflow,
    /// A return with no return address on the stack.
    StackUnderflow,
    /// A key test on a register whose value numbers no key.
    InvalidKey,
}

/// The flag value for a condition: 1 if it holds, else 0.
pub open spec fn flag(condition: bool) -> u8 {
    if condition {
        1
    } else {
        0
    }
}

impl MachineState {
    /// The sizes are those of the machine and the stack pointer is within the
    /// stack.
    pub open spec fn wf(self) -> bool {
        &&& self.memory.len() == RAM_SIZE
        &&& self.display.len() == SCREEN_SIZE
        &&& self.registers.len() == NUM_VREGS
        &&& self.stack.len() == STACK_SIZE
        &&& self.keys.len() == NUM_KEYS
        &&& self.sp <= STACK_SIZE
    }

    /// The machine as constructed and after a reset: the font at the bottom of
    /// memory, the program counter at the entry address, all else zero.
    pub open spec fn initial() -> MachineState {
        MachineState {
            pc: START_ADDR,
            memory: Seq::new(
                RAM_SIZE as nat,
                |a: int|
                    if a < FONTSET_SIZE {
                        font_table()[a]
                    } else {
                        0u8
                    },
            ),
            display: Seq::new(SCREEN_SIZE as nat, |p: int| false),
            registers: Seq::new(NUM_VREGS as nat, |r: int| 0u8),
            index: 0,
            sp: 0,
            stack: Seq::new(STACK_SIZE as nat, |i: int| 0u16),
            keys: Seq::new(NUM_KEYS as nat, |k: int| false),
            delay_timer: 0,
            sound_timer: 0,
        }
    }

    /// Memory with `image` copied to the entry address; nothing else changes.
    pub open spec fn load_program(self, image: Seq<u8>) -> MachineState {
        MachineState {
            memory: Seq::new(
                self.memory.len(),
                |a: int|
                    if START_ADDR <= a < START_ADDR + image.len() {
                        image[a - START_ADDR]
                    } else {
                        self.memory[a]
                    },
            ),
            ..self
        }
    }

    /// The value of register `x`.
    pub open spec fn reg(self, x: int) -> u8 {
        self.registers[x]
    }

    /// The word at the program counter, high byte first.
    pub open spec fn instruction_word(self) -> u16 {
        (self.memory[self.pc as int] as int * 256 + self.memory[self.pc + 1] as int) as u16
    }

    /// The program counter moved past one instruction.
    pub open spec fn advance(self) -> MachineState {
        MachineState { pc: (self.pc + INSTRUCTION_SIZE) as u16, ..self }
    }

    /// The program counter moved back to the instruction before it.
    pub open spec fn rewind(self) -> MachineState {
        MachineState { pc: (self.pc - INSTRUCTION_SIZE) as u16, ..self }
    }

    /// `value` written to the slot at the stack pointer, and the pointer raised.
    pub open spec fn push_return(self, value: u16) -> MachineState {
        MachineState {
            stack: self.stack.update(self.sp as int, value),
            sp: (self.sp + 1) as u16,
            ..self
        }
    }

    /// The stack pointer lowered. The slot keeps its value.
    pub open spec fn pop_return(self) -> MachineState {
        MachineState { sp: (self.sp - 1) as u16, ..self }
    }

    /// The return address that [`Self::pop_return`] takes off.
    pub open spec fn top_return(self) -> u16 {
        self.stack[self.sp - 1]
    }

    /// Every pixel off.
    pub open spec fn clear_display(self) -> MachineState {
        MachineState { display: Seq::new(self.display.len(), |p: int| false), ..self }
    }

    /// The program counter set to the popped return address.
    pub open spec fn return_from_subroutine(self) -> MachineState {
        MachineState { pc: self.top_return(), ..self.pop_return() }
    }

    /// The program counter set to `addr`.
    pub open spec fn jump(self, addr: u16) -> MachineState {
        MachineState { pc: addr, ..self }
    }

    /// The program counter pushed, then set to `addr`.
    pub open spec fn call(self, addr: u16) -> MachineState {
        self.push_return(self.pc).jump(addr)
    }

    /// The next instruction skipped if `condition` holds.
    pub open spec fn skip_if(self, condition: bool) -> MachineState {
        if condition {
            self.advance()
        } else {
            self
        }
    }

    /// Register `x` set to `value`.
    pub open spec fn with_register(self, x: int, value: u8) -> MachineState {
        MachineState { registers: self.registers.update(x, value), ..self }
    }

    /// Register `x` set to `value`, then the flag register to `flag`. Where `x`
    /// is the flag register itself, the flag is what remains.
    pub open spec fn with_result_and_flag(self, x: int, value: u8, flag: u8) -> MachineState {
        self.with_register(x, value).with_register(FLAG_REG as int, flag)
    }

    /// `VX` = `random` masked by `mask`.
    pub open spec fn with_random(self, x: int, mask: u8, random: u8) -> MachineState {
        self.with_register(x, random & mask)
    }

    /// `VX += value` modulo 256; the flag register is not touched.
    pub open spec fn add_value(self, x: int, value: u8) -> MachineState {
        self.with_register(x, ((self.reg(x) + value) % 256) as u8)
    }

    /// `VX += VY` modulo 256; flag 1 exactly if the sum passed 255.
    pub open spec fn add_registers(self, x: int, y: int) -> MachineState {
        let sum = self.reg(x) + self.reg(y);
        self.with_result_and_flag(x, (sum % 256) as u8, flag(sum >= 256))
    }

    /// `VX -= VY` modulo 256; flag 1 exactly if `VX >= VY`, so that nothing
    /// was borrowed.
    pub open spec fn sub_registers(self, x: int, y: int) -> MachineState {
        let difference = self.reg(x) - self.reg(y);
        self.with_result_and_flag(x, (difference % 256) as u8, flag(difference >= 0))
    }

    /// `VX = VY - VX` modulo 256; flag 1 exactly if `VY >= VX`.
    pub open spec fn sub_registers_reversed(self, x: int, y: int) -> MachineState {
        let difference = self.reg(y) - self.reg(x);
        self.with_result_and_flag(x, (difference % 256) as u8, flag(difference >= 0))
    }

    /// `VX` halved; flag = the lowest bit of the old value.
    pub open spec fn shift_right(self, x: int) -> MachineState {
        self.with_result_and_flag(x, self.reg(x) / 2, self.reg(x) % 2)
    }

    /// `VX` doubled modulo 256; flag = the highest bit of the old value.
    pub open spec fn shift_left(self, x: int) -> MachineState {
        self.with_result_and_flag(x, ((self.reg(x) * 2) % 256) as u8, self.reg(x) / 128)
    }

    /// The index register set to `addr`.
    pub open spec fn with_index(self, addr: u16) -> MachineState {
        MachineState { index: addr, ..self }
    }

    /// `I += VX` modulo 65536.
    pub open spec fn add_index(self, x: int) -> MachineState {
        self.with_index(((self.index + self.reg(x)) % 0x1_0000) as u16)
    }

    /// `I` = the address of the glyph for the low nibble of `VX`.
    pub open spec fn font_address(self, x: int) -> MachineState {
        self.with_index(glyph_offset(self.reg(x) as int % 16) as u16)
    }

    /// The `rows` bytes of memory at `I`: the sprite that a draw reads.
    pub open spec fn sprite_at_index(self, rows: int) -> Seq<u8> {
        Seq::new(rows as nat, |row: int| self.memory[self.index + row])
    }

    /// The sprite of `rows` rows at `I` drawn at `(x, y)`; flag 1 exactly if a
    /// lit pixel went dark.
    pub open spec fn draw_sprite(self, x: int, y: int, rows: int) -> MachineState {
        let sprite = self.sprite_at_index(rows);
        MachineState {
            display: draw_pixels(self.display, sprite, x, y),
            registers: self.registers.update(
                FLAG_REG as int,
                flag(sprite_collides(self.display, sprite, x, y)),
            ),
            ..self
        }
    }

    /// With no key down, back to the instruction just fetched. Otherwise `VX` =
    /// the number of the lowest key that is down.
    pub open spec fn wait_for_key(self, x: int) -> MachineState {
        if any_pressed(self.keys) {
            self.with_register(x, lowest_pressed(self.keys) as u8)
        } else {
            self.rewind()
        }
    }

    /// The delay timer set to `value`.
    pub open spec fn with_delay(self, value: u8) -> MachineState {
        MachineState { delay_timer: value, ..self }
    }

    /// The sound timer set to `value`.
    pub open spec fn with_sound(self, value: u8) -> MachineState {
        MachineState { sound_timer: value, ..self }
    }

    /// The hundreds, tens and ones of `VX` stored at `I`, `I+1` and `I+2`.
    pub open spec fn store_bcd(self, x: int) -> MachineState {
        let value = self.reg(x);
        let at = self.index as int;
        MachineState {
            memory: self.memory.update(at, value / 100).update(at + 1, (value / 10) % 10).update(
                at + 2,
                value % 10,
            ),
            ..self
        }
    }

    /// `V0..=VX` stored at `I..=I+X`; `I` keeps its value.
    pub open spec fn store_registers(self, x: int) -> MachineState {
        MachineState {
            memory: Seq::new(
                self.memory.len(),
                |a: int|
                    if self.index <= a <= self.index + x {
                        self.registers[a - self.index]
                    } else {
                        self.memory[a]
                    },
            ),
            ..self
        }
    }

    /// `V0..=VX` loaded from `I..=I+X`; `I` keeps its value.
    pub open spec fn load_registers(self, x: int) -> MachineState {
        MachineState {
            registers: Seq::new(
                self.registers.len(),
                |r: int|
                    if r <= x {
                        self.memory[self.index + r]
                    } else {
                        self.registers[r]
                    },
            ),
            ..self
        }
    }

    /// Both timers one lower, except that a timer at zero stays there.
    pub open spec fn tick_timers(self) -> MachineState {
        MachineState {
            delay_timer: if self.delay_timer > 0 {
                (self.delay_timer - 1) as u8
            } else {
                0
            },
            sound_timer: if self.sound_timer > 0 {
                (self.sound_timer - 1) as u8
            } else {
                0
            },
            ..self
        }
    }

    /// Key `k` set to `pressed`.
    pub open spec fn with_key(self, k: int, pressed: bool) -> MachineState {
        MachineState { keys: self.keys.update(k, pressed), ..self }
    }

    /// The state after `instr`, for a machine whose program counter is already
    /// past it. `random` is the byte that the random instruction draws; no
    /// other instruction looks at it.
    pub open spec fn apply(self, instr: Instruction, random: u8) -> MachineState {
        match instr {
            Instruction::Nop => self,
            Instruction::ClearScreen => self.clear_display(),
            Instruction::Return => self.return_from_subroutine(),
            Instruction::Jump { addr } => self.jump(addr),
            Instruction::Call { addr } => self.call(addr),
            Instruction::SkipIfEqualsValue { x, value } => self.skip_if(self.reg(x as int) == value),
            Instruction::SkipIfNotEqualsValue { x, value } => self.skip_if(
                self.reg(x as int) != value,
            ),
            Instruction::SkipIfEqualsRegister { x, y } => self.skip_if(
                self.reg(x as int) == self.reg(y as int),
            ),
            Instruction::LoadValue { x, value } => self.with_register(x as int, value),
            Instruction::AddValue { x, value } => self.add_value(x as int, value),
            Instruction::Copy { x, y } => self.with_register(x as int, self.reg(y as int)),
            Instruction::Or { x, y } => self.with_register(
                x as int,
                self.reg(x as int) | self.reg(y as int),
            ),
            Instruction::And { x, y } => self.with_register(
                x as int,
                self.reg(x as int) & self.reg(y as int),
            ),
            Instruction::Xor { x, y } => self.with_register(
                x as int,
                self.reg(x as int) ^ self.reg(y as int),
            ),
            Instruction::Add { x, y } => self.add_registers(x as int, y as int),
            Instruction::Sub { x, y } => self.sub_registers(x as int, y as int),
            Instruction::ShiftRight { x } => self.shift_right(x as int),
            Instruction::SubReversed { x, y } => self.sub_registers_reversed(x as int, y as int),
            Instruction::ShiftLeft { x } => self.shift_left(x as int),
            Instruction::SkipRegisterPair { x, y } => self.skip_if(
                self.reg(x as int) == self.reg(y as int),
            ),
            Instruction::LoadIndex { addr } => self.with_index(addr),
            Instruction::Random { x, mask } => self.with_random(x as int, mask, random),
            Instruction::Draw { x, y, rows } => self.draw_sprite(
                self.reg(x as int) as int,
                self.reg(y as int) as int,
                rows as int,
            ),
            Instruction::SkipIfKeyPressed { x } => self.skip_if(self.keys[self.reg(x as int) as int]),
            Instruction::SkipIfKeyNotPressed { x } => self.skip_if(
                !self.keys[self.reg(x as int) as int],
            ),
            Instruction::ReadDelay { x } => self.with_register(x as int, self.delay_timer),
            Instruction::WaitKey { x } => self.wait_for_key(x as int),
            Instruction::SetDelay { x } => self.with_delay(self.reg(x as int)),
            Instruction::SetSound { x } => self.with_sound(self.reg(x as int)),
            Instruction::AddIndex { x } => self.add_index(x as int),
            Instruction::FontAddress { x } => self.font_address(x as int),
            Instruction::StoreBcd { x } => self.store_bcd(x as int),
            Instruction::StoreRegisters { x } => self.store_registers(x as int),
            Instruction::LoadRegisters { x } => self.load_registers(x as int),
        }
    }

    /// What stops `instr`, if anything does.
    pub open spec fn instruction_fault(self, instr: Instruction) -> Option<Fault> {
        match instr {
            Instruction::Return => if self.sp == 0 {
                Some(Fault::StackUnderflow)
            } else {
                None
            },
            Instruction::Call { .. } => if self.sp >= STACK_SIZE {
                Some(Fault::StackOverflow)
            } else {
                None
            },
            Instruction::Draw { rows, .. } => if rows > 0 && self.index + rows > RAM_SIZE {
                Some(Fault::MemoryOutOfBounds)
            } else {
                None
            },
            Instruction::SkipIfKeyPressed { x } => if self.reg(x as int) >= NUM_KEYS {
                Some(Fault::InvalidKey)
            } else {
                None
            },
            Instruction::SkipIfKeyNotPressed { x } => if self.reg(x as int) >= NUM_KEYS {
                Some(Fault::InvalidKey)
            } else {
                None
            },
            Instruction::StoreBcd { .. } => if self.index + 2 >= RAM_SIZE {
                Some(Fault::MemoryOutOfBounds)
            } else {
                None
            },
            Instruction::StoreRegisters { x } => if self.index + x >= RAM_SIZE {
                Some(Fault::MemoryOutOfBounds)
            } else {
                None
            },
            Instruction::LoadRegisters { x } => if self.index + x >= RAM_SIZE {
                Some(Fault::MemoryOutOfBounds)
            } else {
                None
            },
            _ => None,
        }
    }

    /// What stops the execution of the word `op`, if anything does: the word is
    /// no instruction, or the instruction faults.
    pub open spec fn execute_fault(self, op: u16) -> Option<Fault> {
        match instruction_of(op) {
            Some(instr) => self.instruction_fault(instr),
            None => Some(Fault::UnknownOpcode { opcode: op }),
        }
    }

    /// The state after the word `op` was executed; see [`Self::apply`].
    pub open spec fn execute(self, op: u16, random: u8) -> MachineState {
        match instruction_of(op) {
            Some(instr) => self.apply(instr, random),
            None => self,
        }
    }

    /// What stops the next step, if anything does: the instruction word does
    /// not lie within memory, or its execution faults.
    pub open spec fn step_fault(self) -> Option<Fault> {
        if self.pc + 1 >= RAM_SIZE {
            Some(Fault::MemoryOutOfBounds)
        } else {
            self.advance().execute_fault(self.instruction_word())
        }
    }

    /// The state after one step: the word at the program counter is fetched,
    /// the program counter moves past it, and the word is executed.
    pub open spec fn step(self, random: u8) -> MachineState {
        self.advance().execute(self.instruction_word(), random)
    }

    /// The state after one step for each byte of `randoms`, in order; the
    /// bytes are what the random instruction draws, step by step.
    pub open spec fn run(self, randoms: Seq<u8>) -> MachineState
        decreases randoms.len(),
    {
        if randoms.len() == 0 {
            self
        } else {
            self.run(randoms.drop_last()).step(randoms.last())
        }
    }

    /// Whether the next step executes the random instruction.
    pub open spec fn next_is_random(self) -> bool {
        is_random_op(self.instruction_word())
    }
}

} // verus!
