//! Laws of the machine: what follows from the meaning of the instructions for
//! single instructions, for whole steps and for sequences of steps.

use vstd::prelude::*;
use crate::constants::{
    FLAG_REG, INSTRUCTION_SIZE, NUM_VREGS, RAM_SIZE, SCREEN_HEIGHT, SCREEN_WIDTH, STACK_SIZE,
};
use crate::fontset::{font_table, glyph_offset, lemma_glyph_in_font, FONTSET_SIZE, GLYPH_SIZE};
use crate::keypad::{any_pressed, is_lowest_pressed, lemma_lowest_pressed_unique};
use crate::opcode::{instruction_of, op_class, op_nnn, Instruction};
use crate::sprite::{
    lemma_draw_twice_restores, lemma_second_draw_collides, lemma_sprite_covers_pixel, pixel_index,
    sprite_bit, sprite_collides, sprite_covers, sprite_lights,
};
use crate::state::{flag, MachineState};

verus! {

/// The initial state is well formed, and loading a program keeps a state so.
pub proof fn lemma_initial_and_loaded_wf(s: MachineState, image: Seq<u8>)
    ensures
        MachineState::initial().wf(),
        s.wf() ==> s.load_program(image).wf(),
{
}

/// A step that does not fault leaves the machine well formed.
pub proof fn lemma_step_preserves_wf(s: MachineState, random: u8)
    requires
        s.wf(),
        s.step_fault() is None,
    ensures
        s.step(random).wf(),
{
}

/// Only the random instruction looks at the random byte: every other step has
/// one outcome.
pub proof fn lemma_step_deterministic(s: MachineState, first: u8, second: u8)
    requires
        !s.next_is_random(),
    ensures
        s.step(first) == s.step(second),
{
}

/// No instruction changes a key state: only the host does.
pub proof fn lemma_step_keeps_keys(s: MachineState, random: u8)
    ensures
        s.step(random).keys == s.keys,
{
}

/// Only the draw and the clear instruction change the display.
pub proof fn lemma_step_keeps_display(s: MachineState, random: u8)
    requires
        !(instruction_of(s.instruction_word()) matches Some(Instruction::Draw { .. })),
        instruction_of(s.instruction_word()) != Some(Instruction::ClearScreen),
    ensures
        s.step(random).display == s.display,
{
}

/// Only the two store instructions change memory.
pub proof fn lemma_step_keeps_memory(s: MachineState, random: u8)
    requires
        !(instruction_of(s.instruction_word()) matches Some(Instruction::StoreBcd { .. })),
        !(instruction_of(s.instruction_word()) matches Some(Instruction::StoreRegisters { .. })),
    ensures
        s.step(random).memory == s.memory,
{
}

/// Adding register `Y` to register `X` leaves the sum modulo 256 in `X` and
/// sets the flag to 1 exactly if the sum is 256 or more. Where `X` is the flag
/// register, the flag is what it holds.
pub proof fn lemma_add_registers(s: MachineState, x: int, y: int)
    requires
        s.wf(),
        0 <= x < NUM_VREGS,
        0 <= y < NUM_VREGS,
    ensures
        x != FLAG_REG ==> s.add_registers(x, y).reg(x) == (s.reg(x) + s.reg(y)) % 256,
        s.add_registers(x, y).reg(FLAG_REG as int) == flag(s.reg(x) + s.reg(y) >= 256),
        forall|r: int|
            0 <= r < NUM_VREGS && r != x && r != FLAG_REG ==> s.add_registers(x, y).reg(r) == s.reg(r),
{
}

/// Subtracting register `Y` from register `X` leaves the difference modulo
/// 256 in `X` and sets the flag to 1 exactly if `X` was at least `Y`: if
/// nothing was borrowed. Where `X` is the flag register, the flag is what it
/// holds.
pub proof fn lemma_sub_registers(s: MachineState, x: int, y: int)
    requires
        s.wf(),
        0 <= x < NUM_VREGS,
        0 <= y < NUM_VREGS,
    ensures
        x != FLAG_REG ==> s.sub_registers(x, y).reg(x) == (s.reg(x) - s.reg(y)) % 256,
        s.sub_registers(x, y).reg(FLAG_REG as int) == flag(s.reg(x) >= s.reg(y)),
        x != FLAG_REG ==> s.sub_registers_reversed(x, y).reg(x) == (s.reg(y) - s.reg(x)) % 256,
        s.sub_registers_reversed(x, y).reg(FLAG_REG as int) == flag(s.reg(y) >= s.reg(x)),
{
}

/// A shift to the right leaves `VX >> 1` in `X` and the lowest bit of the old
/// value in the flag; a shift to the left leaves `VX << 1`, cut to eight bits,
/// in `X` and the highest bit of the old value in the flag. Where `X` is the
/// flag register, the flag is what it holds.
pub proof fn lemma_shifts(s: MachineState, x: int)
    requires
        s.wf(),
        0 <= x < NUM_VREGS,
    ensures
        x != FLAG_REG ==> s.shift_right(x).reg(x) == s.reg(x) >> 1,
        s.shift_right(x).reg(FLAG_REG as int) == s.reg(x) & 1,
        x != FLAG_REG ==> s.shift_left(x).reg(x) == s.reg(x) << 1,
        x != FLAG_REG ==> s.shift_left(x).reg(x) == (s.reg(x) * 2) % 256,
        s.shift_left(x).reg(FLAG_REG as int) == (s.reg(x) >> 7) & 1,
{
    let value = s.reg(x);
    assert(value >> 1 == value / 2 && value & 1 == value % 2) by (bit_vector);
    assert(value << 1 == (value * 2) % 256 && (value >> 7) & 1 == value / 128) by (bit_vector);
}

/// Every instruction that defines a flag leaves 0 or 1 in the flag register.
pub proof fn lemma_flag_is_a_bit(s: MachineState, instr: Instruction, random: u8)
    requires
        s.wf(),
        instr.is_valid(),
        instr.defines_flag(),
    ensures
        s.apply(instr, random).reg(FLAG_REG as int) <= 1,
{
}

/// The font instruction points the index register at a whole glyph inside the
/// font, and in a machine that has not overwritten its font the five bytes
/// there are the glyph of the low nibble of `VX`.
pub proof fn lemma_font_address_in_font(s: MachineState, x: int, row: int)
    requires
        s.wf(),
        0 <= x < NUM_VREGS,
        0 <= row < GLYPH_SIZE,
    ensures
        s.font_address(x).index == glyph_offset(s.reg(x) as int % 16),
        s.font_address(x).index + GLYPH_SIZE <= FONTSET_SIZE,
        MachineState::initial().memory[s.font_address(x).index + row] == font_table()[glyph_offset(
            s.reg(x) as int % 16,
        ) + row],
{
    lemma_glyph_in_font(s.reg(x) as int % 16, 0);
}

/// The random instruction changes register `X` and nothing else, and the new
/// value has no bit outside the mask.
pub proof fn lemma_random_is_masked(s: MachineState, x: int, mask: u8, random: u8)
    requires
        s.wf(),
        0 <= x < s.registers.len(),
    ensures
        s.with_random(x, mask, random).reg(x) & !mask == 0,
        s.with_random(x, mask, random).reg(x) <= mask,
        s.with_random(x, mask, random) == s.with_register(x, s.with_random(x, mask, random).reg(x)),
{
    assert((random & mask) & !mask == 0 && random & mask <= mask) by (bit_vector);
}

/// Drawing the same sprite twice at the same place leaves the display as it
/// was. The flag after the second draw tells whether the first draw lit a
/// pixel: those are the pixels that the second one switches off again.
pub proof fn lemma_draw_twice(s: MachineState, x: int, y: int, rows: int)
    requires
        s.wf(),
    ensures
        ({
            let once = s.draw_sprite(x, y, rows);
            let twice = once.draw_sprite(x, y, rows);
            let sprite = s.sprite_at_index(rows);
            &&& twice.display == s.display
            &&& once.reg(FLAG_REG as int) == flag(sprite_collides(s.display, sprite, x, y))
            &&& twice.reg(FLAG_REG as int) == flag(sprite_lights(s.display, sprite, x, y))
            &&& twice == s.with_register(FLAG_REG as int, twice.reg(FLAG_REG as int))
        }),
{
    let once = s.draw_sprite(x, y, rows);
    let twice = once.draw_sprite(x, y, rows);
    let sprite = s.sprite_at_index(rows);
    assert(once.sprite_at_index(rows) =~= sprite);
    lemma_draw_twice_restores(s.display, sprite, x, y);
    lemma_second_draw_collides(s.display, sprite, x, y);
    assert(twice.registers =~= s.registers.update(FLAG_REG as int, twice.reg(FLAG_REG as int)));
}

/// Where the first of two equal draws lit at least one pixel, the second one
/// reports a collision.
pub proof fn lemma_second_draw_sets_flag(s: MachineState, x: int, y: int, rows: int)
    requires
        s.wf(),
        sprite_lights(s.display, s.sprite_at_index(rows), x, y),
    ensures
        s.draw_sprite(x, y, rows).draw_sprite(x, y, rows).reg(FLAG_REG as int) == 1,
        s.draw_sprite(x, y, rows).draw_sprite(x, y, rows).display == s.display,
{
    lemma_draw_twice(s, x, y, rows);
}

/// A sprite drawn with its left edge in the last column wraps round: the
/// leftmost bit of each row flips the pixel in column 63, and the bit `col`
/// places to its right flips the pixel in column `col - 1` of the same line.
pub proof fn lemma_draw_wraps_at_right_edge(s: MachineState, y: int, rows: int, row: int, col: int)
    requires
        s.wf(),
        0 <= y,
        0 <= row < rows <= SCREEN_HEIGHT,
        0 <= col < 8,
    ensures
        ({
            let x = SCREEN_WIDTH as int - 1;
            let line = (y + row) % (SCREEN_HEIGHT as int);
            let target = if col == 0 {
                pixel_index(x, line)
            } else {
                pixel_index(col - 1, line)
            };
            s.draw_sprite(x, y, rows).display[target] == (s.display[target] != sprite_bit(
                s.memory[s.index + row],
                col,
            ))
        }),
{
    let x = SCREEN_WIDTH as int - 1;
    let sprite = s.sprite_at_index(rows);
    let line = (y + row) % (SCREEN_HEIGHT as int);
    let p = pixel_index((x + col) % (SCREEN_WIDTH as int), line);
    lemma_sprite_covers_pixel(sprite, x, y, row, col);
    assert((x + col) % (SCREEN_WIDTH as int) == if col == 0 {
        x
    } else {
        col - 1
    });
    assert(sprite[row] == s.memory[s.index + row]);
    assert(s.draw_sprite(x, y, rows).display[p] == (s.display[p] != sprite_covers(sprite, x, y, p)));
}

/// While no key is down, a step that meets the key-wait instruction changes
/// nothing: the program counter is where it was.
pub proof fn lemma_key_wait_blocks(s: MachineState, random: u8)
    requires
        s.wf(),
        s.pc + 1 < RAM_SIZE,
        instruction_of(s.instruction_word()) matches Some(Instruction::WaitKey { .. }),
        !any_pressed(s.keys),
    ensures
        s.step_fault() is None,
        s.step(random) == s,
{
}

/// While no key is down, any number of steps that start at the key-wait
/// instruction change nothing.
pub proof fn lemma_key_wait_blocks_forever(s: MachineState, randoms: Seq<u8>)
    requires
        s.wf(),
        s.pc + 1 < RAM_SIZE,
        instruction_of(s.instruction_word()) matches Some(Instruction::WaitKey { .. }),
        !any_pressed(s.keys),
    ensures
        s.run(randoms) == s,
    decreases randoms.len(),
{
    if randoms.len() > 0 {
        lemma_key_wait_blocks_forever(s, randoms.drop_last());
        lemma_key_wait_blocks(s, randoms.last());
    }
}

/// With `k` the lowest key that is down, a step that meets the key-wait
/// instruction stores `k` in the instruction's register and moves the program
/// counter to the next instruction. Nothing else changes.
pub proof fn lemma_key_wait_resumes(s: MachineState, random: u8, x: usize, k: int)
    requires
        s.wf(),
        s.pc + 1 < RAM_SIZE,
        instruction_of(s.instruction_word()) == Some(Instruction::WaitKey { x }),
        is_lowest_pressed(s.keys, k),
    ensures
        s.step_fault() is None,
        s.step(random) == s.advance().with_register(x as int, k as u8),
        s.step(random).pc == s.pc + INSTRUCTION_SIZE,
        x < s.registers.len(),
        s.step(random).reg(x as int) == k,
{
    lemma_lowest_pressed_unique(s.keys, k);
}

/// A jump to its own address is a fixed point: the step changes nothing.
pub proof fn lemma_jump_to_self(s: MachineState, random: u8)
    requires
        s.wf(),
        s.pc + 1 < RAM_SIZE,
        op_class(s.instruction_word()) == 1,
        op_nnn(s.instruction_word()) == s.pc,
    ensures
        s.step_fault() is None,
        s.step(random) == s,
{
}

/// A program that jumps to itself stays where it is for any number of steps:
/// neither the program counter nor the display nor anything else changes.
pub proof fn lemma_jump_to_self_forever(s: MachineState, randoms: Seq<u8>)
    requires
        s.wf(),
        s.pc + 1 < RAM_SIZE,
        op_class(s.instruction_word()) == 1,
        op_nnn(s.instruction_word()) == s.pc,
    ensures
        s.run(randoms) == s,
    decreases randoms.len(),
{
    if randoms.len() > 0 {
        lemma_jump_to_self_forever(s, randoms.drop_last());
        lemma_jump_to_self(s, randoms.last());
    }
}

/// A call followed by a return continues after the call, with the stack
/// pointer where it was.
pub proof fn lemma_call_then_return(s: MachineState, addr: u16)
    requires
        s.wf(),
        s.sp < STACK_SIZE,
    ensures
        s.call(addr).return_from_subroutine().pc == s.pc,
        s.call(addr).return_from_subroutine().sp == s.sp,
        s.call(addr).instruction_fault(Instruction::Return) is None,
{
}

/// Storing `V0..=VX` and loading them back from the same place gives the
/// registers their old values, and touches exactly `X + 1` bytes of memory.
pub proof fn lemma_store_then_load(s: MachineState, x: int)
    requires
        s.wf(),
        0 <= x < s.registers.len(),
        s.index + x < RAM_SIZE,
    ensures
        s.store_registers(x).load_registers(x).registers == s.registers,
        forall|a: int|
            0 <= a < RAM_SIZE && !(s.index <= a <= s.index + x) ==> s.store_registers(x).memory[a]
                == s.memory[a],
        forall|r: int| 0 <= r <= x ==> s.store_registers(x).memory[s.index + r] == s.reg(r),
        forall|r: int| x < r < s.registers.len() ==> s.load_registers(x).reg(r) == s.reg(r),
{
    assert(s.store_registers(x).load_registers(x).registers =~= s.registers);
}

/// The timers never pass below zero: a timer at zero stays there, any other
/// goes down by exactly one.
pub proof fn lemma_timers_floor(s: MachineState)
    ensures
        s.delay_timer == 0 ==> s.tick_timers().delay_timer == 0,
        s.sound_timer == 0 ==> s.tick_timers().sound_timer == 0,
        s.delay_timer > 0 ==> s.tick_timers().delay_timer == s.delay_timer - 1,
        s.sound_timer > 0 ==> s.tick_timers().sound_timer == s.sound_timer - 1,
{
}

} // verus!
