use chip8_core::emulator::{Emulator, FLAG_REG, RAM_SIZE, START_ADDR};
use chip8_core::Fault;

fn machine_with(program: &[u8]) -> Emulator {
    let mut emulator = Emulator::new();
    emulator.load(program);
    emulator
}

fn run(emulator: &mut Emulator, steps: usize) {
    for _ in 0..steps {
        emulator.step().unwrap();
    }
}

#[test]
fn new_machine_is_in_the_initial_state() {
    let emulator = Emulator::new();
    assert_eq!(emulator.program_counter(), START_ADDR);
    assert_eq!(emulator.program_counter(), 0x200);
    assert_eq!(emulator.index_register(), 0);
    assert_eq!(emulator.stack_pointer(), 0);
    assert_eq!(emulator.delay_timer(), 0);
    assert_eq!(emulator.sound_timer(), 0);
    for r in 0..16 {
        assert_eq!(emulator.register(r), 0);
        assert!(!emulator.is_key_pressed(r));
    }
    assert_eq!(emulator.memory().len(), RAM_SIZE);
    assert!(emulator.get_display().iter().all(|p| !*p));
}

#[test]
fn load_places_the_image_at_the_entry_address() {
    let mut emulator = Emulator::new();
    emulator.assign_val_to_reg(1, 7);
    emulator.load(&[1, 2, 3, 4]);
    assert_eq!(&emulator.memory()[0x1FF..0x205], &[0, 1, 2, 3, 4, 0]);
    assert_eq!(emulator.memory()[0], 0xF0);
    assert_eq!(emulator.register(1), 7);
    assert_eq!(emulator.program_counter(), 0x200);
}

#[test]
fn load_of_nothing_changes_nothing() {
    let mut emulator = Emulator::new();
    let before: Vec<u8> = emulator.memory().to_vec();
    emulator.load(&[]);
    assert_eq!(emulator.memory(), &before[..]);
}

#[test]
fn load_fills_memory_to_the_end() {
    let mut emulator = Emulator::new();
    let image: Vec<u8> = (0..3584u32).map(|i| (i % 251) as u8 + 1).collect();
    emulator.load(&image);
    assert_eq!(&emulator.memory()[0x200..], &image[..]);
    assert_eq!(emulator.memory()[0x1FF], 0);
}

#[test]
fn load_over_an_earlier_image_keeps_its_tail() {
    let mut emulator = machine_with(&[9, 9, 9, 9]);
    emulator.load(&[1, 2]);
    assert_eq!(&emulator.memory()[0x200..0x204], &[1, 2, 9, 9]);
}

#[test]
fn fetch_reads_big_endian_and_advances() {
    let mut emulator = machine_with(&[0xAB, 0xCD, 0x12, 0x34]);
    assert_eq!(emulator.current_word(), 0xABCD);
    assert_eq!(emulator.program_counter(), 0x200);
    assert_eq!(emulator.fetch(), 0xABCD);
    assert_eq!(emulator.program_counter(), 0x202);
    assert_eq!(emulator.fetch(), 0x1234);
    assert_eq!(emulator.program_counter(), 0x204);
}

#[test]
fn all_zero_word_is_a_no_op() {
    let mut emulator = Emulator::new();
    assert_eq!(emulator.step(), Ok(()));
    assert_eq!(emulator.program_counter(), 0x202);
    emulator.tick();
    assert_eq!(emulator.program_counter(), 0x204);
    for r in 0..16 {
        assert_eq!(emulator.register(r), 0);
    }
    assert_eq!(emulator.stack_pointer(), 0);
    assert!(emulator.get_display().iter().all(|p| !*p));
}

#[test]
fn jump_sets_the_program_counter() {
    let mut emulator = machine_with(&[0x1A, 0xBC]);
    run(&mut emulator, 1);
    assert_eq!(emulator.program_counter(), 0xABC);
}

#[test]
fn jump_to_self_is_stable() {
    let mut emulator = machine_with(&[0x12, 0x00]);
    let memory: Vec<u8> = emulator.memory().to_vec();
    for _ in 0..1000 {
        assert_eq!(emulator.step(), Ok(()));
        assert_eq!(emulator.program_counter(), 0x200);
        assert!(emulator.get_display().iter().all(|p| !*p));
    }
    assert_eq!(emulator.memory(), &memory[..]);
    assert_eq!(emulator.stack_pointer(), 0);
    assert_eq!(emulator.index_register(), 0);
    for r in 0..16 {
        assert_eq!(emulator.register(r), 0);
    }
}

#[test]
fn jump_to_self_keeps_a_drawn_display() {
    // Draw glyph 0 at (0, 0), then loop forever.
    let mut emulator = machine_with(&[0xD0, 0x05, 0x12, 0x02]);
    run(&mut emulator, 1);
    let display: Vec<bool> = emulator.get_display().to_vec();
    assert_eq!(display.iter().filter(|p| **p).count(), 14);
    for _ in 0..100 {
        emulator.tick();
        assert_eq!(emulator.program_counter(), 0x202);
        assert_eq!(emulator.get_display(), &display[..]);
    }
}

#[test]
fn call_and_return() {
    // 0x200: call 0x206; 0x202: V1 = 1; 0x206: V2 = 2; 0x208: return.
    let mut emulator = machine_with(&[0x22, 0x06, 0x61, 0x01, 0x00, 0x00, 0x62, 0x02, 0x00, 0xEE]);
    run(&mut emulator, 1);
    assert_eq!(emulator.program_counter(), 0x206);
    assert_eq!(emulator.stack_pointer(), 1);
    run(&mut emulator, 1);
    assert_eq!(emulator.register(2), 2);
    run(&mut emulator, 1);
    assert_eq!(emulator.program_counter(), 0x202);
    assert_eq!(emulator.stack_pointer(), 0);
    run(&mut emulator, 1);
    assert_eq!(emulator.register(1), 1);
}

#[test]
fn push_and_pop_are_last_in_first_out() {
    let mut emulator = Emulator::new();
    emulator.push(0x111);
    emulator.push(0x222);
    emulator.push(0x333);
    assert_eq!(emulator.stack_pointer(), 3);
    assert_eq!(emulator.pop(), 0x333);
    assert_eq!(emulator.pop(), 0x222);
    emulator.push(0x444);
    assert_eq!(emulator.pop(), 0x444);
    assert_eq!(emulator.pop(), 0x111);
    assert_eq!(emulator.stack_pointer(), 0);
}

#[test]
fn stack_holds_sixteen_calls() {
    // A subroutine that calls itself.
    let mut emulator = machine_with(&[0x22, 0x00]);
    for depth in 1..=16 {
        assert_eq!(emulator.step(), Ok(()));
        assert_eq!(emulator.stack_pointer(), depth);
    }
    assert_eq!(emulator.next_fault(), Some(Fault::StackOverflow));
    assert_eq!(emulator.step(), Err(Fault::StackOverflow));
    assert_eq!(emulator.stack_pointer(), 16);
    assert_eq!(emulator.program_counter(), 0x200);
}

#[test]
fn return_with_empty_stack_is_a_fault() {
    let mut emulator = machine_with(&[0x00, 0xEE]);
    assert_eq!(emulator.step(), Err(Fault::StackUnderflow));
    assert_eq!(emulator.program_counter(), 0x200);
    assert_eq!(emulator.stack_pointer(), 0);
}

#[test]
fn unknown_opcode_is_a_fault_and_changes_nothing() {
    let mut emulator = machine_with(&[0xB1, 0x23]);
    emulator.assign_val_to_reg(0, 0x40);
    assert_eq!(emulator.step(), Err(Fault::UnknownOpcode { opcode: 0xB123 }));
    assert_eq!(emulator.step(), Err(Fault::UnknownOpcode { opcode: 0xB123 }));
    assert_eq!(emulator.program_counter(), 0x200);
    assert_eq!(emulator.register(0), 0x40);
    assert_eq!(emulator.execution_fault(0x5121), Some(Fault::UnknownOpcode { opcode: 0x5121 }));
    assert_eq!(emulator.execution_fault(0x00E1), Some(Fault::UnknownOpcode { opcode: 0x00E1 }));
    assert_eq!(emulator.execution_fault(0x00E0), None);
}

#[test]
fn fetch_past_the_end_of_memory_is_a_fault() {
    let mut emulator = machine_with(&[0x1F, 0xFF]);
    run(&mut emulator, 1);
    assert_eq!(emulator.program_counter(), 0xFFF);
    assert_eq!(emulator.step(), Err(Fault::MemoryOutOfBounds));
    assert_eq!(emulator.program_counter(), 0xFFF);
}

#[test]
fn last_instruction_slot_can_be_fetched() {
    let mut image = vec![0u8; 3584];
    image[0] = 0x1F;
    image[1] = 0xFE;
    image[3582] = 0x61;
    image[3583] = 0x2A;
    let mut emulator = machine_with(&image);
    run(&mut emulator, 2);
    assert_eq!(emulator.register(1), 0x2A);
    assert_eq!(emulator.program_counter(), 0x1000);
    assert_eq!(emulator.step(), Err(Fault::MemoryOutOfBounds));
}

#[test]
fn draw_past_the_end_of_memory_is_a_fault() {
    // I = 0xFFF, draw two rows.
    let mut emulator = machine_with(&[0xAF, 0xFF, 0xD0, 0x02]);
    run(&mut emulator, 1);
    assert_eq!(emulator.step(), Err(Fault::MemoryOutOfBounds));
    assert_eq!(emulator.program_counter(), 0x202);
    assert_eq!(emulator.register(FLAG_REG), 0);
    // One row still fits.
    assert_eq!(emulator.execution_fault(0xD001), None);
    assert_eq!(emulator.execution_fault(0xD000), None);
}

#[test]
fn bcd_past_the_end_of_memory_is_a_fault() {
    let mut emulator = machine_with(&[0xAF, 0xFE, 0xF0, 0x33]);
    run(&mut emulator, 1);
    assert_eq!(emulator.step(), Err(Fault::MemoryOutOfBounds));
    let mut emulator = machine_with(&[0xAF, 0xFD, 0xF0, 0x33]);
    run(&mut emulator, 1);
    assert_eq!(emulator.step(), Ok(()));
}

#[test]
fn register_block_past_the_end_of_memory_is_a_fault() {
    let mut emulator = machine_with(&[0xAF, 0xFE, 0xF2, 0x55]);
    run(&mut emulator, 1);
    assert_eq!(emulator.step(), Err(Fault::MemoryOutOfBounds));
    assert_eq!(emulator.execution_fault(0xF265), Some(Fault::MemoryOutOfBounds));
    assert_eq!(emulator.execution_fault(0xF155), None);
    assert_eq!(emulator.execution_fault(0xF165), None);
}

#[test]
fn key_test_on_a_number_that_is_no_key_is_a_fault() {
    let mut emulator = machine_with(&[0x61, 0x10, 0xE1, 0x9E]);
    run(&mut emulator, 1);
    assert_eq!(emulator.step(), Err(Fault::InvalidKey));
    assert_eq!(emulator.execution_fault(0xE1A1), Some(Fault::InvalidKey));
    emulator.assign_val_to_reg(1, 0x0F);
    assert_eq!(emulator.execution_fault(0xE1A1), None);
    assert_eq!(emulator.step(), Ok(()));
}

#[test]
fn skip_if_register_equals_value() {
    let mut emulator = machine_with(&[0x61, 0x42, 0x31, 0x42, 0x00, 0x00, 0x31, 0x43]);
    run(&mut emulator, 2);
    assert_eq!(emulator.program_counter(), 0x206);
    run(&mut emulator, 1);
    assert_eq!(emulator.program_counter(), 0x208);
}

#[test]
fn skip_if_register_differs_from_value() {
    let mut emulator = machine_with(&[0x61, 0x42, 0x41, 0x43, 0x00, 0x00, 0x41, 0x42]);
    run(&mut emulator, 2);
    assert_eq!(emulator.program_counter(), 0x206);
    run(&mut emulator, 1);
    assert_eq!(emulator.program_counter(), 0x208);
}

#[test]
fn skip_if_registers_are_equal() {
    let mut emulator = machine_with(&[0x61, 0x05, 0x62, 0x05, 0x51, 0x20, 0x00, 0x00, 0x51, 0x30]);
    run(&mut emulator, 3);
    assert_eq!(emulator.program_counter(), 0x208);
    run(&mut emulator, 1);
    assert_eq!(emulator.program_counter(), 0x20A);
}

#[test]
fn second_register_skip_takes_the_same_decision() {
    let mut emulator = machine_with(&[0x61, 0x05, 0x62, 0x05, 0x91, 0x20, 0x00, 0x00, 0x91, 0x30]);
    run(&mut emulator, 3);
    assert_eq!(emulator.program_counter(), 0x208);
    run(&mut emulator, 1);
    assert_eq!(emulator.program_counter(), 0x20A);
}

#[test]
fn skip_handlers_move_by_one_instruction() {
    let mut emulator = Emulator::new();
    emulator.assign_val_to_reg(1, 3);
    emulator.skip_next_if_reg_equals_val(1, 3);
    assert_eq!(emulator.program_counter(), 0x202);
    emulator.skip_next_if_reg_equals_val(1, 4);
    assert_eq!(emulator.program_counter(), 0x202);
    emulator.skip_next_if_reg_not_equals_val(1, 4);
    assert_eq!(emulator.program_counter(), 0x204);
    emulator.skip_next_if_reg_not_equals_val(1, 3);
    assert_eq!(emulator.program_counter(), 0x204);
    emulator.skip_next_if_reg_equals_reg(1, 1);
    assert_eq!(emulator.program_counter(), 0x206);
    emulator.skip_next_if_reg_equals_reg(1, 2);
    assert_eq!(emulator.program_counter(), 0x206);
    emulator.skip_next_if_reg_not_equals_reg(1, 1);
    assert_eq!(emulator.program_counter(), 0x208);
    emulator.skip_next_if_reg_not_equals_reg(1, 2);
    assert_eq!(emulator.program_counter(), 0x208);
}

#[test]
fn keypress_overwrites_the_key_state() {
    let mut emulator = Emulator::new();
    emulator.keypress(0xA, true);
    assert!(emulator.is_key_pressed(0xA));
    emulator.keypress(0xA, true);
    assert!(emulator.is_key_pressed(0xA));
    emulator.keypress(0xA, false);
    assert!(!emulator.is_key_pressed(0xA));
    emulator.keypress(0, true);
    emulator.keypress(15, true);
    for k in 1..15 {
        assert!(!emulator.is_key_pressed(k));
    }
    assert!(emulator.is_key_pressed(0) && emulator.is_key_pressed(15));
}

#[test]
fn skip_if_key_pressed_and_not_pressed() {
    // V1 = 7; skip if key V1 down; (filler); skip if key V1 up.
    let program = [0x61, 0x07, 0xE1, 0x9E, 0x00, 0x00, 0xE1, 0xA1];
    let mut emulator = machine_with(&program);
    run(&mut emulator, 2);
    assert_eq!(emulator.program_counter(), 0x204);
    run(&mut emulator, 2);
    assert_eq!(emulator.program_counter(), 0x20A);

    let mut emulator = machine_with(&program);
    emulator.keypress(7, true);
    run(&mut emulator, 2);
    assert_eq!(emulator.program_counter(), 0x206);
    run(&mut emulator, 1);
    assert_eq!(emulator.program_counter(), 0x208);
}

#[test]
fn key_wait_blocks_until_a_key_is_down() {
    let mut emulator = machine_with(&[0xF3, 0x0A, 0x61, 0x01]);
    for _ in 0..50 {
        assert_eq!(emulator.step(), Ok(()));
        assert_eq!(emulator.program_counter(), 0x200);
        assert_eq!(emulator.register(3), 0);
    }
    emulator.keypress(0xB, true);
    emulator.keypress(0x4, true);
    emulator.keypress(0xE, true);
    assert_eq!(emulator.step(), Ok(()));
    assert_eq!(emulator.program_counter(), 0x202);
    assert_eq!(emulator.register(3), 0x4);
    run(&mut emulator, 1);
    assert_eq!(emulator.register(1), 1);
}

#[test]
fn key_wait_sees_key_zero_and_key_fifteen() {
    let mut emulator = machine_with(&[0xF3, 0x0A]);
    emulator.assign_val_to_reg(3, 9);
    emulator.keypress(0, true);
    run(&mut emulator, 1);
    assert_eq!(emulator.register(3), 0);
    assert_eq!(emulator.program_counter(), 0x202);

    let mut emulator = machine_with(&[0xF3, 0x0A]);
    emulator.keypress(15, true);
    run(&mut emulator, 1);
    assert_eq!(emulator.register(3), 15);
}

#[test]
fn key_wait_handler_steps_back_one_instruction() {
    let mut emulator = machine_with(&[0xF3, 0x0A]);
    assert_eq!(emulator.fetch(), 0xF30A);
    emulator.wait_for_key_press(3);
    assert_eq!(emulator.program_counter(), 0x200);
    emulator.keypress(2, false);
    assert_eq!(emulator.fetch(), 0xF30A);
    emulator.keypress(6, true);
    emulator.wait_for_key_press(3);
    assert_eq!(emulator.program_counter(), 0x202);
    assert_eq!(emulator.register(3), 6);
}

#[test]
fn arithmetic_program_runs_through_the_decoder() {
    // V1 = 200; V2 = 100; V1 += V2; V3 = VF; V2 -= V1; V4 = VF; V1 >>= 1.
    let mut emulator = machine_with(&[
        0x61, 200, 0x62, 100, 0x81, 0x24, 0x83, 0xF0, 0x82, 0x15, 0x84, 0xF0, 0x81, 0x06,
    ]);
    run(&mut emulator, 7);
    assert_eq!(emulator.register(3), 1);
    assert_eq!(emulator.register(2), 56);
    assert_eq!(emulator.register(4), 1);
    assert_eq!(emulator.register(1), 22);
    assert_eq!(emulator.register(FLAG_REG), 0);
    assert_eq!(emulator.program_counter(), 0x20E);
}

#[test]
fn memory_program_runs_through_the_decoder() {
    // V0 = 205; I = 0x300; BCD V0; load V0..V2; I += V2; V5 = delay;
    // delay = V1 (0); sound = V2 (5).
    let mut emulator = machine_with(&[
        0x60, 205, 0xA3, 0x00, 0xF0, 0x33, 0xF2, 0x65, 0xF2, 0x1E, 0xF2, 0x18, 0xF2, 0x15, 0xF5,
        0x07, 0xF3, 0x55,
    ]);
    run(&mut emulator, 9);
    assert_eq!(emulator.register(0), 2);
    assert_eq!(emulator.register(1), 0);
    assert_eq!(emulator.register(2), 5);
    assert_eq!(emulator.index_register(), 0x305);
    assert_eq!(emulator.sound_timer(), 5);
    assert_eq!(emulator.delay_timer(), 5);
    assert_eq!(emulator.register(5), 5);
    assert_eq!(&emulator.memory()[0x305..0x30A], &[2, 0, 5, 0, 0]);
}

#[test]
fn logic_program_runs_through_the_decoder() {
    // V1 = 0xCA; V2 = 0xA6; V3 = V1; V3 |= V2; V4 = V1; V4 &= V2; V5 = V1;
    // V5 ^= V2; V6 = V1; V6 = V2 - V6; V7 = 0x81; V7 <<= 1; V8 += 0xFF twice.
    let mut emulator = machine_with(&[
        0x61, 0xCA, 0x62, 0xA6, 0x83, 0x10, 0x83, 0x21, 0x84, 0x10, 0x84, 0x22, 0x85, 0x10, 0x85,
        0x23, 0x86, 0x10, 0x86, 0x27, 0x67, 0x81, 0x87, 0x0E, 0x78, 0xFF, 0x78, 0xFF,
    ]);
    run(&mut emulator, 10);
    assert_eq!(emulator.register(3), 0xEE);
    assert_eq!(emulator.register(4), 0x82);
    assert_eq!(emulator.register(5), 0x6C);
    assert_eq!(emulator.register(6), 0xDC);
    assert_eq!(emulator.register(FLAG_REG), 0);
    run(&mut emulator, 2);
    assert_eq!(emulator.register(7), 0x02);
    assert_eq!(emulator.register(FLAG_REG), 1);
    run(&mut emulator, 2);
    assert_eq!(emulator.register(8), 0xFE);
    assert_eq!(emulator.register(FLAG_REG), 1);
}

#[test]
fn random_instruction_is_masked() {
    let mut emulator = machine_with(&[0xC1, 0x0F, 0x12, 0x00]);
    for _ in 0..200 {
        run(&mut emulator, 2);
        assert_eq!(emulator.register(1) & 0xF0, 0);
        assert_eq!(emulator.program_counter(), 0x200);
    }
}

#[test]
fn clear_screen_instruction() {
    let mut emulator = machine_with(&[0xD0, 0x05, 0x00, 0xE0]);
    run(&mut emulator, 1);
    assert!(emulator.get_display().iter().any(|p| *p));
    run(&mut emulator, 1);
    assert!(emulator.get_display().iter().all(|p| !*p));
    assert_eq!(emulator.program_counter(), 0x204);
}

#[test]
fn execute_runs_a_fetched_word() {
    let mut emulator = machine_with(&[0x6A, 0x55]);
    let word = emulator.fetch();
    emulator.execute(word);
    assert_eq!(emulator.register(0xA), 0x55);
    assert_eq!(emulator.program_counter(), 0x202);
    emulator.execute(0x1234);
    assert_eq!(emulator.program_counter(), 0x234);
}

#[test]
fn reset_restores_the_initial_state() {
    let mut emulator = machine_with(&[
        0x61, 0x07, 0xA2, 0x10, 0xD1, 0x15, 0x22, 0x0A, 0x00, 0x00, 0xF1, 0x15, 0xF1, 0x18, 0xF1,
        0x55,
    ]);
    emulator.keypress(3, true);
    run(&mut emulator, 7);
    emulator.tick_timers();
    assert_ne!(emulator.program_counter(), 0x200);
    assert_eq!(emulator.stack_pointer(), 1);

    emulator.reset();

    let fresh = Emulator::new();
    assert_eq!(emulator.program_counter(), 0x200);
    assert_eq!(emulator.index_register(), 0);
    assert_eq!(emulator.stack_pointer(), 0);
    assert_eq!(emulator.delay_timer(), 0);
    assert_eq!(emulator.sound_timer(), 0);
    for i in 0..16 {
        assert_eq!(emulator.register(i), 0);
        assert!(!emulator.is_key_pressed(i));
    }
    assert_eq!(emulator.memory(), fresh.memory());
    assert_eq!(&emulator.memory()[0..5], &[0xF0, 0x90, 0x90, 0x90, 0xF0]);
    assert!(emulator.memory()[80..].iter().all(|b| *b == 0));
    assert_eq!(emulator.get_display(), fresh.get_display());
    assert!(emulator.get_display().iter().all(|p| !*p));
    // The stack slots are cleared too: a push and a pop see only the new value.
    emulator.push(5);
    assert_eq!(emulator.pop(), 5);
}

#[test]
fn reset_restores_an_overwritten_font() {
    let mut emulator = Emulator::new();
    emulator.assign_val_to_reg(0, 0xFF);
    emulator.assign_val_to_reg(1, 0xFF);
    emulator.assign_addr_to_ram_pointer(0xA000);
    emulator.store_regs_in_ram(1);
    assert_eq!(&emulator.memory()[0..2], &[0xFF, 0xFF]);
    emulator.reset();
    assert_eq!(&emulator.memory()[0..2], &[0xF0, 0x90]);
}
