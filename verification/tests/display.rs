use chip8_core::emulator::{Emulator, FLAG_REG, SCREEN_HEIGHT, SCREEN_SIZE, SCREEN_WIDTH};

fn pixel(emulator: &Emulator, x: usize, y: usize) -> bool {
    emulator.get_display()[x + SCREEN_WIDTH * y]
}

fn lit(emulator: &Emulator) -> usize {
    emulator.get_display().iter().filter(|p| **p).count()
}

fn with_sprite(sprite: &[u8]) -> Emulator {
    let mut emulator = Emulator::new();
    emulator.load(sprite);
    emulator.assign_addr_to_ram_pointer(0xA200);
    emulator
}

#[test]
fn display_has_the_documented_size_and_starts_dark() {
    let emulator = Emulator::new();
    assert_eq!(emulator.get_display().len(), SCREEN_SIZE);
    assert_eq!(SCREEN_SIZE, SCREEN_WIDTH * SCREEN_HEIGHT);
    assert_eq!(lit(&emulator), 0);
}

#[test]
fn draw_sets_pixels_left_to_right() {
    let mut emulator = with_sprite(&[0b1010_0001]);
    emulator.draw_sprite(8, 3, 1);
    let row: Vec<bool> = (8..16).map(|x| pixel(&emulator, x, 3)).collect();
    assert_eq!(row, vec![true, false, true, false, false, false, false, true]);
    assert_eq!(lit(&emulator), 3);
    assert_eq!(emulator.register(FLAG_REG), 0);
}

#[test]
fn draw_rows_go_downwards() {
    let mut emulator = with_sprite(&[0x80, 0x40, 0x20]);
    emulator.draw_sprite(0, 0, 3);
    assert!(pixel(&emulator, 0, 0));
    assert!(pixel(&emulator, 1, 1));
    assert!(pixel(&emulator, 2, 2));
    assert_eq!(lit(&emulator), 3);
}

#[test]
fn draw_reads_only_the_named_rows() {
    let mut emulator = with_sprite(&[0xFF, 0xFF, 0xFF]);
    emulator.draw_sprite(0, 0, 2);
    assert_eq!(lit(&emulator), 16);
    assert!(!pixel(&emulator, 0, 2));
}

#[test]
fn draw_of_no_rows_changes_no_pixel_and_clears_the_flag() {
    let mut emulator = with_sprite(&[0xFF]);
    emulator.assign_val_to_reg(FLAG_REG, 1);
    emulator.draw_sprite(5, 5, 0);
    assert_eq!(lit(&emulator), 0);
    assert_eq!(emulator.register(FLAG_REG), 0);
}

#[test]
fn draw_font_glyph_zero() {
    let mut emulator = Emulator::new();
    emulator.assign_val_to_reg(0, 0);
    emulator.set_ram_pointer_to_font_addr(0);
    emulator.draw_sprite(10, 10, 5);
    let expected = ["####", "#..#", "#..#", "#..#", "####"];
    for (dy, line) in expected.iter().enumerate() {
        for (dx, ch) in line.chars().enumerate() {
            assert_eq!(pixel(&emulator, 10 + dx, 10 + dy), ch == '#');
        }
        for dx in 4..8 {
            assert!(!pixel(&emulator, 10 + dx, 10 + dy));
        }
    }
    assert_eq!(lit(&emulator), 14);
}

#[test]
fn font_is_installed_at_address_zero() {
    let emulator = Emulator::new();
    let memory = emulator.memory();
    assert_eq!(&memory[0..5], &[0xF0, 0x90, 0x90, 0x90, 0xF0]);
    assert_eq!(&memory[5..10], &[0x20, 0x60, 0x20, 0x20, 0x70]);
    assert_eq!(&memory[75..80], &[0xF0, 0x80, 0xF0, 0x80, 0x80]);
    assert_eq!(&memory[0..80], &chip8_core::fontset::FONTSET[..]);
    assert!(memory[80..].iter().all(|b| *b == 0));
}

#[test]
fn draw_twice_restores_the_display() {
    let mut emulator = with_sprite(&[0xF0, 0x0F, 0xAA, 0x55]);
    emulator.draw_sprite(20, 7, 4);
    assert_eq!(lit(&emulator), 16);
    assert_eq!(emulator.register(FLAG_REG), 0);
    emulator.draw_sprite(20, 7, 4);
    assert_eq!(lit(&emulator), 0);
    assert_eq!(emulator.register(FLAG_REG), 1);
}

#[test]
fn draw_twice_restores_a_display_that_was_not_blank() {
    let mut emulator = with_sprite(&[0xFF, 0x81, 0x3C]);
    emulator.draw_sprite(2, 2, 1);
    let before: Vec<bool> = emulator.get_display().to_vec();
    emulator.draw_sprite(4, 2, 3);
    assert_ne!(emulator.get_display(), &before[..]);
    assert_eq!(emulator.register(FLAG_REG), 1);
    emulator.draw_sprite(4, 2, 3);
    assert_eq!(emulator.get_display(), &before[..]);
    assert_eq!(emulator.register(FLAG_REG), 1);
}

#[test]
fn second_draw_does_not_collide_if_the_first_lit_nothing() {
    let mut emulator = with_sprite(&[0xFF]);
    emulator.draw_sprite(0, 0, 1);
    // Every pixel under the sprite is lit now: the next draw only clears,
    // and the one after that only sets.
    emulator.draw_sprite(0, 0, 1);
    assert_eq!(emulator.register(FLAG_REG), 1);
    assert_eq!(lit(&emulator), 0);
    emulator.draw_sprite(0, 0, 1);
    assert_eq!(emulator.register(FLAG_REG), 0);
    assert_eq!(lit(&emulator), 8);
}

#[test]
fn draw_collision_needs_a_pixel_that_goes_dark() {
    let mut emulator = with_sprite(&[0b1100_0000, 0b0011_0000]);
    emulator.draw_sprite(0, 0, 1);
    assert_eq!(emulator.register(FLAG_REG), 0);
    // The second row's bits land beside the lit pixels, not on them.
    emulator.assign_addr_to_ram_pointer(0xA201);
    emulator.draw_sprite(0, 0, 1);
    assert_eq!(emulator.register(FLAG_REG), 0);
    assert_eq!(lit(&emulator), 4);
    // Now one bit lands on a lit pixel and one beside it.
    emulator.draw_sprite(1, 0, 1);
    assert_eq!(emulator.register(FLAG_REG), 1);
    assert!(pixel(&emulator, 2, 0));
    assert!(!pixel(&emulator, 3, 0));
    assert!(pixel(&emulator, 4, 0));
    assert_eq!(lit(&emulator), 4);
}

#[test]
fn draw_wraps_at_the_right_edge() {
    let mut emulator = with_sprite(&[0b1110_0001]);
    emulator.draw_sprite((SCREEN_WIDTH - 1) as u16, 4, 1);
    assert!(pixel(&emulator, SCREEN_WIDTH - 1, 4));
    assert!(pixel(&emulator, 0, 4));
    assert!(pixel(&emulator, 1, 4));
    assert!(!pixel(&emulator, 2, 4));
    assert!(pixel(&emulator, 6, 4));
    assert_eq!(lit(&emulator), 4);
    for y in 0..SCREEN_HEIGHT {
        if y != 4 {
            for x in 0..SCREEN_WIDTH {
                assert!(!pixel(&emulator, x, y));
            }
        }
    }
}

#[test]
fn draw_wraps_at_the_bottom_edge() {
    let mut emulator = with_sprite(&[0x80, 0x80, 0x80]);
    emulator.draw_sprite(5, (SCREEN_HEIGHT - 1) as u16, 3);
    assert!(pixel(&emulator, 5, SCREEN_HEIGHT - 1));
    assert!(pixel(&emulator, 5, 0));
    assert!(pixel(&emulator, 5, 1));
    assert_eq!(lit(&emulator), 3);
}

#[test]
fn draw_coordinates_wrap_as_a_whole() {
    let mut emulator = with_sprite(&[0xC0]);
    emulator.draw_sprite(64 + 3, 32 + 2, 1);
    assert!(pixel(&emulator, 3, 2));
    assert!(pixel(&emulator, 4, 2));
    assert_eq!(lit(&emulator), 2);

    let mut emulator = with_sprite(&[0xC0]);
    emulator.draw_sprite(255, 255, 1);
    assert!(pixel(&emulator, 63, 31));
    assert!(pixel(&emulator, 0, 31));
    assert_eq!(lit(&emulator), 2);
}

#[test]
fn draw_tallest_sprite_at_the_end_of_memory() {
    let mut emulator = Emulator::new();
    let image = [0x80u8; 3584];
    emulator.load(&image);
    emulator.assign_addr_to_ram_pointer(0xAFF1);
    emulator.draw_sprite(0, 0, 15);
    assert_eq!(lit(&emulator), 15);
    for y in 0..15 {
        assert!(pixel(&emulator, 0, y));
    }
}

#[test]
fn draw_leaves_memory_and_other_registers() {
    let mut emulator = with_sprite(&[0xFF]);
    emulator.assign_val_to_reg(3, 9);
    let memory: Vec<u8> = emulator.memory().to_vec();
    emulator.draw_sprite(1, 1, 1);
    assert_eq!(emulator.memory(), &memory[..]);
    assert_eq!(emulator.register(3), 9);
    assert_eq!(emulator.index_register(), 0x200);
    assert_eq!(emulator.program_counter(), 0x200);
}

#[test]
fn clear_screen_switches_every_pixel_off() {
    let mut emulator = with_sprite(&[0xFF, 0xFF]);
    emulator.draw_sprite(0, 0, 2);
    emulator.draw_sprite(30, 20, 2);
    assert_eq!(lit(&emulator), 32);
    emulator.assign_val_to_reg(FLAG_REG, 1);
    emulator.clear_screen();
    assert_eq!(lit(&emulator), 0);
    assert_eq!(emulator.register(FLAG_REG), 1);
}

#[test]
fn draw_instruction_uses_register_values_as_coordinates() {
    let mut emulator = Emulator::new();
    // V1 = 62, V2 = 31, I = glyph of 1, draw 5 rows at (V1, V2).
    emulator.load(&[0x61, 62, 0x62, 31, 0x63, 0x01, 0xF3, 0x29, 0xD1, 0x25]);
    for _ in 0..5 {
        emulator.step().unwrap();
    }
    assert_eq!(emulator.index_register(), 5);
    // Glyph 1: 0x20 0x60 0x20 0x20 0x70, its third column is the stem.
    assert!(pixel(&emulator, 0, 31));
    assert!(pixel(&emulator, 63, 0) && pixel(&emulator, 0, 0));
    assert!(pixel(&emulator, 0, 1));
    assert!(pixel(&emulator, 0, 2));
    assert!(pixel(&emulator, 63, 3) && pixel(&emulator, 0, 3) && pixel(&emulator, 1, 3));
    assert_eq!(lit(&emulator), 8);
    assert_eq!(emulator.register(FLAG_REG), 0);
    assert_eq!(emulator.program_counter(), 0x20A);
}
