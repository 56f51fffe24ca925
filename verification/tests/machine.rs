use chip8::Chip8;
use chip8::Chip8Error;

fn boot(rom: &[u8]) -> Chip8 {
    let mut c = Chip8::initialize();
    c.load_rom(rom).unwrap();
    c
}

#[test]
fn fresh_machine_state() {
    let c = Chip8::initialize();
    assert_eq!(c.pc(), 0x200);
    assert_eq!(c.index_register(), 0);
    assert_eq!(c.stack_depth(), 0);
    assert_eq!(c.delay(), 0);
    assert_eq!(c.sound(), 0);
    assert!(!c.sound_on());
    assert!(!c.needs_redraw());
    assert_eq!(c.key(), None);
    for x in 0..16u8 {
        assert_eq!(c.register(x), 0);
    }
    for idx in 0..2048usize {
        assert_eq!(c.pixel(idx), 0);
    }
}

#[test]
fn font_loaded_at_zero() {
    let c = Chip8::initialize();
    // Glyph 0 starts with 0xF0; glyph F ends with 0x80.
    assert_eq!(c.memory_at(0x000), 0xF0);
    assert_eq!(c.memory_at(0x001), 0x90);
    assert_eq!(c.memory_at(0x04F), 0x80);
    // Above the font everything is zero up to the program area.
    assert_eq!(c.memory_at(0x050), 0);
    assert_eq!(c.memory_at(0x1FF), 0);
}

#[test]
fn load_writes_bytes_and_keeps_font() {
    let c = boot(&[0x12, 0x34, 0x56]);
    assert_eq!(c.memory_at(0x200), 0x12);
    assert_eq!(c.memory_at(0x201), 0x34);
    assert_eq!(c.memory_at(0x202), 0x56);
    assert_eq!(c.memory_at(0x203), 0x00);
    assert_eq!(c.memory_at(0x000), 0xF0);
    assert_eq!(c.memory_at(0x04F), 0x80);
}

#[test]
fn load_of_largest_image_reaches_end_of_memory() {
    let mut rom = vec![0xABu8; 3584];
    rom[0] = 0x01;
    rom[3583] = 0xCD;
    let mut c = Chip8::initialize();
    assert_eq!(c.load_rom(&rom), Ok(()));
    assert_eq!(c.memory_at(0x200), 0x01);
    assert_eq!(c.memory_at(0xFFF), 0xCD);
}

#[test]
fn oversized_image_rejected_without_mutation() {
    let rom = vec![0xAAu8; 3585];
    let mut c = Chip8::initialize();
    assert_eq!(c.load_rom(&rom), Err(Chip8Error::ProgramTooLarge));
    assert_eq!(c.memory_at(0x200), 0x00);
    assert_eq!(c.memory_at(0xFFF), 0x00);
    assert_eq!(c.memory_at(0x000), 0xF0);
    assert_eq!(c.pc(), 0x200);
}

#[test]
fn key_latch_is_replaced() {
    let mut c = Chip8::initialize();
    c.set_keyboard_input(Some(0x3));
    assert_eq!(c.key(), Some(0x3));
    c.set_keyboard_input(Some(0xF));
    assert_eq!(c.key(), Some(0xF));
    c.set_keyboard_input(None);
    assert_eq!(c.key(), None);
}
