use chip8::Chip8;

fn boot(rom: &[u8]) -> Chip8 {
    let mut c = Chip8::initialize();
    c.load_rom(rom).unwrap();
    c
}

fn run(c: &mut Chip8, cycles: usize) {
    for _ in 0..cycles {
        c.cycle().unwrap();
    }
}

#[test]
fn load_immediate() {
    let mut c = boot(&[0x6A, 0xBC]);
    assert_eq!(c.cycle(), Ok(None));
    assert_eq!(c.register(0xA), 0xBC);
    assert_eq!(c.pc(), 0x202);
}

#[test]
fn add_immediate_wraps_without_flag() {
    let mut c = boot(&[0x6A, 0xFF, 0x7A, 0x01]);
    run(&mut c, 2);
    assert_eq!(c.register(0xA), 0x00);
    assert_eq!(c.register(0xF), 0x00);
    assert_eq!(c.pc(), 0x204);
}

#[test]
fn add_with_carry_sets_flag() {
    let mut c = boot(&[0x6A, 0xFF, 0x6B, 0x02, 0x8A, 0xB4]);
    run(&mut c, 3);
    assert_eq!(c.register(0xA), 0x01);
    assert_eq!(c.register(0xF), 1);
}

#[test]
fn add_without_carry_clears_flag() {
    let mut c = boot(&[0x6A, 0x0F, 0x6B, 0x01, 0x8A, 0xB4]);
    run(&mut c, 3);
    assert_eq!(c.register(0xA), 0x10);
    assert_eq!(c.register(0xF), 0);
}

#[test]
fn assign_register() {
    let mut c = boot(&[0x62, 0x55, 0x81, 0x20]);
    run(&mut c, 2);
    assert_eq!(c.register(1), 0x55);
}

#[test]
fn bitwise_or_and_xor() {
    let mut c = boot(&[0x61, 0x0F, 0x62, 0xF0, 0x81, 0x21]);
    run(&mut c, 3);
    assert_eq!(c.register(1), 0xFF);

    let mut c = boot(&[0x61, 0x0F, 0x62, 0xF0, 0x81, 0x22]);
    run(&mut c, 3);
    assert_eq!(c.register(1), 0x00);

    let mut c = boot(&[0x61, 0x3C, 0x62, 0xF0, 0x81, 0x23]);
    run(&mut c, 3);
    assert_eq!(c.register(1), 0xCC);
}

#[test]
fn subtract_with_borrow() {
    // 5 - 7 borrows: result wraps, flag 0.
    let mut c = boot(&[0x61, 0x05, 0x62, 0x07, 0x81, 0x25]);
    run(&mut c, 3);
    assert_eq!(c.register(1), 0xFE);
    assert_eq!(c.register(0xF), 0);
    // 7 - 5 does not borrow: flag 1.
    let mut c = boot(&[0x61, 0x07, 0x62, 0x05, 0x81, 0x25]);
    run(&mut c, 3);
    assert_eq!(c.register(1), 0x02);
    assert_eq!(c.register(0xF), 1);
}

#[test]
fn subtract_reversed_operands() {
    // V1 = V2 - V1 = 7 - 5: no borrow, flag 1.
    let mut c = boot(&[0x61, 0x05, 0x62, 0x07, 0x81, 0x27]);
    run(&mut c, 3);
    assert_eq!(c.register(1), 0x02);
    assert_eq!(c.register(0xF), 1);
    // V1 = V2 - V1 = 5 - 7: borrow, flag 0.
    let mut c = boot(&[0x61, 0x07, 0x62, 0x05, 0x81, 0x27]);
    run(&mut c, 3);
    assert_eq!(c.register(1), 0xFE);
    assert_eq!(c.register(0xF), 0);
}

#[test]
fn shift_right_keeps_dropped_bit() {
    let mut c = boot(&[0x61, 0x05, 0x81, 0x06]);
    run(&mut c, 2);
    assert_eq!(c.register(1), 0x02);
    assert_eq!(c.register(0xF), 1);
}

#[test]
fn shift_left_keeps_dropped_bit() {
    let mut c = boot(&[0x61, 0x81, 0x81, 0x0E]);
    run(&mut c, 2);
    assert_eq!(c.register(1), 0x02);
    assert_eq!(c.register(0xF), 1);
}

#[test]
fn skip_if_equal_immediate() {
    let mut c = boot(&[0x6A, 0x05, 0x3A, 0x05]);
    run(&mut c, 2);
    assert_eq!(c.pc(), 0x206);

    let mut c = boot(&[0x6A, 0x05, 0x3A, 0x06]);
    run(&mut c, 2);
    assert_eq!(c.pc(), 0x204);
}

#[test]
fn skip_if_not_equal_immediate() {
    let mut c = boot(&[0x6A, 0x05, 0x4A, 0x06]);
    run(&mut c, 2);
    assert_eq!(c.pc(), 0x206);

    let mut c = boot(&[0x6A, 0x05, 0x4A, 0x05]);
    run(&mut c, 2);
    assert_eq!(c.pc(), 0x204);
}

#[test]
fn skip_on_register_comparison() {
    let mut c = boot(&[0x61, 0x05, 0x62, 0x05, 0x51, 0x20]);
    run(&mut c, 3);
    assert_eq!(c.pc(), 0x208);

    let mut c = boot(&[0x61, 0x05, 0x62, 0x06, 0x91, 0x20]);
    run(&mut c, 3);
    assert_eq!(c.pc(), 0x208);

    let mut c = boot(&[0x61, 0x05, 0x62, 0x06, 0x51, 0x20]);
    run(&mut c, 3);
    assert_eq!(c.pc(), 0x206);
}

#[test]
fn jump_absolute() {
    let mut c = boot(&[0x12, 0x34]);
    run(&mut c, 1);
    assert_eq!(c.pc(), 0x234);
}

#[test]
fn jump_with_offset_quirk() {
    // The offset is the whole opcode times 0x0FFF, truncated to 16 bits:
    // 0xB001 * 0x0FFF mod 0x10000 = 0x5FFF, plus V0 = 0.
    let mut c = boot(&[0xB0, 0x01]);
    run(&mut c, 1);
    assert_eq!(c.pc(), 0x5FFF);
}

#[test]
fn random_masked_to_zero() {
    let mut c = boot(&[0xC5, 0x00]);
    run(&mut c, 1);
    assert_eq!(c.register(5), 0);
    assert_eq!(c.pc(), 0x202);
}

#[test]
fn random_with_known_byte_is_masked() {
    let mut c = boot(&[0xC5, 0x0F]);
    assert_eq!(c.cycle_with_random(0xAB), Ok(None));
    assert_eq!(c.register(5), 0x0B);
}

#[test]
fn set_index() {
    let mut c = boot(&[0xA1, 0x23]);
    run(&mut c, 1);
    assert_eq!(c.index_register(), 0x123);
}

#[test]
fn add_to_index_wraps_at_twelve_bits() {
    let mut c = boot(&[0xAF, 0xFF, 0x60, 0x02, 0xF0, 0x1E]);
    run(&mut c, 3);
    assert_eq!(c.index_register(), 0x001);
}

#[test]
fn font_address_uses_low_nibble() {
    let mut c = boot(&[0x6A, 0x2B, 0xFA, 0x29]);
    run(&mut c, 2);
    assert_eq!(c.index_register(), 5 * 0xB);
}

#[test]
fn binary_coded_decimal() {
    let mut c = boot(&[0x6A, 0x9F, 0xAE, 0x00, 0xFA, 0x33]);
    run(&mut c, 3);
    assert_eq!(c.memory_at(0xE00), 1);
    assert_eq!(c.memory_at(0xE01), 5);
    assert_eq!(c.memory_at(0xE02), 9);
}

#[test]
fn register_dump_and_load_round_trip() {
    let mut c = boot(&[
        0x60, 0x01, 0x61, 0x02, 0x62, 0x03, // V0..V2 = 1, 2, 3
        0xAE, 0x00, // I = 0xE00
        0xF2, 0x55, // dump V0..V2
        0x60, 0x00, 0x61, 0x00, 0x62, 0x00, // zero them again
        0xF2, 0x65, // load V0..V2 back
    ]);
    run(&mut c, 5);
    assert_eq!(c.memory_at(0xE00), 1);
    assert_eq!(c.memory_at(0xE01), 2);
    assert_eq!(c.memory_at(0xE02), 3);
    run(&mut c, 3);
    assert_eq!(c.register(0), 0);
    assert_eq!(c.register(1), 0);
    assert_eq!(c.register(2), 0);
    run(&mut c, 1);
    assert_eq!(c.register(0), 1);
    assert_eq!(c.register(1), 2);
    assert_eq!(c.register(2), 3);
}

#[test]
fn delay_timer_set_and_read() {
    let mut c = boot(&[0x6A, 0x03, 0xFA, 0x15, 0xF1, 0x07]);
    run(&mut c, 2);
    // The cycle that set the timer to 3 already counted it down once.
    assert_eq!(c.delay(), 2);
    run(&mut c, 1);
    assert_eq!(c.register(1), 2);
    assert_eq!(c.delay(), 1);
}
