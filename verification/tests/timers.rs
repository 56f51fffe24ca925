use chip8::Chip8;

fn boot(rom: &[u8]) -> Chip8 {
    let mut c = Chip8::initialize();
    c.load_rom(rom).unwrap();
    c
}

#[test]
fn sound_timer_of_one_pulses_exactly_once() {
    let mut c = boot(&[0x6A, 0x01, 0xFA, 0x18, 0x00, 0x00, 0x00, 0x00]);
    c.cycle().unwrap();
    assert!(!c.sound_on());
    // The cycle that sets the timer to 1 also counts it down to 0,
    // reporting the single sound-on edge.
    c.cycle().unwrap();
    assert!(c.sound_on());
    assert_eq!(c.sound(), 0);
    // With the timer already at 0, no further edge is reported.
    c.cycle().unwrap();
    assert!(!c.sound_on());
    assert_eq!(c.sound(), 0);
}

#[test]
fn sound_timer_pulses_on_the_transition_to_zero() {
    let mut c = boot(&[0x6A, 0x02, 0xFA, 0x18, 0x00, 0x00, 0x00, 0x00]);
    c.cycle().unwrap();
    c.cycle().unwrap();
    assert_eq!(c.sound(), 1);
    assert!(!c.sound_on());
    c.cycle().unwrap();
    assert_eq!(c.sound(), 0);
    assert!(c.sound_on());
    c.cycle().unwrap();
    assert!(!c.sound_on());
}

#[test]
fn delay_timer_counts_down_to_zero_and_stops() {
    let mut c = boot(&[0x6A, 0x02, 0xFA, 0x15, 0x00, 0x00, 0x00, 0x00, 0x00, 0x00]);
    c.cycle().unwrap();
    assert_eq!(c.delay(), 0);
    c.cycle().unwrap();
    assert_eq!(c.delay(), 1);
    c.cycle().unwrap();
    assert_eq!(c.delay(), 0);
    c.cycle().unwrap();
    assert_eq!(c.delay(), 0);
}
