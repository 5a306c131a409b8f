use avr_gpio::addresses::{
    Bank, DDRB, DDRC, DDRD, PINB, PINC, PIND, PORTB, PORTC, PORTD, REGISTER_SPACE,
};
use avr_gpio::registers::RegisterFile;
use avr_gpio::{Pin, DD, PIN_COUNT};

fn resolve(pid: u8) -> Pin {
    match Pin::from_pid(pid) {
        Some(pin) => pin,
        None => panic!("pid {} should name a pin", pid),
    }
}

fn registers_with(values: &[(usize, u8)]) -> RegisterFile {
    let mut regs = RegisterFile::new();
    for &(addr, value) in values {
        regs.store(addr, value);
    }
    regs
}

#[test]
fn pids_below_eight_are_on_bank_d() {
    for pid in 0u8..8 {
        let pin = resolve(pid);
        assert_eq!(pin.ddr(), DDRD);
        assert_eq!(pin.port(), PORTD);
        assert_eq!(pin.pin(), PIND);
        assert_eq!(pin.mask(), 1u8 << pid);
    }
}

#[test]
fn pids_eight_to_thirteen_are_on_bank_b() {
    for pid in 8u8..14 {
        let pin = resolve(pid);
        assert_eq!(pin.ddr(), DDRB);
        assert_eq!(pin.port(), PORTB);
        assert_eq!(pin.pin(), PINB);
        assert_eq!(pin.mask(), 1u8 << (pid - 8));
    }
}

#[test]
fn pids_fourteen_to_nineteen_are_on_bank_c() {
    for pid in 14u8..20 {
        let pin = resolve(pid);
        assert_eq!(pin.ddr(), DDRC);
        assert_eq!(pin.port(), PORTC);
        assert_eq!(pin.pin(), PINC);
        assert_eq!(pin.mask(), 1u8 << (pid - 14));
    }
}

#[test]
fn pids_from_twenty_do_not_resolve() {
    for pid in 20u8..=255 {
        assert!(Pin::from_pid(pid).is_none());
    }
    assert_eq!(PIN_COUNT, 20);
}

#[test]
fn bank_addresses_match_the_part() {
    assert_eq!((Bank::B.ddr(), Bank::B.port(), Bank::B.pin()), (0x24, 0x25, 0x23));
    assert_eq!((Bank::C.ddr(), Bank::C.port(), Bank::C.pin()), (0x27, 0x28, 0x26));
    assert_eq!((Bank::D.ddr(), Bank::D.port(), Bank::D.pin()), (0x2A, 0x2B, 0x29));
}

#[test]
fn register_file_starts_cleared_and_stores_one_cell() {
    let mut regs = RegisterFile::new();
    for addr in 0..REGISTER_SPACE {
        assert_eq!(regs.load(addr), 0);
    }
    regs.store(0x2B, 0x5A);
    assert_eq!(regs.load(0x2B), 0x5A);
    assert_eq!(regs.load(0x2A), 0);
    assert_eq!(regs.load(0x2C), 0);
}

#[test]
fn set_ddr_changes_only_the_pin_bit() {
    let pin = resolve(10);
    let mut regs = registers_with(&[(DDRB, 0b1010_1010), (PORTB, 0x33), (DDRD, 0x77)]);
    pin.set_ddr(&mut regs, DD::Output);
    assert_eq!(regs.load(DDRB), 0b1010_1110);
    assert_eq!(regs.load(PORTB), 0x33);
    assert_eq!(regs.load(DDRD), 0x77);
    pin.set_ddr(&mut regs, DD::Input);
    assert_eq!(regs.load(DDRB), 0b1010_1010);

    let pin = resolve(1);
    let mut regs = registers_with(&[(DDRD, 0xFF)]);
    pin.set_ddr(&mut regs, DD::Input);
    assert_eq!(regs.load(DDRD), 0b1111_1101);
    pin.set_ddr(&mut regs, DD::Input);
    assert_eq!(regs.load(DDRD), 0b1111_1101);
}

#[test]
fn write_high_then_low_restores_output_register() {
    let pin = resolve(3);
    let mut regs = registers_with(&[(PORTD, 0b1100_0001)]);
    pin.write(&mut regs, true);
    assert_eq!(regs.load(PORTD), 0b1100_1001);
    pin.write(&mut regs, false);
    assert_eq!(regs.load(PORTD), 0b1100_0001);

    let mut regs = registers_with(&[(PORTD, 0b0000_1000)]);
    pin.write(&mut regs, true);
    pin.write(&mut regs, false);
    assert_eq!(regs.load(PORTD), 0);
}

#[test]
fn set_input_then_read_sees_forced_level() {
    let pin = resolve(16);
    let mut regs = registers_with(&[(DDRC, 0xFF), (PORTC, 0xFF)]);
    pin.set_input(&mut regs);
    assert_eq!(regs.load(DDRC), 0b1111_1011);
    assert_eq!(regs.load(PORTC), 0b1111_1011);
    assert!(!pin.read(&regs));
    regs.store(PINC, 0b0000_0100);
    assert!(pin.read(&regs));
    regs.store(PINC, 0b1111_1011);
    assert!(!pin.read(&regs));
}

#[test]
fn set_input_pullup_clears_direction_and_sets_output_bit() {
    let pin = resolve(13);
    let mut regs = registers_with(&[(DDRB, 0xFF), (PORTB, 0x00)]);
    pin.set_input_pullup(&mut regs);
    assert_eq!(regs.load(DDRB), 0b1101_1111);
    assert_eq!(regs.load(PORTB), 0b0010_0000);
}

#[test]
fn set_output_keeps_output_register() {
    let pin = resolve(19);
    let mut regs = registers_with(&[(DDRC, 0x00), (PORTC, 0b1010_0000)]);
    pin.set_output(&mut regs);
    assert_eq!(regs.load(DDRC), 0b0010_0000);
    assert_eq!(regs.load(PORTC), 0b1010_0000);
}

#[test]
fn resolving_twice_gives_identical_pins() {
    for pid in 0u8..PIN_COUNT {
        let first = resolve(pid);
        let second = resolve(pid);
        assert!(first == second);
        assert_eq!(first.ddr(), second.ddr());
        assert_eq!(first.port(), second.port());
        assert_eq!(first.pin(), second.pin());
        assert_eq!(first.mask(), second.mask());
    }
}

#[test]
fn end_to_end_example() {
    let pin = resolve(5);
    assert_eq!(pin.ddr(), DDRD);
    assert_eq!(pin.mask(), 0b0010_0000);
    let pin = resolve(10);
    assert_eq!(pin.ddr(), DDRB);
    assert_eq!(pin.mask(), 0b0000_0100);
    let pin = resolve(16);
    assert_eq!(pin.ddr(), DDRC);
    assert_eq!(pin.mask(), 0b0000_0100);
    assert!(Pin::from_pid(20).is_none());

    let pin = resolve(7);
    let mut regs = RegisterFile::new();
    pin.set_ddr(&mut regs, DD::Output);
    pin.write(&mut regs, true);
    assert_eq!(regs.load(DDRD), 0b1000_0000);
    assert_eq!(regs.load(PORTD) & pin.mask(), pin.mask());
}
