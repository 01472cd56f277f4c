use lc3_vm::instructions::process;
use lc3_vm::utils::setup_default_test;

#[test]
fn add() {
    let mut hardware = setup_default_test();
    hardware.registers.set(2, 15);
    hardware.registers.set(3, 15);
    process(0b0001_0010_1000_0011u16, &mut hardware).unwrap();

    assert!(hardware.registers.get(1) == 30);
    assert!(hardware.flags.is_positive());

    let mut hardware = setup_default_test();
    hardware.registers.set(2, 10);
    process(0b0001_0010_1011_0001u16, &mut hardware).unwrap();

    assert!(hardware.registers.get(1) as i16 == -5);
    assert!(hardware.flags.is_negative());
}

#[test]
fn and() {
    let mut hardware = setup_default_test();
    hardware.registers.set(2, 0b0000_1100_1111_0000);
    hardware.registers.set(3, 0b0000_1111_0011_0000);
    process(0b0101_0010_1000_0011u16, &mut hardware).unwrap();

    assert!(hardware.registers.get(1) == 0b0000_1100_0011_0000);
    assert!(hardware.flags.is_positive());

    let mut hardware = setup_default_test();
    hardware.registers.set(2, 0b1111_1111_0000_0000);
    process(0b0101_0010_1011_0001u16, &mut hardware).unwrap();

    assert_eq!(hardware.registers.get(1), 0b1111_1111_0000_0000);
    assert!(hardware.flags.is_negative());
}

#[test]
fn br() {
    let mut hardware = setup_default_test();
    hardware.flags.set_zero();
    process(0b0000_1100_0000_0010, &mut hardware).unwrap();

    assert_eq!(hardware.program_counter.get(), 0x3002);

    let mut hardware = setup_default_test();
    process(0b0000_0010_0000_0010, &mut hardware).unwrap();

    assert_eq!(hardware.program_counter.get(), 0x3000);
}

#[test]
fn jmp() {
    let mut hardware = setup_default_test();
    hardware.registers.set(2, 0x3002);
    process(0b1100_0000_1000_0000, &mut hardware).unwrap();

    assert_eq!(hardware.program_counter.get(), 0x3002);
}

#[test]
fn ret() {
    let mut hardware = setup_default_test();
    hardware.registers.set(7, 0x3002);
    process(0b1100_0001_1100_0000, &mut hardware).unwrap();

    assert_eq!(hardware.program_counter.get(), 0x3002);
}

#[test]
fn jsr() {
    let mut hardware = setup_default_test();
    process(0b0100_1000_0000_0010, &mut hardware).unwrap();

    assert_eq!(hardware.program_counter.get(), 0x3002);
    assert_eq!(hardware.registers.get(7), 0x3000);
}

#[test]
fn jsrr() {
    let mut hardware = setup_default_test();
    hardware.registers.set(2, 0x3002);
    process(0b0100_0000_1000_0000, &mut hardware).unwrap();

    assert_eq!(hardware.program_counter.get(), 0x3002);
    assert_eq!(hardware.registers.get(7), 0x3000);
}

#[test]
fn not() {
    let mut hardware = setup_default_test();
    hardware.registers.set(2, 0b1111_0000_0000_1111);
    process(0b1001_0010_1011_1111, &mut hardware).unwrap();

    assert_eq!(hardware.registers.get(1), 0b0000_1111_1111_0000);
    assert!(hardware.flags.is_positive());
}

#[test]
fn st() {
    let mut hardware = setup_default_test();
    hardware.registers.set(2, 0b0000_1111_1111_0000);
    process(0b0011_0100_0000_0010, &mut hardware).unwrap();

    assert_eq!(hardware.memory.get(0x3002), 0b0000_1111_1111_0000);
}

#[test]
fn sti() {
    let mut hardware = setup_default_test();
    hardware.registers.set(2, 0b0000_1111_1111_0000);
    hardware.memory.set(0x3002, 0b0011_0000_1000_0000);
    process(0b1011_0100_0000_0010, &mut hardware).unwrap();

    assert_eq!(hardware.memory.get(0x3080), 0b0000_1111_1111_0000);
}

#[test]
fn str() {
    let mut hardware = setup_default_test();
    hardware.registers.set(2, 0b0000_1111_1111_0000);
    hardware.registers.set(3, 0x307F);
    process(0b0111_0100_1100_0001, &mut hardware).unwrap();

    assert_eq!(hardware.memory.get(0x3080), 0b0000_1111_1111_0000);
}

#[test]
fn ld() {
    let mut hardware = setup_default_test();
    hardware.memory.set(0x3002, 0b0000_1111_1111_0000);
    process(0b0010_0010_0000_0010, &mut hardware).unwrap();

    assert_eq!(hardware.registers.get(1), 0b0000_1111_1111_0000);
    assert!(hardware.flags.is_positive());
}

#[test]
fn ldi() {
    let mut hardware = setup_default_test();
    hardware.memory.set(0x3000, 0b0011_0000_0000_0010);
    hardware.memory.set(0x3002, 0b0000_1111_1111_0000);
    process(0b1010_0010_0000_0000, &mut hardware).unwrap();

    assert_eq!(hardware.registers.get(1), 0b0000_1111_1111_0000);
    assert!(hardware.flags.is_positive());
}

#[test]
fn ldr() {
    let mut hardware = setup_default_test();
    hardware.registers.set(2, 0x3001);
    hardware.memory.set(0x3002, 0b0000_1111_1111_0000);
    process(0b0110_0010_1000_0001, &mut hardware).unwrap();

    assert_eq!(hardware.registers.get(1), 0b0000_1111_1111_0000);
    assert!(hardware.flags.is_positive());
}

#[test]
fn lea() {
    let mut hardware = setup_default_test();
    process(0b1110_0010_0000_1111, &mut hardware).unwrap();

    assert_eq!(hardware.registers.get(1), 0b0011_0000_0000_1111);
    assert!(hardware.flags.is_positive());
}
