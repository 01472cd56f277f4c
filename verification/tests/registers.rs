use lc3_vm::registers::{Flags, Registers};

#[test]
fn write_to_registers() {
    let mut registers = Registers::default();

    registers.set(0b0000_0000_0000_0000, 0b0000_0000_1111_0000);
    registers.set(0b0000_0000_0000_0101, 0b1000_1000_1000_1000);

    assert!(registers.get(0b0000_0000_0000_0101) == 0b1000_1000_1000_1000);
    assert!(registers.get(0b0000_0000_0000_0000) == 0b0000_0000_1111_0000);
}

#[test]
fn set_flags() {
    let mut flags = Flags::default();

    flags.set(0b1111_0000_1111_0000);
    assert!(flags.is_negative());

    flags.set(0b0000_0000_0000_0000);
    assert!(flags.is_zero());

    flags.set(0b0000_1111_1111_0000);
    assert!(flags.is_positive());
}
