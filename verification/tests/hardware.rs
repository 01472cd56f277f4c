use lc3_vm::hardware::{Hardware, KBDR, KBSR};
use lc3_vm::utils::setup_test_with_input;

#[test]
fn load_program() {
    let mut hardware = Hardware::default();

    hardware
        .load(&[
            0x3000,
            0b1110_0010_1111_1111,
            0b0101_0110_1110_0000,
            0b0101_0100_1010_0000,
            0b0001_0100_1010_1100,
            0b0000_0100_0000_0101,
            0b0110_1000_0100_0000,
            0b0001_0110_1100_0001,
            0b0001_0010_0110_0001,
            0b0001_0100_1011_1111,
            0b0000_1111_1111_1010,
        ])
        .unwrap();

    assert_eq!(hardware.memory.get(0x3000), 0b1110_0010_1111_1111);
    assert_eq!(hardware.memory.get(0x3005), 0b0110_1000_0100_0000);
    assert_eq!(hardware.memory.get(0x3009), 0b0000_1111_1111_1010);
    assert_eq!(hardware.memory.get(0x300A), 0b0000_0000_0000_0000);
}

#[test]
fn handle_keyboard() {
    let mut hardware = setup_test_with_input("H");
    hardware.handle_keyboard().unwrap();

    assert_eq!(hardware.memory.get(KBDR), 'H' as u16);
    assert_eq!(hardware.memory.get(KBSR), 1 << 15);
}
