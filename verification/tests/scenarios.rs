//! End-to-end scenarios: whole instructions, traps, and keyboard polls run
//! against a fresh machine, with exact expected values.

use lc3_vm::hardware::{Termination, KBDR, KBSR};
use lc3_vm::instructions::process;
use lc3_vm::run::main_loop;
use lc3_vm::utils::{setup_default_test, setup_test_with_input};

#[test]
fn add_register_positive() {
    let mut hardware = setup_default_test();
    hardware.registers.set(2, 15);
    hardware.registers.set(3, 15);
    process(0x1283, &mut hardware).unwrap();

    assert_eq!(hardware.registers.get(1), 30);
    assert!(hardware.flags.is_positive());
}

#[test]
fn add_immediate_negative() {
    let mut hardware = setup_default_test();
    hardware.registers.set(2, 10);
    process(0x12B1, &mut hardware).unwrap();

    assert_eq!(hardware.registers.get(1) as i16, -5);
    assert!(hardware.flags.is_negative());
}

#[test]
fn and_register() {
    let mut hardware = setup_default_test();
    hardware.registers.set(2, 0x0CF0);
    hardware.registers.set(3, 0x0F30);
    process(0x5283, &mut hardware).unwrap();

    assert_eq!(hardware.registers.get(1), 0x0C30);
    assert!(hardware.flags.is_positive());
}

#[test]
fn ldi_indirect() {
    let mut hardware = setup_default_test();
    hardware.memory.set(0x3000, 0xA200);
    hardware.memory.set(0x3001, 0x3003);
    hardware.memory.set(0x3003, 0x0FF0);

    // one full fetch-execute cycle from PC = 0x3000
    assert_eq!(main_loop(&mut hardware, 1), None);

    assert_eq!(hardware.registers.get(1), 0x0FF0);
    assert!(hardware.flags.is_positive());
    assert_eq!(hardware.program_counter.get(), 0x3001);
}

#[test]
fn jsr_long() {
    let mut hardware = setup_default_test();
    hardware.memory.set(0x3000, 0x4802);

    assert_eq!(main_loop(&mut hardware, 1), None);

    assert_eq!(hardware.program_counter.get(), 0x3003);
    assert_eq!(hardware.registers.get(7), 0x3001);
}

#[test]
fn puts_hello_world() {
    let mut hardware = setup_default_test();
    hardware.registers.set(0, 0x3100);
    let words: Vec<u16> = "Hello World!".bytes().map(|b| b as u16).collect();
    hardware.memory.load(0x3100, &words).unwrap();
    hardware.memory.set(0x310C, 0);

    process(0xF022, &mut hardware).unwrap();

    assert_eq!(hardware.io.1, b"Hello World!");
}

#[test]
fn halt_stops_the_run() {
    let mut hardware = setup_default_test();
    hardware.memory.set(0x3000, 0xF025);
    // a word that would write R1 if it were ever fetched
    hardware.memory.set(0x3001, 0x1263);

    assert_eq!(main_loop(&mut hardware, 100), Some(Termination::NormalHalt));

    // no further fetches: the counter sits one past HALT and R1 is untouched
    assert_eq!(hardware.program_counter.get(), 0x3001);
    assert_eq!(hardware.registers.get(1), 0);
}

#[test]
fn keyboard_poll_ready() {
    let mut hardware = setup_test_with_input("H");

    let status = hardware.get_memory(KBSR).unwrap();

    assert_eq!(status, 0x8000);
    assert_eq!(hardware.memory.get(KBDR), 0x48);
    assert_eq!(hardware.memory.get(KBSR), 0x8000);
}

#[test]
fn keyboard_poll_zero_byte() {
    let mut hardware = setup_test_with_input("\0");
    hardware.memory.set(KBSR, 0x8000);

    let status = hardware.get_memory(KBSR).unwrap();

    assert_eq!(status, 0);
    assert_eq!(hardware.memory.get(KBSR), 0);
}

#[test]
fn keyboard_poll_blocks_without_input() {
    let mut hardware = setup_default_test();

    assert_eq!(hardware.get_memory(KBSR), Err(Termination::NeedInput));
    // an ordinary read never blocks
    assert_eq!(hardware.get_memory(0x3000), Ok(0));
}

#[test]
fn putsp_packs_two_bytes_per_word() {
    let mut hardware = setup_default_test();
    hardware.registers.set(0, 0x3100);
    // 'H' in the low byte, 'e' in the high byte; then 'l' alone
    hardware.memory.load(0x3100, &[0x6548, 0x006C, 0]).unwrap();

    process(0xF024, &mut hardware).unwrap();

    assert_eq!(hardware.io.1, b"Hel");
}

#[test]
fn unknown_trap_is_fatal() {
    let mut hardware = setup_default_test();

    assert_eq!(process(0xF0FF, &mut hardware), Err(Termination::UnknownTrap(0xFF)));
    // the machine is exactly as it was
    assert_eq!(hardware.program_counter.get(), 0x3000);
    assert!(hardware.flags.is_zero());
}

#[test]
fn getc_blocks_without_input() {
    let mut hardware = setup_default_test();

    assert_eq!(process(0xF020, &mut hardware), Err(Termination::NeedInput));
    assert_eq!(hardware.registers.get(0), 0);
    assert!(hardware.flags.is_zero());
}

#[test]
fn rti_and_reserved_are_no_ops() {
    let mut hardware = setup_default_test();
    hardware.registers.set(2, 7);

    process(0x8000, &mut hardware).unwrap();
    process(0xD123, &mut hardware).unwrap();

    assert_eq!(hardware.program_counter.get(), 0x3000);
    assert_eq!(hardware.registers.get(2), 7);
    assert!(hardware.flags.is_zero());
}

#[test]
fn flags_match_signed_interpretation() {
    let mut hardware = setup_default_test();
    let cases: Vec<(u16, i16)> = vec![
        (0, 0),
        (1, 1),
        (0x7FFF, 32767),
        (0x8000, -32768),
        (0xFFFF, -1),
    ];
    for (value, signed) in cases {
        hardware.flags.set(value);
        let n = hardware.flags.is_negative();
        let z = hardware.flags.is_zero();
        let p = hardware.flags.is_positive();
        // exactly one code, and it is the sign of the value
        assert_eq!(n as u8 + z as u8 + p as u8, 1);
        assert_eq!(n, signed < 0);
        assert_eq!(z, signed == 0);
        assert_eq!(p, signed > 0);
    }
}

#[test]
fn pc_advances_by_one_on_plain_instructions() {
    let mut hardware = setup_default_test();
    hardware.memory.set(0x3000, 0x1263);  // ADD R1, R1, #3
    hardware.memory.set(0x3001, 0x5020);  // AND R0, R0, #0
    hardware.memory.set(0x3002, 0x967F);  // NOT R3, R1

    assert_eq!(main_loop(&mut hardware, 3), None);

    assert_eq!(hardware.program_counter.get(), 0x3003);
}

#[test]
fn written_register_drives_the_flags() {
    let mut hardware = setup_default_test();
    hardware.registers.set(2, 0x7FFF);
    hardware.registers.set(3, 1);
    // ADD R1, R2, R3 wraps into the negative range
    process(0x1283, &mut hardware).unwrap();

    assert_eq!(hardware.registers.get(1), 0x8000);
    assert!(hardware.flags.is_negative());
    // the sources are untouched
    assert_eq!(hardware.registers.get(2), 0x7FFF);
    assert_eq!(hardware.registers.get(3), 1);
}

#[test]
fn not_twice_restores_the_value() {
    let mut hardware = setup_default_test();
    hardware.registers.set(2, 0xA5C3);

    process(0x92BF, &mut hardware).unwrap();  // NOT R1, R2
    process(0x947F, &mut hardware).unwrap();  // NOT R2, R1

    assert_eq!(hardware.registers.get(2), 0xA5C3);
}

#[test]
fn st_then_ld_round_trips() {
    let mut hardware = setup_default_test();
    hardware.registers.set(2, 0xBEEF);

    process(0x3405, &mut hardware).unwrap();  // ST R2, #5
    process(0x2205, &mut hardware).unwrap();  // LD R1, #5

    assert_eq!(hardware.registers.get(1), 0xBEEF);
    assert_eq!(hardware.program_counter.get(), 0x3000);
}
