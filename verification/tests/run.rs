//! The loader and the fetch loop: object images, step budgets, blocking on
//! input, and the ways a run can end.

use lc3_vm::hardware::{Hardware, Termination};
use lc3_vm::memory::{LoadError, Memory};
use lc3_vm::run::{main_loop, run, words_from_bytes};
use lc3_vm::utils::setup_default_test;

#[test]
fn words_from_bytes_big_endian() {
    let words = words_from_bytes(&[0x30, 0x00, 0x12, 0x83]).unwrap();
    assert_eq!(words, vec![0x3000, 0x1283]);

    let empty = words_from_bytes(&[]).unwrap();
    assert!(empty.is_empty());
}

#[test]
fn words_from_bytes_rejects_odd_images() {
    assert_eq!(words_from_bytes(&[0x30, 0x00, 0x12]), Err(LoadError::OddByteCount));
}

#[test]
fn load_rejects_empty_image() {
    let mut hardware = Hardware::default();
    assert_eq!(hardware.load(&[]), Err(LoadError::EmptyImage));
    assert_eq!(hardware.program_counter.get(), 0x3000);
}

#[test]
fn load_rejects_program_past_end_of_memory() {
    let mut hardware = Hardware::default();
    assert_eq!(hardware.load(&[0xFFFF, 1, 2]), Err(LoadError::ProgramTooBig));
    // the origin had already reached the program counter when the copy
    // was refused
    assert_eq!(hardware.program_counter.get(), 0xFFFF);
    assert_eq!(hardware.memory.get(0xFFFF), 0);
}

#[test]
fn memory_load_rejects_overflow() {
    let mut memory = Memory::default();
    assert_eq!(memory.load(0xFFFE, &[1, 2, 3]), Err(LoadError::ProgramTooBig));
    assert_eq!(memory.get(0xFFFE), 0);

    // exactly to the top cell is fine
    memory.load(0xFFFE, &[1, 2]).unwrap();
    assert_eq!(memory.get(0xFFFE), 1);
    assert_eq!(memory.get(0xFFFF), 2);
}

#[test]
fn main_loop_spends_its_budget_on_zero_words() {
    let mut hardware = setup_default_test();

    assert_eq!(main_loop(&mut hardware, 10), None);
    assert_eq!(hardware.program_counter.get(), 0x300A);
}

#[test]
fn main_loop_stops_at_top_of_memory() {
    let mut hardware = setup_default_test();
    hardware.program_counter.set(0xFFFF);

    assert_eq!(main_loop(&mut hardware, 100), Some(Termination::PcOutOfRange));
    assert_eq!(hardware.program_counter.get(), 0xFFFF);
}

#[test]
fn main_loop_reports_unknown_traps() {
    let mut hardware = setup_default_test();
    hardware.memory.set(0x3000, 0xF0FF);

    assert_eq!(main_loop(&mut hardware, 100), Some(Termination::UnknownTrap(0xFF)));
}

#[test]
fn main_loop_blocks_and_resumes_on_input() {
    let mut hardware = setup_default_test();
    hardware.memory.set(0x3000, 0xF020);  // GETC
    hardware.memory.set(0x3001, 0xF025);  // HALT

    // no byte ready: the counter is back on the blocked GETC
    assert_eq!(main_loop(&mut hardware, 100), Some(Termination::NeedInput));
    assert_eq!(hardware.program_counter.get(), 0x3000);
    assert_eq!(hardware.registers.get(0), 0);

    // feed a byte and resume
    hardware.io.0.push(b'A');
    assert_eq!(main_loop(&mut hardware, 100), Some(Termination::NormalHalt));
    assert_eq!(hardware.registers.get(0), 'A' as u16);
    assert!(hardware.flags.is_positive());
}

#[test]
fn run_loads_and_halts() {
    let mut hardware = setup_default_test();
    // origin 0x3000: ADD R1, R1, #7 then HALT
    let outcome = run(&[0x3000, 0x1267, 0xF025], &mut hardware, 100).unwrap();

    assert_eq!(outcome, Some(Termination::NormalHalt));
    assert_eq!(hardware.registers.get(1), 7);
    assert_eq!(hardware.program_counter.get(), 0x3002);
}

#[test]
fn run_reports_load_errors() {
    let mut hardware = setup_default_test();
    assert_eq!(run(&[], &mut hardware, 100), Err(LoadError::EmptyImage));
    assert_eq!(run(&[0xFFFF, 1, 2], &mut hardware, 100), Err(LoadError::ProgramTooBig));
}
