//! The trap dispatcher: OS-level service routines selected by the low byte
//! of a TRAP instruction. Character input lands in R0 and sets the flags;
//! string output walks memory from R0 until a zero word.

use vstd::prelude::*;

use crate::hardware::{Hardware, Termination, VmView};
use crate::instructions::{Step, set_reg_flag};
use crate::memory::MEMORY_SIZE;

verus! {

/// The low bytes of the words from `addr` up to but not including the
/// first zero word: what PUTS writes. A string that runs to the top of
/// memory without a terminator ends there.
pub open spec fn string_bytes(mem: Seq<u16>, addr: int) -> Seq<u8>
    decreases MEMORY_SIZE - addr,
{
    if addr < 0 || addr >= MEMORY_SIZE {
        Seq::empty()
    } else if mem[addr] == 0 {
        Seq::empty()
    } else {
        seq![(mem[addr] & 0xFF) as u8] + string_bytes(mem, addr + 1)
    }
}

/// What PUTSP writes: for each word up to the first zero word, the low
/// byte, then the high byte when it is nonzero.
pub open spec fn wide_string_bytes(mem: Seq<u16>, addr: int) -> Seq<u8>
    decreases MEMORY_SIZE - addr,
{
    if addr < 0 || addr >= MEMORY_SIZE {
        Seq::empty()
    } else if mem[addr] == 0 {
        Seq::empty()
    } else {
        let lo = (mem[addr] & 0xFF) as u8;
        let hi = (mem[addr] >> 8) as u8;
        (if hi == 0 {
            seq![lo]
        } else {
            seq![lo, hi]
        }) + wide_string_bytes(mem, addr + 1)
    }
}

/// The trap dispatcher's effect: the vector is the low byte of the
/// instruction word. GETC and IN read one byte into R0 and set the flags;
/// OUT, PUTS, and PUTSP write bytes; HALT ends the run; anything else is
/// an unknown vector. Flushes are no-ops on a buffered sink.
pub open spec fn exec_trap(s: VmView, i: u16) -> Step {
    let vector = i & 0xFF;
    if vector == 0x20 || vector == 0x23 {
        // GETC / IN
        if s.input.len() == 0 {
            Step::Blocked
        } else {
            let c = s.input[0];
            Step::Next(set_reg_flag(VmView { input: s.input.remove(0), ..s }, 0, c as u16))
        }
    } else if vector == 0x21 {
        // OUT
        Step::Next(VmView { output: s.output.push((s.regs[0] & 0xFF) as u8), ..s })
    } else if vector == 0x22 {
        // PUTS
        Step::Next(VmView { output: s.output + string_bytes(s.mem, s.regs[0] as int), ..s })
    } else if vector == 0x24 {
        // PUTSP
        Step::Next(VmView { output: s.output + wide_string_bytes(s.mem, s.regs[0] as int), ..s })
    } else if vector == 0x25 {
        // HALT
        Step::Halt
    } else {
        Step::BadTrap(vector)
    }
}

/// Dispatch the trap named by the low byte of `instruction`. `Ok` means
/// the run continues; an `Err` names why it cannot, and then the machine
/// is exactly as it was.
pub fn process(instruction: u16, hardware: &mut Hardware) -> (r: Result<(), Termination>)
    requires
        old(hardware).wf(),
    ensures
        final(hardware).wf(),
        match exec_trap(old(hardware)@, instruction) {
            Step::Next(s) => r == Ok::<(), Termination>(()) && final(hardware)@ == s,
            Step::Blocked => r == Err::<(), Termination>(Termination::NeedInput)
                && final(hardware)@ == old(hardware)@,
            Step::Halt => r == Err::<(), Termination>(Termination::NormalHalt)
                && final(hardware)@ == old(hardware)@,
            Step::BadTrap(v) => r == Err::<(), Termination>(Termination::UnknownTrap(v))
                && final(hardware)@ == old(hardware)@,
            Step::BadOpcode(_) => false,
        },
{
    match instruction & 0b0000_0000_1111_1111 {
        0b0000_0000_0010_0000 => {
            // GETC: read one byte into R0, high byte zero, and set flags
            if hardware.io.0.len() == 0 {
                return Err(Termination::NeedInput);
            }
            let c = hardware.io.0.remove(0);
            hardware.registers.set(0, c as u16);
            hardware.flags.set(c as u16);
            proof {
                assert(exec_trap(old(hardware)@, instruction) matches Step::Next(s)
                    && hardware@ =~= s);
            }
            Ok(())
        },
        0b0000_0000_0010_0001 => {
            // OUT: write the low byte of R0
            let c = hardware.registers.get(0);
            hardware.io.1.push((c & 0xFF) as u8);
            proof {
                assert(exec_trap(old(hardware)@, instruction) matches Step::Next(s)
                    && hardware@ =~= s);
            }
            Ok(())
        },
        0b0000_0000_0010_0010 => {
            // PUTS: write low bytes from R0 until a zero word, then flush
            // (a no-op on a buffered sink)
            let string_loc = hardware.registers.get(0);
            puts_loop(hardware, string_loc);
            proof {
                assert(exec_trap(old(hardware)@, instruction) matches Step::Next(s)
                    && hardware@ =~= s);
            }
            Ok(())
        },
        0b0000_0000_0010_0011 => {
            // IN: flush (a no-op on a buffered sink), then read one byte
            // into R0 and set flags
            if hardware.io.0.len() == 0 {
                return Err(Termination::NeedInput);
            }
            let c = hardware.io.0.remove(0);
            hardware.registers.set(0, c as u16);
            hardware.flags.set(c as u16);
            proof {
                assert(exec_trap(old(hardware)@, instruction) matches Step::Next(s)
                    && hardware@ =~= s);
            }
            Ok(())
        },
        0b0000_0000_0010_0100 => {
            // PUTSP: write low byte, then nonzero high byte, from R0 until
            // a zero word, then flush (a no-op on a buffered sink)
            let string_loc = hardware.registers.get(0);
            putsp_loop(hardware, string_loc);
            proof {
                assert(exec_trap(old(hardware)@, instruction) matches Step::Next(s)
                    && hardware@ =~= s);
            }
            Ok(())
        },
        0b0000_0000_0010_0101 => {
            // HALT
            Err(Termination::NormalHalt)
        },
        other => Err(Termination::UnknownTrap(other)),
    }
}

fn puts_loop(hardware: &mut Hardware, string_loc: u16)
    requires
        old(hardware).wf(),
    ensures
        final(hardware).wf(),
        final(hardware)@ == (VmView {
            output: old(hardware)@.output + string_bytes(old(hardware)@.mem, string_loc as int),
            ..old(hardware)@
        }),
{
    let mut address: u32 = string_loc as u32;
    loop
        invariant
            hardware.wf(),
            string_loc <= address <= MEMORY_SIZE,
            hardware@ == (VmView { output: hardware@.output, ..old(hardware)@ }),
            old(hardware)@.output + string_bytes(old(hardware)@.mem, string_loc as int)
                == hardware@.output + string_bytes(old(hardware)@.mem, address as int),
        ensures
            hardware.wf(),
            hardware@ == (VmView { output: hardware@.output, ..old(hardware)@ }),
            hardware@.output == old(hardware)@.output
                + string_bytes(old(hardware)@.mem, string_loc as int),
        decreases MEMORY_SIZE - address,
    {
        if address >= MEMORY_SIZE as u32 {
            // ran off the top of memory without a terminator
            proof {
                assert(hardware@.output + string_bytes(old(hardware)@.mem, address as int)
                    =~= hardware@.output);
            }
            break;
        }
        let c = hardware.memory.get(address as u16);
        if c == 0 {
            proof {
                assert(hardware@.output + string_bytes(old(hardware)@.mem, address as int)
                    =~= hardware@.output);
            }
            break;
        }
        let ghost out_before = hardware@.output;
        hardware.io.1.push((c & 0xFF) as u8);
        proof {
            assert(string_bytes(old(hardware)@.mem, address as int)
                == seq![(c & 0xFF) as u8] + string_bytes(old(hardware)@.mem, address + 1));
            assert(out_before + (seq![(c & 0xFF) as u8]
                + string_bytes(old(hardware)@.mem, address + 1))
                =~= hardware@.output + string_bytes(old(hardware)@.mem, address + 1));
        }
        address = address + 1;
    }
}

fn putsp_loop(hardware: &mut Hardware, string_loc: u16)
    requires
        old(hardware).wf(),
    ensures
        final(hardware).wf(),
        final(hardware)@ == (VmView {
            output: old(hardware)@.output
                + wide_string_bytes(old(hardware)@.mem, string_loc as int),
            ..old(hardware)@
        }),
{
    let mut address: u32 = string_loc as u32;
    loop
        invariant
            hardware.wf(),
            string_loc <= address <= MEMORY_SIZE,
            hardware@ == (VmView { output: hardware@.output, ..old(hardware)@ }),
            old(hardware)@.output + wide_string_bytes(old(hardware)@.mem, string_loc as int)
                == hardware@.output + wide_string_bytes(old(hardware)@.mem, address as int),
        ensures
            hardware.wf(),
            hardware@ == (VmView { output: hardware@.output, ..old(hardware)@ }),
            hardware@.output == old(hardware)@.output
                + wide_string_bytes(old(hardware)@.mem, string_loc as int),
        decreases MEMORY_SIZE - address,
    {
        if address >= MEMORY_SIZE as u32 {
            // ran off the top of memory without a terminator
            proof {
                assert(hardware@.output + wide_string_bytes(old(hardware)@.mem, address as int)
                    =~= hardware@.output);
            }
            break;
        }
        let c = hardware.memory.get(address as u16);
        if c == 0 {
            proof {
                assert(hardware@.output + wide_string_bytes(old(hardware)@.mem, address as int)
                    =~= hardware@.output);
            }
            break;
        }
        let ghost out_before = hardware@.output;
        let lo = (c & 0xFF) as u8;
        hardware.io.1.push(lo);
        let hi = (c >> 8) as u8;
        if hi != 0 {
            hardware.io.1.push(hi);
        }
        proof {
            assert(wide_string_bytes(old(hardware)@.mem, address as int)
                == (if (c >> 8) as u8 == 0 {
                    seq![(c & 0xFF) as u8]
                } else {
                    seq![(c & 0xFF) as u8, (c >> 8) as u8]
                }) + wide_string_bytes(old(hardware)@.mem, address + 1));
            assert(out_before + ((if (c >> 8) as u8 == 0 {
                seq![(c & 0xFF) as u8]
            } else {
                seq![(c & 0xFF) as u8, (c >> 8) as u8]
            }) + wide_string_bytes(old(hardware)@.mem, address + 1))
                =~= hardware@.output + wide_string_bytes(old(hardware)@.mem, address + 1));
        }
        address = address + 1;
    }
}

} // verus!
