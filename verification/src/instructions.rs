//! The instruction executor: the opcode is the top nibble of the
//! instruction word, and each opcode's effect on the machine is written
//! down as a spec-level interpreter ([`exec_instr`]) that the executable
//! [`process`] is proved to follow exactly.
//!
//! The program counter has already been advanced past the instruction when
//! an instruction executes.

use vstd::prelude::*;

use crate::hardware::{Hardware, Termination, VmView, mem_read_spec};
use crate::registers::{Flag, flag_of};
use crate::traps;
use crate::utils::{
    add16, imm5, offset6, pcoffset9, pcoffset11, register_at, spec_imm5, spec_offset6,
    spec_pcoffset9, spec_pcoffset11, spec_register_at,
};

verus! {

/// What one instruction does to the machine.
pub enum Step {
    /// The instruction completed and the run continues in this state.
    Next(VmView),
    /// The instruction needs an input byte that is not there; the machine
    /// is unchanged.
    Blocked,
    /// The HALT trap ran; the machine is unchanged and the run is over.
    Halt,
    /// A TRAP instruction named an unknown vector; the machine is
    /// unchanged and the run is over.
    BadTrap(u16),
    /// The word decoded to no opcode; the machine is unchanged. The opcode
    /// is the top nibble, so no word reaches this.
    BadOpcode(u16),
}

/// Write `value` into register `dr` and select the matching condition code.
pub open spec fn set_reg_flag(s: VmView, dr: u16, value: u16) -> VmView {
    VmView { regs: s.regs.update(dr as int, value), flag: flag_of(value), ..s }
}

/// BR: branch when one of the instruction's n/z/p bits matches the current
/// condition code; with n, z, p all clear the instruction is a no-op.
pub open spec fn exec_br(s: VmView, i: u16) -> VmView {
    let cond = ((i & 0x0800) == 0x0800 && s.flag == Flag::Negative)
        || ((i & 0x0400) == 0x0400 && s.flag == Flag::Zero)
        || ((i & 0x0200) == 0x0200 && s.flag == Flag::Positive);
    if cond {
        VmView { pc: add16(s.pc, spec_pcoffset9(i)), ..s }
    } else {
        s
    }
}

/// ADD: DR gets SR1 plus either SR2 or the sign-extended imm5, wrapping
/// modulo 2^16; the flags follow the written value.
pub open spec fn exec_add(s: VmView, i: u16) -> VmView {
    let operand = if i & 0x0020 == 0 {
        s.regs[spec_register_at(i, 0) as int]
    } else {
        spec_imm5(i)
    };
    set_reg_flag(s, spec_register_at(i, 9), add16(s.regs[spec_register_at(i, 6) as int], operand))
}

/// AND: DR gets SR1 bitwise-and either SR2 or the sign-extended imm5.
pub open spec fn exec_and(s: VmView, i: u16) -> VmView {
    let operand = if i & 0x0020 == 0 {
        s.regs[spec_register_at(i, 0) as int]
    } else {
        spec_imm5(i)
    };
    set_reg_flag(s, spec_register_at(i, 9), s.regs[spec_register_at(i, 6) as int] & operand)
}

/// LD: DR gets the word at PC plus the sign-extended pcoffset9.
pub open spec fn exec_ld(s: VmView, i: u16) -> Step {
    match mem_read_spec(s, add16(s.pc, spec_pcoffset9(i))) {
        Some((s2, v)) => Step::Next(set_reg_flag(s2, spec_register_at(i, 9), v)),
        None => Step::Blocked,
    }
}

/// ST: the word at PC plus the sign-extended pcoffset9 gets SR. Stores
/// never poll the keyboard and never touch the flags.
pub open spec fn exec_st(s: VmView, i: u16) -> VmView {
    VmView {
        mem: s.mem.update(
            add16(s.pc, spec_pcoffset9(i)) as int,
            s.regs[spec_register_at(i, 9) as int],
        ),
        ..s
    }
}

/// JSR/JSRR: R7 gets the current PC first; then PC becomes either PC plus
/// the sign-extended pcoffset11 (bit 11 set) or the base register's value,
/// read after the R7 write.
pub open spec fn exec_jsr(s: VmView, i: u16) -> VmView {
    let saved = VmView { regs: s.regs.update(7, s.pc), ..s };
    let target = if i & 0x0800 == 0 {
        saved.regs[spec_register_at(i, 6) as int]
    } else {
        add16(s.pc, spec_pcoffset11(i))
    };
    VmView { pc: target, ..saved }
}

/// LDR: DR gets the word at the base register plus the sign-extended
/// offset6.
pub open spec fn exec_ldr(s: VmView, i: u16) -> Step {
    match mem_read_spec(s, add16(s.regs[spec_register_at(i, 6) as int], spec_offset6(i))) {
        Some((s2, v)) => Step::Next(set_reg_flag(s2, spec_register_at(i, 9), v)),
        None => Step::Blocked,
    }
}

/// STR: the word at the base register plus the sign-extended offset6
/// gets SR.
pub open spec fn exec_str(s: VmView, i: u16) -> VmView {
    VmView {
        mem: s.mem.update(
            add16(s.regs[spec_register_at(i, 6) as int], spec_offset6(i)) as int,
            s.regs[spec_register_at(i, 9) as int],
        ),
        ..s
    }
}

/// NOT: DR gets the bitwise complement of SR.
pub open spec fn exec_not(s: VmView, i: u16) -> VmView {
    set_reg_flag(s, spec_register_at(i, 9), !s.regs[spec_register_at(i, 6) as int])
}

/// LDI: the word at PC plus the sign-extended pcoffset9 is an address, and
/// DR gets the word there. Either read may poll the keyboard; only the
/// second can block, and then nothing has changed.
pub open spec fn exec_ldi(s: VmView, i: u16) -> Step {
    match mem_read_spec(s, add16(s.pc, spec_pcoffset9(i))) {
        Some((s2, loc)) => match mem_read_spec(s2, loc) {
            Some((s3, v)) => Step::Next(set_reg_flag(s3, spec_register_at(i, 9), v)),
            None => Step::Blocked,
        },
        None => Step::Blocked,
    }
}

/// STI: the word at PC plus the sign-extended pcoffset9 is an address, and
/// the word there gets SR.
pub open spec fn exec_sti(s: VmView, i: u16) -> Step {
    match mem_read_spec(s, add16(s.pc, spec_pcoffset9(i))) {
        Some((s2, loc)) => Step::Next(
            VmView { mem: s2.mem.update(loc as int, s2.regs[spec_register_at(i, 9) as int]), ..s2 },
        ),
        None => Step::Blocked,
    }
}

/// JMP/RET: PC gets the base register's value; RET is JMP through R7.
pub open spec fn exec_jmp(s: VmView, i: u16) -> VmView {
    VmView { pc: s.regs[spec_register_at(i, 6) as int], ..s }
}

/// LEA: DR gets the address PC plus the sign-extended pcoffset9 itself,
/// and the flags follow that address value.
pub open spec fn exec_lea(s: VmView, i: u16) -> VmView {
    set_reg_flag(s, spec_register_at(i, 9), add16(s.pc, spec_pcoffset9(i)))
}

/// The whole instruction set: dispatch on the top nibble. RTI (0x8) and
/// the reserved opcode (0xD) are no-ops in this user-mode machine.
pub open spec fn exec_instr(s: VmView, i: u16) -> Step {
    let op = i >> 12;
    if op == 0x0 {
        Step::Next(exec_br(s, i))
    } else if op == 0x1 {
        Step::Next(exec_add(s, i))
    } else if op == 0x2 {
        exec_ld(s, i)
    } else if op == 0x3 {
        Step::Next(exec_st(s, i))
    } else if op == 0x4 {
        Step::Next(exec_jsr(s, i))
    } else if op == 0x5 {
        Step::Next(exec_and(s, i))
    } else if op == 0x6 {
        exec_ldr(s, i)
    } else if op == 0x7 {
        Step::Next(exec_str(s, i))
    } else if op == 0x8 {
        Step::Next(s)
    } else if op == 0x9 {
        Step::Next(exec_not(s, i))
    } else if op == 0xA {
        exec_ldi(s, i)
    } else if op == 0xB {
        exec_sti(s, i)
    } else if op == 0xC {
        Step::Next(exec_jmp(s, i))
    } else if op == 0xD {
        Step::Next(s)
    } else if op == 0xE {
        Step::Next(exec_lea(s, i))
    } else if op == 0xF {
        traps::exec_trap(s, i)
    } else {
        Step::BadOpcode(op)
    }
}

fn op_br(instruction: u16, hardware: &mut Hardware)
    requires
        old(hardware).wf(),
    ensures
        final(hardware).wf(),
        final(hardware)@ == exec_br(old(hardware)@, instruction),
{
    let n = (instruction & 0b0000_1000_0000_0000) == 0b0000_1000_0000_0000;
    let z = (instruction & 0b0000_0100_0000_0000) == 0b0000_0100_0000_0000;
    let p = (instruction & 0b0000_0010_0000_0000) == 0b0000_0010_0000_0000;

    if n && hardware.flags.is_negative() || z && hardware.flags.is_zero() || p
        && hardware.flags.is_positive() {
        let offset = pcoffset9(instruction);
        let loc = crate::utils::wrap_add(hardware.program_counter.get(), offset);
        hardware.program_counter.set(loc);
    }
    proof {
        assert(hardware@ =~= exec_br(old(hardware)@, instruction));
    }
}

fn op_add(instruction: u16, hardware: &mut Hardware)
    requires
        old(hardware).wf(),
    ensures
        final(hardware).wf(),
        final(hardware)@ == exec_add(old(hardware)@, instruction),
{
    let dr = register_at(instruction, 9);
    let sr1 = register_at(instruction, 6);

    let operand = if instruction & 0b0000_0000_0010_0000 == 0 {
        let sr2 = register_at(instruction, 0);
        hardware.registers.get(sr2)
    } else {
        imm5(instruction)
    };
    let value = crate::utils::wrap_add(hardware.registers.get(sr1), operand);

    hardware.registers.set(dr, value);
    hardware.flags.set(value);
    proof {
        assert(hardware@ =~= exec_add(old(hardware)@, instruction));
    }
}

fn op_and(instruction: u16, hardware: &mut Hardware)
    requires
        old(hardware).wf(),
    ensures
        final(hardware).wf(),
        final(hardware)@ == exec_and(old(hardware)@, instruction),
{
    let dr = register_at(instruction, 9);
    let sr1 = register_at(instruction, 6);

    let operand = if instruction & 0b0000_0000_0010_0000 == 0 {
        let sr2 = register_at(instruction, 0);
        hardware.registers.get(sr2)
    } else {
        imm5(instruction)
    };
    let value = hardware.registers.get(sr1) & operand;

    hardware.registers.set(dr, value);
    hardware.flags.set(value);
    proof {
        assert(hardware@ =~= exec_and(old(hardware)@, instruction));
    }
}

fn op_ld(instruction: u16, hardware: &mut Hardware) -> (r: Result<(), Termination>)
    requires
        old(hardware).wf(),
    ensures
        final(hardware).wf(),
        match exec_ld(old(hardware)@, instruction) {
            Step::Next(s) => r == Ok::<(), Termination>(()) && final(hardware)@ == s,
            Step::Blocked => r == Err::<(), Termination>(Termination::NeedInput)
                && final(hardware)@ == old(hardware)@,
            _ => false,
        },
{
    let dr = register_at(instruction, 9);
    let offset = pcoffset9(instruction);

    let value = match hardware.get_memory_with_offset(offset) {
        Ok(v) => v,
        Err(t) => {
            return Err(t);
        },
    };

    hardware.registers.set(dr, value);
    hardware.flags.set(value);
    proof {
        assert(exec_ld(old(hardware)@, instruction) matches Step::Next(s) && hardware@ =~= s);
    }
    Ok(())
}

fn op_st(instruction: u16, hardware: &mut Hardware)
    requires
        old(hardware).wf(),
    ensures
        final(hardware).wf(),
        final(hardware)@ == exec_st(old(hardware)@, instruction),
{
    let sr = register_at(instruction, 9);
    let offset = pcoffset9(instruction);

    let loc = crate::utils::wrap_add(hardware.program_counter.get(), offset);
    let value = hardware.registers.get(sr);
    hardware.memory.set(loc, value);
    proof {
        assert(hardware@ =~= exec_st(old(hardware)@, instruction));
    }
}

fn op_jsr(instruction: u16, hardware: &mut Hardware)
    requires
        old(hardware).wf(),
    ensures
        final(hardware).wf(),
        final(hardware)@ == exec_jsr(old(hardware)@, instruction),
{
    let pc = hardware.program_counter.get();
    hardware.registers.set(7, pc);

    let loc = if instruction & 0b0000_1000_0000_0000 == 0 {
        // JSRR: jump through the base register, read after the R7 write
        let baser = register_at(instruction, 6);
        hardware.registers.get(baser)
    } else {
        // JSR: a long pc-relative jump
        let offset = pcoffset11(instruction);
        crate::utils::wrap_add(pc, offset)
    };

    hardware.program_counter.set(loc);
    proof {
        assert(hardware@ =~= exec_jsr(old(hardware)@, instruction));
    }
}

fn op_ldr(instruction: u16, hardware: &mut Hardware) -> (r: Result<(), Termination>)
    requires
        old(hardware).wf(),
    ensures
        final(hardware).wf(),
        match exec_ldr(old(hardware)@, instruction) {
            Step::Next(s) => r == Ok::<(), Termination>(()) && final(hardware)@ == s,
            Step::Blocked => r == Err::<(), Termination>(Termination::NeedInput)
                && final(hardware)@ == old(hardware)@,
            _ => false,
        },
{
    let dr = register_at(instruction, 9);
    let baser = register_at(instruction, 6);
    let offset = offset6(instruction);

    let loc = crate::utils::wrap_add(hardware.registers.get(baser), offset);
    let value = match hardware.get_memory(loc) {
        Ok(v) => v,
        Err(t) => {
            return Err(t);
        },
    };

    hardware.registers.set(dr, value);
    hardware.flags.set(value);
    proof {
        assert(exec_ldr(old(hardware)@, instruction) matches Step::Next(s) && hardware@ =~= s);
    }
    Ok(())
}

fn op_str(instruction: u16, hardware: &mut Hardware)
    requires
        old(hardware).wf(),
    ensures
        final(hardware).wf(),
        final(hardware)@ == exec_str(old(hardware)@, instruction),
{
    let sr = register_at(instruction, 9);
    let baser = register_at(instruction, 6);
    let offset = offset6(instruction);

    let loc = crate::utils::wrap_add(hardware.registers.get(baser), offset);
    let value = hardware.registers.get(sr);

    hardware.memory.set(loc, value);
    proof {
        assert(hardware@ =~= exec_str(old(hardware)@, instruction));
    }
}

fn op_not(instruction: u16, hardware: &mut Hardware)
    requires
        old(hardware).wf(),
    ensures
        final(hardware).wf(),
        final(hardware)@ == exec_not(old(hardware)@, instruction),
{
    let dr = register_at(instruction, 9);
    let sr = register_at(instruction, 6);

    let value = !hardware.registers.get(sr);

    hardware.registers.set(dr, value);
    hardware.flags.set(value);
    proof {
        assert(hardware@ =~= exec_not(old(hardware)@, instruction));
    }
}

fn op_ldi(instruction: u16, hardware: &mut Hardware) -> (r: Result<(), Termination>)
    requires
        old(hardware).wf(),
    ensures
        final(hardware).wf(),
        match exec_ldi(old(hardware)@, instruction) {
            Step::Next(s) => r == Ok::<(), Termination>(()) && final(hardware)@ == s,
            Step::Blocked => r == Err::<(), Termination>(Termination::NeedInput)
                && final(hardware)@ == old(hardware)@,
            _ => false,
        },
{
    let dr = register_at(instruction, 9);
    let offset = pcoffset9(instruction);

    let loc = match hardware.get_memory_with_offset(offset) {
        Ok(v) => v,
        Err(t) => {
            return Err(t);
        },
    };
    let value = match hardware.get_memory(loc) {
        Ok(v) => v,
        Err(t) => {
            // Only a KBSR read blocks, and a poll never leaves the KBSR
            // address itself in KBSR, so the first read was pure.
            return Err(t);
        },
    };

    hardware.registers.set(dr, value);
    hardware.flags.set(value);
    proof {
        assert(exec_ldi(old(hardware)@, instruction) matches Step::Next(s) && hardware@ =~= s);
    }
    Ok(())
}

fn op_sti(instruction: u16, hardware: &mut Hardware) -> (r: Result<(), Termination>)
    requires
        old(hardware).wf(),
    ensures
        final(hardware).wf(),
        match exec_sti(old(hardware)@, instruction) {
            Step::Next(s) => r == Ok::<(), Termination>(()) && final(hardware)@ == s,
            Step::Blocked => r == Err::<(), Termination>(Termination::NeedInput)
                && final(hardware)@ == old(hardware)@,
            _ => false,
        },
{
    let sr = register_at(instruction, 9);
    let offset = pcoffset9(instruction);

    let loc = match hardware.get_memory_with_offset(offset) {
        Ok(v) => v,
        Err(t) => {
            return Err(t);
        },
    };
    let value = hardware.registers.get(sr);

    hardware.memory.set(loc, value);
    proof {
        assert(exec_sti(old(hardware)@, instruction) matches Step::Next(s) && hardware@ =~= s);
    }
    Ok(())
}

fn op_jmp(instruction: u16, hardware: &mut Hardware)
    requires
        old(hardware).wf(),
    ensures
        final(hardware).wf(),
        final(hardware)@ == exec_jmp(old(hardware)@, instruction),
{
    let baser = register_at(instruction, 6);
    let loc = hardware.registers.get(baser);
    hardware.program_counter.set(loc);
    proof {
        assert(hardware@ =~= exec_jmp(old(hardware)@, instruction));
    }
}

fn op_lea(instruction: u16, hardware: &mut Hardware)
    requires
        old(hardware).wf(),
    ensures
        final(hardware).wf(),
        final(hardware)@ == exec_lea(old(hardware)@, instruction),
{
    let dr = register_at(instruction, 9);
    let offset = pcoffset9(instruction);

    let value = crate::utils::wrap_add(hardware.program_counter.get(), offset);

    hardware.registers.set(dr, value);
    hardware.flags.set(value);
    proof {
        assert(hardware@ =~= exec_lea(old(hardware)@, instruction));
    }
}

/// Execute one instruction word against the machine. `Ok` means the run
/// continues; an `Err` names why it cannot, and then the machine is exactly
/// as it was.
pub fn process(instruction: u16, hardware: &mut Hardware) -> (r: Result<(), Termination>)
    requires
        old(hardware).wf(),
    ensures
        final(hardware).wf(),
        match exec_instr(old(hardware)@, instruction) {
            Step::Next(s) => r == Ok::<(), Termination>(()) && final(hardware)@ == s,
            Step::Blocked => r == Err::<(), Termination>(Termination::NeedInput)
                && final(hardware)@ == old(hardware)@,
            Step::Halt => r == Err::<(), Termination>(Termination::NormalHalt)
                && final(hardware)@ == old(hardware)@,
            Step::BadTrap(v) => r == Err::<(), Termination>(Termination::UnknownTrap(v))
                && final(hardware)@ == old(hardware)@,
            Step::BadOpcode(op) => r == Err::<(), Termination>(Termination::UnknownOpcode(op))
                && final(hardware)@ == old(hardware)@,
        },
{
    match instruction >> 12 {
        0x0 => {
            op_br(instruction, hardware);
            Ok(())
        },
        0x1 => {
            op_add(instruction, hardware);
            Ok(())
        },
        0x2 => op_ld(instruction, hardware),
        0x3 => {
            op_st(instruction, hardware);
            Ok(())
        },
        0x4 => {
            op_jsr(instruction, hardware);
            Ok(())
        },
        0x5 => {
            op_and(instruction, hardware);
            Ok(())
        },
        0x6 => op_ldr(instruction, hardware),
        0x7 => {
            op_str(instruction, hardware);
            Ok(())
        },
        0x8 => Ok(()),  // RTI: a no-op in this user-mode machine
        0x9 => {
            op_not(instruction, hardware);
            Ok(())
        },
        0xA => op_ldi(instruction, hardware),
        0xB => op_sti(instruction, hardware),
        0xC => {
            op_jmp(instruction, hardware);
            Ok(())
        },
        0xD => Ok(()),  // reserved opcode: a no-op
        0xE => {
            op_lea(instruction, hardware);
            Ok(())
        },
        0xF => traps::process(instruction, hardware),
        other => Err(Termination::UnknownOpcode(other)),
    }
}

} // verus!
