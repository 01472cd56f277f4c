//! Machine-wide laws: facts that tie several operations together, proved
//! once and for all inputs against the spec-level interpreter that the
//! executable machine is verified to follow.

use vstd::prelude::*;

use crate::hardware::{KBDR, KBSR, VmView, mem_read_spec};
use crate::instructions::{Step, exec_instr, exec_not};
use crate::registers::{Flag, flag_of, signed};
use crate::run::{RunState, step_once};
use crate::utils::{add16, sext, spec_pcoffset9, spec_register_at};

verus! {

/// Selecting the flags for a 16-bit value picks exactly one condition
/// code, and it is the sign of the value read as a two's-complement 16-bit
/// integer. `Flags::set` ensures the machine's code is `flag_of(value)`.
pub proof fn lemma_flag_matches_sign(value: u16)
    ensures
        (flag_of(value) == Flag::Negative) <==> signed(value) < 0,
        (flag_of(value) == Flag::Zero) <==> signed(value) == 0,
        (flag_of(value) == Flag::Positive) <==> signed(value) > 0,
{
}

/// Sign extension keeps the low `w` bits of a `w`-bit value and fills
/// every higher bit with bit `w - 1`, for each field width the instruction
/// set uses.
pub proof fn lemma_sext_bits(v: u16, w: u16, i: u16)
    requires
        w == 5 || w == 6 || w == 9 || w == 11,
        v < (1u16 << w),
        i < 16,
    ensures
        i < w ==> (sext(v, w) >> i) & 1 == (v >> i) & 1,
        i >= w ==> (sext(v, w) >> i) & 1 == (v >> ((w - 1) as u16)) & 1,
{
    if w == 5 {
        assert((i < 5 ==> (sext(v, 5) >> i) & 1 == (v >> i) & 1) && (5 <= i < 16 ==> (sext(v, 5)
            >> i) & 1 == (v >> 4) & 1)) by (bit_vector)
            requires
                v < (1u16 << 5),
                i < 16,
        ;
    } else if w == 6 {
        assert((i < 6 ==> (sext(v, 6) >> i) & 1 == (v >> i) & 1) && (6 <= i < 16 ==> (sext(v, 6)
            >> i) & 1 == (v >> 5) & 1)) by (bit_vector)
            requires
                v < (1u16 << 6),
                i < 16,
        ;
    } else if w == 9 {
        assert((i < 9 ==> (sext(v, 9) >> i) & 1 == (v >> i) & 1) && (9 <= i < 16 ==> (sext(v, 9)
            >> i) & 1 == (v >> 8) & 1)) by (bit_vector)
            requires
                v < (1u16 << 9),
                i < 16,
        ;
    } else {
        assert((i < 11 ==> (sext(v, 11) >> i) & 1 == (v >> i) & 1) && (11 <= i < 16 ==> (sext(
            v,
            11,
        ) >> i) & 1 == (v >> 10) & 1)) by (bit_vector)
            requires
                v < (1u16 << 11),
                i < 16,
        ;
    }
}

/// Writing a cell and then reading it through the machine yields the
/// written value and changes nothing, for every address outside the
/// memory-mapped keyboard registers (a KBSR read is refreshed by a poll
/// first, and KBDR can be overwritten by one).
pub proof fn lemma_memory_set_then_get(s: VmView, address: u16, value: u16)
    requires
        s.wf(),
        address != KBSR,
        address != KBDR,
    ensures
        ({
            let written = VmView { mem: s.mem.update(address as int, value), ..s };
            mem_read_spec(written, address) == Some((written, value))
        }),
{
}

/// One full fetch-execute turn on any instruction other than BR, JSR/JSRR,
/// and JMP/RET leaves the program counter exactly one past where it was:
/// the fetch advanced it and the instruction did not touch it. (A turn
/// that ends the run, HALT among them, is not a running turn.)
pub proof fn lemma_pc_after_plain_step(s: VmView)
    requires
        s.wf(),
        s.pc < 0xFFFF,
        step_once(s) is Running,
        s.mem[s.pc as int] >> 12 != 0x0,
        s.mem[s.pc as int] >> 12 != 0x4,
        s.mem[s.pc as int] >> 12 != 0xC,
    ensures
        (step_once(s)->Running_0).pc == s.pc + 1,
{
}

/// Every register-writing instruction leaves its destination holding the
/// written value, the condition code matching that value's sign, and every
/// other register untouched. The destination is the DR field, or R0 for
/// the GETC and IN traps.
pub proof fn lemma_written_register_sets_flags(s: VmView, i: u16)
    requires
        s.wf(),
        exec_instr(s, i) is Next,
        i >> 12 == 0x1 || i >> 12 == 0x2 || i >> 12 == 0x5 || i >> 12 == 0x6 || i >> 12 == 0x9
            || i >> 12 == 0xA || i >> 12 == 0xE || (i >> 12 == 0xF && (i & 0xFF == 0x20 || i & 0xFF
            == 0x23)),
    ensures
        ({
            let t = exec_instr(s, i)->Next_0;
            let dr = if i >> 12 == 0xF {
                0u16
            } else {
                spec_register_at(i, 9)
            };
            t.flag == flag_of(t.regs[dr as int]) && t.regs == s.regs.update(
                dr as int,
                t.regs[dr as int],
            )
        }),
{
    assert(spec_register_at(i, 9) < 8) by (bit_vector);
    let t = exec_instr(s, i)->Next_0;
    let dr = if i >> 12 == 0xF {
        0u16
    } else {
        spec_register_at(i, 9)
    };
    assert(t.regs =~= s.regs.update(dr as int, t.regs[dr as int]));
}

/// NOT is an involution: running NOT from Ra into Rb and then NOT from Rb
/// back into Ra restores Ra's original value.
pub proof fn lemma_not_round_trip(s: VmView, a: u16, b: u16)
    requires
        s.wf(),
        a < 8,
        b < 8,
    ensures
        ({
            let first = 0x903Fu16 | (b << 9) | (a << 6);  // NOT Rb, Ra
            let second = 0x903Fu16 | (a << 9) | (b << 6);  // NOT Ra, Rb
            exec_instr(s, first) matches Step::Next(s2) && (exec_instr(s2, second) matches
                Step::Next(s3) && s3.regs[a as int] == s.regs[a as int])
        }),
{
    let first = 0x903Fu16 | (b << 9) | (a << 6);
    let second = 0x903Fu16 | (a << 9) | (b << 6);
    assert((0x903Fu16 | (b << 9) | (a << 6)) >> 12 == 0x9 && ((0x903Fu16 | (b << 9) | (a << 6))
        >> 9) & 0x7 == b && ((0x903Fu16 | (b << 9) | (a << 6)) >> 6) & 0x7 == a) by (bit_vector)
        requires
            a < 8,
            b < 8,
    ;
    assert((0x903Fu16 | (a << 9) | (b << 6)) >> 12 == 0x9 && ((0x903Fu16 | (a << 9) | (b << 6))
        >> 9) & 0x7 == a && ((0x903Fu16 | (a << 9) | (b << 6)) >> 6) & 0x7 == b) by (bit_vector)
        requires
            a < 8,
            b < 8,
    ;
    let s2 = exec_not(s, first);
    let s3 = exec_not(s2, second);
    assert(s2.regs[b as int] == !s.regs[a as int]);
    assert(s3.regs[a as int] == !(!s.regs[a as int]));
    let v = s.regs[a as int];
    assert(!(!v) == v) by (bit_vector);
}

/// ST at a pc-relative offset followed by LD through the same offset, with
/// the program counter unchanged in between (stores never move it),
/// restores the stored register's value — for every target cell except the
/// keyboard status register, whose reads are refreshed by a poll.
pub proof fn lemma_st_ld_round_trip(s: VmView, k: u16, sr: u16, dr: u16)
    requires
        s.wf(),
        k < 0x200,
        sr < 8,
        dr < 8,
        add16(s.pc, spec_pcoffset9(k)) != KBSR,
    ensures
        ({
            let st = 0x3000u16 | (sr << 9) | k;  // ST Rsr, #k
            let ld = 0x2000u16 | (dr << 9) | k;  // LD Rdr, #k
            exec_instr(s, st) matches Step::Next(s2) && (exec_instr(s2, ld) matches Step::Next(s3)
                && (s2.pc == s.pc && s3.regs[dr as int] == s.regs[sr as int]))
        }),
{
    let st = 0x3000u16 | (sr << 9) | k;
    let ld = 0x2000u16 | (dr << 9) | k;
    assert((0x3000u16 | (sr << 9) | k) >> 12 == 0x3 && ((0x3000u16 | (sr << 9) | k) >> 9) & 0x7
        == sr && (0x3000u16 | (sr << 9) | k) & 0x1FF == k & 0x1FF) by (bit_vector)
        requires
            sr < 8,
            k < 0x200,
    ;
    assert((0x2000u16 | (dr << 9) | k) >> 12 == 0x2 && ((0x2000u16 | (dr << 9) | k) >> 9) & 0x7
        == dr && (0x2000u16 | (dr << 9) | k) & 0x1FF == k & 0x1FF) by (bit_vector)
        requires
            dr < 8,
            k < 0x200,
    ;
}

} // verus!
