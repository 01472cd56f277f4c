//! The machine state: memory, registers, flags, program counter, and the
//! two byte streams, together with the memory-mapped keyboard.
//!
//! Reading the keyboard status register KBSR polls the input stream before
//! returning; that is the only place where reading memory has a side effect.

use vstd::prelude::*;

use crate::memory::{LoadError, Memory, MEMORY_SIZE, load_words};
use crate::registers::{Flag, Flags, ProgramCounter, Registers};
use crate::utils::add16;

verus! {

/// The memory-mapped keyboard status register.
pub const KBSR: u16 = 0xFE00;

/// The memory-mapped keyboard data register.
pub const KBDR: u16 = 0xFE02;

/// Why the fetch loop stopped.
#[derive(Clone, Copy, PartialEq, Eq, Structural, Debug)]
pub enum Termination {
    /// The HALT trap ran: clean termination.
    NormalHalt,
    /// The machine must read a byte, and the input stream has none ready.
    /// Push a byte into the input and resume; the blocked instruction has
    /// not run and the state is unchanged.
    NeedInput,
    /// The program counter reached the top cell of memory.
    PcOutOfRange,
    /// A TRAP instruction named a vector outside 0x20..=0x25.
    UnknownTrap(u16),
    /// An instruction word decoded to no opcode. The opcode is the top
    /// nibble, so every word decodes; this arm is a defined fatal path
    /// that no input reaches.
    UnknownOpcode(u16),
}

/// The mathematical model of the whole machine.
#[verifier::ext_equal]
pub struct VmView {
    /// The 65,536 memory cells.
    pub mem: Seq<u16>,
    /// The eight general-purpose registers.
    pub regs: Seq<u16>,
    /// The program counter.
    pub pc: u16,
    /// The current condition code.
    pub flag: Flag,
    /// The bytes still waiting to be read, next byte first.
    pub input: Seq<u8>,
    /// The bytes written so far, oldest first.
    pub output: Seq<u8>,
}

impl VmView {
    /// Memory has a cell per address and there are eight registers.
    pub open spec fn wf(self) -> bool {
        self.mem.len() == MEMORY_SIZE && self.regs.len() == 8
    }
}

/// One keyboard poll, on a machine whose input holds at least one byte:
/// consume the next byte `c`; a nonzero `c` lands in KBDR with KBSR set to
/// 0x8000 ("ready"), a zero `c` clears KBSR.
pub open spec fn poll_spec(s: VmView) -> VmView {
    let c = s.input[0];
    let mem = if c == 0 {
        s.mem.update(KBSR as int, 0u16)
    } else {
        s.mem.update(KBDR as int, c as u16).update(KBSR as int, 0x8000u16)
    };
    VmView { mem: mem, input: s.input.remove(0), ..s }
}

/// A machine read of the cell at `address`: reading KBSR polls the keyboard
/// first and then returns the refreshed KBSR value; every other address is
/// a pure read. `None` means the machine must block for input.
pub open spec fn mem_read_spec(s: VmView, address: u16) -> Option<(VmView, u16)> {
    if address == KBSR {
        if s.input.len() == 0 {
            None
        } else {
            let polled = poll_spec(s);
            Some((polled, polled.mem[address as int]))
        }
    } else {
        Some((s, s.mem[address as int]))
    }
}

/// The machine: all state the core owns for its lifetime. The two byte
/// streams are plain buffers; the host feeds `io.0` and drains `io.1`.
pub struct Hardware {
    pub program_counter: ProgramCounter,
    pub registers: Registers,
    pub memory: Memory,
    pub flags: Flags,
    pub io: (Vec<u8>, Vec<u8>),
}

impl View for Hardware {
    type V = VmView;

    open spec fn view(&self) -> VmView {
        VmView {
            mem: self.memory@,
            regs: self.registers@,
            pc: self.program_counter@,
            flag: self.flags@,
            input: self.io.0@,
            output: self.io.1@,
        }
    }
}

impl Default for Hardware {
    fn default() -> (r: Self)
        ensures
            r.wf(),
            r@ == fresh_vm(Seq::<u8>::empty(), Seq::<u8>::empty()),
    {
        Hardware::default_with_io((Vec::new(), Vec::new()))
    }
}

/// A zero-filled machine at the conventional origin 0x3000, flag at zero,
/// bound to the given byte streams.
pub open spec fn fresh_vm(input: Seq<u8>, output: Seq<u8>) -> VmView {
    VmView {
        mem: Seq::new(MEMORY_SIZE as nat, |i: int| 0u16),
        regs: Seq::new(8, |i: int| 0u16),
        pc: 0x3000u16,
        flag: Flag::Zero,
        input: input,
        output: output,
    }
}

impl Hardware {
    /// The machine's invariant, carried by every operation.
    pub open spec fn wf(&self) -> bool {
        self@.wf()
    }

    /// A fresh machine bound to the given input and output buffers.
    pub fn default_with_io(io: (Vec<u8>, Vec<u8>)) -> (r: Hardware)
        ensures
            r.wf(),
            r@ == fresh_vm(io.0@, io.1@),
    {
        let r = Hardware {
            program_counter: ProgramCounter::default(),
            registers: Registers::default(),
            memory: Memory::default(),
            flags: Flags::default(),
            io,
        };
        proof {
            assert(r@ =~= fresh_vm(r.io.0@, r.io.1@));
        }
        r
    }

    /// Load an object image: the first word is the load origin, the rest
    /// populate memory from there. An empty image has no origin; an image
    /// that runs past the end of memory is rejected after the origin has
    /// already become the program counter.
    pub fn load(&mut self, program: &[u16]) -> (r: Result<(), LoadError>)
        requires
            old(self).wf(),
        ensures
            final(self).wf(),
            program@.len() == 0 ==> r == Err::<(), LoadError>(LoadError::EmptyImage)
                && final(self)@ == old(self)@,
            program@.len() >= 1 && program@[0] + program@.len() - 1 <= MEMORY_SIZE ==>
                r == Ok::<(), LoadError>(())
                && final(self)@ == (VmView {
                    pc: program@[0],
                    mem: load_words(old(self)@.mem, program@[0] as int, program@.drop_first()),
                    ..old(self)@
                }),
            program@.len() >= 1 && program@[0] + program@.len() - 1 > MEMORY_SIZE ==>
                r == Err::<(), LoadError>(LoadError::ProgramTooBig)
                && final(self)@ == (VmView { pc: program@[0], ..old(self)@ }),
    {
        if program.len() == 0 {
            return Err(LoadError::EmptyImage);
        }
        let origin = program[0];
        self.program_counter.set(origin);
        let words = vstd::slice::slice_subrange(program, 1, program.len());
        self.memory.load(origin, words)
    }

    /// Fetch the word at the program counter and advance the counter, or
    /// report that the counter has reached the top cell of memory.
    pub fn next(&mut self) -> (r: Option<u16>)
        requires
            old(self).wf(),
        ensures
            final(self).wf(),
            old(self)@.pc >= 0xFFFF ==> r == None::<u16> && final(self)@ == old(self)@,
            old(self)@.pc < 0xFFFF ==> r == Some(old(self)@.mem[old(self)@.pc as int])
                && final(self)@ == (VmView { pc: (old(self)@.pc + 1) as u16, ..old(self)@ }),
    {
        if self.program_counter.get() >= 0xFFFF {
            return None;
        }
        let address = self.program_counter.next();
        Some(self.memory.get(address))
    }

    /// Poll the keyboard: consume one input byte and refresh KBSR/KBDR, or
    /// report that the machine must block because no byte is ready.
    pub fn handle_keyboard(&mut self) -> (r: Result<(), Termination>)
        requires
            old(self).wf(),
        ensures
            final(self).wf(),
            old(self)@.input.len() == 0 ==> r == Err::<(), Termination>(Termination::NeedInput)
                && final(self)@ == old(self)@,
            old(self)@.input.len() > 0 ==> r == Ok::<(), Termination>(())
                && final(self)@ == poll_spec(old(self)@),
    {
        if self.io.0.len() == 0 {
            return Err(Termination::NeedInput);
        }
        let c = self.io.0.remove(0);
        if c == 0 {
            self.memory.set(KBSR, 0);
        } else {
            self.memory.set(KBDR, c as u16);
            self.memory.set(KBSR, 0x8000);
        }
        proof {
            assert(self@ =~= poll_spec(old(self)@));
        }
        Ok(())
    }

    /// Read the cell at `address` as the machine does: a KBSR read polls
    /// the keyboard first, every other read is pure.
    pub fn get_memory(&mut self, address: u16) -> (r: Result<u16, Termination>)
        requires
            old(self).wf(),
        ensures
            final(self).wf(),
            match mem_read_spec(old(self)@, address) {
                Some((s, v)) => r == Ok::<u16, Termination>(v) && final(self)@ == s,
                None => r == Err::<u16, Termination>(Termination::NeedInput)
                    && final(self)@ == old(self)@,
            },
    {
        if address == KBSR {
            match self.handle_keyboard() {
                Ok(()) => {}
                Err(t) => {
                    return Err(t);
                }
            }
        }
        Ok(self.memory.get(address))
    }

    /// Read the cell at `offset` words past the program counter, with the
    /// same keyboard behaviour as [`Hardware::get_memory`].
    pub fn get_memory_with_offset(&mut self, offset: u16) -> (r: Result<u16, Termination>)
        requires
            old(self).wf(),
        ensures
            final(self).wf(),
            match mem_read_spec(old(self)@, add16(old(self)@.pc, offset)) {
                Some((s, v)) => r == Ok::<u16, Termination>(v) && final(self)@ == s,
                None => r == Err::<u16, Termination>(Termination::NeedInput)
                    && final(self)@ == old(self)@,
            },
    {
        let address = crate::utils::wrap_add(self.program_counter.get(), offset);
        self.get_memory(address)
    }
}

} // verus!
