//! The memory subsystem: a flat array of 65,536 16-bit cells. Reads and
//! writes here are always pure; the keyboard side effect of reading KBSR
//! belongs to the surrounding hardware, not to the cells themselves.

use vstd::prelude::*;

verus! {

/// The number of 16-bit cells: one for every 16-bit address.
pub const MEMORY_SIZE: usize = 0x10000;

/// Why loading an object image failed.
#[derive(Clone, Copy, PartialEq, Eq, Structural, Debug)]
pub enum LoadError {
    /// The image is empty, so it has no load origin.
    EmptyImage,
    /// The image does not fit between its origin and the end of memory.
    ProgramTooBig,
    /// The raw image is not a whole number of 16-bit words.
    OddByteCount,
}

/// Memory after `words` has been copied into the cells starting at `start`;
/// every other cell keeps its old value.
pub open spec fn load_words(mem: Seq<u16>, start: int, words: Seq<u16>) -> Seq<u16> {
    Seq::new(mem.len(), |i: int| if start <= i < start + words.len() { words[i - start] } else { mem[i] })
}

/// A flat array of 65,536 16-bit cells, zero-filled at creation.
pub struct Memory {
    cells: Vec<u16>,
}

impl View for Memory {
    type V = Seq<u16>;

    closed spec fn view(&self) -> Seq<u16> {
        self.cells@
    }
}

impl Memory {
    /// Well-formed memory has one cell for every 16-bit address.
    pub open spec fn wf(&self) -> bool {
        self@.len() == MEMORY_SIZE
    }

    /// Read the cell at `address`. A pure read, whatever the address.
    pub fn get(&self, address: u16) -> (r: u16)
        requires
            self.wf(),
        ensures
            r == self@[address as int],
    {
        self.cells[address as usize]
    }

    /// Write `value` into the cell at `address`. Never has side effects;
    /// writes to the keyboard registers are allowed but meaningless.
    pub fn set(&mut self, address: u16, value: u16)
        requires
            old(self).wf(),
        ensures
            final(self).wf(),
            final(self)@ == old(self)@.update(address as int, value),
    {
        self.cells[address as usize] = value;
    }

    /// Copy `program` into the cells `[start, start + len)`. Fails with
    /// `ProgramTooBig`, leaving memory untouched, when the words do not fit
    /// below the end of memory.
    pub fn load(&mut self, start: u16, program: &[u16]) -> (r: Result<(), LoadError>)
        requires
            old(self).wf(),
        ensures
            final(self).wf(),
            start + program@.len() <= MEMORY_SIZE ==> r == Ok::<(), LoadError>(())
                && final(self)@ == load_words(old(self)@, start as int, program@),
            start + program@.len() > MEMORY_SIZE ==> r == Err::<(), LoadError>(LoadError::ProgramTooBig)
                && final(self)@ == old(self)@,
    {
        if program.len() > MEMORY_SIZE - start as usize {
            return Err(LoadError::ProgramTooBig);
        }
        let mut i: usize = 0;
        while i < program.len()
            invariant
                old(self).wf(),
                self.wf(),
                i <= program@.len(),
                start + program@.len() <= MEMORY_SIZE,
                forall|j: int| 0 <= j < i ==> self@[start + j] == program@[j],
                forall|a: int| 0 <= a < MEMORY_SIZE && !(start <= a < start + i) ==> self@[a] == old(self)@[a],
            decreases program@.len() - i,
        {
            self.cells[start as usize + i] = program[i];
            i = i + 1;
        }
        proof {
            assert(self@ =~= load_words(old(self)@, start as int, program@));
        }
        Ok(())
    }
}

impl Default for Memory {
    fn default() -> (r: Self)
        ensures
            r.wf(),
            r@ == Seq::new(MEMORY_SIZE as nat, |i: int| 0u16),
    {
        let mut cells: Vec<u16> = Vec::new();
        let mut i: usize = 0;
        while i < MEMORY_SIZE
            invariant
                i <= MEMORY_SIZE,
                cells@.len() == i,
                forall|j: int| 0 <= j < i ==> cells@[j] == 0u16,
            decreases MEMORY_SIZE - i,
        {
            cells.push(0);
            i = i + 1;
        }
        proof {
            assert(cells@ =~= Seq::new(MEMORY_SIZE as nat, |i: int| 0u16));
        }
        Memory { cells }
    }
}

} // verus!
