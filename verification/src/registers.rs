//! The program counter, the eight general-purpose registers, and the three
//! condition-code flags.

use vstd::prelude::*;

verus! {

/// The condition code of the machine. Exactly one of the three codes is
/// current at any time; a fresh machine starts at `Zero`.
#[derive(Clone, Copy, PartialEq, Eq, Structural, Debug)]
pub enum Flag {
    Negative,
    Zero,
    Positive,
}

/// The condition code that a 16-bit result selects: the value is read as a
/// two's-complement 16-bit integer, and its sign picks the code.
pub open spec fn flag_of(value: u16) -> Flag {
    if value == 0 {
        Flag::Zero
    } else if value >= 0x8000 {
        Flag::Negative
    } else {
        Flag::Positive
    }
}

/// `value` read as a two's-complement 16-bit integer.
pub open spec fn signed(value: u16) -> int {
    if value < 0x8000 {
        value as int
    } else {
        value - 0x10000
    }
}

/// The program counter: a 16-bit word, initially the conventional load
/// origin 0x3000.
pub struct ProgramCounter {
    value: u16,
}

impl View for ProgramCounter {
    type V = u16;

    closed spec fn view(&self) -> u16 {
        self.value
    }
}

impl Default for ProgramCounter {
    fn default() -> (r: Self)
        ensures
            r@ == 0x3000u16,
    {
        ProgramCounter { value: 0x3000 }
    }
}

impl ProgramCounter {
    /// The current program counter.
    pub fn get(&self) -> (r: u16)
        ensures
            r == self@,
    {
        self.value
    }

    /// Jump: replace the program counter.
    pub fn set(&mut self, address: u16)
        ensures
            final(self)@ == address,
    {
        self.value = address;
    }

    /// Fetch-then-increment: hand out the current value and advance by one.
    pub fn next(&mut self) -> (r: u16)
        requires
            old(self)@ < 0xFFFF,
        ensures
            r == old(self)@,
            final(self)@ == old(self)@ + 1,
    {
        self.value = self.value + 1;
        self.value - 1
    }
}

/// The eight general-purpose 16-bit registers, indexed 0 through 7.
pub struct Registers {
    values: Vec<u16>,
}

impl View for Registers {
    type V = Seq<u16>;

    closed spec fn view(&self) -> Seq<u16> {
        self.values@
    }
}

impl Registers {
    /// A well-formed register file has exactly eight cells.
    pub open spec fn wf(&self) -> bool {
        self@.len() == 8
    }

    /// Read register `register`. An index outside [0, 7] is a defect in the
    /// caller, so it is ruled out up front.
    pub fn get(&self, register: u16) -> (r: u16)
        requires
            self.wf(),
            register < 8,
        ensures
            r == self@[register as int],
    {
        self.values[register as usize]
    }

    /// Write `value` into register `register`.
    pub fn set(&mut self, register: u16, value: u16)
        requires
            old(self).wf(),
            register < 8,
        ensures
            final(self).wf(),
            final(self)@ == old(self)@.update(register as int, value),
    {
        self.values[register as usize] = value;
    }
}

impl Default for Registers {
    fn default() -> (r: Self)
        ensures
            r.wf(),
            r@ == Seq::new(8, |i: int| 0u16),
    {
        let mut values: Vec<u16> = Vec::new();
        let mut i: usize = 0;
        while i < 8
            invariant
                i <= 8,
                values@.len() == i,
                forall|j: int| 0 <= j < i ==> values@[j] == 0u16,
            decreases 8 - i,
        {
            values.push(0);
            i = i + 1;
        }
        proof {
            assert(values@ =~= Seq::new(8, |i: int| 0u16));
        }
        Registers { values }
    }
}

/// The condition-code flags. Exactly one of N, Z, P is set at all times.
pub struct Flags {
    current: Flag,
}

impl View for Flags {
    type V = Flag;

    closed spec fn view(&self) -> Flag {
        self.current
    }
}

impl Default for Flags {
    fn default() -> (r: Self)
        ensures
            r@ == Flag::Zero,
    {
        Flags { current: Flag::Zero }
    }
}

impl Flags {
    /// Is the negative code current?
    pub fn is_negative(&self) -> (r: bool)
        ensures
            r == (self@ == Flag::Negative),
    {
        self.current == Flag::Negative
    }

    /// Is the zero code current?
    pub fn is_zero(&self) -> (r: bool)
        ensures
            r == (self@ == Flag::Zero),
    {
        self.current == Flag::Zero
    }

    /// Is the positive code current?
    pub fn is_positive(&self) -> (r: bool)
        ensures
            r == (self@ == Flag::Positive),
    {
        self.current == Flag::Positive
    }

    /// Make the negative code current.
    pub fn set_negative(&mut self)
        ensures
            final(self)@ == Flag::Negative,
    {
        self.current = Flag::Negative;
    }

    /// Make the zero code current.
    pub fn set_zero(&mut self)
        ensures
            final(self)@ == Flag::Zero,
    {
        self.current = Flag::Zero;
    }

    /// Make the positive code current.
    pub fn set_positive(&mut self)
        ensures
            final(self)@ == Flag::Positive,
    {
        self.current = Flag::Positive;
    }

    /// Select the code that `value`, read as a signed 16-bit integer,
    /// calls for: negative, zero, or positive.
    pub fn set(&mut self, value: u16)
        ensures
            final(self)@ == flag_of(value),
    {
        if value == 0 {
            self.set_zero();
        } else if value >= 0x8000 {
            self.set_negative();
        } else {
            self.set_positive();
        }
    }
}

} // verus!
