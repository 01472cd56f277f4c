//! The fetch loop: repeatedly fetch the word at the program counter,
//! advance the counter, and execute the word, until the machine halts,
//! blocks for input, fails, or runs out of its step budget.
//!
//! The loop's contract is exact: its result is the spec-level trace
//! [`run_n`], the machine [`step_once`] applied as many times as the loop
//! ran.

use vstd::prelude::*;

use crate::hardware::{Hardware, Termination, VmView};
use crate::instructions::{self, Step, exec_instr};
use crate::memory::{LoadError, MEMORY_SIZE, load_words};

verus! {

/// A point in a machine run: still going, or finished with a reason.
pub enum RunState {
    Running(VmView),
    Done(VmView, Termination),
}

/// One turn of the fetch loop. A counter at the top cell of memory ends
/// the run; otherwise the word under the counter is fetched, the counter
/// advances, and the word executes. A blocked instruction leaves the
/// machine as it was *before* the fetch, so that the run can resume on it
/// once input arrives.
pub open spec fn step_once(s: VmView) -> RunState {
    if s.pc >= 0xFFFF {
        RunState::Done(s, Termination::PcOutOfRange)
    } else {
        let instruction = s.mem[s.pc as int];
        let fetched = VmView { pc: (s.pc + 1) as u16, ..s };
        match exec_instr(fetched, instruction) {
            Step::Next(t) => RunState::Running(t),
            Step::Blocked => RunState::Done(s, Termination::NeedInput),
            Step::Halt => RunState::Done(fetched, Termination::NormalHalt),
            Step::BadTrap(v) => RunState::Done(fetched, Termination::UnknownTrap(v)),
            Step::BadOpcode(op) => RunState::Done(fetched, Termination::UnknownOpcode(op)),
        }
    }
}

/// The machine after `n` turns of the fetch loop; a finished run stays
/// finished.
pub open spec fn run_n(s: VmView, n: nat) -> RunState
    decreases n,
{
    if n == 0 {
        RunState::Running(s)
    } else {
        match run_n(s, (n - 1) as nat) {
            RunState::Running(t) => step_once(t),
            done => done,
        }
    }
}

/// Run the fetch loop for at most `max_steps` instructions. `Some(t)`
/// means the run finished for reason `t` within the budget; `None` means
/// the budget ran out with the machine still going. Either way the final
/// machine is exactly the spec-level trace's.
///
/// On `Some(Termination::NeedInput)` the program counter still points at
/// the blocked instruction: push a byte into the input and call again to
/// resume.
#[verifier::rlimit(100)]
pub fn main_loop(hardware: &mut Hardware, max_steps: u64) -> (r: Option<Termination>)
    requires
        old(hardware).wf(),
    ensures
        final(hardware).wf(),
        match r {
            Some(t) => exists|n: nat|
                n <= max_steps && run_n(old(hardware)@, n) == RunState::Done(final(hardware)@, t),
            None => run_n(old(hardware)@, max_steps as nat) == RunState::Running(
                final(hardware)@,
            ),
        },
{
    let ghost start = hardware@;
    let mut steps: u64 = 0;
    loop
        invariant
            hardware.wf(),
            steps <= max_steps,
            run_n(start, steps as nat) == RunState::Running(hardware@),
            start == old(hardware)@,
        decreases max_steps - steps,
    {
        if steps >= max_steps {
            return None;
        }
        let ghost before = hardware@;
        let pc_before = hardware.program_counter.get();
        match hardware.next() {
            None => {
                proof {
                    lemma_run_n_step(start, steps as nat);
                    assert(run_n(start, (steps + 1) as nat) == RunState::Done(
                        hardware@,
                        Termination::PcOutOfRange,
                    ));
                }
                return Some(Termination::PcOutOfRange);
            },
            Some(instruction) => {
                if instruction != 0 {
                    match instructions::process(instruction, hardware) {
                        Ok(()) => {},
                        Err(t) => {
                            if let Termination::NeedInput = t {
                                // the blocked instruction has not run; put
                                // the counter back on it so a later call
                                // can resume
                                hardware.program_counter.set(pc_before);
                                proof {
                                    assert(hardware@ =~= before);
                                }
                            }
                            proof {
                                lemma_run_n_step(start, steps as nat);
                                assert(run_n(start, (steps + 1) as nat) == RunState::Done(
                                    hardware@,
                                    t,
                                ));
                            }
                            return Some(t);
                        },
                    }
                } else {
                    // a zero word is BR with n, z, p all clear: a no-op
                    proof {
                        assert(0u16 >> 12 == 0 && 0u16 & 0x0800 == 0 && 0u16 & 0x0400 == 0
                            && 0u16 & 0x0200 == 0) by (bit_vector);
                        assert(exec_instr(hardware@, 0) == Step::Next(hardware@));
                    }
                }
                proof {
                    lemma_run_n_step(start, steps as nat);
                }
                steps = steps + 1;
            },
        }
    }
}

/// Interpret a raw object image as a sequence of big-endian 16-bit words.
/// An image that is not a whole number of words is rejected.
pub fn words_from_bytes(bytes: &[u8]) -> (r: Result<Vec<u16>, LoadError>)
    ensures
        bytes@.len() % 2 == 0 ==> (r matches Ok(words) && words@.len() == bytes@.len() / 2
            && (forall|i: int|
                0 <= i < words@.len() ==> words@[i] == bytes@[2 * i] * 256 + bytes@[2 * i + 1])),
        bytes@.len() % 2 != 0 ==> r == Err::<Vec<u16>, LoadError>(LoadError::OddByteCount),
{
    if bytes.len() % 2 != 0 {
        return Err(LoadError::OddByteCount);
    }
    let mut words: Vec<u16> = Vec::new();
    let mut i: usize = 0;
    while i < bytes.len() / 2
        invariant
            bytes@.len() % 2 == 0,
            i <= bytes@.len() / 2,
            words@.len() == i,
            forall|j: int|
                0 <= j < i ==> words@[j] == bytes@[2 * j] * 256 + bytes@[2 * j + 1],
        decreases bytes@.len() - 2 * i,
    {
        let high = bytes[2 * i];
        let low = bytes[2 * i + 1];
        words.push((high as u16) * 256 + (low as u16));
        i = i + 1;
    }
    Ok(words)
}

/// Load an object image into a machine and run the fetch loop on it, for
/// at most `max_steps` instructions. Load failures are reported before a
/// single instruction runs; after a good load the result is exactly
/// [`main_loop`]'s on the loaded machine.
pub fn run(program: &[u16], hardware: &mut Hardware, max_steps: u64) -> (r: Result<
    Option<Termination>,
    LoadError,
>)
    requires
        old(hardware).wf(),
    ensures
        final(hardware).wf(),
        program@.len() == 0 ==> r == Err::<Option<Termination>, LoadError>(LoadError::EmptyImage)
            && final(hardware)@ == old(hardware)@,
        program@.len() >= 1 && program@[0] + program@.len() - 1 > MEMORY_SIZE ==> r == Err::<
            Option<Termination>,
            LoadError,
        >(LoadError::ProgramTooBig) && final(hardware)@ == (VmView {
            pc: program@[0],
            ..old(hardware)@
        }),
        program@.len() >= 1 && program@[0] + program@.len() - 1 <= MEMORY_SIZE ==> ({
            let loaded = VmView {
                pc: program@[0],
                mem: load_words(old(hardware)@.mem, program@[0] as int, program@.drop_first()),
                ..old(hardware)@
            };
            match r {
                Ok(Some(t)) => exists|n: nat|
                    n <= max_steps && run_n(loaded, n) == RunState::Done(final(hardware)@, t),
                Ok(None) => run_n(loaded, max_steps as nat) == RunState::Running(
                    final(hardware)@,
                ),
                Err(_) => false,
            }
        }),
{
    match hardware.load(program) {
        Ok(()) => {},
        Err(e) => {
            return Err(e);
        },
    }
    Ok(main_loop(hardware, max_steps))
}

/// Unfold one turn: after `n` turns the run is still going, so turn
/// `n + 1` is one `step_once` further.
proof fn lemma_run_n_step(s: VmView, n: nat)
    requires
        run_n(s, n) is Running,
    ensures
        run_n(s, n + 1) == step_once(run_n(s, n)->Running_0),
{
    assert(run_n(s, n + 1) == match run_n(s, n) {
        RunState::Running(t) => step_once(t),
        done => done,
    });
}

} // verus!
