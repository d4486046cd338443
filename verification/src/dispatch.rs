//! The fetch, decode and execute cycle, and the loop that repeats it.
//!
//! One cycle reads the word at the program counter, moves the program counter
//! to the next word, and runs the operation that the word's top four bits
//! select. A word whose top four bits are zero stops the machine.

use vstd::prelude::*;
use crate::instructions::Instruction;
use crate::memory::Context;
use crate::memory::Machine;
use crate::memory::Registers;
use crate::traps::outcome_view;
use crate::traps::Effect;
use crate::traps::EffectModel;
use crate::traps::MachineError;
use crate::traps::Signal;

verus! {

/// Bits 12 to 15 of an instruction: the opcode.
pub open spec fn opcode_field(instr: u16) -> u16 {
    instr >> 12
}

impl Machine {
    /// The word at the program counter.
    pub open spec fn fetched(self) -> u16 {
        self.word(self.pc())
    }

    /// The machine with the program counter moved to the next word.
    pub open spec fn advanced(self) -> Machine {
        self.with_pc(self.pc().wrapping_add(1))
    }
}

/// The machine after one cycle.
pub open spec fn cycle_state(m: Machine) -> Machine {
    if opcode_field(m.fetched()) == 0 {
        m.advanced()
    } else {
        Instruction::decoded(opcode_field(m.fetched())).applied(m.advanced(), m.fetched())
    }
}

/// What one cycle asks of the host: to stop, where the opcode is zero, and
/// else what the operation asks.
pub open spec fn cycle_response(m: Machine) -> Result<EffectModel, MachineError> {
    if opcode_field(m.fetched()) == 0 {
        Ok(EffectModel { signal: Signal::Halt, output: Seq::empty() })
    } else {
        Instruction::decoded(opcode_field(m.fetched())).response(m.advanced(), m.fetched())
    }
}

/// The machine after `n` cycles.
pub open spec fn after_cycles(m: Machine, n: nat) -> Machine
    decreases n,
{
    if n == 0 {
        m
    } else {
        cycle_state(after_cycles(m, (n - 1) as nat))
    }
}

/// Whether a cycle asks nothing of the host.
pub open spec fn is_quiet(response: Result<EffectModel, MachineError>) -> bool {
    response == Ok::<EffectModel, MachineError>(EffectModel::quiet())
}

/// The number of cycles up to and including the first that asks something
/// of the host, and `budget` where none of the first `budget` cycles does.
pub open spec fn run_length(m: Machine, budget: nat) -> nat
    decreases budget,
{
    if budget == 0 {
        0
    } else if !is_quiet(cycle_response(m)) {
        1
    } else {
        1 + run_length(cycle_state(m), (budget - 1) as nat)
    }
}

/// What the last of `cycles` cycles asks of the host; nothing where no cycle
/// has run.
pub open spec fn last_response(m: Machine, cycles: nat) -> Result<EffectModel, MachineError> {
    if cycles == 0 {
        Ok(EffectModel::quiet())
    } else {
        cycle_response(after_cycles(m, (cycles - 1) as nat))
    }
}

/// How far a call of [`run`] got.
#[derive(Debug, PartialEq, Eq)]
pub struct Progress {
    /// The number of cycles that ran.
    pub cycles: u64,
    /// What the last of them returned.
    pub outcome: Result<Effect, MachineError>,
}

/// Runs one cycle: fetches the word at the program counter, moves the program
/// counter past it, and runs the operation that the word selects. Opcode zero
/// halts the machine with nothing written.
pub fn step(context: &mut Context) -> (outcome: Result<Effect, MachineError>)
    ensures
        final(context)@ == cycle_state(old(context)@),
        outcome_view(outcome) == cycle_response(old(context)@),
{
    let pc = context.Reg[Registers::RPC.index()];
    let instr = context.Memory[pc as usize];
    context.Reg[Registers::RPC.index()] = pc.wrapping_add(1);
    let op = instr >> 12;
    if op == 0 {
        return Ok(Effect { signal: Signal::Halt, output: Vec::new() });
    }
    Instruction::from_opcode(op).Run(context, &instr)
}

/// Runs cycles until one asks something of the host (output to write, a
/// character to read, a halt, an error) or until `budget` cycles have run.
pub fn run(context: &mut Context, budget: u64) -> (progress: Progress)
    ensures
        progress.cycles == run_length(old(context)@, budget as nat),
        final(context)@ == after_cycles(old(context)@, progress.cycles as nat),
        outcome_view(progress.outcome) == last_response(old(context)@, progress.cycles as nat),
{
    let mut cycles: u64 = 0;
    let mut outcome: Result<Effect, MachineError> = Ok(Effect::quiet());
    let mut going = true;
    while going && cycles < budget
        invariant
            cycles <= budget,
            context@ == after_cycles(old(context)@, cycles as nat),
            outcome_view(outcome) == last_response(old(context)@, cycles as nat),
            going ==> run_length(old(context)@, budget as nat) == cycles + run_length(
                context@,
                (budget - cycles) as nat,
            ),
            !going ==> run_length(old(context)@, budget as nat) == cycles,
        decreases budget - cycles + if going { 1nat } else { 0nat },
    {
        outcome = step(context);
        cycles = cycles + 1;
        going = match &outcome {
            Ok(effect) => effect.is_quiet(),
            Err(_) => false,
        };
    }
    Progress { cycles, outcome }
}

} // verus!
