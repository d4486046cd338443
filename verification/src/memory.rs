//! Machine state: the memory bank and the register file.
//!
//! The executable state is [`Context`]. Contracts throughout the crate speak of
//! its view, [`Machine`], which holds the same words as two sequences.

use vstd::prelude::*;

verus! {

/// Number of words in the memory bank: one for each 16-bit address.
pub const MEMORY_SIZE: usize = 65536;

/// Number of slots in the register file.
pub const REGISTER_COUNT: usize = 10;

/// Address at which execution starts.
pub const PC_START: u16 = 0x3000;

/// The slots of the register file: eight general-purpose registers, the
/// program counter and the condition-flag register.
#[derive(Clone, Copy, Debug, PartialEq, Eq, Structural)]
pub enum Registers {
    R0,
    R1,
    R2,
    R3,
    R4,
    R5,
    R6,
    R7,
    RPC,
    RCOND,
}

impl Registers {
    /// Position of the register in the register file.
    pub open spec fn slot(self) -> int {
        match self {
            Registers::R0 => 0,
            Registers::R1 => 1,
            Registers::R2 => 2,
            Registers::R3 => 3,
            Registers::R4 => 4,
            Registers::R5 => 5,
            Registers::R6 => 6,
            Registers::R7 => 7,
            Registers::RPC => 8,
            Registers::RCOND => 9,
        }
    }

    /// Position of the register in [`Context::Reg`].
    pub fn index(&self) -> (i: usize)
        ensures
            i == self.slot(),
            i < REGISTER_COUNT,
    {
        match self {
            Registers::R0 => 0,
            Registers::R1 => 1,
            Registers::R2 => 2,
            Registers::R3 => 3,
            Registers::R4 => 4,
            Registers::R5 => 5,
            Registers::R6 => 6,
            Registers::R7 => 7,
            Registers::RPC => 8,
            Registers::RCOND => 9,
        }
    }
}

/// The state of one machine. Every word is zero when the machine is created;
/// the loader and the store instructions overwrite memory, and instructions
/// overwrite registers.
#[derive(Clone, Debug, PartialEq, Eq)]
pub struct Context {
    /// Memory bank; the index is the address.
    pub Memory: [u16; 65536],
    /// Register file; [`Registers::index`] gives the index of a register.
    pub Reg: [u16; 10],
}

/// Mathematical model of a [`Context`].
pub struct Machine {
    /// The memory words by address.
    pub memory: Seq<u16>,
    /// The register values by slot.
    pub registers: Seq<u16>,
}

impl Machine {
    /// The model has one word per address and one value per register slot.
    /// The view of a [`Context`] always is well formed.
    pub open spec fn wf(self) -> bool {
        &&& self.memory.len() == MEMORY_SIZE
        &&& self.registers.len() == REGISTER_COUNT
    }

    /// Value of a register.
    pub open spec fn reg(self, r: Registers) -> u16 {
        self.registers[r.slot()]
    }

    /// Value of the program counter.
    pub open spec fn pc(self) -> u16 {
        self.reg(Registers::RPC)
    }

    /// Value of the condition-flag register.
    pub open spec fn cond(self) -> u16 {
        self.reg(Registers::RCOND)
    }

    /// Word stored at an address.
    pub open spec fn word(self, address: u16) -> u16 {
        self.memory[address as int]
    }

    /// The machine with the register in slot `r` set to `value`.
    pub open spec fn with_register(self, r: int, value: u16) -> Machine {
        Machine { memory: self.memory, registers: self.registers.update(r, value) }
    }

    /// The machine with the program counter set to `target`.
    pub open spec fn with_pc(self, target: u16) -> Machine {
        self.with_register(Registers::RPC.slot(), target)
    }

    /// The machine with the word at `address` set to `value`.
    pub open spec fn with_word(self, address: u16, value: u16) -> Machine {
        Machine { memory: self.memory.update(address as int, value), registers: self.registers }
    }
}

impl View for Context {
    type V = Machine;

    open spec fn view(&self) -> Machine {
        Machine { memory: self.Memory@, registers: self.Reg@ }
    }
}

impl Context {
    /// A machine in which every memory word and every register is zero.
    pub fn new() -> (context: Context)
        ensures
            context@.wf(),
            forall|address: int| 0 <= address < MEMORY_SIZE ==> context@.memory[address] == 0,
            forall|r: int| 0 <= r < REGISTER_COUNT ==> context@.registers[r] == 0,
    {
        Context { Memory: [0; 65536], Reg: [0; 10] }
    }
}

/// Reads the word at `address`. The machine is left as it was.
pub fn mem_read(address: usize, context: &mut Context) -> (word: u16)
    requires
        address < MEMORY_SIZE,
    ensures
        word == old(context)@.memory[address as int],
        *final(context) == *old(context),
{
    context.Memory[address]
}

} // verus!
