//! The trap routines: character input and output, string output and halt.
//!
//! The library touches no stream itself. A routine hands the host an
//! [`Effect`]: the bytes to write to the output stream, and a [`Signal`] that
//! says what the host does once they are written. Where the signal asks for a
//! character, the host reads one byte and passes what it got to [`deliver`].

use vstd::prelude::*;
use crate::memory::Context;
use crate::memory::Machine;
use crate::memory::Registers;
use crate::memory::MEMORY_SIZE;

verus! {

/// What the host does after it has written a cycle's output.
#[derive(Clone, Copy, Debug, PartialEq, Eq, Structural)]
pub enum Signal {
    /// Go on with the next cycle.
    Continue,
    /// Read one byte from the input stream, blocking until it is there, and
    /// pass the result to [`deliver`] together with `echo`.
    Read { echo: bool },
    /// Stop: the machine has halted.
    Halt,
}

/// What one instruction asks of the host.
#[derive(Clone, Debug, PartialEq, Eq)]
pub struct Effect {
    /// What to do after writing `output`.
    pub signal: Signal,
    /// The characters to write to the output stream, one per byte.
    pub output: Vec<u8>,
}

/// Mathematical model of an [`Effect`].
pub struct EffectModel {
    pub signal: Signal,
    pub output: Seq<u8>,
}

impl EffectModel {
    /// Nothing to write, and the machine goes on.
    pub open spec fn quiet() -> EffectModel {
        EffectModel { signal: Signal::Continue, output: Seq::empty() }
    }
}

impl View for Effect {
    type V = EffectModel;

    open spec fn view(&self) -> EffectModel {
        EffectModel { signal: self.signal, output: self.output@ }
    }
}

impl Effect {
    /// The effect of an instruction that asks nothing of the host.
    pub fn quiet() -> (effect: Effect)
        ensures
            effect@ == EffectModel::quiet(),
    {
        Effect { signal: Signal::Continue, output: Vec::new() }
    }

    /// Whether the effect asks nothing of the host.
    pub fn is_quiet(&self) -> (quiet: bool)
        ensures
            quiet == (self@ == EffectModel::quiet()),
    {
        let quiet = self.signal == Signal::Continue && self.output.len() == 0;
        assert(quiet ==> self@.output =~= Seq::<u8>::empty());
        quiet
    }
}

/// Why the machine cannot go on.
#[derive(Clone, Copy, Debug, PartialEq, Eq, Structural)]
pub enum MachineError {
    /// A trap instruction named a vector that selects no routine.
    InvalidTrapVector { vector: u8 },
}

/// Mathematical model of what an instruction or a cycle returns: the model
/// of the effect, or the error.
pub open spec fn outcome_view(outcome: Result<Effect, MachineError>) -> Result<
    EffectModel,
    MachineError,
> {
    match outcome {
        Ok(effect) => Ok(effect@),
        Err(error) => Err(error),
    }
}

/// The byte sent in place of a character when the input stream has ended or
/// cannot be read.
pub const INPUT_SENTINEL: u8 = 0xFF;

/// The character that a read attempt yields: the byte read, or the sentinel
/// where the host got none.
pub open spec fn received(read: Option<u8>) -> char {
    match read {
        Some(byte) => byte as char,
        None => INPUT_SENTINEL as char,
    }
}

/// Turns the result of the host's read attempt into the character that the
/// machine sees. `None` stands for the end of the input and for a failed read.
pub fn getc(read: Option<u8>) -> (c: char)
    ensures
        c == received(read),
{
    match read {
        Some(byte) => byte as char,
        None => INPUT_SENTINEL as char,
    }
}

/// The low byte of a word.
pub open spec fn low_byte(word: u16) -> u8 {
    (word & 0xFF) as u8
}

/// The high byte of a word.
pub open spec fn high_byte(word: u16) -> u8 {
    (word >> 8) as u8
}

/// The word that lies `i` words after `start`, with addresses wrapping around.
pub open spec fn word_after(memory: Seq<u16>, start: u16, i: int) -> u16 {
    memory[(start + i) % (MEMORY_SIZE as int)]
}

/// The characters of the string at `start` that holds one character in the
/// low byte of each word and ends before the first zero word. Addresses wrap
/// around; at most `limit` words are read.
pub open spec fn word_string(memory: Seq<u16>, start: u16, limit: nat) -> Seq<u8>
    decreases limit,
{
    if limit == 0 || memory[start as int] == 0 {
        Seq::empty()
    } else {
        seq![low_byte(memory[start as int])] + word_string(
            memory,
            start.wrapping_add(1),
            (limit - 1) as nat,
        )
    }
}

/// The `i`-th byte of the words from `start` on, taking the low byte of each
/// word before its high byte.
pub open spec fn byte_after(memory: Seq<u16>, start: u16, i: int) -> u8 {
    if i % 2 == 0 {
        low_byte(word_after(memory, start, i / 2))
    } else {
        high_byte(word_after(memory, start, i / 2))
    }
}

/// The characters of the string at `start` that holds two characters in each
/// word, the low byte first, and ends before the first zero byte. Addresses
/// wrap around; at most `limit` words are read.
pub open spec fn packed_string(memory: Seq<u16>, start: u16, limit: nat) -> Seq<u8>
    decreases limit,
{
    if limit == 0 || low_byte(memory[start as int]) == 0 {
        Seq::empty()
    } else if high_byte(memory[start as int]) == 0 {
        seq![low_byte(memory[start as int])]
    } else {
        seq![low_byte(memory[start as int]), high_byte(memory[start as int])] + packed_string(
            memory,
            start.wrapping_add(1),
            (limit - 1) as nat,
        )
    }
}

/// The line that asks the user for a character: `Enter Character` and a
/// newline.
pub open spec fn prompt_text() -> Seq<u8> {
    seq![69u8, 110u8, 116u8, 101u8, 114u8, 32u8, 67u8, 104u8, 97u8, 114u8, 97u8, 99u8, 116u8, 101u8,
        114u8, 10u8]
}

/// The notice written when the machine halts: a newline, `Program Halted` and
/// a newline.
pub open spec fn halt_text() -> Seq<u8> {
    seq![10u8, 80u8, 114u8, 111u8, 103u8, 114u8, 97u8, 109u8, 32u8, 72u8, 97u8, 108u8, 116u8, 101u8,
        100u8, 10u8]
}

/// What is written after a character has been read: nothing, or the character
/// and a newline where it is echoed.
pub open spec fn echo_text(c: char, echo: bool) -> Seq<u8> {
    if echo {
        seq![c as u8, 10u8]
    } else {
        Seq::empty()
    }
}

/// The trap routines, each selected by its vector.
#[derive(Clone, Copy, Debug, PartialEq, Eq, Structural)]
pub enum TrapCode {
    /// Read a character from the keyboard without echo.
    GETC,
    /// Write a character.
    OUT,
    /// Write a string of one character per word.
    PUTS,
    /// Prompt for a character, read it and echo it.
    IN,
    /// Write a string of two characters per word.
    PUTSP,
    /// Halt the machine.
    HALT,
}

impl TrapCode {
    /// The vector that selects the routine.
    pub open spec fn number(self) -> u8 {
        match self {
            TrapCode::GETC => 0x20,
            TrapCode::OUT => 0x21,
            TrapCode::PUTS => 0x22,
            TrapCode::IN => 0x23,
            TrapCode::PUTSP => 0x24,
            TrapCode::HALT => 0x25,
        }
    }

    /// The routine that a vector selects, or the error for a vector outside
    /// `0x20..=0x25`.
    pub open spec fn selected(vector: u8) -> Result<TrapCode, MachineError> {
        if vector == 0x20 {
            Ok(TrapCode::GETC)
        } else if vector == 0x21 {
            Ok(TrapCode::OUT)
        } else if vector == 0x22 {
            Ok(TrapCode::PUTS)
        } else if vector == 0x23 {
            Ok(TrapCode::IN)
        } else if vector == 0x24 {
            Ok(TrapCode::PUTSP)
        } else if vector == 0x25 {
            Ok(TrapCode::HALT)
        } else {
            Err(MachineError::InvalidTrapVector { vector })
        }
    }

    /// What the routine asks of the host, given the machine it runs on.
    pub open spec fn effect(self, m: Machine) -> EffectModel {
        match self {
            TrapCode::GETC => EffectModel {
                signal: Signal::Read { echo: false },
                output: Seq::empty(),
            },
            TrapCode::OUT => EffectModel {
                signal: Signal::Continue,
                output: seq![low_byte(m.reg(Registers::R0))],
            },
            TrapCode::PUTS => EffectModel {
                signal: Signal::Continue,
                output: word_string(m.memory, m.reg(Registers::R0), MEMORY_SIZE as nat),
            },
            TrapCode::IN => EffectModel { signal: Signal::Read { echo: true }, output: prompt_text() },
            TrapCode::PUTSP => EffectModel {
                signal: Signal::Continue,
                output: packed_string(m.memory, m.reg(Registers::R0), MEMORY_SIZE as nat),
            },
            TrapCode::HALT => EffectModel { signal: Signal::Halt, output: halt_text() },
        }
    }

    /// The vector that selects the routine.
    pub fn vector(&self) -> (v: u8)
        ensures
            v == self.number(),
    {
        match self {
            TrapCode::GETC => 0x20,
            TrapCode::OUT => 0x21,
            TrapCode::PUTS => 0x22,
            TrapCode::IN => 0x23,
            TrapCode::PUTSP => 0x24,
            TrapCode::HALT => 0x25,
        }
    }

    /// Looks up the routine that a vector selects. A vector outside
    /// `0x20..=0x25` is an error, never a silent no-op.
    pub fn from_vector(vector: u8) -> (found: Result<TrapCode, MachineError>)
        ensures
            found == TrapCode::selected(vector),
            0x20 <= vector <= 0x25 ==> found is Ok && found->Ok_0.number() == vector,
            !(0x20 <= vector <= 0x25) ==> found == Err::<TrapCode, MachineError>(
                MachineError::InvalidTrapVector { vector },
            ),
    {
        match vector {
            0x20 => Ok(TrapCode::GETC),
            0x21 => Ok(TrapCode::OUT),
            0x22 => Ok(TrapCode::PUTS),
            0x23 => Ok(TrapCode::IN),
            0x24 => Ok(TrapCode::PUTSP),
            0x25 => Ok(TrapCode::HALT),
            _ => Err(MachineError::InvalidTrapVector { vector }),
        }
    }

    /// Runs the routine up to the point where the host has to act. The
    /// machine is left as it was: the routines that read a character store it
    /// when the host calls [`deliver`]. `instr` is the instruction word; none
    /// of the routines reads it.
    pub fn run(&self, context: &mut Context, instr: &usize) -> (effect: Effect)
        ensures
            *final(context) == *old(context),
            effect@ == self.effect(old(context)@),
    {
        match self {
            TrapCode::GETC => Effect { signal: Signal::Read { echo: false }, output: Vec::new() },
            TrapCode::OUT => {
                let mut output: Vec<u8> = Vec::new();
                output.push(low_byte_of(context.Reg[Registers::R0.index()]));
                assert(output@ =~= seq![low_byte(context@.reg(Registers::R0))]);
                Effect { signal: Signal::Continue, output }
            },
            TrapCode::PUTS => {
                let output = read_word_string(context, context.Reg[Registers::R0.index()]);
                Effect { signal: Signal::Continue, output }
            },
            TrapCode::IN => Effect { signal: Signal::Read { echo: true }, output: prompt() },
            TrapCode::PUTSP => {
                let output = read_packed_string(context, context.Reg[Registers::R0.index()]);
                Effect { signal: Signal::Continue, output }
            },
            TrapCode::HALT => Effect { signal: Signal::Halt, output: halt_notice() },
        }
    }
}

/// Stores the character that the host read for `GETC` or `IN` in `R0`,
/// zero-extended, and returns what to write to the output stream: the echo,
/// where the routine asked for one. `read` is the byte read, or `None` at the
/// end of the input or after a failed read, which stores the sentinel. The
/// flags are left as they were.
pub fn deliver(context: &mut Context, read: Option<u8>, echo: bool) -> (shown: Vec<u8>)
    ensures
        final(context)@ == old(context)@.with_register(
            Registers::R0.slot(),
            received(read) as u16,
        ),
        shown@ == echo_text(received(read), echo),
{
    let c = getc(read);
    context.Reg[Registers::R0.index()] = c as u16;
    let mut shown: Vec<u8> = Vec::new();
    if echo {
        shown.push(c as u8);
        shown.push(10u8);
    }
    assert(shown@ =~= echo_text(received(read), echo));
    shown
}

fn low_byte_of(word: u16) -> (byte: u8)
    ensures
        byte == low_byte(word),
{
    assert(word & 0xFF < 256) by (bit_vector);
    (word & 0xFF) as u8
}

fn high_byte_of(word: u16) -> (byte: u8)
    ensures
        byte == high_byte(word),
{
    assert(word >> 8 < 256) by (bit_vector);
    (word >> 8) as u8
}

fn prompt() -> (text: Vec<u8>)
    ensures
        text@ == prompt_text(),
{
    let text = vec![69u8, 110u8, 116u8, 101u8, 114u8, 32u8, 67u8, 104u8, 97u8, 114u8, 97u8, 99u8,
        116u8, 101u8, 114u8, 10u8];
    assert(text@ =~= prompt_text());
    text
}

fn halt_notice() -> (text: Vec<u8>)
    ensures
        text@ == halt_text(),
{
    let text = vec![10u8, 80u8, 114u8, 111u8, 103u8, 114u8, 97u8, 109u8, 32u8, 72u8, 97u8, 108u8,
        116u8, 101u8, 100u8, 10u8];
    assert(text@ =~= halt_text());
    text
}

fn read_word_string(context: &Context, start: u16) -> (text: Vec<u8>)
    ensures
        text@ == word_string(context@.memory, start, MEMORY_SIZE as nat),
{
    let mut text: Vec<u8> = Vec::new();
    let mut address: u16 = start;
    let mut left: usize = MEMORY_SIZE;
    while left > 0 && context.Memory[address as usize] != 0
        invariant
            left <= MEMORY_SIZE,
            word_string(context@.memory, start, MEMORY_SIZE as nat) == text@ + word_string(
                context@.memory,
                address,
                left as nat,
            ),
        decreases left,
    {
        let ghost before = text@;
        let ghost rest = word_string(context@.memory, address.wrapping_add(1), (left - 1) as nat);
        let byte = low_byte_of(context.Memory[address as usize]);
        text.push(byte);
        assert(before + (seq![byte] + rest) =~= text@ + rest);
        address = address.wrapping_add(1);
        left = left - 1;
    }
    assert(text@ + Seq::<u8>::empty() =~= text@);
    text
}

fn read_packed_string(context: &Context, start: u16) -> (text: Vec<u8>)
    ensures
        text@ == packed_string(context@.memory, start, MEMORY_SIZE as nat),
{
    let mut text: Vec<u8> = Vec::new();
    let mut address: u16 = start;
    let mut left: usize = MEMORY_SIZE;
    let mut open = true;
    while open && left > 0
        invariant
            left <= MEMORY_SIZE,
            packed_string(context@.memory, start, MEMORY_SIZE as nat) == text@ + if open {
                packed_string(context@.memory, address, left as nat)
            } else {
                Seq::<u8>::empty()
            },
        decreases left + if open { 1nat } else { 0nat },
    {
        let ghost before = text@;
        let ghost rest = packed_string(context@.memory, address.wrapping_add(1), (left - 1) as nat);
        let low = low_byte_of(context.Memory[address as usize]);
        let high = high_byte_of(context.Memory[address as usize]);
        if low == 0 {
            open = false;
        } else if high == 0 {
            text.push(low);
            assert(before + seq![low] =~= text@);
            open = false;
        } else {
            text.push(low);
            text.push(high);
            assert(before + (seq![low, high] + rest) =~= text@ + rest);
            address = address.wrapping_add(1);
            left = left - 1;
        }
    }
    assert(text@ + Seq::<u8>::empty() =~= text@);
    text
}

} // verus!
