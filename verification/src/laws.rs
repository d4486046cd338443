//! Laws of the machine: properties that hold of every state and every
//! instruction word, proved from the definitions of the other modules.

use vstd::prelude::*;
use crate::dispatch::after_cycles;
use crate::dispatch::cycle_response;
use crate::dispatch::cycle_state;
use crate::dispatch::is_quiet;
use crate::dispatch::last_response;
use crate::dispatch::opcode_field;
use crate::dispatch::run_length;
use crate::image::image_fault;
use crate::image::image_loaded;
use crate::image::image_origin;
use crate::image::image_word;
use crate::image::image_words;
use crate::instructions::base_field;
use crate::instructions::dest_field;
use crate::instructions::offset11;
use crate::instructions::relative_mode;
use crate::instructions::sign_extended;
use crate::instructions::source_field;
use crate::instructions::Conds;
use crate::instructions::Instruction;
use crate::memory::Machine;
use crate::memory::Registers;
use crate::memory::MEMORY_SIZE;
use crate::traps::byte_after;
use crate::traps::high_byte;
use crate::traps::low_byte;
use crate::traps::packed_string;
use crate::traps::word_after;
use crate::traps::word_string;
use crate::traps::MachineError;
use crate::traps::TrapCode;

verus! {

/// A register field names one of the eight general-purpose registers, and an
/// opcode field one of the sixteen opcodes.
pub proof fn lemma_field_ranges(instr: u16)
    ensures
        dest_field(instr) < 8,
        base_field(instr) < 8,
        source_field(instr) < 8,
        opcode_field(instr) < 16,
{
    assert((instr >> 9) & 0x7 < 8) by (bit_vector);
    assert((instr >> 6) & 0x7 < 8) by (bit_vector);
    assert(instr & 0x7 < 8) by (bit_vector);
    assert(instr >> 12 < 16) by (bit_vector);
}

/// Sign extension keeps the signed value: a field of `bit_count` bits whose
/// top bit is clear stands for itself, one whose top bit is set stands for
/// itself less two to the power of `bit_count`, and the 16-bit result read as
/// a two's-complement number is that value.
pub proof fn lemma_sign_extension_keeps_value(x: u16, bit_count: usize)
    requires
        1 <= bit_count <= 16,
        x < (1u32 << bit_count),
    ensures
        x < (1u32 << ((bit_count - 1) as usize)) ==> sign_extended(x, bit_count) as i16 == x,
        x >= (1u32 << ((bit_count - 1) as usize)) ==> sign_extended(x, bit_count) as i16 == x - (1u32
            << bit_count),
{
    assert(x < (1u32 << ((bit_count - 1) as usize)) ==> sign_extended(x, bit_count) as i16 == x)
        by (bit_vector)
        requires
            1 <= bit_count <= 16,
            x < (1u32 << bit_count),
    ;
    assert(x >= (1u32 << ((bit_count - 1) as usize)) ==> sign_extended(x, bit_count) as i16 == x - (
    1u32 << bit_count)) by (bit_vector)
        requires
            1 <= bit_count <= 16,
            x < (1u32 << bit_count),
    ;
}

/// Writing a result and updating the flags leaves the value in the register
/// and exactly one flag in the flag register: zero for 0, negative for a
/// value with bit 15 set, positive for any other.
pub proof fn lemma_result_sets_flags(m: Machine, r: int, value: u16)
    requires
        m.wf(),
        0 <= r < 8,
    ensures
        m.with_result(r, value).registers[r] == value,
        value == 0 ==> m.with_result(r, value).cond() == Conds::FL_ZRO.bit(),
        value >> 15 == 1 ==> m.with_result(r, value).cond() == Conds::FL_NEG.bit(),
        value != 0 && value >> 15 != 1 ==> m.with_result(r, value).cond() == Conds::FL_POS.bit(),
{
    assert(value >> 15 == 1 ==> value != 0) by (bit_vector);
}

/// After an operation that sets the flags, the flag register holds the bit
/// of exactly one flag: that of the value now in the destination register.
pub proof fn lemma_flags_exclusive(op: Instruction, m: Machine, instr: u16)
    requires
        m.wf(),
        op.sets_flags(),
    ensures
        op.applied(m, instr).cond() == Conds::of(
            op.applied(m, instr).registers[dest_field(instr) as int],
        ).bit(),
        op.applied(m, instr).cond() == 1 || op.applied(m, instr).cond() == 2 || op.applied(
            m,
            instr,
        ).cond() == 4,
{
    lemma_field_ranges(instr);
}

/// An operation that does not set the flags leaves the flag register as it
/// was.
pub proof fn lemma_flags_kept(op: Instruction, m: Machine, instr: u16)
    requires
        m.wf(),
        !op.sets_flags(),
    ensures
        op.applied(m, instr).cond() == m.cond(),
{
    lemma_field_ranges(instr);
}

/// A subroutine call first saves the program counter in `R7` and then
/// jumps: by the offset, or to the value that the base register holds once
/// `R7` has been written.
pub proof fn lemma_call_links(m: Machine, instr: u16)
    requires
        m.wf(),
    ensures
        Instruction::JSR.applied(m, instr).reg(Registers::R7) == m.pc(),
        relative_mode(instr) ==> Instruction::JSR.applied(m, instr).pc() == m.pc().wrapping_add(
            offset11(instr),
        ),
        !relative_mode(instr) && base_field(instr) != 7 ==> Instruction::JSR.applied(m, instr).pc()
            == m.registers[base_field(instr) as int],
        !relative_mode(instr) && base_field(instr) == 7 ==> Instruction::JSR.applied(m, instr).pc()
            == m.pc(),
{
    lemma_field_ranges(instr);
}

/// A cycle that fetches a subroutine call leaves in `R7` the address of the
/// word that follows the call.
pub proof fn lemma_call_returns_after_call(m: Machine)
    requires
        m.wf(),
        opcode_field(m.fetched()) == Instruction::JSR.code(),
    ensures
        cycle_state(m).reg(Registers::R7) == m.pc().wrapping_add(1),
{
    lemma_field_ranges(m.fetched());
}

/// The program counter moves to the next word before the operation runs: a
/// cycle whose operation is no branch, jump or call ends with the program
/// counter one word further.
pub proof fn lemma_cycle_advances(m: Machine)
    requires
        m.wf(),
        opcode_field(m.fetched()) != Instruction::BR.code(),
        opcode_field(m.fetched()) != Instruction::JMP.code(),
        opcode_field(m.fetched()) != Instruction::JSR.code(),
    ensures
        cycle_state(m).pc() == m.pc().wrapping_add(1),
{
    lemma_field_ranges(m.fetched());
}

/// Every operation keeps the machine well formed.
pub proof fn lemma_applied_wf(op: Instruction, m: Machine, instr: u16)
    requires
        m.wf(),
    ensures
        op.applied(m, instr).wf(),
{
    lemma_field_ranges(instr);
}

/// Decoding is total and undoes encoding: each operation is selected by its
/// own opcode, each opcode from 0 to 15 selects the operation that has it,
/// and every other value selects `ICOUNT`.
pub proof fn lemma_decoding(op: Instruction, opcode: u16)
    ensures
        Instruction::decoded(op.code()) == op,
        opcode < 16 ==> Instruction::decoded(opcode).code() == opcode,
        opcode >= 16 ==> Instruction::decoded(opcode) == Instruction::ICOUNT,
{
}

/// Each trap routine is selected by its own vector, and a vector selects a
/// routine exactly if it lies in `0x20..=0x25`.
pub proof fn lemma_trap_selection(code: TrapCode, vector: u8)
    ensures
        TrapCode::selected(code.number()) == Ok::<TrapCode, MachineError>(code),
        TrapCode::selected(vector) is Ok <==> 0x20 <= vector <= 0x25,
        TrapCode::selected(vector) is Ok ==> TrapCode::selected(vector)->Ok_0.number() == vector,
        TrapCode::selected(vector) is Err ==> TrapCode::selected(vector)
            == Err::<TrapCode, MachineError>(MachineError::InvalidTrapVector { vector }),
{
}

/// Running one cycle and then `n` more is running `n + 1` cycles.
pub proof fn lemma_cycles_compose(m: Machine, n: nat)
    ensures
        after_cycles(cycle_state(m), n) == after_cycles(m, n + 1),
    decreases n,
{
    assert(after_cycles(m, n + 1) == cycle_state(after_cycles(m, n)));
    if n == 0 {
        assert(after_cycles(m, 0) == m);
    } else {
        lemma_cycles_compose(m, (n - 1) as nat);
    }
}

/// A run stops at the first cycle that asks something of the host: it stays
/// within its budget, every cycle before its last asks nothing, and where it
/// ends before the budget is spent, its last cycle asks something.
pub proof fn lemma_run_stops_at_first_request(m: Machine, budget: nat)
    ensures
        run_length(m, budget) <= budget,
        budget > 0 ==> run_length(m, budget) >= 1,
        forall|k: nat|
            k + 1 < run_length(m, budget) ==> is_quiet(
                #[trigger] cycle_response(after_cycles(m, k)),
            ),
        run_length(m, budget) < budget ==> !is_quiet(last_response(m, run_length(m, budget))),
    decreases budget,
{
    if budget > 0 && is_quiet(cycle_response(m)) {
        let next = cycle_state(m);
        let rest = run_length(next, (budget - 1) as nat);
        lemma_run_stops_at_first_request(next, (budget - 1) as nat);
        assert forall|k: nat| k + 1 < run_length(m, budget) implies is_quiet(
            #[trigger] cycle_response(after_cycles(m, k)),
        ) by {
            if k > 0 {
                lemma_cycles_compose(m, (k - 1) as nat);
                assert(is_quiet(cycle_response(after_cycles(next, (k - 1) as nat))));
            }
        }
        if rest + 1 < budget {
            lemma_cycles_compose(m, (rest - 1) as nat);
        }
    }
}

/// Addition on the machine is two's-complement addition: the sum of two
/// words, read as a signed number, differs from the sum of the two signed
/// operands by a multiple of 65536, and is that sum where it fits in 16 bits.
pub proof fn lemma_add_is_signed(a: u16, b: u16)
    ensures
        (a.wrapping_add(b) as i16 - (a as i16 + b as i16)) % 65536 == 0,
        -32768 <= a as i16 + b as i16 <= 32767 ==> a.wrapping_add(b) as i16 == a as i16 + b as i16,
{
    let sum = a.wrapping_add(b);
    assert(sum == (a + b) % 65536) by {
        assert(sum == if a + b > 65535 { a + b - 65536 } else { a + b });
    }
    assert(sum as i16 == if sum < 32768 { sum as int } else { sum - 65536 }) by (bit_vector);
    assert(a as i16 == if a < 32768 { a as int } else { a - 65536 }) by (bit_vector);
    assert(b as i16 == if b < 32768 { b as int } else { b - 65536 }) by (bit_vector);
}

/// A string of one character per word ends at the first zero word: up to
/// its length every word read is not zero and gives its low byte, and where
/// it is shorter than the limit, the word after it is zero.
pub proof fn lemma_word_string_ends_at_zero(memory: Seq<u16>, start: u16, limit: nat)
    requires
        memory.len() == MEMORY_SIZE,
    ensures
        word_string(memory, start, limit).len() <= limit,
        forall|i: int|
            #![trigger word_after(memory, start, i)]
            #![trigger word_string(memory, start, limit)[i]]
            0 <= i < word_string(memory, start, limit).len() ==> {
                &&& word_after(memory, start, i) != 0
                &&& word_string(memory, start, limit)[i] == low_byte(word_after(memory, start, i))
            },
        word_string(memory, start, limit).len() < limit ==> word_after(
            memory,
            start,
            word_string(memory, start, limit).len() as int,
        ) == 0,
    decreases limit,
{
    if limit > 0 && memory[start as int] != 0 {
        let next = start.wrapping_add(1);
        let rest = word_string(memory, next, (limit - 1) as nat);
        lemma_word_string_ends_at_zero(memory, next, (limit - 1) as nat);
        assert forall|i: int|
            #![trigger word_after(memory, start, i)]
            #![trigger word_string(memory, start, limit)[i]]
            0 <= i < word_string(memory, start, limit).len() implies {
            &&& word_after(memory, start, i) != 0
            &&& word_string(memory, start, limit)[i] == low_byte(word_after(memory, start, i))
        } by {
            if i > 0 {
                assert(word_string(memory, start, limit)[i] == rest[i - 1]);
                assert(word_after(memory, next, i - 1) == word_after(memory, start, i));
            }
        }
        if word_string(memory, start, limit).len() < limit {
            assert(word_after(memory, next, rest.len() as int) == word_after(
                memory,
                start,
                rest.len() as int + 1,
            ));
        }
    } else {
        assert(word_string(memory, start, limit).len() == 0);
    }
}

/// A string of two characters per word ends at the first zero byte: up to
/// its length every byte read is not zero and is the character, and where
/// the string is shorter than two characters for each word of the limit, the
/// byte after it is zero.
pub proof fn lemma_packed_string_ends_at_zero(memory: Seq<u16>, start: u16, limit: nat)
    requires
        memory.len() == MEMORY_SIZE,
    ensures
        packed_string(memory, start, limit).len() <= 2 * limit,
        forall|i: int|
            #![trigger byte_after(memory, start, i)]
            #![trigger packed_string(memory, start, limit)[i]]
            0 <= i < packed_string(memory, start, limit).len() ==> {
                &&& byte_after(memory, start, i) != 0
                &&& packed_string(memory, start, limit)[i] == byte_after(memory, start, i)
            },
        packed_string(memory, start, limit).len() < 2 * limit ==> byte_after(
            memory,
            start,
            packed_string(memory, start, limit).len() as int,
        ) == 0,
    decreases limit,
{
    let text = packed_string(memory, start, limit);
    assert(word_after(memory, start, 0) == memory[start as int]);
    if limit == 0 || low_byte(memory[start as int]) == 0 {
        assert(text.len() == 0);
    } else if high_byte(memory[start as int]) == 0 {
        assert(text.len() == 1);
    } else {
        let next = start.wrapping_add(1);
        let rest = packed_string(memory, next, (limit - 1) as nat);
        lemma_packed_string_ends_at_zero(memory, next, (limit - 1) as nat);
        assert(text.len() == rest.len() + 2);
        assert forall|i: int|
            #![trigger byte_after(memory, start, i)]
            #![trigger packed_string(memory, start, limit)[i]]
            0 <= i < text.len() implies {
            &&& byte_after(memory, start, i) != 0
            &&& text[i] == byte_after(memory, start, i)
        } by {
            if i >= 2 {
                assert(text[i] == rest[i - 2]);
                assert(word_after(memory, next, (i - 2) / 2) == word_after(memory, start, i / 2));
                assert(byte_after(memory, next, i - 2) == byte_after(memory, start, i));
            }
        }
        if text.len() < 2 * limit {
            let end = rest.len() as int;
            assert(word_after(memory, next, end / 2) == word_after(memory, start, (end + 2) / 2));
            assert(byte_after(memory, next, end) == byte_after(memory, start, end + 2));
        }
    }
}

/// A cycle keeps the machine well formed.
pub proof fn lemma_cycle_wf(m: Machine)
    requires
        m.wf(),
    ensures
        cycle_state(m).wf(),
{
    lemma_applied_wf(Instruction::decoded(opcode_field(m.fetched())), m.advanced(), m.fetched());
}

/// Loading a sound image puts each of its program words at the origin plus
/// the word's position and leaves every other word of memory as it was.
pub proof fn lemma_load_round_trip(memory: Seq<u16>, image: Seq<u8>)
    requires
        memory.len() == MEMORY_SIZE,
        image_fault(image) is None,
    ensures
        image_loaded(memory, image).len() == MEMORY_SIZE,
        forall|i: int|
            0 <= i < image_words(image) ==> #[trigger] image_loaded(memory, image)[image_origin(image)
                + i] == image_word(image, i),
        forall|address: int|
            0 <= address < image_origin(image) || image_origin(image) + image_words(image)
                <= address < MEMORY_SIZE ==> #[trigger] image_loaded(memory, image)[address]
                == memory[address],
{
}

} // verus!
