//! The instruction set: operand fields, sign extension, condition flags and
//! the effect of each of the sixteen opcodes on the machine.

use vstd::prelude::*;
use crate::memory::mem_read;
use crate::memory::Context;
use crate::memory::Machine;
use crate::memory::Registers;
use crate::memory::REGISTER_COUNT;
use crate::traps::outcome_view;
use crate::traps::Effect;
use crate::traps::EffectModel;
use crate::traps::MachineError;
use crate::traps::TrapCode;

verus! {

/// A field of `bit_count` bits read as a 16-bit two's-complement value: where
/// the field's top bit, bit `bit_count - 1`, is 1, every bit from position
/// `bit_count` upwards is set; where it is 0, the field is unchanged.
pub open spec fn sign_extended(x: u16, bit_count: usize) -> u16 {
    if (x >> ((bit_count - 1) as usize)) & 1 == 1 {
        x | (0xFFFFu16 << bit_count)
    } else {
        x
    }
}

/// Widens a field of `bit_count` bits to 16 bits, keeping its signed value.
/// A width above 16 names a bit that a 16-bit value does not have, which
/// counts as clear.
pub fn sign_extend(x: u16, bit_count: usize) -> (extended: u16)
    requires
        bit_count >= 1,
    ensures
        extended == sign_extended(x, bit_count),
        (x >> ((bit_count - 1) as usize)) & 1 == 0 ==> extended == x,
        (x >> ((bit_count - 1) as usize)) & 1 == 1 ==> extended == x | (0xFFFFu16 << bit_count),
{
    if bit_count > 16 {
        assert((x >> ((bit_count - 1) as usize)) & 1 == 0) by (bit_vector)
            requires
                bit_count > 16,
        ;
        x
    } else if bit_count == 16 {
        assert(x | (0xFFFFu16 << bit_count) == x) by (bit_vector)
            requires
                bit_count == 16,
        ;
        x
    } else if (x >> (bit_count - 1)) & 1 == 1 {
        x | (0xFFFF << bit_count)
    } else {
        x
    }
}

/// The condition flags. The flag register holds the bit of exactly one of
/// them once an instruction has set the flags.
#[derive(Clone, Copy, Debug, PartialEq, Eq, Structural)]
pub enum Conds {
    /// The last result was positive.
    FL_POS,
    /// The last result was zero.
    FL_ZRO,
    /// The last result was negative.
    FL_NEG,
}

impl Conds {
    /// The flag's bit in the flag register: bit 0 for positive, bit 1 for
    /// zero, bit 2 for negative.
    pub open spec fn bit(self) -> u16 {
        match self {
            Conds::FL_POS => 1,
            Conds::FL_ZRO => 2,
            Conds::FL_NEG => 4,
        }
    }

    /// The flag that a 16-bit value sets: zero for 0, negative where bit 15
    /// is set, positive otherwise.
    pub open spec fn of(value: u16) -> Conds {
        if value == 0 {
            Conds::FL_ZRO
        } else if value >> 15 == 1 {
            Conds::FL_NEG
        } else {
            Conds::FL_POS
        }
    }

    /// The flag's bit in the flag register.
    pub fn mask(&self) -> (m: u16)
        ensures
            m == self.bit(),
    {
        match self {
            Conds::FL_POS => 1,
            Conds::FL_ZRO => 2,
            Conds::FL_NEG => 4,
        }
    }
}

impl Machine {
    /// The machine with the flag register set from the value in slot `r`.
    pub open spec fn with_flags(self, r: int) -> Machine {
        self.with_register(Registers::RCOND.slot(), Conds::of(self.registers[r]).bit())
    }

    /// The machine after a flag-setting instruction has written `value` to
    /// the register in slot `r`.
    pub open spec fn with_result(self, r: int, value: u16) -> Machine {
        self.with_register(r, value).with_flags(r)
    }
}

/// Sets the flag register from the value that the register in slot `r` holds:
/// to the zero flag for 0, to the negative flag for a value with bit 15 set,
/// to the positive flag for any other. Nothing else changes.
pub fn update_flags(r: usize, context: &mut Context)
    requires
        r < REGISTER_COUNT,
    ensures
        final(context)@ == old(context)@.with_flags(r as int),
        old(context)@.registers[r as int] == 0 ==> final(context)@.cond() == Conds::FL_ZRO.bit(),
        old(context)@.registers[r as int] >> 15 == 1 ==> final(context)@.cond()
            == Conds::FL_NEG.bit(),
        old(context)@.registers[r as int] != 0 && old(context)@.registers[r as int] >> 15 != 1
            ==> final(context)@.cond() == Conds::FL_POS.bit(),
{
    let value = context.Reg[r];
    assert(value >> 15 == 1 ==> value != 0) by (bit_vector);
    if value == 0 {
        context.Reg[Registers::RCOND.index()] = Conds::FL_ZRO.mask();
    } else if value >> 15 == 1 {
        context.Reg[Registers::RCOND.index()] = Conds::FL_NEG.mask();
    } else {
        context.Reg[Registers::RCOND.index()] = Conds::FL_POS.mask();
    }
}

/// Bits 9 to 11 of an instruction: the destination register of a load or
/// an arithmetic instruction, the source register of a store, the condition
/// mask of a branch.
pub open spec fn dest_field(instr: u16) -> u16 {
    (instr >> 9) & 0x7
}

/// Bits 6 to 8 of an instruction: the first source register or the base
/// register.
pub open spec fn base_field(instr: u16) -> u16 {
    (instr >> 6) & 0x7
}

/// Bits 0 to 2 of an instruction: the second source register.
pub open spec fn source_field(instr: u16) -> u16 {
    instr & 0x7
}

/// Bit 5 of an arithmetic instruction: set where the second operand is an
/// immediate value.
pub open spec fn immediate_mode(instr: u16) -> bool {
    (instr >> 5) & 0x1 == 1
}

/// Bit 11 of a subroutine call: set where the target is relative to the
/// program counter.
pub open spec fn relative_mode(instr: u16) -> bool {
    (instr >> 11) & 0x1 == 1
}

/// The immediate operand in bits 0 to 4, sign-extended.
pub open spec fn imm5(instr: u16) -> u16 {
    sign_extended(instr & 0x1F, 5)
}

/// The offset in bits 0 to 5, sign-extended.
pub open spec fn offset6(instr: u16) -> u16 {
    sign_extended(instr & 0x3F, 6)
}

/// The offset in bits 0 to 8, sign-extended.
pub open spec fn offset9(instr: u16) -> u16 {
    sign_extended(instr & 0x1FF, 9)
}

/// The offset in bits 0 to 10, sign-extended.
pub open spec fn offset11(instr: u16) -> u16 {
    sign_extended(instr & 0x7FF, 11)
}

/// The trap vector in bits 0 to 7.
pub open spec fn trap_vector(instr: u16) -> u8 {
    (instr & 0xFF) as u8
}

/// The second operand of an arithmetic instruction: the immediate value, or
/// the value of the second source register.
pub open spec fn second_operand(m: Machine, instr: u16) -> u16 {
    if immediate_mode(instr) {
        imm5(instr)
    } else {
        m.registers[source_field(instr) as int]
    }
}

/// The address that lies `offset9` words from the program counter.
pub open spec fn pc_relative(m: Machine, instr: u16) -> u16 {
    m.pc().wrapping_add(offset9(instr))
}

/// The address that lies `offset6` words from the value of the base register.
pub open spec fn base_relative(m: Machine, instr: u16) -> u16 {
    m.registers[base_field(instr) as int].wrapping_add(offset6(instr))
}

/// The operations of the machine, by opcode, and `ICOUNT`, the number of
/// opcodes, which stands for a value that is no opcode.
#[derive(Clone, Copy, Debug, PartialEq, Eq, Structural)]
pub enum Instruction {
    /// Branch.
    BR,
    /// Add.
    ADD,
    /// Load.
    LD,
    /// Store.
    ST,
    /// Jump to subroutine.
    JSR,
    /// Bitwise and.
    AND,
    /// Load relative to a register.
    LDR,
    /// Store relative to a register.
    STR,
    /// Reserved; does nothing.
    RTI,
    /// Bitwise not.
    NOT,
    /// Load indirect.
    LDI,
    /// Store indirect.
    STI,
    /// Jump.
    JMP,
    /// Reserved; does nothing.
    RES,
    /// Load effective address.
    LEA,
    /// Call a trap routine.
    TRAP,
    /// Not an operation; does nothing.
    ICOUNT,
}

impl Instruction {
    /// The opcode of the operation; 16 for `ICOUNT`.
    pub open spec fn code(self) -> u16 {
        match self {
            Instruction::BR => 0,
            Instruction::ADD => 1,
            Instruction::LD => 2,
            Instruction::ST => 3,
            Instruction::JSR => 4,
            Instruction::AND => 5,
            Instruction::LDR => 6,
            Instruction::STR => 7,
            Instruction::RTI => 8,
            Instruction::NOT => 9,
            Instruction::LDI => 10,
            Instruction::STI => 11,
            Instruction::JMP => 12,
            Instruction::RES => 13,
            Instruction::LEA => 14,
            Instruction::TRAP => 15,
            Instruction::ICOUNT => 16,
        }
    }

    /// The operation that an opcode selects; `ICOUNT` for a value above 15.
    pub open spec fn decoded(opcode: u16) -> Instruction {
        if opcode == 0 {
            Instruction::BR
        } else if opcode == 1 {
            Instruction::ADD
        } else if opcode == 2 {
            Instruction::LD
        } else if opcode == 3 {
            Instruction::ST
        } else if opcode == 4 {
            Instruction::JSR
        } else if opcode == 5 {
            Instruction::AND
        } else if opcode == 6 {
            Instruction::LDR
        } else if opcode == 7 {
            Instruction::STR
        } else if opcode == 8 {
            Instruction::RTI
        } else if opcode == 9 {
            Instruction::NOT
        } else if opcode == 10 {
            Instruction::LDI
        } else if opcode == 11 {
            Instruction::STI
        } else if opcode == 12 {
            Instruction::JMP
        } else if opcode == 13 {
            Instruction::RES
        } else if opcode == 14 {
            Instruction::LEA
        } else if opcode == 15 {
            Instruction::TRAP
        } else {
            Instruction::ICOUNT
        }
    }

    /// Whether the operation sets the condition flags from its result.
    pub open spec fn sets_flags(self) -> bool {
        ||| self == Instruction::ADD
        ||| self == Instruction::AND
        ||| self == Instruction::NOT
        ||| self == Instruction::LD
        ||| self == Instruction::LDI
        ||| self == Instruction::LDR
        ||| self == Instruction::LEA
    }

    /// The machine after the operation has run on the instruction word
    /// `instr`. The program counter of `m` already points past the
    /// instruction.
    pub open spec fn applied(self, m: Machine, instr: u16) -> Machine {
        let dest = dest_field(instr) as int;
        let base = base_field(instr) as int;
        match self {
            Instruction::BR => if dest_field(instr) & m.cond() != 0 {
                m.with_pc(pc_relative(m, instr))
            } else {
                m
            },
            Instruction::ADD => m.with_result(
                dest,
                m.registers[base].wrapping_add(second_operand(m, instr)),
            ),
            Instruction::AND => m.with_result(dest, m.registers[base] & second_operand(m, instr)),
            Instruction::NOT => m.with_result(dest, !m.registers[base]),
            Instruction::LD => m.with_result(dest, m.word(pc_relative(m, instr))),
            Instruction::LDI => m.with_result(dest, m.word(m.word(pc_relative(m, instr)))),
            Instruction::LDR => m.with_result(dest, m.word(base_relative(m, instr))),
            Instruction::LEA => m.with_result(dest, pc_relative(m, instr)),
            Instruction::ST => m.with_word(pc_relative(m, instr), m.registers[dest]),
            Instruction::STI => m.with_word(m.word(pc_relative(m, instr)), m.registers[dest]),
            Instruction::STR => m.with_word(base_relative(m, instr), m.registers[dest]),
            Instruction::JMP => m.with_pc(m.registers[base]),
            Instruction::JSR => {
                let linked = m.with_register(Registers::R7.slot(), m.pc());
                if relative_mode(instr) {
                    linked.with_pc(m.pc().wrapping_add(offset11(instr)))
                } else {
                    linked.with_pc(linked.registers[base])
                }
            },
            Instruction::RTI | Instruction::RES | Instruction::TRAP | Instruction::ICOUNT => m,
        }
    }

    /// What the operation asks of the host: nothing, but for a trap, which
    /// asks what its routine asks, and fails on a vector that selects none.
    pub open spec fn response(self, m: Machine, instr: u16) -> Result<EffectModel, MachineError> {
        if self == Instruction::TRAP {
            match TrapCode::selected(trap_vector(instr)) {
                Ok(code) => Ok(code.effect(m)),
                Err(error) => Err(error),
            }
        } else {
            Ok(EffectModel::quiet())
        }
    }

    /// The opcode of the operation; 16 for `ICOUNT`.
    pub fn opcode(&self) -> (code: u16)
        ensures
            code == self.code(),
    {
        match self {
            Instruction::BR => 0,
            Instruction::ADD => 1,
            Instruction::LD => 2,
            Instruction::ST => 3,
            Instruction::JSR => 4,
            Instruction::AND => 5,
            Instruction::LDR => 6,
            Instruction::STR => 7,
            Instruction::RTI => 8,
            Instruction::NOT => 9,
            Instruction::LDI => 10,
            Instruction::STI => 11,
            Instruction::JMP => 12,
            Instruction::RES => 13,
            Instruction::LEA => 14,
            Instruction::TRAP => 15,
            Instruction::ICOUNT => 16,
        }
    }

    /// The operation that an opcode selects. Every value from 0 to 15 selects
    /// the operation with that opcode; a greater value selects `ICOUNT`.
    pub fn from_opcode(opcode: u16) -> (op: Instruction)
        ensures
            op == Instruction::decoded(opcode),
            opcode < 16 ==> op.code() == opcode,
            opcode >= 16 ==> op == Instruction::ICOUNT,
    {
        match opcode {
            0 => Instruction::BR,
            1 => Instruction::ADD,
            2 => Instruction::LD,
            3 => Instruction::ST,
            4 => Instruction::JSR,
            5 => Instruction::AND,
            6 => Instruction::LDR,
            7 => Instruction::STR,
            8 => Instruction::RTI,
            9 => Instruction::NOT,
            10 => Instruction::LDI,
            11 => Instruction::STI,
            12 => Instruction::JMP,
            13 => Instruction::RES,
            14 => Instruction::LEA,
            15 => Instruction::TRAP,
            _ => Instruction::ICOUNT,
        }
    }

    /// Runs the operation on the instruction word `instr`, with the program
    /// counter already pointing past the instruction. Returns what the host
    /// has to do, or the error of a trap whose vector selects no routine; the
    /// machine is then left as it was.
    pub fn Run(&self, context: &mut Context, instr: &u16) -> (outcome: Result<Effect, MachineError>)
        ensures
            final(context)@ == self.applied(old(context)@, *instr),
            outcome_view(outcome) == self.response(old(context)@, *instr),
    {
        let instr: u16 = *instr;
        match *self {
            Instruction::BR => {
                let conds = dest_of(instr) as u16;
                let offset = sign_extend(instr & 0x1FF, 9);
                if conds & context.Reg[Registers::RCOND.index()] != 0 {
                    context.Reg[Registers::RPC.index()] =
                        context.Reg[Registers::RPC.index()].wrapping_add(offset);
                }
            },
            Instruction::ADD => {
                let dest = dest_of(instr);
                let r1 = base_of(instr);
                if (instr >> 5) & 0x1 == 1 {
                    let imm5 = sign_extend(instr & 0x1F, 5);
                    context.Reg[dest] = context.Reg[r1].wrapping_add(imm5);
                } else {
                    let r2 = source_of(instr);
                    context.Reg[dest] = context.Reg[r1].wrapping_add(context.Reg[r2]);
                }
                update_flags(dest, context);
            },
            Instruction::LD => {
                let dest = dest_of(instr);
                let offset = sign_extend(instr & 0x1FF, 9);
                let address = context.Reg[Registers::RPC.index()].wrapping_add(offset);
                context.Reg[dest] = mem_read(address as usize, context);
                update_flags(dest, context);
            },
            Instruction::ST => {
                let src = dest_of(instr);
                let offset = sign_extend(instr & 0x1FF, 9);
                let address = context.Reg[Registers::RPC.index()].wrapping_add(offset);
                context.Memory[address as usize] = context.Reg[src];
            },
            Instruction::JSR => {
                context.Reg[Registers::R7.index()] = context.Reg[Registers::RPC.index()];
                if (instr >> 11) & 0x1 == 1 {
                    let offset = sign_extend(instr & 0x7FF, 11);
                    context.Reg[Registers::RPC.index()] =
                        context.Reg[Registers::RPC.index()].wrapping_add(offset);
                } else {
                    let src = base_of(instr);
                    context.Reg[Registers::RPC.index()] = context.Reg[src];
                }
            },
            Instruction::AND => {
                let dest = dest_of(instr);
                let r1 = base_of(instr);
                if (instr >> 5) & 0x1 == 1 {
                    let imm5 = sign_extend(instr & 0x1F, 5);
                    context.Reg[dest] = context.Reg[r1] & imm5;
                } else {
                    let r2 = source_of(instr);
                    context.Reg[dest] = context.Reg[r1] & context.Reg[r2];
                }
                update_flags(dest, context);
            },
            Instruction::LDR => {
                let dest = dest_of(instr);
                let base = base_of(instr);
                let offset = sign_extend(instr & 0x3F, 6);
                let address = context.Reg[base].wrapping_add(offset);
                context.Reg[dest] = mem_read(address as usize, context);
                update_flags(dest, context);
            },
            Instruction::STR => {
                let src = dest_of(instr);
                let base = base_of(instr);
                let offset = sign_extend(instr & 0x3F, 6);
                let address = context.Reg[base].wrapping_add(offset);
                context.Memory[address as usize] = context.Reg[src];
            },
            Instruction::RTI => {},
            Instruction::NOT => {
                let dest = dest_of(instr);
                let src = base_of(instr);
                context.Reg[dest] = !context.Reg[src];
                update_flags(dest, context);
            },
            Instruction::LDI => {
                let dest = dest_of(instr);
                let offset = sign_extend(instr & 0x1FF, 9);
                let pointer = context.Reg[Registers::RPC.index()].wrapping_add(offset);
                let address = mem_read(pointer as usize, context);
                context.Reg[dest] = mem_read(address as usize, context);
                update_flags(dest, context);
            },
            Instruction::STI => {
                let src = dest_of(instr);
                let offset = sign_extend(instr & 0x1FF, 9);
                let pointer = context.Reg[Registers::RPC.index()].wrapping_add(offset);
                let address = context.Memory[pointer as usize];
                context.Memory[address as usize] = context.Reg[src];
            },
            Instruction::JMP => {
                let src = base_of(instr);
                context.Reg[Registers::RPC.index()] = context.Reg[src];
            },
            Instruction::RES => {},
            Instruction::LEA => {
                let dest = dest_of(instr);
                let offset = sign_extend(instr & 0x1FF, 9);
                context.Reg[dest] = context.Reg[Registers::RPC.index()].wrapping_add(offset);
                update_flags(dest, context);
            },
            Instruction::TRAP => {
                let code = TrapCode::from_vector(vector_of(instr))?;
                return Ok(code.run(context, &(instr as usize)));
            },
            Instruction::ICOUNT => {},
        }
        Ok(Effect::quiet())
    }
}

fn dest_of(instr: u16) -> (r: usize)
    ensures
        r == dest_field(instr),
        r < 8,
{
    assert((instr >> 9) & 0x7 < 8) by (bit_vector);
    ((instr >> 9) & 0x7) as usize
}

fn base_of(instr: u16) -> (r: usize)
    ensures
        r == base_field(instr),
        r < 8,
{
    assert((instr >> 6) & 0x7 < 8) by (bit_vector);
    ((instr >> 6) & 0x7) as usize
}

fn source_of(instr: u16) -> (r: usize)
    ensures
        r == source_field(instr),
        r < 8,
{
    assert(instr & 0x7 < 8) by (bit_vector);
    (instr & 0x7) as usize
}

fn vector_of(instr: u16) -> (vector: u8)
    ensures
        vector == trap_vector(instr),
{
    assert(instr & 0xFF < 256) by (bit_vector);
    (instr & 0xFF) as u8
}

} // verus!
