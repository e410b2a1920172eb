use crate::instruction::{
    lemma_table_complete, opcode_def, opcode_table, operand_len, AddressingModeKind,
    DecodedInstruction, DecodedOperand, OpcodeDef,
};
use crate::spc::{same_bytes, word_at, wrap_addr, Spc, MEMORY_SIZE};
use vstd::prelude::*;

verus! {

/// The decoder found no instruction: the opcode byte at `pc` has no
/// definition.
#[derive(Debug, Clone, Copy, PartialEq, Eq)]
pub struct DecodeError {
    pub pc: u16,
    pub opcode: u8,
}

/// A byte read as a two's-complement number.
pub open spec fn as_signed(b: u8) -> i8 {
    if b < 128 {
        b as i8
    } else {
        (b as int - 256) as i8
    }
}

/// The operand of an instruction of the given mode whose opcode byte is at
/// `pc`: the first operand byte is at `pc + 1`, the second at `pc + 2`, each
/// address wrapping on its own.
pub open spec fn operand_at(mem: Seq<u8>, pc: u16, mode: AddressingModeKind) -> DecodedOperand {
    let first = mem[wrap_addr(pc as int, 1)];
    let second = mem[wrap_addr(pc as int, 2)];
    let word = first as int + 256 * (second as int);
    match mode {
        AddressingModeKind::Implied | AddressingModeKind::Brk | AddressingModeKind::Invalid =>
            DecodedOperand::Empty,
        AddressingModeKind::Indirect => DecodedOperand::Indirect,
        AddressingModeKind::IndirectAutoInc => DecodedOperand::IndirectAutoInc,
        AddressingModeKind::TCall(n) => DecodedOperand::TCall(n),
        AddressingModeKind::ImmediateByte => DecodedOperand::Byte(first),
        AddressingModeKind::DirectPage => DecodedOperand::Direct(first),
        AddressingModeKind::DirectPageX => DecodedOperand::DirectX(first),
        AddressingModeKind::DirectPageY => DecodedOperand::DirectY(first),
        AddressingModeKind::IndirectX => DecodedOperand::IndirectX(first),
        AddressingModeKind::IndirectY => DecodedOperand::IndirectY(first),
        AddressingModeKind::Relative | AddressingModeKind::ImpliedRelative =>
            DecodedOperand::Relative(as_signed(first)),
        AddressingModeKind::PCall => DecodedOperand::PCall(first),
        AddressingModeKind::Absolute => DecodedOperand::Absolute(word as u16),
        AddressingModeKind::AbsoluteX => DecodedOperand::AbsoluteX(word as u16),
        AddressingModeKind::AbsoluteY => DecodedOperand::AbsoluteY(word as u16),
        AddressingModeKind::DirectPageBit => DecodedOperand::DirectBit { addr: first },
        AddressingModeKind::DirectPageBitRelative => DecodedOperand::DirectBitRelative {
            addr: first,
            offset: as_signed(second),
        },
        AddressingModeKind::MemoryBit | AddressingModeKind::MemoryBitNegated =>
            DecodedOperand::MemoryBit { addr: (word / 8) as u16, bit: (word % 8) as u8 },
        AddressingModeKind::DirectPageToDirectPage => DecodedOperand::DpToDp {
            src: first,
            dest: second,
        },
        AddressingModeKind::DirectPageImmediate => DecodedOperand::DpImm {
            imm: first,
            addr: second,
        },
        AddressingModeKind::DirectPageRelative => DecodedOperand::DirectRelative {
            addr: first,
            offset: as_signed(second),
        },
        AddressingModeKind::DirectPageXRelative => DecodedOperand::DirectXRelative {
            addr: first,
            offset: as_signed(second),
        },
    }
}

/// What decoding at `pc` gives when `definition` is what the table holds for
/// the opcode byte there: an error for a definition that stands for no
/// instruction, otherwise the instruction with its operand.
pub open spec fn decode_with_spec(mem: Seq<u8>, pc: u16, definition: OpcodeDef) -> Result<
    DecodedInstruction,
    DecodeError,
> {
    if definition.mode == AddressingModeKind::Invalid {
        Err(DecodeError { pc, opcode: mem[pc as int] })
    } else {
        Ok(
            DecodedInstruction {
                address: pc,
                definition,
                operand: operand_at(mem, pc, definition.mode),
            },
        )
    }
}

/// What decoding at `pc` gives with the SPC700 opcode table.
pub open spec fn decode_spec(mem: Seq<u8>, pc: u16) -> Result<DecodedInstruction, DecodeError> {
    decode_with_spec(mem, pc, opcode_table(mem[pc as int]))
}

/// Reads a byte as a two's-complement number.
pub fn signed_byte(b: u8) -> (v: i8)
    ensures
        v == as_signed(b),
{
    if b < 128 {
        b as i8
    } else {
        (b as i16 - 256) as i8
    }
}

/// Splits a memory-bit operand word into its 13-bit address and its bit
/// index.
fn split_memory_bit(word: u16) -> (parts: (u16, u8))
    ensures
        parts.0 as int == word as int / 8,
        parts.1 as int == word as int % 8,
{
    assert(word >> 3 == word / 8) by (bit_vector);
    assert(word & 7 == word % 8) by (bit_vector);
    let bit: u16 = word & 7;
    (word >> 3, bit as u8)
}

/// Decodes the instruction at `pc`, given the definition of the opcode byte
/// that stands there. The operand bytes are read from `pc + 1` and `pc + 2`,
/// each wrapping on its own, as far as the definition's mode asks for them.
pub fn decode_with(spc: &Spc, pc: u16, definition: OpcodeDef) -> (r: Result<
    DecodedInstruction,
    DecodeError,
>)
    ensures
        r == decode_with_spec(spc.mem@, pc, definition),
{
    let ghost mem = spc.mem@;
    let ghost first = mem[wrap_addr(pc as int, 1)];
    let ghost second = mem[wrap_addr(pc as int, 2)];
    let at1: u16 = pc.wrapping_add(1);
    let at2: u16 = pc.wrapping_add(2);
    assert(at1 as int == wrap_addr(pc as int, 1));
    assert(at2 as int == wrap_addr(pc as int, 2));
    assert(wrap_addr(at1 as int, 1) == at2 as int);
    assert(word_at(mem, at1) == first as int + 256 * (second as int));
    let operand = match definition.mode {
        AddressingModeKind::Invalid => {
            return Err(DecodeError { pc, opcode: spc.read_byte(pc) });
        },
        AddressingModeKind::Implied | AddressingModeKind::Brk => DecodedOperand::Empty,
        AddressingModeKind::Indirect => DecodedOperand::Indirect,
        AddressingModeKind::IndirectAutoInc => DecodedOperand::IndirectAutoInc,
        AddressingModeKind::TCall(n) => DecodedOperand::TCall(n),
        AddressingModeKind::ImmediateByte => DecodedOperand::Byte(spc.read_byte(at1)),
        AddressingModeKind::DirectPage => DecodedOperand::Direct(spc.read_byte(at1)),
        AddressingModeKind::DirectPageX => DecodedOperand::DirectX(spc.read_byte(at1)),
        AddressingModeKind::DirectPageY => DecodedOperand::DirectY(spc.read_byte(at1)),
        AddressingModeKind::IndirectX => DecodedOperand::IndirectX(spc.read_byte(at1)),
        AddressingModeKind::IndirectY => DecodedOperand::IndirectY(spc.read_byte(at1)),
        AddressingModeKind::Relative | AddressingModeKind::ImpliedRelative => {
            DecodedOperand::Relative(signed_byte(spc.read_byte(at1)))
        },
        AddressingModeKind::PCall => DecodedOperand::PCall(spc.read_byte(at1)),
        AddressingModeKind::Absolute => DecodedOperand::Absolute(spc.read_word(at1)),
        AddressingModeKind::AbsoluteX => DecodedOperand::AbsoluteX(spc.read_word(at1)),
        AddressingModeKind::AbsoluteY => DecodedOperand::AbsoluteY(spc.read_word(at1)),
        AddressingModeKind::DirectPageBit => DecodedOperand::DirectBit {
            addr: spc.read_byte(at1),
        },
        AddressingModeKind::DirectPageBitRelative => DecodedOperand::DirectBitRelative {
            addr: spc.read_byte(at1),
            offset: signed_byte(spc.read_byte(at2)),
        },
        AddressingModeKind::MemoryBit | AddressingModeKind::MemoryBitNegated => {
            let (addr, bit) = split_memory_bit(spc.read_word(at1));
            DecodedOperand::MemoryBit { addr, bit }
        },
        AddressingModeKind::DirectPageToDirectPage => DecodedOperand::DpToDp {
            src: spc.read_byte(at1),
            dest: spc.read_byte(at2),
        },
        AddressingModeKind::DirectPageImmediate => DecodedOperand::DpImm {
            imm: spc.read_byte(at1),
            addr: spc.read_byte(at2),
        },
        AddressingModeKind::DirectPageRelative => DecodedOperand::DirectRelative {
            addr: spc.read_byte(at1),
            offset: signed_byte(spc.read_byte(at2)),
        },
        AddressingModeKind::DirectPageXRelative => DecodedOperand::DirectXRelative {
            addr: spc.read_byte(at1),
            offset: signed_byte(spc.read_byte(at2)),
        },
    };
    Ok(DecodedInstruction { address: pc, definition, operand })
}

/// Decodes the instruction at `pc` with the SPC700 opcode table. The table
/// defines every opcode, so an instruction is always found.
pub fn decode_one(spc: &Spc, pc: u16) -> (r: Result<DecodedInstruction, DecodeError>)
    ensures
        r == decode_spec(spc.mem@, pc),
        r is Ok,
{
    let opcode = spc.read_byte(pc);
    proof {
        lemma_table_complete(opcode);
    }
    decode_with(spc, pc, opcode_def(opcode))
}

/// An instruction found with the SPC700 table is exactly as long as its
/// definition says: the opcode byte and the operand bytes of its mode, one
/// to three bytes in all, and it carries the opcode byte that stands at its
/// address.
pub proof fn lemma_decode_consumes_length(mem: Seq<u8>, pc: u16)
    requires
        mem.len() == MEMORY_SIZE,
    ensures
        decode_spec(mem, pc) matches Ok(instr) && instr.address == pc && instr.definition.opcode
            == mem[pc as int] && instr.definition.len as int == 1 + operand_len(
            instr.definition.mode,
        ) && 1 <= instr.definition.len <= 3,
{
    lemma_table_complete(mem[pc as int]);
}

/// Decoding with a well-formed definition reads nothing but the
/// instruction's own bytes: in two memory images that agree on the
/// definition's length in bytes from `pc` on, it gives the same result.
pub proof fn lemma_decode_with_reads_own_bytes(
    first: Seq<u8>,
    second: Seq<u8>,
    pc: u16,
    definition: OpcodeDef,
)
    requires
        first.len() == MEMORY_SIZE,
        second.len() == MEMORY_SIZE,
        definition.wf(),
        same_bytes(first, second, pc, definition.len as int),
    ensures
        decode_with_spec(first, pc, definition) == decode_with_spec(second, pc, definition),
{
    assert(wrap_addr(pc as int, 0) == pc as int);
    if operand_len(definition.mode) >= 1 {
        assert(first[wrap_addr(pc as int, 1)] == second[wrap_addr(pc as int, 1)]);
    }
    if operand_len(definition.mode) >= 2 {
        assert(first[wrap_addr(pc as int, 2)] == second[wrap_addr(pc as int, 2)]);
    }
}

/// Decoding with the SPC700 table reads nothing but the instruction's own
/// bytes: in two memory images that agree on the opcode byte at `pc` and on
/// the bytes that its definition's length covers, it gives the same result.
pub proof fn lemma_decode_reads_own_bytes(first: Seq<u8>, second: Seq<u8>, pc: u16)
    requires
        first.len() == MEMORY_SIZE,
        second.len() == MEMORY_SIZE,
        same_bytes(first, second, pc, opcode_table(first[pc as int]).len as int),
    ensures
        decode_spec(first, pc) == decode_spec(second, pc),
{
    lemma_table_complete(first[pc as int]);
    assert(wrap_addr(pc as int, 0) == pc as int);
    assert(first[wrap_addr(pc as int, 0)] == second[wrap_addr(pc as int, 0)]);
    lemma_decode_with_reads_own_bytes(first, second, pc, opcode_table(first[pc as int]));
}

} // verus!
