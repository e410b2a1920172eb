use vstd::prelude::*;

verus! {

/// The shape of an instruction's operand: how many bytes follow the opcode
/// and how they are read.
#[derive(Debug, Clone, Copy, PartialEq, Eq)]
pub enum AddressingModeKind {
    Implied,
    ImmediateByte,
    DirectPage,
    Absolute,
    DirectPageX,
    DirectPageY,
    AbsoluteX,
    AbsoluteY,
    IndirectX,
    IndirectY,
    Indirect,
    IndirectAutoInc,
    Relative,
    DirectPageBit,
    DirectPageBitRelative,
    MemoryBit,
    MemoryBitNegated,
    DirectPageToDirectPage,
    DirectPageImmediate,
    DirectPageRelative,
    DirectPageXRelative,
    ImpliedRelative,
    /// A table call; the index is part of the opcode, no operand byte follows.
    TCall(u8),
    PCall,
    Brk,
    /// No instruction is assigned to the opcode.
    Invalid,
}

/// One row of the opcode table.
#[derive(Debug, Clone, Copy, PartialEq, Eq)]
pub struct OpcodeDef {
    pub opcode: u8,
    pub mnemonic: &'static str,
    pub mode: AddressingModeKind,
    /// Length of the whole instruction in bytes, opcode included.
    pub len: u8,
    /// Cycle cost; recorded, never used.
    pub cycles: u8,
}

/// The operand of one decoded instruction, with the values read from memory.
#[derive(Debug, Clone, Copy, PartialEq, Eq)]
#[allow(inconsistent_fields)]
pub enum DecodedOperand {
    /// No operand was read.
    Empty,
    Byte(u8),
    Direct(u8),
    Absolute(u16),
    DirectX(u8),
    DirectY(u8),
    AbsoluteX(u16),
    AbsoluteY(u16),
    IndirectX(u8),
    IndirectY(u8),
    Indirect,
    IndirectAutoInc,
    Relative(i8),
    DirectBit { addr: u8 },
    DirectBitRelative { addr: u8, offset: i8 },
    MemoryBit { addr: u16, bit: u8 },
    DpToDp { dest: u8, src: u8 },
    DpImm { addr: u8, imm: u8 },
    TCall(u8),
    PCall(u8),
    DirectRelative { addr: u8, offset: i8 },
    DirectXRelative { addr: u8, offset: i8 },
}

/// One instruction as the decoder found it.
#[derive(Debug, Clone, Copy, PartialEq, Eq)]
pub struct DecodedInstruction {
    pub address: u16,
    pub definition: OpcodeDef,
    pub operand: DecodedOperand,
}

/// Number of operand bytes that follow the opcode byte in an instruction of
/// the given mode.
pub open spec fn operand_len(mode: AddressingModeKind) -> int {
    match mode {
        AddressingModeKind::Implied
        | AddressingModeKind::Brk
        | AddressingModeKind::Indirect
        | AddressingModeKind::IndirectAutoInc
        | AddressingModeKind::TCall(_)
        | AddressingModeKind::Invalid => 0,
        AddressingModeKind::ImmediateByte
        | AddressingModeKind::DirectPage
        | AddressingModeKind::DirectPageX
        | AddressingModeKind::DirectPageY
        | AddressingModeKind::IndirectX
        | AddressingModeKind::IndirectY
        | AddressingModeKind::Relative
        | AddressingModeKind::ImpliedRelative
        | AddressingModeKind::PCall
        | AddressingModeKind::DirectPageBit => 1,
        AddressingModeKind::Absolute
        | AddressingModeKind::AbsoluteX
        | AddressingModeKind::AbsoluteY
        | AddressingModeKind::DirectPageBitRelative
        | AddressingModeKind::MemoryBit
        | AddressingModeKind::MemoryBitNegated
        | AddressingModeKind::DirectPageToDirectPage
        | AddressingModeKind::DirectPageImmediate
        | AddressingModeKind::DirectPageRelative
        | AddressingModeKind::DirectPageXRelative => 2,
    }
}

impl OpcodeDef {
    /// A definition is well formed when it stands for an instruction and its
    /// length is the opcode byte plus the operand bytes of its mode.
    pub open spec fn wf(&self) -> bool {
        &&& self.mode != AddressingModeKind::Invalid
        &&& self.len as int == 1 + operand_len(self.mode)
        &&& self.mode matches AddressingModeKind::TCall(n) ==> n < 16
    }
}

/// A table row, as a value.
pub open spec fn row(
    opcode: u8,
    mnemonic: &'static str,
    mode: AddressingModeKind,
    len: u8,
    cycles: u8,
) -> OpcodeDef {
    OpcodeDef { opcode, mnemonic, mode, len, cycles }
}

fn entry(opcode: u8, mnemonic: &'static str, mode: AddressingModeKind, len: u8, cycles: u8) -> (d:
    OpcodeDef)
    ensures
        d == row(opcode, mnemonic, mode, len, cycles),
{
    OpcodeDef { opcode, mnemonic, mode, len, cycles }
}

/// The definition that stands for an unassigned opcode.
pub open spec fn invalid_row() -> OpcodeDef {
    row(0, "invalid", AddressingModeKind::Invalid, 1, 1)
}

/// The definition that stands for an unassigned opcode. The shipped table
/// has none; a caller with a table of its own hands this to the decoder for
/// the opcodes that table leaves out.
pub fn invalid_def() -> (d: OpcodeDef)
    ensures
        d == invalid_row(),
{
    entry(0, "invalid", AddressingModeKind::Invalid, 1, 1)
}

/// The SPC700 opcode table: the definition of each of the 256 opcodes.
pub open spec fn opcode_table(opcode: u8) -> OpcodeDef {
    match opcode {
        0x00 => row(0x00, "nop", AddressingModeKind::Implied, 1, 2),
        0x01 => row(0x01, "tcall", AddressingModeKind::TCall(0), 1, 8),
        0x02 => row(0x02, "set0", AddressingModeKind::DirectPageBit, 2, 4),
        0x03 => row(0x03, "bbs0", AddressingModeKind::DirectPageBitRelative, 3, 5),
        0x04 => row(0x04, "or", AddressingModeKind::DirectPage, 2, 3),
        0x05 => row(0x05, "or", AddressingModeKind::Absolute, 3, 4),
        0x06 => row(0x06, "or", AddressingModeKind::Indirect, 1, 3),
        0x07 => row(0x07, "or", AddressingModeKind::IndirectX, 2, 6),
        0x08 => row(0x08, "or", AddressingModeKind::ImmediateByte, 2, 2),
        0x09 => row(0x09, "or", AddressingModeKind::DirectPageToDirectPage, 3, 6),
        0x0A => row(0x0A, "or1", AddressingModeKind::MemoryBit, 3, 5),
        0x0B => row(0x0B, "asl", AddressingModeKind::DirectPage, 2, 4),
        0x0C => row(0x0C, "asl", AddressingModeKind::Absolute, 3, 5),
        0x0D => row(0x0D, "push", AddressingModeKind::Implied, 1, 4),
        0x0E => row(0x0E, "tset1", AddressingModeKind::Absolute, 3, 6),
        0x0F => row(0x0F, "brk", AddressingModeKind::Brk, 1, 8),
        0x10 => row(0x10, "bpl", AddressingModeKind::Relative, 2, 2),
        0x11 => row(0x11, "tcall", AddressingModeKind::TCall(1), 1, 8),
        0x12 => row(0x12, "clr0", AddressingModeKind::DirectPageBit, 2, 4),
        0x13 => row(0x13, "bbc0", AddressingModeKind::DirectPageBitRelative, 3, 5),
        0x14 => row(0x14, "or", AddressingModeKind::DirectPageX, 2, 4),
        0x15 => row(0x15, "or", AddressingModeKind::AbsoluteX, 3, 5),
        0x16 => row(0x16, "or", AddressingModeKind::AbsoluteY, 3, 5),
        0x17 => row(0x17, "or", AddressingModeKind::IndirectY, 2, 6),
        0x18 => row(0x18, "or", AddressingModeKind::DirectPageImmediate, 3, 5),
        0x19 => row(0x19, "or", AddressingModeKind::Implied, 1, 5),
        0x1A => row(0x1A, "decw", AddressingModeKind::DirectPage, 2, 6),
        0x1B => row(0x1B, "asl", AddressingModeKind::DirectPageX, 2, 5),
        0x1C => row(0x1C, "asl", AddressingModeKind::Implied, 1, 2),
        0x1D => row(0x1D, "dec", AddressingModeKind::Implied, 1, 2),
        0x1E => row(0x1E, "cmp", AddressingModeKind::Absolute, 3, 4),
        0x1F => row(0x1F, "jmp", AddressingModeKind::AbsoluteX, 3, 6),
        0x20 => row(0x20, "clrp", AddressingModeKind::Implied, 1, 2),
        0x21 => row(0x21, "tcall", AddressingModeKind::TCall(2), 1, 8),
        0x22 => row(0x22, "set1", AddressingModeKind::DirectPageBit, 2, 4),
        0x23 => row(0x23, "bbs1", AddressingModeKind::DirectPageBitRelative, 3, 5),
        0x24 => row(0x24, "and", AddressingModeKind::DirectPage, 2, 3),
        0x25 => row(0x25, "and", AddressingModeKind::Absolute, 3, 4),
        0x26 => row(0x26, "and", AddressingModeKind::Indirect, 1, 3),
        0x27 => row(0x27, "and", AddressingModeKind::IndirectX, 2, 6),
        0x28 => row(0x28, "and", AddressingModeKind::ImmediateByte, 2, 2),
        0x29 => row(0x29, "and", AddressingModeKind::DirectPageToDirectPage, 3, 6),
        0x2A => row(0x2A, "or1", AddressingModeKind::MemoryBitNegated, 3, 5),
        0x2B => row(0x2B, "rol", AddressingModeKind::DirectPage, 2, 4),
        0x2C => row(0x2C, "rol", AddressingModeKind::Absolute, 3, 5),
        0x2D => row(0x2D, "push", AddressingModeKind::Implied, 1, 4),
        0x2E => row(0x2E, "cbne", AddressingModeKind::DirectPageRelative, 3, 5),
        0x2F => row(0x2F, "bra", AddressingModeKind::Relative, 2, 4),
        0x30 => row(0x30, "bmi", AddressingModeKind::Relative, 2, 2),
        0x31 => row(0x31, "tcall", AddressingModeKind::TCall(3), 1, 8),
        0x32 => row(0x32, "clr1", AddressingModeKind::DirectPageBit, 2, 4),
        0x33 => row(0x33, "bbc1", AddressingModeKind::DirectPageBitRelative, 3, 5),
        0x34 => row(0x34, "and", AddressingModeKind::DirectPageX, 2, 4),
        0x35 => row(0x35, "and", AddressingModeKind::AbsoluteX, 3, 5),
        0x36 => row(0x36, "and", AddressingModeKind::AbsoluteY, 3, 5),
        0x37 => row(0x37, "and", AddressingModeKind::IndirectY, 2, 6),
        0x38 => row(0x38, "and", AddressingModeKind::DirectPageImmediate, 3, 5),
        0x39 => row(0x39, "and", AddressingModeKind::Implied, 1, 5),
        0x3A => row(0x3A, "incw", AddressingModeKind::DirectPage, 2, 6),
        0x3B => row(0x3B, "rol", AddressingModeKind::DirectPageX, 2, 5),
        0x3C => row(0x3C, "rol", AddressingModeKind::Implied, 1, 2),
        0x3D => row(0x3D, "inc", AddressingModeKind::Implied, 1, 2),
        0x3E => row(0x3E, "cmp", AddressingModeKind::DirectPage, 2, 3),
        0x3F => row(0x3F, "call", AddressingModeKind::Absolute, 3, 8),
        0x40 => row(0x40, "setp", AddressingModeKind::Implied, 1, 2),
        0x41 => row(0x41, "tcall", AddressingModeKind::TCall(4), 1, 8),
        0x42 => row(0x42, "set2", AddressingModeKind::DirectPageBit, 2, 4),
        0x43 => row(0x43, "bbs2", AddressingModeKind::DirectPageBitRelative, 3, 5),
        0x44 => row(0x44, "eor", AddressingModeKind::DirectPage, 2, 3),
        0x45 => row(0x45, "eor", AddressingModeKind::Absolute, 3, 4),
        0x46 => row(0x46, "eor", AddressingModeKind::Indirect, 1, 3),
        0x47 => row(0x47, "eor", AddressingModeKind::IndirectX, 2, 6),
        0x48 => row(0x48, "eor", AddressingModeKind::ImmediateByte, 2, 2),
        0x49 => row(0x49, "eor", AddressingModeKind::DirectPageToDirectPage, 3, 6),
        0x4A => row(0x4A, "and1", AddressingModeKind::MemoryBit, 3, 4),
        0x4B => row(0x4B, "lsr", AddressingModeKind::DirectPage, 2, 4),
        0x4C => row(0x4C, "lsr", AddressingModeKind::Absolute, 3, 5),
        0x4D => row(0x4D, "push", AddressingModeKind::Implied, 1, 4),
        0x4E => row(0x4E, "tclr1", AddressingModeKind::Absolute, 3, 6),
        0x4F => row(0x4F, "pcall", AddressingModeKind::PCall, 2, 6),
        0x50 => row(0x50, "bvc", AddressingModeKind::Relative, 2, 2),
        0x51 => row(0x51, "tcall", AddressingModeKind::TCall(5), 1, 8),
        0x52 => row(0x52, "clr2", AddressingModeKind::DirectPageBit, 2, 4),
        0x53 => row(0x53, "bbc2", AddressingModeKind::DirectPageBitRelative, 3, 5),
        0x54 => row(0x54, "eor", AddressingModeKind::DirectPageX, 2, 4),
        0x55 => row(0x55, "eor", AddressingModeKind::AbsoluteX, 3, 5),
        0x56 => row(0x56, "eor", AddressingModeKind::AbsoluteY, 3, 5),
        0x57 => row(0x57, "eor", AddressingModeKind::IndirectY, 2, 6),
        0x58 => row(0x58, "eor", AddressingModeKind::DirectPageImmediate, 3, 5),
        0x59 => row(0x59, "eor", AddressingModeKind::Implied, 1, 5),
        0x5A => row(0x5A, "cmpw", AddressingModeKind::DirectPage, 2, 4),
        0x5B => row(0x5B, "lsr", AddressingModeKind::DirectPageX, 2, 5),
        0x5C => row(0x5C, "lsr", AddressingModeKind::Implied, 1, 2),
        0x5D => row(0x5D, "mov", AddressingModeKind::Implied, 1, 2),
        0x5E => row(0x5E, "cmp", AddressingModeKind::Absolute, 3, 4),
        0x5F => row(0x5F, "jmp", AddressingModeKind::Absolute, 3, 3),
        0x60 => row(0x60, "clrc", AddressingModeKind::Implied, 1, 2),
        0x61 => row(0x61, "tcall", AddressingModeKind::TCall(6), 1, 8),
        0x62 => row(0x62, "set3", AddressingModeKind::DirectPageBit, 2, 4),
        0x63 => row(0x63, "bbs3", AddressingModeKind::DirectPageBitRelative, 3, 5),
        0x64 => row(0x64, "cmp", AddressingModeKind::DirectPage, 2, 3),
        0x65 => row(0x65, "cmp", AddressingModeKind::Absolute, 3, 4),
        0x66 => row(0x66, "cmp", AddressingModeKind::Indirect, 1, 3),
        0x67 => row(0x67, "cmp", AddressingModeKind::IndirectX, 2, 6),
        0x68 => row(0x68, "cmp", AddressingModeKind::ImmediateByte, 2, 2),
        0x69 => row(0x69, "cmp", AddressingModeKind::DirectPageToDirectPage, 3, 6),
        0x6A => row(0x6A, "and1", AddressingModeKind::MemoryBitNegated, 3, 4),
        0x6B => row(0x6B, "ror", AddressingModeKind::DirectPage, 2, 4),
        0x6C => row(0x6C, "ror", AddressingModeKind::Absolute, 3, 5),
        0x6D => row(0x6D, "push", AddressingModeKind::Implied, 1, 4),
        0x6E => row(0x6E, "dbnz", AddressingModeKind::DirectPageRelative, 3, 5),
        0x6F => row(0x6F, "ret", AddressingModeKind::Implied, 1, 5),
        0x70 => row(0x70, "bvs", AddressingModeKind::Relative, 2, 2),
        0x71 => row(0x71, "tcall", AddressingModeKind::TCall(7), 1, 8),
        0x72 => row(0x72, "clr3", AddressingModeKind::DirectPageBit, 2, 4),
        0x73 => row(0x73, "bbc3", AddressingModeKind::DirectPageBitRelative, 3, 5),
        0x74 => row(0x74, "cmp", AddressingModeKind::DirectPageX, 2, 4),
        0x75 => row(0x75, "cmp", AddressingModeKind::AbsoluteX, 3, 5),
        0x76 => row(0x76, "cmp", AddressingModeKind::AbsoluteY, 3, 5),
        0x77 => row(0x77, "cmp", AddressingModeKind::IndirectY, 2, 6),
        0x78 => row(0x78, "cmp", AddressingModeKind::DirectPageImmediate, 3, 5),
        0x79 => row(0x79, "cmp", AddressingModeKind::Implied, 1, 5),
        0x7A => row(0x7A, "addw", AddressingModeKind::DirectPage, 2, 5),
        0x7B => row(0x7B, "ror", AddressingModeKind::DirectPageX, 2, 5),
        0x7C => row(0x7C, "ror", AddressingModeKind::Implied, 1, 2),
        0x7D => row(0x7D, "mov", AddressingModeKind::Implied, 1, 2),
        0x7E => row(0x7E, "cmp", AddressingModeKind::DirectPage, 2, 3),
        0x7F => row(0x7F, "reti", AddressingModeKind::Implied, 1, 6),
        0x80 => row(0x80, "setc", AddressingModeKind::Implied, 1, 2),
        0x81 => row(0x81, "tcall", AddressingModeKind::TCall(8), 1, 8),
        0x82 => row(0x82, "set4", AddressingModeKind::DirectPageBit, 2, 4),
        0x83 => row(0x83, "bbs4", AddressingModeKind::DirectPageBitRelative, 3, 5),
        0x84 => row(0x84, "adc", AddressingModeKind::DirectPage, 2, 3),
        0x85 => row(0x85, "adc", AddressingModeKind::Absolute, 3, 4),
        0x86 => row(0x86, "adc", AddressingModeKind::Indirect, 1, 3),
        0x87 => row(0x87, "adc", AddressingModeKind::IndirectX, 2, 6),
        0x88 => row(0x88, "adc", AddressingModeKind::ImmediateByte, 2, 2),
        0x89 => row(0x89, "adc", AddressingModeKind::DirectPageToDirectPage, 3, 6),
        0x8A => row(0x8A, "eor1", AddressingModeKind::MemoryBit, 3, 5),
        0x8B => row(0x8B, "dec", AddressingModeKind::DirectPage, 2, 4),
        0x8C => row(0x8C, "dec", AddressingModeKind::Absolute, 3, 5),
        0x8D => row(0x8D, "mov", AddressingModeKind::ImmediateByte, 2, 2),
        0x8E => row(0x8E, "pop", AddressingModeKind::Implied, 1, 4),
        0x8F => row(0x8F, "mov", AddressingModeKind::DirectPageImmediate, 3, 5),
        0x90 => row(0x90, "bcc", AddressingModeKind::Relative, 2, 2),
        0x91 => row(0x91, "tcall", AddressingModeKind::TCall(9), 1, 8),
        0x92 => row(0x92, "clr4", AddressingModeKind::DirectPageBit, 2, 4),
        0x93 => row(0x93, "bbc4", AddressingModeKind::DirectPageBitRelative, 3, 5),
        0x94 => row(0x94, "adc", AddressingModeKind::DirectPageX, 2, 4),
        0x95 => row(0x95, "adc", AddressingModeKind::AbsoluteX, 3, 5),
        0x96 => row(0x96, "adc", AddressingModeKind::AbsoluteY, 3, 5),
        0x97 => row(0x97, "adc", AddressingModeKind::IndirectY, 2, 6),
        0x98 => row(0x98, "adc", AddressingModeKind::DirectPageImmediate, 3, 5),
        0x99 => row(0x99, "adc", AddressingModeKind::Implied, 1, 5),
        0x9A => row(0x9A, "subw", AddressingModeKind::DirectPage, 2, 5),
        0x9B => row(0x9B, "dec", AddressingModeKind::DirectPageX, 2, 5),
        0x9C => row(0x9C, "dec", AddressingModeKind::Implied, 1, 2),
        0x9D => row(0x9D, "mov", AddressingModeKind::Implied, 1, 2),
        0x9E => row(0x9E, "div", AddressingModeKind::Implied, 1, 12),
        0x9F => row(0x9F, "xcn", AddressingModeKind::Implied, 1, 5),
        0xA0 => row(0xA0, "ei", AddressingModeKind::Implied, 1, 3),
        0xA1 => row(0xA1, "tcall", AddressingModeKind::TCall(10), 1, 8),
        0xA2 => row(0xA2, "set5", AddressingModeKind::DirectPageBit, 2, 4),
        0xA3 => row(0xA3, "bbs5", AddressingModeKind::DirectPageBitRelative, 3, 5),
        0xA4 => row(0xA4, "sbc", AddressingModeKind::DirectPage, 2, 3),
        0xA5 => row(0xA5, "sbc", AddressingModeKind::Absolute, 3, 4),
        0xA6 => row(0xA6, "sbc", AddressingModeKind::Indirect, 1, 3),
        0xA7 => row(0xA7, "sbc", AddressingModeKind::IndirectX, 2, 6),
        0xA8 => row(0xA8, "sbc", AddressingModeKind::ImmediateByte, 2, 2),
        0xA9 => row(0xA9, "sbc", AddressingModeKind::DirectPageToDirectPage, 3, 6),
        0xAA => row(0xAA, "mov1", AddressingModeKind::MemoryBit, 3, 4),
        0xAB => row(0xAB, "inc", AddressingModeKind::DirectPage, 2, 4),
        0xAC => row(0xAC, "inc", AddressingModeKind::Absolute, 3, 5),
        0xAD => row(0xAD, "cmp", AddressingModeKind::ImmediateByte, 2, 2),
        0xAE => row(0xAE, "pop", AddressingModeKind::Implied, 1, 4),
        0xAF => row(0xAF, "mov", AddressingModeKind::IndirectAutoInc, 1, 4),
        0xB0 => row(0xB0, "bcs", AddressingModeKind::Relative, 2, 2),
        0xB1 => row(0xB1, "tcall", AddressingModeKind::TCall(11), 1, 8),
        0xB2 => row(0xB2, "clr5", AddressingModeKind::DirectPageBit, 2, 4),
        0xB3 => row(0xB3, "bbc5", AddressingModeKind::DirectPageBitRelative, 3, 5),
        0xB4 => row(0xB4, "sbc", AddressingModeKind::DirectPageX, 2, 4),
        0xB5 => row(0xB5, "sbc", AddressingModeKind::AbsoluteX, 3, 5),
        0xB6 => row(0xB6, "sbc", AddressingModeKind::AbsoluteY, 3, 5),
        0xB7 => row(0xB7, "sbc", AddressingModeKind::IndirectY, 2, 6),
        0xB8 => row(0xB8, "sbc", AddressingModeKind::DirectPageImmediate, 3, 5),
        0xB9 => row(0xB9, "sbc", AddressingModeKind::Implied, 1, 5),
        0xBA => row(0xBA, "movw", AddressingModeKind::DirectPage, 2, 5),
        0xBB => row(0xBB, "inc", AddressingModeKind::DirectPageX, 2, 5),
        0xBC => row(0xBC, "inc", AddressingModeKind::Implied, 1, 2),
        0xBD => row(0xBD, "mov", AddressingModeKind::Implied, 1, 2),
        0xBE => row(0xBE, "das", AddressingModeKind::Implied, 1, 3),
        0xBF => row(0xBF, "mov", AddressingModeKind::IndirectAutoInc, 1, 4),
        0xC0 => row(0xC0, "di", AddressingModeKind::Implied, 1, 3),
        0xC1 => row(0xC1, "tcall", AddressingModeKind::TCall(12), 1, 8),
        0xC2 => row(0xC2, "set6", AddressingModeKind::DirectPageBit, 2, 4),
        0xC3 => row(0xC3, "bbs6", AddressingModeKind::DirectPageBitRelative, 3, 5),
        0xC4 => row(0xC4, "mov", AddressingModeKind::DirectPage, 2, 4),
        0xC5 => row(0xC5, "mov", AddressingModeKind::Absolute, 3, 5),
        0xC6 => row(0xC6, "mov", AddressingModeKind::Indirect, 1, 4),
        0xC7 => row(0xC7, "mov", AddressingModeKind::IndirectX, 2, 7),
        0xC8 => row(0xC8, "cmp", AddressingModeKind::ImmediateByte, 2, 2),
        0xC9 => row(0xC9, "mov", AddressingModeKind::Absolute, 3, 5),
        0xCA => row(0xCA, "mov1", AddressingModeKind::MemoryBit, 3, 6),
        0xCB => row(0xCB, "mov", AddressingModeKind::DirectPage, 2, 4),
        0xCC => row(0xCC, "mov", AddressingModeKind::Absolute, 3, 5),
        0xCD => row(0xCD, "mov", AddressingModeKind::ImmediateByte, 2, 2),
        0xCE => row(0xCE, "pop", AddressingModeKind::Implied, 1, 4),
        0xCF => row(0xCF, "mul", AddressingModeKind::Implied, 1, 9),
        0xD0 => row(0xD0, "bne", AddressingModeKind::Relative, 2, 2),
        0xD1 => row(0xD1, "tcall", AddressingModeKind::TCall(13), 1, 8),
        0xD2 => row(0xD2, "clr6", AddressingModeKind::DirectPageBit, 2, 4),
        0xD3 => row(0xD3, "bbc6", AddressingModeKind::DirectPageBitRelative, 3, 5),
        0xD4 => row(0xD4, "mov", AddressingModeKind::DirectPageX, 2, 5),
        0xD5 => row(0xD5, "mov", AddressingModeKind::AbsoluteX, 3, 6),
        0xD6 => row(0xD6, "mov", AddressingModeKind::AbsoluteY, 3, 6),
        0xD7 => row(0xD7, "mov", AddressingModeKind::IndirectY, 2, 7),
        0xD8 => row(0xD8, "mov", AddressingModeKind::DirectPage, 2, 4),
        0xD9 => row(0xD9, "mov", AddressingModeKind::DirectPageY, 2, 5),
        0xDA => row(0xDA, "movw", AddressingModeKind::DirectPage, 2, 5),
        0xDB => row(0xDB, "mov", AddressingModeKind::DirectPageX, 2, 5),
        0xDC => row(0xDC, "dec", AddressingModeKind::Implied, 1, 2),
        0xDD => row(0xDD, "mov", AddressingModeKind::Implied, 1, 2),
        0xDE => row(0xDE, "cbne", AddressingModeKind::DirectPageXRelative, 3, 6),
        0xDF => row(0xDF, "daa", AddressingModeKind::Implied, 1, 3),
        0xE0 => row(0xE0, "clrv", AddressingModeKind::Implied, 1, 2),
        0xE1 => row(0xE1, "tcall", AddressingModeKind::TCall(14), 1, 8),
        0xE2 => row(0xE2, "set7", AddressingModeKind::DirectPageBit, 2, 4),
        0xE3 => row(0xE3, "bbs7", AddressingModeKind::DirectPageBitRelative, 3, 5),
        0xE4 => row(0xE4, "mov", AddressingModeKind::DirectPage, 2, 3),
        0xE5 => row(0xE5, "mov", AddressingModeKind::Absolute, 3, 4),
        0xE6 => row(0xE6, "mov", AddressingModeKind::Indirect, 1, 3),
        0xE7 => row(0xE7, "mov", AddressingModeKind::IndirectX, 2, 6),
        0xE8 => row(0xE8, "mov", AddressingModeKind::ImmediateByte, 2, 2),
        0xE9 => row(0xE9, "mov", AddressingModeKind::Absolute, 3, 4),
        0xEA => row(0xEA, "not1", AddressingModeKind::MemoryBit, 3, 5),
        0xEB => row(0xEB, "mov", AddressingModeKind::DirectPage, 2, 3),
        0xEC => row(0xEC, "mov", AddressingModeKind::Absolute, 3, 4),
        0xED => row(0xED, "notc", AddressingModeKind::Implied, 1, 3),
        0xEE => row(0xEE, "pop", AddressingModeKind::Implied, 1, 4),
        0xEF => row(0xEF, "sleep", AddressingModeKind::Implied, 1, 3),
        0xF0 => row(0xF0, "beq", AddressingModeKind::Relative, 2, 2),
        0xF1 => row(0xF1, "tcall", AddressingModeKind::TCall(15), 1, 8),
        0xF2 => row(0xF2, "clr7", AddressingModeKind::DirectPageBit, 2, 4),
        0xF3 => row(0xF3, "bbc7", AddressingModeKind::DirectPageBitRelative, 3, 5),
        0xF4 => row(0xF4, "mov", AddressingModeKind::DirectPageX, 2, 4),
        0xF5 => row(0xF5, "mov", AddressingModeKind::AbsoluteX, 3, 5),
        0xF6 => row(0xF6, "mov", AddressingModeKind::AbsoluteY, 3, 5),
        0xF7 => row(0xF7, "mov", AddressingModeKind::IndirectY, 2, 6),
        0xF8 => row(0xF8, "mov", AddressingModeKind::DirectPage, 2, 3),
        0xF9 => row(0xF9, "mov", AddressingModeKind::DirectPageY, 2, 4),
        0xFA => row(0xFA, "mov", AddressingModeKind::DirectPageToDirectPage, 3, 5),
        0xFB => row(0xFB, "mov", AddressingModeKind::DirectPageX, 2, 4),
        0xFC => row(0xFC, "inc", AddressingModeKind::Implied, 1, 2),
        0xFD => row(0xFD, "mov", AddressingModeKind::Implied, 1, 2),
        0xFE => row(0xFE, "dbnz", AddressingModeKind::ImpliedRelative, 2, 4),
        0xFF => row(0xFF, "stop", AddressingModeKind::Implied, 1, 3),
    }
}

/// Looks an opcode up in the table.
pub fn opcode_def(opcode: u8) -> (d: OpcodeDef)
    ensures
        d == opcode_table(opcode),
{
    match opcode {
        0x00 => entry(0x00, "nop", AddressingModeKind::Implied, 1, 2),
        0x01 => entry(0x01, "tcall", AddressingModeKind::TCall(0), 1, 8),
        0x02 => entry(0x02, "set0", AddressingModeKind::DirectPageBit, 2, 4),
        0x03 => entry(0x03, "bbs0", AddressingModeKind::DirectPageBitRelative, 3, 5),
        0x04 => entry(0x04, "or", AddressingModeKind::DirectPage, 2, 3),
        0x05 => entry(0x05, "or", AddressingModeKind::Absolute, 3, 4),
        0x06 => entry(0x06, "or", AddressingModeKind::Indirect, 1, 3),
        0x07 => entry(0x07, "or", AddressingModeKind::IndirectX, 2, 6),
        0x08 => entry(0x08, "or", AddressingModeKind::ImmediateByte, 2, 2),
        0x09 => entry(0x09, "or", AddressingModeKind::DirectPageToDirectPage, 3, 6),
        0x0A => entry(0x0A, "or1", AddressingModeKind::MemoryBit, 3, 5),
        0x0B => entry(0x0B, "asl", AddressingModeKind::DirectPage, 2, 4),
        0x0C => entry(0x0C, "asl", AddressingModeKind::Absolute, 3, 5),
        0x0D => entry(0x0D, "push", AddressingModeKind::Implied, 1, 4),
        0x0E => entry(0x0E, "tset1", AddressingModeKind::Absolute, 3, 6),
        0x0F => entry(0x0F, "brk", AddressingModeKind::Brk, 1, 8),
        0x10 => entry(0x10, "bpl", AddressingModeKind::Relative, 2, 2),
        0x11 => entry(0x11, "tcall", AddressingModeKind::TCall(1), 1, 8),
        0x12 => entry(0x12, "clr0", AddressingModeKind::DirectPageBit, 2, 4),
        0x13 => entry(0x13, "bbc0", AddressingModeKind::DirectPageBitRelative, 3, 5),
        0x14 => entry(0x14, "or", AddressingModeKind::DirectPageX, 2, 4),
        0x15 => entry(0x15, "or", AddressingModeKind::AbsoluteX, 3, 5),
        0x16 => entry(0x16, "or", AddressingModeKind::AbsoluteY, 3, 5),
        0x17 => entry(0x17, "or", AddressingModeKind::IndirectY, 2, 6),
        0x18 => entry(0x18, "or", AddressingModeKind::DirectPageImmediate, 3, 5),
        0x19 => entry(0x19, "or", AddressingModeKind::Implied, 1, 5),
        0x1A => entry(0x1A, "decw", AddressingModeKind::DirectPage, 2, 6),
        0x1B => entry(0x1B, "asl", AddressingModeKind::DirectPageX, 2, 5),
        0x1C => entry(0x1C, "asl", AddressingModeKind::Implied, 1, 2),
        0x1D => entry(0x1D, "dec", AddressingModeKind::Implied, 1, 2),
        0x1E => entry(0x1E, "cmp", AddressingModeKind::Absolute, 3, 4),
        0x1F => entry(0x1F, "jmp", AddressingModeKind::AbsoluteX, 3, 6),
        0x20 => entry(0x20, "clrp", AddressingModeKind::Implied, 1, 2),
        0x21 => entry(0x21, "tcall", AddressingModeKind::TCall(2), 1, 8),
        0x22 => entry(0x22, "set1", AddressingModeKind::DirectPageBit, 2, 4),
        0x23 => entry(0x23, "bbs1", AddressingModeKind::DirectPageBitRelative, 3, 5),
        0x24 => entry(0x24, "and", AddressingModeKind::DirectPage, 2, 3),
        0x25 => entry(0x25, "and", AddressingModeKind::Absolute, 3, 4),
        0x26 => entry(0x26, "and", AddressingModeKind::Indirect, 1, 3),
        0x27 => entry(0x27, "and", AddressingModeKind::IndirectX, 2, 6),
        0x28 => entry(0x28, "and", AddressingModeKind::ImmediateByte, 2, 2),
        0x29 => entry(0x29, "and", AddressingModeKind::DirectPageToDirectPage, 3, 6),
        0x2A => entry(0x2A, "or1", AddressingModeKind::MemoryBitNegated, 3, 5),
        0x2B => entry(0x2B, "rol", AddressingModeKind::DirectPage, 2, 4),
        0x2C => entry(0x2C, "rol", AddressingModeKind::Absolute, 3, 5),
        0x2D => entry(0x2D, "push", AddressingModeKind::Implied, 1, 4),
        0x2E => entry(0x2E, "cbne", AddressingModeKind::DirectPageRelative, 3, 5),
        0x2F => entry(0x2F, "bra", AddressingModeKind::Relative, 2, 4),
        0x30 => entry(0x30, "bmi", AddressingModeKind::Relative, 2, 2),
        0x31 => entry(0x31, "tcall", AddressingModeKind::TCall(3), 1, 8),
        0x32 => entry(0x32, "clr1", AddressingModeKind::DirectPageBit, 2, 4),
        0x33 => entry(0x33, "bbc1", AddressingModeKind::DirectPageBitRelative, 3, 5),
        0x34 => entry(0x34, "and", AddressingModeKind::DirectPageX, 2, 4),
        0x35 => entry(0x35, "and", AddressingModeKind::AbsoluteX, 3, 5),
        0x36 => entry(0x36, "and", AddressingModeKind::AbsoluteY, 3, 5),
        0x37 => entry(0x37, "and", AddressingModeKind::IndirectY, 2, 6),
        0x38 => entry(0x38, "and", AddressingModeKind::DirectPageImmediate, 3, 5),
        0x39 => entry(0x39, "and", AddressingModeKind::Implied, 1, 5),
        0x3A => entry(0x3A, "incw", AddressingModeKind::DirectPage, 2, 6),
        0x3B => entry(0x3B, "rol", AddressingModeKind::DirectPageX, 2, 5),
        0x3C => entry(0x3C, "rol", AddressingModeKind::Implied, 1, 2),
        0x3D => entry(0x3D, "inc", AddressingModeKind::Implied, 1, 2),
        0x3E => entry(0x3E, "cmp", AddressingModeKind::DirectPage, 2, 3),
        0x3F => entry(0x3F, "call", AddressingModeKind::Absolute, 3, 8),
        0x40 => entry(0x40, "setp", AddressingModeKind::Implied, 1, 2),
        0x41 => entry(0x41, "tcall", AddressingModeKind::TCall(4), 1, 8),
        0x42 => entry(0x42, "set2", AddressingModeKind::DirectPageBit, 2, 4),
        0x43 => entry(0x43, "bbs2", AddressingModeKind::DirectPageBitRelative, 3, 5),
        0x44 => entry(0x44, "eor", AddressingModeKind::DirectPage, 2, 3),
        0x45 => entry(0x45, "eor", AddressingModeKind::Absolute, 3, 4),
        0x46 => entry(0x46, "eor", AddressingModeKind::Indirect, 1, 3),
        0x47 => entry(0x47, "eor", AddressingModeKind::IndirectX, 2, 6),
        0x48 => entry(0x48, "eor", AddressingModeKind::ImmediateByte, 2, 2),
        0x49 => entry(0x49, "eor", AddressingModeKind::DirectPageToDirectPage, 3, 6),
        0x4A => entry(0x4A, "and1", AddressingModeKind::MemoryBit, 3, 4),
        0x4B => entry(0x4B, "lsr", AddressingModeKind::DirectPage, 2, 4),
        0x4C => entry(0x4C, "lsr", AddressingModeKind::Absolute, 3, 5),
        0x4D => entry(0x4D, "push", AddressingModeKind::Implied, 1, 4),
        0x4E => entry(0x4E, "tclr1", AddressingModeKind::Absolute, 3, 6),
        0x4F => entry(0x4F, "pcall", AddressingModeKind::PCall, 2, 6),
        0x50 => entry(0x50, "bvc", AddressingModeKind::Relative, 2, 2),
        0x51 => entry(0x51, "tcall", AddressingModeKind::TCall(5), 1, 8),
        0x52 => entry(0x52, "clr2", AddressingModeKind::DirectPageBit, 2, 4),
        0x53 => entry(0x53, "bbc2", AddressingModeKind::DirectPageBitRelative, 3, 5),
        0x54 => entry(0x54, "eor", AddressingModeKind::DirectPageX, 2, 4),
        0x55 => entry(0x55, "eor", AddressingModeKind::AbsoluteX, 3, 5),
        0x56 => entry(0x56, "eor", AddressingModeKind::AbsoluteY, 3, 5),
        0x57 => entry(0x57, "eor", AddressingModeKind::IndirectY, 2, 6),
        0x58 => entry(0x58, "eor", AddressingModeKind::DirectPageImmediate, 3, 5),
        0x59 => entry(0x59, "eor", AddressingModeKind::Implied, 1, 5),
        0x5A => entry(0x5A, "cmpw", AddressingModeKind::DirectPage, 2, 4),
        0x5B => entry(0x5B, "lsr", AddressingModeKind::DirectPageX, 2, 5),
        0x5C => entry(0x5C, "lsr", AddressingModeKind::Implied, 1, 2),
        0x5D => entry(0x5D, "mov", AddressingModeKind::Implied, 1, 2),
        0x5E => entry(0x5E, "cmp", AddressingModeKind::Absolute, 3, 4),
        0x5F => entry(0x5F, "jmp", AddressingModeKind::Absolute, 3, 3),
        0x60 => entry(0x60, "clrc", AddressingModeKind::Implied, 1, 2),
        0x61 => entry(0x61, "tcall", AddressingModeKind::TCall(6), 1, 8),
        0x62 => entry(0x62, "set3", AddressingModeKind::DirectPageBit, 2, 4),
        0x63 => entry(0x63, "bbs3", AddressingModeKind::DirectPageBitRelative, 3, 5),
        0x64 => entry(0x64, "cmp", AddressingModeKind::DirectPage, 2, 3),
        0x65 => entry(0x65, "cmp", AddressingModeKind::Absolute, 3, 4),
        0x66 => entry(0x66, "cmp", AddressingModeKind::Indirect, 1, 3),
        0x67 => entry(0x67, "cmp", AddressingModeKind::IndirectX, 2, 6),
        0x68 => entry(0x68, "cmp", AddressingModeKind::ImmediateByte, 2, 2),
        0x69 => entry(0x69, "cmp", AddressingModeKind::DirectPageToDirectPage, 3, 6),
        0x6A => entry(0x6A, "and1", AddressingModeKind::MemoryBitNegated, 3, 4),
        0x6B => entry(0x6B, "ror", AddressingModeKind::DirectPage, 2, 4),
        0x6C => entry(0x6C, "ror", AddressingModeKind::Absolute, 3, 5),
        0x6D => entry(0x6D, "push", AddressingModeKind::Implied, 1, 4),
        0x6E => entry(0x6E, "dbnz", AddressingModeKind::DirectPageRelative, 3, 5),
        0x6F => entry(0x6F, "ret", AddressingModeKind::Implied, 1, 5),
        0x70 => entry(0x70, "bvs", AddressingModeKind::Relative, 2, 2),
        0x71 => entry(0x71, "tcall", AddressingModeKind::TCall(7), 1, 8),
        0x72 => entry(0x72, "clr3", AddressingModeKind::DirectPageBit, 2, 4),
        0x73 => entry(0x73, "bbc3", AddressingModeKind::DirectPageBitRelative, 3, 5),
        0x74 => entry(0x74, "cmp", AddressingModeKind::DirectPageX, 2, 4),
        0x75 => entry(0x75, "cmp", AddressingModeKind::AbsoluteX, 3, 5),
        0x76 => entry(0x76, "cmp", AddressingModeKind::AbsoluteY, 3, 5),
        0x77 => entry(0x77, "cmp", AddressingModeKind::IndirectY, 2, 6),
        0x78 => entry(0x78, "cmp", AddressingModeKind::DirectPageImmediate, 3, 5),
        0x79 => entry(0x79, "cmp", AddressingModeKind::Implied, 1, 5),
        0x7A => entry(0x7A, "addw", AddressingModeKind::DirectPage, 2, 5),
        0x7B => entry(0x7B, "ror", AddressingModeKind::DirectPageX, 2, 5),
        0x7C => entry(0x7C, "ror", AddressingModeKind::Implied, 1, 2),
        0x7D => entry(0x7D, "mov", AddressingModeKind::Implied, 1, 2),
        0x7E => entry(0x7E, "cmp", AddressingModeKind::DirectPage, 2, 3),
        0x7F => entry(0x7F, "reti", AddressingModeKind::Implied, 1, 6),
        0x80 => entry(0x80, "setc", AddressingModeKind::Implied, 1, 2),
        0x81 => entry(0x81, "tcall", AddressingModeKind::TCall(8), 1, 8),
        0x82 => entry(0x82, "set4", AddressingModeKind::DirectPageBit, 2, 4),
        0x83 => entry(0x83, "bbs4", AddressingModeKind::DirectPageBitRelative, 3, 5),
        0x84 => entry(0x84, "adc", AddressingModeKind::DirectPage, 2, 3),
        0x85 => entry(0x85, "adc", AddressingModeKind::Absolute, 3, 4),
        0x86 => entry(0x86, "adc", AddressingModeKind::Indirect, 1, 3),
        0x87 => entry(0x87, "adc", AddressingModeKind::IndirectX, 2, 6),
        0x88 => entry(0x88, "adc", AddressingModeKind::ImmediateByte, 2, 2),
        0x89 => entry(0x89, "adc", AddressingModeKind::DirectPageToDirectPage, 3, 6),
        0x8A => entry(0x8A, "eor1", AddressingModeKind::MemoryBit, 3, 5),
        0x8B => entry(0x8B, "dec", AddressingModeKind::DirectPage, 2, 4),
        0x8C => entry(0x8C, "dec", AddressingModeKind::Absolute, 3, 5),
        0x8D => entry(0x8D, "mov", AddressingModeKind::ImmediateByte, 2, 2),
        0x8E => entry(0x8E, "pop", AddressingModeKind::Implied, 1, 4),
        0x8F => entry(0x8F, "mov", AddressingModeKind::DirectPageImmediate, 3, 5),
        0x90 => entry(0x90, "bcc", AddressingModeKind::Relative, 2, 2),
        0x91 => entry(0x91, "tcall", AddressingModeKind::TCall(9), 1, 8),
        0x92 => entry(0x92, "clr4", AddressingModeKind::DirectPageBit, 2, 4),
        0x93 => entry(0x93, "bbc4", AddressingModeKind::DirectPageBitRelative, 3, 5),
        0x94 => entry(0x94, "adc", AddressingModeKind::DirectPageX, 2, 4),
        0x95 => entry(0x95, "adc", AddressingModeKind::AbsoluteX, 3, 5),
        0x96 => entry(0x96, "adc", AddressingModeKind::AbsoluteY, 3, 5),
        0x97 => entry(0x97, "adc", AddressingModeKind::IndirectY, 2, 6),
        0x98 => entry(0x98, "adc", AddressingModeKind::DirectPageImmediate, 3, 5),
        0x99 => entry(0x99, "adc", AddressingModeKind::Implied, 1, 5),
        0x9A => entry(0x9A, "subw", AddressingModeKind::DirectPage, 2, 5),
        0x9B => entry(0x9B, "dec", AddressingModeKind::DirectPageX, 2, 5),
        0x9C => entry(0x9C, "dec", AddressingModeKind::Implied, 1, 2),
        0x9D => entry(0x9D, "mov", AddressingModeKind::Implied, 1, 2),
        0x9E => entry(0x9E, "div", AddressingModeKind::Implied, 1, 12),
        0x9F => entry(0x9F, "xcn", AddressingModeKind::Implied, 1, 5),
        0xA0 => entry(0xA0, "ei", AddressingModeKind::Implied, 1, 3),
        0xA1 => entry(0xA1, "tcall", AddressingModeKind::TCall(10), 1, 8),
        0xA2 => entry(0xA2, "set5", AddressingModeKind::DirectPageBit, 2, 4),
        0xA3 => entry(0xA3, "bbs5", AddressingModeKind::DirectPageBitRelative, 3, 5),
        0xA4 => entry(0xA4, "sbc", AddressingModeKind::DirectPage, 2, 3),
        0xA5 => entry(0xA5, "sbc", AddressingModeKind::Absolute, 3, 4),
        0xA6 => entry(0xA6, "sbc", AddressingModeKind::Indirect, 1, 3),
        0xA7 => entry(0xA7, "sbc", AddressingModeKind::IndirectX, 2, 6),
        0xA8 => entry(0xA8, "sbc", AddressingModeKind::ImmediateByte, 2, 2),
        0xA9 => entry(0xA9, "sbc", AddressingModeKind::DirectPageToDirectPage, 3, 6),
        0xAA => entry(0xAA, "mov1", AddressingModeKind::MemoryBit, 3, 4),
        0xAB => entry(0xAB, "inc", AddressingModeKind::DirectPage, 2, 4),
        0xAC => entry(0xAC, "inc", AddressingModeKind::Absolute, 3, 5),
        0xAD => entry(0xAD, "cmp", AddressingModeKind::ImmediateByte, 2, 2),
        0xAE => entry(0xAE, "pop", AddressingModeKind::Implied, 1, 4),
        0xAF => entry(0xAF, "mov", AddressingModeKind::IndirectAutoInc, 1, 4),
        0xB0 => entry(0xB0, "bcs", AddressingModeKind::Relative, 2, 2),
        0xB1 => entry(0xB1, "tcall", AddressingModeKind::TCall(11), 1, 8),
        0xB2 => entry(0xB2, "clr5", AddressingModeKind::DirectPageBit, 2, 4),
        0xB3 => entry(0xB3, "bbc5", AddressingModeKind::DirectPageBitRelative, 3, 5),
        0xB4 => entry(0xB4, "sbc", AddressingModeKind::DirectPageX, 2, 4),
        0xB5 => entry(0xB5, "sbc", AddressingModeKind::AbsoluteX, 3, 5),
        0xB6 => entry(0xB6, "sbc", AddressingModeKind::AbsoluteY, 3, 5),
        0xB7 => entry(0xB7, "sbc", AddressingModeKind::IndirectY, 2, 6),
        0xB8 => entry(0xB8, "sbc", AddressingModeKind::DirectPageImmediate, 3, 5),
        0xB9 => entry(0xB9, "sbc", AddressingModeKind::Implied, 1, 5),
        0xBA => entry(0xBA, "movw", AddressingModeKind::DirectPage, 2, 5),
        0xBB => entry(0xBB, "inc", AddressingModeKind::DirectPageX, 2, 5),
        0xBC => entry(0xBC, "inc", AddressingModeKind::Implied, 1, 2),
        0xBD => entry(0xBD, "mov", AddressingModeKind::Implied, 1, 2),
        0xBE => entry(0xBE, "das", AddressingModeKind::Implied, 1, 3),
        0xBF => entry(0xBF, "mov", AddressingModeKind::IndirectAutoInc, 1, 4),
        0xC0 => entry(0xC0, "di", AddressingModeKind::Implied, 1, 3),
        0xC1 => entry(0xC1, "tcall", AddressingModeKind::TCall(12), 1, 8),
        0xC2 => entry(0xC2, "set6", AddressingModeKind::DirectPageBit, 2, 4),
        0xC3 => entry(0xC3, "bbs6", AddressingModeKind::DirectPageBitRelative, 3, 5),
        0xC4 => entry(0xC4, "mov", AddressingModeKind::DirectPage, 2, 4),
        0xC5 => entry(0xC5, "mov", AddressingModeKind::Absolute, 3, 5),
        0xC6 => entry(0xC6, "mov", AddressingModeKind::Indirect, 1, 4),
        0xC7 => entry(0xC7, "mov", AddressingModeKind::IndirectX, 2, 7),
        0xC8 => entry(0xC8, "cmp", AddressingModeKind::ImmediateByte, 2, 2),
        0xC9 => entry(0xC9, "mov", AddressingModeKind::Absolute, 3, 5),
        0xCA => entry(0xCA, "mov1", AddressingModeKind::MemoryBit, 3, 6),
        0xCB => entry(0xCB, "mov", AddressingModeKind::DirectPage, 2, 4),
        0xCC => entry(0xCC, "mov", AddressingModeKind::Absolute, 3, 5),
        0xCD => entry(0xCD, "mov", AddressingModeKind::ImmediateByte, 2, 2),
        0xCE => entry(0xCE, "pop", AddressingModeKind::Implied, 1, 4),
        0xCF => entry(0xCF, "mul", AddressingModeKind::Implied, 1, 9),
        0xD0 => entry(0xD0, "bne", AddressingModeKind::Relative, 2, 2),
        0xD1 => entry(0xD1, "tcall", AddressingModeKind::TCall(13), 1, 8),
        0xD2 => entry(0xD2, "clr6", AddressingModeKind::DirectPageBit, 2, 4),
        0xD3 => entry(0xD3, "bbc6", AddressingModeKind::DirectPageBitRelative, 3, 5),
        0xD4 => entry(0xD4, "mov", AddressingModeKind::DirectPageX, 2, 5),
        0xD5 => entry(0xD5, "mov", AddressingModeKind::AbsoluteX, 3, 6),
        0xD6 => entry(0xD6, "mov", AddressingModeKind::AbsoluteY, 3, 6),
        0xD7 => entry(0xD7, "mov", AddressingModeKind::IndirectY, 2, 7),
        0xD8 => entry(0xD8, "mov", AddressingModeKind::DirectPage, 2, 4),
        0xD9 => entry(0xD9, "mov", AddressingModeKind::DirectPageY, 2, 5),
        0xDA => entry(0xDA, "movw", AddressingModeKind::DirectPage, 2, 5),
        0xDB => entry(0xDB, "mov", AddressingModeKind::DirectPageX, 2, 5),
        0xDC => entry(0xDC, "dec", AddressingModeKind::Implied, 1, 2),
        0xDD => entry(0xDD, "mov", AddressingModeKind::Implied, 1, 2),
        0xDE => entry(0xDE, "cbne", AddressingModeKind::DirectPageXRelative, 3, 6),
        0xDF => entry(0xDF, "daa", AddressingModeKind::Implied, 1, 3),
        0xE0 => entry(0xE0, "clrv", AddressingModeKind::Implied, 1, 2),
        0xE1 => entry(0xE1, "tcall", AddressingModeKind::TCall(14), 1, 8),
        0xE2 => entry(0xE2, "set7", AddressingModeKind::DirectPageBit, 2, 4),
        0xE3 => entry(0xE3, "bbs7", AddressingModeKind::DirectPageBitRelative, 3, 5),
        0xE4 => entry(0xE4, "mov", AddressingModeKind::DirectPage, 2, 3),
        0xE5 => entry(0xE5, "mov", AddressingModeKind::Absolute, 3, 4),
        0xE6 => entry(0xE6, "mov", AddressingModeKind::Indirect, 1, 3),
        0xE7 => entry(0xE7, "mov", AddressingModeKind::IndirectX, 2, 6),
        0xE8 => entry(0xE8, "mov", AddressingModeKind::ImmediateByte, 2, 2),
        0xE9 => entry(0xE9, "mov", AddressingModeKind::Absolute, 3, 4),
        0xEA => entry(0xEA, "not1", AddressingModeKind::MemoryBit, 3, 5),
        0xEB => entry(0xEB, "mov", AddressingModeKind::DirectPage, 2, 3),
        0xEC => entry(0xEC, "mov", AddressingModeKind::Absolute, 3, 4),
        0xED => entry(0xED, "notc", AddressingModeKind::Implied, 1, 3),
        0xEE => entry(0xEE, "pop", AddressingModeKind::Implied, 1, 4),
        0xEF => entry(0xEF, "sleep", AddressingModeKind::Implied, 1, 3),
        0xF0 => entry(0xF0, "beq", AddressingModeKind::Relative, 2, 2),
        0xF1 => entry(0xF1, "tcall", AddressingModeKind::TCall(15), 1, 8),
        0xF2 => entry(0xF2, "clr7", AddressingModeKind::DirectPageBit, 2, 4),
        0xF3 => entry(0xF3, "bbc7", AddressingModeKind::DirectPageBitRelative, 3, 5),
        0xF4 => entry(0xF4, "mov", AddressingModeKind::DirectPageX, 2, 4),
        0xF5 => entry(0xF5, "mov", AddressingModeKind::AbsoluteX, 3, 5),
        0xF6 => entry(0xF6, "mov", AddressingModeKind::AbsoluteY, 3, 5),
        0xF7 => entry(0xF7, "mov", AddressingModeKind::IndirectY, 2, 6),
        0xF8 => entry(0xF8, "mov", AddressingModeKind::DirectPage, 2, 3),
        0xF9 => entry(0xF9, "mov", AddressingModeKind::DirectPageY, 2, 4),
        0xFA => entry(0xFA, "mov", AddressingModeKind::DirectPageToDirectPage, 3, 5),
        0xFB => entry(0xFB, "mov", AddressingModeKind::DirectPageX, 2, 4),
        0xFC => entry(0xFC, "inc", AddressingModeKind::Implied, 1, 2),
        0xFD => entry(0xFD, "mov", AddressingModeKind::Implied, 1, 2),
        0xFE => entry(0xFE, "dbnz", AddressingModeKind::ImpliedRelative, 2, 4),
        0xFF => entry(0xFF, "stop", AddressingModeKind::Implied, 1, 3),
    }
}

/// The table is complete and consistent: every opcode has a definition of
/// its own that carries that opcode, stands for an instruction, and is one
/// to three bytes long, the opcode byte plus the operand bytes of its mode.
/// A table call's index is the opcode's high nibble.
pub proof fn lemma_table_complete(opcode: u8)
    ensures
        opcode_table(opcode).opcode == opcode,
        opcode_table(opcode).wf(),
        1 <= opcode_table(opcode).len <= 3,
        opcode_table(opcode).mode matches AddressingModeKind::TCall(n) ==> n as int == opcode as int
            / 16,
{
}

} // verus!
