use crate::instruction::{DecodedInstruction, DecodedOperand};
use crate::spc::{same_bytes, wrap_addr, Config, Spc};
use crate::text::{
    decimal, hex_byte, hex_word, is_white_space, lemma_trim_end_is_prefix, lemma_trim_end_keeps,
    pad_right, pad_right_to, push_decimal, push_hex_byte, push_hex_word, same_text, trim_end,
    trim_text_end,
};
use vstd::prelude::*;
use vstd::string::*;

verus! {

/// Width of the hex dump column.
pub const HEX_COLUMN: usize = 10;

/// Width of the mnemonic column.
pub const MNEMONIC_COLUMN: usize = 5;

/// A signed offset as the byte that encodes it.
pub open spec fn as_unsigned(offset: i8) -> u8 {
    if offset < 0 {
        (offset as int + 256) as u8
    } else {
        offset as u8
    }
}

/// The address a relative branch goes to: the address after the
/// instruction plus the signed offset, wrapping at the end of the address
/// space.
pub open spec fn branch_target(pc: u16, len: u8, offset: i8) -> u16 {
    ((pc as int + len as int + offset as int) % 0x10000) as u16
}

/// A byte value in assembly syntax: `$hh`.
pub open spec fn byte_text(value: u8) -> Seq<char> {
    "$"@ + hex_byte(value)
}

/// A word value in assembly syntax: `$hhhh`.
pub open spec fn word_text(value: u16) -> Seq<char> {
    "$"@ + hex_word(value)
}

/// A branch operand: the target address as a word where branches are
/// resolved, otherwise the offset's byte as it stands in memory.
pub open spec fn branch_text(pc: u16, len: u8, offset: i8, resolve: bool) -> Seq<char> {
    if resolve {
        word_text(branch_target(pc, len, offset))
    } else {
        byte_text(as_unsigned(offset))
    }
}

/// A value's text between the two texts that an opcode puts around it.
pub open spec fn between(affixes: (Seq<char>, Seq<char>), value: Seq<char>) -> Seq<char> {
    affixes.0 + value + affixes.1
}

/// The operand text of an instruction that has no operand bytes: the
/// registers that the opcode names, or nothing.
pub open spec fn implied_text(opcode: u8) -> Seq<char> {
    match opcode {
        0x0D | 0x8E => "psw"@,
        0x2D | 0xAE => "a"@,
        0x4D | 0xCE => "x"@,
        0x6D | 0xEE => "y"@,
        0x1C | 0x3C | 0x5C | 0x7C | 0x9C | 0xBC => "a"@,
        0x1D | 0x3D => "x"@,
        0xDC | 0xFC => "y"@,
        0x5D => "x,a"@,
        0x7D => "a,x"@,
        0x9D => "x,sp"@,
        0xBD => "sp,x"@,
        0xDD => "a,y"@,
        0xFD => "y,a"@,
        0xBE | 0xDF | 0x9F => "a"@,
        0xCF => "ya"@,
        0x9E => "ya,x"@,
        0x19 | 0x39 | 0x59 | 0x79 | 0x99 | 0xB9 => "(x),(y)"@,
        _ => ""@,
    }
}

/// What stands before an immediate value: the register that the opcode
/// works on, `x` and `y` for the two compares with those registers, `a` for
/// every other opcode.
pub open spec fn immediate_lead(opcode: u8) -> Seq<char> {
    match opcode {
        0xC8 => "x,#"@,
        0xAD => "y,#"@,
        _ => "a,#"@,
    }
}

/// What stands around a direct-page address.
pub open spec fn direct_affixes(opcode: u8) -> (Seq<char>, Seq<char>) {
    match opcode {
        0x1A | 0x3A => (""@, ""@),
        0x5A | 0x7A | 0x9A | 0xBA => ("ya,"@, ""@),
        0xDA => (""@, ",ya"@),
        0x3E | 0xF8 => ("x,"@, ""@),
        0x7E | 0xEB => ("y,"@, ""@),
        0xC4 => (""@, ",a"@),
        0xCB => (""@, ",y"@),
        0xD8 => (""@, ",x"@),
        0x04 | 0x24 | 0x44 | 0x64 | 0x84 | 0xA4 | 0xE4 => ("a,"@, ""@),
        _ => (""@, ""@),
    }
}

/// What stands around an absolute address.
pub open spec fn absolute_affixes(mnemonic: Seq<char>, opcode: u8) -> (Seq<char>, Seq<char>) {
    if mnemonic == "jmp"@ || mnemonic == "call"@ {
        (""@, ""@)
    } else if mnemonic == "mov"@ {
        match opcode {
            0xC5 => (""@, ",a"@),
            0xC9 => (""@, ",x"@),
            0xCC => (""@, ",y"@),
            0xE5 => ("a,"@, ""@),
            0xE9 => ("x,"@, ""@),
            0xEC => ("y,"@, ""@),
            _ => (""@, ""@),
        }
    } else if mnemonic == "cmp"@ {
        match opcode {
            0x1E => ("x,"@, ""@),
            0x5E => ("y,"@, ""@),
            _ => ("a,"@, ""@),
        }
    } else if mnemonic == "asl"@ || mnemonic == "dec"@ || mnemonic == "inc"@ || mnemonic == "lsr"@
        || mnemonic == "rol"@ || mnemonic == "ror"@ || mnemonic == "tset1"@ || mnemonic
        == "tclr1"@ {
        (""@, ""@)
    } else {
        ("a,"@, ""@)
    }
}

/// What stands around a direct-page address indexed by `x`.
pub open spec fn direct_x_affixes(mnemonic: Seq<char>, opcode: u8) -> (Seq<char>, Seq<char>) {
    if mnemonic == "mov"@ {
        match opcode {
            0xFB => ("y,"@, "+x"@),
            0xDB => (""@, "+x,y"@),
            0xD4 => (""@, "+x,a"@),
            _ => ("a,"@, "+x"@),
        }
    } else if mnemonic == "adc"@ || mnemonic == "and"@ || mnemonic == "cmp"@ || mnemonic == "eor"@
        || mnemonic == "or"@ || mnemonic == "sbc"@ {
        ("a,"@, "+x"@)
    } else {
        (""@, "+x"@)
    }
}

/// What stands around a direct-page address indexed by `y`.
pub open spec fn direct_y_affixes(mnemonic: Seq<char>, opcode: u8) -> (Seq<char>, Seq<char>) {
    if mnemonic == "mov"@ {
        match opcode {
            0xD9 => (""@, "+y,x"@),
            _ => ("x,"@, "+y"@),
        }
    } else {
        ("a,"@, "+y"@)
    }
}

/// What stands around an absolute address indexed by `x`.
pub open spec fn absolute_x_affixes(mnemonic: Seq<char>, opcode: u8) -> (Seq<char>, Seq<char>) {
    if mnemonic == "jmp"@ {
        ("("@, "+x)"@)
    } else if mnemonic == "mov"@ && opcode == 0xD5 {
        (""@, "+x,a"@)
    } else {
        ("a,"@, "+x"@)
    }
}

/// What stands around an absolute address indexed by `y`.
pub open spec fn absolute_y_affixes(mnemonic: Seq<char>, opcode: u8) -> (Seq<char>, Seq<char>) {
    if mnemonic == "mov"@ && opcode == 0xD6 {
        (""@, "+y,a"@)
    } else {
        ("a,"@, "+y"@)
    }
}

/// What stands around the direct-page address of an indexed-indirect
/// operand.
pub open spec fn indirect_x_affixes(mnemonic: Seq<char>, opcode: u8) -> (Seq<char>, Seq<char>) {
    if mnemonic == "mov"@ && opcode == 0xC7 {
        ("("@, "+x),a"@)
    } else {
        ("a,("@, "+x)"@)
    }
}

/// What stands around the direct-page address of an indirect-indexed
/// operand.
pub open spec fn indirect_y_affixes(mnemonic: Seq<char>, opcode: u8) -> (Seq<char>, Seq<char>) {
    if mnemonic == "mov"@ && opcode == 0xD7 {
        ("("@, ")+y,a"@)
    } else {
        ("a,("@, ")+y"@)
    }
}

/// The operand text of an access through `x`.
pub open spec fn indirect_text(opcode: u8) -> Seq<char> {
    match opcode {
        0xC6 => "(x),a"@,
        _ => "a,(x)"@,
    }
}

/// The operand text of an access through `x` that then increments it.
pub open spec fn auto_inc_text(opcode: u8) -> Seq<char> {
    match opcode {
        0xAF => "(x)+,a"@,
        0xBF => "a,(x)+"@,
        _ => "???"@,
    }
}

/// What stands around a memory bit, for the mnemonics that take one: the
/// carry flag as the other operand, the bit negated where the opcode's
/// flag `0x20` is set.
pub open spec fn memory_bit_affixes(mnemonic: Seq<char>, opcode: u8) -> Option<
    (Seq<char>, Seq<char>),
> {
    if mnemonic == "or1"@ || mnemonic == "and1"@ || mnemonic == "eor1"@ {
        if opcode & 0x20 != 0 {
            Some(("c,!("@, ")"@))
        } else {
            Some(("c,"@, ""@))
        }
    } else if mnemonic == "mov1"@ {
        if opcode == 0xAA {
            Some(("c,"@, ""@))
        } else {
            Some((""@, ",c"@))
        }
    } else if mnemonic == "not1"@ {
        Some((""@, ""@))
    } else {
        None
    }
}

/// The operand text of a memory bit: address and bit index, with what the
/// mnemonic and opcode put around them.
pub open spec fn memory_bit_text(mnemonic: Seq<char>, opcode: u8, addr: u16, bit: u8) -> Seq<
    char,
> {
    match memory_bit_affixes(mnemonic, opcode) {
        Some(affixes) => between(affixes, word_text(addr) + ","@ + decimal(bit as nat)),
        None => "???"@,
    }
}

/// The operand text of an instruction. The operand's shape picks the
/// table, the opcode (and for some shapes the mnemonic) the entry.
pub open spec fn operand_text(instr: DecodedInstruction, resolve: bool) -> Seq<char> {
    let opcode = instr.definition.opcode;
    let mnemonic = instr.definition.mnemonic@;
    let pc = instr.address;
    let len = instr.definition.len;
    match instr.operand {
        DecodedOperand::Empty => implied_text(opcode),
        DecodedOperand::TCall(n) => decimal(n as nat),
        DecodedOperand::PCall(addr) => byte_text(addr),
        DecodedOperand::Byte(value) => immediate_lead(opcode) + byte_text(value),
        DecodedOperand::Relative(offset) => if opcode == 0xFE {
            "y,"@ + branch_text(pc, len, offset, resolve)
        } else {
            branch_text(pc, len, offset, resolve)
        },
        DecodedOperand::Direct(addr) => between(direct_affixes(opcode), byte_text(addr)),
        DecodedOperand::Absolute(addr) => between(
            absolute_affixes(mnemonic, opcode),
            word_text(addr),
        ),
        DecodedOperand::DirectX(addr) => between(
            direct_x_affixes(mnemonic, opcode),
            byte_text(addr),
        ),
        DecodedOperand::DirectY(addr) => between(
            direct_y_affixes(mnemonic, opcode),
            byte_text(addr),
        ),
        DecodedOperand::AbsoluteX(addr) => between(
            absolute_x_affixes(mnemonic, opcode),
            word_text(addr),
        ),
        DecodedOperand::AbsoluteY(addr) => between(
            absolute_y_affixes(mnemonic, opcode),
            word_text(addr),
        ),
        DecodedOperand::IndirectX(addr) => between(
            indirect_x_affixes(mnemonic, opcode),
            byte_text(addr),
        ),
        DecodedOperand::IndirectY(addr) => between(
            indirect_y_affixes(mnemonic, opcode),
            byte_text(addr),
        ),
        DecodedOperand::Indirect => indirect_text(opcode),
        DecodedOperand::IndirectAutoInc => auto_inc_text(opcode),
        DecodedOperand::DirectBit { addr } => byte_text(addr),
        DecodedOperand::DirectBitRelative { addr, offset } => byte_text(addr) + ","@ + branch_text(
            pc,
            len,
            offset,
            resolve,
        ),
        DecodedOperand::MemoryBit { addr, bit } => memory_bit_text(mnemonic, opcode, addr, bit),
        DecodedOperand::DpToDp { dest, src } => "("@ + byte_text(dest) + "),("@ + byte_text(src)
            + ")"@,
        DecodedOperand::DpImm { addr, imm } => byte_text(addr) + ",#"@ + byte_text(imm),
        DecodedOperand::DirectRelative { addr, offset } => byte_text(addr) + ","@ + branch_text(
            pc,
            len,
            offset,
            resolve,
        ),
        DecodedOperand::DirectXRelative { addr, offset } => byte_text(addr) + "+x,"@ + branch_text(
            pc,
            len,
            offset,
            resolve,
        ),
    }
}

/// The disassembly of an instruction: the mnemonic alone where there is no
/// operand text, otherwise the mnemonic in its column, a blank and the
/// operand text.
pub open spec fn disassembly_text(instr: DecodedInstruction, resolve: bool) -> Seq<char> {
    let operand = operand_text(instr, resolve);
    if operand.len() == 0 {
        instr.definition.mnemonic@
    } else {
        pad_right(instr.definition.mnemonic@, MNEMONIC_COLUMN as nat) + " "@ + operand
    }
}

/// The hex dump of the `count` bytes from `addr` on, the addresses
/// wrapping: two digits and a blank for each.
pub open spec fn hex_dump(mem: Seq<u8>, addr: u16, count: nat) -> Seq<char>
    decreases count,
{
    if count == 0 {
        Seq::empty()
    } else {
        hex_dump(mem, addr, (count - 1) as nat) + hex_byte(
            mem[wrap_addr(addr as int, count - 1)],
        ) + " "@
    }
}

/// What stands before the disassembly: the address and a colon where
/// addresses are shown, then the hex dump of the instruction's bytes in its
/// column where hex is shown.
pub open spec fn prefix_text(instr: DecodedInstruction, mem: Seq<u8>, config: Config) -> Seq<
    char,
> {
    let address = if config.show_addr {
        hex_word(instr.address) + ": "@
    } else {
        Seq::empty()
    };
    let dump = if config.show_hex {
        pad_right(
            hex_dump(mem, instr.address, instr.definition.len as nat),
            HEX_COLUMN as nat,
        )
    } else {
        Seq::empty()
    };
    address + dump
}

/// The line for an instruction: prefix and disassembly, without white
/// space at the end.
pub open spec fn instruction_text(instr: DecodedInstruction, mem: Seq<u8>, config: Config) -> Seq<
    char,
> {
    trim_end(prefix_text(instr, mem, config) + disassembly_text(instr, config.resolve_rel))
}

/// The byte that encodes a signed offset.
pub fn unsigned_byte(offset: i8) -> (b: u8)
    ensures
        b == as_unsigned(offset),
{
    if offset < 0 {
        (offset as i16 + 256) as u8
    } else {
        offset as u8
    }
}

/// The address a relative branch goes to.
pub fn resolve_branch(pc: u16, len: u8, offset: i8) -> (target: u16)
    ensures
        target == branch_target(pc, len, offset),
{
    pc.wrapping_add(len as u16).wrapping_add_signed(offset as i16)
}

fn push_byte_text(out: &mut String, value: u8)
    ensures
        final(out)@ == old(out)@ + byte_text(value),
{
    out.append("$");
    push_hex_byte(out, value);
    assert(out@ =~= old(out)@ + byte_text(value));
}

fn push_word_text(out: &mut String, value: u16)
    ensures
        final(out)@ == old(out)@ + word_text(value),
{
    out.append("$");
    push_hex_word(out, value);
    assert(out@ =~= old(out)@ + word_text(value));
}

fn push_branch_text(out: &mut String, pc: u16, len: u8, offset: i8, resolve: bool)
    ensures
        final(out)@ == old(out)@ + branch_text(pc, len, offset, resolve),
{
    if resolve {
        push_word_text(out, resolve_branch(pc, len, offset));
    } else {
        push_byte_text(out, unsigned_byte(offset));
    }
}

fn byte_between(affixes: (&str, &str), value: u8) -> (text: String)
    ensures
        text@ == between((affixes.0@, affixes.1@), byte_text(value)),
{
    let mut text = String::from_str(affixes.0);
    push_byte_text(&mut text, value);
    text.append(affixes.1);
    text
}

fn word_between(affixes: (&str, &str), value: u16) -> (text: String)
    ensures
        text@ == between((affixes.0@, affixes.1@), word_text(value)),
{
    let mut text = String::from_str(affixes.0);
    push_word_text(&mut text, value);
    text.append(affixes.1);
    text
}

fn byte_then_branch(
    addr: u8,
    link: &str,
    pc: u16,
    len: u8,
    offset: i8,
    resolve: bool,
) -> (text: String)
    ensures
        text@ == byte_text(addr) + link@ + branch_text(pc, len, offset, resolve),
{
    let mut text = String::new();
    push_byte_text(&mut text, addr);
    text.append(link);
    push_branch_text(&mut text, pc, len, offset, resolve);
    assert(text@ =~= byte_text(addr) + link@ + branch_text(pc, len, offset, resolve));
    text
}

fn select_implied_text(opcode: u8) -> (text: &'static str)
    ensures
        text@ == implied_text(opcode),
{
    match opcode {
        0x0D | 0x8E => "psw",
        0x2D | 0xAE => "a",
        0x4D | 0xCE => "x",
        0x6D | 0xEE => "y",
        0x1C | 0x3C | 0x5C | 0x7C | 0x9C | 0xBC => "a",
        0x1D | 0x3D => "x",
        0xDC | 0xFC => "y",
        0x5D => "x,a",
        0x7D => "a,x",
        0x9D => "x,sp",
        0xBD => "sp,x",
        0xDD => "a,y",
        0xFD => "y,a",
        0xBE | 0xDF | 0x9F => "a",
        0xCF => "ya",
        0x9E => "ya,x",
        0x19 | 0x39 | 0x59 | 0x79 | 0x99 | 0xB9 => "(x),(y)",
        _ => "",
    }
}

fn select_immediate_lead(opcode: u8) -> (lead: &'static str)
    ensures
        lead@ == immediate_lead(opcode),
{
    match opcode {
        0xC8 => "x,#",
        0xAD => "y,#",
        _ => "a,#",
    }
}

fn select_direct_affixes(opcode: u8) -> (affixes: (&'static str, &'static str))
    ensures
        (affixes.0@, affixes.1@) == direct_affixes(opcode),
{
    match opcode {
        0x1A | 0x3A => ("", ""),
        0x5A | 0x7A | 0x9A | 0xBA => ("ya,", ""),
        0xDA => ("", ",ya"),
        0x3E | 0xF8 => ("x,", ""),
        0x7E | 0xEB => ("y,", ""),
        0xC4 => ("", ",a"),
        0xCB => ("", ",y"),
        0xD8 => ("", ",x"),
        0x04 | 0x24 | 0x44 | 0x64 | 0x84 | 0xA4 | 0xE4 => ("a,", ""),
        _ => ("", ""),
    }
}

fn select_absolute_affixes(mnemonic: &str, opcode: u8) -> (affixes: (&'static str, &'static str))
    ensures
        (affixes.0@, affixes.1@) == absolute_affixes(mnemonic@, opcode),
{
    if same_text(mnemonic, "jmp") || same_text(mnemonic, "call") {
        ("", "")
    } else if same_text(mnemonic, "mov") {
        match opcode {
            0xC5 => ("", ",a"),
            0xC9 => ("", ",x"),
            0xCC => ("", ",y"),
            0xE5 => ("a,", ""),
            0xE9 => ("x,", ""),
            0xEC => ("y,", ""),
            _ => ("", ""),
        }
    } else if same_text(mnemonic, "cmp") {
        match opcode {
            0x1E => ("x,", ""),
            0x5E => ("y,", ""),
            _ => ("a,", ""),
        }
    } else if same_text(mnemonic, "asl") || same_text(mnemonic, "dec") || same_text(
        mnemonic,
        "inc",
    ) || same_text(mnemonic, "lsr") || same_text(mnemonic, "rol") || same_text(mnemonic, "ror")
        || same_text(mnemonic, "tset1") || same_text(mnemonic, "tclr1") {
        ("", "")
    } else {
        ("a,", "")
    }
}

fn select_direct_x_affixes(mnemonic: &str, opcode: u8) -> (affixes: (&'static str, &'static str))
    ensures
        (affixes.0@, affixes.1@) == direct_x_affixes(mnemonic@, opcode),
{
    if same_text(mnemonic, "mov") {
        match opcode {
            0xFB => ("y,", "+x"),
            0xDB => ("", "+x,y"),
            0xD4 => ("", "+x,a"),
            _ => ("a,", "+x"),
        }
    } else if same_text(mnemonic, "adc") || same_text(mnemonic, "and") || same_text(
        mnemonic,
        "cmp",
    ) || same_text(mnemonic, "eor") || same_text(mnemonic, "or") || same_text(mnemonic, "sbc") {
        ("a,", "+x")
    } else {
        ("", "+x")
    }
}

fn select_direct_y_affixes(mnemonic: &str, opcode: u8) -> (affixes: (&'static str, &'static str))
    ensures
        (affixes.0@, affixes.1@) == direct_y_affixes(mnemonic@, opcode),
{
    if same_text(mnemonic, "mov") {
        match opcode {
            0xD9 => ("", "+y,x"),
            _ => ("x,", "+y"),
        }
    } else {
        ("a,", "+y")
    }
}

fn select_absolute_x_affixes(mnemonic: &str, opcode: u8) -> (affixes: (
    &'static str,
    &'static str,
))
    ensures
        (affixes.0@, affixes.1@) == absolute_x_affixes(mnemonic@, opcode),
{
    if same_text(mnemonic, "jmp") {
        ("(", "+x)")
    } else if same_text(mnemonic, "mov") && opcode == 0xD5 {
        ("", "+x,a")
    } else {
        ("a,", "+x")
    }
}

fn select_absolute_y_affixes(mnemonic: &str, opcode: u8) -> (affixes: (
    &'static str,
    &'static str,
))
    ensures
        (affixes.0@, affixes.1@) == absolute_y_affixes(mnemonic@, opcode),
{
    if same_text(mnemonic, "mov") && opcode == 0xD6 {
        ("", "+y,a")
    } else {
        ("a,", "+y")
    }
}

fn select_indirect_x_affixes(mnemonic: &str, opcode: u8) -> (affixes: (
    &'static str,
    &'static str,
))
    ensures
        (affixes.0@, affixes.1@) == indirect_x_affixes(mnemonic@, opcode),
{
    if same_text(mnemonic, "mov") && opcode == 0xC7 {
        ("(", "+x),a")
    } else {
        ("a,(", "+x)")
    }
}

fn select_indirect_y_affixes(mnemonic: &str, opcode: u8) -> (affixes: (
    &'static str,
    &'static str,
))
    ensures
        (affixes.0@, affixes.1@) == indirect_y_affixes(mnemonic@, opcode),
{
    if same_text(mnemonic, "mov") && opcode == 0xD7 {
        ("(", ")+y,a")
    } else {
        ("a,(", ")+y")
    }
}

fn select_indirect_text(opcode: u8) -> (text: &'static str)
    ensures
        text@ == indirect_text(opcode),
{
    match opcode {
        0xC6 => "(x),a",
        _ => "a,(x)",
    }
}

fn select_auto_inc_text(opcode: u8) -> (text: &'static str)
    ensures
        text@ == auto_inc_text(opcode),
{
    match opcode {
        0xAF => "(x)+,a",
        0xBF => "a,(x)+",
        _ => "???",
    }
}

fn select_memory_bit_affixes(mnemonic: &str, opcode: u8) -> (affixes: Option<
    (&'static str, &'static str),
>)
    ensures
        affixes is None <==> memory_bit_affixes(mnemonic@, opcode) is None,
        affixes matches Some(found) ==> Some((found.0@, found.1@)) == memory_bit_affixes(
            mnemonic@,
            opcode,
        ),
{
    if same_text(mnemonic, "or1") || same_text(mnemonic, "and1") || same_text(mnemonic, "eor1") {
        if opcode & 0x20 != 0 {
            Some(("c,!(", ")"))
        } else {
            Some(("c,", ""))
        }
    } else if same_text(mnemonic, "mov1") {
        if opcode == 0xAA {
            Some(("c,", ""))
        } else {
            Some(("", ",c"))
        }
    } else if same_text(mnemonic, "not1") {
        Some(("", ""))
    } else {
        None
    }
}

fn format_memory_bit(mnemonic: &str, opcode: u8, addr: u16, bit: u8) -> (text: String)
    ensures
        text@ == memory_bit_text(mnemonic@, opcode, addr, bit),
{
    match select_memory_bit_affixes(mnemonic, opcode) {
        Some(affixes) => {
            let mut text = String::from_str(affixes.0);
            push_word_text(&mut text, addr);
            text.append(",");
            push_decimal(&mut text, bit);
            text.append(affixes.1);
            assert(text@ =~= between(
                (affixes.0@, affixes.1@),
                word_text(addr) + ","@ + decimal(bit as nat),
            ));
            text
        },
        None => String::from_str("???"),
    }
}

/// Renders the operand of an instruction; `resolve` says whether branch
/// offsets are shown as the addresses they lead to.
pub fn format_operand(instr: &DecodedInstruction, resolve: bool) -> (text: String)
    ensures
        text@ == operand_text(*instr, resolve),
{
    let opcode = instr.definition.opcode;
    let mnemonic = instr.definition.mnemonic;
    let pc = instr.address;
    let len = instr.definition.len;
    match instr.operand {
        DecodedOperand::Empty => String::from_str(select_implied_text(opcode)),
        DecodedOperand::TCall(n) => {
            let mut text = String::new();
            push_decimal(&mut text, n);
            assert(text@ =~= decimal(n as nat));
            text
        },
        DecodedOperand::PCall(addr) => {
            let mut text = String::new();
            push_byte_text(&mut text, addr);
            assert(text@ =~= byte_text(addr));
            text
        },
        DecodedOperand::Byte(value) => {
            let mut text = String::from_str(select_immediate_lead(opcode));
            push_byte_text(&mut text, value);
            text
        },
        DecodedOperand::Relative(offset) => {
            let mut text = String::new();
            if opcode == 0xFE {
                text.append("y,");
            }
            push_branch_text(&mut text, pc, len, offset, resolve);
            assert(text@ =~= operand_text(*instr, resolve));
            text
        },
        DecodedOperand::Direct(addr) => byte_between(select_direct_affixes(opcode), addr),
        DecodedOperand::Absolute(addr) => word_between(
            select_absolute_affixes(mnemonic, opcode),
            addr,
        ),
        DecodedOperand::DirectX(addr) => byte_between(
            select_direct_x_affixes(mnemonic, opcode),
            addr,
        ),
        DecodedOperand::DirectY(addr) => byte_between(
            select_direct_y_affixes(mnemonic, opcode),
            addr,
        ),
        DecodedOperand::AbsoluteX(addr) => word_between(
            select_absolute_x_affixes(mnemonic, opcode),
            addr,
        ),
        DecodedOperand::AbsoluteY(addr) => word_between(
            select_absolute_y_affixes(mnemonic, opcode),
            addr,
        ),
        DecodedOperand::IndirectX(addr) => byte_between(
            select_indirect_x_affixes(mnemonic, opcode),
            addr,
        ),
        DecodedOperand::IndirectY(addr) => byte_between(
            select_indirect_y_affixes(mnemonic, opcode),
            addr,
        ),
        DecodedOperand::Indirect => String::from_str(select_indirect_text(opcode)),
        DecodedOperand::IndirectAutoInc => String::from_str(select_auto_inc_text(opcode)),
        DecodedOperand::DirectBit { addr } => {
            let mut text = String::new();
            push_byte_text(&mut text, addr);
            assert(text@ =~= byte_text(addr));
            text
        },
        DecodedOperand::DirectBitRelative { addr, offset } => byte_then_branch(
            addr,
            ",",
            pc,
            len,
            offset,
            resolve,
        ),
        DecodedOperand::MemoryBit { addr, bit } => format_memory_bit(mnemonic, opcode, addr, bit),
        DecodedOperand::DpToDp { dest, src } => {
            let mut text = String::from_str("(");
            push_byte_text(&mut text, dest);
            text.append("),(");
            push_byte_text(&mut text, src);
            text.append(")");
            text
        },
        DecodedOperand::DpImm { addr, imm } => {
            let mut text = String::new();
            push_byte_text(&mut text, addr);
            text.append(",#");
            push_byte_text(&mut text, imm);
            assert(text@ =~= byte_text(addr) + ",#"@ + byte_text(imm));
            text
        },
        DecodedOperand::DirectRelative { addr, offset } => byte_then_branch(
            addr,
            ",",
            pc,
            len,
            offset,
            resolve,
        ),
        DecodedOperand::DirectXRelative { addr, offset } => byte_then_branch(
            addr,
            "+x,",
            pc,
            len,
            offset,
            resolve,
        ),
    }
}

/// Renders the disassembly of an instruction: mnemonic and operand.
pub fn format_disassembly(instr: &DecodedInstruction, config: &Config) -> (text: String)
    ensures
        text@ == disassembly_text(*instr, config.resolve_rel),
{
    let operand = format_operand(instr, config.resolve_rel);
    if operand.as_str().unicode_len() == 0 {
        String::from_str(instr.definition.mnemonic)
    } else {
        let mut text = pad_right_to(String::from_str(instr.definition.mnemonic), MNEMONIC_COLUMN);
        text.append(" ");
        text.append(operand.as_str());
        text
    }
}

/// Renders what stands before the disassembly: address and hex dump, each
/// where the configuration of `spc` asks for it.
pub fn format_prefix(instr: &DecodedInstruction, spc: &Spc) -> (text: String)
    ensures
        text@ == prefix_text(*instr, spc.mem@, spc.config),
{
    let mut text = String::new();
    if spc.config.show_addr {
        push_hex_word(&mut text, instr.address);
        text.append(": ");
    }
    let ghost address_part = text@;
    assert(address_part =~= if spc.config.show_addr {
        hex_word(instr.address) + ": "@
    } else {
        Seq::empty()
    });
    if spc.config.show_hex {
        let mut dump = String::new();
        let len: u8 = instr.definition.len;
        let mut i: u8 = 0;
        while i < len
            invariant
                i <= len,
                dump@ == hex_dump(spc.mem@, instr.address, i as nat),
            decreases len - i,
        {
            let at: u16 = instr.address.wrapping_add(i as u16);
            assert(at as int == wrap_addr(instr.address as int, i as int));
            push_hex_byte(&mut dump, spc.read_byte(at));
            dump.append(" ");
            i = i + 1;
        }
        let column = pad_right_to(dump, HEX_COLUMN);
        text.append(column.as_str());
    }
    assert(text@ =~= prefix_text(*instr, spc.mem@, spc.config));
    text
}

/// Renders the line for an instruction: address, hex dump and disassembly,
/// as the configuration of `spc` asks, without white space at the end. The
/// hex dump shows the bytes that the memory of `spc` holds at the
/// instruction's address.
pub fn format_instruction(instr: &DecodedInstruction, spc: &Spc) -> (line: String)
    ensures
        line@ == instruction_text(*instr, spc.mem@, spc.config),
{
    let mut line = format_prefix(instr, spc);
    let disassembly = format_disassembly(instr, &spc.config);
    line.append(disassembly.as_str());
    trim_text_end(line.as_str())
}

/// The hex dump shows nothing but the bytes it covers: in two memory images
/// that agree on them it is the same.
pub proof fn lemma_hex_dump_reads_own_bytes(
    first: Seq<u8>,
    second: Seq<u8>,
    addr: u16,
    count: nat,
)
    requires
        same_bytes(first, second, addr, count as int),
    ensures
        hex_dump(first, addr, count) == hex_dump(second, addr, count),
    decreases count,
{
    if count > 0 {
        lemma_hex_dump_reads_own_bytes(first, second, addr, (count - 1) as nat);
        assert(first[wrap_addr(addr as int, count - 1)] == second[wrap_addr(
            addr as int,
            count - 1,
        )]);
    }
}

/// Formatting is a function of the instruction, the display options and
/// the instruction's own bytes in memory: whenever these are the same, the
/// line is the same.
pub proof fn lemma_format_deterministic(
    instr: DecodedInstruction,
    first: Spc,
    second: Spc,
)
    requires
        first.config == second.config,
        same_bytes(first.mem@, second.mem@, instr.address, instr.definition.len as int),
    ensures
        instruction_text(instr, first.mem@, first.config) == instruction_text(
            instr,
            second.mem@,
            second.config,
        ),
{
    lemma_hex_dump_reads_own_bytes(
        first.mem@,
        second.mem@,
        instr.address,
        instr.definition.len as nat,
    );
}

/// With address and hex dump switched off, the line is the disassembly
/// itself, whenever the disassembly does not end in white space.
pub proof fn lemma_bare_line_is_disassembly(instr: DecodedInstruction, mem: Seq<u8>, config: Config)
    requires
        !config.show_addr,
        !config.show_hex,
        disassembly_text(instr, config.resolve_rel).len() == 0 || !is_white_space(
            disassembly_text(instr, config.resolve_rel).last(),
        ),
    ensures
        instruction_text(instr, mem, config) == disassembly_text(instr, config.resolve_rel),
{
    let body = disassembly_text(instr, config.resolve_rel);
    assert(prefix_text(instr, mem, config) + body =~= body);
    lemma_trim_end_keeps(body);
}

/// No line ends in white space.
pub proof fn lemma_line_is_trimmed(instr: DecodedInstruction, mem: Seq<u8>, config: Config)
    ensures
        instruction_text(instr, mem, config).len() == 0 || !is_white_space(
            instruction_text(instr, mem, config).last(),
        ),
{
    lemma_trim_end_is_prefix(
        prefix_text(instr, mem, config) + disassembly_text(instr, config.resolve_rel),
    );
}

} // verus!
