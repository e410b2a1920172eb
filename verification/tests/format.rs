use spc700_disasm::decoder::decode_one;
use spc700_disasm::formatter::{
    format_disassembly, format_instruction, format_operand, format_prefix, resolve_branch,
    unsigned_byte, HEX_COLUMN, MNEMONIC_COLUMN,
};
use spc700_disasm::instruction::{
    opcode_def, AddressingModeKind, DecodedInstruction, DecodedOperand, OpcodeDef,
};
use spc700_disasm::spc::{Config, Spc};

const ALL_ON: Config = Config { show_addr: true, show_hex: true, resolve_rel: true };
const RAW_BRANCHES: Config = Config { show_addr: true, show_hex: true, resolve_rel: false };

fn machine(config: Config, bytes: &[u8], at: u16) -> Spc {
    let mut spc = Spc::new(config, at, at.wrapping_add(bytes.len() as u16));
    spc.load_rom(bytes, at);
    spc
}

fn line(config: Config, bytes: &[u8], at: u16) -> String {
    let spc = machine(config, bytes, at);
    let instr = decode_one(&spc, at).unwrap();
    format_instruction(&instr, &spc)
}

fn body(bytes: &[u8]) -> String {
    let spc = machine(ALL_ON, bytes, 0x0200);
    let instr = decode_one(&spc, 0x0200).unwrap();
    format_disassembly(&instr, &spc.config)
}

fn custom(mnemonic: &'static str, opcode: u8, len: u8, operand: DecodedOperand) -> DecodedInstruction {
    DecodedInstruction {
        address: 0x0200,
        definition: OpcodeDef { opcode, mnemonic, mode: AddressingModeKind::Implied, len, cycles: 0 },
        operand,
    }
}

#[test]
fn column_widths() {
    assert_eq!(HEX_COLUMN, 10);
    assert_eq!(MNEMONIC_COLUMN, 5);
}

#[test]
fn unsigned_byte_is_the_encoding() {
    assert_eq!(unsigned_byte(0), 0x00);
    assert_eq!(unsigned_byte(5), 0x05);
    assert_eq!(unsigned_byte(127), 0x7F);
    assert_eq!(unsigned_byte(-1), 0xFF);
    assert_eq!(unsigned_byte(-128), 0x80);
    for offset in i8::MIN..=i8::MAX {
        assert_eq!(unsigned_byte(offset), offset as u8);
    }
}

#[test]
fn branch_target_is_after_the_instruction_plus_offset() {
    assert_eq!(resolve_branch(0x0100, 2, 5), 0x0107);
    assert_eq!(resolve_branch(0x0100, 2, -2), 0x0100);
    assert_eq!(resolve_branch(0x0100, 3, -128), 0x0083);
    assert_eq!(resolve_branch(0x0100, 3, 127), 0x0182);
}

#[test]
fn branch_target_wraps_both_ways() {
    assert_eq!(resolve_branch(0xFFFE, 2, 0), 0x0000);
    assert_eq!(resolve_branch(0xFFFF, 2, 5), 0x0006);
    assert_eq!(resolve_branch(0x0000, 2, -3), 0xFFFF);
    assert_eq!(resolve_branch(0x0000, 2, -128), 0xFF82);
    assert_eq!(resolve_branch(0xFFFF, 255, 127), 0x017D);
}

#[test]
fn bpl_resolves_to_its_target() {
    assert_eq!(line(ALL_ON, &[0x10, 0x05], 0x0100), "0100: 10 05     bpl   $0107");
    let spc = machine(ALL_ON, &[0x10, 0x05], 0x0100);
    let instr = decode_one(&spc, 0x0100).unwrap();
    assert_eq!(format_operand(&instr, true), "$0107");
}

#[test]
fn bpl_unresolved_shows_the_offset_byte() {
    assert_eq!(line(RAW_BRANCHES, &[0x10, 0x05], 0x0100), "0100: 10 05     bpl   $05");
    let spc = machine(RAW_BRANCHES, &[0x10, 0x05], 0x0100);
    let instr = decode_one(&spc, 0x0100).unwrap();
    assert_eq!(format_operand(&instr, false), "$05");
}

#[test]
fn backward_branch() {
    assert_eq!(line(ALL_ON, &[0x2F, 0xFE], 0x0100), "0100: 2f fe     bra   $0100");
    assert_eq!(line(RAW_BRANCHES, &[0x2F, 0xFE], 0x0100), "0100: 2f fe     bra   $fe");
    assert_eq!(line(ALL_ON, &[0xD0, 0x80], 0x0010), "0010: d0 80     bne   $ff92");
}

#[test]
fn nop_line() {
    assert_eq!(line(ALL_ON, &[0x00], 0x0000), "0000: 00        nop");
}

#[test]
fn mov_immediate_line() {
    assert_eq!(line(ALL_ON, &[0xCD, 0x42], 0x0000), "0000: cd 42     mov   a,#$42");
}

#[test]
fn three_byte_line_fills_the_hex_column() {
    assert_eq!(line(ALL_ON, &[0x3F, 0x34, 0x12], 0xABCD), "abcd: 3f 34 12  call  $1234");
}

#[test]
fn display_options() {
    let bytes = [0x8F, 0x11, 0x22];
    let none = Config { show_addr: false, show_hex: false, resolve_rel: true };
    let addr = Config { show_addr: true, show_hex: false, resolve_rel: true };
    let hex = Config { show_addr: false, show_hex: true, resolve_rel: true };
    assert_eq!(line(none, &bytes, 0x0200), "mov   $22,#$11");
    assert_eq!(line(addr, &bytes, 0x0200), "0200: mov   $22,#$11");
    assert_eq!(line(hex, &bytes, 0x0200), "8f 11 22  mov   $22,#$11");
    assert_eq!(line(ALL_ON, &bytes, 0x0200), "0200: 8f 11 22  mov   $22,#$11");
}

#[test]
fn prefix_alone() {
    let spc = machine(ALL_ON, &[0xE8, 0x01], 0x00FE);
    let instr = decode_one(&spc, 0x00FE).unwrap();
    assert_eq!(format_prefix(&instr, &spc), "00fe: e8 01     ");
    let spc = machine(Config { show_addr: false, show_hex: false, resolve_rel: true }, &[0xE8, 0x01], 0);
    let instr = decode_one(&spc, 0).unwrap();
    assert_eq!(format_prefix(&instr, &spc), "");
    let spc = machine(Config { show_addr: true, show_hex: false, resolve_rel: true }, &[0xE8, 0x01], 0);
    let instr = decode_one(&spc, 0).unwrap();
    assert_eq!(format_prefix(&instr, &spc), "0000: ");
    let spc = machine(Config { show_addr: false, show_hex: true, resolve_rel: true }, &[0x00], 0);
    let instr = decode_one(&spc, 0).unwrap();
    assert_eq!(format_prefix(&instr, &spc), "00        ");
}

#[test]
fn hex_dump_shows_memory_across_the_wrap() {
    let mut spc = Spc::new(ALL_ON, 0xFFFF, 0x0002);
    spc.load_rom(&[0x5F], 0xFFFF);
    spc.load_rom(&[0x34, 0x12], 0x0000);
    let instr = decode_one(&spc, 0xFFFF).unwrap();
    assert_eq!(format_instruction(&instr, &spc), "ffff: 5f 34 12  jmp   $1234");
}

#[test]
fn hex_dump_longer_than_its_column_is_kept_whole() {
    let spc = machine(ALL_ON, &[0x00, 0x01, 0x02, 0x03, 0x04], 0x0200);
    let instr = custom("blob", 0x00, 5, DecodedOperand::Empty);
    assert_eq!(format_prefix(&instr, &spc), "0200: 00 01 02 03 04 ");
    assert_eq!(format_instruction(&instr, &spc), "0200: 00 01 02 03 04 blob");
    let instr = custom("blob", 0x00, 0, DecodedOperand::Empty);
    assert_eq!(format_instruction(&instr, &spc), "0200:           blob");
}

#[test]
fn mnemonic_alone_when_there_is_no_operand() {
    assert_eq!(body(&[0x00]), "nop");
    assert_eq!(body(&[0x0F]), "brk");
    assert_eq!(body(&[0x6F]), "ret");
    assert_eq!(body(&[0xEF]), "sleep");
    assert_eq!(body(&[0xFF]), "stop");
}

#[test]
fn mnemonic_column_is_five_wide() {
    assert_eq!(body(&[0xA0]), "ei");
    assert_eq!(body(&[0x04, 0x10]), "or    a,$10");
    assert_eq!(body(&[0x24, 0x10]), "and   a,$10");
    assert_eq!(body(&[0x3F, 0x00, 0x10]), "call  $1000");
    assert_eq!(body(&[0x0E, 0x00, 0x10]), "tset1 $1000");
    let instr = custom("longname", 0x04, 2, DecodedOperand::Direct(0x10));
    assert_eq!(format_disassembly(&instr, &ALL_ON), "longname a,$10");
    let instr = custom("", 0x04, 2, DecodedOperand::Direct(0x10));
    assert_eq!(format_disassembly(&instr, &ALL_ON), "      a,$10");
}

#[test]
fn trailing_white_space_is_stripped() {
    let spc = machine(ALL_ON, &[0x00], 0x0200);
    let instr = custom("", 0x00, 1, DecodedOperand::Empty);
    assert_eq!(format_instruction(&instr, &spc), "0200: 00");
    let instr = custom("nop \t", 0x00, 1, DecodedOperand::Empty);
    assert_eq!(format_disassembly(&instr, &ALL_ON), "nop \t");
    assert_eq!(format_instruction(&instr, &spc), "0200: 00        nop");
    let instr = custom("\u{3000}", 0x00, 1, DecodedOperand::Empty);
    assert_eq!(format_instruction(&instr, &spc), "0200: 00");
    let spc = machine(Config { show_addr: false, show_hex: false, resolve_rel: true }, &[0x00], 0);
    let instr = custom("  ", 0x00, 1, DecodedOperand::Empty);
    assert_eq!(format_instruction(&instr, &spc), "");
}

#[test]
fn implied_operands() {
    assert_eq!(body(&[0x0D]), "push  psw");
    assert_eq!(body(&[0x2D]), "push  a");
    assert_eq!(body(&[0x4D]), "push  x");
    assert_eq!(body(&[0x6D]), "push  y");
    assert_eq!(body(&[0x8E]), "pop   psw");
    assert_eq!(body(&[0xAE]), "pop   a");
    assert_eq!(body(&[0xCE]), "pop   x");
    assert_eq!(body(&[0xEE]), "pop   y");
    assert_eq!(body(&[0x1C]), "asl   a");
    assert_eq!(body(&[0x3C]), "rol   a");
    assert_eq!(body(&[0x5C]), "lsr   a");
    assert_eq!(body(&[0x7C]), "ror   a");
    assert_eq!(body(&[0x9C]), "dec   a");
    assert_eq!(body(&[0xBC]), "inc   a");
    assert_eq!(body(&[0x1D]), "dec   x");
    assert_eq!(body(&[0x3D]), "inc   x");
    assert_eq!(body(&[0xDC]), "dec   y");
    assert_eq!(body(&[0xFC]), "inc   y");
    assert_eq!(body(&[0x5D]), "mov   x,a");
    assert_eq!(body(&[0x7D]), "mov   a,x");
    assert_eq!(body(&[0x9D]), "mov   x,sp");
    assert_eq!(body(&[0xBD]), "mov   sp,x");
    assert_eq!(body(&[0xDD]), "mov   a,y");
    assert_eq!(body(&[0xFD]), "mov   y,a");
    assert_eq!(body(&[0xBE]), "das   a");
    assert_eq!(body(&[0xDF]), "daa   a");
    assert_eq!(body(&[0x9F]), "xcn   a");
    assert_eq!(body(&[0xCF]), "mul   ya");
    assert_eq!(body(&[0x9E]), "div   ya,x");
    for opcode in [0x19u8, 0x39, 0x59, 0x79, 0x99, 0xB9] {
        let text = body(&[opcode]);
        assert_eq!(&text[6..], "(x),(y)");
    }
}

#[test]
fn immediate_operands() {
    assert_eq!(body(&[0xC8, 0x42]), "cmp   x,#$42");
    assert_eq!(body(&[0xAD, 0x42]), "cmp   y,#$42");
    assert_eq!(body(&[0x68, 0x42]), "cmp   a,#$42");
    assert_eq!(body(&[0xCD, 0x42]), "mov   a,#$42");
    assert_eq!(body(&[0x8D, 0x42]), "mov   a,#$42");
    assert_eq!(body(&[0xE8, 0x0A]), "mov   a,#$0a");
    assert_eq!(body(&[0x08, 0xFF]), "or    a,#$ff");
}

#[test]
fn two_register_branch() {
    assert_eq!(line(ALL_ON, &[0xFE, 0x05], 0x0100), "0100: fe 05     dbnz  y,$0107");
    assert_eq!(line(RAW_BRANCHES, &[0xFE, 0xFB], 0x0100), "0100: fe fb     dbnz  y,$fb");
}

#[test]
fn direct_page_operands() {
    assert_eq!(body(&[0x1A, 0x10]), "decw  $10");
    assert_eq!(body(&[0x3A, 0x10]), "incw  $10");
    assert_eq!(body(&[0x5A, 0x10]), "cmpw  ya,$10");
    assert_eq!(body(&[0x7A, 0x10]), "addw  ya,$10");
    assert_eq!(body(&[0x9A, 0x10]), "subw  ya,$10");
    assert_eq!(body(&[0xBA, 0x10]), "movw  ya,$10");
    assert_eq!(body(&[0xDA, 0x10]), "movw  $10,ya");
    assert_eq!(body(&[0x3E, 0x10]), "cmp   x,$10");
    assert_eq!(body(&[0xF8, 0x10]), "mov   x,$10");
    assert_eq!(body(&[0x7E, 0x10]), "cmp   y,$10");
    assert_eq!(body(&[0xEB, 0x10]), "mov   y,$10");
    assert_eq!(body(&[0xC4, 0x10]), "mov   $10,a");
    assert_eq!(body(&[0xCB, 0x10]), "mov   $10,y");
    assert_eq!(body(&[0xD8, 0x10]), "mov   $10,x");
    assert_eq!(body(&[0x04, 0x10]), "or    a,$10");
    assert_eq!(body(&[0x64, 0x10]), "cmp   a,$10");
    assert_eq!(body(&[0xE4, 0x10]), "mov   a,$10");
    assert_eq!(body(&[0x0B, 0x10]), "asl   $10");
    assert_eq!(body(&[0x8B, 0x10]), "dec   $10");
    assert_eq!(body(&[0xAB, 0xFE]), "inc   $fe");
}

#[test]
fn absolute_operands() {
    assert_eq!(body(&[0x5F, 0x34, 0x12]), "jmp   $1234");
    assert_eq!(body(&[0x3F, 0x34, 0x12]), "call  $1234");
    assert_eq!(body(&[0xC5, 0x34, 0x12]), "mov   $1234,a");
    assert_eq!(body(&[0xC9, 0x34, 0x12]), "mov   $1234,x");
    assert_eq!(body(&[0xCC, 0x34, 0x12]), "mov   $1234,y");
    assert_eq!(body(&[0xE5, 0x34, 0x12]), "mov   a,$1234");
    assert_eq!(body(&[0xE9, 0x34, 0x12]), "mov   x,$1234");
    assert_eq!(body(&[0xEC, 0x34, 0x12]), "mov   y,$1234");
    assert_eq!(body(&[0x1E, 0x34, 0x12]), "cmp   x,$1234");
    assert_eq!(body(&[0x5E, 0x34, 0x12]), "cmp   y,$1234");
    assert_eq!(body(&[0x65, 0x34, 0x12]), "cmp   a,$1234");
    assert_eq!(body(&[0x0C, 0x34, 0x12]), "asl   $1234");
    assert_eq!(body(&[0x8C, 0x34, 0x12]), "dec   $1234");
    assert_eq!(body(&[0xAC, 0x34, 0x12]), "inc   $1234");
    assert_eq!(body(&[0x4C, 0x34, 0x12]), "lsr   $1234");
    assert_eq!(body(&[0x2C, 0x34, 0x12]), "rol   $1234");
    assert_eq!(body(&[0x6C, 0x34, 0x12]), "ror   $1234");
    assert_eq!(body(&[0x0E, 0x34, 0x12]), "tset1 $1234");
    assert_eq!(body(&[0x4E, 0x34, 0x12]), "tclr1 $1234");
    assert_eq!(body(&[0x05, 0x34, 0x12]), "or    a,$1234");
    assert_eq!(body(&[0xA5, 0x0F, 0x00]), "sbc   a,$000f");
}

#[test]
fn absolute_operand_goes_by_mnemonic_then_opcode() {
    let text = |mnemonic: &'static str, opcode: u8| {
        format_operand(&custom(mnemonic, opcode, 3, DecodedOperand::Absolute(0xBEEF)), true)
    };
    assert_eq!(text("mov", 0x00), "$beef");
    assert_eq!(text("mov", 0xC5), "$beef,a");
    assert_eq!(text("jmp", 0xC5), "$beef");
    assert_eq!(text("cmp", 0xC5), "a,$beef");
    assert_eq!(text("cmp", 0x1E), "x,$beef");
    assert_eq!(text("or", 0x1E), "a,$beef");
    assert_eq!(text("MOV", 0xC5), "a,$beef");
    assert_eq!(text("", 0xC5), "a,$beef");
    assert_eq!(text("tset", 0x0E), "a,$beef");
}

#[test]
fn indexed_direct_page_operands() {
    assert_eq!(body(&[0xFB, 0x10]), "mov   y,$10+x");
    assert_eq!(body(&[0xDB, 0x10]), "mov   $10+x,y");
    assert_eq!(body(&[0xD4, 0x10]), "mov   $10+x,a");
    assert_eq!(body(&[0xF4, 0x10]), "mov   a,$10+x");
    assert_eq!(body(&[0x94, 0x10]), "adc   a,$10+x");
    assert_eq!(body(&[0x34, 0x10]), "and   a,$10+x");
    assert_eq!(body(&[0x74, 0x10]), "cmp   a,$10+x");
    assert_eq!(body(&[0x54, 0x10]), "eor   a,$10+x");
    assert_eq!(body(&[0x14, 0x10]), "or    a,$10+x");
    assert_eq!(body(&[0xB4, 0x10]), "sbc   a,$10+x");
    assert_eq!(body(&[0x1B, 0x10]), "asl   $10+x");
    assert_eq!(body(&[0x9B, 0x10]), "dec   $10+x");
    assert_eq!(body(&[0xBB, 0x10]), "inc   $10+x");
    assert_eq!(body(&[0xD9, 0x10]), "mov   $10+y,x");
    assert_eq!(body(&[0xF9, 0x10]), "mov   x,$10+y");
    let instr = custom("or", 0x00, 2, DecodedOperand::DirectY(0x10));
    assert_eq!(format_operand(&instr, true), "a,$10+y");
}

#[test]
fn indexed_absolute_operands() {
    assert_eq!(body(&[0x1F, 0x34, 0x12]), "jmp   ($1234+x)");
    assert_eq!(body(&[0xD5, 0x34, 0x12]), "mov   $1234+x,a");
    assert_eq!(body(&[0xF5, 0x34, 0x12]), "mov   a,$1234+x");
    assert_eq!(body(&[0x15, 0x34, 0x12]), "or    a,$1234+x");
    assert_eq!(body(&[0xD6, 0x34, 0x12]), "mov   $1234+y,a");
    assert_eq!(body(&[0xF6, 0x34, 0x12]), "mov   a,$1234+y");
    assert_eq!(body(&[0x76, 0x34, 0x12]), "cmp   a,$1234+y");
}

#[test]
fn indirect_operands() {
    assert_eq!(body(&[0xC7, 0x10]), "mov   ($10+x),a");
    assert_eq!(body(&[0xE7, 0x10]), "mov   a,($10+x)");
    assert_eq!(body(&[0x07, 0x10]), "or    a,($10+x)");
    assert_eq!(body(&[0xD7, 0x10]), "mov   ($10)+y,a");
    assert_eq!(body(&[0xF7, 0x10]), "mov   a,($10)+y");
    assert_eq!(body(&[0x97, 0x10]), "adc   a,($10)+y");
    assert_eq!(body(&[0xC6]), "mov   (x),a");
    assert_eq!(body(&[0xE6]), "mov   a,(x)");
    assert_eq!(body(&[0x66]), "cmp   a,(x)");
    assert_eq!(body(&[0xAF]), "mov   (x)+,a");
    assert_eq!(body(&[0xBF]), "mov   a,(x)+");
    let instr = custom("mov", 0x00, 1, DecodedOperand::IndirectAutoInc);
    assert_eq!(format_operand(&instr, true), "???");
}

#[test]
fn bit_operands() {
    assert_eq!(body(&[0x02, 0x10]), "set0  $10");
    assert_eq!(body(&[0xF2, 0x10]), "clr7  $10");
    assert_eq!(line(ALL_ON, &[0x03, 0x10, 0x05], 0x0100), "0100: 03 10 05  bbs0  $10,$0108");
    assert_eq!(line(RAW_BRANCHES, &[0xF3, 0x10, 0xFB], 0x0100), "0100: f3 10 fb  bbc7  $10,$fb");
    assert_eq!(line(ALL_ON, &[0xF3, 0x10, 0xFB], 0x0100), "0100: f3 10 fb  bbc7  $10,$00fe");
}

#[test]
fn memory_bit_operands() {
    assert_eq!(body(&[0x0A, 0x34, 0x12]), "or1   c,$0246,4");
    assert_eq!(body(&[0x2A, 0x34, 0x12]), "or1   c,!($0246,4)");
    assert_eq!(body(&[0x4A, 0x34, 0x12]), "and1  c,$0246,4");
    assert_eq!(body(&[0x6A, 0x34, 0x12]), "and1  c,!($0246,4)");
    assert_eq!(body(&[0x8A, 0x34, 0x12]), "eor1  c,$0246,4");
    assert_eq!(body(&[0xAA, 0x34, 0x12]), "mov1  c,$0246,4");
    assert_eq!(body(&[0xCA, 0x34, 0x12]), "mov1  $0246,4,c");
    assert_eq!(body(&[0xEA, 0xFF, 0xFF]), "not1  $1fff,7");
    let instr = custom("xor1", 0x0A, 3, DecodedOperand::MemoryBit { addr: 1, bit: 2 });
    assert_eq!(format_operand(&instr, true), "???");
    let instr = custom("eor1", 0xAA, 3, DecodedOperand::MemoryBit { addr: 0xFFFF, bit: 255 });
    assert_eq!(format_operand(&instr, true), "c,!($ffff,255)");
    let instr = custom("not1", 0x00, 3, DecodedOperand::MemoryBit { addr: 0, bit: 10 });
    assert_eq!(format_operand(&instr, true), "$0000,10");
}

#[test]
fn two_byte_operands() {
    assert_eq!(body(&[0x09, 0x11, 0x22]), "or    ($22),($11)");
    assert_eq!(body(&[0xFA, 0x11, 0x22]), "mov   ($22),($11)");
    assert_eq!(body(&[0x18, 0x11, 0x22]), "or    $22,#$11");
    assert_eq!(body(&[0x8F, 0x11, 0x22]), "mov   $22,#$11");
    assert_eq!(line(ALL_ON, &[0x2E, 0x10, 0x05], 0x0100), "0100: 2e 10 05  cbne  $10,$0108");
    assert_eq!(line(ALL_ON, &[0x6E, 0x10, 0xFD], 0x0100), "0100: 6e 10 fd  dbnz  $10,$0100");
    assert_eq!(line(ALL_ON, &[0xDE, 0x10, 0x05], 0x0100), "0100: de 10 05  cbne  $10+x,$0108");
    assert_eq!(line(RAW_BRANCHES, &[0xDE, 0x10, 0x85], 0x0100), "0100: de 10 85  cbne  $10+x,$85");
}

#[test]
fn calls() {
    for n in 0..16u8 {
        assert_eq!(body(&[(n << 4) | 1]), format!("tcall {}", n));
    }
    assert_eq!(body(&[0x4F, 0x0A]), "pcall $0a");
    assert_eq!(format_operand(&custom("tcall", 0x01, 1, DecodedOperand::TCall(0)), true), "0");
    assert_eq!(format_operand(&custom("tcall", 0x01, 1, DecodedOperand::TCall(9)), true), "9");
    assert_eq!(format_operand(&custom("tcall", 0x01, 1, DecodedOperand::TCall(10)), true), "10");
    assert_eq!(format_operand(&custom("tcall", 0x01, 1, DecodedOperand::TCall(99)), true), "99");
    assert_eq!(format_operand(&custom("tcall", 0x01, 1, DecodedOperand::TCall(100)), true), "100");
    assert_eq!(format_operand(&custom("tcall", 0x01, 1, DecodedOperand::TCall(255)), true), "255");
}

#[test]
fn branch_uses_the_definition_length() {
    let instr = DecodedInstruction {
        address: 0xFFF0,
        definition: opcode_def(0x10),
        operand: DecodedOperand::Relative(0x20),
    };
    assert_eq!(format_operand(&instr, true), "$0012");
    let instr = custom("bra", 0x2F, 0, DecodedOperand::Relative(-1));
    assert_eq!(format_operand(&instr, true), "$01ff");
}

#[test]
fn formatting_is_repeatable() {
    for opcode in 0..=255u8 {
        let spc = machine(ALL_ON, &[opcode, 0x81, 0x7E], 0x0800);
        let instr = decode_one(&spc, 0x0800).unwrap();
        let first = format_instruction(&instr, &spc);
        let second = format_instruction(&instr, &spc);
        assert_eq!(first, second);
        let other = machine(ALL_ON, &[opcode, 0x81, 0x7E], 0x0800);
        assert_eq!(format_instruction(&instr, &other), first);
    }
}

#[test]
fn line_depends_only_on_the_instruction_bytes() {
    let first = machine(ALL_ON, &[0x3F, 0x34, 0x12], 0x0800);
    let mut second = Spc::new(ALL_ON, 0, 0);
    second.load_rom(&vec![0u8; 65536], 0);
    second.load_rom(&[0x3F, 0x34, 0x12], 0x0800);
    let instr = decode_one(&first, 0x0800).unwrap();
    assert_eq!(format_instruction(&instr, &first), format_instruction(&instr, &second));
}

#[test]
fn bare_line_is_the_disassembly() {
    let bare = Config { show_addr: false, show_hex: false, resolve_rel: true };
    for opcode in 0..=255u8 {
        let spc = machine(bare, &[opcode, 0x81, 0x7E], 0x0800);
        let instr = decode_one(&spc, 0x0800).unwrap();
        let line = format_instruction(&instr, &spc);
        assert_eq!(line, format_disassembly(&instr, &bare));
        assert!(!line.is_empty());
        assert_eq!(line.trim_end(), line);
        assert!(!line.contains('\n'));
    }
}
