use spc700_disasm::decoder::{decode_one, decode_with, DecodeError};
use spc700_disasm::driver::{advance, finished, format_unknown, step};
use spc700_disasm::instruction::{invalid_def, opcode_def, OpcodeDef};
use spc700_disasm::spc::{Config, Spc};

fn machine(bytes: &[u8], load: u16, start: u16, stop: u16) -> Spc {
    let mut spc = Spc::new(Config::default(), start, stop);
    spc.load_rom(bytes, load);
    spc
}

fn run(spc: &mut Spc, limit: usize) -> Vec<String> {
    let mut lines: Vec<String> = Vec::new();
    while lines.len() < limit {
        match step(spc) {
            Some(line) => lines.push(line),
            None => break,
        }
    }
    lines
}

/// A table that defines the even opcodes only.
fn partial_table(opcode: u8) -> OpcodeDef {
    if opcode % 2 == 0 {
        opcode_def(opcode)
    } else {
        invalid_def()
    }
}

#[test]
fn single_nop_image() {
    let mut spc = machine(&[0x00], 0x0000, 0x0000, 0x0001);
    assert_eq!(run(&mut spc, 10), vec!["0000: 00        nop".to_string()]);
    assert_eq!(spc.pc, 0x0001);
}

#[test]
fn mov_immediate_image() {
    let mut spc = machine(&[0xCD, 0x42], 0x0000, 0x0000, 0x0002);
    assert_eq!(run(&mut spc, 10), vec!["0000: cd 42     mov   a,#$42".to_string()]);
    assert_eq!(spc.pc, 0x0002);
}

#[test]
fn unknown_opcode_line_and_resync() {
    let mut spc = machine(&[0xAB, 0x00], 0x0010, 0x0010, 0x0012);
    let decoded = decode_with(&spc, 0x0010, partial_table(0xAB));
    assert_eq!(decoded, Err(DecodeError { pc: 0x0010, opcode: 0xAB }));
    let line = advance(&mut spc, &decoded);
    assert_eq!(line, "0010: db ab    ; unknown opcode");
    assert_eq!(spc.pc, 0x0011);
    let decoded = decode_with(&spc, 0x0011, partial_table(0x00));
    assert_eq!(advance(&mut spc, &decoded), "0011: 00        nop");
    assert_eq!(spc.pc, 0x0012);
    assert!(finished(&spc));
}

#[test]
fn scan_with_a_partial_table() {
    let mut spc = machine(&[0x04, 0x10, 0x05, 0x07, 0x00], 0x0100, 0x0100, 0x0105);
    let mut lines: Vec<String> = Vec::new();
    while !finished(&spc) {
        let opcode = spc.read_byte(spc.pc);
        let decoded = decode_with(&spc, spc.pc, partial_table(opcode));
        lines.push(advance(&mut spc, &decoded));
    }
    assert_eq!(
        lines,
        vec![
            "0100: 04 10     or    a,$10",
            "0102: db 05    ; unknown opcode",
            "0103: db 07    ; unknown opcode",
            "0104: 00        nop",
        ]
    );
}

#[test]
fn unknown_line_format() {
    assert_eq!(
        format_unknown(&DecodeError { pc: 0x0010, opcode: 0x3F }),
        "0010: db 3f    ; unknown opcode"
    );
    assert_eq!(
        format_unknown(&DecodeError { pc: 0xFFFF, opcode: 0x00 }),
        "ffff: db 00    ; unknown opcode"
    );
    assert_eq!(
        format_unknown(&DecodeError { pc: 0x0A0B, opcode: 0xFF }),
        "0a0b: db ff    ; unknown opcode"
    );
}

#[test]
fn unknown_line_ignores_display_options() {
    let config = Config { show_addr: false, show_hex: false, resolve_rel: false };
    let mut spc = Spc::new(config, 0x0020, 0x0030);
    let decoded = decode_with(&spc, 0x0020, invalid_def());
    assert_eq!(advance(&mut spc, &decoded), "0020: db ff    ; unknown opcode");
    assert_eq!(spc.pc, 0x0021);
}

#[test]
fn unknown_opcode_at_the_last_address_wraps_to_zero() {
    let mut spc = Spc::new(Config::default(), 0xFFFF, 0x0000);
    let decoded = decode_with(&spc, 0xFFFF, invalid_def());
    assert_eq!(advance(&mut spc, &decoded), "ffff: db ff    ; unknown opcode");
    assert_eq!(spc.pc, 0x0000);
    assert!(finished(&spc));
}

#[test]
fn finished_compares_for_equality() {
    assert!(finished(&Spc::new(Config::default(), 0x1000, 0x1000)));
    assert!(finished(&Spc::new(Config::default(), 0, 0)));
    assert!(!finished(&Spc::new(Config::default(), 0x1001, 0x1000)));
    assert!(!finished(&Spc::new(Config::default(), 0x0FFF, 0x1000)));
    assert!(!finished(&Spc::new(Config::default(), 0xFFFF, 0x0000)));
}

#[test]
fn step_at_the_stop_address_does_nothing() {
    let mut spc = machine(&[0x00, 0x00], 0x0000, 0x0001, 0x0001);
    assert_eq!(step(&mut spc), None);
    assert_eq!(spc.pc, 0x0001);
    assert_eq!(spc.stop, 0x0001);
    assert_eq!(spc.read_byte(0), 0x00);
    assert_eq!(step(&mut spc), None);
}

#[test]
fn step_advances_by_the_instruction_length() {
    for opcode in 0..=255u8 {
        let mut spc = machine(&[opcode, 0x01, 0x02], 0x0300, 0x0300, 0x0400);
        let line = step(&mut spc);
        assert!(line.is_some());
        assert_eq!(spc.pc, 0x0300 + opcode_def(opcode).len as u16);
        assert_eq!(spc.stop, 0x0400);
        assert_eq!(spc.read_byte(0x0300), opcode);
    }
}

#[test]
fn step_equals_decode_then_advance() {
    for opcode in 0..=255u8 {
        let mut stepped = machine(&[opcode, 0xF1, 0x0E], 0xFFFE, 0xFFFE, 0x8000);
        let mut advanced = machine(&[opcode, 0xF1, 0x0E], 0xFFFE, 0xFFFE, 0x8000);
        let decoded = decode_one(&advanced, 0xFFFE);
        let line = advance(&mut advanced, &decoded);
        assert_eq!(step(&mut stepped), Some(line));
        assert_eq!(stepped.pc, advanced.pc);
        assert_eq!(stepped.pc, 0xFFFEu16.wrapping_add(opcode_def(opcode).len as u16));
    }
}

#[test]
fn scan_of_a_short_program() {
    let program = [
        0xCD, 0xEF, // mov with an immediate
        0xBD, // mov sp,x
        0xE8, 0x00, // mov a,#$00
        0xC6, // mov (x),a
        0x1D, // dec x
        0xD0, 0xFC, // bne back to mov (x),a
        0x8F, 0xAA, 0xF4, // mov $f4,#$aa
        0x5F, 0xC0, 0xFF, // jmp $ffc0
    ];
    let mut spc = machine(&program, 0xFFC0, 0xFFC0, 0xFFCF);
    assert_eq!(
        run(&mut spc, 100),
        vec![
            "ffc0: cd ef     mov   a,#$ef",
            "ffc2: bd        mov   sp,x",
            "ffc3: e8 00     mov   a,#$00",
            "ffc5: c6        mov   (x),a",
            "ffc6: 1d        dec   x",
            "ffc7: d0 fc     bne   $ffc5",
            "ffc9: 8f aa f4  mov   $f4,#$aa",
            "ffcc: 5f c0 ff  jmp   $ffc0",
        ]
    );
    assert!(finished(&spc));
}

#[test]
fn scan_runs_past_the_last_address() {
    let mut spc = Spc::new(Config::default(), 0xFFFE, 0x0003);
    spc.load_rom(&[0x00, 0x3F], 0xFFFE);
    spc.load_rom(&[0x34, 0x12, 0x6F], 0x0000);
    assert_eq!(
        run(&mut spc, 100),
        vec!["fffe: 00        nop", "ffff: 3f 34 12  call  $1234", "0002: 6f        ret"]
    );
    assert_eq!(spc.pc, 0x0003);
}

#[test]
fn scan_of_fresh_memory_shows_stop_instructions() {
    let mut spc = Spc::new(Config::default(), 0x0000, 0x0003);
    assert_eq!(
        run(&mut spc, 100),
        vec!["0000: ff        stop", "0001: ff        stop", "0002: ff        stop"]
    );
}

#[test]
fn scan_can_step_over_its_stop_address() {
    let mut spc = machine(&[0x3F, 0x34, 0x12, 0x00], 0x0000, 0x0000, 0x0001);
    assert_eq!(step(&mut spc), Some("0000: 3f 34 12  call  $1234".to_string()));
    assert_eq!(spc.pc, 0x0003);
    assert!(!finished(&spc));
    assert_eq!(step(&mut spc), Some("0003: 00        nop".to_string()));
    assert_eq!(spc.pc, 0x0004);
}

#[test]
fn scan_honours_the_display_options() {
    let config = Config { show_addr: false, show_hex: false, resolve_rel: false };
    let mut spc = Spc::new(config, 0x0100, 0x0104);
    spc.load_rom(&[0x10, 0x05, 0x2F, 0xFE], 0x0100);
    assert_eq!(run(&mut spc, 100), vec!["bpl   $05", "bra   $fe"]);
}
