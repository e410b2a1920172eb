use crate::decoder::{decode_one, decode_spec, DecodeError};
use crate::formatter::{format_instruction, instruction_text};
use crate::instruction::{lemma_table_complete, opcode_table, DecodedInstruction};
use crate::spc::{wrap_addr, Config, Spc, MEMORY_SIZE};
use crate::text::{hex_byte, hex_word, push_hex_byte, push_hex_word};
use vstd::prelude::*;
use vstd::string::*;

verus! {

/// The line that stands for a byte without a definition: its address, the
/// byte as data, and a remark.
pub open spec fn unknown_text(error: DecodeError) -> Seq<char> {
    hex_word(error.pc) + ": db "@ + hex_byte(error.opcode) + "    ; unknown opcode"@
}

/// The line that one scanning step emits for what the decoder found.
pub open spec fn step_text(
    mem: Seq<u8>,
    config: Config,
    decoded: Result<DecodedInstruction, DecodeError>,
) -> Seq<char> {
    match decoded {
        Ok(instr) => instruction_text(instr, mem, config),
        Err(error) => unknown_text(error),
    }
}

/// How many bytes one scanning step moves on: the instruction's length, or
/// one byte past a byte without a definition.
pub open spec fn step_advance(decoded: Result<DecodedInstruction, DecodeError>) -> int {
    match decoded {
        Ok(instr) => instr.definition.len as int,
        Err(_) => 1,
    }
}

/// Where the scan stands after one step from `pc`, wrapping at the end of
/// the address space.
pub open spec fn next_pc(pc: u16, decoded: Result<DecodedInstruction, DecodeError>) -> u16 {
    wrap_addr(pc as int, step_advance(decoded)) as u16
}

/// Renders the line for a byte without a definition.
pub fn format_unknown(error: &DecodeError) -> (line: String)
    ensures
        line@ == unknown_text(*error),
{
    let mut line = String::new();
    push_hex_word(&mut line, error.pc);
    line.append(": db ");
    push_hex_byte(&mut line, error.opcode);
    line.append("    ; unknown opcode");
    assert(line@ =~= unknown_text(*error));
    line
}

/// Whether the scan has reached its stop address. The two addresses are
/// compared for equality, not for order, so a scan may run past `0xFFFF`
/// and go on from address 0.
pub fn finished(spc: &Spc) -> (done: bool)
    ensures
        done == (spc.pc == spc.stop),
{
    spc.pc.wrapping_sub(spc.stop) == 0
}

/// Takes one scanning step with what the decoder found at the program
/// counter: returns the line to emit and moves the program counter on, by
/// the instruction's length after an instruction, by one byte after a byte
/// without a definition. Memory, stop address and options stay as they are.
pub fn advance(spc: &mut Spc, decoded: &Result<DecodedInstruction, DecodeError>) -> (line: String)
    ensures
        line@ == step_text(old(spc).mem@, old(spc).config, *decoded),
        final(spc).pc == next_pc(old(spc).pc, *decoded),
        final(spc).mem == old(spc).mem,
        final(spc).stop == old(spc).stop,
        final(spc).config == old(spc).config,
{
    match decoded {
        Ok(instr) => {
            let line = format_instruction(instr, spc);
            spc.pc = spc.pc.wrapping_add(instr.definition.len as u16);
            line
        },
        Err(error) => {
            let line = format_unknown(error);
            spc.pc = spc.pc.wrapping_add(1);
            line
        },
    }
}

/// One step of the scan. At the stop address nothing happens and there is
/// no line. Anywhere else the instruction at the program counter is decoded
/// with the SPC700 table, its line is returned, and the program counter
/// moves on to the address after it.
pub fn step(spc: &mut Spc) -> (line: Option<String>)
    ensures
        line is Some <==> old(spc).pc != old(spc).stop,
        line matches Some(text) ==> text@ == step_text(
            old(spc).mem@,
            old(spc).config,
            decode_spec(old(spc).mem@, old(spc).pc),
        ),
        final(spc).pc == if old(spc).pc == old(spc).stop {
            old(spc).pc
        } else {
            next_pc(old(spc).pc, decode_spec(old(spc).mem@, old(spc).pc))
        },
        final(spc).mem == old(spc).mem,
        final(spc).stop == old(spc).stop,
        final(spc).config == old(spc).config,
{
    if finished(spc) {
        return None;
    }
    let decoded = decode_one(spc, spc.pc);
    Some(advance(spc, &decoded))
}

/// Every step of the scan moves on by the length of the instruction at the
/// program counter, one to three bytes, so the next step starts at the
/// address after that instruction, wrapping at the end of the address
/// space, and never where this one started.
pub proof fn lemma_step_moves_by_length(mem: Seq<u8>, pc: u16)
    requires
        mem.len() == MEMORY_SIZE,
    ensures
        decode_spec(mem, pc) is Ok,
        step_advance(decode_spec(mem, pc)) == opcode_table(mem[pc as int]).len,
        1 <= step_advance(decode_spec(mem, pc)) <= 3,
        next_pc(pc, decode_spec(mem, pc)) as int == (pc as int + opcode_table(
            mem[pc as int],
        ).len as int) % 0x10000,
        next_pc(pc, decode_spec(mem, pc)) != pc,
{
    lemma_table_complete(mem[pc as int]);
}

} // verus!
