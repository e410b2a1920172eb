use crate::spc::Config;
use std::num::ParseIntError;
use vstd::prelude::*;
use vstd::string::*;

verus! {

/// The command line of the disassembler, as plain values.
#[derive(Debug)]
pub struct Args {
    pub input_file: String,
    pub output_file: String,
    /// Load address, in hexadecimal.
    pub load: String,
    /// Start address, in hexadecimal; the load address where there is none.
    pub pc: Option<String>,
    /// Stop address, in hexadecimal, or `eof`.
    pub stop: String,
    pub no_addr: bool,
    pub no_hex: bool,
    pub no_rel_resolve: bool,
}

/// `std::num::ParseIntError`, the error of the standard library's integer
/// parsers; nothing is known of what a value of it holds.
#[verifier::external_type_specification]
#[verifier::external_body]
pub struct ExParseIntError(ParseIntError);

/// The value of a character as a digit: `0` to `9` for themselves, the
/// letters of either case for 10 to 35.
pub open spec fn digit_value(c: char) -> Option<int> {
    if '0' <= c <= '9' {
        Some(c as int - '0' as int)
    } else if 'a' <= c <= 'z' {
        Some(c as int - 'a' as int + 10)
    } else if 'A' <= c <= 'Z' {
        Some(c as int - 'A' as int + 10)
    } else {
        None
    }
}

/// Whether every character is a digit of the base.
pub open spec fn all_digits(digits: Seq<char>, radix: int) -> bool {
    forall|i: int|
        0 <= i < digits.len() ==> (#[trigger] digit_value(digits[i]) matches Some(v) && v < radix)
}

/// The number that a row of digits stands for in the base, the most
/// significant digit first.
pub open spec fn digits_number(digits: Seq<char>, radix: int) -> int
    decreases digits.len(),
{
    if digits.len() == 0 {
        0
    } else {
        digits_number(digits.drop_last(), radix) * radix + match digit_value(digits.last()) {
            Some(v) => v,
            None => 0,
        }
    }
}

/// The number that a text stands for in the base: an optional `+` and then
/// at least one digit, nothing else. No number where the text is anything
/// else.
pub open spec fn text_number(text: Seq<char>, radix: int) -> Option<int> {
    let digits = if text.len() > 0 && text[0] == '+' {
        text.skip(1)
    } else {
        text
    };
    if digits.len() > 0 && all_digits(digits, radix) {
        Some(digits_number(digits, radix))
    } else {
        None
    }
}

/// `u16::from_str_radix`: succeeds exactly on a text that is an optional
/// `+` followed by one or more digits of the base and nothing else, and
/// whose number fits 16 bits, and then returns that number. The base must be
/// between 2 and 36: the function panics on any other.
pub assume_specification[ u16::from_str_radix ](src: &str, radix: u32) -> (parsed: Result<
    u16,
    ParseIntError,
>)
    requires
        2 <= radix <= 36,
    ensures
        parsed is Ok <==> (text_number(src@, radix as int) matches Some(n) && n <= u16::MAX),
        parsed matches Ok(value) ==> text_number(src@, radix as int) == Some(value as int),
;

/// The text without the `0x` at its start, where one stands there. Only
/// one prefix is taken off.
pub open spec fn without_hex_prefix(text: Seq<char>) -> Seq<char> {
    if text.len() >= 2 && text[0] == '0' && text[1] == 'x' {
        text.skip(2)
    } else {
        text
    }
}

/// Whether a character is a hexadecimal digit: `0` to `9`, `a` to `f` or
/// `A` to `F`.
pub open spec fn is_hex_digit(c: char) -> bool {
    '0' <= c <= '9' || 'a' <= c <= 'f' || 'A' <= c <= 'F'
}

/// Whether a text is one or more hexadecimal digits and nothing else.
pub open spec fn is_hex_text(digits: Seq<char>) -> bool {
    &&& digits.len() > 0
    &&& forall|i: int| 0 <= i < digits.len() ==> is_hex_digit(#[trigger] digits[i])
}

/// The address that a hexadecimal argument stands for, where it stands for
/// one: after at most one `0x` in front, one or more hexadecimal digits of
/// either case and nothing else, with a value of at most `0xFFFF`. Any
/// other text, one with a sign or a second prefix among them, stands for no
/// address.
pub open spec fn hex_address(text: Seq<char>) -> Option<u16> {
    let digits = without_hex_prefix(text);
    if is_hex_text(digits) && digits_number(digits, 16) <= u16::MAX {
        Some(digits_number(digits, 16) as u16)
    } else {
        None
    }
}

/// The hexadecimal digits are the digits of base 16.
pub proof fn lemma_hex_digits_are_base_16(digits: Seq<char>)
    ensures
        all_digits(digits, 16) <==> forall|i: int|
            0 <= i < digits.len() ==> is_hex_digit(#[trigger] digits[i]),
{
    if all_digits(digits, 16) {
        assert forall|i: int| 0 <= i < digits.len() implies is_hex_digit(#[trigger] digits[i]) by {
            assert(digit_value(digits[i]) matches Some(v) && v < 16);
        }
    }
}

/// Takes one `0x` off the start of a text, where it stands there.
pub fn strip_hex_prefix(text: &str) -> (rest: &str)
    ensures
        rest@ == without_hex_prefix(text@),
{
    let len: usize = text.unicode_len();
    if len >= 2 && text.get_char(0) == '0' && text.get_char(1) == 'x' {
        let rest = text.substring_char(2, len);
        assert(rest@ =~= text@.skip(2));
        rest
    } else {
        text
    }
}

/// Reads a hexadecimal address, with or without `0x` in front. A text with
/// a sign is refused like any other text that is not made of hexadecimal
/// digits alone.
pub fn parse_hex(s: &str) -> (parsed: Result<u16, ParseIntError>)
    ensures
        parsed is Ok <==> hex_address(s@) is Some,
        parsed matches Ok(value) ==> hex_address(s@) == Some(value),
{
    let digits = strip_hex_prefix(s);
    proof {
        lemma_hex_digits_are_base_16(digits@);
    }
    if digits.unicode_len() > 0 && digits.get_char(0) == '+' {
        // The parser would read the sign; alone it is no number, and the
        // error for it is the error for this text.
        let sign = digits.substring_char(0, 1);
        assert(sign@.skip(1).len() == 0);
        assert(!is_hex_digit(digits@[0]));
        u16::from_str_radix(sign, 16)
    } else {
        u16::from_str_radix(digits, 16)
    }
}

/// Whether a text is the word `eof`, in letters of either case.
pub open spec fn is_eof_text(text: Seq<char>) -> bool {
    &&& text.len() == 3
    &&& (text[0] == 'e' || text[0] == 'E')
    &&& (text[1] == 'o' || text[1] == 'O')
    &&& (text[2] == 'f' || text[2] == 'F')
}

/// The address after the last byte of a file of `file_len` bytes loaded at
/// `load_addr`, wrapping at the end of the address space.
pub open spec fn end_of_file(load_addr: u16, file_len: nat) -> u16 {
    ((load_addr as int + file_len as int) % 0x10000) as u16
}

impl Args {
    /// The display options that the flags ask for: each flag switches one
    /// option off.
    pub fn config(&self) -> (config: Config)
        ensures
            config == (Config {
                show_addr: !self.no_addr,
                show_hex: !self.no_hex,
                resolve_rel: !self.no_rel_resolve,
            }),
    {
        Config {
            show_addr: !self.no_addr,
            show_hex: !self.no_hex,
            resolve_rel: !self.no_rel_resolve,
        }
    }
}

/// Whether a stop argument is the word `eof`, in letters of either case.
pub fn is_eof(token: &str) -> (found: bool)
    ensures
        found == is_eof_text(token@),
{
    if token.unicode_len() != 3 {
        return false;
    }
    let first = token.get_char(0);
    let second = token.get_char(1);
    let third = token.get_char(2);
    (first == 'e' || first == 'E') && (second == 'o' || second == 'O') && (third == 'f' || third
        == 'F')
}

/// The address where the scan starts: the one that the argument gives, or
/// the load address where there is no argument.
pub fn start_address(pc: &Option<String>, load_addr: u16) -> (start: Result<u16, ParseIntError>)
    ensures
        pc is None ==> start == Ok::<u16, ParseIntError>(load_addr),
        pc matches Some(text) ==> (start is Ok <==> hex_address(text@) is Some),
        pc matches Some(text) ==> (start matches Ok(value) ==> hex_address(text@) == Some(value)),
{
    match pc {
        Some(text) => parse_hex(text.as_str()),
        None => Ok(load_addr),
    }
}

/// The address where the scan stops: for `eof` the address after the last
/// byte of the loaded file, otherwise the one that the argument gives.
pub fn stop_address(stop: &str, load_addr: u16, file_len: usize) -> (end: Result<
    u16,
    ParseIntError,
>)
    ensures
        is_eof_text(stop@) ==> end == Ok::<u16, ParseIntError>(
            end_of_file(load_addr, file_len as nat),
        ),
        !is_eof_text(stop@) ==> (end is Ok <==> hex_address(stop@) is Some),
        !is_eof_text(stop@) ==> (end matches Ok(value) ==> hex_address(stop@) == Some(value)),
{
    if is_eof(stop) {
        let len: u16 = (file_len % 0x10000) as u16;
        Ok(load_addr.wrapping_add(len))
    } else {
        parse_hex(stop)
    }
}

} // verus!
