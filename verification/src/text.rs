use vstd::prelude::*;
use vstd::string::*;

verus! {

/// The lowercase hexadecimal digit for a value below 16.
pub open spec fn hex_digit(n: int) -> char {
    "0123456789abcdef"@[n]
}

/// A byte as two lowercase hexadecimal digits.
pub open spec fn hex_byte(b: u8) -> Seq<char> {
    seq![hex_digit(b as int / 16), hex_digit(b as int % 16)]
}

/// A word as four lowercase hexadecimal digits, the high byte first.
pub open spec fn hex_word(w: u16) -> Seq<char> {
    seq![
        hex_digit(w as int / 4096),
        hex_digit(w as int / 256 % 16),
        hex_digit(w as int / 16 % 16),
        hex_digit(w as int % 16),
    ]
}

/// A number in decimal digits, without sign or padding.
pub open spec fn decimal(n: nat) -> Seq<char>
    decreases n,
{
    if n < 10 {
        seq![hex_digit(n as int)]
    } else {
        decimal(n / 10).push(hex_digit(n as int % 10))
    }
}

/// `n` blanks.
pub open spec fn blanks(n: nat) -> Seq<char> {
    Seq::new(n, |i: int| ' ')
}

/// The text, followed by as many blanks as it takes to make it `width`
/// characters long; a text that is that long already stays as it is.
pub open spec fn pad_right(text: Seq<char>, width: nat) -> Seq<char> {
    if text.len() >= width {
        text
    } else {
        text + blanks((width - text.len()) as nat)
    }
}

/// Whether a character is white space: the characters with the Unicode
/// property `White_Space`.
pub open spec fn is_white_space(c: char) -> bool {
    let code = c as u32;
    ||| 0x09 <= code <= 0x0D
    ||| code == 0x20
    ||| code == 0x85
    ||| code == 0xA0
    ||| code == 0x1680
    ||| 0x2000 <= code <= 0x200A
    ||| code == 0x2028
    ||| code == 0x2029
    ||| code == 0x202F
    ||| code == 0x205F
    ||| code == 0x3000
}

/// The text without the white space at its end.
pub open spec fn trim_end(text: Seq<char>) -> Seq<char>
    decreases text.len(),
{
    if text.len() > 0 && is_white_space(text.last()) {
        trim_end(text.drop_last())
    } else {
        text
    }
}

/// Appends the hexadecimal digit of a value below 16.
pub fn push_hex_digit(out: &mut String, n: u8)
    requires
        n < 16,
    ensures
        final(out)@ == old(out)@.push(hex_digit(n as int)),
{
    let digits = "0123456789abcdef";
    proof {
        reveal_strlit("0123456789abcdef");
    }
    let start: usize = n as usize;
    let digit = digits.substring_ascii(start, start + 1);
    out.append(digit);
    assert(out@ =~= old(out)@.push(hex_digit(n as int)));
}

/// Appends a byte as two hexadecimal digits.
pub fn push_hex_byte(out: &mut String, b: u8)
    ensures
        final(out)@ == old(out)@ + hex_byte(b),
{
    push_hex_digit(out, b / 16);
    push_hex_digit(out, b % 16);
    assert(out@ =~= old(out)@ + hex_byte(b));
}

/// Appends a word as four hexadecimal digits.
pub fn push_hex_word(out: &mut String, w: u16)
    ensures
        final(out)@ == old(out)@ + hex_word(w),
{
    let high: u8 = (w / 256) as u8;
    let low: u8 = (w % 256) as u8;
    push_hex_byte(out, high);
    push_hex_byte(out, low);
    assert(out@ =~= old(out)@ + hex_word(w));
}

/// Appends a number below 256 in decimal digits.
pub fn push_decimal(out: &mut String, n: u8)
    ensures
        final(out)@ == old(out)@ + decimal(n as nat),
{
    reveal_with_fuel(decimal, 3);
    if n >= 100 {
        push_hex_digit(out, n / 100);
    }
    if n >= 10 {
        push_hex_digit(out, n / 10 % 10);
    }
    push_hex_digit(out, n % 10);
    assert(out@ =~= old(out)@ + decimal(n as nat));
}

/// Pads a text with blanks on the right up to `width` characters.
pub fn pad_right_to(text: String, width: usize) -> (padded: String)
    ensures
        padded@ == pad_right(text@, width as nat),
{
    let mut out = text;
    let mut len: usize = out.as_str().unicode_len();
    assert(out@ =~= text@ + blanks(0));
    while len < width
        invariant
            len == out@.len(),
            len >= text@.len(),
            out@ == text@ + blanks((len - text@.len()) as nat),
            text@.len() >= width ==> len == text@.len(),
            text@.len() < width ==> len <= width,
        decreases width - len,
    {
        proof {
            reveal_strlit(" ");
        }
        out.append(" ");
        len = len + 1;
        assert(out@ =~= text@ + blanks((len - text@.len()) as nat));
    }
    assert(out@ =~= pad_right(text@, width as nat));
    out
}

/// Whether a character is white space.
pub fn white_space(c: char) -> (r: bool)
    ensures
        r == is_white_space(c),
{
    let code: u32 = c as u32;
    (0x09 <= code && code <= 0x0D) || code == 0x20 || code == 0x85 || code == 0xA0 || code
        == 0x1680 || (0x2000 <= code && code <= 0x200A) || code == 0x2028 || code == 0x2029
        || code == 0x202F || code == 0x205F || code == 0x3000
}

/// Removes the white space at the end of a text.
pub fn trim_text_end(text: &str) -> (trimmed: String)
    ensures
        trimmed@ == trim_end(text@),
{
    let mut keep: usize = text.unicode_len();
    assert(text@.take(keep as int) =~= text@);
    while keep > 0 && white_space(text.get_char(keep - 1))
        invariant
            keep <= text@.len(),
            trim_end(text@) == trim_end(text@.take(keep as int)),
        decreases keep,
    {
        assert(text@.take(keep as int).drop_last() =~= text@.take(keep as int - 1));
        keep = keep - 1;
    }
    let kept = text.substring_char(0, keep);
    assert(kept@ =~= text@.take(keep as int));
    String::from_str(kept)
}

/// Whether two texts hold the same characters.
pub fn same_text(left: &str, right: &str) -> (same: bool)
    ensures
        same == (left@ == right@),
{
    let len: usize = left.unicode_len();
    if right.unicode_len() != len {
        return false;
    }
    let mut i: usize = 0;
    while i < len
        invariant
            len == left@.len(),
            len == right@.len(),
            i <= len,
            forall|k: int| 0 <= k < i ==> left@[k] == right@[k],
        decreases len - i,
    {
        if left.get_char(i) != right.get_char(i) {
            return false;
        }
        i = i + 1;
    }
    assert(left@ =~= right@);
    true
}

/// Trimming changes nothing in a text that does not end in white space.
pub proof fn lemma_trim_end_keeps(text: Seq<char>)
    requires
        text.len() == 0 || !is_white_space(text.last()),
    ensures
        trim_end(text) == text,
{
}

/// What trimming leaves is the start of the text, and does not end in white
/// space.
pub proof fn lemma_trim_end_is_prefix(text: Seq<char>)
    ensures
        trim_end(text).is_prefix_of(text),
        trim_end(text).len() == 0 || !is_white_space(trim_end(text).last()),
    decreases text.len(),
{
    if text.len() > 0 && is_white_space(text.last()) {
        lemma_trim_end_is_prefix(text.drop_last());
    }
}

} // verus!
