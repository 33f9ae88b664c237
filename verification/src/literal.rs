//! String literals in emitted source text.

use vstd::prelude::*;

verus! {

/// The hexadecimal digit for a value below sixteen.
pub open spec fn hex_digit(d: nat) -> char {
    if d == 0 {
        '0'
    } else if d == 1 {
        '1'
    } else if d == 2 {
        '2'
    } else if d == 3 {
        '3'
    } else if d == 4 {
        '4'
    } else if d == 5 {
        '5'
    } else if d == 6 {
        '6'
    } else if d == 7 {
        '7'
    } else if d == 8 {
        '8'
    } else if d == 9 {
        '9'
    } else if d == 10 {
        'a'
    } else if d == 11 {
        'b'
    } else if d == 12 {
        'c'
    } else if d == 13 {
        'd'
    } else if d == 14 {
        'e'
    } else {
        'f'
    }
}

/// A number in hexadecimal digits, without leading zeros.
pub open spec fn hex_text(n: nat) -> Seq<char>
    decreases n,
{
    if n < 16 {
        seq![hex_digit(n)]
    } else {
        hex_text(n / 16).push(hex_digit(n % 16))
    }
}

/// Whether a character stands for itself in a string literal: the printable
/// ASCII characters but the double quote and the backslash.
pub open spec fn plain(c: char) -> bool {
    ' ' <= c <= '~' && c != '"' && c != '\\'
}

/// How a character is written inside a string literal. A plain character
/// stands for itself; quote, backslash, newline, carriage return and tab
/// have their two-character escapes; every other character is written as
/// `\u{..}` with its code point in hexadecimal.
pub open spec fn escaped(c: char) -> Seq<char> {
    if plain(c) {
        seq![c]
    } else if c == '"' {
        seq!['\\', '"']
    } else if c == '\\' {
        seq!['\\', '\\']
    } else if c == '\n' {
        seq!['\\', 'n']
    } else if c == '\r' {
        seq!['\\', 'r']
    } else if c == '\t' {
        seq!['\\', 't']
    } else {
        seq!['\\', 'u', '{'] + hex_text(c as nat) + seq!['}']
    }
}

/// The characters of a text, each as it is written inside a string literal.
pub open spec fn escaped_text(text: Seq<char>) -> Seq<char>
    decreases text.len(),
{
    if text.len() == 0 {
        Seq::empty()
    } else {
        escaped_text(text.drop_last()) + escaped(text.last())
    }
}

/// The string literal that denotes a text: its escaped characters between
/// double quotes.
pub open spec fn string_literal(text: Seq<char>) -> Seq<char> {
    seq!['"'] + escaped_text(text) + seq!['"']
}

/// Whether a character is printable ASCII.
pub open spec fn printable(c: char) -> bool {
    ' ' <= c <= '~'
}

/// The hexadecimal digits of a number are digits and the letters `a` to
/// `f`.
pub proof fn lemma_hex_text_printable(n: nat)
    ensures
        hex_text(n).len() >= 1,
        forall|i: int| 0 <= i < hex_text(n).len() ==> printable(#[trigger] hex_text(n)[i]),
    decreases n,
{
    if n >= 16 {
        lemma_hex_text_printable(n / 16);
    }
}

/// A string literal is written in printable ASCII alone, whatever the text
/// that it denotes.
pub proof fn lemma_literal_printable(text: Seq<char>)
    ensures
        forall|i: int|
            0 <= i < string_literal(text).len() ==> printable(#[trigger] string_literal(text)[i]),
{
    lemma_escaped_text_printable(text);
}

/// A character is written in printable ASCII.
proof fn lemma_escaped_printable(c: char)
    ensures
        forall|i: int| 0 <= i < escaped(c).len() ==> printable(#[trigger] escaped(c)[i]),
{
    lemma_hex_text_printable(c as nat);
    let digits = hex_text(c as nat);
    if !plain(c) && c != '"' && c != '\\' && c != '\n' && c != '\r' && c != '\t' {
        assert forall|i: int| 0 <= i < escaped(c).len() implies printable(
            #[trigger] escaped(c)[i],
        ) by {
            if 3 <= i < 3 + digits.len() {
                assert(escaped(c)[i] == digits[i - 3]);
            }
        }
    }
}

/// The escaped characters of a text are printable ASCII.
proof fn lemma_escaped_text_printable(text: Seq<char>)
    ensures
        forall|i: int|
            0 <= i < escaped_text(text).len() ==> printable(#[trigger] escaped_text(text)[i]),
    decreases text.len(),
{
    if text.len() > 0 {
        lemma_escaped_text_printable(text.drop_last());
        lemma_escaped_printable(text.last());
        let before = escaped_text(text.drop_last());
        assert forall|i: int| 0 <= i < escaped_text(text).len() implies printable(
            #[trigger] escaped_text(text)[i],
        ) by {
            if i < before.len() {
                assert(escaped_text(text)[i] == before[i]);
            } else {
                assert(escaped_text(text)[i] == escaped(text.last())[i - before.len()]);
            }
        }
    }
}

/// `String::push` of std: appends one character to the string.
#[verifier::external_body]
pub(crate) fn push_char(out: &mut String, c: char)
    ensures
        final(out)@ == old(out)@.push(c),
{
    out.push(c);
}

/// The hexadecimal digit for a value below sixteen.
fn hex_digit_of(d: u32) -> (digit: char)
    requires
        d < 16,
    ensures
        digit == hex_digit(d as nat),
{
    if d == 0 {
        '0'
    } else if d == 1 {
        '1'
    } else if d == 2 {
        '2'
    } else if d == 3 {
        '3'
    } else if d == 4 {
        '4'
    } else if d == 5 {
        '5'
    } else if d == 6 {
        '6'
    } else if d == 7 {
        '7'
    } else if d == 8 {
        '8'
    } else if d == 9 {
        '9'
    } else if d == 10 {
        'a'
    } else if d == 11 {
        'b'
    } else if d == 12 {
        'c'
    } else if d == 13 {
        'd'
    } else if d == 14 {
        'e'
    } else {
        'f'
    }
}

/// Appends a number in hexadecimal digits.
fn push_hex(out: &mut String, n: u32)
    ensures
        final(out)@ == old(out)@ + hex_text(n as nat),
    decreases n,
{
    if n >= 16 {
        push_hex(out, n / 16);
    }
    push_char(out, hex_digit_of(n % 16));
}

/// Appends a character as it is written inside a string literal.
fn push_escaped(out: &mut String, c: char)
    ensures
        final(out)@ == old(out)@ + escaped(c),
{
    if c == '"' || c == '\\' {
        push_char(out, '\\');
        push_char(out, c);
    } else if c == '\n' {
        push_char(out, '\\');
        push_char(out, 'n');
    } else if c == '\r' {
        push_char(out, '\\');
        push_char(out, 'r');
    } else if c == '\t' {
        push_char(out, '\\');
        push_char(out, 't');
    } else if ' ' <= c && c <= '~' {
        push_char(out, c);
    } else {
        push_char(out, '\\');
        push_char(out, 'u');
        push_char(out, '{');
        push_hex(out, c as u32);
        push_char(out, '}');
    }
}

/// Writes a text as a string literal of Rust source.
pub fn quote_string(text: &str) -> (literal: String)
    ensures
        literal@ == string_literal(text@),
{
    let mut out = String::new();
    push_char(&mut out, '"');
    for c in it: text.chars()
        invariant
            it.seq() == text@,
            out@ == seq!['"'] + escaped_text(text@.take(it.index())),
    {
        assert(text@.take(it.index() + 1).drop_last() == text@.take(it.index()));
        push_escaped(&mut out, c);
    }
    assert(text@.take(text@.len() as int) == text@);
    push_char(&mut out, '"');
    out
}

} // verus!
