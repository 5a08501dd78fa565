//! Numbers as decimal text.

use vstd::prelude::*;
use vstd::string::StringExecFns;

verus! {

/// The character of a decimal digit.
pub open spec fn digit_char(d: nat) -> char {
    if d == 0 {
        '0'
    } else if d == 1 {
        '1'
    } else if d == 2 {
        '2'
    } else if d == 3 {
        '3'
    } else if d == 4 {
        '4'
    } else if d == 5 {
        '5'
    } else if d == 6 {
        '6'
    } else if d == 7 {
        '7'
    } else if d == 8 {
        '8'
    } else {
        '9'
    }
}

/// A natural number in decimal, without leading zeros.
pub open spec fn decimal_text(n: nat) -> Seq<char>
    decreases n,
{
    if n < 10 {
        seq![digit_char(n)]
    } else {
        decimal_text(n / 10).push(digit_char(n % 10))
    }
}

/// An integer in decimal, with `-` before a negative one.
pub open spec fn signed_decimal_text(i: int) -> Seq<char> {
    if i < 0 {
        seq!['-'] + decimal_text((-i) as nat)
    } else {
        decimal_text(i as nat)
    }
}

/// The bytes of a text of ASCII characters.
pub open spec fn ascii_bytes(text: Seq<char>) -> Seq<u8> {
    text.map_values(|c: char| c as u8)
}

fn digit_text(d: u64) -> (text: &'static str)
    requires
        d < 10,
    ensures
        text@ == seq![digit_char(d as nat)],
{
    proof {
        reveal_strlit("0");
        reveal_strlit("1");
        reveal_strlit("2");
        reveal_strlit("3");
        reveal_strlit("4");
        reveal_strlit("5");
        reveal_strlit("6");
        reveal_strlit("7");
        reveal_strlit("8");
        reveal_strlit("9");
    }
    let text = if d == 0 {
        "0"
    } else if d == 1 {
        "1"
    } else if d == 2 {
        "2"
    } else if d == 3 {
        "3"
    } else if d == 4 {
        "4"
    } else if d == 5 {
        "5"
    } else if d == 6 {
        "6"
    } else if d == 7 {
        "7"
    } else if d == 8 {
        "8"
    } else {
        "9"
    };
    assert(text@ =~= seq![digit_char(d as nat)]);
    text
}

/// Appends the digit `d` to `out`.
pub fn append_digit(out: &mut String, d: u64)
    requires
        d < 10,
    ensures
        final(out)@ == old(out)@.push(digit_char(d as nat)),
{
    out.append(digit_text(d));
    assert(out@ =~= old(out)@.push(digit_char(d as nat)));
}

/// Appends `n` in decimal to `out`.
pub fn append_decimal(out: &mut String, n: u64)
    ensures
        final(out)@ == old(out)@ + decimal_text(n as nat),
    decreases n,
{
    if n >= 10 {
        append_decimal(out, n / 10);
    }
    out.append(digit_text(n % 10));
    assert(out@ =~= old(out)@ + decimal_text(n as nat));
}

/// Appends `i` in decimal to `out`, with `-` before a negative one.
pub fn append_signed_decimal(out: &mut String, i: i64)
    ensures
        final(out)@ == old(out)@ + signed_decimal_text(i as int),
{
    if i < 0 {
        proof {
            reveal_strlit("-");
        }
        out.append("-");
        let magnitude: u64 = ((-(i + 1)) as u64) + 1;
        append_decimal(out, magnitude);
        assert(out@ =~= old(out)@ + signed_decimal_text(i as int));
    } else {
        append_decimal(out, i as u64);
    }
}

/// The encoding of a text of ASCII characters holds one byte for each
/// character.
pub proof fn ascii_text_encoding(text: Seq<char>)
    requires
        vstd::utf8::is_ascii_chars(text),
    ensures
        vstd::utf8::encode_utf8(text) == ascii_bytes(text),
{
    vstd::utf8::is_ascii_chars_encode_utf8(text);
    assert(vstd::utf8::encode_utf8(text) =~= ascii_bytes(text));
}

/// The characters of a decimal number are digits.
pub proof fn decimal_text_is_digits(n: nat)
    ensures
        decimal_text(n).len() >= 1,
        forall|k: int|
            0 <= k < decimal_text(n).len() ==> '0' <= #[trigger] decimal_text(n)[k] <= '9',
    decreases n,
{
    if n >= 10 {
        decimal_text_is_digits(n / 10);
    }
}

} // verus!
