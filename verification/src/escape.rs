//! Hex escaping of string-literal bytes.
//!
//! A source-language string literal is an arbitrary byte sequence. It is
//! rendered as a double-quoted target-language string in which every byte
//! appears as a two-digit hexadecimal escape, so the emitted text reproduces
//! the bytes exactly regardless of encoding.

use vstd::prelude::*;
use vstd::string::StringExecFns;

verus! {

/// The one-character text of the hexadecimal digit `n`.
pub open spec fn hex_digit(n: int) -> Seq<char> {
    if n == 0 {
        "0"@
    } else if n == 1 {
        "1"@
    } else if n == 2 {
        "2"@
    } else if n == 3 {
        "3"@
    } else if n == 4 {
        "4"@
    } else if n == 5 {
        "5"@
    } else if n == 6 {
        "6"@
    } else if n == 7 {
        "7"@
    } else if n == 8 {
        "8"@
    } else if n == 9 {
        "9"@
    } else if n == 10 {
        "a"@
    } else if n == 11 {
        "b"@
    } else if n == 12 {
        "c"@
    } else if n == 13 {
        "d"@
    } else if n == 14 {
        "e"@
    } else {
        "f"@
    }
}

/// The four-character escape of one byte: a backslash, `x`, and two
/// hexadecimal digits.
pub open spec fn escape_byte(b: u8) -> Seq<char> {
    "\\x"@ + hex_digit(b as int / 16) + hex_digit(b as int % 16)
}

/// The escapes of a byte sequence, in order.
pub open spec fn escape_bytes(bs: Seq<u8>) -> Seq<char>
    decreases bs.len(),
{
    if bs.len() == 0 {
        Seq::empty()
    } else {
        escape_byte(bs[0]) + escape_bytes(bs.subrange(1, bs.len() as int))
    }
}

/// The value of a hexadecimal digit character, or 16 for any other character.
pub open spec fn hex_value(c: char) -> int {
    if c == '0' {
        0
    } else if c == '1' {
        1
    } else if c == '2' {
        2
    } else if c == '3' {
        3
    } else if c == '4' {
        4
    } else if c == '5' {
        5
    } else if c == '6' {
        6
    } else if c == '7' {
        7
    } else if c == '8' {
        8
    } else if c == '9' {
        9
    } else if c == 'a' {
        10
    } else if c == 'b' {
        11
    } else if c == 'c' {
        12
    } else if c == 'd' {
        13
    } else if c == 'e' {
        14
    } else if c == 'f' {
        15
    } else {
        16
    }
}

/// How the target language reads a run of four-character hex escapes back
/// into bytes: each group of four characters contributes the byte named by
/// its last two digits.
pub open spec fn decode_hex_escapes(s: Seq<char>) -> Seq<u8>
    decreases s.len(),
{
    if s.len() < 4 {
        Seq::empty()
    } else {
        seq![(hex_value(s[2]) * 16 + hex_value(s[3])) as u8] + decode_hex_escapes(
            s.subrange(4, s.len() as int),
        )
    }
}

proof fn lemma_hex_digit_shape(n: int)
    requires
        0 <= n < 16,
    ensures
        hex_digit(n).len() == 1,
        hex_value(hex_digit(n)[0]) == n,
{
    reveal_strlit("0");
    reveal_strlit("1");
    reveal_strlit("2");
    reveal_strlit("3");
    reveal_strlit("4");
    reveal_strlit("5");
    reveal_strlit("6");
    reveal_strlit("7");
    reveal_strlit("8");
    reveal_strlit("9");
    reveal_strlit("a");
    reveal_strlit("b");
    reveal_strlit("c");
    reveal_strlit("d");
    reveal_strlit("e");
    reveal_strlit("f");
}

/// String literals round-trip byte for byte: reading the emitted hex escapes
/// back as the target language does reproduces the original byte sequence,
/// whatever bytes it holds.
pub proof fn lemma_escape_round_trip(bytes: Seq<u8>)
    ensures
        decode_hex_escapes(escape_bytes(bytes)) == bytes,
    decreases bytes.len(),
{
    reveal_strlit("\\x");
    if bytes.len() == 0 {
        assert(decode_hex_escapes(escape_bytes(bytes)) =~= bytes);
    } else {
        let b = bytes[0];
        let tail = bytes.subrange(1, bytes.len() as int);
        let hi = b as int / 16;
        let lo = b as int % 16;
        lemma_hex_digit_shape(hi);
        lemma_hex_digit_shape(lo);
        let e = escape_byte(b);
        let s = escape_bytes(bytes);
        assert(e.len() == 4);
        assert(s == e + escape_bytes(tail));
        assert(s[2] == hex_digit(hi)[0]);
        assert(s[3] == hex_digit(lo)[0]);
        assert(hex_value(s[2]) * 16 + hex_value(s[3]) == b as int);
        assert(s.subrange(4, s.len() as int) =~= escape_bytes(tail));
        lemma_escape_round_trip(tail);
        assert(decode_hex_escapes(s) =~= bytes);
    }
}

/// Appends the hexadecimal digit `n` to `out`.
fn append_hex_digit(out: &mut String, n: u8)
    requires
        n < 16,
    ensures
        final(out)@ == old(out)@ + hex_digit(n as int),
{
    match n {
        0 => out.append("0"),
        1 => out.append("1"),
        2 => out.append("2"),
        3 => out.append("3"),
        4 => out.append("4"),
        5 => out.append("5"),
        6 => out.append("6"),
        7 => out.append("7"),
        8 => out.append("8"),
        9 => out.append("9"),
        10 => out.append("a"),
        11 => out.append("b"),
        12 => out.append("c"),
        13 => out.append("d"),
        14 => out.append("e"),
        _ => out.append("f"),
    }
}

/// Appends the escapes of every byte of `bytes` to `out`.
pub fn append_escaped(out: &mut String, bytes: &Vec<u8>)
    ensures
        final(out)@ == old(out)@ + escape_bytes(bytes@),
{
    let n = bytes.len();
    let mut i: usize = 0;
    proof {
        assert(bytes@.subrange(0, n as int) =~= bytes@);
    }
    while i < n
        invariant
            n == bytes@.len(),
            i <= n,
            old(out)@ + escape_bytes(bytes@) == out@ + escape_bytes(
                bytes@.subrange(i as int, n as int),
            ),
        decreases n - i,
    {
        let ghost suffix = bytes@.subrange(i as int, n as int);
        proof {
            assert(suffix[0] == bytes@[i as int]);
            assert(suffix.subrange(1, suffix.len() as int) =~= bytes@.subrange(
                i as int + 1,
                n as int,
            ));
        }
        let b = bytes[i];
        out.append("\\x");
        append_hex_digit(out, b / 16);
        append_hex_digit(out, b % 16);
        proof {
            assert(out@ + escape_bytes(bytes@.subrange(i as int + 1, n as int)) =~= old(out)@
                + escape_bytes(bytes@));
        }
        i = i + 1;
    }
    proof {
        assert(bytes@.subrange(n as int, n as int) =~= Seq::<u8>::empty());
        assert(out@ + Seq::<char>::empty() =~= out@);
        assert(old(out)@ + escape_bytes(bytes@) =~= out@);
    }
}

} // verus!
