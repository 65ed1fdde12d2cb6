//! The names and hexadecimal forms that the editable form of a settings
//! file uses.

use vstd::prelude::*;
use vstd::string::StringExecFns;
use vstd::utf8::{decode_utf8, encode_utf8, encode_utf8_decode_utf8};

verus! {

/// Whether two strings hold the same characters.
pub fn str_eq(a: &str, b: &str) -> (r: bool)
    ensures
        r == (a@ == b@),
{
    let left = a.as_bytes();
    let right = b.as_bytes();
    proof {
        encode_utf8_decode_utf8(a@);
        encode_utf8_decode_utf8(b@);
    }
    if left.len() != right.len() {
        return false;
    }
    let mut i: usize = 0;
    while i < left.len()
        invariant
            i <= left.len(),
            left.len() == right.len(),
            forall|j: int| 0 <= j < i ==> left@[j] == right@[j],
            left@ == encode_utf8(a@),
            right@ == encode_utf8(b@),
            decode_utf8(encode_utf8(a@)) == a@,
            decode_utf8(encode_utf8(b@)) == b@,
        decreases left.len() - i,
    {
        if left[i] != right[i] {
            return false;
        }
        i += 1;
    }
    assert(left@ =~= right@);
    true
}

/// The name of a stored modifier state: `NoDetect`, `Enforce` and
/// `EnforceNot` for 0, 1 and 2, `Unknown` for every other number.
pub open spec fn key_state_name(state: i32) -> Seq<char> {
    if state == 0 {
        "NoDetect"@
    } else if state == 1 {
        "Enforce"@
    } else if state == 2 {
        "EnforceNot"@
    } else {
        "Unknown"@
    }
}

/// The stored number that a name of a modifier state stands for: 1 for
/// `Enforce`, 2 for `EnforceNot`, 0 for every other text.
pub open spec fn key_state_number(name: Seq<char>) -> i32 {
    if name == "Enforce"@ {
        1
    } else if name == "EnforceNot"@ {
        2
    } else {
        0
    }
}

/// The name of a stored override: `AutoDetect`, `Enable` and `Disable` for
/// 0, 1 and 2, `Unknown` for every other number.
pub open spec fn override_name(over: i32) -> Seq<char> {
    if over == 0 {
        "AutoDetect"@
    } else if over == 1 {
        "Enable"@
    } else if over == 2 {
        "Disable"@
    } else {
        "Unknown"@
    }
}

/// The stored number that a name of an override stands for: 1 for
/// `Enable`, 2 for `Disable`, 0 for every other text.
pub open spec fn override_number(name: Seq<char>) -> i32 {
    if name == "Enable"@ {
        1
    } else if name == "Disable"@ {
        2
    } else {
        0
    }
}

/// The name of a stored modifier state.
pub fn format_key_state(state: i32) -> (name: &'static str)
    ensures
        name@ == key_state_name(state),
{
    match state {
        0 => "NoDetect",
        1 => "Enforce",
        2 => "EnforceNot",
        _ => "Unknown",
    }
}

/// The stored number that the name of a modifier state stands for. Names
/// are case sensitive; a text that is no name counts as `NoDetect`.
pub fn parse_key_state(state_str: &str) -> (state: i32)
    ensures
        state == key_state_number(state_str@),
{
    if str_eq(state_str, "Enforce") {
        1
    } else if str_eq(state_str, "EnforceNot") {
        2
    } else {
        0
    }
}

/// The name of a stored override.
pub fn format_override(over: i32) -> (name: &'static str)
    ensures
        name@ == override_name(over),
{
    match over {
        0 => "AutoDetect",
        1 => "Enable",
        2 => "Disable",
        _ => "Unknown",
    }
}

/// The stored number that the name of an override stands for. Names are
/// case sensitive; a text that is no name counts as `AutoDetect`.
pub fn parse_override(name: &str) -> (over: i32)
    ensures
        over == override_number(name@),
{
    if str_eq(name, "Enable") {
        1
    } else if str_eq(name, "Disable") {
        2
    } else {
        0
    }
}

/// Whether `s` is the name `NoDetect`.
pub fn is_no_detect(s: &String) -> (r: bool)
    ensures
        r == (s@ == "NoDetect"@),
{
    str_eq(s.as_str(), "NoDetect")
}

/// A name read back gives the number it was written for, where that is 0,
/// 1 or 2; the name of any other number reads as 0.
pub proof fn law_names_read_back(number: i32)
    ensures
        key_state_number(key_state_name(number)) == (if 0 <= number <= 2 {
            number
        } else {
            0
        }),
        override_number(override_name(number)) == (if 0 <= number <= 2 {
            number
        } else {
            0
        }),
{
    reveal_strlit("NoDetect");
    reveal_strlit("Enforce");
    reveal_strlit("EnforceNot");
    reveal_strlit("Unknown");
    reveal_strlit("AutoDetect");
    reveal_strlit("Enable");
    reveal_strlit("Disable");
    assert("NoDetect"@.len() == 8 && "Enforce"@.len() == 7 && "EnforceNot"@.len() == 10);
    assert("AutoDetect"@.len() == 10 && "Enable"@.len() == 6 && "Disable"@.len() == 7);
    assert("Unknown"@.len() == 7 && "Unknown"@[0] == 'U');
    assert("Enforce"@[0] == 'E' && "Disable"@[0] == 'D');
}

/// The upper-case hexadecimal digit for `d`, where `d` is below 16.
pub open spec fn hex_digit(d: nat) -> char
    recommends
        d < 16,
{
    "0123456789ABCDEF"@[d as int]
}

/// The lowest `digits` hexadecimal digits of `value`, highest first, with
/// leading zeros where `value` has fewer.
pub open spec fn hex_fixed(value: nat, digits: nat) -> Seq<char>
    decreases digits,
{
    if digits == 0 {
        Seq::empty()
    } else {
        hex_fixed(value / 16, (digits - 1) as nat).push(hex_digit(value % 16))
    }
}

/// Number of hexadecimal digits that `value` takes; zero takes one.
pub open spec fn hex_width(value: nat) -> nat
    decreases value,
{
    if value < 16 {
        1
    } else {
        1 + hex_width(value / 16)
    }
}

/// `0x` and `value` in upper-case hexadecimal, with leading zeros up to
/// `min_digits` digits and with more digits where `value` needs them.
pub open spec fn hex_text(value: nat, min_digits: nat) -> Seq<char> {
    let width = hex_width(value);
    "0x"@ + hex_fixed(
        value,
        if width < min_digits {
            min_digits
        } else {
            width
        },
    )
}

/// The hexadecimal digit for `d` as a string of one character.
fn hex_digit_str(d: u32) -> (digit: &'static str)
    requires
        d < 16,
    ensures
        digit@ == seq![hex_digit(d as nat)],
{
    proof {
        reveal_strlit("0123456789ABCDEF");
        reveal_strlit("0");
        reveal_strlit("1");
        reveal_strlit("2");
        reveal_strlit("3");
        reveal_strlit("4");
        reveal_strlit("5");
        reveal_strlit("6");
        reveal_strlit("7");
        reveal_strlit("8");
        reveal_strlit("9");
        reveal_strlit("A");
        reveal_strlit("B");
        reveal_strlit("C");
        reveal_strlit("D");
        reveal_strlit("E");
        reveal_strlit("F");
    }
    let digit = match d {
        0 => "0",
        1 => "1",
        2 => "2",
        3 => "3",
        4 => "4",
        5 => "5",
        6 => "6",
        7 => "7",
        8 => "8",
        9 => "9",
        10 => "A",
        11 => "B",
        12 => "C",
        13 => "D",
        14 => "E",
        _ => "F",
    };
    assert(digit@ =~= seq![hex_digit(d as nat)]);
    digit
}

/// Appends the lowest `digits` hexadecimal digits of `value` to `out`.
fn push_hex(out: &mut String, value: u32, digits: usize)
    ensures
        final(out)@ == old(out)@ + hex_fixed(value as nat, digits as nat),
    decreases digits,
{
    if digits == 0 {
        assert(out@ =~= old(out)@ + hex_fixed(value as nat, 0));
    } else {
        push_hex(out, value / 16, digits - 1);
        out.append(hex_digit_str(value % 16));
        assert(out@ =~= old(out)@ + hex_fixed(value as nat, digits as nat));
    }
}

/// Number of hexadecimal digits that `value` takes.
fn hex_width_of(value: u32) -> (width: usize)
    ensures
        width == hex_width(value as nat),
        1 <= width <= 8,
{
    proof {
        reveal_with_fuel(hex_width, 9);
    }
    if value < 0x10 {
        1
    } else if value < 0x100 {
        2
    } else if value < 0x1000 {
        3
    } else if value < 0x1_0000 {
        4
    } else if value < 0x10_0000 {
        5
    } else if value < 0x100_0000 {
        6
    } else if value < 0x1000_0000 {
        7
    } else {
        8
    }
}

/// A make code as the editable form shows it: `0x` and at least two
/// upper-case hexadecimal digits, as in `0x0E` and `0x1D4`.
pub fn format_make_code(make_code: u16) -> (text: String)
    ensures
        text@ == hex_text(make_code as nat, 2),
{
    let width = hex_width_of(make_code as u32);
    let mut text = String::from_str("0x");
    push_hex(&mut text, make_code as u32, if width < 2 { 2 } else { width });
    text
}

/// The magic number as the editable form shows it: `0x` and eight
/// upper-case hexadecimal digits.
pub fn format_magic(magic: u32) -> (text: String)
    ensures
        text@ == hex_text(magic as nat, 8),
{
    proof {
        reveal_with_fuel(hex_width, 9);
    }
    let mut text = String::from_str("0x");
    push_hex(&mut text, magic, 8);
    text
}

/// The names of the flags set in `flags`, in the order break, E0, E1. Bits
/// other than these three have no name.
pub open spec fn flag_names(
    flags: u16,
    break_name: Seq<char>,
    e0_name: Seq<char>,
    e1_name: Seq<char>,
) -> Seq<Seq<char>> {
    (if flags & 0x0001 != 0 {
        seq![break_name]
    } else {
        Seq::empty()
    }) + (if flags & 0x0002 != 0 {
        seq![e0_name]
    } else {
        Seq::empty()
    }) + (if flags & 0x0004 != 0 {
        seq![e1_name]
    } else {
        Seq::empty()
    })
}

/// The texts of `parts` with `separator` between each two neighbours.
pub open spec fn join(parts: Seq<Seq<char>>, separator: Seq<char>) -> Seq<char>
    decreases parts.len(),
{
    if parts.len() == 0 {
        Seq::empty()
    } else if parts.len() == 1 {
        parts[0]
    } else {
        join(parts.drop_last(), separator) + separator + parts.last()
    }
}

/// The flags of a key in words: the names `BREAK`, `E0` and `E1` of the
/// flags that are set, joined by `|`, or `NONE` where none of the three is.
pub open spec fn flags_text(flags: u16) -> Seq<char> {
    let names = flag_names(flags, "BREAK"@, "E0"@, "E1"@);
    if names.len() == 0 {
        "NONE"@
    } else {
        join(names, "|"@)
    }
}

/// The flags of a key in words, as in `BREAK|E0`; `NONE` where none of
/// the three flags is set.
pub fn format_flags(flags: u16) -> (text: String)
    ensures
        text@ == flags_text(flags),
{
    let ghost names = flag_names(flags, "BREAK"@, "E0"@, "E1"@);
    let mut text = String::new();
    let mut any = false;
    let ghost mut done: Seq<Seq<char>> = Seq::empty();
    if flags & 0x0001 != 0 {
        text.append("BREAK");
        any = true;
        proof {
            done = done.push("BREAK"@);
            assert(text@ =~= join(done, "|"@));
        }
    }
    if flags & 0x0002 != 0 {
        if any {
            text.append("|");
        }
        text.append("E0");
        any = true;
        proof {
            lemma_join_push(done, "|"@, "E0"@);
            done = done.push("E0"@);
            assert(text@ =~= join(done, "|"@));
        }
    }
    if flags & 0x0004 != 0 {
        if any {
            text.append("|");
        }
        text.append("E1");
        any = true;
        proof {
            lemma_join_push(done, "|"@, "E1"@);
            done = done.push("E1"@);
            assert(text@ =~= join(done, "|"@));
        }
    }
    assert(done =~= names);
    if any {
        text
    } else {
        String::from_str("NONE")
    }
}

/// Joining one more part appends the separator and the part, or the part
/// alone where it is the first.
pub proof fn lemma_join_push(parts: Seq<Seq<char>>, separator: Seq<char>, part: Seq<char>)
    ensures
        join(parts.push(part), separator) == (if parts.len() == 0 {
            part
        } else {
            join(parts, separator) + separator + part
        }),
{
    assert(parts.push(part).drop_last() =~= parts);
}

} // verus!
