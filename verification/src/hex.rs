//! Parsing hexadecimal literals: an optional `$` or `0x` prefix and one
//! to four hex digits, case insensitive.

use vstd::prelude::*;

use itertools::Itertools;

verus! {

/// A string that is not a well-formed hex literal.
#[derive(Clone, Copy, Debug, PartialEq, Eq, Structural)]
pub enum HexError {
    Invalid,
}

/// Whether the character is a hexadecimal digit.
pub open spec fn spec_is_hex_digit(c: char) -> bool {
    ('0' <= c && c <= '9') || ('a' <= c && c <= 'f') || ('A' <= c && c <= 'F')
}

/// The value of a hexadecimal digit.
pub open spec fn spec_hex_digit_val(c: char) -> int {
    if '0' <= c && c <= '9' {
        c as int - '0' as int
    } else if 'a' <= c && c <= 'f' {
        c as int - 'a' as int + 10
    } else {
        c as int - 'A' as int + 10
    }
}

/// The value of a sequence of hexadecimal digits, most significant
/// first.
pub open spec fn spec_hex_val(s: Seq<char>) -> int
    decreases s.len(),
{
    if s.len() == 0 {
        0
    } else {
        spec_hex_val(s.drop_last()) * 16 + spec_hex_digit_val(s.last())
    }
}

/// The digits after the optional `$` or `0x` prefix.
pub open spec fn spec_strip_prefix(s: Seq<char>) -> Seq<char> {
    if s.len() >= 1 && s[0] == '$' {
        s.skip(1)
    } else if s.len() >= 2 && s[0] == '0' && s[1] == 'x' {
        s.skip(2)
    } else {
        s
    }
}

/// Whether the string is a well-formed hex literal: after the optional
/// prefix, one to four hex digits.
pub open spec fn spec_hex_ok(s: Seq<char>) -> bool {
    let d = spec_strip_prefix(s);
    &&& 1 <= d.len() <= 4
    &&& forall|i: int| 0 <= i < d.len() ==> spec_is_hex_digit(#[trigger] d[i])
}

/// The value of a well-formed hex literal.
pub open spec fn spec_hex_value(s: Seq<char>) -> int {
    spec_hex_val(spec_strip_prefix(s))
}

/// The value of a hexadecimal digit.
pub fn hex_to_nibble(c: char) -> (r: Result<u8, HexError>)
    ensures
        match r {
            Ok(v) => spec_is_hex_digit(c) && v == spec_hex_digit_val(c) && v < 16,
            Err(_) => !spec_is_hex_digit(c),
        },
{
    let u = c as u32;
    if 0x30 <= u && u <= 0x39 {
        Ok((u - 0x30) as u8)
    } else if 0x61 <= u && u <= 0x66 {
        Ok((u - 0x61 + 10) as u8)
    } else if 0x41 <= u && u <= 0x46 {
        Ok((u - 0x41 + 10) as u8)
    } else {
        Err(HexError::Invalid)
    }
}

/// Relies on itertools' `collect_tuple`: `Some` exactly when the
/// character iterator yields exactly two items, and then those two.
#[verifier::external_body]
fn two_chars(s: &str) -> (r: Option<(char, char)>)
    ensures
        match r {
            Some(pair) => s@.len() == 2 && pair.0 == s@[0] && pair.1 == s@[1],
            None => s@.len() != 2,
        },
{
    s.chars().collect_tuple()
}

/// The byte two hex digit characters name.
pub fn hex_to_byte(s: &str) -> (r: Result<u8, HexError>)
    ensures
        match r {
            Ok(v) => s@.len() == 2 && spec_is_hex_digit(s@[0]) && spec_is_hex_digit(s@[1]) && v
                == spec_hex_digit_val(s@[0]) * 16 + spec_hex_digit_val(s@[1]),
            Err(_) => s@.len() != 2 || !spec_is_hex_digit(s@[0]) || !spec_is_hex_digit(s@[1]),
        },
{
    let (hi, lo) = match two_chars(s) {
        Some(pair) => pair,
        None => {
            return Err(HexError::Invalid);
        },
    };
    let hi = match hex_to_nibble(hi) {
        Ok(v) => v,
        Err(e) => {
            return Err(e);
        },
    };
    let lo = match hex_to_nibble(lo) {
        Ok(v) => v,
        Err(e) => {
            return Err(e);
        },
    };
    Ok(hi * 16 + lo)
}

/// Parse a 16-bit hex literal from its characters: an optional `$` or
/// `0x` prefix, then one to four hex digits.
pub fn decode_u16_chars(cs: &Vec<char>) -> (r: Result<u16, HexError>)
    ensures
        match r {
            Ok(v) => spec_hex_ok(cs@) && v == spec_hex_value(cs@),
            Err(_) => !spec_hex_ok(cs@),
        },
{
    let n = cs.len();
    let start: usize = if n >= 1 && cs[0] == '$' {
        1
    } else if n >= 2 && cs[0] == '0' && cs[1] == 'x' {
        2
    } else {
        0
    };
    let ghost digits = spec_strip_prefix(cs@);
    proof {
        assert(digits =~= cs@.skip(start as int));
    }
    let count = n - start;
    if count < 1 || count > 4 {
        return Err(HexError::Invalid);
    }
    let mut v: u32 = 0;
    let mut i: usize = start;
    while i < n
        invariant
            start <= i <= n,
            n == cs@.len(),
            digits == spec_strip_prefix(cs@),
            digits == cs@.skip(start as int),
            1 <= n - start <= 4,
            v == spec_hex_val(cs@.subrange(start as int, i as int)),
            v < 0x10000,
            forall|j: int| start <= j < i ==> spec_is_hex_digit(#[trigger] cs@[j]),
            i - start <= 4,
        decreases n - i,
    {
        let d = match hex_to_nibble(cs[i]) {
            Ok(d) => d,
            Err(_) => {
                proof {
                    assert(cs@.skip(start as int)[i - start] == cs@[i as int]);
                    assert(!spec_is_hex_digit(spec_strip_prefix(cs@)[i - start]));
                    assert(!spec_hex_ok(cs@));
                }
                return Err(HexError::Invalid);
            },
        };
        proof {
            assert(cs@.subrange(start as int, i + 1).drop_last() =~= cs@.subrange(
                start as int,
                i as int,
            ));
            assert(cs@.subrange(start as int, i + 1).last() == cs@[i as int]);
            lemma_hex_val_bound(cs@.subrange(start as int, i as int));
        }
        v = v * 16 + d as u32;
        i = i + 1;
    }
    proof {
        assert(cs@.subrange(start as int, n as int) =~= digits);
        assert(forall|j: int|
            0 <= j < digits.len() ==> spec_is_hex_digit(#[trigger] digits[j]) && digits[j] == cs@[
            start + j]);
    }
    Ok(v as u16)
}

/// A run of at most four hex digits names a value below `16^4`, and
/// shorter runs are bounded accordingly.
proof fn lemma_hex_val_bound(s: Seq<char>)
    requires
        s.len() <= 4,
        forall|i: int| 0 <= i < s.len() ==> spec_is_hex_digit(#[trigger] s[i]),
    ensures
        0 <= spec_hex_val(s),
        s.len() <= 1 ==> spec_hex_val(s) < 0x10,
        s.len() <= 2 ==> spec_hex_val(s) < 0x100,
        s.len() <= 3 ==> spec_hex_val(s) < 0x1000,
        spec_hex_val(s) < 0x10000,
    decreases s.len(),
{
    if s.len() > 0 {
        lemma_hex_val_bound(s.drop_last());
        assert(spec_hex_digit_val(s.last()) < 16);
    }
}

/// Parse a 16-bit hex literal: an optional `$` or `0x` prefix, then one
/// to four hex digits, case insensitive.
pub fn decode_u16(s: &str) -> (r: Result<u16, HexError>)
    ensures
        match r {
            Ok(v) => spec_hex_ok(s@) && v == spec_hex_value(s@),
            Err(_) => !spec_hex_ok(s@),
        },
{
    let cs = chars_of(s);
    match cs {
        Some(cs) => decode_u16_chars(&cs),
        None => Err(HexError::Invalid),
    }
}

/// The characters of an ASCII string; `None` for one that is not ASCII.
/// A string that is not ASCII is never a hex literal.
pub fn chars_of(s: &str) -> (r: Option<Vec<char>>)
    ensures
        match r {
            Some(cs) => cs@ == s@ && vstd::string::is_ascii(s),
            None => !vstd::string::is_ascii(s) && !spec_hex_ok(s@),
        },
{
    if !s.is_ascii() {
        proof {
            lemma_non_ascii_not_hex(s@);
        }
        return None;
    }
    let n = s.unicode_len();
    let mut cs: Vec<char> = Vec::new();
    let mut i: usize = 0;
    while i < n
        invariant
            i <= n,
            n == s@.len(),
            s.is_ascii(),
            cs@ =~= s@.subrange(0, i as int),
        decreases n - i,
    {
        cs.push(s.get_char(i));
        proof {
            assert(cs@ =~= s@.subrange(0, i + 1));
        }
        i = i + 1;
    }
    proof {
        assert(cs@ =~= s@);
    }
    Some(cs)
}

/// A string holding a character outside ASCII is not a hex literal: its
/// prefix characters and digits are all ASCII.
proof fn lemma_non_ascii_not_hex(s: Seq<char>)
    requires
        !vstd::utf8::is_ascii_chars(s),
    ensures
        !spec_hex_ok(s),
{
    let i = choose|i: int| 0 <= i < s.len() && !('\0' <= #[trigger] s[i] <= '\u{7f}');
    let d = spec_strip_prefix(s);
    if spec_hex_ok(s) {
        if s.len() >= 1 && s[0] == '$' {
            assert(i >= 1);
            assert(d[i - 1] == s[i]);
            assert(spec_is_hex_digit(d[i - 1]));
        } else if s.len() >= 2 && s[0] == '0' && s[1] == 'x' {
            assert(i >= 2);
            assert(d[i - 2] == s[i]);
            assert(spec_is_hex_digit(d[i - 2]));
        } else {
            assert(spec_is_hex_digit(d[i]));
        }
    }
}

} // verus!
