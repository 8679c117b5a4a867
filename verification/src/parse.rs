use vstd::prelude::*;
use vstd::arithmetic::div_mod::lemma_fundamental_div_mod;
use crate::chars::char_of_code;
use crate::chars::chars_of;
use crate::chars::range_eq_str;
use crate::chars::string_of_chars;
use crate::error::ParseError;
use crate::error::ReasonParseFault;
use crate::reason::ErrorReason;
use crate::reason::spec_reason_of;
use crate::reason::reason_of_range;
use crate::response::ErrorBody;

verus! {

// ---------------------------------------------------------------------------
// Character classes of the wire format
// ---------------------------------------------------------------------------

/// Insignificant whitespace between tokens of a body.
pub open spec fn is_json_ws(c: char) -> bool {
    c == ' ' || c == '\t' || c == '\n' || c == '\r'
}

/// A decimal digit.
pub open spec fn is_dec_digit(c: char) -> bool {
    ('0' as u32) <= (c as u32) && (c as u32) <= ('9' as u32)
}

/// The numeric value of a decimal digit.
pub open spec fn dec_val(c: char) -> int {
    (c as u32) - ('0' as u32)
}

// ---------------------------------------------------------------------------
// Scanners: each exec scanner computes exactly its spec counterpart
// ---------------------------------------------------------------------------

/// The first position at or after `i` holding no whitespace (or the end).
pub open spec fn spec_ws_end(s: Seq<char>, i: int) -> int
    decreases s.len() - i,
{
    if 0 <= i < s.len() && is_json_ws(s[i]) {
        spec_ws_end(s, i + 1)
    } else {
        i
    }
}


fn scan_ws(v: &Vec<char>, i: usize) -> (r: usize)
    requires
        i <= v@.len(),
    ensures
        r == spec_ws_end(v@, i as int),
        i <= r <= v@.len(),
{
    let mut j: usize = i;
    while j < v.len() && (v[j] == ' ' || v[j] == '\t' || v[j] == '\n' || v[j] == '\r')
        invariant
            i <= j <= v@.len(),
            spec_ws_end(v@, i as int) == spec_ws_end(v@, j as int),
        decreases v@.len() - j,
    {
        proof {
            assert(spec_ws_end(v@, j as int) == spec_ws_end(v@, j + 1 as int));
        }
        j = j + 1;
    }
    j
}

/// A hexadecimal digit.
pub open spec fn is_hex_digit(c: char) -> bool {
    is_dec_digit(c) || (('a' as u32) <= (c as u32) && (c as u32) <= ('f' as u32)) || (('A'
        as u32) <= (c as u32) && (c as u32) <= ('F' as u32))
}

/// The numeric value of a hexadecimal digit.
pub open spec fn hex_val(c: char) -> int {
    if is_dec_digit(c) {
        dec_val(c)
    } else if ('a' as u32) <= (c as u32) && (c as u32) <= ('f' as u32) {
        (c as u32) - ('a' as u32) + 10
    } else {
        (c as u32) - ('A' as u32) + 10
    }
}

/// A character that may follow a backslash as a one-character escape.
pub open spec fn is_single_escape(c: char) -> bool {
    c == '"' || c == '\\' || c == '/' || c == 'b' || c == 'f' || c == 'n' || c == 'r' || c
        == 't'
}

/// The character a one-character escape denotes; quote, backslash and
/// solidus denote themselves.
pub open spec fn single_escape_char(c: char) -> char {
    if c == 'b' {
        '\u{0008}'
    } else if c == 'f' {
        '\u{000C}'
    } else if c == 'n' {
        '\n'
    } else if c == 'r' {
        '\r'
    } else if c == 't' {
        '\t'
    } else {
        c
    }
}

/// Four hexadecimal digits standing at `i`; callers assure the bounds.
pub open spec fn hex4_at(s: Seq<char>, i: int) -> bool {
    is_hex_digit(s[i]) && is_hex_digit(s[i + 1]) && is_hex_digit(s[i + 2]) && is_hex_digit(
        s[i + 3],
    )
}

/// The value the four hexadecimal digits at `i` spell.
pub open spec fn hex4_val(s: Seq<char>, i: int) -> int {
    hex_val(s[i]) * 0x1000 + hex_val(s[i + 1]) * 0x100 + hex_val(s[i + 2]) * 0x10 + hex_val(
        s[i + 3],
    )
}

/// The first half of a surrogate pair, no character by itself.
pub open spec fn is_high_surrogate(u: int) -> bool {
    0xD800 <= u < 0xDC00
}

/// The second half of a surrogate pair, no character by itself.
pub open spec fn is_low_surrogate(u: int) -> bool {
    0xDC00 <= u < 0xE000
}

/// The position of the quote closing a string whose content starts at `i`,
/// or `None` when the string is unterminated or ill-formed. The JSON escape
/// sequences are accepted -- the one-character escapes and `\uXXXX`, a
/// surrogate code only as a high-low pair -- while a raw control character,
/// an unknown escape, a bare backslash, or a lone surrogate makes the
/// string ill-formed.
pub open spec fn spec_str_end(s: Seq<char>, i: int) -> Option<int>
    decreases s.len() - i,
{
    if !(0 <= i < s.len()) {
        None
    } else if s[i] == '"' {
        Some(i)
    } else if s[i] == '\\' {
        if i + 2 <= s.len() && is_single_escape(s[i + 1]) {
            spec_str_end(s, i + 2)
        } else if i + 6 <= s.len() && s[i + 1] == 'u' && hex4_at(s, i + 2) {
            if is_high_surrogate(hex4_val(s, i + 2)) {
                if i + 12 <= s.len() && s[i + 6] == '\\' && s[i + 7] == 'u' && hex4_at(s, i + 8)
                    && is_low_surrogate(hex4_val(s, i + 8)) {
                    spec_str_end(s, i + 12)
                } else {
                    None
                }
            } else if is_low_surrogate(hex4_val(s, i + 2)) {
                None
            } else {
                spec_str_end(s, i + 6)
            }
        } else {
            None
        }
    } else if (s[i] as u32) < 0x20 {
        None
    } else {
        spec_str_end(s, i + 1)
    }
}

/// The characters a string's content denotes, escapes decoded: the content
/// runs from `i` up to its closing quote at `e`. On content that
/// `spec_str_end` accepts every escape is decoded; the function is total
/// nonetheless, reading what is no escape as literal text.
pub open spec fn spec_unescape(s: Seq<char>, i: int, e: int) -> Seq<char>
    decreases e - i,
{
    if !(0 <= i && i < e && e <= s.len()) {
        Seq::empty()
    } else if s[i] == '\\' && i + 2 <= e && is_single_escape(s[i + 1]) {
        seq![single_escape_char(s[i + 1])] + spec_unescape(s, i + 2, e)
    } else if s[i] == '\\' && i + 6 <= e && s[i + 1] == 'u' && hex4_at(s, i + 2) {
        if is_high_surrogate(hex4_val(s, i + 2)) {
            if i + 12 <= e && s[i + 6] == '\\' && s[i + 7] == 'u' && hex4_at(s, i + 8)
                && is_low_surrogate(hex4_val(s, i + 8)) {
                seq![
                    ((0x10000 + (hex4_val(s, i + 2) - 0xD800) * 0x400 + (hex4_val(s, i + 8)
                        - 0xDC00)) as u32) as char
                ] + spec_unescape(s, i + 12, e)
            } else {
                spec_unescape(s, i + 6, e)
            }
        } else if is_low_surrogate(hex4_val(s, i + 2)) {
            spec_unescape(s, i + 6, e)
        } else {
            seq![(hex4_val(s, i + 2) as u32) as char] + spec_unescape(s, i + 6, e)
        }
    } else {
        seq![s[i]] + spec_unescape(s, i + 1, e)
    }
}

fn hex_digit(c: char) -> (b: bool)
    ensures
        b == is_hex_digit(c),
{
    (('0' as u32) <= (c as u32) && (c as u32) <= ('9' as u32)) || (('a' as u32) <= (c as u32)
        && (c as u32) <= ('f' as u32)) || (('A' as u32) <= (c as u32) && (c as u32) <= ('F'
        as u32))
}

fn hex_val_of(c: char) -> (d: u32)
    requires
        is_hex_digit(c),
    ensures
        d as int == hex_val(c),
        d <= 15,
{
    let u = c as u32;
    if ('0' as u32) <= u && u <= ('9' as u32) {
        u - ('0' as u32)
    } else if ('a' as u32) <= u && u <= ('f' as u32) {
        u - ('a' as u32) + 10
    } else {
        u - ('A' as u32) + 10
    }
}

/// The value of four hexadecimal digits at `i`, or `None` when one of the
/// four characters is no such digit.
fn hex4_code(v: &Vec<char>, i: usize) -> (r: Option<u32>)
    requires
        i + 4 <= v@.len(),
    ensures
        match r {
            Some(u) => hex4_at(v@, i as int) && u as int == hex4_val(v@, i as int) && u
                <= 0xFFFF,
            None => !hex4_at(v@, i as int),
        },
{
    let n: usize = v.len();
    if !(hex_digit(v[i]) && hex_digit(v[i + 1]) && hex_digit(v[i + 2]) && hex_digit(
        v[i + 3],
    )) {
        return None;
    }
    let u = hex_val_of(v[i]) * 0x1000 + hex_val_of(v[i + 1]) * 0x100 + hex_val_of(v[i + 2])
        * 0x10 + hex_val_of(v[i + 3]);
    Some(u)
}

fn single_escape(c: char) -> (b: bool)
    ensures
        b == is_single_escape(c),
{
    c == '"' || c == '\\' || c == '/' || c == 'b' || c == 'f' || c == 'n' || c == 'r' || c
        == 't'
}

fn single_escape_of(c: char) -> (r: char)
    ensures
        r == single_escape_char(c),
{
    if c == 'b' {
        '\u{0008}'
    } else if c == 'f' {
        '\u{000C}'
    } else if c == 'n' {
        '\n'
    } else if c == 'r' {
        '\r'
    } else if c == 't' {
        '\t'
    } else {
        c
    }
}

fn scan_str_end(v: &Vec<char>, i: usize) -> (r: Option<usize>)
    requires
        i <= v@.len(),
    ensures
        match r {
            Some(e) => spec_str_end(v@, i as int) == Some(e as int) && i <= e < v@.len(),
            None => spec_str_end(v@, i as int) is None,
        },
{
    let mut j: usize = i;
    loop
        invariant
            i <= j <= v@.len(),
            spec_str_end(v@, i as int) == spec_str_end(v@, j as int),
        decreases v@.len() - j,
    {
        if j == v.len() {
            return None;
        }
        let c = v[j];
        if c == '"' {
            return Some(j);
        }
        if c == '\\' {
            if v.len() - j >= 2 && single_escape(v[j + 1]) {
                proof {
                    assert(spec_str_end(v@, j as int) == spec_str_end(v@, j + 2 as int));
                }
                j = j + 2;
            } else if v.len() - j >= 6 && v[j + 1] == 'u' {
                let u = match hex4_code(v, j + 2) {
                    Some(u) => u,
                    None => {
                        return None;
                    },
                };
                if 0xD800 <= u && u < 0xDC00 {
                    if !(v.len() - j >= 12 && v[j + 6] == '\\' && v[j + 7] == 'u') {
                        return None;
                    }
                    let u2 = match hex4_code(v, j + 8) {
                        Some(u2) => u2,
                        None => {
                            return None;
                        },
                    };
                    if !(0xDC00 <= u2 && u2 < 0xE000) {
                        return None;
                    }
                    proof {
                        assert(spec_str_end(v@, j as int) == spec_str_end(v@, j + 12 as int));
                    }
                    j = j + 12;
                } else if 0xDC00 <= u && u < 0xE000 {
                    return None;
                } else {
                    proof {
                        assert(spec_str_end(v@, j as int) == spec_str_end(v@, j + 6 as int));
                    }
                    j = j + 6;
                }
            } else {
                return None;
            }
        } else if (c as u32) < 0x20 {
            return None;
        } else {
            proof {
                assert(spec_str_end(v@, j as int) == spec_str_end(v@, j + 1 as int));
            }
            j = j + 1;
        }
    }
}

/// The content of a string between `i` and its closing quote at `e`, its
/// escapes decoded into the characters they denote.
fn unescape_range(v: &Vec<char>, i: usize, e: usize) -> (out: Vec<char>)
    requires
        i <= e <= v@.len(),
    ensures
        out@ == spec_unescape(v@, i as int, e as int),
{
    let mut out: Vec<char> = Vec::new();
    let mut j: usize = i;
    loop
        invariant
            i <= j <= e <= v@.len(),
            spec_unescape(v@, i as int, e as int) == out@ + spec_unescape(
                v@,
                j as int,
                e as int,
            ),
        decreases e - j,
    {
        if j >= e {
            proof {
                assert(spec_unescape(v@, j as int, e as int) =~= Seq::<char>::empty());
                assert(out@ + Seq::<char>::empty() =~= out@);
            }
            return out;
        }
        let c = v[j];
        let ghost before = out@;
        let ghost rest = spec_unescape(v@, j as int, e as int);
        if c == '\\' && e - j >= 2 && single_escape(v[j + 1]) {
            out.push(single_escape_of(v[j + 1]));
            proof {
                let tail = spec_unescape(v@, j + 2 as int, e as int);
                assert(rest =~= seq![single_escape_char(v@[j + 1])] + tail);
                assert(before + rest =~= out@ + tail);
            }
            j = j + 2;
        } else if c == '\\' && e - j >= 6 && v[j + 1] == 'u' && hex4_code(v, j + 2).is_some() {
            let u = match hex4_code(v, j + 2) {
                Some(u) => u,
                None => {
                    return out;
                },
            };
            if 0xD800 <= u && u < 0xDC00 {
                let mut u2: u32 = 0;
                let mut paired = false;
                if e - j >= 12 && v[j + 6] == '\\' && v[j + 7] == 'u' {
                    match hex4_code(v, j + 8) {
                        Some(w) => {
                            if 0xDC00 <= w && w < 0xE000 {
                                u2 = w;
                                paired = true;
                            }
                        },
                        None => {},
                    }
                }
                if paired {
                    let code = 0x10000 + (u - 0xD800) * 0x400 + (u2 - 0xDC00);
                    let dc = char_of_code(code);
                    proof {
                        vstd::utf8::char_u32_cast(dc, code);
                    }
                    out.push(dc);
                    proof {
                        let tail = spec_unescape(v@, j + 12 as int, e as int);
                        assert(rest =~= seq![dc] + tail);
                        assert(before + rest =~= out@ + tail);
                    }
                    j = j + 12;
                } else {
                    proof {
                        assert(rest =~= spec_unescape(v@, j + 6 as int, e as int));
                    }
                    j = j + 6;
                }
            } else if 0xDC00 <= u && u < 0xE000 {
                proof {
                    assert(rest =~= spec_unescape(v@, j + 6 as int, e as int));
                }
                j = j + 6;
            } else {
                let dc = char_of_code(u);
                proof {
                    vstd::utf8::char_u32_cast(dc, u);
                }
                out.push(dc);
                proof {
                    let tail = spec_unescape(v@, j + 6 as int, e as int);
                    assert(rest =~= seq![dc] + tail);
                    assert(before + rest =~= out@ + tail);
                }
                j = j + 6;
            }
        } else {
            out.push(c);
            proof {
                let tail = spec_unescape(v@, j + 1 as int, e as int);
                assert(rest =~= seq![c] + tail);
                assert(before + rest =~= out@ + tail);
            }
            j = j + 1;
        }
    }
}

/// The first position at or after `i` holding no decimal digit (or the end).
pub open spec fn spec_dig_end(s: Seq<char>, i: int) -> int
    decreases s.len() - i,
{
    if 0 <= i < s.len() && is_dec_digit(s[i]) {
        spec_dig_end(s, i + 1)
    } else {
        i
    }
}


pub proof fn lemma_dig_end_digits(s: Seq<char>, i: int, k: int)
    requires
        0 <= i <= k < spec_dig_end(s, i),
    ensures
        is_dec_digit(s[k]),
    decreases s.len() - i,
{
    if i < s.len() && is_dec_digit(s[i]) && i < k {
        lemma_dig_end_digits(s, i + 1, k);
    }
}

// ---------------------------------------------------------------------------
// Decimal values
// ---------------------------------------------------------------------------

/// The number a sequence of decimal digits spells, most significant first.
pub open spec fn spec_digits_val(s: Seq<char>) -> int
    decreases s.len(),
{
    if s.len() == 0 {
        0
    } else {
        spec_digits_val(s.drop_last()) * 10 + dec_val(s.last())
    }
}


proof fn lemma_digits_val_step(s: Seq<char>, a: int, b: int)
    requires
        0 <= a <= b < s.len(),
    ensures
        spec_digits_val(s.subrange(a, b + 1)) == spec_digits_val(s.subrange(a, b)) * 10
            + dec_val(s[b]),
{
    assert(s.subrange(a, b + 1).drop_last() =~= s.subrange(a, b));
    assert(s.subrange(a, b + 1).last() == s[b]);
}

// ---------------------------------------------------------------------------
// Skipping auxiliary values
//
// The upstream format is not under this library's control, so an object
// member with an unexpected key is tolerated: its value is consumed and
// discarded, whatever well-formed JSON value it is. The skippers below
// recognise exactly the value grammar -- strings, numbers,
// the three keywords, and nested objects and arrays -- and say only where
// the value ends. Mutual recursion over nesting is bounded by a fuel
// parameter; every step of the grammar consumes at least one character, so
// the text's own length is always fuel enough.
// ---------------------------------------------------------------------------

/// The end of a JSON number starting at `k`: an optional sign, an integer
/// part without a redundant leading zero, an optional fraction and an
/// optional exponent. `None` when no well-formed number starts there.
pub open spec fn spec_skip_number(s: Seq<char>, k: int) -> Option<int> {
    let k1 = if 0 <= k < s.len() && s[k] == '-' {
        k + 1
    } else {
        k
    };
    if !(0 <= k1 < s.len() && is_dec_digit(s[k1])) {
        Option::None
    } else {
        let ie = spec_dig_end(s, k1);
        if s[k1] == '0' && ie > k1 + 1 {
            Option::None
        } else {
            let fe = if ie < s.len() && s[ie] == '.' {
                spec_dig_end(s, ie + 1)
            } else {
                ie
            };
            if ie < s.len() && s[ie] == '.' && fe == ie + 1 {
                Option::None
            } else if fe < s.len() && (s[fe] == 'e' || s[fe] == 'E') {
                let x1 = if fe + 1 < s.len() && (s[fe + 1] == '+' || s[fe + 1] == '-') {
                    fe + 2
                } else {
                    fe + 1
                };
                let xe = spec_dig_end(s, x1);
                if xe > x1 {
                    Option::Some(xe)
                } else {
                    Option::None
                }
            } else {
                Option::Some(fe)
            }
        }
    }
}

/// The end of the JSON value starting at `k`, or `None` when none starts
/// there or the fuel `d` runs out before its nesting does.
pub open spec fn spec_skip_value(s: Seq<char>, k: int, d: nat) -> Option<int>
    decreases d,
{
    if d == 0 || !(0 <= k < s.len()) {
        Option::None
    } else if s[k] == '"' {
        match spec_str_end(s, k + 1) {
            Option::Some(e) => Option::Some(e + 1),
            Option::None => Option::None,
        }
    } else if s[k] == '-' || is_dec_digit(s[k]) {
        spec_skip_number(s, k)
    } else if s[k] == 't' {
        if k + 4 <= s.len() && s.subrange(k, k + 4) == "true"@ {
            Option::Some(k + 4)
        } else {
            Option::None
        }
    } else if s[k] == 'f' {
        if k + 5 <= s.len() && s.subrange(k, k + 5) == "false"@ {
            Option::Some(k + 5)
        } else {
            Option::None
        }
    } else if s[k] == 'n' {
        if k + 4 <= s.len() && s.subrange(k, k + 4) == "null"@ {
            Option::Some(k + 4)
        } else {
            Option::None
        }
    } else if s[k] == '{' {
        spec_skip_object_tail(s, k + 1, true, (d - 1) as nat)
    } else if s[k] == '[' {
        spec_skip_array_tail(s, k + 1, true, (d - 1) as nat)
    } else {
        Option::None
    }
}

/// The end of a skipped object whose opening brace stands at `k - 1` (with
/// `first`) or whose last comma stands at `k - 1` (without): members until
/// the matching close.
pub open spec fn spec_skip_object_tail(s: Seq<char>, k: int, first: bool, d: nat) -> Option<
    int,
>
    decreases d,
{
    if d == 0 {
        Option::None
    } else {
        let m = spec_ws_end(s, k);
        if first && m < s.len() && s[m] == '}' {
            Option::Some(m + 1)
        } else if m < s.len() && s[m] == '"' {
            match spec_str_end(s, m + 1) {
                Option::None => Option::None,
                Option::Some(ke) => {
                    let j = spec_ws_end(s, ke + 1);
                    if j < s.len() && s[j] == ':' {
                        let p = spec_ws_end(s, j + 1);
                        match spec_skip_value(s, p, (d - 1) as nat) {
                            Option::None => Option::None,
                            Option::Some(q) => {
                                let m2 = spec_ws_end(s, q);
                                if m2 < s.len() && s[m2] == '}' {
                                    Option::Some(m2 + 1)
                                } else if m2 < s.len() && s[m2] == ',' {
                                    spec_skip_object_tail(s, m2 + 1, false, (d - 1) as nat)
                                } else {
                                    Option::None
                                }
                            },
                        }
                    } else {
                        Option::None
                    }
                },
            }
        } else {
            Option::None
        }
    }
}

/// The end of a skipped array, shaped as `spec_skip_object_tail` is.
pub open spec fn spec_skip_array_tail(s: Seq<char>, k: int, first: bool, d: nat) -> Option<int>
    decreases d,
{
    if d == 0 {
        Option::None
    } else {
        let m = spec_ws_end(s, k);
        if first && m < s.len() && s[m] == ']' {
            Option::Some(m + 1)
        } else {
            match spec_skip_value(s, m, (d - 1) as nat) {
                Option::None => Option::None,
                Option::Some(q) => {
                    let m2 = spec_ws_end(s, q);
                    if m2 < s.len() && s[m2] == ']' {
                        Option::Some(m2 + 1)
                    } else if m2 < s.len() && s[m2] == ',' {
                        spec_skip_array_tail(s, m2 + 1, false, (d - 1) as nat)
                    } else {
                        Option::None
                    }
                },
            }
        }
    }
}

// ---------------------------------------------------------------------------
// The wire contract of an error body
//
// A body is a JSON-shaped object with a required `reason` member (a string
// of the closed set) and an optional `timestamp` member (an unsigned
// integer, or `null` for an absent value), in either order, with
// insignificant whitespace anywhere between tokens, and any number of
// auxiliary members whose well-formed values are skipped: the upstream
// format is not under this library's control, so unexpected but well-formed
// data is tolerated rather than rejected. A repeated `reason` or
// `timestamp` member, trailing text, or text that is no object at all is
// malformed, and a well-typed but unknown `reason` string or a wrongly
// typed `reason` or `timestamp` value is surfaced as its own fault.
// ---------------------------------------------------------------------------

/// A character that starts a JSON value other than a string: a number, a
/// keyword, an object or an array. Used to tell a wrongly typed value from
/// text that is no value at all.
pub open spec fn is_nonstring_value_start(c: char) -> bool {
    is_dec_digit(c) || c == '-' || c == 't' || c == 'f' || c == 'n' || c == '{' || c == '['
}

/// What one `"key": value` pair of a body contributes.
pub enum SpecField {
    /// A `reason` member naming a reason of the closed set; `next` is the
    /// position just after the value.
    ReasonField { reason: ErrorReason, next: int },
    /// A `timestamp` member; `stamp` is `None` for a `null` value.
    TimestampField { stamp: Option<u64>, next: int },
    /// A member with any other key, its well-formed value discarded.
    SkippedField { next: int },
    /// The pair is not well formed.
    FieldFault { fault: ReasonParseFault },
}

/// The value of a `reason` member starting at `k`: a string spelling, once
/// its escapes are decoded, a member of the closed set; an unknown string
/// (carried back in decoded form); a value of another type; or no value at
/// all.
pub open spec fn spec_parse_reason_val(s: Seq<char>, k: int) -> SpecField {
    if 0 <= k < s.len() && s[k] == '"' {
        match spec_str_end(s, k + 1) {
            Option::None => SpecField::FieldFault { fault: ReasonParseFault::Malformed },
            Option::Some(ce) => match spec_reason_of(spec_unescape(s, k + 1, ce)) {
                Option::Some(r) => SpecField::ReasonField { reason: r, next: ce + 1 },
                Option::None => SpecField::FieldFault {
                    fault: ReasonParseFault::UnknownReason(spec_unescape(s, k + 1, ce)),
                },
            },
        }
    } else if 0 <= k < s.len() && is_nonstring_value_start(s[k]) {
        SpecField::FieldFault { fault: ReasonParseFault::TypeMismatch }
    } else {
        SpecField::FieldFault { fault: ReasonParseFault::Malformed }
    }
}

/// The value of a `timestamp` member starting at `k`: an unsigned integer
/// that fits in 64 bits, `null` for an absent value, or a fault. A string,
/// a negative or fractional number, a too-large number, a keyword, or a
/// nested value is a type mismatch, not coerced.
pub open spec fn spec_parse_ts_val(s: Seq<char>, k: int) -> SpecField {
    if !(0 <= k < s.len()) {
        SpecField::FieldFault { fault: ReasonParseFault::Malformed }
    } else if s[k] == '"' || s[k] == 't' || s[k] == 'f' || s[k] == '{' || s[k] == '['
        || s[k] == '-' {
        SpecField::FieldFault { fault: ReasonParseFault::TypeMismatch }
    } else if s[k] == 'n' {
        if k + 4 <= s.len() && s.subrange(k, k + 4) == "null"@ {
            SpecField::TimestampField { stamp: Option::None, next: k + 4 }
        } else {
            SpecField::FieldFault { fault: ReasonParseFault::Malformed }
        }
    } else if is_dec_digit(s[k]) {
        let e = spec_dig_end(s, k);
        if s[k] == '0' && e > k + 1 {
            SpecField::FieldFault { fault: ReasonParseFault::Malformed }
        } else if e < s.len() && (s[e] == '.' || s[e] == 'e' || s[e] == 'E') {
            SpecField::FieldFault { fault: ReasonParseFault::TypeMismatch }
        } else if spec_digits_val(s.subrange(k, e)) > u64::MAX {
            SpecField::FieldFault { fault: ReasonParseFault::TypeMismatch }
        } else {
            SpecField::TimestampField {
                stamp: Option::Some(spec_digits_val(s.subrange(k, e)) as u64),
                next: e,
            }
        }
    } else {
        SpecField::FieldFault { fault: ReasonParseFault::Malformed }
    }
}

/// One `"key": value` pair starting at `i`. Keys are read with their
/// escapes decoded: a `reason` or `timestamp` key gets its typed value;
/// any other key has its well-formed value skipped and discarded.
pub open spec fn spec_parse_pair(s: Seq<char>, i: int) -> SpecField {
    if !(0 <= i < s.len() && s[i] == '"') {
        SpecField::FieldFault { fault: ReasonParseFault::Malformed }
    } else {
        match spec_str_end(s, i + 1) {
            Option::None => SpecField::FieldFault { fault: ReasonParseFault::Malformed },
            Option::Some(ke) => {
                let key = spec_unescape(s, i + 1, ke);
                let j = spec_ws_end(s, ke + 1);
                if !(j < s.len() && s[j] == ':') {
                    SpecField::FieldFault { fault: ReasonParseFault::Malformed }
                } else {
                    let k = spec_ws_end(s, j + 1);
                    if key == "reason"@ {
                        spec_parse_reason_val(s, k)
                    } else if key == "timestamp"@ {
                        spec_parse_ts_val(s, k)
                    } else {
                        match spec_skip_value(s, k, s.len() as nat) {
                            Option::None => SpecField::FieldFault {
                                fault: ReasonParseFault::Malformed,
                            },
                            Option::Some(q) => SpecField::SkippedField { next: q },
                        }
                    }
                }
            },
        }
    }
}

/// The end of a body, just after the closing brace at `i - 1`: a `reason`
/// must have been seen, and only whitespace may follow.
pub open spec fn spec_finish(
    s: Seq<char>,
    i: int,
    reason: Option<ErrorReason>,
    stamp: Option<u64>,
) -> Result<ErrorBody, ReasonParseFault> {
    match reason {
        Option::None => Result::Err(ReasonParseFault::MissingField("reason"@)),
        Option::Some(r) => if spec_ws_end(s, i) == s.len() {
            Result::Ok(ErrorBody { reason: r, timestamp: stamp })
        } else {
            Result::Err(ReasonParseFault::Malformed)
        },
    }
}

/// The members after the first one: either the object closes, or a comma
/// introduces another pair, which may not repeat a `reason` or `timestamp`
/// already seen. Each member consumes characters, so the fuel `d` -- the
/// text's length at the top call -- never runs out before the text does.
pub open spec fn spec_members_tail(
    s: Seq<char>,
    i: int,
    reason: Option<ErrorReason>,
    stamp: Option<u64>,
    stamp_seen: bool,
    d: nat,
) -> Result<ErrorBody, ReasonParseFault>
    decreases d,
{
    let m = spec_ws_end(s, i);
    if m < s.len() && s[m] == '}' {
        spec_finish(s, m + 1, reason, stamp)
    } else if d > 0 && m < s.len() && s[m] == ',' {
        let p = spec_ws_end(s, m + 1);
        match spec_parse_pair(s, p) {
            SpecField::FieldFault { fault } => Result::Err(fault),
            SpecField::ReasonField { reason: r2, next } => if reason is Some {
                Result::Err(ReasonParseFault::Malformed)
            } else {
                spec_members_tail(s, next, Option::Some(r2), stamp, stamp_seen, (d - 1) as nat)
            },
            SpecField::TimestampField { stamp: t2, next } => if stamp_seen {
                Result::Err(ReasonParseFault::Malformed)
            } else {
                spec_members_tail(s, next, reason, t2, true, (d - 1) as nat)
            },
            SpecField::SkippedField { next } => spec_members_tail(
                s,
                next,
                reason,
                stamp,
                stamp_seen,
                (d - 1) as nat,
            ),
        }
    } else {
        Result::Err(ReasonParseFault::Malformed)
    }
}

/// What a raw body means: the typed error it denotes, or the exact fault.
/// `ErrorBody::parse` computes it and nothing else.
pub open spec fn spec_parse_body(s: Seq<char>) -> Result<ErrorBody, ReasonParseFault> {
    let i0 = spec_ws_end(s, 0);
    if !(i0 < s.len() && s[i0] == '{') {
        Result::Err(ReasonParseFault::Malformed)
    } else {
        let i1 = spec_ws_end(s, i0 + 1);
        if i1 < s.len() && s[i1] == '}' {
            spec_finish(s, i1 + 1, Option::None, Option::None)
        } else {
            match spec_parse_pair(s, i1) {
                SpecField::FieldFault { fault } => Result::Err(fault),
                SpecField::ReasonField { reason, next } => spec_members_tail(
                    s,
                    next,
                    Option::Some(reason),
                    Option::None,
                    false,
                    s.len() as nat,
                ),
                SpecField::TimestampField { stamp, next } => spec_members_tail(
                    s,
                    next,
                    Option::None,
                    stamp,
                    true,
                    s.len() as nat,
                ),
                SpecField::SkippedField { next } => spec_members_tail(
                    s,
                    next,
                    Option::None,
                    Option::None,
                    false,
                    s.len() as nat,
                ),
            }
        }
    }
}

/// An executable parse outcome agrees with a spec outcome when they are the
/// same value, error strings compared by their characters.
pub open spec fn parse_outcome_matches(
    r: Result<ErrorBody, ParseError>,
    m: Result<ErrorBody, ReasonParseFault>,
) -> bool {
    match r {
        Result::Ok(b) => m == Result::Ok::<ErrorBody, ReasonParseFault>(b),
        Result::Err(e) => m == Result::Err::<ErrorBody, ReasonParseFault>(e@),
    }
}

// ---------------------------------------------------------------------------
// The executable parser
// ---------------------------------------------------------------------------

/// The outcome of reading one pair, executable form.
enum FieldOut {
    ReasonOut(ErrorReason, usize),
    TimestampOut(Option<u64>, usize),
    SkippedOut(usize),
    FaultOut(ParseError),
}

/// An executable pair outcome agrees with a spec pair outcome when they are
/// the same value, error strings compared by their characters.
spec fn field_out_matches(f: FieldOut, m: SpecField) -> bool {
    match f {
        FieldOut::ReasonOut(r, n) => m == (SpecField::ReasonField { reason: r, next: n as int }),
        FieldOut::TimestampOut(t, n) => m == (SpecField::TimestampField {
            stamp: t,
            next: n as int,
        }),
        FieldOut::SkippedOut(n) => m == (SpecField::SkippedField { next: n as int }),
        FieldOut::FaultOut(e) => m == (SpecField::FieldFault { fault: e@ }),
    }
}

/// The position bound a pair outcome carries, for chaining.
spec fn field_out_in_range(f: FieldOut, len: int) -> bool {
    match f {
        FieldOut::ReasonOut(_, n) => n <= len,
        FieldOut::TimestampOut(_, n) => n <= len,
        FieldOut::SkippedOut(n) => n <= len,
        FieldOut::FaultOut(_) => true,
    }
}

fn scan_dig_end(v: &Vec<char>, i: usize) -> (r: usize)
    requires
        i <= v@.len(),
    ensures
        r == spec_dig_end(v@, i as int),
        i <= r <= v@.len(),
{
    let mut j: usize = i;
    while j < v.len() && ('0' as u32) <= (v[j] as u32) && (v[j] as u32) <= ('9' as u32)
        invariant
            i <= j <= v@.len(),
            spec_dig_end(v@, i as int) == spec_dig_end(v@, j as int),
        decreases v@.len() - j,
    {
        proof {
            assert(spec_dig_end(v@, j as int) == spec_dig_end(v@, j + 1 as int));
        }
        j = j + 1;
    }
    j
}

fn skip_number(v: &Vec<char>, k: usize) -> (r: Option<usize>)
    requires
        k <= v@.len(),
    ensures
        match r {
            Some(q) => spec_skip_number(v@, k as int) == Some(q as int) && q <= v@.len(),
            None => spec_skip_number(v@, k as int) is None,
        },
{
    let k1: usize = if k < v.len() && v[k] == '-' {
        k + 1
    } else {
        k
    };
    if !(k1 < v.len() && ('0' as u32) <= (v[k1] as u32) && (v[k1] as u32) <= ('9' as u32)) {
        return None;
    }
    let ie = scan_dig_end(v, k1);
    if v[k1] == '0' && ie > k1 + 1 {
        return None;
    }
    let dotted = ie < v.len() && v[ie] == '.';
    let fe: usize = if dotted {
        scan_dig_end(v, ie + 1)
    } else {
        ie
    };
    if dotted && fe == ie + 1 {
        return None;
    }
    if fe < v.len() && (v[fe] == 'e' || v[fe] == 'E') {
        let x1: usize = if fe + 1 < v.len() && (v[fe + 1] == '+' || v[fe + 1] == '-') {
            fe + 2
        } else {
            fe + 1
        };
        let xe = scan_dig_end(v, x1);
        if xe > x1 {
            Some(xe)
        } else {
            None
        }
    } else {
        Some(fe)
    }
}

fn skip_value(v: &Vec<char>, k: usize, d: usize) -> (r: Option<usize>)
    requires
        k <= v@.len(),
    ensures
        match r {
            Some(q) => spec_skip_value(v@, k as int, d as nat) == Some(q as int) && q
                <= v@.len(),
            None => spec_skip_value(v@, k as int, d as nat) is None,
        },
    decreases d,
{
    if d == 0 || k >= v.len() {
        return None;
    }
    let c = v[k];
    if c == '"' {
        return match scan_str_end(v, k + 1) {
            Some(e) => Some(e + 1),
            None => None,
        };
    }
    if c == '-' || (('0' as u32) <= (c as u32) && (c as u32) <= ('9' as u32)) {
        return skip_number(v, k);
    }
    if c == 't' {
        if v.len() - k >= 4 && range_eq_str(v, k, k + 4, "true") {
            return Some(k + 4);
        }
        return None;
    }
    if c == 'f' {
        if v.len() - k >= 5 && range_eq_str(v, k, k + 5, "false") {
            return Some(k + 5);
        }
        return None;
    }
    if c == 'n' {
        if v.len() - k >= 4 && range_eq_str(v, k, k + 4, "null") {
            return Some(k + 4);
        }
        return None;
    }
    if c == '{' {
        return skip_object_tail(v, k + 1, true, d - 1);
    }
    if c == '[' {
        return skip_array_tail(v, k + 1, true, d - 1);
    }
    None
}

fn skip_object_tail(v: &Vec<char>, k: usize, first: bool, d: usize) -> (r: Option<usize>)
    requires
        k <= v@.len(),
    ensures
        match r {
            Some(q) => spec_skip_object_tail(v@, k as int, first, d as nat) == Some(q as int)
                && q <= v@.len(),
            None => spec_skip_object_tail(v@, k as int, first, d as nat) is None,
        },
    decreases d,
{
    if d == 0 {
        return None;
    }
    let m = scan_ws(v, k);
    if first && m < v.len() && v[m] == '}' {
        return Some(m + 1);
    }
    if !(m < v.len() && v[m] == '"') {
        return None;
    }
    let ke = match scan_str_end(v, m + 1) {
        Some(ke) => ke,
        None => {
            return None;
        },
    };
    let j = scan_ws(v, ke + 1);
    if !(j < v.len() && v[j] == ':') {
        return None;
    }
    let p = scan_ws(v, j + 1);
    let q = match skip_value(v, p, d - 1) {
        Some(q) => q,
        None => {
            return None;
        },
    };
    let m2 = scan_ws(v, q);
    if m2 < v.len() && v[m2] == '}' {
        return Some(m2 + 1);
    }
    if m2 < v.len() && v[m2] == ',' {
        return skip_object_tail(v, m2 + 1, false, d - 1);
    }
    None
}

fn skip_array_tail(v: &Vec<char>, k: usize, first: bool, d: usize) -> (r: Option<usize>)
    requires
        k <= v@.len(),
    ensures
        match r {
            Some(q) => spec_skip_array_tail(v@, k as int, first, d as nat) == Some(q as int)
                && q <= v@.len(),
            None => spec_skip_array_tail(v@, k as int, first, d as nat) is None,
        },
    decreases d,
{
    if d == 0 {
        return None;
    }
    let m = scan_ws(v, k);
    if first && m < v.len() && v[m] == ']' {
        return Some(m + 1);
    }
    let q = match skip_value(v, m, d - 1) {
        Some(q) => q,
        None => {
            return None;
        },
    };
    let m2 = scan_ws(v, q);
    if m2 < v.len() && v[m2] == ']' {
        return Some(m2 + 1);
    }
    if m2 < v.len() && v[m2] == ',' {
        return skip_array_tail(v, m2 + 1, false, d - 1);
    }
    None
}

fn nonstring_value_start(c: char) -> (b: bool)
    ensures
        b == is_nonstring_value_start(c),
{
    (('0' as u32) <= (c as u32) && (c as u32) <= ('9' as u32)) || c == '-' || c == 't'
        || c == 'f' || c == 'n' || c == '{' || c == '['
}

fn parse_reason_val(v: &Vec<char>, k: usize) -> (r: FieldOut)
    requires
        k <= v@.len(),
    ensures
        field_out_matches(r, spec_parse_reason_val(v@, k as int)),
        field_out_in_range(r, v@.len() as int),
{
    if k < v.len() && v[k] == '"' {
        match scan_str_end(v, k + 1) {
            None => FieldOut::FaultOut(ParseError::Malformed),
            Some(ce) => {
                let content = unescape_range(v, k + 1, ce);
                proof {
                    assert(content@.subrange(0, content@.len() as int) =~= content@);
                }
                match reason_of_range(&content, 0, content.len()) {
                    Some(r) => FieldOut::ReasonOut(r, ce + 1),
                    None => {
                        let raw = string_of_chars(&content);
                        FieldOut::FaultOut(ParseError::UnknownReason(raw))
                    },
                }
            },
        }
    } else if k < v.len() && nonstring_value_start(v[k]) {
        FieldOut::FaultOut(ParseError::TypeMismatch)
    } else {
        FieldOut::FaultOut(ParseError::Malformed)
    }
}

fn parse_ts_val(v: &Vec<char>, k: usize) -> (r: FieldOut)
    requires
        k <= v@.len(),
    ensures
        field_out_matches(r, spec_parse_ts_val(v@, k as int)),
        field_out_in_range(r, v@.len() as int),
{
    if k >= v.len() {
        return FieldOut::FaultOut(ParseError::Malformed);
    }
    let c = v[k];
    if c == '"' || c == 't' || c == 'f' || c == '{' || c == '[' || c == '-' {
        return FieldOut::FaultOut(ParseError::TypeMismatch);
    }
    if c == 'n' {
        if v.len() - k >= 4 && range_eq_str(v, k, k + 4, "null") {
            return FieldOut::TimestampOut(None, k + 4);
        }
        return FieldOut::FaultOut(ParseError::Malformed);
    }
    if !(('0' as u32) <= (c as u32) && (c as u32) <= ('9' as u32)) {
        return FieldOut::FaultOut(ParseError::Malformed);
    }
    let e = scan_dig_end(v, k);
    if c == '0' && e > k + 1 {
        return FieldOut::FaultOut(ParseError::Malformed);
    }
    if e < v.len() && (v[e] == '.' || v[e] == 'e' || v[e] == 'E') {
        return FieldOut::FaultOut(ParseError::TypeMismatch);
    }
    proof {
        assert forall|t: int| k <= t < e implies is_dec_digit(v@[t]) by {
            lemma_dig_end_digits(v@, k as int, t);
        }
    }
    let mut acc: u64 = 0;
    let mut over: bool = false;
    let mut j: usize = k;
    while j < e
        invariant
            k <= j <= e <= v@.len(),
            e == spec_dig_end(v@, k as int),
            forall|t: int| k <= t < e ==> is_dec_digit(v@[t]),
            !over ==> acc as int == spec_digits_val(v@.subrange(k as int, j as int)),
            over ==> spec_digits_val(v@.subrange(k as int, j as int)) > u64::MAX,
        decreases e - j,
    {
        let d: u64 = ((v[j] as u32) - ('0' as u32)) as u64;
        proof {
            lemma_digits_val_step(v@, k as int, j as int);
        }
        if over {
        } else if acc > (u64::MAX - d) / 10 {
            proof {
                lemma_fundamental_div_mod((u64::MAX - d) as int, 10);
            }
            over = true;
        } else {
            proof {
                lemma_fundamental_div_mod((u64::MAX - d) as int, 10);
            }
            acc = acc * 10 + d;
        }
        j = j + 1;
    }
    if over {
        return FieldOut::FaultOut(ParseError::TypeMismatch);
    }
    FieldOut::TimestampOut(Some(acc), e)
}

fn parse_pair(v: &Vec<char>, i: usize) -> (r: FieldOut)
    requires
        i <= v@.len(),
    ensures
        field_out_matches(r, spec_parse_pair(v@, i as int)),
        field_out_in_range(r, v@.len() as int),
{
    if !(i < v.len() && v[i] == '"') {
        return FieldOut::FaultOut(ParseError::Malformed);
    }
    let ke = match scan_str_end(v, i + 1) {
        None => {
            return FieldOut::FaultOut(ParseError::Malformed);
        },
        Some(ke) => ke,
    };
    let j = scan_ws(v, ke + 1);
    if !(j < v.len() && v[j] == ':') {
        return FieldOut::FaultOut(ParseError::Malformed);
    }
    let k = scan_ws(v, j + 1);
    let key = unescape_range(v, i + 1, ke);
    proof {
        assert(key@.subrange(0, key@.len() as int) =~= key@);
    }
    if range_eq_str(&key, 0, key.len(), "reason") {
        parse_reason_val(v, k)
    } else if range_eq_str(&key, 0, key.len(), "timestamp") {
        parse_ts_val(v, k)
    } else {
        match skip_value(v, k, v.len()) {
            Some(q) => FieldOut::SkippedOut(q),
            None => FieldOut::FaultOut(ParseError::Malformed),
        }
    }
}

fn finish_body(v: &Vec<char>, i: usize, reason: Option<ErrorReason>, stamp: Option<u64>) -> (r:
    Result<ErrorBody, ParseError>)
    requires
        i <= v@.len(),
    ensures
        parse_outcome_matches(r, spec_finish(v@, i as int, reason, stamp)),
{
    match reason {
        None => Err(ParseError::MissingField("reason".to_owned())),
        Some(rsn) => {
            let m = scan_ws(v, i);
            if m == v.len() {
                Ok(ErrorBody { reason: rsn, timestamp: stamp })
            } else {
                Err(ParseError::Malformed)
            }
        },
    }
}

fn members_tail(
    v: &Vec<char>,
    i: usize,
    reason: Option<ErrorReason>,
    stamp: Option<u64>,
    stamp_seen: bool,
    d: usize,
) -> (r: Result<ErrorBody, ParseError>)
    requires
        i <= v@.len(),
    ensures
        parse_outcome_matches(
            r,
            spec_members_tail(v@, i as int, reason, stamp, stamp_seen, d as nat),
        ),
{
    let mut ii = i;
    let mut rsn = reason;
    let mut stp = stamp;
    let mut seen = stamp_seen;
    let mut dd = d;
    loop
        invariant
            ii <= v@.len(),
            spec_members_tail(v@, i as int, reason, stamp, stamp_seen, d as nat)
                == spec_members_tail(v@, ii as int, rsn, stp, seen, dd as nat),
        decreases dd,
    {
        let m = scan_ws(v, ii);
        if m < v.len() && v[m] == '}' {
            return finish_body(v, m + 1, rsn, stp);
        }
        if !(dd > 0 && m < v.len() && v[m] == ',') {
            return Err(ParseError::Malformed);
        }
        let p = scan_ws(v, m + 1);
        match parse_pair(v, p) {
            FieldOut::FaultOut(e) => {
                return Err(e);
            },
            FieldOut::ReasonOut(r2, next) => {
                if rsn.is_some() {
                    return Err(ParseError::Malformed);
                }
                rsn = Some(r2);
                ii = next;
            },
            FieldOut::TimestampOut(t2, next) => {
                if seen {
                    return Err(ParseError::Malformed);
                }
                stp = t2;
                seen = true;
                ii = next;
            },
            FieldOut::SkippedOut(next) => {
                ii = next;
            },
        }
        dd = dd - 1;
    }
}

impl ErrorBody {
    /// Parses a raw error body into its typed form, or reports the exact
    /// fault. The outcome is `spec_parse_body` of the text and nothing
    /// else: pure, deterministic, and total over all inputs.
    pub fn parse(s: &str) -> (r: Result<ErrorBody, ParseError>)
        ensures
            parse_outcome_matches(r, spec_parse_body(s@)),
    {
        let v = chars_of(s);
        let i0 = scan_ws(&v, 0);
        if !(i0 < v.len() && v[i0] == '{') {
            return Err(ParseError::Malformed);
        }
        let i1 = scan_ws(&v, i0 + 1);
        if i1 < v.len() && v[i1] == '}' {
            return finish_body(&v, i1 + 1, None, None);
        }
        match parse_pair(&v, i1) {
            FieldOut::FaultOut(e) => Err(e),
            FieldOut::ReasonOut(rsn, next) => members_tail(&v, next, Some(rsn), None, false, v.len()),
            FieldOut::TimestampOut(t, next) => members_tail(&v, next, None, t, true, v.len()),
            FieldOut::SkippedOut(next) => members_tail(&v, next, None, None, false, v.len()),
        }
    }
}

/// Parsing has no hidden state: any two parses of the same body text yield
/// structurally equal outcomes, successes field for field and faults
/// payload for payload.
pub proof fn lemma_parse_deterministic(
    text: Seq<char>,
    r1: Result<ErrorBody, ParseError>,
    r2: Result<ErrorBody, ParseError>,
)
    requires
        parse_outcome_matches(r1, spec_parse_body(text)),
        parse_outcome_matches(r2, spec_parse_body(text)),
    ensures
        match (r1, r2) {
            (Result::Ok(b1), Result::Ok(b2)) => b1 == b2,
            (Result::Err(e1), Result::Err(e2)) => e1@ == e2@,
            _ => false,
        },
{
}

} // verus!
