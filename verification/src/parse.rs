//! Parsing primitives for the newline-delimited JSON chunks the model
//! server streams back.
//!
//! Each `sp_*` spec function defines one piece of the accepted grammar as a
//! function from a character sequence and a position to the parsed value
//! and the position after it (`None` where the text does not match).  Each
//! executable parser is proved to return exactly what its spec function
//! says.  The grammar covers what the server's chunk objects are made of:
//! strings with the usual JSON escapes, unsigned decimal numbers that fit
//! in 64 bits, arrays of such numbers, `true`/`false`/`null`, and
//! interspersed whitespace.

use vstd::prelude::*;

use crate::text::{dec_val, hex_val, is_dec_digit, is_hex_digit};

verus! {

/// JSON whitespace.
pub open spec fn is_ws(c: char) -> bool {
    c == ' ' || c == '\n' || c == '\r' || c == '\t'
}

/// The first position at or after `i` that does not hold whitespace.
pub open spec fn sp_ws(s: Seq<char>, i: int) -> int
    decreases s.len() - i,
{
    if 0 <= i < s.len() && is_ws(s[i]) {
        sp_ws(s, i + 1)
    } else {
        i
    }
}

/// The body of a string value after the opening quote: the decoded
/// characters up to the closing quote, handling the JSON escapes.  Raw
/// control characters and `\u` escapes of surrogate halves are refused.
pub open spec fn sp_string_body(s: Seq<char>, i: int, acc: Seq<char>) -> Option<(Seq<char>, int)>
    decreases s.len() - i,
{
    if !(0 <= i < s.len()) {
        None
    } else if s[i] == '"' {
        Some((acc, i + 1))
    } else if s[i] == '\\' {
        if i + 1 >= s.len() {
            None
        } else {
            let e = s[i + 1];
            if e == '"' {
                sp_string_body(s, i + 2, acc.push('"'))
            } else if e == '\\' {
                sp_string_body(s, i + 2, acc.push('\\'))
            } else if e == '/' {
                sp_string_body(s, i + 2, acc.push('/'))
            } else if e == 'b' {
                sp_string_body(s, i + 2, acc.push('\u{8}'))
            } else if e == 'f' {
                sp_string_body(s, i + 2, acc.push('\u{c}'))
            } else if e == 'n' {
                sp_string_body(s, i + 2, acc.push('\n'))
            } else if e == 'r' {
                sp_string_body(s, i + 2, acc.push('\r'))
            } else if e == 't' {
                sp_string_body(s, i + 2, acc.push('\t'))
            } else if e == 'u' {
                if i + 6 <= s.len() && is_hex_digit(s[i + 2]) && is_hex_digit(s[i + 3])
                    && is_hex_digit(s[i + 4]) && is_hex_digit(s[i + 5]) {
                    let h = (hex_val(s[i + 2]) * 4096 + hex_val(s[i + 3]) * 256 + hex_val(
                        s[i + 4],
                    ) * 16 + hex_val(s[i + 5])) as u32;
                    if 0xD800 <= h <= 0xDFFF {
                        None
                    } else {
                        sp_string_body(s, i + 6, acc.push(h as char))
                    }
                } else {
                    None
                }
            } else {
                None
            }
        }
    } else if (s[i] as u32) < 0x20 {
        None
    } else {
        sp_string_body(s, i + 1, acc.push(s[i]))
    }
}

/// A string value starting at `i`: opening quote, body, closing quote.
pub open spec fn sp_string(s: Seq<char>, i: int) -> Option<(Seq<char>, int)> {
    if 0 <= i < s.len() && s[i] == '"' {
        sp_string_body(s, i + 1, Seq::empty())
    } else {
        None
    }
}

/// The run of decimal digits from `i` on, folded onto `acc`; more than
/// `u64::MAX` is refused.
pub open spec fn sp_u64_digits(s: Seq<char>, i: int, acc: u64) -> Option<(u64, int)>
    decreases s.len() - i,
{
    if 0 <= i < s.len() && is_dec_digit(s[i]) {
        if acc * 10 + dec_val(s[i]) <= u64::MAX {
            sp_u64_digits(s, i + 1, (acc * 10 + dec_val(s[i])) as u64)
        } else {
            None
        }
    } else {
        Some((acc, i))
    }
}

/// An unsigned decimal number starting at `i`.  As in JSON, a leading zero
/// admits no further digits.
pub open spec fn sp_u64(s: Seq<char>, i: int) -> Option<(u64, int)> {
    if !(0 <= i < s.len()) || !is_dec_digit(s[i]) {
        None
    } else if s[i] == '0' {
        if i + 1 < s.len() && is_dec_digit(s[i + 1]) {
            None
        } else {
            Some((0, i + 1))
        }
    } else {
        sp_u64_digits(s, i, 0)
    }
}

/// The items of a non-empty number array from `i` on, pushed onto `acc`,
/// up to and including the closing bracket.
pub open spec fn sp_u64_items(s: Seq<char>, i: int, acc: Seq<u64>) -> Option<(Seq<u64>, int)>
    decreases s.len() - i,
{
    let i1 = sp_ws(s, i);
    match sp_u64(s, i1) {
        None => None,
        Some((n, j)) => {
            let j1 = sp_ws(s, j);
            if 0 <= j1 < s.len() && s[j1] == ']' {
                Some((acc.push(n), j1 + 1))
                // the bound i < j1 + 1 always holds and keeps the
                // recursion visibly descending
            } else if 0 <= j1 < s.len() && s[j1] == ',' && i < j1 + 1 {
                sp_u64_items(s, j1 + 1, acc.push(n))
            } else {
                None
            }
        },
    }
}

/// A JSON array of unsigned numbers starting at `i`.
pub open spec fn sp_u64_array(s: Seq<char>, i: int) -> Option<(Seq<u64>, int)> {
    if 0 <= i < s.len() && s[i] == '[' {
        let i1 = sp_ws(s, i + 1);
        if 0 <= i1 < s.len() && s[i1] == ']' {
            Some((Seq::empty(), i1 + 1))
        } else {
            sp_u64_items(s, i + 1, Seq::empty())
        }
    } else {
        None
    }
}

/// The literal `true` at `i`.
pub open spec fn lit_true_at(s: Seq<char>, i: int) -> bool {
    0 <= i && i + 4 <= s.len() && s[i] == 't' && s[i + 1] == 'r' && s[i + 2] == 'u' && s[i + 3]
        == 'e'
}

/// The literal `false` at `i`.
pub open spec fn lit_false_at(s: Seq<char>, i: int) -> bool {
    0 <= i && i + 5 <= s.len() && s[i] == 'f' && s[i + 1] == 'a' && s[i + 2] == 'l' && s[i + 3]
        == 's' && s[i + 4] == 'e'
}

/// The literal `null` at `i`.
pub open spec fn lit_null_at(s: Seq<char>, i: int) -> bool {
    0 <= i && i + 4 <= s.len() && s[i] == 'n' && s[i + 1] == 'u' && s[i + 2] == 'l' && s[i + 3]
        == 'l'
}

/// A value of any form the grammar knows, skipped over: the position after
/// it.  Used for object members the chunk shapes do not name.
pub open spec fn sp_skip_value(s: Seq<char>, i: int) -> Option<int> {
    if 0 <= i < s.len() && s[i] == '"' {
        match sp_string(s, i) {
            Some((w, j)) => Some(j),
            None => None,
        }
    } else if lit_true_at(s, i) {
        Some(i + 4)
    } else if lit_false_at(s, i) {
        Some(i + 5)
    } else if lit_null_at(s, i) {
        Some(i + 4)
    } else if 0 <= i < s.len() && s[i] == '[' {
        match sp_u64_array(s, i) {
            Some((a, j)) => Some(j),
            None => None,
        }
    } else {
        match sp_u64(s, i) {
            Some((n, j)) => Some(j),
            None => None,
        }
    }
}

/// Skips whitespace.
pub fn skip_ws(v: &Vec<char>, i: usize) -> (j: usize)
    requires
        i <= v@.len(),
    ensures
        j as int == sp_ws(v@, i as int),
        i <= j <= v@.len(),
{
    let mut j = i;
    while j < v.len() && (v[j] == ' ' || v[j] == '\n' || v[j] == '\r' || v[j] == '\t')
        invariant
            i <= j <= v@.len(),
            sp_ws(v@, i as int) == sp_ws(v@, j as int),
        decreases v@.len() - j,
    {
        j = j + 1;
    }
    j
}

/// Parses a string value.
pub fn parse_string(v: &Vec<char>, i: usize) -> (r: Option<(Vec<char>, usize)>)
    requires
        i <= v@.len(),
    ensures
        match r {
            Some(p) => {
                &&& sp_string(v@, i as int) == Some((p.0@, p.1 as int))
                &&& i < p.1 <= v@.len()
            },
            None => sp_string(v@, i as int) is None,
        },
{
    if i >= v.len() || v[i] != '"' {
        return None;
    }
    let mut j = i + 1;
    let mut acc: Vec<char> = Vec::new();
    while j < v.len()
        invariant
            i + 1 <= j <= v@.len(),
            sp_string(v@, i as int) == sp_string_body(v@, j as int, acc@),
        decreases v@.len() - j,
    {
        let c = v[j];
        if c == '"' {
            return Some((acc, j + 1));
        } else if c == '\\' {
            if j + 1 >= v.len() {
                return None;
            }
            let e = v[j + 1];
            if e == '"' {
                acc.push('"');
                j = j + 2;
            } else if e == '\\' {
                acc.push('\\');
                j = j + 2;
            } else if e == '/' {
                acc.push('/');
                j = j + 2;
            } else if e == 'b' {
                acc.push('\u{8}');
                j = j + 2;
            } else if e == 'f' {
                acc.push('\u{c}');
                j = j + 2;
            } else if e == 'n' {
                acc.push('\n');
                j = j + 2;
            } else if e == 'r' {
                acc.push('\r');
                j = j + 2;
            } else if e == 't' {
                acc.push('\t');
                j = j + 2;
            } else if e == 'u' {
                if v.len() < 6 || j > v.len() - 6 {
                    return None;
                }
                let h2 = hex_digit_value(v[j + 2]);
                let h3 = hex_digit_value(v[j + 3]);
                let h4 = hex_digit_value(v[j + 4]);
                let h5 = hex_digit_value(v[j + 5]);
                match (h2, h3, h4, h5) {
                    (Some(a), Some(b), Some(c2), Some(d)) => {
                        let h: u32 = a * 4096 + b * 256 + c2 * 16 + d;
                        if 0xD800 <= h && h <= 0xDFFF {
                            return None;
                        }
                        acc.push(scalar_to_char(h));
                        j = j + 6;
                    },
                    _ => {
                        return None;
                    },
                }
            } else {
                return None;
            }
        } else if (c as u32) < 0x20 {
            return None;
        } else {
            acc.push(c);
            j = j + 1;
        }
    }
    None
}

/// Whether position `j` holds a decimal digit.
fn is_digit_at(v: &Vec<char>, j: usize) -> (b: bool)
    ensures
        b == (j < v@.len() && is_dec_digit(v@[j as int])),
{
    if j < v.len() {
        let c = v[j] as u32;
        48 <= c && c <= 57
    } else {
        false
    }
}

/// The value of a hexadecimal digit character, if it is one.
fn hex_digit_value(c: char) -> (r: Option<u32>)
    ensures
        match r {
            Some(h) => is_hex_digit(c) && h == hex_val(c) && h < 16,
            None => !is_hex_digit(c),
        },
{
    let u = c as u32;
    if 48 <= u && u <= 57 {
        Some(u - 48)
    } else if 97 <= u && u <= 102 {
        Some(u - 87)
    } else if 65 <= u && u <= 70 {
        Some(u - 55)
    } else {
        None
    }
}

/// Relies on `char::from_u32`: every code point outside the surrogate
/// range and below `0x110000` is a Unicode scalar value, for which it
/// returns the corresponding character.
#[verifier::external_body]
fn scalar_to_char(v: u32) -> (c: char)
    requires
        v < 0xD800 || (0xE000 <= v && v < 0x110000),
    ensures
        c == v as char,
{
    char::from_u32(v).unwrap()
}

/// Parses an unsigned decimal number.
pub fn parse_u64(v: &Vec<char>, i: usize) -> (r: Option<(u64, usize)>)
    requires
        i <= v@.len(),
    ensures
        match r {
            Some(p) => {
                &&& sp_u64(v@, i as int) == Some((p.0, p.1 as int))
                &&& i < p.1 <= v@.len()
            },
            None => sp_u64(v@, i as int) is None,
        },
{
    let n = v.len();
    if i >= n || !is_digit_at(v, i) {
        return None;
    }
    if v[i] == '0' {
        if is_digit_at(v, i + 1) {
            return None;
        }
        return Some((0, i + 1));
    }
    let mut j = i;
    let mut acc: u64 = 0;
    while is_digit_at(v, j)
        invariant
            n == v@.len(),
            i <= j <= n,
            j == i ==> i < n && is_dec_digit(v@[i as int]),
            sp_u64(v@, i as int) == sp_u64_digits(v@, j as int, acc),
        decreases v@.len() - j,
    {
        let d = (v[j] as u32 - 48) as u64;
        assert(d == dec_val(v@[j as int]));
        match acc.checked_mul(10) {
            Some(m) => match m.checked_add(d) {
                Some(s) => {
                    acc = s;
                    j = j + 1;
                },
                None => {
                    assert(sp_u64_digits(v@, j as int, acc) is None);
                    return None;
                },
            },
            None => {
                assert(sp_u64_digits(v@, j as int, acc) is None);
                return None;
            },
        }
    }
    assert(sp_u64_digits(v@, j as int, acc) == Some((acc, j as int)));
    Some((acc, j))
}

/// Parses an array of unsigned numbers.
pub fn parse_u64_array(v: &Vec<char>, i: usize) -> (r: Option<(Vec<u64>, usize)>)
    requires
        i <= v@.len(),
    ensures
        match r {
            Some(p) => {
                &&& sp_u64_array(v@, i as int) == Some((p.0@, p.1 as int))
                &&& i < p.1 <= v@.len()
            },
            None => sp_u64_array(v@, i as int) is None,
        },
{
    if i >= v.len() || v[i] != '[' {
        return None;
    }
    let i1 = skip_ws(v, i + 1);
    if i1 < v.len() && v[i1] == ']' {
        let empty: Vec<u64> = Vec::new();
        assert(empty@ =~= Seq::<u64>::empty());
        return Some((empty, i1 + 1));
    }
    let mut k = i + 1;
    let mut acc: Vec<u64> = Vec::new();
    loop
        invariant
            i + 1 <= k <= v@.len(),
            sp_u64_array(v@, i as int) == sp_u64_items(v@, k as int, acc@),
        decreases v@.len() - k,
    {
        let k1 = skip_ws(v, k);
        match parse_u64(v, k1) {
            None => {
                return None;
            },
            Some((n, j)) => {
                let j1 = skip_ws(v, j);
                acc.push(n);
                if j1 < v.len() && v[j1] == ']' {
                    return Some((acc, j1 + 1));
                } else if j1 < v.len() && v[j1] == ',' {
                    k = j1 + 1;
                } else {
                    return None;
                }
            },
        }
    }
}

/// Checks for one of the three literal words at `i`; returns the position
/// after it.
pub fn parse_lit_true(v: &Vec<char>, i: usize) -> (r: Option<usize>)
    requires
        i <= v@.len(),
    ensures
        match r {
            Some(j) => lit_true_at(v@, i as int) && j == i + 4 && j <= v@.len(),
            None => !lit_true_at(v@, i as int),
        },
{
    let n = v.len();
    if n >= 4 && i <= n - 4 && v[i] == 't' && v[i + 1] == 'r' && v[i + 2] == 'u' && v[i + 3]
        == 'e' {
        Some(i + 4)
    } else {
        None
    }
}

/// See [`parse_lit_true`].
pub fn parse_lit_false(v: &Vec<char>, i: usize) -> (r: Option<usize>)
    requires
        i <= v@.len(),
    ensures
        match r {
            Some(j) => lit_false_at(v@, i as int) && j == i + 5 && j <= v@.len(),
            None => !lit_false_at(v@, i as int),
        },
{
    let n = v.len();
    if n >= 5 && i <= n - 5 && v[i] == 'f' && v[i + 1] == 'a' && v[i + 2] == 'l' && v[i + 3]
        == 's' && v[i + 4] == 'e' {
        Some(i + 5)
    } else {
        None
    }
}

/// See [`parse_lit_true`].
pub fn parse_lit_null(v: &Vec<char>, i: usize) -> (r: Option<usize>)
    requires
        i <= v@.len(),
    ensures
        match r {
            Some(j) => lit_null_at(v@, i as int) && j == i + 4 && j <= v@.len(),
            None => !lit_null_at(v@, i as int),
        },
{
    let n = v.len();
    if n >= 4 && i <= n - 4 && v[i] == 'n' && v[i + 1] == 'u' && v[i + 2] == 'l' && v[i + 3]
        == 'l' {
        Some(i + 4)
    } else {
        None
    }
}

/// Skips one value of any accepted form.
pub fn parse_skip_value(v: &Vec<char>, i: usize) -> (r: Option<usize>)
    requires
        i <= v@.len(),
    ensures
        match r {
            Some(j) => sp_skip_value(v@, i as int) == Some(j as int) && i < j <= v@.len(),
            None => sp_skip_value(v@, i as int) is None,
        },
{
    if i < v.len() && v[i] == '"' {
        match parse_string(v, i) {
            Some((w, j)) => Some(j),
            None => None,
        }
    } else if let Some(j) = parse_lit_true(v, i) {
        Some(j)
    } else if let Some(j) = parse_lit_false(v, i) {
        Some(j)
    } else if let Some(j) = parse_lit_null(v, i) {
        Some(j)
    } else if i < v.len() && v[i] == '[' {
        match parse_u64_array(v, i) {
            Some((a, j)) => Some(j),
            None => None,
        }
    } else {
        match parse_u64(v, i) {
            Some((n, j)) => Some(j),
            None => None,
        }
    }
}

} // verus!
