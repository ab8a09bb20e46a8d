//! Decoding wire text (UTF-8 bytes) back into a JSON value.
//!
//! The decoder accepts what the encoder in `json_enc` emits, plus
//! insignificant whitespace between tokens, the standard short
//! escapes (`\" \\ \/ \b \f \n \r \t`), and `\uXXXX` escapes
//! including surrogate pairs.  One deliberate restriction, surfacing
//! as a malformed document (which the connection loop skips): numbers
//! must be plain integers fitting `i64` — fractional and exponent
//! forms are refused, as the verified library holds no floating
//! point.  Nesting deeper than `MAX_JSON_DEPTH` is likewise refused
//! to keep the decoder's recursion bounded.
//!
//! `spec_parse_value` is the byte-exact statement of the grammar;
//! `json_from_bytes` returns exactly what it says.

use crate::json::{json_view_entries, json_view_list, Json, JsonV, MAX_JSON_DEPTH};
use crate::strutil::string_from_utf8;
use vstd::prelude::*;
use vstd::utf8::{decode_utf8, valid_utf8};

verus! {

broadcast use vstd::std_specs::vec::group_vec_axioms;

pub open spec fn is_ws_byte(b: u8) -> bool {
    b == 0x20 || b == 0x09 || b == 0x0a || b == 0x0d
}

pub open spec fn is_digit_byte(b: u8) -> bool {
    0x30 <= b <= 0x39
}

/// First position at or after `pos` holding no whitespace.
pub open spec fn spec_skip_ws(s: Seq<u8>, pos: int) -> int
    decreases s.len() - pos,
{
    if 0 <= pos < s.len() && is_ws_byte(s[pos]) {
        spec_skip_ws(s, pos + 1)
    } else {
        pos
    }
}

/// Value of a hexadecimal digit byte, or 16 for any other byte.
pub open spec fn spec_hex_val(b: u8) -> nat {
    if 0x30 <= b <= 0x39 {
        (b - 0x30) as nat
    } else if 0x61 <= b <= 0x66 {
        (b - 0x61 + 10) as nat
    } else if 0x41 <= b <= 0x46 {
        (b - 0x41 + 10) as nat
    } else {
        16
    }
}

pub open spec fn is_hex_byte(b: u8) -> bool {
    spec_hex_val(b) < 16
}

/// Value of the four hex digits at `pos`.
pub open spec fn spec_hex4(s: Seq<u8>, pos: int) -> nat
    recommends
        0 <= pos,
        pos + 4 <= s.len(),
{
    spec_hex_val(s[pos]) * 4096 + spec_hex_val(s[pos + 1]) * 256 + spec_hex_val(s[pos + 2]) * 16
        + spec_hex_val(s[pos + 3])
}

/// The UTF-8 bytes of the single Unicode scalar `v`.
pub open spec fn spec_scalar_utf8(v: nat) -> Seq<u8>
    recommends
        v < 0x110000,
{
    if v < 0x80 {
        seq![v as u8]
    } else if v < 0x800 {
        seq![(0xc0 + v / 64) as u8, (0x80 + v % 64) as u8]
    } else if v < 0x10000 {
        seq![(0xe0 + v / 4096) as u8, (0x80 + (v / 64) % 64) as u8, (0x80 + v % 64) as u8]
    } else {
        seq![
            (0xf0 + v / 262144) as u8,
            (0x80 + (v / 4096) % 64) as u8,
            (0x80 + (v / 64) % 64) as u8,
            (0x80 + v % 64) as u8,
        ]
    }
}

/// The byte a short escape stands for, or 0x100 when the byte after the
/// backslash is no short escape.
pub open spec fn spec_short_escape(e: u8) -> int {
    if e == 0x22 {
        0x22
    } else if e == 0x5c {
        0x5c
    } else if e == 0x2f {
        0x2f
    } else if e == 0x62 {
        0x08
    } else if e == 0x66 {
        0x0c
    } else if e == 0x6e {
        0x0a
    } else if e == 0x72 {
        0x0d
    } else if e == 0x74 {
        0x09
    } else {
        0x100
    }
}

/// Reads a string body starting just after the opening quote: the
/// unescaped UTF-8 bytes, and the position just past the closing quote.
pub open spec fn spec_parse_str_bytes(s: Seq<u8>, pos: int) -> Option<(Seq<u8>, int)>
    decreases s.len() - pos,
{
    if !(0 <= pos < s.len()) {
        None
    } else {
        let b = s[pos];
        if b == 0x22 {
            Some((Seq::empty(), pos + 1))
        } else if b == 0x5c {
            if pos + 2 > s.len() {
                None
            } else {
                let e = s[pos + 1];
                if spec_short_escape(e) < 0x100 {
                    match spec_parse_str_bytes(s, pos + 2) {
                        None => None,
                        Some((rest, end)) => Some(
                            (seq![spec_short_escape(e) as u8] + rest, end),
                        ),
                    }
                } else if e == 0x75 {
                    if pos + 6 > s.len() {
                        None
                    } else if is_hex_byte(s[pos + 2]) && is_hex_byte(s[pos + 3]) && is_hex_byte(
                        s[pos + 4],
                    ) && is_hex_byte(s[pos + 5]) {
                        let v = spec_hex4(s, pos + 2);
                        if v < 0xd800 || 0xe000 <= v {
                            match spec_parse_str_bytes(s, pos + 6) {
                                None => None,
                                Some((rest, end)) => Some((spec_scalar_utf8(v) + rest, end)),
                            }
                        } else if v < 0xdc00 {
                            // a high surrogate must pair with a low one
                            if pos + 12 > s.len() {
                                None
                            } else if s[pos + 6] == 0x5c && s[pos + 7] == 0x75 && is_hex_byte(
                                s[pos + 8],
                            ) && is_hex_byte(s[pos + 9]) && is_hex_byte(s[pos + 10])
                                && is_hex_byte(s[pos + 11]) {
                                let w = spec_hex4(s, pos + 8);
                                if 0xdc00 <= w < 0xe000 {
                                    let c = 0x10000 + (v - 0xd800) * 0x400 + (w - 0xdc00);
                                    match spec_parse_str_bytes(s, pos + 12) {
                                        None => None,
                                        Some((rest, end)) => Some(
                                            (spec_scalar_utf8(c as nat) + rest, end),
                                        ),
                                    }
                                } else {
                                    None
                                }
                            } else {
                                None
                            }
                        } else {
                            // a lone low surrogate names no scalar
                            None
                        }
                    } else {
                        None
                    }
                } else {
                    None
                }
            }
        } else if b < 0x20 {
            None
        } else {
            match spec_parse_str_bytes(s, pos + 1) {
                None => None,
                Some((rest, end)) => Some((seq![b] + rest, end)),
            }
        }
    }
}

/// First position at or after `pos` holding no decimal digit.
pub open spec fn spec_digits_end(s: Seq<u8>, pos: int) -> int
    decreases s.len() - pos,
{
    if 0 <= pos < s.len() && is_digit_byte(s[pos]) {
        spec_digits_end(s, pos + 1)
    } else {
        pos
    }
}

/// Value of the digit run `s[pos..end]`, most significant first.
pub open spec fn spec_digits_val(s: Seq<u8>, pos: int, end: int) -> nat
    decreases end - pos,
{
    if pos >= end {
        0
    } else {
        spec_digits_val(s, pos, end - 1) * 10 + (if is_digit_byte(s[end - 1]) {
            (s[end - 1] - 0x30) as nat
        } else {
            0
        })
    }
}

/// Largest magnitude a negative integer may take: `2^63`.
pub open spec fn spec_neg_bound() -> nat {
    0x8000000000000000
}

/// Reads an integer at `pos` (no leading whitespace): an optional `-`,
/// then digits without a superfluous leading zero, fitting `i64`.
pub open spec fn spec_parse_number(s: Seq<u8>, pos: int) -> Option<(JsonV, int)>
    recommends
        0 <= pos < s.len(),
{
    let neg = s[pos] == 0x2d;
    let dstart = if neg {
        pos + 1
    } else {
        pos
    };
    if !(0 <= dstart < s.len() && is_digit_byte(s[dstart])) {
        None
    } else {
        let end = spec_digits_end(s, dstart);
        if s[dstart] == 0x30 && end != dstart + 1 {
            None
        } else {
            let val = spec_digits_val(s, dstart, end);
            if neg {
                if val > spec_neg_bound() {
                    None
                } else {
                    Some((JsonV::Int(-(val as int)), end))
                }
            } else {
                if val > spec_neg_bound() - 1 {
                    None
                } else {
                    Some((JsonV::Int(val as int), end))
                }
            }
        }
    }
}

/// Reads one JSON value beginning at `pos` (whitespace allowed first),
/// refusing nesting deeper than `d`.  Returns the value and the
/// position just past it.
pub open spec fn spec_parse_value(s: Seq<u8>, pos: int, d: nat) -> Option<(JsonV, int)>
    decreases d, s.len() - pos, 0int,
{
    if d == 0 {
        None
    } else {
        let p = spec_skip_ws(s, pos);
        if !(0 <= p < s.len()) {
            None
        } else {
            let b = s[p];
            if b == 0x6e {
                if p + 4 <= s.len() && s[p + 1] == 0x75 && s[p + 2] == 0x6c && s[p + 3] == 0x6c {
                    Some((JsonV::Null, p + 4))
                } else {
                    None
                }
            } else if b == 0x74 {
                if p + 4 <= s.len() && s[p + 1] == 0x72 && s[p + 2] == 0x75 && s[p + 3] == 0x65 {
                    Some((JsonV::Bool(true), p + 4))
                } else {
                    None
                }
            } else if b == 0x66 {
                if p + 5 <= s.len() && s[p + 1] == 0x61 && s[p + 2] == 0x6c && s[p + 3] == 0x73
                    && s[p + 4] == 0x65 {
                    Some((JsonV::Bool(false), p + 5))
                } else {
                    None
                }
            } else if b == 0x22 {
                match spec_parse_str_bytes(s, p + 1) {
                    None => None,
                    Some((bytes, end)) => if valid_utf8(bytes) {
                        Some((JsonV::Str(decode_utf8(bytes)), end))
                    } else {
                        None
                    },
                }
            } else if b == 0x2d || is_digit_byte(b) {
                spec_parse_number(s, p)
            } else if b == 0x5b {
                match spec_parse_items(s, p + 1, (d - 1) as nat) {
                    None => None,
                    Some((items, end)) => Some((JsonV::Arr(items), end)),
                }
            } else if b == 0x7b {
                match spec_parse_entries(s, p + 1, (d - 1) as nat) {
                    None => None,
                    Some((entries, end)) => Some((JsonV::Obj(entries), end)),
                }
            } else {
                None
            }
        }
    }
}

/// Reads the items of an array, starting just past the `[`, through the
/// closing `]`.
pub open spec fn spec_parse_items(s: Seq<u8>, pos: int, d: nat) -> Option<(Seq<JsonV>, int)>
    decreases d, s.len() - pos, 2int,
{
    let p = spec_skip_ws(s, pos);
    if !(0 <= p < s.len()) {
        None
    } else if s[p] == 0x5d {
        Some((Seq::empty(), p + 1))
    } else {
        spec_parse_items_cont(s, pos, d)
    }
}

/// Reads one or more array items separated by commas, through the
/// closing `]`; a comma must be followed by another item.
pub open spec fn spec_parse_items_cont(s: Seq<u8>, pos: int, d: nat) -> Option<(Seq<JsonV>, int)>
    decreases d, s.len() - pos, 1int,
{
    match spec_parse_value(s, pos, d) {
        None => None,
        Some((v, e)) => {
            let q = spec_skip_ws(s, e);
            if !(0 <= q < s.len()) {
                None
            } else if s[q] == 0x2c {
                if q + 1 <= pos {
                    None
                } else {
                    match spec_parse_items_cont(s, q + 1, d) {
                        None => None,
                        Some((rest, end)) => Some((seq![v] + rest, end)),
                    }
                }
            } else if s[q] == 0x5d {
                Some((seq![v], q + 1))
            } else {
                None
            }
        },
    }
}

/// Reads the entries of an object, starting just past the `{`, through
/// the closing `}`.
pub open spec fn spec_parse_entries(s: Seq<u8>, pos: int, d: nat) -> Option<
    (Seq<(Seq<char>, JsonV)>, int),
>
    decreases d, s.len() - pos, 2int,
{
    let p = spec_skip_ws(s, pos);
    if !(0 <= p < s.len()) {
        None
    } else if s[p] == 0x7d {
        Some((Seq::empty(), p + 1))
    } else {
        spec_parse_entries_cont(s, pos, d)
    }
}

/// Reads one or more object entries separated by commas, through the
/// closing `}`; a comma must be followed by another entry.
pub open spec fn spec_parse_entries_cont(s: Seq<u8>, pos: int, d: nat) -> Option<
    (Seq<(Seq<char>, JsonV)>, int),
>
    decreases d, s.len() - pos, 1int,
{
    let p = spec_skip_ws(s, pos);
    if !(0 <= p < s.len()) {
        None
    } else if s[p] != 0x22 {
        None
    } else {
        match spec_parse_str_bytes(s, p + 1) {
            None => None,
            Some((kb, e)) => {
                if !valid_utf8(kb) {
                    None
                } else {
                    let k = decode_utf8(kb);
                    let q = spec_skip_ws(s, e);
                    if !(0 <= q < s.len()) || s[q] != 0x3a || q + 1 < pos {
                        None
                    } else {
                        match spec_parse_value(s, q + 1, d) {
                            None => None,
                            Some((v, e2)) => {
                                let r = spec_skip_ws(s, e2);
                                if !(0 <= r < s.len()) {
                                    None
                                } else if s[r] == 0x2c {
                                    if r + 1 <= pos {
                                        None
                                    } else {
                                        match spec_parse_entries_cont(s, r + 1, d) {
                                            None => None,
                                            Some((rest, end)) => Some(
                                                (seq![(k, v)] + rest, end),
                                            ),
                                        }
                                    }
                                } else if s[r] == 0x7d {
                                    Some((seq![(k, v)], r + 1))
                                } else {
                                    None
                                }
                            },
                        }
                    }
                }
            },
        }
    }
}

/// One whole JSON document: one value, with nothing but whitespace
/// after it.
pub open spec fn spec_parse_json(s: Seq<u8>) -> Option<JsonV> {
    match spec_parse_value(s, 0, MAX_JSON_DEPTH as nat) {
        None => None,
        Some((v, end)) => if spec_skip_ws(s, end) == s.len() {
            Some(v)
        } else {
            None
        },
    }
}


fn byte_is_ws(b: u8) -> (r: bool)
    ensures
        r == is_ws_byte(b),
{
    b == 0x20 || b == 0x09 || b == 0x0a || b == 0x0d
}

fn skip_ws(s: &Vec<u8>, pos: usize) -> (r: usize)
    requires
        pos <= s@.len(),
    ensures
        r as int == spec_skip_ws(s@, pos as int),
        pos <= r <= s@.len(),
{
    let mut p = pos;
    while p < s.len() && byte_is_ws(s[p])
        invariant
            pos <= p <= s@.len(),
            spec_skip_ws(s@, pos as int) == spec_skip_ws(s@, p as int),
        decreases s@.len() - p,
    {
        p = p + 1;
    }
    p
}

fn hex_val(b: u8) -> (r: u8)
    ensures
        r as nat == spec_hex_val(b),
{
    if 0x30 <= b && b <= 0x39 {
        b - 0x30
    } else if 0x61 <= b && b <= 0x66 {
        b - 0x61 + 10
    } else if 0x41 <= b && b <= 0x46 {
        b - 0x41 + 10
    } else {
        16
    }
}

fn short_escape(e: u8) -> (r: u16)
    ensures
        r as int == spec_short_escape(e),
{
    if e == 0x22 {
        0x22
    } else if e == 0x5c {
        0x5c
    } else if e == 0x2f {
        0x2f
    } else if e == 0x62 {
        0x08
    } else if e == 0x66 {
        0x0c
    } else if e == 0x6e {
        0x0a
    } else if e == 0x72 {
        0x0d
    } else if e == 0x74 {
        0x09
    } else {
        0x100
    }
}

fn push_scalar_utf8(acc: &mut Vec<u8>, v: u32)
    requires
        v < 0x110000,
    ensures
        final(acc)@ == old(acc)@ + spec_scalar_utf8(v as nat),
{
    if v < 0x80 {
        acc.push(v as u8);
        assert(acc@ =~= old(acc)@ + spec_scalar_utf8(v as nat));
    } else if v < 0x800 {
        acc.push((0xc0 + v / 64) as u8);
        acc.push((0x80 + v % 64) as u8);
        assert(acc@ =~= old(acc)@ + spec_scalar_utf8(v as nat));
    } else if v < 0x10000 {
        acc.push((0xe0 + v / 4096) as u8);
        acc.push((0x80 + (v / 64) % 64) as u8);
        acc.push((0x80 + v % 64) as u8);
        assert(acc@ =~= old(acc)@ + spec_scalar_utf8(v as nat));
    } else {
        acc.push((0xf0 + v / 262144) as u8);
        acc.push((0x80 + (v / 4096) % 64) as u8);
        acc.push((0x80 + (v / 64) % 64) as u8);
        acc.push((0x80 + v % 64) as u8);
        assert(acc@ =~= old(acc)@ + spec_scalar_utf8(v as nat));
    }
}

fn parse_str_bytes(s: &Vec<u8>, pos: usize) -> (r: Option<(Vec<u8>, usize)>)
    requires
        pos <= s@.len(),
    ensures
        match r {
            Some(be) => spec_parse_str_bytes(s@, pos as int) == Some((be.0@, be.1 as int))
                && pos < be.1 <= s@.len(),
            None => spec_parse_str_bytes(s@, pos as int) is None,
        },
{
    let mut acc: Vec<u8> = Vec::new();
    let mut p = pos;
    proof {
        assert(acc@ + Seq::<u8>::empty() =~= acc@);
    }
    loop
        invariant
            pos <= p <= s@.len(),
            spec_parse_str_bytes(s@, pos as int) == (match spec_parse_str_bytes(s@, p as int) {
                Some((t, e)) => Some((acc@ + t, e)),
                None => None::<(Seq<u8>, int)>,
            }),
        decreases s@.len() - p,
    {
        if p >= s.len() {
            return None;
        }
        let b = s[p];
        if b == 0x22 {
            proof {
                assert(spec_parse_str_bytes(s@, p as int) == Some(
                    (Seq::<u8>::empty(), p + 1int),
                ));
                assert(acc@ + Seq::<u8>::empty() =~= acc@);
            }
            return Some((acc, p + 1));
        } else if b == 0x5c {
            if s.len() - p < 2 {
                return None;
            }
            let e = s[p + 1];
            let m = short_escape(e);
            if m < 0x100 {
                let ghost acc0 = acc@;
                let ghost p0 = p as int;
                acc.push(m as u8);
                p = p + 2;
                proof {
                    match spec_parse_str_bytes(s@, p as int) {
                        Some((t, e2)) => {
                            assert(spec_parse_str_bytes(s@, p0) == Some(
                                (seq![spec_short_escape(e) as u8] + t, e2),
                            ));
                            assert(acc0 + (seq![spec_short_escape(e) as u8] + t) =~= acc@ + t);
                        },
                        None => {
                            assert(spec_parse_str_bytes(s@, p0) is None);
                        },
                    }
                }
            } else if e == 0x75 {
                if s.len() - p < 6 {
                    return None;
                }
                let h1 = hex_val(s[p + 2]);
                let h2 = hex_val(s[p + 3]);
                let h3 = hex_val(s[p + 4]);
                let h4 = hex_val(s[p + 5]);
                if !(h1 < 16 && h2 < 16 && h3 < 16 && h4 < 16) {
                    return None;
                }
                let v: u32 = (h1 as u32) * 4096 + (h2 as u32) * 256 + (h3 as u32) * 16 + (
                h4 as u32);
                proof {
                    assert(v as nat == spec_hex4(s@, p + 2));
                }
                if v < 0xd800 || 0xe000 <= v {
                    let ghost acc0 = acc@;
                    let ghost p0 = p as int;
                    push_scalar_utf8(&mut acc, v);
                    p = p + 6;
                    proof {
                        match spec_parse_str_bytes(s@, p as int) {
                            Some((t, e2)) => {
                                assert(spec_parse_str_bytes(s@, p0) == Some(
                                    (spec_scalar_utf8(v as nat) + t, e2),
                                ));
                                assert(acc0 + (spec_scalar_utf8(v as nat) + t) =~= acc@ + t);
                            },
                            None => {
                                assert(spec_parse_str_bytes(s@, p0) is None);
                            },
                        }
                    }
                } else if v < 0xdc00 {
                    // a high surrogate must pair with a low one
                    if s.len() - p < 12 {
                        return None;
                    }
                    if !(s[p + 6] == 0x5c && s[p + 7] == 0x75) {
                        return None;
                    }
                    let g1 = hex_val(s[p + 8]);
                    let g2 = hex_val(s[p + 9]);
                    let g3 = hex_val(s[p + 10]);
                    let g4 = hex_val(s[p + 11]);
                    if !(g1 < 16 && g2 < 16 && g3 < 16 && g4 < 16) {
                        return None;
                    }
                    let w: u32 = (g1 as u32) * 4096 + (g2 as u32) * 256 + (g3 as u32) * 16 + (
                    g4 as u32);
                    proof {
                        assert(w as nat == spec_hex4(s@, p + 8));
                    }
                    if !(0xdc00 <= w && w < 0xe000) {
                        return None;
                    }
                    let c: u32 = 0x10000 + (v - 0xd800) * 0x400 + (w - 0xdc00);
                    let ghost acc0 = acc@;
                    let ghost p0 = p as int;
                    push_scalar_utf8(&mut acc, c);
                    p = p + 12;
                    proof {
                        match spec_parse_str_bytes(s@, p as int) {
                            Some((t, e2)) => {
                                assert(spec_parse_str_bytes(s@, p0) == Some(
                                    (spec_scalar_utf8(c as nat) + t, e2),
                                ));
                                assert(acc0 + (spec_scalar_utf8(c as nat) + t) =~= acc@ + t);
                            },
                            None => {
                                assert(spec_parse_str_bytes(s@, p0) is None);
                            },
                        }
                    }
                } else {
                    // a lone low surrogate names no scalar
                    return None;
                }
            } else {
                return None;
            }
        } else if b < 0x20 {
            return None;
        } else {
            let ghost acc0 = acc@;
            let ghost p0 = p as int;
            acc.push(b);
            p = p + 1;
            proof {
                match spec_parse_str_bytes(s@, p as int) {
                    Some((t, e2)) => {
                        assert(spec_parse_str_bytes(s@, p0) == Some((seq![b] + t, e2)));
                        assert(acc0 + (seq![b] + t) =~= acc@ + t);
                    },
                    None => {
                        assert(spec_parse_str_bytes(s@, p0) is None);
                    },
                }
            }
        }
    }
}

fn parse_number(s: &Vec<u8>, pos: usize) -> (r: Option<(i64, usize)>)
    requires
        pos < s@.len(),
    ensures
        match r {
            Some(ve) => spec_parse_number(s@, pos as int) == Some(
                (JsonV::Int(ve.0 as int), ve.1 as int),
            ) && pos < ve.1 <= s@.len(),
            None => spec_parse_number(s@, pos as int) is None,
        },
{
    let n = s.len();
    let neg = s[pos] == 0x2d;
    let dstart = if neg {
        pos + 1
    } else {
        pos
    };
    if dstart >= n {
        return None;
    }
    let d0 = s[dstart];
    if !(0x30 <= d0 && d0 <= 0x39) {
        return None;
    }
    let bound: u64 = 0x8000000000000000;
    let mut mag: u64 = 0;
    let mut over = false;
    let mut i = dstart;
    while i < s.len() && 0x30 <= s[i] && s[i] <= 0x39
        invariant
            dstart <= i <= s@.len(),
            dstart < s@.len() && is_digit_byte(s@[dstart as int]),
            bound == spec_neg_bound(),
            spec_digits_end(s@, dstart as int) == spec_digits_end(s@, i as int),
            !over ==> mag as nat == spec_digits_val(s@, dstart as int, i as int) && mag <= bound,
            over ==> spec_digits_val(s@, dstart as int, i as int) > bound,
        decreases s@.len() - i,
    {
        let dv = s[i] - 0x30;
        let ghost val0 = spec_digits_val(s@, dstart as int, i as int);
        proof {
            assert(spec_digits_val(s@, dstart as int, i + 1) == val0 * 10 + dv);
        }
        if !over {
            if mag > (bound - dv as u64) / 10 {
                over = true;
                proof {
                    assert(val0 * 10 + dv > bound) by (nonlinear_arith)
                        requires
                            val0 == mag as nat,
                            mag > (bound - dv as u64) / 10,
                            dv <= 9,
                            bound >= 10,
                    ;
                }
            } else {
                proof {
                    assert(mag * 10 + dv <= bound) by (nonlinear_arith)
                        requires
                            mag <= (bound - dv as u64) / 10,
                            dv <= 9,
                            bound >= 10,
                    ;
                }
                mag = mag * 10 + dv as u64;
            }
        } else {
            proof {
                assert(val0 * 10 + dv > bound) by (nonlinear_arith)
                    requires
                        val0 > bound,
                        dv >= 0,
                ;
            }
        }
        i = i + 1;
    }
    let end = i;
    proof {
        assert(spec_digits_end(s@, end as int) == end);
    }
    if d0 == 0x30 && end != dstart + 1 {
        return None;
    }
    if neg {
        if over {
            return None;
        }
        let v: i64 = if mag == bound {
            i64::MIN
        } else {
            -(mag as i64)
        };
        proof {
            assert(v as int == -(spec_digits_val(s@, dstart as int, end as int) as int));
        }
        Some((v, end))
    } else {
        if over || mag == bound {
            return None;
        }
        Some((mag as i64, end))
    }
}

/// Reads one JSON value at `pos`, as `spec_parse_value` says.
pub fn parse_value(s: &Vec<u8>, pos: usize, d: u32) -> (r: Option<(Json, usize)>)
    requires
        pos <= s@.len(),
    ensures
        match r {
            Some(ve) => spec_parse_value(s@, pos as int, d as nat) == Some((ve.0@, ve.1 as int))
                && pos < ve.1 <= s@.len(),
            None => spec_parse_value(s@, pos as int, d as nat) is None,
        },
    decreases d, s@.len() - pos, 0int,
{
    if d == 0 {
        return None;
    }
    let p = skip_ws(s, pos);
    if p >= s.len() {
        return None;
    }
    let b = s[p];
    if b == 0x6e {
        if s.len() - p >= 4 && s[p + 1] == 0x75 && s[p + 2] == 0x6c && s[p + 3] == 0x6c {
            Some((Json::Null, p + 4))
        } else {
            None
        }
    } else if b == 0x74 {
        if s.len() - p >= 4 && s[p + 1] == 0x72 && s[p + 2] == 0x75 && s[p + 3] == 0x65 {
            Some((Json::Bool(true), p + 4))
        } else {
            None
        }
    } else if b == 0x66 {
        if s.len() - p >= 5 && s[p + 1] == 0x61 && s[p + 2] == 0x6c && s[p + 3] == 0x73 && s[p + 4]
            == 0x65 {
            Some((Json::Bool(false), p + 5))
        } else {
            None
        }
    } else if b == 0x22 {
        match parse_str_bytes(s, p + 1) {
            None => None,
            Some((bytes, end)) => {
                let ghost bv = bytes@;
                match string_from_utf8(bytes) {
                    Some(st) => Some((Json::Str(st), end)),
                    None => None,
                }
            },
        }
    } else if b == 0x2d || (0x30 <= b && b <= 0x39) {
        match parse_number(s, p) {
            None => None,
            Some((v, end)) => Some((Json::Int(v), end)),
        }
    } else if b == 0x5b {
        match parse_items(s, p + 1, d - 1) {
            None => None,
            Some((items, end)) => Some((Json::Arr(items), end)),
        }
    } else if b == 0x7b {
        match parse_entries(s, p + 1, d - 1) {
            None => None,
            Some((entries, end)) => Some((Json::Obj(entries), end)),
        }
    } else {
        None
    }
}

#[verifier::loop_isolation(false)]
fn parse_items(s: &Vec<u8>, pos: usize, d: u32) -> (r: Option<(Vec<Json>, usize)>)
    requires
        pos <= s@.len(),
    ensures
        match r {
            Some(ie) => spec_parse_items(s@, pos as int, d as nat) == Some(
                (json_view_list(ie.0@), ie.1 as int),
            ) && pos < ie.1 <= s@.len(),
            None => spec_parse_items(s@, pos as int, d as nat) is None,
        },
    decreases d, s@.len() - pos, 2int,
{
    let q0 = skip_ws(s, pos);
    if q0 >= s.len() {
        return None;
    }
    if s[q0] == 0x5d {
        let empty: Vec<Json> = Vec::new();
        proof {
            assert(json_view_list(empty@) =~= Seq::<JsonV>::empty());
        }
        return Some((empty, q0 + 1));
    }
    let mut acc: Vec<Json> = Vec::new();
    let mut p = pos;
    proof {
        assert(json_view_list(acc@) =~= Seq::<JsonV>::empty());
        assert(spec_parse_items(s@, pos as int, d as nat) == spec_parse_items_cont(
            s@,
            pos as int,
            d as nat,
        ));
    }
    loop
        invariant
            pos <= p <= s@.len(),
            spec_parse_items_cont(s@, pos as int, d as nat) == (match spec_parse_items_cont(
                s@,
                p as int,
                d as nat,
            ) {
                Some((rest, e)) => Some((json_view_list(acc@) + rest, e)),
                None => None::<(Seq<JsonV>, int)>,
            }),
        decreases s@.len() - p,
    {
        match parse_value(s, p, d) {
            None => {
                return None;
            },
            Some((v, e)) => {
                let q2 = skip_ws(s, e);
                if q2 >= s.len() {
                    return None;
                }
                let c = s[q2];
                if c == 0x2c {
                    let ghost acc0 = acc@;
                    let ghost p0 = p as int;
                    let ghost vv = v@;
                    acc.push(v);
                    p = q2 + 1;
                    proof {
                        assert(acc@.drop_last() =~= acc0);
                        assert(json_view_list(acc@) == json_view_list(acc0).push(vv));
                        match spec_parse_items_cont(s@, p as int, d as nat) {
                            Some((rest, e2)) => {
                                assert(spec_parse_items_cont(s@, p0, d as nat) == Some(
                                    (seq![vv] + rest, e2),
                                ));
                                assert(json_view_list(acc0) + (seq![vv] + rest) =~= json_view_list(
                                    acc@,
                                ) + rest);
                            },
                            None => {
                                assert(spec_parse_items_cont(s@, p0, d as nat) is None);
                            },
                        }
                    }
                } else if c == 0x5d {
                    let ghost acc0 = acc@;
                    let ghost vv = v@;
                    acc.push(v);
                    proof {
                        assert(acc@.drop_last() =~= acc0);
                        assert(json_view_list(acc@) == json_view_list(acc0).push(vv));
                        assert(spec_parse_items_cont(s@, p as int, d as nat) == Some(
                            (seq![vv], q2 + 1int),
                        ));
                        assert(json_view_list(acc0) + seq![vv] =~= json_view_list(acc@));
                    }
                    return Some((acc, q2 + 1));
                } else {
                    return None;
                }
            },
        }
    }
}

#[verifier::loop_isolation(false)]
fn parse_entries(s: &Vec<u8>, pos: usize, d: u32) -> (r: Option<(Vec<(String, Json)>, usize)>)
    requires
        pos <= s@.len(),
    ensures
        match r {
            Some(ie) => spec_parse_entries(s@, pos as int, d as nat) == Some(
                (json_view_entries(ie.0@), ie.1 as int),
            ) && pos < ie.1 <= s@.len(),
            None => spec_parse_entries(s@, pos as int, d as nat) is None,
        },
    decreases d, s@.len() - pos, 2int,
{
    let q0 = skip_ws(s, pos);
    if q0 >= s.len() {
        return None;
    }
    if s[q0] == 0x7d {
        let empty: Vec<(String, Json)> = Vec::new();
        proof {
            assert(json_view_entries(empty@) =~= Seq::<(Seq<char>, JsonV)>::empty());
        }
        return Some((empty, q0 + 1));
    }
    let mut acc: Vec<(String, Json)> = Vec::new();
    let mut p = pos;
    proof {
        assert(json_view_entries(acc@) =~= Seq::<(Seq<char>, JsonV)>::empty());
        assert(spec_parse_entries(s@, pos as int, d as nat) == spec_parse_entries_cont(
            s@,
            pos as int,
            d as nat,
        ));
    }
    loop
        invariant
            pos <= p <= s@.len(),
            spec_parse_entries_cont(s@, pos as int, d as nat) == (match spec_parse_entries_cont(
                s@,
                p as int,
                d as nat,
            ) {
                Some((rest, e)) => Some((json_view_entries(acc@) + rest, e)),
                None => None::<(Seq<(Seq<char>, JsonV)>, int)>,
            }),
        decreases s@.len() - p,
    {
        let q = skip_ws(s, p);
        if q >= s.len() {
            return None;
        }
        if s[q] != 0x22 {
            return None;
        }
        match parse_str_bytes(s, q + 1) {
            None => {
                return None;
            },
            Some((kb, ke)) => {
                let ghost kbv = kb@;
                match string_from_utf8(kb) {
                    None => {
                        return None;
                    },
                    Some(kst) => {
                        let q1 = skip_ws(s, ke);
                        if q1 >= s.len() {
                            return None;
                        }
                        if s[q1] != 0x3a {
                            return None;
                        }
                        match parse_value(s, q1 + 1, d) {
                            None => {
                                return None;
                            },
                            Some((v, e2)) => {
                                let q2 = skip_ws(s, e2);
                                if q2 >= s.len() {
                                    return None;
                                }
                                let c = s[q2];
                                if c == 0x2c {
                                    let ghost acc0 = acc@;
                                    let ghost p0 = p as int;
                                    let ghost kv = kst@;
                                    let ghost vv = v@;
                                    acc.push((kst, v));
                                    p = q2 + 1;
                                    proof {
                                        assert(acc@.drop_last() =~= acc0);
                                        assert(json_view_entries(acc@) == json_view_entries(
                                            acc0,
                                        ).push((kv, vv)));
                                        match spec_parse_entries_cont(s@, p as int, d as nat) {
                                            Some((rest, e3)) => {
                                                assert(spec_parse_entries_cont(s@, p0, d as nat)
                                                    == Some((seq![(kv, vv)] + rest, e3)));
                                                assert(json_view_entries(acc0) + (seq![(kv, vv)]
                                                    + rest) =~= json_view_entries(acc@) + rest);
                                            },
                                            None => {
                                                assert(spec_parse_entries_cont(s@, p0, d as nat)
                                                    is None);
                                            },
                                        }
                                    }
                                } else if c == 0x7d {
                                    let ghost acc0 = acc@;
                                    let ghost kv = kst@;
                                    let ghost vv = v@;
                                    acc.push((kst, v));
                                    proof {
                                        assert(acc@.drop_last() =~= acc0);
                                        assert(json_view_entries(acc@) == json_view_entries(
                                            acc0,
                                        ).push((kv, vv)));
                                        assert(spec_parse_entries_cont(s@, p as int, d as nat)
                                            == Some((seq![(kv, vv)], q2 + 1int)));
                                        assert(json_view_entries(acc0) + seq![(kv, vv)]
                                            =~= json_view_entries(acc@));
                                    }
                                    return Some((acc, q2 + 1));
                                } else {
                                    return None;
                                }
                            },
                        }
                    },
                }
            },
        }
    }
}

/// Decodes one whole JSON document, as `spec_parse_json` says: `None`
/// exactly when the bytes are not one well-formed document.
pub fn json_from_bytes(s: &Vec<u8>) -> (r: Option<Json>)
    ensures
        match r {
            Some(v) => spec_parse_json(s@) == Some(v@),
            None => spec_parse_json(s@) is None,
        },
{
    match parse_value(s, 0, MAX_JSON_DEPTH) {
        None => None,
        Some((v, end)) => {
            let t = skip_ws(s, end);
            if t == s.len() {
                Some(v)
            } else {
                None
            }
        },
    }
}

} // verus!
