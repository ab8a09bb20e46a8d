//! Encoding a JSON value to its wire text (UTF-8 bytes).
//!
//! The encoder is canonical: no whitespace, integers in plain decimal,
//! strings quoted with `\"`, `\\` and `\u00XX` (for control bytes) as the
//! only escapes.  `spec_enc_json` is the byte-exact statement of the
//! output; `json_to_bytes` produces exactly those bytes.

use crate::json::{json_view, json_view_entries, json_view_list, Json, JsonV};
use vstd::prelude::*;
use vstd::utf8::encode_utf8;

verus! {

broadcast use vstd::std_specs::vec::group_vec_axioms;

/// Decimal digits of `n`, most significant first.
pub open spec fn spec_dec_digits(n: nat) -> Seq<u8>
    decreases n,
{
    if n < 10 {
        seq![(0x30 + n) as u8]
    } else {
        spec_dec_digits(n / 10).push((0x30 + n % 10) as u8)
    }
}

/// Wire bytes of an integer: decimal digits, `-` first when negative.
pub open spec fn spec_enc_int(i: int) -> Seq<u8> {
    if i < 0 {
        seq![0x2du8] + spec_dec_digits((-i) as nat)
    } else {
        spec_dec_digits(i as nat)
    }
}

/// Lowercase hexadecimal digit for `d`.
pub open spec fn spec_hex_digit(d: nat) -> u8
    recommends
        d < 16,
{
    if d < 10 {
        (0x30 + d) as u8
    } else {
        (0x61 + (d - 10)) as u8
    }
}

/// How one byte of a string's UTF-8 appears inside the quotes: `"` and
/// `\` get a backslash, control bytes become `\u00XX`, all other bytes
/// (including UTF-8 continuation bytes) pass through.
pub open spec fn spec_esc_byte(b: u8) -> Seq<u8> {
    if b == 0x22 {
        seq![0x5cu8, 0x22u8]
    } else if b == 0x5c {
        seq![0x5cu8, 0x5cu8]
    } else if b < 0x20 {
        seq![0x5cu8, 0x75u8, 0x30u8, 0x30u8, spec_hex_digit((b / 16) as nat), spec_hex_digit((b % 16) as nat)]
    } else {
        seq![b]
    }
}

pub open spec fn spec_esc(bytes: Seq<u8>) -> Seq<u8>
    decreases bytes,
{
    if bytes.len() == 0 {
        Seq::empty()
    } else {
        spec_esc_byte(bytes[0]) + spec_esc(bytes.drop_first())
    }
}

/// Wire bytes of a string value.
pub open spec fn spec_enc_str(s: Seq<char>) -> Seq<u8> {
    seq![0x22u8] + spec_esc(encode_utf8(s)) + seq![0x22u8]
}

/// Wire bytes of a JSON value.
pub open spec fn spec_enc_json(v: JsonV) -> Seq<u8>
    decreases v, 0int,
{
    match v {
        JsonV::Null => seq![0x6eu8, 0x75u8, 0x6cu8, 0x6cu8],
        JsonV::Bool(b) => if b {
            seq![0x74u8, 0x72u8, 0x75u8, 0x65u8]
        } else {
            seq![0x66u8, 0x61u8, 0x6cu8, 0x73u8, 0x65u8]
        },
        JsonV::Int(i) => spec_enc_int(i),
        JsonV::Str(s) => spec_enc_str(s),
        JsonV::Arr(items) => seq![0x5bu8] + spec_enc_list(items) + seq![0x5du8],
        JsonV::Obj(entries) => seq![0x7bu8] + spec_enc_entries(entries) + seq![0x7du8],
    }
}

pub open spec fn spec_enc_list(l: Seq<JsonV>) -> Seq<u8>
    decreases l, 1int,
{
    if l.len() == 0 {
        Seq::empty()
    } else {
        spec_enc_json(l[0]) + spec_enc_list_rest(l.drop_first())
    }
}

pub open spec fn spec_enc_list_rest(l: Seq<JsonV>) -> Seq<u8>
    decreases l, 0int,
{
    if l.len() == 0 {
        Seq::empty()
    } else {
        seq![0x2cu8] + spec_enc_json(l[0]) + spec_enc_list_rest(l.drop_first())
    }
}

pub open spec fn spec_enc_entry(k: Seq<char>, v: JsonV) -> Seq<u8>
    decreases v, 2int,
{
    spec_enc_str(k) + seq![0x3au8] + spec_enc_json(v)
}

pub open spec fn spec_enc_entries(l: Seq<(Seq<char>, JsonV)>) -> Seq<u8>
    decreases l, 1int,
{
    if l.len() == 0 {
        Seq::empty()
    } else {
        spec_enc_entry(l[0].0, l[0].1) + spec_enc_entries_rest(l.drop_first())
    }
}

pub open spec fn spec_enc_entries_rest(l: Seq<(Seq<char>, JsonV)>) -> Seq<u8>
    decreases l, 0int,
{
    if l.len() == 0 {
        Seq::empty()
    } else {
        seq![0x2cu8] + spec_enc_entry(l[0].0, l[0].1) + spec_enc_entries_rest(l.drop_first())
    }
}

proof fn lemma_enc_list_push(l: Seq<JsonV>, v: JsonV)
    ensures
        spec_enc_list(l.push(v)) == if l.len() == 0 {
            spec_enc_json(v)
        } else {
            spec_enc_list(l) + seq![0x2cu8] + spec_enc_json(v)
        },
    decreases l.len(),
{
    let lp = l.push(v);
    assert(lp.len() == l.len() + 1);
    if l.len() == 0 {
        assert(lp[0] == v);
        assert(lp.drop_first() =~= Seq::<JsonV>::empty());
        assert(spec_enc_list_rest(Seq::<JsonV>::empty()) == Seq::<u8>::empty());
        assert(spec_enc_list(lp) =~= spec_enc_json(v));
    } else {
        assert(lp[0] == l[0]);
        assert(lp.drop_first() =~= l.drop_first().push(v));
        lemma_enc_list_rest_push(l.drop_first(), v);
    }
}

proof fn lemma_enc_list_rest_push(l: Seq<JsonV>, v: JsonV)
    ensures
        spec_enc_list_rest(l.push(v)) == spec_enc_list_rest(l) + seq![0x2cu8] + spec_enc_json(v),
    decreases l.len(),
{
    let lp = l.push(v);
    if l.len() == 0 {
        assert(lp[0] == v);
        assert(lp.drop_first() =~= Seq::<JsonV>::empty());
        assert(spec_enc_list_rest(Seq::<JsonV>::empty()) == Seq::<u8>::empty());
        assert(spec_enc_list_rest(lp) =~= seq![0x2cu8] + spec_enc_json(v));
        assert(spec_enc_list_rest(l) + seq![0x2cu8] + spec_enc_json(v) =~= seq![0x2cu8]
            + spec_enc_json(v));
    } else {
        assert(lp[0] == l[0]);
        assert(lp.drop_first() =~= l.drop_first().push(v));
        lemma_enc_list_rest_push(l.drop_first(), v);
        assert(spec_enc_list_rest(lp) =~= spec_enc_list_rest(l) + seq![0x2cu8] + spec_enc_json(v));
    }
}

proof fn lemma_enc_entries_push(l: Seq<(Seq<char>, JsonV)>, k: Seq<char>, v: JsonV)
    ensures
        spec_enc_entries(l.push((k, v))) == if l.len() == 0 {
            spec_enc_entry(k, v)
        } else {
            spec_enc_entries(l) + seq![0x2cu8] + spec_enc_entry(k, v)
        },
    decreases l.len(),
{
    let lp = l.push((k, v));
    if l.len() == 0 {
        assert(lp[0] == (k, v));
        assert(lp.drop_first() =~= Seq::<(Seq<char>, JsonV)>::empty());
        assert(spec_enc_entries_rest(Seq::<(Seq<char>, JsonV)>::empty()) == Seq::<u8>::empty());
        assert(spec_enc_entries(lp) =~= spec_enc_entry(k, v));
    } else {
        assert(lp[0] == l[0]);
        assert(lp.drop_first() =~= l.drop_first().push((k, v)));
        lemma_enc_entries_rest_push(l.drop_first(), k, v);
    }
}

proof fn lemma_enc_entries_rest_push(l: Seq<(Seq<char>, JsonV)>, k: Seq<char>, v: JsonV)
    ensures
        spec_enc_entries_rest(l.push((k, v))) == spec_enc_entries_rest(l) + seq![0x2cu8]
            + spec_enc_entry(k, v),
    decreases l.len(),
{
    let lp = l.push((k, v));
    if l.len() == 0 {
        assert(lp[0] == (k, v));
        assert(lp.drop_first() =~= Seq::<(Seq<char>, JsonV)>::empty());
        assert(spec_enc_entries_rest(Seq::<(Seq<char>, JsonV)>::empty()) == Seq::<u8>::empty());
        assert(spec_enc_entries_rest(lp) =~= seq![0x2cu8] + spec_enc_entry(k, v));
        assert(spec_enc_entries_rest(l) + seq![0x2cu8] + spec_enc_entry(k, v) =~= seq![0x2cu8]
            + spec_enc_entry(k, v));
    } else {
        assert(lp[0] == l[0]);
        assert(lp.drop_first() =~= l.drop_first().push((k, v)));
        lemma_enc_entries_rest_push(l.drop_first(), k, v);
        assert(spec_enc_entries_rest(lp) =~= spec_enc_entries_rest(l) + seq![0x2cu8]
            + spec_enc_entry(k, v));
    }
}

fn enc_u64_into(n: u64, out: &mut Vec<u8>)
    ensures
        final(out)@ == old(out)@ + spec_dec_digits(n as nat),
    decreases n,
{
    if n < 10 {
        out.push((0x30 + n) as u8);
        assert(out@ =~= old(out)@ + spec_dec_digits(n as nat));
    } else {
        enc_u64_into(n / 10, out);
        out.push((0x30 + (n % 10)) as u8);
        assert(out@ =~= old(out)@ + spec_dec_digits(n as nat));
    }
}

fn enc_int_into(i: i64, out: &mut Vec<u8>)
    ensures
        final(out)@ == old(out)@ + spec_enc_int(i as int),
{
    if i < 0 {
        out.push(0x2d);
        let mag: u64 = (-(i as i128)) as u64;
        assert(mag == (-(i as int)) as nat);
        enc_u64_into(mag, out);
        assert(out@ =~= old(out)@ + spec_enc_int(i as int));
    } else {
        enc_u64_into(i as u64, out);
    }
}

fn hex_digit(d: u8) -> (r: u8)
    requires
        d < 16,
    ensures
        r == spec_hex_digit(d as nat),
{
    if d < 10 {
        0x30 + d
    } else {
        0x61 + (d - 10)
    }
}

fn enc_str_into(s: &str, out: &mut Vec<u8>)
    ensures
        final(out)@ == old(out)@ + spec_enc_str(s@),
{
    out.push(0x22);
    let bytes = s.as_bytes();
    let n = bytes.len();
    let mut i: usize = 0;
    while i < n
        invariant
            n == bytes@.len(),
            i <= n,
            bytes@ == encode_utf8(s@),
            out@ == old(out)@ + seq![0x22u8] + spec_esc(bytes@.take(i as int)),
        decreases n - i,
    {
        let b = *vstd::slice::slice_index_get(bytes, i);
        if b == 0x22 {
            out.push(0x5c);
            out.push(0x22);
        } else if b == 0x5c {
            out.push(0x5c);
            out.push(0x5c);
        } else if b < 0x20 {
            out.push(0x5c);
            out.push(0x75);
            out.push(0x30);
            out.push(0x30);
            out.push(hex_digit(b / 16));
            out.push(hex_digit(b % 16));
        } else {
            out.push(b);
        }
        proof {
            lemma_esc_push(bytes@.take(i as int), b);
            assert(bytes@.take(i + 1) =~= bytes@.take(i as int).push(b));
            assert(out@ =~= old(out)@ + seq![0x22u8] + spec_esc(bytes@.take(i + 1)));
        }
        i = i + 1;
    }
    out.push(0x22);
    proof {
        assert(bytes@.take(n as int) =~= bytes@);
        assert(out@ =~= old(out)@ + spec_enc_str(s@));
    }
}

proof fn lemma_esc_push(b: Seq<u8>, x: u8)
    ensures
        spec_esc(b.push(x)) == spec_esc(b) + spec_esc_byte(x),
    decreases b.len(),
{
    let bp = b.push(x);
    if b.len() == 0 {
        assert(bp[0] == x);
        assert(bp.drop_first() =~= Seq::<u8>::empty());
        assert(spec_esc(Seq::<u8>::empty()) == Seq::<u8>::empty());
        assert(spec_esc(bp) =~= spec_esc_byte(x));
        assert(spec_esc(b) + spec_esc_byte(x) =~= spec_esc_byte(x));
    } else {
        assert(bp[0] == b[0]);
        assert(bp.drop_first() =~= b.drop_first().push(x));
        lemma_esc_push(b.drop_first(), x);
        assert(spec_esc(bp) =~= spec_esc(b) + spec_esc_byte(x));
    }
}

#[verifier::loop_isolation(false)]
#[verifier::rlimit(60)]
fn enc_json_into(v: &Json, out: &mut Vec<u8>)
    ensures
        final(out)@ == old(out)@ + spec_enc_json(v@),
    decreases *v,
{
    broadcast use crate::json::lemma_json_view_list_len, crate::json::lemma_json_view_entries_len;

    match v {
        Json::Null => {
            out.push(0x6e);
            out.push(0x75);
            out.push(0x6c);
            out.push(0x6c);
            assert(out@ =~= old(out)@ + spec_enc_json(v@));
        },
        Json::Bool(b) => {
            if *b {
                out.push(0x74);
                out.push(0x72);
                out.push(0x75);
                out.push(0x65);
            } else {
                out.push(0x66);
                out.push(0x61);
                out.push(0x6c);
                out.push(0x73);
                out.push(0x65);
            }
            assert(out@ =~= old(out)@ + spec_enc_json(v@));
        },
        Json::Int(i) => {
            enc_int_into(*i, out);
        },
        Json::Str(s) => {
            enc_str_into(s.as_str(), out);
        },
        Json::Arr(items) => {
            out.push(0x5b);
            let n = items.len();
            let mut i: usize = 0;
            while i < n
                invariant
                    n == items@.len(),
                    i <= n,
                    v@ == JsonV::Arr(json_view_list(items@)),
                    out@ == old(out)@ + seq![0x5bu8] + spec_enc_list(
                        json_view_list(items@.take(i as int)),
                    ),
                decreases n - i,
            {
                proof {
                    assert(items@.take(i as int).len() == i);
                }
                if i > 0 {
                    out.push(0x2c);
                    assert(out@ =~= old(out)@ + seq![0x5bu8] + spec_enc_list(
                        json_view_list(items@.take(i as int)),
                    ) + seq![0x2cu8]);
                }
                proof {
                    assert(decreases_to!(*v => *items));
                    assert(decreases_to!(*items => items[i as int]));
                }
                enc_json_into(&items[i], out);
                proof {
                    let prev = json_view_list(items@.take(i as int));
                    assert(items@.take(i + 1) =~= items@.take(i as int).push(items@[i as int]));
                    assert(items@.take(i + 1).drop_last() =~= items@.take(i as int));
                    assert(items@.take(i + 1).last() == items@[i as int]);
                    assert(json_view_list(items@.take(i + 1)) == prev.push(
                        json_view(items@[i as int]),
                    ));
                    lemma_enc_list_push(prev, json_view(items@[i as int]));
                    assert(out@ =~= old(out)@ + seq![0x5bu8] + spec_enc_list(
                        json_view_list(items@.take(i + 1)),
                    ));
                }
                i = i + 1;
            }
            out.push(0x5d);
            proof {
                assert(items@.take(n as int) =~= items@);
                assert(out@ =~= old(out)@ + spec_enc_json(v@));
            }
        },
        Json::Obj(entries) => {
            out.push(0x7b);
            let n = entries.len();
            let mut i: usize = 0;
            while i < n
                invariant
                    n == entries@.len(),
                    i <= n,
                    v@ == JsonV::Obj(json_view_entries(entries@)),
                    out@ == old(out)@ + seq![0x7bu8] + spec_enc_entries(
                        json_view_entries(entries@.take(i as int)),
                    ),
                decreases n - i,
            {
                proof {
                    assert(entries@.take(i as int).len() == i);
                }
                if i > 0 {
                    out.push(0x2c);
                    assert(out@ =~= old(out)@ + seq![0x7bu8] + spec_enc_entries(
                        json_view_entries(entries@.take(i as int)),
                    ) + seq![0x2cu8]);
                }
                enc_str_into(entries[i].0.as_str(), out);
                out.push(0x3a);
                proof {
                    assert(decreases_to!(*v => *entries));
                    assert(decreases_to!(*entries => entries[i as int]));
                }
                enc_json_into(&entries[i].1, out);
                proof {
                    let prev = json_view_entries(entries@.take(i as int));
                    let e = entries@[i as int];
                    assert(entries@.take(i + 1) =~= entries@.take(i as int).push(e));
                    assert(entries@.take(i + 1).drop_last() =~= entries@.take(i as int));
                    assert(entries@.take(i + 1).last() == e);
                    assert(json_view_entries(entries@.take(i + 1)) == prev.push(
                        (e.0@, json_view(e.1)),
                    ));
                    lemma_enc_entries_push(prev, e.0@, json_view(e.1));
                    assert(out@ =~= old(out)@ + seq![0x7bu8] + spec_enc_entries(
                        json_view_entries(entries@.take(i + 1)),
                    ));
                }
                i = i + 1;
            }
            out.push(0x7d);
            proof {
                assert(entries@.take(n as int) =~= entries@);
                assert(out@ =~= old(out)@ + spec_enc_json(v@));
            }
        },
    }
}

/// The wire text of `v`, exactly `spec_enc_json(v@)`.
pub fn json_to_bytes(v: &Json) -> (r: Vec<u8>)
    ensures
        r@ == spec_enc_json(v@),
{
    let mut out: Vec<u8> = Vec::new();
    enc_json_into(v, &mut out);
    out
}

} // verus!
