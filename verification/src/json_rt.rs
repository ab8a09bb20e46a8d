//! The codec round trip: decoding what the encoder emitted gives the
//! original value back.
//!
//! `lemma_json_round_trip` is the law itself; the lemmas before it walk
//! the decoder through each syntactic form of the encoder's output.

use crate::json::{
    json_depth, json_depth_entries, json_depth_list, wf_json, wf_json_entries, wf_json_list, JsonV,
    MAX_JSON_DEPTH,
};
use crate::json_dec::{
    is_digit_byte, is_hex_byte, is_ws_byte, spec_digits_end, spec_digits_val, spec_hex_val,
    spec_scalar_utf8,
    spec_hex4, spec_neg_bound, spec_parse_entries, spec_parse_entries_cont,
    spec_parse_items, spec_parse_items_cont, spec_parse_json, spec_parse_number,
    spec_parse_str_bytes, spec_parse_value, spec_short_escape, spec_skip_ws,
};
use crate::json_enc::{
    spec_dec_digits, spec_enc_entries, spec_enc_entries_rest, spec_enc_entry, spec_enc_int,
    spec_enc_json, spec_enc_list, spec_enc_list_rest, spec_enc_str, spec_esc, spec_esc_byte,
    spec_hex_digit,
};
use vstd::prelude::*;
use vstd::utf8::{decode_utf8, encode_utf8, encode_utf8_decode_utf8, encode_utf8_valid_utf8, valid_utf8};

verus! {

/// A window into a window: knowing `s[pos..pos+n]`, any sub-window of it
/// is the matching sub-window of the known bytes.
proof fn lemma_sub_window(s: Seq<u8>, pos: int, e: Seq<u8>, a: int, b: int)
    requires
        0 <= pos,
        pos + e.len() <= s.len(),
        s.subrange(pos, pos + e.len()) == e,
        0 <= a <= b <= e.len(),
    ensures
        s.subrange(pos + a, pos + b) == e.subrange(a, b),
{
    assert(s.subrange(pos + a, pos + b) =~= e.subrange(a, b)) by {
        assert forall|i: int| 0 <= i < b - a implies s.subrange(pos + a, pos + b)[i] == e.subrange(
            a,
            b,
        )[i] by {
            assert(s.subrange(pos, pos + e.len())[a + i] == s[pos + a + i]);
        }
    }
}

/// Single bytes of a known window.
proof fn lemma_window_index(s: Seq<u8>, pos: int, e: Seq<u8>, i: int)
    requires
        0 <= pos,
        pos + e.len() <= s.len(),
        s.subrange(pos, pos + e.len()) == e,
        0 <= i < e.len(),
    ensures
        s[pos + i] == e[i],
{
    assert(s.subrange(pos, pos + e.len())[i] == s[pos + i]);
}

// ---------------------------------------------------------------------
// Integers
// ---------------------------------------------------------------------

/// Shape of a decimal digit run: nonempty, digits only, and a leading
/// zero appears only as the single digit of zero itself.
proof fn lemma_dec_digits_shape(n: nat)
    ensures
        spec_dec_digits(n).len() >= 1,
        forall|i: int|
            0 <= i < spec_dec_digits(n).len() ==> is_digit_byte(#[trigger] spec_dec_digits(n)[i]),
        spec_dec_digits(n)[0] == 0x30 <==> n == 0,
        n == 0 ==> spec_dec_digits(n).len() == 1,
    decreases n,
{
    if n >= 10 {
        lemma_dec_digits_shape(n / 10);
    }
}

/// A digit run bounded by a non-digit (or the end of input) ends where
/// it ends.
proof fn lemma_digits_end_bounded(s: Seq<u8>, pos: int, end: int)
    requires
        0 <= pos <= end <= s.len(),
        forall|i: int| pos <= i < end ==> is_digit_byte(#[trigger] s[i]),
        end == s.len() || !is_digit_byte(s[end]),
    ensures
        spec_digits_end(s, pos) == end,
    decreases end - pos,
{
    if pos < end {
        lemma_digits_end_bounded(s, pos + 1, end);
    }
}

/// The digits of `n`, read back as a number, give `n`.
proof fn lemma_digits_val_of_dec(n: nat, s: Seq<u8>, pos: int)
    requires
        0 <= pos,
        pos + spec_dec_digits(n).len() <= s.len(),
        s.subrange(pos, pos + spec_dec_digits(n).len()) == spec_dec_digits(n),
    ensures
        spec_digits_val(s, pos, pos + spec_dec_digits(n).len()) == n,
    decreases n,
{
    let e = spec_dec_digits(n);
    let end = pos + e.len();
    if n < 10 {
        lemma_window_index(s, pos, e, 0);
        assert(spec_digits_val(s, pos, end) == spec_digits_val(s, pos, end - 1) * 10 + (n));
    } else {
        let ep = spec_dec_digits(n / 10);
        assert(e == ep.push((0x30 + n % 10) as u8));
        assert(e.subrange(0, ep.len() as int) =~= ep);
        lemma_sub_window(s, pos, e, 0, ep.len() as int);
        lemma_digits_val_of_dec(n / 10, s, pos);
        lemma_window_index(s, pos, e, e.len() - 1);
        assert(e[e.len() - 1] == (0x30 + n % 10) as u8);
        assert(is_digit_byte(s[end - 1]));
        assert((s[end - 1] - 0x30) as nat == n % 10);
        assert(spec_digits_val(s, pos, end) == (n / 10) * 10 + n % 10);
        assert((n / 10) * 10 + n % 10 == n) by (nonlinear_arith);
    }
}

/// Reading a number where the encoder wrote integer `i` gives `i` back,
/// provided no digit follows directly (the next byte, if any, is not a
/// digit).
proof fn lemma_parse_number_of_enc(i: int, s: Seq<u8>, pos: int)
    requires
        i64::MIN <= i <= i64::MAX,
        0 <= pos,
        pos + spec_enc_int(i).len() <= s.len(),
        s.subrange(pos, pos + spec_enc_int(i).len()) == spec_enc_int(i),
        pos + spec_enc_int(i).len() == s.len() || !is_digit_byte(s[pos + spec_enc_int(i).len()]),
    ensures
        spec_parse_number(s, pos) == Some((JsonV::Int(i), pos + spec_enc_int(i).len())),
{
    let e = spec_enc_int(i);
    let end = pos + e.len();
    if i < 0 {
        let n = (-i) as nat;
        let digits = spec_dec_digits(n);
        assert(e == seq![0x2du8] + digits);
        lemma_dec_digits_shape(n);
        lemma_window_index(s, pos, e, 0);
        assert(s[pos] == 0x2d);
        assert(e.subrange(1, e.len() as int) =~= digits);
        lemma_sub_window(s, pos, e, 1, e.len() as int);
        let dstart = pos + 1;
        assert(forall|j: int|
            dstart <= j < end ==> is_digit_byte(#[trigger] s[j])) by {
            assert forall|j: int| dstart <= j < end implies is_digit_byte(#[trigger] s[j]) by {
                lemma_window_index(s, dstart, digits, j - dstart);
            }
        }
        lemma_window_index(s, dstart, digits, 0);
        assert(is_digit_byte(s[dstart]));
        lemma_digits_end_bounded(s, dstart, end);
        lemma_digits_val_of_dec(n, s, dstart);
        assert(spec_digits_val(s, dstart, end) == n);
        assert(n >= 1);
        assert(s[dstart] != 0x30);
        assert(n <= spec_neg_bound());
    } else {
        let n = i as nat;
        let digits = spec_dec_digits(n);
        assert(e == digits);
        lemma_dec_digits_shape(n);
        lemma_window_index(s, pos, e, 0);
        assert(is_digit_byte(s[pos]));
        assert(s[pos] != 0x2d);
        assert(forall|j: int|
            pos <= j < end ==> is_digit_byte(#[trigger] s[j])) by {
            assert forall|j: int| pos <= j < end implies is_digit_byte(#[trigger] s[j]) by {
                lemma_window_index(s, pos, digits, j - pos);
            }
        }
        lemma_digits_end_bounded(s, pos, end);
        lemma_digits_val_of_dec(n, s, pos);
        if n == 0 {
            assert(e.len() == 1);
        } else {
            assert(s[pos] != 0x30);
        }
        assert(n <= spec_neg_bound() - 1);
    }
}

// ---------------------------------------------------------------------
// Strings
// ---------------------------------------------------------------------

/// Escaping then unescaping one byte run is the identity: a string body
/// written as `spec_esc(b)` and closed with a quote reads back as `b`.
proof fn lemma_parse_str_of_esc(b: Seq<u8>, s: Seq<u8>, pos: int)
    requires
        0 <= pos,
        pos + spec_esc(b).len() + 1 <= s.len(),
        s.subrange(pos, pos + spec_esc(b).len()) == spec_esc(b),
        s[pos + spec_esc(b).len()] == 0x22,
    ensures
        spec_parse_str_bytes(s, pos) == Some((b, pos + spec_esc(b).len() + 1)),
    decreases b.len(),
{
    let e = spec_esc(b);
    if b.len() == 0 {
        assert(e =~= Seq::<u8>::empty());
        assert(s[pos] == 0x22);
    } else {
        let b0 = b[0];
        let eb = spec_esc_byte(b0);
        let rest = b.drop_first();
        let erest = spec_esc(rest);
        assert(e == eb + erest);
        let pos2 = pos + eb.len();
        assert(e.subrange(eb.len() as int, e.len() as int) =~= erest);
        lemma_sub_window(s, pos, e, eb.len() as int, e.len() as int);
        assert(s.subrange(pos2, pos2 + erest.len()) == erest);
        lemma_parse_str_of_esc(rest, s, pos2);
        assert(spec_parse_str_bytes(s, pos2) == Some((rest, pos + e.len() + 1)));
        if b0 == 0x22 {
            lemma_window_index(s, pos, e, 0);
            lemma_window_index(s, pos, e, 1);
            assert(s[pos] == 0x5c && s[pos + 1] == 0x22);
            assert(spec_short_escape(s[pos + 1]) == 0x22);
            assert(seq![0x22u8] + rest =~= b);
        } else if b0 == 0x5c {
            lemma_window_index(s, pos, e, 0);
            lemma_window_index(s, pos, e, 1);
            assert(s[pos] == 0x5c && s[pos + 1] == 0x5c);
            assert(spec_short_escape(s[pos + 1]) == 0x5c);
            assert(seq![0x5cu8] + rest =~= b);
        } else if b0 < 0x20 {
            lemma_window_index(s, pos, e, 0);
            lemma_window_index(s, pos, e, 1);
            lemma_window_index(s, pos, e, 2);
            lemma_window_index(s, pos, e, 3);
            lemma_window_index(s, pos, e, 4);
            lemma_window_index(s, pos, e, 5);
            assert(s[pos] == 0x5c && s[pos + 1] == 0x75);
            assert(s[pos + 2] == 0x30 && s[pos + 3] == 0x30);
            let h1 = spec_hex_digit((b0 / 16) as nat);
            let h2 = spec_hex_digit((b0 % 16) as nat);
            assert(s[pos + 4] == h1 && s[pos + 5] == h2);
            assert(spec_short_escape(0x75u8) == 0x100);
            assert(spec_hex_val(0x30u8) == 0 && is_hex_byte(0x30u8));
            assert(spec_hex_val(h1) == (b0 / 16) as nat && spec_hex_val(h2) == (b0 % 16) as nat);
            assert(is_hex_byte(h1) && is_hex_byte(h2));
            let v = spec_hex4(s, pos + 2);
            assert(v == (b0 / 16) * 16 + (b0 % 16));
            assert(v == b0 as nat);
            assert(v < 0x80);
            assert(spec_scalar_utf8(v) =~= seq![b0]);
            assert(seq![b0] + rest =~= b);
        } else {
            lemma_window_index(s, pos, e, 0);
            assert(s[pos] == b0);
            assert(b0 != 0x22 && b0 != 0x5c && b0 >= 0x20);
            assert(seq![b0] + rest =~= b);
        }
    }
}


// ---------------------------------------------------------------------
// Lists and entry lists, taken apart from the front
// ---------------------------------------------------------------------

proof fn lemma_wf_list_parts(l: Seq<JsonV>)
    requires
        wf_json_list(l),
        l.len() > 0,
    ensures
        wf_json(l[0]),
        wf_json_list(l.drop_first()),
    decreases l.len(),
{
    if l.len() == 1 {
        assert(l[0] == l.last());
        assert(l.drop_first() =~= Seq::<JsonV>::empty());
    } else {
        lemma_wf_list_parts(l.drop_last());
        assert(l.drop_last()[0] == l[0]);
        let df = l.drop_first();
        assert(df.drop_last() =~= l.drop_last().drop_first());
        assert(df.last() == l.last());
    }
}

proof fn lemma_depth_list_parts(l: Seq<JsonV>)
    requires
        l.len() > 0,
    ensures
        json_depth_list(l) >= json_depth(l[0]),
        json_depth_list(l) >= json_depth_list(l.drop_first()),
    decreases l.len(),
{
    if l.len() == 1 {
        assert(l[0] == l.last());
        assert(l.drop_first() =~= Seq::<JsonV>::empty());
    } else {
        lemma_depth_list_parts(l.drop_last());
        assert(l.drop_last()[0] == l[0]);
        let df = l.drop_first();
        assert(df.drop_last() =~= l.drop_last().drop_first());
        assert(df.last() == l.last());
    }
}

proof fn lemma_wf_entries_parts(l: Seq<(Seq<char>, JsonV)>)
    requires
        wf_json_entries(l),
        l.len() > 0,
    ensures
        wf_json(l[0].1),
        wf_json_entries(l.drop_first()),
    decreases l.len(),
{
    if l.len() == 1 {
        assert(l[0] == l.last());
        assert(l.drop_first() =~= Seq::<(Seq<char>, JsonV)>::empty());
    } else {
        lemma_wf_entries_parts(l.drop_last());
        assert(l.drop_last()[0] == l[0]);
        let df = l.drop_first();
        assert(df.drop_last() =~= l.drop_last().drop_first());
        assert(df.last() == l.last());
    }
}

proof fn lemma_depth_entries_parts(l: Seq<(Seq<char>, JsonV)>)
    requires
        l.len() > 0,
    ensures
        json_depth_entries(l) >= json_depth(l[0].1),
        json_depth_entries(l) >= json_depth_entries(l.drop_first()),
    decreases l.len(),
{
    if l.len() == 1 {
        assert(l[0] == l.last());
        assert(l.drop_first() =~= Seq::<(Seq<char>, JsonV)>::empty());
    } else {
        lemma_depth_entries_parts(l.drop_last());
        assert(l.drop_last()[0] == l[0]);
        let df = l.drop_first();
        assert(df.drop_last() =~= l.drop_last().drop_first());
        assert(df.last() == l.last());
    }
}

/// The first byte the encoder emits for any value: never whitespace,
/// never a closer or separator, so the decoder's leading
/// whitespace-skip stops right on it and branch selection is exact.
proof fn lemma_enc_json_first(v: JsonV)
    ensures
        spec_enc_json(v).len() >= 1,
        !is_ws_byte(spec_enc_json(v)[0]),
        spec_enc_json(v)[0] != 0x5d,
        spec_enc_json(v)[0] != 0x7d,
        spec_enc_json(v)[0] != 0x2c,
        spec_enc_json(v)[0] != 0x3a,
{
    match v {
        JsonV::Int(i) => {
            if i < 0 {
            } else {
                lemma_dec_digits_shape(i as nat);
                assert(is_digit_byte(spec_enc_int(i)[0]));
            }
        },
        _ => {},
    }
}

// ---------------------------------------------------------------------
// The mutual induction over the encoder's output
// ---------------------------------------------------------------------

/// Reading one value where the encoder wrote `v` gives `v` back and
/// stops exactly at its end, provided no digit follows directly and the
/// depth budget covers `v`.
#[verifier::rlimit(100)]
#[verifier::spinoff_prover]
proof fn lemma_parse_value_of_enc(v: JsonV, s: Seq<u8>, pos: int, d: nat)
    requires
        wf_json(v),
        0 <= pos,
        pos + spec_enc_json(v).len() <= s.len(),
        s.subrange(pos, pos + spec_enc_json(v).len()) == spec_enc_json(v),
        d >= 1 + json_depth(v),
        pos + spec_enc_json(v).len() == s.len() || !is_digit_byte(s[pos + spec_enc_json(v).len()]),
    ensures
        spec_parse_value(s, pos, d) == Some((v, pos + spec_enc_json(v).len())),
    decreases v, 0int,
{
    let e = spec_enc_json(v);
    let end = pos + e.len();
    lemma_enc_json_first(v);
    lemma_window_index(s, pos, e, 0);
    assert(spec_skip_ws(s, pos) == pos);
    match v {
        JsonV::Null => {
            lemma_window_index(s, pos, e, 1);
            lemma_window_index(s, pos, e, 2);
            lemma_window_index(s, pos, e, 3);
        },
        JsonV::Bool(b) => {
            lemma_window_index(s, pos, e, 1);
            lemma_window_index(s, pos, e, 2);
            lemma_window_index(s, pos, e, 3);
            if !b {
                lemma_window_index(s, pos, e, 4);
            }
        },
        JsonV::Int(i) => {
            lemma_parse_number_of_enc(i, s, pos);
            if i < 0 {
                assert(s[pos] == 0x2d);
            } else {
                lemma_dec_digits_shape(i as nat);
                assert(is_digit_byte(s[pos]));
            }
        },
        JsonV::Str(chars) => {
            let body = spec_esc(encode_utf8(chars));
            assert(e == seq![0x22u8] + body + seq![0x22u8]);
            assert(s[pos] == 0x22);
            assert(e.subrange(1, 1 + body.len() as int) =~= body);
            lemma_sub_window(s, pos, e, 1, 1 + body.len() as int);
            lemma_window_index(s, pos, e, e.len() - 1);
            assert(s[pos + 1 + body.len()] == 0x22);
            lemma_parse_str_of_esc(encode_utf8(chars), s, pos + 1);
            encode_utf8_valid_utf8(chars);
            encode_utf8_decode_utf8(chars);
            assert(spec_parse_value(s, pos, d) == Some((JsonV::Str(chars), end)));
        },
        JsonV::Arr(items) => {
            let le = spec_enc_list(items);
            assert(e == seq![0x5bu8] + le + seq![0x5du8]);
            assert(s[pos] == 0x5b);
            assert(e.subrange(1, 1 + le.len() as int) =~= le);
            lemma_sub_window(s, pos, e, 1, 1 + le.len() as int);
            lemma_window_index(s, pos, e, e.len() - 1);
            assert(s[pos + 1 + le.len()] == 0x5d);
            lemma_parse_items_of_enc(items, s, pos + 1, (d - 1) as nat);
            assert(spec_parse_value(s, pos, d) == Some((JsonV::Arr(items), end)));
        },
        JsonV::Obj(entries) => {
            let le = spec_enc_entries(entries);
            assert(e == seq![0x7bu8] + le + seq![0x7du8]);
            assert(s[pos] == 0x7b);
            assert(e.subrange(1, 1 + le.len() as int) =~= le);
            lemma_sub_window(s, pos, e, 1, 1 + le.len() as int);
            lemma_window_index(s, pos, e, e.len() - 1);
            assert(s[pos + 1 + le.len()] == 0x7d);
            lemma_parse_entries_of_enc(entries, s, pos + 1, (d - 1) as nat);
            assert(spec_parse_value(s, pos, d) == Some((JsonV::Obj(entries), end)));
        },
    }
}

/// Reading array items where the encoder wrote `items` followed by `]`
/// gives `items` back, ending just past the `]`.
proof fn lemma_parse_items_of_enc(items: Seq<JsonV>, s: Seq<u8>, pos: int, d: nat)
    requires
        wf_json_list(items),
        0 <= pos,
        pos + spec_enc_list(items).len() + 1 <= s.len(),
        s.subrange(pos, pos + spec_enc_list(items).len()) == spec_enc_list(items),
        s[pos + spec_enc_list(items).len()] == 0x5d,
        d >= 1 + json_depth_list(items),
    ensures
        spec_parse_items(s, pos, d) == Some((items, pos + spec_enc_list(items).len() + 1)),
    decreases items, 2int,
{
    let le = spec_enc_list(items);
    if items.len() == 0 {
        assert(le =~= Seq::<u8>::empty());
        assert(s[pos] == 0x5d);
        assert(spec_skip_ws(s, pos) == pos);
        assert(spec_parse_items(s, pos, d) == Some((Seq::<JsonV>::empty(), pos + 1)));
        assert(Seq::<JsonV>::empty() =~= items);
    } else {
        let v0 = items[0];
        let e0 = spec_enc_json(v0);
        assert(le == e0 + spec_enc_list_rest(items.drop_first()));
        assert(le.subrange(0, e0.len() as int) =~= e0);
        lemma_sub_window(s, pos, le, 0, e0.len() as int);
        lemma_enc_json_first(v0);
        lemma_window_index(s, pos, e0, 0);
        assert(spec_skip_ws(s, pos) == pos);
        assert(s[pos] != 0x5d);
        lemma_parse_items_cont_of_enc(items, s, pos, d);
    }
}

/// The continuation form of the same fact, for one or more items.
proof fn lemma_parse_items_cont_of_enc(items: Seq<JsonV>, s: Seq<u8>, pos: int, d: nat)
    requires
        items.len() >= 1,
        wf_json_list(items),
        0 <= pos,
        pos + spec_enc_list(items).len() + 1 <= s.len(),
        s.subrange(pos, pos + spec_enc_list(items).len()) == spec_enc_list(items),
        s[pos + spec_enc_list(items).len()] == 0x5d,
        d >= 1 + json_depth_list(items),
    ensures
        spec_parse_items_cont(s, pos, d) == Some((items, pos + spec_enc_list(items).len() + 1)),
    decreases items, 1int,
{
    let le = spec_enc_list(items);
    let close = pos + le.len();
    let v0 = items[0];
    let rest = items.drop_first();
    lemma_wf_list_parts(items);
    lemma_depth_list_parts(items);
    let e0 = spec_enc_json(v0);
    assert(le == e0 + spec_enc_list_rest(rest));
    assert(le.subrange(0, e0.len() as int) =~= e0);
    lemma_sub_window(s, pos, le, 0, e0.len() as int);
    let e0end = pos + e0.len();
    lemma_enc_json_first(v0);
    lemma_window_index(s, pos, e0, 0);
    if rest.len() == 0 {
        assert(spec_enc_list_rest(rest) =~= Seq::<u8>::empty());
        assert(e0end == close);
        lemma_parse_value_of_enc(v0, s, pos, d);
        assert(spec_parse_value(s, pos, d) == Some((v0, e0end)));
        assert(spec_skip_ws(s, e0end) == e0end);
        assert(s[e0end] == 0x5d);
        assert(spec_parse_items_cont(s, pos, d) == Some((seq![v0], e0end + 1)));
        assert(seq![v0] =~= items);
    } else {
        assert(spec_enc_list_rest(rest) =~= seq![0x2cu8] + spec_enc_list(rest));
        let lrest = spec_enc_list(rest);
        assert(le =~= e0 + seq![0x2cu8] + lrest);
        lemma_window_index(s, pos, le, e0.len() as int);
        assert(s[e0end] == 0x2c);
        assert(!is_digit_byte(0x2cu8));
        lemma_parse_value_of_enc(v0, s, pos, d);
        assert(spec_parse_value(s, pos, d) == Some((v0, e0end)));
        assert(spec_skip_ws(s, e0end) == e0end);
        assert(le.subrange(e0.len() as int + 1, le.len() as int) =~= lrest);
        lemma_sub_window(s, pos, le, e0.len() as int + 1, le.len() as int);
        assert(s.subrange(e0end + 1, e0end + 1 + lrest.len()) == lrest);
        assert(e0end + 1 + lrest.len() == close);
        lemma_parse_items_cont_of_enc(rest, s, e0end + 1, d);
        assert(spec_parse_items_cont(s, e0end + 1, d) == Some((rest, close + 1)));
        assert(spec_parse_items_cont(s, pos, d) == Some((seq![v0] + rest, close + 1)));
        assert(seq![v0] + rest =~= items);
    }
}

/// Reading object entries where the encoder wrote `entries` followed by
/// `}` gives `entries` back, ending just past the `}`.
proof fn lemma_parse_entries_of_enc(entries: Seq<(Seq<char>, JsonV)>, s: Seq<u8>, pos: int, d: nat)
    requires
        wf_json_entries(entries),
        0 <= pos,
        pos + spec_enc_entries(entries).len() + 1 <= s.len(),
        s.subrange(pos, pos + spec_enc_entries(entries).len()) == spec_enc_entries(entries),
        s[pos + spec_enc_entries(entries).len()] == 0x7d,
        d >= 1 + json_depth_entries(entries),
    ensures
        spec_parse_entries(s, pos, d) == Some((entries, pos + spec_enc_entries(entries).len() + 1)),
    decreases entries, 2int,
{
    let le = spec_enc_entries(entries);
    if entries.len() == 0 {
        assert(le =~= Seq::<u8>::empty());
        assert(s[pos] == 0x7d);
        assert(spec_skip_ws(s, pos) == pos);
        assert(spec_parse_entries(s, pos, d) == Some(
            (Seq::<(Seq<char>, JsonV)>::empty(), pos + 1),
        ));
        assert(Seq::<(Seq<char>, JsonV)>::empty() =~= entries);
    } else {
        let e0 = spec_enc_entry(entries[0].0, entries[0].1);
        assert(le == e0 + spec_enc_entries_rest(entries.drop_first()));
        assert(le.subrange(0, e0.len() as int) =~= e0);
        lemma_sub_window(s, pos, le, 0, e0.len() as int);
        let kbody = spec_esc(encode_utf8(entries[0].0));
        assert(spec_enc_str(entries[0].0) == seq![0x22u8] + kbody + seq![0x22u8]);
        assert(e0 =~= seq![0x22u8] + kbody + seq![0x22u8] + seq![0x3au8] + spec_enc_json(
            entries[0].1,
        ));
        lemma_window_index(s, pos, e0, 0);
        assert(s[pos] == 0x22);
        assert(spec_skip_ws(s, pos) == pos);
        assert(s[pos] != 0x7d);
        lemma_parse_entries_cont_of_enc(entries, s, pos, d);
    }
}

/// The continuation form of the same fact, for one or more entries.
#[verifier::rlimit(100)]
#[verifier::spinoff_prover]
proof fn lemma_parse_entries_cont_of_enc(
    entries: Seq<(Seq<char>, JsonV)>,
    s: Seq<u8>,
    pos: int,
    d: nat,
)
    requires
        entries.len() >= 1,
        wf_json_entries(entries),
        0 <= pos,
        pos + spec_enc_entries(entries).len() + 1 <= s.len(),
        s.subrange(pos, pos + spec_enc_entries(entries).len()) == spec_enc_entries(entries),
        s[pos + spec_enc_entries(entries).len()] == 0x7d,
        d >= 1 + json_depth_entries(entries),
    ensures
        spec_parse_entries_cont(s, pos, d) == Some(
            (entries, pos + spec_enc_entries(entries).len() + 1),
        ),
    decreases entries, 1int,
{
    let le = spec_enc_entries(entries);
    let close = pos + le.len();
    let k0 = entries[0].0;
    let v0 = entries[0].1;
    let rest = entries.drop_first();
    lemma_wf_entries_parts(entries);
    lemma_depth_entries_parts(entries);
    let e0 = spec_enc_entry(k0, v0);
    assert(le == e0 + spec_enc_entries_rest(rest));
    assert(le.subrange(0, e0.len() as int) =~= e0);
    lemma_sub_window(s, pos, le, 0, e0.len() as int);
    let e0end = pos + e0.len();
    // the entry itself: "key":value
    let kbody = spec_esc(encode_utf8(k0));
    let ev = spec_enc_json(v0);
    assert(spec_enc_str(k0) == seq![0x22u8] + kbody + seq![0x22u8]);
    assert(e0 =~= seq![0x22u8] + kbody + seq![0x22u8] + seq![0x3au8] + ev);
    lemma_window_index(s, pos, e0, 0);
    assert(s[pos] == 0x22);
    assert(spec_skip_ws(s, pos) == pos);
    // the key string
    assert(e0.subrange(1, 1 + kbody.len() as int) =~= kbody);
    lemma_sub_window(s, pos, e0, 1, 1 + kbody.len() as int);
    lemma_window_index(s, pos, e0, 1 + kbody.len() as int);
    assert(s[pos + 1 + kbody.len()] == 0x22);
    lemma_parse_str_of_esc(encode_utf8(k0), s, pos + 1);
    encode_utf8_valid_utf8(k0);
    encode_utf8_decode_utf8(k0);
    let ke = pos + 2 + kbody.len();
    assert(spec_parse_str_bytes(s, pos + 1) == Some((encode_utf8(k0), ke)));
    // the colon
    lemma_window_index(s, pos, e0, 2 + kbody.len() as int);
    assert(s[ke] == 0x3a);
    assert(spec_skip_ws(s, ke) == ke);
    // the value
    let vstart = ke + 1;
    assert(e0.subrange(3 + kbody.len() as int, e0.len() as int) =~= ev);
    lemma_sub_window(s, pos, e0, 3 + kbody.len() as int, e0.len() as int);
    assert(s.subrange(vstart, vstart + ev.len()) == ev);
    assert(vstart + ev.len() == e0end);
    if rest.len() == 0 {
        assert(spec_enc_entries_rest(rest) =~= Seq::<u8>::empty());
        assert(e0end == close);
        assert(s[e0end] == 0x7d);
        lemma_parse_value_of_enc(v0, s, vstart, d);
        assert(spec_parse_value(s, vstart, d) == Some((v0, e0end)));
        assert(spec_skip_ws(s, e0end) == e0end);
        assert(spec_parse_entries_cont(s, pos, d) == Some((seq![(k0, v0)], e0end + 1)));
        assert(seq![(k0, v0)] =~= entries);
    } else {
        assert(spec_enc_entries_rest(rest) =~= seq![0x2cu8] + spec_enc_entries(rest));
        let lrest = spec_enc_entries(rest);
        assert(le =~= e0 + seq![0x2cu8] + lrest);
        lemma_window_index(s, pos, le, e0.len() as int);
        assert(s[e0end] == 0x2c);
        assert(!is_digit_byte(0x2cu8));
        lemma_parse_value_of_enc(v0, s, vstart, d);
        assert(spec_parse_value(s, vstart, d) == Some((v0, e0end)));
        assert(spec_skip_ws(s, e0end) == e0end);
        assert(le.subrange(e0.len() as int + 1, le.len() as int) =~= lrest);
        lemma_sub_window(s, pos, le, e0.len() as int + 1, le.len() as int);
        assert(s.subrange(e0end + 1, e0end + 1 + lrest.len()) == lrest);
        assert(e0end + 1 + lrest.len() == close);
        lemma_parse_entries_cont_of_enc(rest, s, e0end + 1, d);
        assert(spec_parse_entries_cont(s, e0end + 1, d) == Some((rest, close + 1)));
        assert(spec_parse_entries_cont(s, pos, d) == Some((seq![(k0, v0)] + rest, close + 1)));
        assert(seq![(k0, v0)] + rest =~= entries);
    }
}

/// The codec round trip: any well-formed value within the decoder's
/// depth bound, encoded and decoded, comes back unchanged.
pub proof fn lemma_json_round_trip(v: JsonV)
    requires
        wf_json(v),
        json_depth(v) < MAX_JSON_DEPTH as nat,
    ensures
        spec_parse_json(spec_enc_json(v)) == Some(v),
{
    let s = spec_enc_json(v);
    assert(s.subrange(0, s.len() as int) =~= s);
    lemma_parse_value_of_enc(v, s, 0, MAX_JSON_DEPTH as nat);
    assert(spec_parse_value(s, 0, MAX_JSON_DEPTH as nat) == Some((v, s.len() as int)));
    assert(spec_skip_ws(s, s.len() as int) == s.len());
}

} // verus!
