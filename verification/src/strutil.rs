//! Turning byte sequences back into strings, and the ASCII facts the
//! library's string-producing functions lean on.

use vstd::prelude::*;
use vstd::utf8::{
    decode_utf8, encode_utf8, is_char_boundary, is_continuation_byte, length_of_first_scalar,
    pop_first_scalar, valid_utf8,
};

verus! {

/// Relies on String::from_utf8: it succeeds exactly on valid UTF-8 and
/// the returned string holds those bytes, so its characters are their
/// decoding.
#[verifier::external_body]
pub(crate) fn string_from_utf8(v: Vec<u8>) -> (r: Option<String>)
    ensures
        match r {
            Some(st) => valid_utf8(v@) && st@ == decode_utf8(v@),
            None => !valid_utf8(v@),
        },
{
    String::from_utf8(v).ok()
}

/// A sequence of ASCII bytes is valid UTF-8.
pub proof fn lemma_ascii_bytes_valid_utf8(b: Seq<u8>)
    requires
        forall|i: int| 0 <= i < b.len() ==> #[trigger] b[i] < 0x80,
    ensures
        valid_utf8(b),
    decreases b.len(),
{
    if b.len() > 0 {
        let b0 = b[0];
        assert((b0 & 0x80) == 0 && !((b0 & 0xc0) == 0x80) && !((b0 & 0xe0) == 0xc0) && !((b0
            & 0xf0) == 0xe0) && !((b0 & 0xf8) == 0xf0)) by (bit_vector)
            requires
                b0 < 0x80,
        ;
        assert(length_of_first_scalar(b) == 1);
        assert(pop_first_scalar(b) =~= b.drop_first());
        lemma_ascii_bytes_valid_utf8(b.drop_first());
    }
}

/// UTF-8 encoding distributes over concatenation.
pub proof fn lemma_encode_utf8_concat(c1: Seq<char>, c2: Seq<char>)
    ensures
        encode_utf8(c1 + c2) == encode_utf8(c1) + encode_utf8(c2),
    decreases c1.len(),
{
    if c1.len() == 0 {
        assert(c1 + c2 =~= c2);
        assert(encode_utf8(c1) =~= Seq::<u8>::empty());
        assert(encode_utf8(c1) + encode_utf8(c2) =~= encode_utf8(c2));
    } else {
        assert((c1 + c2)[0] == c1[0]);
        assert((c1 + c2).drop_first() =~= c1.drop_first() + c2);
        lemma_encode_utf8_concat(c1.drop_first(), c2);
        assert(encode_utf8(c1 + c2) =~= encode_utf8(c1) + encode_utf8(c2));
    }
}

/// A nonempty character sequence encodes to at least one byte.
pub proof fn lemma_encode_utf8_empty(c: Seq<char>)
    ensures
        encode_utf8(c).len() == 0 <==> c.len() == 0,
{
    if c.len() > 0 {
        assert(vstd::utf8::encode_scalar(c[0] as u32).len() >= 1);
    }
}

/// In valid UTF-8, the position just after an ASCII byte is a
/// character boundary: no multi-byte scalar can span across an ASCII
/// byte.
pub proof fn lemma_boundary_after_ascii(s: Seq<u8>, i: int)
    requires
        valid_utf8(s),
        0 < i <= s.len(),
        s[i - 1] < 0x80,
    ensures
        is_char_boundary(s, i),
    decreases s.len(),
{
    let l = length_of_first_scalar(s);
    assert(1 <= l <= 4);
    if i - 1 < l {
        if l == 1 {
            assert(i == 1);
            assert(is_char_boundary(pop_first_scalar(s), 0));
        } else {
            let b = s[i - 1];
            if i - 1 == 0 {
                assert(((b & 0xe0) == 0xc0 || (b & 0xf0) == 0xe0 || (b & 0xf8) == 0xf0) ==> b
                    >= 0x80) by (bit_vector);
                assert(false);
            } else {
                assert(is_continuation_byte(b));
                assert((b & 0xc0) == 0x80 ==> b >= 0x80) by (bit_vector);
                assert(false);
            }
        }
    } else {
        lemma_boundary_after_ascii(pop_first_scalar(s), i - l);
        assert(pop_first_scalar(s)[i - l - 1] == s[i - 1]);
    }
}

} // verus!
