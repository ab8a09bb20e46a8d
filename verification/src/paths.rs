//! Path text helpers: the file name at the end of a path, and
//! splitting a path into a serving root and an index page.
//!
//! Paths are treated as plain `/`-separated text: trailing separators
//! are ignored, the last component is the file name, and `.` or `..`
//! do not name a file.  This is the library's own reading of a path
//! string; the filesystem itself is never consulted here.

use crate::strutil::{lemma_boundary_after_ascii, string_from_utf8};
use vstd::prelude::*;
use vstd::slice::{slice_index_get, slice_subrange, slice_to_vec};
use vstd::string::{StrSliceExecFns, StringExecFns, StringSliceAdditionalSpecFns};
use vstd::utf8::{
    decode_utf8_encode_utf8, encode_utf8, is_char_boundary,
    is_char_boundary_iff_not_is_continuation_byte, is_char_boundary_start_end_of_seq, valid_utf8,
    valid_utf8_split,
};

verus! {

/// Length of `b` with trailing `/` bytes removed.
pub open spec fn spec_strip_slashes(b: Seq<u8>) -> int
    decreases b.len(),
{
    if b.len() > 0 && b.last() == 0x2f {
        spec_strip_slashes(b.drop_last())
    } else {
        b.len() as int
    }
}

/// Start of the path component ending at `t`: the position just past
/// the last `/` before `t`, or 0.
pub open spec fn spec_comp_start(b: Seq<u8>, t: int) -> int
    decreases t,
{
    if t <= 0 {
        0
    } else if b[t - 1] == 0x2f {
        t
    } else {
        spec_comp_start(b, t - 1)
    }
}

/// The file name at the end of a path: its last component, with
/// trailing separators ignored; nothing when the path is empty (after
/// separators) or ends in `.` or `..`.
pub open spec fn spec_file_name(b: Seq<u8>) -> Option<Seq<u8>> {
    let t = spec_strip_slashes(b);
    let s = spec_comp_start(b, t);
    let comp = b.subrange(s, t);
    if comp.len() == 0 {
        None
    } else if comp == seq![0x2eu8] || comp == seq![0x2eu8, 0x2eu8] {
        None
    } else {
        Some(comp)
    }
}

/// The last path component, exactly as `spec_file_name` says of the
/// path's UTF-8 bytes.
#[verifier::loop_isolation(false)]
#[verifier::rlimit(100)]
pub fn file_name(path: String) -> (r: Option<String>)
    ensures
        match r {
            Some(name) => spec_file_name(encode_utf8(path@)) == Some(
                encode_utf8(name@),
            ),
            None => spec_file_name(encode_utf8(path@)) is None,
        },
{
    let b = path.as_str().as_bytes();
    let n = b.len();
    let mut t: usize = n;
    proof {
        vstd::utf8::encode_utf8_valid_utf8(path@);
        assert(b@.take(n as int) =~= b@);
    }
    while t > 0 && *slice_index_get(b, t - 1) == 0x2f
        invariant
            t <= n,
            spec_strip_slashes(b@) == spec_strip_slashes(b@.take(t as int)),
            forall|k: int| t <= k < n ==> b@[k] == 0x2f,
        decreases t,
    {
        proof {
            assert(b@.take(t as int).drop_last() =~= b@.take(t - 1));
        }
        t = t - 1;
    }
    proof {
        if t > 0 {
            assert(b@.take(t as int).last() == b@[t - 1]);
        } else {
            assert(b@.take(0) =~= Seq::<u8>::empty());
        }
        assert(spec_strip_slashes(b@) == t);
    }
    let mut s: usize = t;
    while s > 0 && *slice_index_get(b, s - 1) != 0x2f
        invariant
            s <= t,
            spec_comp_start(b@, t as int) == spec_comp_start(b@, s as int),
        decreases s,
    {
        s = s - 1;
    }
    proof {
        assert(spec_comp_start(b@, t as int) == s);
    }
    if s == t {
        return None;
    }
    let len = t - s;
    if len == 1 && *slice_index_get(b, s) == 0x2e {
        proof {
            assert(b@.subrange(s as int, t as int) =~= seq![0x2eu8]);
        }
        return None;
    }
    if len == 2 && *slice_index_get(b, s) == 0x2e && *slice_index_get(b, s + 1) == 0x2e {
        proof {
            assert(b@.subrange(s as int, t as int) =~= seq![0x2eu8, 0x2eu8]);
        }
        return None;
    }
    let comp = slice_to_vec(slice_subrange(b, s, t));
    let ghost compv = comp@;
    proof {
        lemma_component_valid(b@, s as int, t as int);
        let fname = spec_file_name(b@);
        assert(compv == b@.subrange(s as int, t as int));
        assert(compv.len() >= 1);
        if compv.len() == 1 {
            assert(compv[0] != 0x2e);
            assert(compv != seq![0x2eu8]);
        }
        if compv.len() == 2 {
            assert(compv[0] != 0x2e || compv[1] != 0x2e);
            assert(compv != seq![0x2eu8, 0x2eu8]);
        }
        assert(fname == Some(compv));
    }
    match string_from_utf8(comp) {
        Some(name) => {
            proof {
                decode_utf8_encode_utf8(compv);
            }
            Some(name)
        },
        None => {
            proof {
                assert(false);
            }
            None
        },
    }
}

/// A component cut at separator positions out of a valid UTF-8 path is
/// itself valid UTF-8: both cut points are character boundaries.
proof fn lemma_component_valid(b: Seq<u8>, s: int, t: int)
    requires
        valid_utf8(b),
        0 <= s <= t <= b.len(),
        s > 0 ==> b[s - 1] == 0x2f,
        t < b.len() ==> b[t] == 0x2f,
    ensures
        valid_utf8(b.subrange(s, t)),
{
    is_char_boundary_start_end_of_seq(b);
    if s > 0 {
        lemma_boundary_after_ascii(b, s);
    }
    assert(is_char_boundary(b, s));
    valid_utf8_split(b, s);
    let tail = b.subrange(s, b.len() as int);
    assert(valid_utf8(tail));
    is_char_boundary_start_end_of_seq(tail);
    if t < b.len() {
        assert(tail[t - s] == b[t]);
        assert(!vstd::utf8::is_continuation_byte(tail[t - s])) by {
            let x = tail[t - s];
            assert(x == 0x2f ==> !((x & 0xc0) == 0x80)) by (bit_vector);
        }
        if t - s < tail.len() {
            is_char_boundary_iff_not_is_continuation_byte(tail, t - s);
        }
    }
    assert(is_char_boundary(tail, t - s));
    valid_utf8_split(tail, t - s);
    assert(tail.subrange(0, t - s) =~= b.subrange(s, t));
}

/// Splitting a path into the root to serve and the index page: the
/// text before the last component (a lone `/` kept, `.` when there is
/// none), and the component itself (`index.html` when the path names a
/// directory or ends without a usable name).  Whether the path names a
/// directory is the embedder's filesystem knowledge, passed in.
/// A path that is empty or all whitespace is refused.
#[verifier::loop_isolation(false)]
pub fn split_root_and_index(input: &str, input_is_dir: bool) -> (r: Result<
    (String, String),
    String,
>)
    ensures
        ({
            let bv = input.spec_bytes();
            match r {
                Err(_) => forall|i: int|
                    0 <= i < bv.len() ==> is_ascii_ws(#[trigger] bv[i]),
                Ok((root, index)) => {
                    &&& !(forall|i: int| 0 <= i < bv.len() ==> is_ascii_ws(#[trigger] bv[i]))
                    &&& (input_is_dir ==> root@ == input@ && index@ == "index.html"@)
                    &&& (!input_is_dir ==> {
                        let t = spec_strip_slashes(bv);
                        let s = spec_comp_start(bv, t);
                        &&& encode_utf8(root@) == (if s == 0 {
                            encode_utf8("."@)
                        } else if s == 1 {
                            seq![0x2fu8]
                        } else {
                            bv.subrange(0, s - 1)
                        })
                        &&& (match spec_file_name(bv) {
                            Some(name) => encode_utf8(index@) == name,
                            None => index@ == "index.html"@,
                        })
                    })
                },
            }
        }),
{
    let b = input.as_bytes();
    let n = b.len();
    let mut i: usize = 0;
    let mut all_ws = true;
    while i < n
        invariant
            i <= n,
            all_ws == (forall|k: int| 0 <= k < i ==> is_ascii_ws(#[trigger] b@[k])),
        decreases n - i,
    {
        let c = *slice_index_get(b, i);
        if !(c == 0x20 || c == 0x09 || c == 0x0a || c == 0x0b || c == 0x0c || c == 0x0d) {
            all_ws = false;
            proof {
                assert(!is_ascii_ws(b@[i as int]));
            }
        }
        i = i + 1;
    }
    if all_ws {
        return Err(String::from_str("Path must not be empty"));
    }
    if input_is_dir {
        return Ok((input.to_owned(), String::from_str("index.html")));
    }
    let mut t: usize = n;
    proof {
        vstd::utf8::encode_utf8_valid_utf8(input@);
        assert(b@.take(n as int) =~= b@);
    }
    while t > 0 && *slice_index_get(b, t - 1) == 0x2f
        invariant
            t <= n,
            spec_strip_slashes(b@) == spec_strip_slashes(b@.take(t as int)),
            forall|k: int| t <= k < n ==> b@[k] == 0x2f,
        decreases t,
    {
        proof {
            assert(b@.take(t as int).drop_last() =~= b@.take(t - 1));
        }
        t = t - 1;
    }
    proof {
        if t > 0 {
            assert(b@.take(t as int).last() == b@[t - 1]);
        } else {
            assert(b@.take(0) =~= Seq::<u8>::empty());
        }
        assert(spec_strip_slashes(b@) == t);
    }
    let mut s: usize = t;
    while s > 0 && *slice_index_get(b, s - 1) != 0x2f
        invariant
            s <= t,
            spec_comp_start(b@, t as int) == spec_comp_start(b@, s as int),
        decreases s,
    {
        s = s - 1;
    }
    proof {
        assert(spec_comp_start(b@, t as int) == s);
    }
    let root: String = if s == 0 {
        proof {
            reveal_strlit(".");
            vstd::utf8::is_ascii_chars_encode_utf8("."@);
        }
        String::from_str(".")
    } else if s == 1 {
        proof {
            reveal_strlit("/");
            vstd::utf8::is_ascii_chars_encode_utf8("/"@);
            assert(encode_utf8("/"@) =~= seq![0x2fu8]);
        }
        String::from_str("/")
    } else {
        let root_bytes = slice_to_vec(slice_subrange(b, 0, s - 1));
        let ghost rbv = root_bytes@;
        proof {
            lemma_root_valid(b@, s as int);
        }
        match string_from_utf8(root_bytes) {
            Some(rs) => {
                proof {
                    decode_utf8_encode_utf8(rbv);
                }
                rs
            },
            None => {
                proof {
                    assert(false);
                }
                String::new()
            },
        }
    };
    let index: String = match file_name(input.to_owned()) {
        Some(name) => name,
        None => String::from_str("index.html"),
    };
    Ok((root, index))
}

/// ASCII whitespace, as the empty-path check reads it.
pub open spec fn is_ascii_ws(b: u8) -> bool {
    b == 0x20 || b == 0x09 || b == 0x0a || b == 0x0b || b == 0x0c || b == 0x0d
}

/// The text before a component's separator is valid UTF-8.
proof fn lemma_root_valid(b: Seq<u8>, s: int)
    requires
        valid_utf8(b),
        2 <= s <= b.len(),
        b[s - 1] == 0x2f,
    ensures
        valid_utf8(b.subrange(0, s - 1)),
{
    is_char_boundary_start_end_of_seq(b);
    assert(!vstd::utf8::is_continuation_byte(b[s - 1])) by {
        let x = b[s - 1];
        assert(x == 0x2f ==> !((x & 0xc0) == 0x80)) by (bit_vector);
    }
    is_char_boundary_iff_not_is_continuation_byte(b, s - 1);
    valid_utf8_split(b, s - 1);
}

} // verus!
