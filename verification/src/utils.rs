//! Small shared pieces: shared-ownership helpers, the request id
//! counter, URL joining, and packing two byte ids into one word.

use crate::json::{json_view_entries, Json, JsonV};
use crate::options::{lemma_obj_get_found, lemma_obj_get_missing, spec_obj_get};
use crate::pending::PendingTable;
use crate::strutil::{lemma_encode_utf8_concat, lemma_encode_utf8_empty};
use std::sync::Arc;
use vstd::prelude::*;
use vstd::string::{StrSliceExecFns, StringExecFns, StringSliceAdditionalSpecFns};
use vstd::utf8::encode_utf8;

verus! {

/// Wraps a value for shared ownership.
pub fn arc<T>(t: T) -> (r: Arc<T>)
    ensures
        r == t,
{
    Arc::new(t)
}

/// Hands out request ids, skipping those still in flight.
pub struct IdCounter {
    next_id: u8,
}

/// `start + j`, wrapped to a byte.
pub open spec fn spec_wrap_id(start: int, j: int) -> u8
    recommends
        0 <= start < 256,
        0 <= j < 256,
{
    if start + j < 256 {
        (start + j) as u8
    } else {
        (start + j - 256) as u8
    }
}

/// The first of the 255 candidates `start`, `start + 1`, ... (wrapped
/// to a byte) not in `taken`, scanning from candidate `j` on; `None`
/// when every candidate from `j` on is taken.
pub open spec fn spec_free_scan(taken: Set<u8>, start: int, j: int) -> Option<u8>
    decreases 255 - j,
{
    if j < 0 || j >= 255 {
        None
    } else if !taken.contains(spec_wrap_id(start, j)) {
        Some(spec_wrap_id(start, j))
    } else {
        spec_free_scan(taken, start, j + 1)
    }
}

impl IdCounter {
    /// The next id the counter will try.
    pub closed spec fn spec_next_id(&self) -> u8 {
        self.next_id
    }

    pub fn new() -> (r: Self)
        ensures
            r.spec_next_id() == 0,
    {
        IdCounter { next_id: 0 }
    }

    /// The first id at or after the counter's cursor (wrapping) that
    /// is not in flight in `excludes`, exactly as `spec_free_scan`
    /// says from candidate 0; fails only when all 255 candidates are
    /// in flight.
    #[verifier::loop_isolation(false)]
    pub fn next<T>(&mut self, excludes: &PendingTable<T>) -> (r: Result<u8, String>)
        requires
            old(self).spec_next_id() < 256,
            excludes.wf(),
        ensures
            match r {
                Ok(id) => spec_free_scan(excludes@.dom(), old(self).spec_next_id() as int, 0)
                    == Some(id) && !excludes@.dom().contains(id),
                Err(_) => spec_free_scan(excludes@.dom(), old(self).spec_next_id() as int, 0)
                    is None && (forall|j: int|
                    0 <= j < 255 ==> excludes@.dom().contains(
                        #[trigger] spec_wrap_id(old(self).spec_next_id() as int, j),
                    )),
            },
    {
        let ghost start = self.next_id as int;
        let ghost dom = excludes@.dom();
        let mut k: usize = 0;
        while k < 255
            invariant
                k <= 255,
                self.next_id == spec_wrap_id(start, k as int),
                spec_free_scan(dom, start, 0) == spec_free_scan(dom, start, k as int),
                forall|j: int|
                    0 <= j < k ==> dom.contains(#[trigger] spec_wrap_id(start, j)),
            decreases 255 - k,
        {
            let id = self.next_id;
            if !excludes.contains(id) {
                proof {
                    assert(spec_free_scan(dom, start, k as int) == Some(id));
                }
                return Ok(id);
            }
            self.next_id = if id == 255 {
                0
            } else {
                id + 1
            };
            k = k + 1;
        }
        Err(String::from_str("Failed to find a valid id."))
    }
}

/// A fresh counter over an empty table hands out id 0.
pub proof fn lemma_fresh_counter_starts_at_zero()
    ensures
        spec_free_scan(Set::<u8>::empty(), 0, 0) == Some(0u8),
{
}

/// Joining a base and a path: the empty path leaves the base alone;
/// otherwise exactly one `/` separates them.
pub open spec fn spec_url_join(l: Seq<u8>, r: Seq<u8>) -> Seq<u8> {
    if r.len() == 0 {
        l
    } else if l.len() > 0 && l.last() == 0x2f {
        l + r
    } else {
        l + seq![0x2fu8] + r
    }
}

/// Joins a base URL and a path, exactly as `spec_url_join` says of
/// their UTF-8 bytes.
pub fn url_join(left: &str, right: &str) -> (res: String)
    ensures
        encode_utf8(res@) == spec_url_join(left.spec_bytes(), right.spec_bytes()),
{
    proof {
        lemma_encode_utf8_empty(right@);
    }
    if right.is_empty() {
        left.to_owned()
    } else {
        let lb = left.as_bytes();
        let n = lb.len();
        if n > 0 && *vstd::slice::slice_index_get(lb, n - 1) == 0x2f {
            let res = String::from_str(left).concat(right);
            proof {
                lemma_encode_utf8_concat(left@, right@);
            }
            res
        } else {
            let res = String::from_str(left).concat("/").concat(right);
            proof {
                reveal_strlit("/");
                assert("/"@ =~= seq!['/']);
                lemma_encode_utf8_concat(left@ + "/"@, right@);
                lemma_encode_utf8_concat(left@, "/"@);
                vstd::utf8::is_ascii_chars_encode_utf8(seq!['/']);
                assert(encode_utf8(seq!['/']) =~= seq![0x2fu8]);
                assert(encode_utf8("/"@) =~= seq![0x2fu8]);
                assert(encode_utf8(res@) =~= spec_url_join(
                    left.spec_bytes(),
                    right.spec_bytes(),
                ));
            }
            res
        }
    }
}

/// Packs a window id and an item id into one word: the window id in
/// the high byte.
pub fn merge_id(window_id: u8, item_id: u8) -> (r: u16)
    ensures
        r == window_id as int * 256 + item_id as int,
{
    (window_id as u16) * 256 + (item_id as u16)
}

/// Unpacks a merged id into its window and item halves.
pub fn split_id(merged_id: u16) -> (r: (u8, u8))
    ensures
        r.0 == merged_id as int / 256,
        r.1 == merged_id as int % 256,
{
    ((merged_id / 256) as u8, (merged_id % 256) as u8)
}

/// Packing then splitting gives both ids back, and splitting then
/// packing gives the word back.
pub proof fn lemma_merge_split_id(w: u8, i: u8, m: u16)
    ensures
        (w as int * 256 + i as int) / 256 == w as int,
        (w as int * 256 + i as int) % 256 == i as int,
        (m as int / 256) * 256 + m as int % 256 == m as int,
{
    assert((w as int * 256 + i as int) / 256 == w as int && (w as int * 256 + i as int) % 256
        == i as int) by (nonlinear_arith)
        requires
            0 <= w < 256,
            0 <= i < 256,
    ;
    assert((m as int / 256) * 256 + m as int % 256 == m as int) by (nonlinear_arith)
        requires
            0 <= m < 65536,
    ;
}

// ---------------------------------------------------------------------
// Merging JSON values
// ---------------------------------------------------------------------

/// Merging two JSON values: null yields to the other side, two objects
/// merge key by key (the source side wins, recursively), and any other
/// pair is replaced by the source.
pub open spec fn spec_merge(d: JsonV, s: JsonV) -> JsonV
    decreases s, 0int,
{
    if d is Null {
        s
    } else if s is Null {
        d
    } else {
        match (d, s) {
            (JsonV::Obj(dm), JsonV::Obj(sm)) => JsonV::Obj(spec_merge_entries(dm, sm)),
            _ => s,
        }
    }
}

/// `dm` with `key` bound to `v`: the first entry under `key` replaced
/// in place, or a new entry appended.
pub open spec fn spec_upsert(
    dm: Seq<(Seq<char>, JsonV)>,
    key: Seq<char>,
    v: JsonV,
) -> Seq<(Seq<char>, JsonV)>
    decreases dm,
{
    if dm.len() == 0 {
        seq![(key, v)]
    } else if dm[0].0 == key {
        seq![(key, v)] + dm.drop_first()
    } else {
        seq![dm[0]] + spec_upsert(dm.drop_first(), key, v)
    }
}

/// Folds the source entries into the destination, first to last.
pub open spec fn spec_merge_entries(
    dm: Seq<(Seq<char>, JsonV)>,
    sm: Seq<(Seq<char>, JsonV)>,
) -> Seq<(Seq<char>, JsonV)>
    decreases sm, 1int,
{
    if sm.len() == 0 {
        dm
    } else {
        let key = sm[0].0;
        let sv = sm[0].1;
        let dv = match spec_obj_get(dm, key) {
            Some(v) => v,
            None => JsonV::Null,
        };
        spec_merge_entries(spec_upsert(dm, key, spec_merge(dv, sv)), sm.drop_first())
    }
}

proof fn lemma_upsert_found(dm: Seq<(Seq<char>, JsonV)>, key: Seq<char>, v: JsonV, i: int)
    requires
        0 <= i < dm.len(),
        dm[i].0 == key,
        forall|k: int| 0 <= k < i ==> (#[trigger] dm[k]).0 != key,
    ensures
        spec_upsert(dm, key, v) == dm.update(i, (key, v)),
    decreases i,
{
    if i == 0 {
        assert(seq![(key, v)] + dm.drop_first() =~= dm.update(0, (key, v)));
    } else {
        lemma_upsert_found(dm.drop_first(), key, v, i - 1);
        assert(seq![dm[0]] + dm.drop_first().update(i - 1, (key, v)) =~= dm.update(i, (key, v)));
    }
}

proof fn lemma_upsert_missing(dm: Seq<(Seq<char>, JsonV)>, key: Seq<char>, v: JsonV)
    requires
        forall|k: int| 0 <= k < dm.len() ==> (#[trigger] dm[k]).0 != key,
    ensures
        spec_upsert(dm, key, v) == dm.push((key, v)),
    decreases dm.len(),
{
    if dm.len() == 0 {
        assert(seq![(key, v)] =~= dm.push((key, v)));
    } else {
        lemma_upsert_missing(dm.drop_first(), key, v);
        assert(seq![dm[0]] + dm.drop_first().push((key, v)) =~= dm.push((key, v)));
    }
}

/// Index of the first entry under `key`, scanning by characters.
#[verifier::loop_isolation(false)]
fn find_entry(dm: &Vec<(String, Json)>, key: &String) -> (r: Option<usize>)
    ensures
        match r {
            Some(i) => i < dm@.len() && json_view_entries(dm@)[i as int].0 == key@ && (forall|
                k: int,
            |
                0 <= k < i ==> (#[trigger] json_view_entries(dm@)[k]).0 != key@),
            None => forall|k: int|
                0 <= k < dm@.len() ==> (#[trigger] json_view_entries(dm@)[k]).0 != key@,
        },
{
    broadcast use crate::json::lemma_json_view_entries_len, crate::json::lemma_json_view_entries_index;

    let n = dm.len();
    let mut i: usize = 0;
    while i < n
        invariant
            i <= n,
            forall|k: int| 0 <= k < i ==> (#[trigger] json_view_entries(dm@)[k]).0 != key@,
        decreases n - i,
    {
        if dm[i].0 == *key {
            return Some(i);
        }
        i = i + 1;
    }
    None
}

/// Merges two JSON values, exactly as `spec_merge` says.
#[verifier::loop_isolation(false)]
#[verifier::rlimit(60)]
pub fn merge_values(dest: Json, src: Json) -> (r: Json)
    ensures
        r@ == spec_merge(dest@, src@),
    decreases src,
{
    broadcast use crate::json::lemma_json_view_entries_len, crate::json::lemma_json_view_entries_index;

    if matches!(dest, Json::Null) {
        return src;
    }
    if matches!(src, Json::Null) {
        return dest;
    }
    match (dest, src) {
        (Json::Obj(mut dm), Json::Obj(mut sm)) => {
            let ghost sm_vec0 = sm;
            let ghost dm0 = json_view_entries(dm@);
            let ghost sm0 = json_view_entries(sm@);
            proof {
                assert(src == Json::Obj(sm_vec0));
            }
            while sm.len() > 0
                invariant
                    sm@.len() <= sm_vec0@.len(),
                    sm@ == sm_vec0@.skip(sm_vec0@.len() - sm@.len()),
                    spec_merge_entries(dm0, sm0) == spec_merge_entries(
                        json_view_entries(dm@),
                        json_view_entries(sm@),
                    ),
                decreases sm@.len(),
            {
                let ghost dmv = json_view_entries(dm@);
                let ghost smv_now = json_view_entries(sm@);
                let ghost jpos = sm_vec0@.len() - sm@.len();
                let (key, sv) = sm.remove(0);
                proof {
                    assert(json_view_entries(sm@) =~= smv_now.drop_first());
                    assert(smv_now[0] == (key@, sv@));
                    assert(sm@ =~= sm_vec0@.skip(sm_vec0@.len() - sm@.len()));
                    assert(sm_vec0@[jpos] == (key, sv));
                    assert(decreases_to!(src => sm_vec0));
                    assert(decreases_to!(sm_vec0 => sm_vec0[jpos]));
                    assert(decreases_to!(sm_vec0[jpos] => sm_vec0@[jpos].1));
                    assert(decreases_to!(src => sv));
                }
                let found = find_entry(&dm, &key);
                match found {
                    Some(i) => {
                        let ghost pre = json_view_entries(dm@);
                        let (_, dv) = dm.remove(i);
                        let merged = merge_values(dv, sv);
                        let ghost key_v = key@;
                        dm.insert(i, (key, merged));
                        proof {
                            lemma_obj_get_found(pre, key_v, i as int);
                            lemma_upsert_found(pre, key_v, merged@, i as int);
                            assert(json_view_entries(dm@) =~= pre.update(
                                i as int,
                                (key_v, merged@),
                            )) by {
                                assert forall|k: int|
                                    0 <= k < pre.len() implies json_view_entries(dm@)[k]
                                    == pre.update(i as int, (key_v, merged@))[k] by {
                                    crate::json::lemma_json_view_entries_index(dm@, k);
                                }
                            }
                        }
                    },
                    None => {
                        let merged = merge_values(Json::Null, sv);
                        let ghost key_v = key@;
                        let ghost pre = json_view_entries(dm@);
                        dm.push((key, merged));
                        proof {
                            lemma_obj_get_missing(pre, key_v);
                            lemma_upsert_missing(pre, key_v, merged@);
                            assert(json_view_entries(dm@) =~= pre.push((key_v, merged@)));
                        }
                    },
                }
            }
            proof {
                assert(json_view_entries(sm@) =~= Seq::<(Seq<char>, JsonV)>::empty());
            }
            Json::Obj(dm)
        },
        (d, s) => s,
    }
}

} // verus!
