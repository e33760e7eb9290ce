//! The fallback scan: when no candidate supplies a reply id, the first string
//! leaf of the inner document, depth first, that starts with `rc_`.
use vstd::prelude::*;
use vstd::string::*;
use crate::envelope::chars_of;
use crate::json::{json_view, json_views, lemma_json_views, Json, JsonValue};

verus! {

/// A string that the fallback scan takes for a reply id.
pub open spec fn is_reply_id(s: Seq<char>) -> bool {
    s.len() >= 3 && s[0] == 'r' && s[1] == 'c' && s[2] == '_'
}

/// The first string leaf, depth first and left to right, that is a reply id.
pub open spec fn first_reply_id(j: Json) -> Option<Seq<char>>
    decreases j,
{
    match j {
        Json::Str(s) => if is_reply_id(s) {
            Some(s)
        } else {
            None
        },
        Json::Array(a) => first_reply_id_in(a),
        Json::Object(_, a) => first_reply_id_in(a),
        _ => None,
    }
}

pub open spec fn first_reply_id_in(s: Seq<Json>) -> Option<Seq<char>>
    decreases s,
{
    if s.len() == 0 {
        None
    } else {
        match first_reply_id(s[0]) {
            Some(x) => Some(x),
            None => first_reply_id_in(s.drop_first()),
        }
    }
}

fn is_reply_id_exec(s: &String) -> (r: bool)
    ensures
        r == is_reply_id(s@),
{
    let t = s.as_str();
    let n = t.unicode_len();
    n >= 3 && t.get_char(0) == 'r' && t.get_char(1) == 'c' && t.get_char(2) == '_'
}

/// The first reply id among the string leaves of `v`, depth first.
pub fn find_reply_id(v: &JsonValue) -> (r: Option<String>)
    ensures
        chars_of(r) == first_reply_id(v@),
    decreases v,
{
    match v {
        JsonValue::Str(s) => {
            if is_reply_id_exec(s) {
                Some(s.clone())
            } else {
                None
            }
        },
        JsonValue::Array(a) => find_reply_id_in(a),
        JsonValue::Object(_, a) => find_reply_id_in(a),
        _ => None,
    }
}

fn find_reply_id_in(a: &Vec<JsonValue>) -> (r: Option<String>)
    ensures
        chars_of(r) == first_reply_id_in(json_views(a@)),
    decreases a,
{
    let ghost s = json_views(a@);
    proof {
        lemma_json_views(a@);
        assert(s.subrange(0, s.len() as int) =~= s);
    }
    let mut i: usize = 0;
    while i < a.len()
        invariant
            i <= a.len(),
            s == json_views(a@),
            s.len() == a.len(),
            forall|j: int| 0 <= j < a.len() ==> #[trigger] s[j] == json_view(a@[j]),
            first_reply_id_in(s) == first_reply_id_in(s.subrange(i as int, s.len() as int)),
        decreases a.len() - i,
    {
        let ghost rest = s.subrange(i as int, s.len() as int);
        assert(rest[0] == s[i as int]);
        assert(rest.drop_first() =~= s.subrange(i + 1, s.len() as int));
        assert(decreases_to!(a => a[i as int]));
        let found = find_reply_id(&a[i]);
        if found.is_some() {
            return found;
        }
        i = i + 1;
    }
    assert(s.subrange(i as int, s.len() as int).len() == 0);
    None
}

/// `t` is one of the string leaves of `j`.
pub open spec fn has_leaf(j: Json, t: Seq<char>) -> bool
    decreases j,
{
    match j {
        Json::Str(s) => s == t,
        Json::Array(a) => has_leaf_in(a, t),
        Json::Object(_, a) => has_leaf_in(a, t),
        _ => false,
    }
}

pub open spec fn has_leaf_in(s: Seq<Json>, t: Seq<char>) -> bool
    decreases s,
{
    s.len() > 0 && (has_leaf(s[0], t) || has_leaf_in(s.drop_first(), t))
}

/// Every string leaf of `j` that is a reply id is `t`.
pub open spec fn only_reply_id(j: Json, t: Seq<char>) -> bool
    decreases j,
{
    match j {
        Json::Str(s) => is_reply_id(s) ==> s == t,
        Json::Array(a) => only_reply_id_in(a, t),
        Json::Object(_, a) => only_reply_id_in(a, t),
        _ => true,
    }
}

pub open spec fn only_reply_id_in(s: Seq<Json>, t: Seq<char>) -> bool
    decreases s,
{
    s.len() == 0 || (only_reply_id(s[0], t) && only_reply_id_in(s.drop_first(), t))
}

/// Where `t` is the only reply id among the string leaves of `j`, the scan
/// finds `t` exactly when `t` is a leaf.
pub proof fn lemma_scan_finds(j: Json, t: Seq<char>)
    requires
        is_reply_id(t),
        only_reply_id(j, t),
    ensures
        first_reply_id(j) == (if has_leaf(j, t) {
            Some(t)
        } else {
            None
        }),
    decreases j,
{
    match j {
        Json::Array(a) => lemma_scan_finds_in(a, t),
        Json::Object(_, a) => lemma_scan_finds_in(a, t),
        _ => {},
    }
}

pub proof fn lemma_scan_finds_in(s: Seq<Json>, t: Seq<char>)
    requires
        is_reply_id(t),
        only_reply_id_in(s, t),
    ensures
        first_reply_id_in(s) == (if has_leaf_in(s, t) {
            Some(t)
        } else {
            None
        }),
    decreases s,
{
    if s.len() > 0 {
        lemma_scan_finds(s[0], t);
        lemma_scan_finds_in(s.drop_first(), t);
    }
}

} // verus!
