//! A JSON tree owned by the library, its mathematical model, and the two
//! calls into serde_json that read and write JSON text.
use vstd::prelude::*;
use vstd::utf8::encode_utf8;

verus! {

/// A JSON value as the decoder walks it. Numbers keep their textual form;
/// an object keeps its keys and its values as two sequences in member order.
#[derive(Debug, PartialEq)]
pub enum JsonValue {
    Null,
    Bool(bool),
    Number(String),
    Str(String),
    Array(Vec<JsonValue>),
    Object(Vec<String>, Vec<JsonValue>),
}

/// The mathematical model of a `JsonValue`.
pub enum Json {
    Null,
    Bool(bool),
    Number(Seq<char>),
    Str(Seq<char>),
    Array(Seq<Json>),
    Object(Seq<Seq<char>>, Seq<Json>),
}

pub open spec fn json_view(v: JsonValue) -> Json
    decreases v,
{
    match v {
        JsonValue::Null => Json::Null,
        JsonValue::Bool(b) => Json::Bool(b),
        JsonValue::Number(n) => Json::Number(n@),
        JsonValue::Str(s) => Json::Str(s@),
        JsonValue::Array(a) => Json::Array(json_views(a@)),
        JsonValue::Object(k, a) => Json::Object(string_views(k@), json_views(a@)),
    }
}

pub open spec fn json_views(s: Seq<JsonValue>) -> Seq<Json>
    decreases s,
{
    if s.len() == 0 {
        Seq::empty()
    } else {
        seq![json_view(s[0])] + json_views(s.drop_first())
    }
}

pub open spec fn string_views(s: Seq<String>) -> Seq<Seq<char>> {
    s.map_values(|x: String| x@)
}

impl View for JsonValue {
    type V = Json;

    open spec fn view(&self) -> Json {
        json_view(*self)
    }
}

/// The element at index `i` of `j`, where `j` is an array that long.
pub open spec fn at(j: Option<Json>, i: int) -> Option<Json> {
    match j {
        Some(Json::Array(s)) => if 0 <= i < s.len() {
            Some(s[i])
        } else {
            None
        },
        _ => None,
    }
}

/// A tree of nulls, booleans, strings and arrays, with arrays nested at most
/// `n` deep.
pub open spec fn writable_within(j: Json, n: nat) -> bool
    decreases j,
{
    match j {
        Json::Null => true,
        Json::Bool(_) => true,
        Json::Str(_) => true,
        Json::Array(s) => n > 0 && writable_all(s, (n - 1) as nat),
        _ => false,
    }
}

pub open spec fn writable_all(s: Seq<Json>, n: nat) -> bool
    decreases s,
{
    s.len() == 0 || (writable_within(s[0], n) && writable_all(s.drop_first(), n))
}

/// What the library writes as JSON text: a tree that serde_json reads back,
/// whose arrays nest less deep than the parser's recursion limit of 128.
pub open spec fn writable(j: Json) -> bool {
    writable_within(j, 127)
}

pub proof fn lemma_json_views(s: Seq<JsonValue>)
    ensures
        json_views(s).len() == s.len(),
        forall|i: int| 0 <= i < s.len() ==> #[trigger] json_views(s)[i] == json_view(s[i]),
    decreases s.len(),
{
    if s.len() > 0 {
        lemma_json_views(s.drop_first());
        assert forall|i: int| 0 <= i < s.len() implies #[trigger] json_views(s)[i] == json_view(
            s[i],
        ) by {
            if i > 0 {
                assert(s.drop_first()[i - 1] == s[i]);
            }
        }
    }
}

/// Two sequences whose elements have equal models have equal models.
pub proof fn lemma_json_views_ext(a: Seq<JsonValue>, b: Seq<JsonValue>)
    requires
        a.len() == b.len(),
        forall|i: int| 0 <= i < a.len() ==> json_view(#[trigger] a[i]) == json_view(b[i]),
    ensures
        json_views(a) == json_views(b),
{
    lemma_json_views(a);
    lemma_json_views(b);
    assert(json_views(a) =~= json_views(b));
}

pub proof fn lemma_writable_all(s: Seq<Json>, n: nat)
    ensures
        writable_all(s, n) <==> forall|i: int| 0 <= i < s.len() ==> writable_within(#[trigger] s[i], n),
    decreases s.len(),
{
    if s.len() > 0 {
        lemma_writable_all(s.drop_first(), n);
        if writable_all(s, n) {
            assert forall|i: int| 0 <= i < s.len() implies writable_within(#[trigger] s[i], n) by {
                if i > 0 {
                    assert(s.drop_first()[i - 1] == s[i]);
                }
            }
        }
        if forall|i: int| 0 <= i < s.len() ==> writable_within(#[trigger] s[i], n) {
            assert forall|i: int| 0 <= i < s.drop_first().len() implies writable_within(
                #[trigger] s.drop_first()[i],
                n,
            ) by {
                assert(s.drop_first()[i] == s[i + 1]);
            }
        }
    }
}

impl JsonValue {
    /// The text of a string value.
    pub fn as_str(&self) -> (r: Option<&str>)
        ensures
            match r {
                Some(t) => self@ == Json::Str(t@),
                None => !(self@ is Str),
            },
    {
        match self {
            JsonValue::Str(s) => Some(s.as_str()),
            _ => None,
        }
    }

    /// The elements of an array value.
    pub fn as_array(&self) -> (r: Option<&Vec<JsonValue>>)
        ensures
            match r {
                Some(a) => self@ == Json::Array(json_views(a@)),
                None => !(self@ is Array),
            },
    {
        match self {
            JsonValue::Array(a) => Some(a),
            _ => None,
        }
    }

    /// A copy of the whole tree.
    pub fn copy(&self) -> (r: JsonValue)
        ensures
            r@ == self@,
        decreases self,
    {
        match self {
            JsonValue::Null => JsonValue::Null,
            JsonValue::Bool(b) => JsonValue::Bool(*b),
            JsonValue::Number(n) => JsonValue::Number(n.clone()),
            JsonValue::Str(s) => JsonValue::Str(s.clone()),
            JsonValue::Array(a) => JsonValue::Array(copy_all(a)),
            JsonValue::Object(k, a) => {
                let keys = copy_strings(k);
                JsonValue::Object(keys, copy_all(a))
            },
        }
    }
}

/// A copy of each tree of a sequence.
pub fn copy_all(a: &Vec<JsonValue>) -> (r: Vec<JsonValue>)
    ensures
        json_views(r@) == json_views(a@),
    decreases a,
{
    let mut r: Vec<JsonValue> = Vec::new();
    let mut i: usize = 0;
    while i < a.len()
        invariant
            i <= a.len(),
            r.len() == i,
            forall|j: int| 0 <= j < i ==> json_view(#[trigger] r@[j]) == json_view(a@[j]),
        decreases a.len() - i,
    {
        assert(decreases_to!(a => a[i as int]));
        let c = a[i].copy();
        r.push(c);
        i = i + 1;
    }
    proof {
        lemma_json_views_ext(r@, a@);
    }
    r
}

fn copy_strings(k: &Vec<String>) -> (r: Vec<String>)
    ensures
        string_views(r@) == string_views(k@),
{
    let mut r: Vec<String> = Vec::new();
    let mut i: usize = 0;
    while i < k.len()
        invariant
            i <= k.len(),
            r.len() == i,
            forall|j: int| 0 <= j < i ==> (#[trigger] r@[j])@ == k@[j]@,
        decreases k.len() - i,
    {
        r.push(k[i].clone());
        i = i + 1;
    }
    assert(string_views(r@) =~= string_views(k@));
    r
}

pub open spec fn view_opt(v: Option<&JsonValue>) -> Option<Json> {
    match v {
        Some(x) => Some(x@),
        None => None,
    }
}

/// The element at index `i` of `v`, where `v` is an array that long.
pub fn element<'a>(v: Option<&'a JsonValue>, i: usize) -> (r: Option<&'a JsonValue>)
    ensures
        view_opt(r) == at(view_opt(v), i as int),
{
    match v {
        Some(JsonValue::Array(a)) => {
            proof {
                lemma_json_views(a@);
            }
            if i < a.len() {
                Some(&a[i])
            } else {
                None
            }
        },
        _ => None,
    }
}

/// serde_json's tree, carried between its parser and the two conversions.
#[verifier::external_type_specification]
#[verifier::external_body]
pub struct ExSerdeValue(serde_json::Value);

/// What serde_json makes of a byte string: the tree it parses, objects with
/// their members in document order, or none where the bytes are not one JSON
/// text.
pub uninterp spec fn json_parse(b: Seq<u8>) -> Option<Json>;

/// What serde_json writes for a tree: compact JSON text.
pub uninterp spec fn json_text(j: Json) -> Seq<char>;

/// Relies on the variants of `serde_json::Value` and on the `Display` impl of
/// `serde_json::Number`: moves a parsed tree into a `JsonValue`, variant for
/// variant, a number as its text and an object as its keys and values in
/// document order (serde_json's `preserve_order`). Used by `parse_json` alone; it states nothing.
#[verifier::external_body]
fn from_serde(v: serde_json::Value) -> JsonValue {
    match v {
        serde_json::Value::Null => JsonValue::Null,
        serde_json::Value::Bool(b) => JsonValue::Bool(b),
        serde_json::Value::Number(n) => JsonValue::Number(n.to_string()),
        serde_json::Value::String(s) => JsonValue::Str(s),
        serde_json::Value::Array(a) => JsonValue::Array(a.into_iter().map(from_serde).collect()),
        serde_json::Value::Object(m) => {
            let (k, a): (Vec<String>, Vec<serde_json::Value>) = m.into_iter().unzip();
            JsonValue::Object(k, a.into_iter().map(from_serde).collect())
        },
    }
}

/// Relies on the variants of `serde_json::Value`: moves a tree of nulls,
/// booleans, strings and arrays into it, variant for variant. Used by
/// `write_json` alone; it states nothing.
#[verifier::external_body]
fn to_serde(v: &JsonValue) -> serde_json::Value {
    match v {
        JsonValue::Null => serde_json::Value::Null,
        JsonValue::Bool(b) => serde_json::Value::Bool(*b),
        JsonValue::Str(s) => serde_json::Value::String(s.clone()),
        JsonValue::Array(a) => serde_json::Value::Array(a.iter().map(to_serde).collect()),
        // numbers and objects: excluded by `write_json`'s precondition
        JsonValue::Number(_) | JsonValue::Object(..) => serde_json::Value::Null,
    }
}

/// Relies on `serde_json::from_slice::<serde_json::Value>`: the tree that it
/// parses from the bytes, or none where they are not a JSON text.
#[verifier::external_body]
pub(crate) fn parse_json(b: &[u8]) -> (r: Option<JsonValue>)
    ensures
        r is Some <==> json_parse(b@) is Some,
        r is Some ==> json_parse(b@) == Some(r->Some_0@),
{
    serde_json::from_slice::<serde_json::Value>(b).ok().map(from_serde)
}

/// Relies on the `Display` impl of `serde_json::Value`, which writes compact
/// JSON text, and on `serde_json::from_slice` reading that text back as the
/// same tree where it holds only nulls, booleans, strings and arrays nested
/// within the parser's recursion limit.
#[verifier::external_body]
pub(crate) fn write_json(v: &JsonValue) -> (r: String)
    requires
        writable(v@),
    ensures
        r@ == json_text(v@),
        json_parse(encode_utf8(r@)) == Some(v@),
{
    to_serde(v).to_string()
}

} // verus!
