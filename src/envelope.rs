//! The reply envelope: a line-oriented body whose fourth line holds an outer
//! JSON array, inside which a string holds the inner document of the turn.
//! Two layouts of the inner document are known; each reads its fields at
//! fixed positions.
use vstd::prelude::*;
use vstd::utf8::encode_utf8;
use crate::json::{
    at, copy_all, element, json_parse, json_view, json_views, lemma_json_views, parse_json, view_opt,
    Json, JsonValue,
};
use crate::lines::{lemma_line_at_none, line_at, line_count, nth_line};
use crate::scan::{
    find_reply_id, first_reply_id, has_leaf, is_reply_id, lemma_scan_finds, only_reply_id,
};

verus! {

/// The two observed layouts of the inner document.
#[derive(Clone, Copy, Debug, PartialEq, Eq, Structural)]
pub enum SchemaVariant {
    /// The first layout: reply text at `[0][0]`, every entry of `[4]` a candidate.
    Legacy,
    /// The later layout: reply text at `[4][0][1][0]`, entry 0 of `[4]` skipped.
    Current,
}

/// A field of the inner document whose position did not hold.
#[derive(Clone, Copy, Debug, PartialEq, Eq, Structural)]
pub enum Field {
    Content,
    TextQuery,
    Candidates,
}

#[derive(Clone, Copy, Debug, PartialEq, Eq, Structural)]
pub enum DecodeError {
    /// Fewer than four lines, or line 3 is not an array of arrays whose
    /// element `[0][2]` is a string.
    MalformedEnvelope,
    /// The string at `[0][2]` is not the JSON text of an array.
    MalformedInner,
    /// A position that the layout reads is missing from the inner document.
    SchemaMismatch(Field),
}

/// One alternative reply of a turn.
#[derive(Debug, PartialEq)]
pub struct Candidate {
    pub id: JsonValue,
    pub text: JsonValue,
    /// The text fragments of the candidate; empty in the legacy layout.
    pub fragments: Vec<JsonValue>,
}

pub struct CandidateModel {
    pub id: Json,
    pub text: Json,
    pub fragments: Seq<Json>,
}

impl View for Candidate {
    type V = CandidateModel;

    open spec fn view(&self) -> CandidateModel {
        CandidateModel { id: self.id@, text: self.text@, fragments: json_views(self.fragments@) }
    }
}

/// The location metadata that the current layout may carry at `[7]`.
#[derive(Debug, PartialEq)]
pub struct Location {
    pub address: Option<String>,
    pub place_type: Option<String>,
}

pub struct LocationModel {
    pub address: Option<Seq<char>>,
    pub place_type: Option<Seq<char>>,
}

impl View for Location {
    type V = LocationModel;

    open spec fn view(&self) -> LocationModel {
        LocationModel { address: chars_of(self.address), place_type: chars_of(self.place_type) }
    }
}

/// The decoded result of one turn.
#[derive(Debug, PartialEq)]
pub struct TurnReply {
    /// The reply text.
    pub content: String,
    /// The conversation id and the turn id as the document gives them, null
    /// where the document has no such position.
    pub conversation_id: JsonValue,
    pub turn_id: JsonValue,
    pub text_query: JsonValue,
    pub candidates: Vec<Candidate>,
    pub location: Option<Location>,
    /// The id of the first candidate where it is a string, else what the
    /// fallback scan found.
    pub selected_reply_id: Option<String>,
}

pub struct TurnReplyModel {
    pub content: Seq<char>,
    pub conversation_id: Json,
    pub turn_id: Json,
    pub text_query: Json,
    pub candidates: Seq<CandidateModel>,
    pub location: Option<LocationModel>,
    pub selected_reply_id: Option<Seq<char>>,
}

pub open spec fn chars_of(r: Option<String>) -> Option<Seq<char>> {
    match r {
        Some(s) => Some(s@),
        None => None,
    }
}

pub open spec fn location_view(l: Option<Location>) -> Option<LocationModel> {
    match l {
        Some(x) => Some(x@),
        None => None,
    }
}

impl View for TurnReply {
    type V = TurnReplyModel;

    open spec fn view(&self) -> TurnReplyModel {
        TurnReplyModel {
            content: self.content@,
            conversation_id: self.conversation_id@,
            turn_id: self.turn_id@,
            text_query: self.text_query@,
            candidates: self.candidates@.map_values(|c: Candidate| c@),
            location: location_view(self.location),
            selected_reply_id: chars_of(self.selected_reply_id),
        }
    }
}

pub open spec fn result_view(r: Result<TurnReply, DecodeError>) -> Result<TurnReplyModel, DecodeError> {
    match r {
        Ok(t) => Ok(t@),
        Err(e) => Err(e),
    }
}

/// A continuity token: a string that is not empty.
pub open spec fn token_of(j: Json) -> Option<Seq<char>> {
    match j {
        Json::Str(s) => if s.len() > 0 {
            Some(s)
        } else {
            None
        },
        _ => None,
    }
}

/// The three continuity tokens of a reply, where all three were resolved
/// to strings that are not empty.
pub open spec fn continuity_of(r: TurnReplyModel) -> Option<(Seq<char>, Seq<char>, Seq<char>)> {
    match (token_of(r.conversation_id), token_of(r.turn_id), r.selected_reply_id) {
        (Some(c), Some(t), Some(s)) => if s.len() > 0 {
            Some((c, t, s))
        } else {
            None
        },
        _ => None,
    }
}

pub open spec fn tokens_view(t: Option<(String, String, String)>) -> Option<(Seq<char>, Seq<char>, Seq<char>)> {
    match t {
        Some((c, u, s)) => Some((c@, u@, s@)),
        None => None,
    }
}

fn token_exec(v: &JsonValue) -> (r: Option<String>)
    ensures
        chars_of(r) == token_of(v@),
{
    match v {
        JsonValue::Str(s) => if s.as_str().is_empty() {
            None
        } else {
            Some(s.clone())
        },
        _ => None,
    }
}

impl TurnReply {
    /// The conversation id, the turn id and the selected reply id, where the
    /// reply resolved all three; none leaves the session where it was.
    pub fn continuity(&self) -> (r: Option<(String, String, String)>)
        ensures
            tokens_view(r) == continuity_of(self@),
    {
        match (token_exec(&self.conversation_id), token_exec(&self.turn_id), &self.selected_reply_id) {
            (Some(c), Some(u), Some(s)) => if s.as_str().is_empty() {
                None
            } else {
                Some((c, u, s.clone()))
            },
            _ => None,
        }
    }
}

/// The string at `[0][2]` of the outer array, where the outer value is an
/// array of arrays.
pub open spec fn chat_text(outer: Option<Json>) -> Option<Seq<char>> {
    match outer {
        Some(Json::Array(s)) => if forall|i: int| 0 <= i < s.len() ==> #[trigger] s[i] is Array {
            match at(at(outer, 0), 2) {
                Some(Json::Str(t)) => Some(t),
                _ => None,
            }
        } else {
            None
        },
        _ => None,
    }
}

/// The inner document of a body: what line 3 carries at `[0][2]`, parsed.
pub open spec fn inner_document(body: Seq<u8>) -> Option<Json> {
    match line_at(body, 3, 0) {
        Some(line) => match chat_text(json_parse(line)) {
            Some(t) => json_parse(encode_utf8(t)),
            None => None,
        },
        None => None,
    }
}

pub open spec fn content_at(doc: Json, variant: SchemaVariant) -> Option<Json> {
    match variant {
        SchemaVariant::Legacy => at(at(Some(doc), 0), 0),
        SchemaVariant::Current => at(at(at(at(Some(doc), 4), 0), 1), 0),
    }
}

pub open spec fn text_query_at(doc: Json, variant: SchemaVariant) -> Option<Json> {
    match variant {
        SchemaVariant::Legacy => at(at(Some(doc), 2), 0),
        SchemaVariant::Current => at(at(at(Some(doc), 2), 0), 0),
    }
}

/// The entries of `[4]` that are candidates: all of them in the legacy
/// layout, all but the first in the current one.
pub open spec fn candidate_entries(entries: Seq<Json>, variant: SchemaVariant) -> Seq<Json> {
    match variant {
        SchemaVariant::Legacy => entries,
        SchemaVariant::Current => if entries.len() == 0 {
            entries
        } else {
            entries.drop_first()
        },
    }
}

pub open spec fn entry_ok(e: Json, variant: SchemaVariant) -> bool {
    &&& at(Some(e), 0) is Some
    &&& at(Some(e), 1) is Some
    &&& variant == SchemaVariant::Current ==> at(at(Some(e), 1), 0) is Some
}

pub open spec fn fragments_of(j: Option<Json>) -> Seq<Json> {
    match j {
        Some(Json::Array(f)) => f,
        _ => Seq::empty(),
    }
}

pub open spec fn candidate_model(e: Json, variant: SchemaVariant) -> CandidateModel {
    match variant {
        SchemaVariant::Legacy => CandidateModel {
            id: at(Some(e), 0)->Some_0,
            text: at(Some(e), 1)->Some_0,
            fragments: Seq::empty(),
        },
        SchemaVariant::Current => CandidateModel {
            id: at(Some(e), 0)->Some_0,
            text: at(at(Some(e), 1), 0)->Some_0,
            fragments: fragments_of(at(Some(e), 1)),
        },
    }
}

/// The candidates that `[4]` lists, where every candidate entry holds the
/// positions that the layout reads.
pub open spec fn candidates_at(doc: Json, variant: SchemaVariant) -> Option<Seq<CandidateModel>> {
    match at(Some(doc), 4) {
        Some(Json::Array(entries)) => {
            let es = candidate_entries(entries, variant);
            if forall|i: int| 0 <= i < es.len() ==> entry_ok(#[trigger] es[i], variant) {
                Some(es.map_values(|e: Json| candidate_model(e, variant)))
            } else {
                None
            }
        },
        _ => None,
    }
}

pub open spec fn location_at(doc: Json, variant: SchemaVariant) -> Option<LocationModel> {
    match (variant, at(Some(doc), 7)) {
        (SchemaVariant::Current, Some(l)) => Some(
            LocationModel {
                address: text_of_opt(at(Some(l), 0)),
                place_type: text_of_opt(at(Some(l), 1)),
            },
        ),
        _ => None,
    }
}

pub open spec fn text_of_opt(j: Option<Json>) -> Option<Seq<char>> {
    match j {
        Some(Json::Str(s)) => Some(s),
        _ => None,
    }
}

/// The id of the first candidate where it is a string, else the first reply
/// id that the fallback scan finds in the document.
pub open spec fn selected_at(doc: Json, candidates: Seq<CandidateModel>) -> Option<Seq<char>> {
    if candidates.len() > 0 && candidates[0].id is Str {
        text_of_opt(Some(candidates[0].id))
    } else {
        first_reply_id(doc)
    }
}

/// The value at a position, or null where the document has none.
pub open spec fn or_null(j: Option<Json>) -> Json {
    match j {
        Some(v) => v,
        None => Json::Null,
    }
}

/// Reads the fields of an inner document by the positions of a layout.
pub open spec fn extract(doc: Json, variant: SchemaVariant) -> Result<TurnReplyModel, DecodeError> {
    if text_of_opt(content_at(doc, variant)) is None {
        Err(DecodeError::SchemaMismatch(Field::Content))
    } else if text_query_at(doc, variant) is None {
        Err(DecodeError::SchemaMismatch(Field::TextQuery))
    } else if candidates_at(doc, variant) is None {
        Err(DecodeError::SchemaMismatch(Field::Candidates))
    } else {
        let candidates = candidates_at(doc, variant)->Some_0;
        Ok(
            TurnReplyModel {
                content: text_of_opt(content_at(doc, variant))->Some_0,
                conversation_id: or_null(at(at(Some(doc), 1), 0)),
                turn_id: or_null(at(at(Some(doc), 1), 1)),
                text_query: text_query_at(doc, variant)->Some_0,
                candidates,
                location: location_at(doc, variant),
                selected_reply_id: selected_at(doc, candidates),
            },
        )
    }
}

/// What decoding a body by a layout gives.
pub open spec fn decode_spec(body: Seq<u8>, variant: SchemaVariant) -> Result<TurnReplyModel, DecodeError> {
    match line_at(body, 3, 0) {
        None => Err(DecodeError::MalformedEnvelope),
        Some(line) => match chat_text(json_parse(line)) {
            None => Err(DecodeError::MalformedEnvelope),
            Some(t) => match json_parse(encode_utf8(t)) {
                Some(Json::Array(d)) => extract(Json::Array(d), variant),
                _ => Err(DecodeError::MalformedInner),
            },
        },
    }
}

pub open spec fn chars_of_ref(r: Option<&String>) -> Option<Seq<char>> {
    match r {
        Some(s) => Some(s@),
        None => None,
    }
}

/// The string at `[0][2]` of the outer value of line 3, where that value is
/// an array of arrays.
pub fn chat_string(outer: &JsonValue) -> (r: Option<&String>)
    ensures
        chars_of_ref(r) == chat_text(Some(outer@)),
{
    match outer {
        JsonValue::Array(a) => {
            let ghost s = json_views(a@);
            proof {
                lemma_json_views(a@);
            }
            assert(outer@ == Json::Array(s));
            let mut i: usize = 0;
            while i < a.len()
                invariant
                    i <= a.len(),
                    outer@ == Json::Array(s),
                    s == json_views(a@),
                    s.len() == a.len(),
                    forall|j: int| 0 <= j < a.len() ==> #[trigger] s[j] == json_view(a@[j]),
                    forall|j: int| 0 <= j < i ==> #[trigger] s[j] is Array,
                decreases a.len() - i,
            {
                match &a[i] {
                    JsonValue::Array(_) => {},
                    _ => {
                        assert(!(s[i as int] is Array));
                        return None;
                    },
                }
                i = i + 1;
            }
            match element(element(Some(outer), 0), 2) {
                Some(JsonValue::Str(t)) => Some(t),
                _ => None,
            }
        },
        _ => None,
    }
}

fn string_at(l: &JsonValue, i: usize) -> (r: Option<String>)
    ensures
        chars_of(r) == text_of_opt(at(Some(l@), i as int)),
{
    match element(Some(l), i) {
        Some(JsonValue::Str(t)) => Some(t.clone()),
        _ => None,
    }
}

fn content_exec(doc: &JsonValue, variant: SchemaVariant) -> (r: Option<&JsonValue>)
    ensures
        view_opt(r) == content_at(doc@, variant),
{
    match variant {
        SchemaVariant::Legacy => element(element(Some(doc), 0), 0),
        SchemaVariant::Current => element(element(element(element(Some(doc), 4), 0), 1), 0),
    }
}

fn text_query_exec(doc: &JsonValue, variant: SchemaVariant) -> (r: Option<&JsonValue>)
    ensures
        view_opt(r) == text_query_at(doc@, variant),
{
    match variant {
        SchemaVariant::Legacy => element(element(Some(doc), 2), 0),
        SchemaVariant::Current => element(element(element(Some(doc), 2), 0), 0),
    }
}

/// One candidate from its entry, where the entry holds what the layout reads.
fn candidate_from(e: &JsonValue, variant: SchemaVariant) -> (r: Option<Candidate>)
    ensures
        r is Some <==> entry_ok(e@, variant),
        r is Some ==> r->Some_0@ == candidate_model(e@, variant),
{
    let id = element(Some(e), 0);
    let body = element(Some(e), 1);
    match (id, body) {
        (Some(id), Some(body)) => match variant {
            SchemaVariant::Legacy => Some(
                Candidate { id: id.copy(), text: body.copy(), fragments: Vec::new() },
            ),
            SchemaVariant::Current => match element(Some(body), 0) {
                Some(text) => {
                    let fragments = match body {
                        JsonValue::Array(f) => copy_all(f),
                        _ => Vec::new(),
                    };
                    Some(Candidate { id: id.copy(), text: text.copy(), fragments })
                },
                None => None,
            },
        },
        _ => None,
    }
}

fn candidates_exec(doc: &JsonValue, variant: SchemaVariant) -> (r: Option<Vec<Candidate>>)
    ensures
        r is Some <==> candidates_at(doc@, variant) is Some,
        r is Some ==> candidates_at(doc@, variant) == Some(
            r->Some_0@.map_values(|c: Candidate| c@),
        ),
{
    match element(Some(doc), 4) {
        Some(JsonValue::Array(entries)) => {
            let ghost all = json_views(entries@);
            let ghost es = candidate_entries(all, variant);
            proof {
                lemma_json_views(entries@);
            }
            let start: usize = match variant {
                SchemaVariant::Legacy => 0,
                SchemaVariant::Current => if entries.len() == 0 {
                    0
                } else {
                    1
                },
            };
            assert(es =~= all.subrange(start as int, all.len() as int));
            assert(at(Some(doc@), 4) == Some(Json::Array(all)));
            let mut out: Vec<Candidate> = Vec::new();
            let mut i: usize = start;
            while i < entries.len()
                invariant
                    start <= i <= entries.len(),
                    at(Some(doc@), 4) == Some(Json::Array(all)),
                    es == candidate_entries(all, variant),
                    all == json_views(entries@),
                    all.len() == entries.len(),
                    forall|j: int| 0 <= j < entries.len() ==> #[trigger] all[j] == json_view(entries@[j]),
                    es =~= all.subrange(start as int, all.len() as int),
                    out.len() == i - start,
                    forall|j: int| 0 <= j < out.len() ==> (#[trigger] out@[j])@ == candidate_model(es[j], variant),
                    forall|j: int| 0 <= j < i - start ==> entry_ok(#[trigger] es[j], variant),
                decreases entries.len() - i,
            {
                assert(es[i - start] == all[i as int]);
                match candidate_from(&entries[i], variant) {
                    Some(c) => out.push(c),
                    None => {
                        assert(!entry_ok(es[i - start], variant));
                        return None;
                    },
                }
                i = i + 1;
            }
            assert(out@.map_values(|c: Candidate| c@) =~= es.map_values(
                |e: Json| candidate_model(e, variant),
            ));
            Some(out)
        },
        _ => None,
    }
}

/// Reads a turn out of a parsed inner document by the positions of a layout.
pub fn decode_document(doc: &JsonValue, variant: SchemaVariant) -> (r: Result<TurnReply, DecodeError>)
    ensures
        result_view(r) == extract(doc@, variant),
{
    let content = match content_exec(doc, variant) {
        Some(JsonValue::Str(c)) => c.clone(),
        _ => return Err(DecodeError::SchemaMismatch(Field::Content)),
    };
    let conversation_id = match element(element(Some(doc), 1), 0) {
        Some(c) => c.copy(),
        None => JsonValue::Null,
    };
    let turn_id = match element(element(Some(doc), 1), 1) {
        Some(c) => c.copy(),
        None => JsonValue::Null,
    };
    let text_query = match text_query_exec(doc, variant) {
        Some(c) => c.copy(),
        None => return Err(DecodeError::SchemaMismatch(Field::TextQuery)),
    };
    let candidates = match candidates_exec(doc, variant) {
        Some(c) => c,
        None => return Err(DecodeError::SchemaMismatch(Field::Candidates)),
    };
    let ghost cm = candidates@.map_values(|c: Candidate| c@);
    let location = match variant {
        SchemaVariant::Current => match element(Some(doc), 7) {
            Some(l) => Some(Location { address: string_at(l, 0), place_type: string_at(l, 1) }),
            None => None,
        },
        SchemaVariant::Legacy => None,
    };
    let mut selected_reply_id: Option<String> = None;
    if candidates.len() > 0 {
        assert(cm[0] == candidates@[0]@);
        match &candidates[0].id {
            JsonValue::Str(s) => {
                selected_reply_id = Some(s.clone());
            },
            _ => {},
        }
    }
    if selected_reply_id.is_none() {
        selected_reply_id = find_reply_id(doc);
    }
    let reply = TurnReply {
        content,
        conversation_id,
        turn_id,
        text_query,
        candidates,
        location,
        selected_reply_id,
    };
    assert(reply@.candidates == cm);
    Ok(reply)
}

/// Decodes a reply body by the layout `variant`.
pub fn decode(body: &[u8], variant: SchemaVariant) -> (r: Result<TurnReply, DecodeError>)
    ensures
        result_view(r) == decode_spec(body@, variant),
{
    let line = match nth_line(body, 3) {
        Some(l) => l,
        None => return Err(DecodeError::MalformedEnvelope),
    };
    let outer = match parse_json(line) {
        Some(v) => v,
        None => return Err(DecodeError::MalformedEnvelope),
    };
    let chat = match chat_string(&outer) {
        Some(t) => t,
        None => return Err(DecodeError::MalformedEnvelope),
    };
    let doc = match parse_json(chat.as_str().as_bytes()) {
        Some(d) => d,
        None => return Err(DecodeError::MalformedInner),
    };
    match &doc {
        JsonValue::Array(_) => {},
        _ => return Err(DecodeError::MalformedInner),
    }
    decode_document(&doc, variant)
}

/// The entries at `[4]` of a body's inner document.
pub open spec fn raw_entries(body: Seq<u8>) -> Option<Seq<Json>> {
    match at(inner_document(body), 4) {
        Some(Json::Array(es)) => Some(es),
        _ => None,
    }
}

/// A legacy body that decodes, whose inner document lists N entries at
/// `[4]` with N at least 1 and a string as the first entry's id, gives
/// exactly N candidates and selects the first candidate's id; the fallback
/// scan is not consulted.
pub proof fn lemma_legacy_candidates(body: Seq<u8>)
    requires
        decode_spec(body, SchemaVariant::Legacy) is Ok,
        raw_entries(body) is Some,
        raw_entries(body)->Some_0.len() >= 1,
        at(Some(raw_entries(body)->Some_0[0]), 0)->Some_0 is Str,
    ensures
        ({
            let r = decode_spec(body, SchemaVariant::Legacy)->Ok_0;
            &&& r.candidates.len() == raw_entries(body)->Some_0.len()
            &&& r.selected_reply_id is Some
            &&& r.candidates[0].id == Json::Str(r.selected_reply_id->Some_0)
        }),
{
    let es = raw_entries(body)->Some_0;
    let r = decode_spec(body, SchemaVariant::Legacy)->Ok_0;
    assert(r.candidates[0] == candidate_model(es[0], SchemaVariant::Legacy));
}

/// A current body that decodes, whose inner document lists N entries at
/// `[4]`, gives N - 1 candidates: the first entry, the default reply, is
/// not one of them. Where the first candidate's id is a string, it is the
/// selected id.
pub proof fn lemma_current_skips_default(body: Seq<u8>)
    requires
        decode_spec(body, SchemaVariant::Current) is Ok,
    ensures
        raw_entries(body) is Some,
        decode_spec(body, SchemaVariant::Current)->Ok_0.candidates.len() == raw_entries(
            body,
        )->Some_0.len() - 1,
        forall|i: int|
            0 <= i < decode_spec(body, SchemaVariant::Current)->Ok_0.candidates.len()
                ==> #[trigger] decode_spec(body, SchemaVariant::Current)->Ok_0.candidates[i]
                == candidate_model(raw_entries(body)->Some_0[i + 1], SchemaVariant::Current),
        raw_entries(body)->Some_0.len() >= 2 && at(Some(raw_entries(body)->Some_0[1]), 0)->Some_0 is Str
            ==> Some(at(Some(raw_entries(body)->Some_0[1]), 0)->Some_0) == (match decode_spec(
            body,
            SchemaVariant::Current,
        )->Ok_0.selected_reply_id {
            Some(t) => Some(Json::Str(t)),
            None => None,
        }),
{
}

/// Decoding depends on the body's bytes alone: equal bodies decode to
/// structurally equal replies, or to the same error.
pub proof fn lemma_decode_deterministic(a: Seq<u8>, b: Seq<u8>, variant: SchemaVariant)
    requires
        a == b,
    ensures
        decode_spec(a, variant) == decode_spec(b, variant),
{
}

/// A current body that decodes with no candidate besides the default entry,
/// whose inner document holds the reply id `t` as a string leaf and no other
/// reply id, selects `t`.
pub proof fn lemma_fallback_selects(body: Seq<u8>, t: Seq<char>)
    requires
        decode_spec(body, SchemaVariant::Current) is Ok,
        raw_entries(body) is Some,
        raw_entries(body)->Some_0.len() == 1,
        is_reply_id(t),
        has_leaf(inner_document(body)->Some_0, t),
        only_reply_id(inner_document(body)->Some_0, t),
    ensures
        decode_spec(body, SchemaVariant::Current)->Ok_0.selected_reply_id == Some(t),
{
    lemma_scan_finds(inner_document(body)->Some_0, t);
}

/// A body of fewer than four lines is a malformed envelope, whatever the
/// layout.
pub proof fn lemma_short_body(body: Seq<u8>, variant: SchemaVariant)
    requires
        line_count(body) < 4,
    ensures
        decode_spec(body, variant) == Err::<TurnReplyModel, DecodeError>(DecodeError::MalformedEnvelope),
{
    lemma_line_at_none(body, 3, 0);
}

} // verus!
