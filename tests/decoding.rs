use gemini_chat::envelope::{decode, DecodeError, Field, SchemaVariant, TurnReply};
use gemini_chat::json::JsonValue;

fn body_with_line3(line3: &str) -> Vec<u8> {
    format!(")]}}'\n\n25\n{}\n31\n[[\"di\",75]]\n", line3).into_bytes()
}

fn envelope(inner: &str) -> Vec<u8> {
    let quoted = serde_json::to_string(inner).unwrap();
    body_with_line3(&format!("[[\"wrb.fr\",null,{}]]", quoted))
}

fn text(v: &JsonValue) -> &str {
    v.as_str().expect("a string value")
}

fn ok(r: Result<TurnReply, DecodeError>) -> TurnReply {
    match r {
        Ok(t) => t,
        Err(e) => panic!("decode failed: {:?}", e),
    }
}

#[test]
fn scenario_line_as_given_is_not_one_inner_document() {
    let line = r#"[[null,null,"[[\"hi\"]],[[\"cid\",\"rid\"]],[[\"hi\"]],[],[[\"ch1\",[\"hello\"]]]]"]]"#;
    let r = decode(&body_with_line3(line), SchemaVariant::Legacy);
    assert_eq!(r, Err(DecodeError::MalformedInner));
}

#[test]
fn legacy_scenario() {
    let line = r#"[[null,null,"[[\"hello\"],[\"cid\",\"rid\"],[\"hi\"],[],[[\"ch1\",[\"hello\"]]]]"]]"#;
    let r = ok(decode(&body_with_line3(line), SchemaVariant::Legacy));
    assert_eq!(r.content, "hello");
    assert_eq!(text(&r.conversation_id), "cid");
    assert_eq!(text(&r.turn_id), "rid");
    assert_eq!(text(&r.text_query), "hi");
    assert_eq!(r.candidates.len(), 1);
    assert_eq!(text(&r.candidates[0].id), "ch1");
    assert_eq!(r.candidates[0].text, JsonValue::Array(vec![JsonValue::Str("hello".to_string())]));
    assert!(r.candidates[0].fragments.is_empty());
    assert_eq!(r.selected_reply_id.as_deref(), Some("ch1"));
    assert!(r.location.is_none());
}

#[test]
fn legacy_keeps_every_entry() {
    let inner = r#"[["a reply"],["c_1","r_1"],["q"],null,[["rc_1",["one"]],["rc_2",["two"]],["rc_3",["three"]]]]"#;
    let r = ok(decode(&envelope(inner), SchemaVariant::Legacy));
    assert_eq!(r.candidates.len(), 3);
    let ids: Vec<&str> = r.candidates.iter().map(|c| text(&c.id)).collect();
    assert_eq!(ids, vec!["rc_1", "rc_2", "rc_3"]);
    assert_eq!(r.selected_reply_id.as_deref(), Some("rc_1"));
}

fn current_inner() -> String {
    let parts = [
        r#"[null,["c_9","r_9"],[["what is up"]],null,"#,
        r#"[["rc_0",["default text"]],["rc_1",["first","more"]],["rc_2",["second"]]],"#,
        r#"null,null,["Springfield","city"]]"#,
    ];
    parts.join("")
}

#[test]
fn current_skips_default_entry() {
    let r = ok(decode(&envelope(&current_inner()), SchemaVariant::Current));
    assert_eq!(r.content, "default text");
    assert_eq!(text(&r.text_query), "what is up");
    assert_eq!(r.candidates.len(), 2);
    assert_eq!(text(&r.candidates[0].id), "rc_1");
    assert_eq!(text(&r.candidates[0].text), "first");
    assert_eq!(r.candidates[0].fragments.len(), 2);
    assert_eq!(text(&r.candidates[0].fragments[1]), "more");
    assert_eq!(text(&r.candidates[1].id), "rc_2");
    assert_eq!(r.selected_reply_id.as_deref(), Some("rc_1"));
    let loc = r.location.expect("a location");
    assert_eq!(loc.address.as_deref(), Some("Springfield"));
    assert_eq!(loc.place_type.as_deref(), Some("city"));
}

#[test]
fn decoding_twice_gives_equal_replies() {
    let body = envelope(&current_inner());
    let a = decode(&body, SchemaVariant::Current);
    let b = decode(&body, SchemaVariant::Current);
    assert!(a.is_ok());
    assert_eq!(a, b);
}

#[test]
fn fallback_scan_finds_reply_id() {
    let inner = r#"[null,["c","r"],[["q"]],null,[["x",["only default"]]],[1,{"k":["deep",["rc_abc123"]]}]]"#;
    let r = ok(decode(&envelope(inner), SchemaVariant::Current));
    assert!(r.candidates.is_empty());
    assert_eq!(r.selected_reply_id.as_deref(), Some("rc_abc123"));
}

#[test]
fn fallback_scan_walks_object_members_in_document_order() {
    let inner = r#"[null,["c","r"],[["q"]],{"z":"rc_z","a":"rc_a"},[["x",["d"]]]]"#;
    let r = ok(decode(&envelope(inner), SchemaVariant::Current));
    assert_eq!(r.selected_reply_id.as_deref(), Some("rc_z"));
}

#[test]
fn fallback_scan_takes_first_in_depth_first_order() {
    let inner = r#"[null,["c","r"],[["q"]],[["rc_first"]],[["x",["d"]]],"rc_second"]"#;
    let r = ok(decode(&envelope(inner), SchemaVariant::Current));
    assert_eq!(r.selected_reply_id.as_deref(), Some("rc_first"));
}

#[test]
fn empty_first_id_is_selected_without_scan() {
    let inner = r#"[["t"],["c","r"],["q"],null,[["",["t"]],["rc_7",["u"]]]]"#;
    let r = ok(decode(&envelope(inner), SchemaVariant::Legacy));
    assert_eq!(r.candidates.len(), 2);
    assert_eq!(r.selected_reply_id.as_deref(), Some(""));
    assert_eq!(r.continuity(), None);
    let inner = r#"[null,["c","r"],[["q"]],null,[["rc_0",["d"]],["",["e"]]],"rc_9"]"#;
    let r = ok(decode(&envelope(inner), SchemaVariant::Current));
    assert_eq!(r.selected_reply_id.as_deref(), Some(""));
}

#[test]
fn fallback_scan_when_first_id_is_not_a_string() {
    let inner = r#"[["t"],["c","r"],["q"],null,[[null,["t"]],["rc_7",["u"]]]]"#;
    let r = ok(decode(&envelope(inner), SchemaVariant::Legacy));
    assert_eq!(r.selected_reply_id.as_deref(), Some("rc_7"));
}

#[test]
fn missing_conversation_or_turn_id_is_soft() {
    for inner in [r#"[["t"],[],["q"],null,[["rc_1",["t"]]]]"#, r#"[["t"],["c"],["q"],null,[["rc_1",["t"]]]]"#] {
        let r = ok(decode(&envelope(inner), SchemaVariant::Legacy));
        assert_eq!(r.content, "t");
        assert_eq!(r.turn_id, JsonValue::Null);
        assert_eq!(r.continuity(), None);
    }
}

#[test]
fn no_reply_id_anywhere_leaves_selection_absent() {
    let inner = r#"[null,["c","r"],[["q"]],null,[["x",["d"]]]]"#;
    let r = ok(decode(&envelope(inner), SchemaVariant::Current));
    assert_eq!(r.selected_reply_id, None);
}

#[test]
fn short_bodies_are_malformed_envelopes() {
    for body in ["", "a", "a\nb", "a\nb\nc"] {
        for v in [SchemaVariant::Legacy, SchemaVariant::Current] {
            assert_eq!(decode(body.as_bytes(), v), Err(DecodeError::MalformedEnvelope));
        }
    }
}

#[test]
fn line_three_must_be_an_array_of_arrays() {
    let cases = [
        "not json",
        "{\"a\":1}",
        "[[null,null,\"[]\"],5]",
        "[[null,null]]",
        "[[null,null,7]]",
        "[]",
    ];
    for line in cases {
        assert_eq!(
            decode(&body_with_line3(line), SchemaVariant::Legacy),
            Err(DecodeError::MalformedEnvelope),
            "line {}",
            line
        );
    }
}

#[test]
fn empty_line_three_is_malformed() {
    assert_eq!(decode(b"a\nb\nc\n", SchemaVariant::Current), Err(DecodeError::MalformedEnvelope));
}

#[test]
fn inner_document_must_be_an_array() {
    for inner in ["{\"a\":1}", "[1,", "\"text\"", "[1] [2]"] {
        assert_eq!(
            decode(&envelope(inner), SchemaVariant::Current),
            Err(DecodeError::MalformedInner),
            "inner {}",
            inner
        );
    }
}

#[test]
fn each_missing_field_is_named() {
    let legacy = [
        (r#"[[],["c","r"],["q"],null,[]]"#, Field::Content),
        (r#"[[7],["c","r"],["q"],null,[]]"#, Field::Content),
        (r#"[["t"],["c","r"],[],null,[]]"#, Field::TextQuery),
        (r#"[["t"],["c","r"],["q"],null]"#, Field::Candidates),
        (r#"[["t"],["c","r"],["q"],null,{"a":1}]"#, Field::Candidates),
        (r#"[["t"],["c","r"],["q"],null,[["only id"]]]"#, Field::Candidates),
    ];
    for (inner, field) in legacy {
        assert_eq!(
            decode(&envelope(inner), SchemaVariant::Legacy),
            Err(DecodeError::SchemaMismatch(field)),
            "inner {}",
            inner
        );
    }
    let current = [
        (r#"[null,["c","r"],[["q"]],null,[]]"#, Field::Content),
        (r#"[null,["c","r"],[["q"]],null,[["x",[["not text"]]]]]"#, Field::Content),
        (r#"[null,["c","r"],["q"],null,[["x",["d"]]]]"#, Field::TextQuery),
        (r#"[null,["c","r"],[["q"]],null,[["x",["d"]],["y","flat"]]]"#, Field::Candidates),
    ];
    for (inner, field) in current {
        assert_eq!(
            decode(&envelope(inner), SchemaVariant::Current),
            Err(DecodeError::SchemaMismatch(field)),
            "inner {}",
            inner
        );
    }
}

#[test]
fn location_needs_no_strings() {
    let inner = r#"[null,["c","r"],[["q"]],null,[["rc_0",["d"]]],null,null,[null]]"#;
    let r = ok(decode(&envelope(inner), SchemaVariant::Current));
    let loc = r.location.expect("a location");
    assert_eq!(loc.address, None);
    assert_eq!(loc.place_type, None);
}

#[test]
fn numbers_and_objects_are_kept() {
    let inner = r#"[["t"],["c","r"],[12.5],null,[[{"k":true,"a":null},[3]]]]"#;
    let r = ok(decode(&envelope(inner), SchemaVariant::Legacy));
    assert_eq!(r.text_query, JsonValue::Number("12.5".to_string()));
    assert_eq!(
        r.candidates[0].id,
        JsonValue::Object(
            vec!["k".to_string(), "a".to_string()],
            vec![JsonValue::Bool(true), JsonValue::Null]
        )
    );
    assert_eq!(r.selected_reply_id, None);
}

fn s(text: &str) -> JsonValue {
    JsonValue::Str(text.to_string())
}

fn arr(items: Vec<JsonValue>) -> JsonValue {
    JsonValue::Array(items)
}

#[test]
fn document_read_by_each_layout() {
    let doc = arr(vec![
        arr(vec![s("legacy text")]),
        arr(vec![s("c_5"), s("r_5")]),
        arr(vec![arr(vec![s("the query")])]),
        JsonValue::Null,
        arr(vec![
            arr(vec![s("rc_a"), arr(vec![s("current text")])]),
            arr(vec![s("rc_b"), arr(vec![s("other")])]),
        ]),
    ]);
    let legacy = gemini_chat::envelope::decode_document(&doc, SchemaVariant::Legacy).unwrap();
    assert_eq!(legacy.content, "legacy text");
    assert_eq!(legacy.text_query, arr(vec![s("the query")]));
    assert_eq!(legacy.candidates.len(), 2);
    assert_eq!(legacy.selected_reply_id.as_deref(), Some("rc_a"));
    let current = gemini_chat::envelope::decode_document(&doc, SchemaVariant::Current).unwrap();
    assert_eq!(current.content, "current text");
    assert_eq!(text(&current.text_query), "the query");
    assert_eq!(current.candidates.len(), 1);
    assert_eq!(current.selected_reply_id.as_deref(), Some("rc_b"));
    assert!(current.location.is_none());
}

#[test]
fn chat_string_of_outer_value() {
    let outer = arr(vec![arr(vec![JsonValue::Null, JsonValue::Null, s("[1]")]), arr(vec![])]);
    assert_eq!(gemini_chat::envelope::chat_string(&outer).map(|x| x.as_str()), Some("[1]"));
    let not_all_arrays = arr(vec![arr(vec![JsonValue::Null, JsonValue::Null, s("[1]")]), s("x")]);
    assert_eq!(gemini_chat::envelope::chat_string(&not_all_arrays), None);
}
