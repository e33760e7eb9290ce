use gemini_chat::envelope::{DecodeError, SchemaVariant};
use gemini_chat::session::{AuthError, Chatbot, SEQUENCE_HIGH, SEQUENCE_LOW, SEQUENCE_STEP};

const PAGE: &str = "<html><script>WIZ_global_data = {\"FdrFJe\":\"1\",\"SNlM0e\":\"AFcb:tok_123\",\"x\":\"y\"}</script>";

fn envelope(inner: &str) -> Vec<u8> {
    let quoted = serde_json::to_string(inner).unwrap();
    format!(")]}}'\n\n25\n[[\"wrb.fr\",null,{}]]\n", quoted).into_bytes()
}

fn session(variant: SchemaVariant) -> Chatbot {
    Chatbot::from_page(variant, "__Secure-1PSID=g.x".to_string(), PAGE, 200000).unwrap()
}

#[test]
fn token_is_scraped_from_landing_page() {
    let c = session(SchemaVariant::Current);
    assert_eq!(c.anti_forgery_token(), "AFcb:tok_123");
    assert_eq!(c.cookie(), "__Secure-1PSID=g.x");
    assert_eq!(c.request_sequence(), 200000);
    assert_eq!(c.conversation_id(), "");
    assert_eq!(c.turn_id(), "");
    assert_eq!(c.selected_reply_id(), "");
    assert_eq!(c.variant(), SchemaVariant::Current);
}

#[test]
fn leftmost_token_wins_and_newline_breaks_a_match() {
    let page = "SNlM0e\":\"broken\nSNlM0e\":\"\" SNlM0e\":\"late\"";
    let c = Chatbot::from_page(SchemaVariant::Legacy, "k".to_string(), page, 1).unwrap();
    assert_eq!(c.anti_forgery_token(), "");
    let page = "SNlM0e\":\"a\"b\"";
    let c = Chatbot::from_page(SchemaVariant::Legacy, "k".to_string(), page, 1).unwrap();
    assert_eq!(c.anti_forgery_token(), "a");
}

#[test]
fn challenge_page_is_blocked() {
    let page = format!("{} please solve the CAPTCHA", PAGE);
    let r = Chatbot::from_page(SchemaVariant::Current, "k".to_string(), &page, 1);
    assert_eq!(r.unwrap_err(), AuthError::Blocked);
}

#[test]
fn page_without_token_is_unrecognized() {
    let r = Chatbot::from_page(SchemaVariant::Current, "k".to_string(), "<html>captcha</html>", 1);
    assert_eq!(r.unwrap_err(), AuthError::UnrecognizedPage);
    let r = Chatbot::from_page(SchemaVariant::Current, "k".to_string(), "SNlM0e\":\"open", 1);
    assert_eq!(r.unwrap_err(), AuthError::UnrecognizedPage);
}

#[test]
fn new_draws_sequence_in_range() {
    for _ in 0..20 {
        let c = Chatbot::new(SchemaVariant::Current, "k".to_string(), PAGE).unwrap();
        assert!(SEQUENCE_LOW <= c.request_sequence() && c.request_sequence() < SEQUENCE_HIGH);
    }
    let page = "CAPTCHA";
    assert_eq!(Chatbot::new(SchemaVariant::Current, "k".to_string(), page).unwrap_err(), AuthError::Blocked);
}

#[test]
fn resolved_reply_advances_session() {
    let mut c = session(SchemaVariant::Current);
    let inner = r#"[null,["c_1","r_1"],[["q"]],null,[["rc_0",["d"]],["rc_1",["e"]]]]"#;
    let r = c.accept_reply(&envelope(inner)).unwrap();
    assert_eq!(r.selected_reply_id.as_deref(), Some("rc_1"));
    assert_eq!(c.conversation_id(), "c_1");
    assert_eq!(c.turn_id(), "r_1");
    assert_eq!(c.selected_reply_id(), "rc_1");
    assert_eq!(c.request_sequence(), 200000 + SEQUENCE_STEP);
}

#[test]
fn unresolved_reply_leaves_session_unchanged() {
    let mut c = session(SchemaVariant::Current);
    let first = r#"[null,["c_1","r_1"],[["q"]],null,[["rc_0",["d"]],["rc_1",["e"]]]]"#;
    c.accept_reply(&envelope(first)).unwrap();
    let unresolved = [
        r#"[null,[null,"r_2"],[["q"]],null,[["rc_0",["d"]],["rc_2",["e"]]]]"#,
        r#"[null,["c_2",""],[["q"]],null,[["rc_0",["d"]],["rc_2",["e"]]]]"#,
        r#"[null,["c_2","r_2"],[["q"]],null,[["x",["d"]]]]"#,
        r#"[null,["c_2","r_2"],[["q"]],null,[["rc_0",["d"]],["",["e"]]]]"#,
        r#"[null,["c_2"],[["q"]],null,[["rc_0",["d"]],["rc_2",["e"]]]]"#,
    ];
    for inner in unresolved {
        let r = c.accept_reply(&envelope(inner));
        assert!(r.is_ok());
        assert_eq!(c.conversation_id(), "c_1");
        assert_eq!(c.turn_id(), "r_1");
        assert_eq!(c.selected_reply_id(), "rc_1");
        assert_eq!(c.request_sequence(), 200000 + SEQUENCE_STEP);
    }
    let r = c.accept_reply(b"only\ntwo lines");
    assert_eq!(r.unwrap_err(), DecodeError::MalformedEnvelope);
    assert_eq!(c.conversation_id(), "c_1");
    assert_eq!(c.request_sequence(), 200000 + SEQUENCE_STEP);
}

#[test]
fn reset_clears_tokens_and_keeps_sequence() {
    let mut c = session(SchemaVariant::Legacy);
    let inner = r#"[["t"],["c_1","r_1"],["q"],null,[["rc_1",["t"]]]]"#;
    c.accept_reply(&envelope(inner)).unwrap();
    assert_eq!(c.selected_reply_id(), "rc_1");
    c.reset();
    assert_eq!(c.conversation_id(), "");
    assert_eq!(c.turn_id(), "");
    assert_eq!(c.selected_reply_id(), "");
    assert_eq!(c.request_sequence(), 200000 + SEQUENCE_STEP);
    assert_eq!(c.anti_forgery_token(), "AFcb:tok_123");
}

#[test]
fn ask_request_snapshots_tokens() {
    let mut c = session(SchemaVariant::Current);
    let inner = r#"[null,["c_1","r_1"],[["q"]],null,[["rc_0",["d"]],["rc_1",["e"]]]]"#;
    c.accept_reply(&envelope(inner)).unwrap();
    let out = c.ask_request("hi");
    assert!(out.url.ends_with("&_reqid=300000&rt=c"));
    let payload = r#"[null,"[[\"hi\"],null,[\"c_1\",\"r_1\",\"rc_1\"]]"]"#;
    let want = format!(
        "f.req={}&at={}&",
        urlencoding::encode(payload),
        urlencoding::encode("AFcb:tok_123")
    );
    assert_eq!(out.body, want);
    assert_eq!(out.headers.len(), 3);
    let t = c.turn_request("hi");
    assert_eq!(t.conversation_id, "c_1");
    assert_eq!(t.selected_reply_id, "rc_1");
}

#[test]
fn continuity_needs_all_three_tokens() {
    let resolved = r#"[null,["c_1","r_1"],[["q"]],null,[["rc_0",["d"]],["rc_1",["e"]]]]"#;
    let r = gemini_chat::envelope::decode(&envelope(resolved), SchemaVariant::Current).unwrap();
    assert_eq!(
        r.continuity(),
        Some(("c_1".to_string(), "r_1".to_string(), "rc_1".to_string()))
    );
    let no_turn = r#"[null,["c_1",7],[["q"]],null,[["rc_0",["d"]],["rc_1",["e"]]]]"#;
    let r = gemini_chat::envelope::decode(&envelope(no_turn), SchemaVariant::Current).unwrap();
    assert_eq!(r.continuity(), None);
}
