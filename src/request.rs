//! What one turn sends: the doubly encoded payload, the form body that
//! carries it, and the endpoint URL with its query.
use vstd::prelude::*;
use vstd::string::*;
use vstd::utf8::encode_utf8;
use crate::envelope::SchemaVariant;
use crate::json::{
    json_parse, json_text, json_views, lemma_json_views, lemma_writable_all, write_json, Json,
    JsonValue,
};

verus! {

/// The request document `[[message], null, [conversation, turn, reply]]`.
pub open spec fn request_document(
    message: Seq<char>,
    conversation_id: Seq<char>,
    turn_id: Seq<char>,
    selected_reply_id: Seq<char>,
) -> Json {
    Json::Array(
        seq![
            Json::Array(seq![Json::Str(message)]),
            Json::Null,
            Json::Array(
                seq![Json::Str(conversation_id), Json::Str(turn_id), Json::Str(selected_reply_id)],
            ),
        ],
    )
}

/// The payload: `[null, text]`, where `text` is the JSON text of the request
/// document, itself written as JSON text.
pub open spec fn payload_text(
    message: Seq<char>,
    conversation_id: Seq<char>,
    turn_id: Seq<char>,
    selected_reply_id: Seq<char>,
) -> Seq<char> {
    json_text(
        Json::Array(
            seq![
                Json::Null,
                Json::Str(
                    json_text(
                        request_document(message, conversation_id, turn_id, selected_reply_id),
                    ),
                ),
            ],
        ),
    )
}

/// The message and the three tokens that a payload carries, read back by
/// parsing it and then the string inside it.
pub open spec fn read_payload(p: Seq<char>) -> Option<(Seq<char>, Seq<char>, Seq<char>, Seq<char>)> {
    match json_parse(encode_utf8(p)) {
        Some(Json::Array(outer)) => if outer.len() == 2 && outer[0] == Json::Null {
            match outer[1] {
                Json::Str(inner) => match json_parse(encode_utf8(inner)) {
                    Some(Json::Array(d)) => if d.len() == 3 && d[1] == Json::Null {
                        match (d[0], d[2]) {
                            (Json::Array(m), Json::Array(ts)) => if m.len() == 1 && ts.len() == 3 {
                                match (m[0], ts[0], ts[1], ts[2]) {
                                    (Json::Str(m), Json::Str(c), Json::Str(t), Json::Str(s)) => Some(
                                        (m, c, t, s),
                                    ),
                                    _ => None,
                                }
                            } else {
                                None
                            },
                            _ => None,
                        }
                    } else {
                        None
                    },
                    _ => None,
                },
                _ => None,
            }
        } else {
            None
        },
        _ => None,
    }
}

/// The outbound unit of a turn: the message and a snapshot of the three
/// continuity tokens.
#[derive(Debug, PartialEq)]
pub struct TurnRequest {
    pub message: String,
    pub conversation_id: String,
    pub turn_id: String,
    pub selected_reply_id: String,
}

impl TurnRequest {
    /// The payload of the request. Parsing it, and then the string inside it,
    /// gives back the message and the three tokens.
    pub fn payload(&self) -> (r: String)
        ensures
            r@ == payload_text(
                self.message@,
                self.conversation_id@,
                self.turn_id@,
                self.selected_reply_id@,
            ),
            read_payload(r@) == Some(
                (self.message@, self.conversation_id@, self.turn_id@, self.selected_reply_id@),
            ),
    {
        let ids = vec![
            JsonValue::Str(self.conversation_id.clone()),
            JsonValue::Str(self.turn_id.clone()),
            JsonValue::Str(self.selected_reply_id.clone()),
        ];
        let message = vec![JsonValue::Str(self.message.clone())];
        let parts = vec![JsonValue::Array(message), JsonValue::Null, JsonValue::Array(ids)];
        let ghost ids_v = ids@;
        let ghost message_v = message@;
        let ghost parts_v = parts@;
        proof {
            lemma_json_views(ids_v);
            lemma_json_views(message_v);
            lemma_json_views(parts_v);
        }
        let document = JsonValue::Array(parts);
        let ghost want = request_document(
            self.message@,
            self.conversation_id@,
            self.turn_id@,
            self.selected_reply_id@,
        );
        proof {
            let s = seq![Json::Str(self.message@)];
            let t = seq![
                Json::Str(self.conversation_id@),
                Json::Str(self.turn_id@),
                Json::Str(self.selected_reply_id@),
            ];
            assert(json_views(message_v) =~= s);
            assert(json_views(ids_v) =~= t);
            assert(json_views(parts_v) =~= seq![Json::Array(s), Json::Null, Json::Array(t)]);
            assert(document@ == want);
            lemma_writable_all(s, 125);
            lemma_writable_all(t, 125);
            lemma_writable_all(seq![Json::Array(s), Json::Null, Json::Array(t)], 126);
        }
        let inner = write_json(&document);
        let outer_parts = vec![JsonValue::Null, JsonValue::Str(inner)];
        let ghost outer_v = outer_parts@;
        proof {
            lemma_json_views(outer_v);
        }
        let outer = JsonValue::Array(outer_parts);
        let ghost outer_want = Json::Array(seq![Json::Null, Json::Str(json_text(want))]);
        proof {
            assert(json_views(outer_v) =~= seq![Json::Null, Json::Str(json_text(want))]);
            assert(outer@ == outer_want);
            lemma_writable_all(seq![Json::Null, Json::Str(json_text(want))], 126);
        }
        write_json(&outer)
    }
}

/// A byte that urlencoding leaves as it is: an ASCII letter or digit, or one
/// of `-._~`.
pub open spec fn url_safe(b: u8) -> bool {
    (48 <= b <= 57) || (65 <= b <= 90) || (97 <= b <= 122) || b == 45 || b == 46 || b == 95
        || b == 126
}

/// The upper-case hexadecimal digit of `n`, for `n` below 16.
pub open spec fn hex_digit(n: u8) -> char {
    if n < 10 {
        (n + 48) as char
    } else {
        (n + 55) as char
    }
}

/// `%` and the two hexadecimal digits of a byte.
pub open spec fn percent_escape(b: u8) -> Seq<char> {
    seq!['%', hex_digit(b / 16), hex_digit(b % 16)]
}

/// urlencoding's form of a byte string.
pub open spec fn url_encoded(b: Seq<u8>) -> Seq<char>
    decreases b.len(),
{
    if b.len() == 0 {
        Seq::empty()
    } else {
        (if url_safe(b[0]) {
            seq![b[0] as char]
        } else {
            percent_escape(b[0])
        }) + url_encoded(b.drop_first())
    }
}

/// A byte that form encoding leaves as it is: an ASCII letter or digit, or
/// one of `*-._`.
pub open spec fn form_safe(b: u8) -> bool {
    (48 <= b <= 57) || (65 <= b <= 90) || (97 <= b <= 122) || b == 42 || b == 45 || b == 46
        || b == 95
}

/// The `application/x-www-form-urlencoded` form of a byte string: a space
/// becomes `+`, another byte that is not kept becomes a percent escape.
pub open spec fn form_encoded(b: Seq<u8>) -> Seq<char>
    decreases b.len(),
{
    if b.len() == 0 {
        Seq::empty()
    } else {
        (if form_safe(b[0]) {
            seq![b[0] as char]
        } else if b[0] == 32 {
            seq!['+']
        } else {
            percent_escape(b[0])
        }) + form_encoded(b.drop_first())
    }
}

/// Relies on `urlencoding::encode`: each byte of the UTF-8 text that is not
/// an ASCII letter, digit or one of `-._~` becomes `%` and two upper-case
/// hexadecimal digits; the others stay.
#[verifier::external_body]
fn url_encode(s: &str) -> (r: String)
    ensures
        r@ == url_encoded(encode_utf8(s@)),
{
    urlencoding::encode(s).into_owned()
}

/// Relies on `url::form_urlencoded::byte_serialize`: bytes that are ASCII
/// letters, digits or one of `*-._` stay, a space becomes `+`, each other
/// byte becomes `%` and two upper-case hexadecimal digits.
#[verifier::external_body]
fn form_encode(s: &str) -> (r: String)
    ensures
        r@ == form_encoded(encode_utf8(s@)),
{
    url::form_urlencoded::byte_serialize(s.as_bytes()).collect()
}

/// Relies on `FromIterator<&char>` for `String`: the string of those
/// characters, in order.
#[verifier::external_body]
fn string_of_chars(v: &Vec<char>) -> (r: String)
    ensures
        r@ == v@,
{
    v.iter().collect()
}

/// The decimal digit of `d`, for `d` below 10.
pub open spec fn digit_char(d: nat) -> char {
    (d + 48) as char
}

/// The decimal numeral of `n`, without leading zeros.
pub open spec fn decimal(n: nat) -> Seq<char>
    decreases n,
{
    if n < 10 {
        seq![digit_char(n)]
    } else {
        decimal(n / 10).push(digit_char(n % 10))
    }
}

/// The decimal numeral of `n`.
pub fn decimal_text(n: u64) -> (r: String)
    ensures
        r@ == decimal(n as nat),
{
    let mut out: Vec<char> = Vec::new();
    let mut m: u64 = n;
    while m >= 10
        invariant
            decimal(n as nat) == decimal(m as nat) + out@,
        decreases m,
    {
        let d = (m % 10) as u8;
        let c = (d + 48) as char;
        proof {
            assert(decimal(m as nat) == decimal((m / 10) as nat).push(digit_char((m % 10) as nat)));
            assert(decimal(m as nat) + out@ =~= decimal((m / 10) as nat) + seq![c] + out@);
        }
        let ghost prev = out@;
        out.insert(0, c);
        assert(out@ =~= seq![c] + prev);
        m = m / 10;
    }
    let c = (m as u8 + 48) as char;
    let ghost prev = out@;
    out.insert(0, c);
    assert(out@ =~= seq![c] + prev);
    string_of_chars(&out)
}

/// The service's own origin for a layout.
pub open spec fn origin_spec(variant: SchemaVariant) -> Seq<char> {
    match variant {
        SchemaVariant::Legacy => "https://bard.google.com"@,
        SchemaVariant::Current => "https://gemini.google.com"@,
    }
}

pub fn origin(variant: SchemaVariant) -> (r: &'static str)
    ensures
        r@ == origin_spec(variant),
{
    match variant {
        SchemaVariant::Legacy => "https://bard.google.com",
        SchemaVariant::Current => "https://gemini.google.com",
    }
}

/// The backend build label that goes with a layout.
pub open spec fn build_label_spec(variant: SchemaVariant) -> Seq<char> {
    match variant {
        SchemaVariant::Legacy => "boq_assistant-bard-web-server_20230507.20_p2"@,
        SchemaVariant::Current => "boq_assistant-bard-web-server_20240717.08_p5"@,
    }
}

pub fn build_label(variant: SchemaVariant) -> (r: &'static str)
    ensures
        r@ == build_label_spec(variant),
{
    match variant {
        SchemaVariant::Legacy => "boq_assistant-bard-web-server_20230507.20_p2",
        SchemaVariant::Current => "boq_assistant-bard-web-server_20240717.08_p5",
    }
}

/// The browser user agent sent with every request of a session.
pub open spec fn user_agent_spec(variant: SchemaVariant) -> Seq<char> {
    match variant {
        SchemaVariant::Legacy => "Mozilla/5.0 (Windows NT 10.0; Win64; x64) AppleWebKit/537.36 (KHTML, like Gecko) Chrome/112.0.0.0 Safari/537.36"@,
        SchemaVariant::Current => "Mozilla/5.0 (Windows NT 10.0; Win64; x64) AppleWebKit/537.36 (KHTML, like Gecko) Chrome/126.0.0.0 Safari/537.36"@,
    }
}

pub fn user_agent(variant: SchemaVariant) -> (r: &'static str)
    ensures
        r@ == user_agent_spec(variant),
{
    match variant {
        SchemaVariant::Legacy => "Mozilla/5.0 (Windows NT 10.0; Win64; x64) AppleWebKit/537.36 (KHTML, like Gecko) Chrome/112.0.0.0 Safari/537.36",
        SchemaVariant::Current => "Mozilla/5.0 (Windows NT 10.0; Win64; x64) AppleWebKit/537.36 (KHTML, like Gecko) Chrome/126.0.0.0 Safari/537.36",
    }
}

/// The landing page, whose body carries the anti-forgery token.
pub open spec fn landing_page_spec(variant: SchemaVariant) -> Seq<char> {
    origin_spec(variant) + "/"@
}

pub fn landing_page(variant: SchemaVariant) -> (r: String)
    ensures
        r@ == landing_page_spec(variant),
{
    let mut r = String::from_str(origin(variant));
    r.append("/");
    r
}

/// The value of the cookie header: the session credential, and the
/// refresh credential where there is one.
pub open spec fn cookie_spec(psid: Seq<char>, psidts: Option<Seq<char>>) -> Seq<char> {
    match psidts {
        Some(ts) => "__Secure-1PSID="@ + psid + "; __Secure-1PSIDTS="@ + ts,
        None => "__Secure-1PSID="@ + psid,
    }
}

pub fn cookie_header(psid: &str, psidts: Option<&str>) -> (r: String)
    ensures
        r@ == cookie_spec(psid@, match psidts {
            Some(ts) => Some(ts@),
            None => None,
        }),
{
    let mut r = String::from_str("__Secure-1PSID=");
    r.append(psid);
    match psidts {
        Some(ts) => {
            r.append("; __Secure-1PSIDTS=");
            r.append(ts);
        },
        None => {},
    }
    r
}

/// The form body of a turn: the payload and the token, each url-encoded,
/// with the trailing `&` that the service takes.
pub open spec fn form_body_spec(payload: Seq<char>, token: Seq<char>) -> Seq<char> {
    "f.req="@ + url_encoded(encode_utf8(payload)) + "&at="@ + url_encoded(encode_utf8(token)) + "&"@
}

pub fn form_body(payload: &str, token: &str) -> (r: String)
    ensures
        r@ == form_body_spec(payload@, token@),
{
    let mut r = String::from_str("f.req=");
    r.append(url_encode(payload).as_str());
    r.append("&at=");
    r.append(url_encode(token).as_str());
    r.append("&");
    r
}

/// One `name=value` pair of a form-encoded query.
pub open spec fn query_pair_spec(name: Seq<char>, value: Seq<char>) -> Seq<char> {
    form_encoded(encode_utf8(name)) + "="@ + form_encoded(encode_utf8(value))
}

pub fn query_pair(name: &str, value: &str) -> (r: String)
    ensures
        r@ == query_pair_spec(name@, value@),
{
    let mut r = form_encode(name);
    r.append("=");
    r.append(form_encode(value).as_str());
    r
}

/// The endpoint of a turn, with the build label, the request sequence and
/// the response type in its query.
pub open spec fn endpoint_spec(variant: SchemaVariant, sequence: nat) -> Seq<char> {
    origin_spec(variant) + "/_/BardChatUi/data/assistant.lamda.BardFrontendService/StreamGenerate?"@
        + query_pair_spec("bl"@, build_label_spec(variant)) + "&"@ + query_pair_spec(
        "_reqid"@,
        decimal(sequence),
    ) + "&"@ + query_pair_spec("rt"@, "c"@)
}

pub fn endpoint(variant: SchemaVariant, sequence: u64) -> (r: String)
    ensures
        r@ == endpoint_spec(variant, sequence as nat),
{
    let mut r = String::from_str(origin(variant));
    r.append("/_/BardChatUi/data/assistant.lamda.BardFrontendService/StreamGenerate?");
    r.append(query_pair("bl", build_label(variant)).as_str());
    r.append("&");
    let numeral = decimal_text(sequence);
    r.append(query_pair("_reqid", numeral.as_str()).as_str());
    r.append("&");
    r.append(query_pair("rt", "c").as_str());
    r
}

/// A header, by name and value.
#[derive(Debug, PartialEq)]
pub struct Header {
    pub name: String,
    pub value: String,
}

/// The headers of a turn: the form's content type, and the service's origin
/// as origin and referer.
pub open spec fn turn_headers_spec(variant: SchemaVariant) -> Seq<(Seq<char>, Seq<char>)> {
    seq![
        ("Content-Type"@, "application/x-www-form-urlencoded;charset=UTF-8"@),
        ("Origin"@, origin_spec(variant)),
        ("Referer"@, landing_page_spec(variant)),
    ]
}

pub open spec fn headers_view(h: Seq<Header>) -> Seq<(Seq<char>, Seq<char>)> {
    h.map_values(|x: Header| (x.name@, x.value@))
}

pub fn turn_headers(variant: SchemaVariant) -> (r: Vec<Header>)
    ensures
        headers_view(r@) == turn_headers_spec(variant),
{
    let mut r: Vec<Header> = Vec::new();
    r.push(
        Header {
            name: String::from_str("Content-Type"),
            value: String::from_str("application/x-www-form-urlencoded;charset=UTF-8"),
        },
    );
    r.push(Header { name: String::from_str("Origin"), value: String::from_str(origin(variant)) });
    r.push(Header { name: String::from_str("Referer"), value: landing_page(variant) });
    assert(headers_view(r@) =~= turn_headers_spec(variant));
    r
}

/// Everything the transport needs to send one turn.
#[derive(Debug, PartialEq)]
pub struct OutboundRequest {
    pub url: String,
    pub body: String,
    pub headers: Vec<Header>,
}

} // verus!
