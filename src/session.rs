//! The session: its credentials, its request sequence and the three
//! continuity tokens, and the two halves of a turn around the transport.
use vstd::prelude::*;
use vstd::string::*;
use rand::Rng;
use crate::envelope::{
    chars_of, continuity_of, decode, decode_spec, result_view, DecodeError,
    SchemaVariant, TurnReply, TurnReplyModel,
};
use crate::lines::line_count;
use crate::request::{
    endpoint, endpoint_spec, form_body, form_body_spec, headers_view, payload_text, turn_headers,
    turn_headers_spec, OutboundRequest, TurnRequest,
};

verus! {

/// The characters of a string, in order.
pub fn chars_of_str(s: &str) -> (r: Vec<char>)
    ensures
        r@ == s@,
{
    let mut r: Vec<char> = Vec::new();
    for c in it: s.chars()
        invariant
            r@ == it.seq().subrange(0, it.index() as int),
    {
        r.push(c);
    }
    r
}

/// `t` holds `p` somewhere as a contiguous run.
pub open spec fn contains(t: Seq<char>, p: Seq<char>) -> bool {
    exists|i: int| 0 <= i && i + p.len() <= t.len() && #[trigger] t.subrange(i, i + p.len()) == p
}

pub fn contains_exec(t: &Vec<char>, p: &Vec<char>) -> (r: bool)
    ensures
        r == contains(t@, p@),
{
    if p.len() > t.len() {
        return false;
    }
    let mut i: usize = 0;
    while i <= t.len() - p.len()
        invariant
            p.len() <= t.len(),
            i <= t.len() - p.len() + 1,
            forall|j: int| 0 <= j < i ==> #[trigger] t@.subrange(j, j + p.len()) != p@,
        decreases t.len() - i,
    {
        let mut k: usize = 0;
        let mut same = true;
        while k < p.len() && same
            invariant
                i + p.len() <= t.len(),
                k <= p.len(),
                same ==> forall|q: int| 0 <= q < k ==> t@[i + q] == p@[q],
                !same ==> exists|q: int| 0 <= q < p.len() && t@[i + q] != p@[q],
            decreases p.len() - k + if same {
                1int
            } else {
                0int
            },
        {
            if t[i + k] != p[k] {
                same = false;
            } else {
                k = k + 1;
            }
        }
        if same {
            assert(t@.subrange(i as int, i + p.len()) =~= p@);
            return true;
        }
        proof {
            let q = choose|q: int| 0 <= q < p.len() && t@[i + q] != p@[q];
            assert(t@.subrange(i as int, i + p.len())[q] != p@[q]);
        }
        i = i + 1;
    }
    false
}

/// The word that the service puts on the page it shows in place of the
/// landing page when it takes the client for a bot.
pub open spec fn challenge_marker() -> Seq<char> {
    seq!['C', 'A', 'P', 'T', 'C', 'H', 'A']
}

/// What precedes the anti-forgery token on the landing page: `SNlM0e":"`.
pub open spec fn token_marker() -> Seq<char> {
    seq!['S', 'N', 'l', 'M', '0', 'e', '"', ':', '"']
}

/// Index of the first `"` or newline at or after `k`, or the length of `t`.
pub open spec fn stop_at(t: Seq<char>, k: nat) -> nat
    decreases t.len() - k,
{
    if k >= t.len() {
        t.len() as nat
    } else if t[k as int] == '"' || t[k as int] == '\n' {
        k
    } else {
        stop_at(t, k + 1)
    }
}

/// The token pattern matches at `i`: the marker, then characters other than
/// a newline, then `"`.
pub open spec fn token_match_at(t: Seq<char>, i: nat) -> bool {
    let k = i + token_marker().len();
    &&& k <= t.len()
    &&& t.subrange(i as int, k as int) == token_marker()
    &&& stop_at(t, k) < t.len()
    &&& t[stop_at(t, k) as int] == '"'
}

/// The token of the leftmost match at `i` or later: the shortest run after
/// the marker that a `"` closes.
pub open spec fn token_from(t: Seq<char>, i: nat) -> Option<Seq<char>>
    decreases t.len() - i,
{
    if i >= t.len() {
        None
    } else if token_match_at(t, i) {
        let k = i + token_marker().len();
        Some(t.subrange(k as int, stop_at(t, k) as int))
    } else {
        token_from(t, i + 1)
    }
}

/// The pattern that finds the anti-forgery token on the landing page.
pub const TOKEN_PATTERN: &'static str = "SNlM0e\":\"(.*?)\"";

/// Relies on `regex::Regex::new` and `Regex::captures`: for the pattern
/// `SNlM0e":"(.*?)"`, which compiles, the leftmost match is the first
/// position where the marker is followed by characters other than a newline
/// and then `"`, and group 1 is the shortest such run.
#[verifier::external_body]
fn first_capture(pattern: &str, text: &str) -> (r: Option<String>)
    requires
        pattern@ == TOKEN_PATTERN@,
    ensures
        chars_of(r) == token_from(text@, 0),
{
    regex::Regex::new(pattern).unwrap().captures(text).and_then(|c| c.get(1)).map(
        |m| m.as_str().to_string(),
    )
}

/// Relies on `rand::thread_rng` and `Rng::gen_range`: a value of the
/// half-open range, which must not be empty.
#[verifier::external_body]
fn random_in_range(low: u64, high: u64) -> (r: u64)
    requires
        low < high,
    ensures
        low <= r < high,
{
    rand::thread_rng().gen_range(low..high)
}

/// The least first request sequence.
pub const SEQUENCE_LOW: u64 = 100000;

/// The bound above every first request sequence.
pub const SEQUENCE_HIGH: u64 = 999999;

/// What the request sequence grows by after each turn that advances the
/// conversation.
pub const SEQUENCE_STEP: u64 = 100000;

/// Why a session could not be created from the landing page.
#[derive(Clone, Copy, Debug, PartialEq, Eq, Structural)]
pub enum AuthError {
    /// The service answered with a bot challenge: stop, do not retry.
    Blocked,
    /// The page carries no anti-forgery token: its layout has changed.
    UnrecognizedPage,
}

/// One conversation with the service.
#[derive(Debug)]
pub struct Chatbot {
    variant: SchemaVariant,
    cookie: String,
    snlm0e: String,
    reqid: u64,
    conversation_id: String,
    response_id: String,
    choice_id: String,
}

pub struct ChatbotModel {
    pub variant: SchemaVariant,
    pub cookie: Seq<char>,
    pub token: Seq<char>,
    pub sequence: u64,
    pub conversation_id: Seq<char>,
    pub turn_id: Seq<char>,
    pub selected_reply_id: Seq<char>,
}

impl View for Chatbot {
    type V = ChatbotModel;

    closed spec fn view(&self) -> ChatbotModel {
        ChatbotModel {
            variant: self.variant,
            cookie: self.cookie@,
            token: self.snlm0e@,
            sequence: self.reqid,
            conversation_id: self.conversation_id@,
            turn_id: self.response_id@,
            selected_reply_id: self.choice_id@,
        }
    }
}

/// The state after a decode: the three tokens and a sequence one step on
/// where the reply resolved all three tokens, else the state unchanged.
pub open spec fn after_reply(m: ChatbotModel, r: Result<TurnReplyModel, DecodeError>) -> ChatbotModel {
    match r {
        Ok(t) => match continuity_of(t) {
            Some((c, u, s)) => ChatbotModel {
                conversation_id: c,
                turn_id: u,
                selected_reply_id: s,
                sequence: (m.sequence + SEQUENCE_STEP) as u64,
                ..m
            },
            None => m,
        },
        Err(_) => m,
    }
}

/// The session created from a landing page with a first request sequence.
pub open spec fn created(
    variant: SchemaVariant,
    cookie: Seq<char>,
    page: Seq<char>,
    sequence: u64,
) -> Result<ChatbotModel, AuthError> {
    if contains(page, challenge_marker()) {
        Err(AuthError::Blocked)
    } else {
        match token_from(page, 0) {
            None => Err(AuthError::UnrecognizedPage),
            Some(token) => Ok(
                ChatbotModel {
                    variant,
                    cookie,
                    token,
                    sequence,
                    conversation_id: Seq::empty(),
                    turn_id: Seq::empty(),
                    selected_reply_id: Seq::empty(),
                },
            ),
        }
    }
}

pub open spec fn created_view(r: Result<Chatbot, AuthError>) -> Result<ChatbotModel, AuthError> {
    match r {
        Ok(c) => Ok(c@),
        Err(e) => Err(e),
    }
}

impl ChatbotModel {
    /// The continuity tokens are all empty or all set.
    pub open spec fn wf(self) -> bool {
        ||| (self.conversation_id.len() == 0 && self.turn_id.len() == 0
            && self.selected_reply_id.len() == 0)
        ||| (self.conversation_id.len() > 0 && self.turn_id.len() > 0
            && self.selected_reply_id.len() > 0)
    }
}

impl Chatbot {
    pub open spec fn wf(&self) -> bool {
        self@.wf()
    }

    /// A session from the landing page that the cookie fetched, with
    /// `sequence` as its first request sequence.
    pub fn from_page(variant: SchemaVariant, cookie: String, page: &str, sequence: u64) -> (r: Result<
        Chatbot,
        AuthError,
    >)
        ensures
            created_view(r) == created(variant, cookie@, page@, sequence),
            r is Ok ==> r->Ok_0.wf(),
    {
        let chars = chars_of_str(page);
        let marker = vec!['C', 'A', 'P', 'T', 'C', 'H', 'A'];
        assert(marker@ =~= challenge_marker());
        if contains_exec(&chars, &marker) {
            return Err(AuthError::Blocked);
        }
        match first_capture(TOKEN_PATTERN, page) {
            None => Err(AuthError::UnrecognizedPage),
            Some(token) => Ok(
                Chatbot {
                    variant,
                    cookie,
                    snlm0e: token,
                    reqid: sequence,
                    conversation_id: String::new(),
                    response_id: String::new(),
                    choice_id: String::new(),
                },
            ),
        }
    }

    /// A session from the landing page that the cookie fetched, with a first
    /// request sequence drawn at random.
    pub fn new(variant: SchemaVariant, cookie: String, page: &str) -> (r: Result<Chatbot, AuthError>)
        ensures
            match r {
                Ok(c) => SEQUENCE_LOW <= c@.sequence < SEQUENCE_HIGH && created(
                    variant,
                    cookie@,
                    page@,
                    c@.sequence,
                ) == Ok::<ChatbotModel, AuthError>(c@) && c.wf(),
                Err(e) => forall|n: u64| created(variant, cookie@, page@, n) == Err::<ChatbotModel, AuthError>(e),
            },
    {
        let sequence = random_in_range(SEQUENCE_LOW, SEQUENCE_HIGH);
        Chatbot::from_page(variant, cookie, page, sequence)
    }

    /// Clears the three continuity tokens; the request sequence stays.
    pub fn reset(&mut self)
        ensures
            final(self)@ == (ChatbotModel {
                conversation_id: Seq::empty(),
                turn_id: Seq::empty(),
                selected_reply_id: Seq::empty(),
                ..old(self)@
            }),
            final(self).wf(),
    {
        self.conversation_id = String::new();
        self.response_id = String::new();
        self.choice_id = String::new();
    }

    /// The request of a turn: the message and a snapshot of the tokens.
    pub fn turn_request(&self, message: &str) -> (r: TurnRequest)
        ensures
            r.message@ == message@,
            r.conversation_id@ == self@.conversation_id,
            r.turn_id@ == self@.turn_id,
            r.selected_reply_id@ == self@.selected_reply_id,
    {
        TurnRequest {
            message: message.to_owned(),
            conversation_id: self.conversation_id.clone(),
            turn_id: self.response_id.clone(),
            selected_reply_id: self.choice_id.clone(),
        }
    }

    /// What to send for a turn: the endpoint with the current request
    /// sequence, the form body with the payload and the token, the headers.
    pub fn ask_request(&self, message: &str) -> (r: OutboundRequest)
        ensures
            r.url@ == endpoint_spec(self@.variant, self@.sequence as nat),
            r.body@ == form_body_spec(
                payload_text(
                    message@,
                    self@.conversation_id,
                    self@.turn_id,
                    self@.selected_reply_id,
                ),
                self@.token,
            ),
            headers_view(r.headers@) == turn_headers_spec(self@.variant),
    {
        let request = self.turn_request(message);
        let payload = request.payload();
        OutboundRequest {
            url: endpoint(self.variant, self.reqid),
            body: form_body(payload.as_str(), self.snlm0e.as_str()),
            headers: turn_headers(self.variant),
        }
    }

    /// Decodes the reply body of a turn. Where the reply resolves all three
    /// continuity tokens they replace the old ones together and the request
    /// sequence grows by one step; otherwise the session is left as it was.
    pub fn accept_reply(&mut self, body: &[u8]) -> (r: Result<TurnReply, DecodeError>)
        requires
            old(self).wf(),
            old(self)@.sequence <= u64::MAX - SEQUENCE_STEP,
        ensures
            result_view(r) == decode_spec(body@, old(self)@.variant),
            final(self)@ == after_reply(old(self)@, result_view(r)),
            final(self).wf(),
    {
        let r = decode(body, self.variant);
        match &r {
            Ok(reply) => match reply.continuity() {
                Some((c, u, s)) => {
                    self.conversation_id = c;
                    self.response_id = u;
                    self.choice_id = s;
                    self.reqid = self.reqid + SEQUENCE_STEP;
                },
                None => {},
            },
            Err(_) => {},
        }
        r
    }

    pub fn variant(&self) -> (r: SchemaVariant)
        ensures
            r == self@.variant,
    {
        self.variant
    }

    /// The cookie header that the session was created with.
    pub fn cookie(&self) -> (r: &str)
        ensures
            r@ == self@.cookie,
    {
        self.cookie.as_str()
    }

    pub fn anti_forgery_token(&self) -> (r: &str)
        ensures
            r@ == self@.token,
    {
        self.snlm0e.as_str()
    }

    pub fn request_sequence(&self) -> (r: u64)
        ensures
            r == self@.sequence,
    {
        self.reqid
    }

    pub fn conversation_id(&self) -> (r: &str)
        ensures
            r@ == self@.conversation_id,
    {
        self.conversation_id.as_str()
    }

    pub fn turn_id(&self) -> (r: &str)
        ensures
            r@ == self@.turn_id,
    {
        self.response_id.as_str()
    }

    pub fn selected_reply_id(&self) -> (r: &str)
        ensures
            r@ == self@.selected_reply_id,
    {
        self.choice_id.as_str()
    }
}

/// A reply whose continuity is unresolved leaves the session as it was:
/// the three tokens and the request sequence alike.
pub proof fn lemma_unresolved_keeps_session(m: ChatbotModel, r: TurnReplyModel)
    requires
        continuity_of(r) is None,
    ensures
        after_reply(m, Ok(r)) == m,
{
}

/// A body of fewer than four lines fails to decode as a malformed envelope
/// and leaves the session as it was.
pub proof fn lemma_short_body_keeps_session(m: ChatbotModel, body: Seq<u8>)
    requires
        line_count(body) < 4,
    ensures
        decode_spec(body, m.variant) == Err::<TurnReplyModel, DecodeError>(DecodeError::MalformedEnvelope),
        after_reply(m, decode_spec(body, m.variant)) == m,
{
    crate::envelope::lemma_short_body(body, m.variant);
}

} // verus!
