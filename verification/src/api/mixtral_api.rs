//! The completion client: framing one question as a chat-completion request
//! (struct, JSON body and headers) and classifying the response body into an
//! answer or a typed failure.
//!
//! The HTTP POST itself is outside this crate; it is handed the body and
//! header values built here and hands back the response body text, which
//! [`read_answer`] then classifies.

use vstd::prelude::*;

use crate::api::manage_errors::{AppError, MistralAiApiError};
use crate::text::string_push;

verus! {

/// One role/content entry of a completion request.
pub struct QuestionMessage {
    pub role: String,
    pub content: String,
}

/// The mathematical value of a [`QuestionMessage`].
#[verifier::ext_equal]
pub struct MessageView {
    pub role: Seq<char>,
    pub content: Seq<char>,
}

impl View for QuestionMessage {
    type V = MessageView;

    open spec fn view(&self) -> MessageView {
        MessageView { role: self.role@, content: self.content@ }
    }
}

/// One outbound completion request: a model identifier and an ordered,
/// never-empty list of messages.
pub struct Request {
    pub model: String,
    pub messages: Vec<QuestionMessage>,
}

/// The mathematical value of a [`Request`].
#[verifier::ext_equal]
pub struct RequestView {
    pub model: Seq<char>,
    pub messages: Seq<MessageView>,
}

impl View for Request {
    type V = RequestView;

    open spec fn view(&self) -> RequestView {
        RequestView {
            model: self.model@,
            messages: Seq::new(self.messages@.len(), |i: int| self.messages@[i]@),
        }
    }
}

impl Request {
    /// Well-formedness: a request never carries an empty message list.
    pub open spec fn wf(&self) -> bool {
        self@.messages.len() > 0
    }
}

/// The request this client sends for a question: exactly one message, with
/// role `user` and the question as its verbatim content.
pub open spec fn spec_user_request(model: Seq<char>, question: Seq<char>) -> RequestView {
    RequestView { model, messages: seq![MessageView { role: "user"@, content: question }] }
}

/// The completion client: the endpoint it posts to and the bearer token it
/// authenticates with, both fixed at construction.
pub struct MixtralAiApi {
    pub base_url: String,
    pub token: String,
}

/// The fixed chat-completions endpoint.
pub open spec fn spec_endpoint() -> Seq<char> {
    "https://api.mistral.ai/v1/chat/completions"@
}

impl MixtralAiApi {
    /// A client for the fixed endpoint, holding the given token.
    pub fn new(token: &str) -> (r: MixtralAiApi)
        ensures
            r.base_url@ == spec_endpoint(),
            r.token@ == token@,
    {
        MixtralAiApi {
            base_url: "https://api.mistral.ai/v1/chat/completions".to_owned(),
            token: token.to_owned(),
        }
    }

    /// A client like [`MixtralAiApi::new`] but posting to the given base URL
    /// instead of the fixed endpoint.
    pub fn new_with_base_url(base_url: &str, token: &str) -> (r: MixtralAiApi)
        ensures
            r.base_url@ == base_url@,
            r.token@ == token@,
    {
        MixtralAiApi { base_url: base_url.to_owned(), token: token.to_owned() }
    }

    /// An API-level error value with the given code and message.
    pub fn new_api_error(code: i64, msg: &'static str) -> (r: MistralAiApiError)
        ensures
            r.code == code,
            r.msg == msg,
    {
        MistralAiApiError { code, msg }
    }

    /// Builds the request for one question: exactly one entry with role
    /// `user` whose content is the question, verbatim.
    pub fn prepare_request(&self, question: &str, model: &str) -> (r: Request)
        ensures
            r@ == spec_user_request(model@, question@),
            r.wf(),
            r@.messages.len() == 1,
            r@.messages[0].role == "user"@,
            r@.messages[0].content == question@,
            r@.model == model@,
    {
        let message = QuestionMessage { role: "user".to_owned(), content: question.to_owned() };
        let mut messages: Vec<QuestionMessage> = Vec::new();
        messages.push(message);
        let r = Request { model: model.to_owned(), messages };
        assert(r@ =~~= spec_user_request(model@, question@));
        r
    }

    /// The value of the `Authorization` header: the token behind the
    /// `Bearer` scheme.
    pub fn auth_header(&self) -> (r: String)
        ensures
            r@ == "Bearer "@ + self.token@,
    {
        let mut out = "Bearer ".to_owned();
        out.append(self.token.as_str());
        out
    }
}

/// The character standing for one hexadecimal digit.
pub open spec fn spec_hex_digit(d: int) -> char {
    if d == 0 {
        '0'
    } else if d == 1 {
        '1'
    } else if d == 2 {
        '2'
    } else if d == 3 {
        '3'
    } else if d == 4 {
        '4'
    } else if d == 5 {
        '5'
    } else if d == 6 {
        '6'
    } else if d == 7 {
        '7'
    } else if d == 8 {
        '8'
    } else if d == 9 {
        '9'
    } else if d == 10 {
        'a'
    } else if d == 11 {
        'b'
    } else if d == 12 {
        'c'
    } else if d == 13 {
        'd'
    } else if d == 14 {
        'e'
    } else {
        'f'
    }
}

/// How one character appears inside a JSON string literal: quote, backslash
/// and control characters are escaped, everything else stands as itself.
pub open spec fn spec_escape_char(c: char) -> Seq<char> {
    if c == '"' {
        seq!['\\', '"']
    } else if c == '\\' {
        seq!['\\', '\\']
    } else if c == '\n' {
        seq!['\\', 'n']
    } else if c == '\r' {
        seq!['\\', 'r']
    } else if c == '\t' {
        seq!['\\', 't']
    } else if (c as u32) < 0x20 {
        seq!['\\', 'u', '0', '0', spec_hex_digit(((c as u32) >> 4) as int), spec_hex_digit(
            ((c as u32) & 0xf) as int,
        )]
    } else {
        seq![c]
    }
}

/// The body of a JSON string literal holding the characters of `s`.
pub open spec fn spec_escape(s: Seq<char>) -> Seq<char>
    decreases s.len(),
{
    if s.len() == 0 {
        Seq::empty()
    } else {
        spec_escape_char(s.first()) + spec_escape(s.drop_first())
    }
}

fn hex_digit(d: u8) -> (c: char)
    requires
        d < 16,
    ensures
        c == spec_hex_digit(d as int),
{
    if d == 0 {
        '0'
    } else if d == 1 {
        '1'
    } else if d == 2 {
        '2'
    } else if d == 3 {
        '3'
    } else if d == 4 {
        '4'
    } else if d == 5 {
        '5'
    } else if d == 6 {
        '6'
    } else if d == 7 {
        '7'
    } else if d == 8 {
        '8'
    } else if d == 9 {
        '9'
    } else if d == 10 {
        'a'
    } else if d == 11 {
        'b'
    } else if d == 12 {
        'c'
    } else if d == 13 {
        'd'
    } else if d == 14 {
        'e'
    } else {
        'f'
    }
}

fn push_escaped_char(out: &mut String, c: char)
    ensures
        final(out)@ == old(out)@ + spec_escape_char(c),
{
    if c == '"' {
        out.append("\\\"");
        proof {
            reveal_strlit("\\\"");
        }
        assert(out@ =~= old(out)@ + spec_escape_char(c));
    } else if c == '\\' {
        out.append("\\\\");
        proof {
            reveal_strlit("\\\\");
        }
        assert(out@ =~= old(out)@ + spec_escape_char(c));
    } else if c == '\n' {
        out.append("\\n");
        proof {
            reveal_strlit("\\n");
        }
        assert(out@ =~= old(out)@ + spec_escape_char(c));
    } else if c == '\r' {
        out.append("\\r");
        proof {
            reveal_strlit("\\r");
        }
        assert(out@ =~= old(out)@ + spec_escape_char(c));
    } else if c == '\t' {
        out.append("\\t");
        proof {
            reveal_strlit("\\t");
        }
        assert(out@ =~= old(out)@ + spec_escape_char(c));
    } else if (c as u32) < 0x20 {
        let code: u32 = c as u32;
        assert(code >> 4 < 16 && code & 0xf < 16) by (bit_vector)
            requires
                code < 0x20,
        ;
        out.append("\\u00");
        string_push(out, hex_digit((code >> 4) as u8));
        string_push(out, hex_digit((code & 0xf) as u8));
        proof {
            reveal_strlit("\\u00");
        }
        assert(out@ =~= old(out)@ + spec_escape_char(c));
    } else {
        string_push(out, c);
        assert(out@ =~= old(out)@ + spec_escape_char(c));
    }
}

/// Appends to `out` the JSON-escaped characters of `s`.
fn push_escaped(out: &mut String, s: &str)
    ensures
        final(out)@ == old(out)@ + spec_escape(s@),
{
    let len = s.unicode_len();
    let mut i: usize = 0;
    assert(s@.skip(0) =~= s@);
    while i < len
        invariant
            len == s@.len(),
            i <= len,
            old(out)@ + spec_escape(s@) =~= out@ + spec_escape(s@.skip(i as int)),
        decreases len - i,
    {
        let c = s.get_char(i);
        proof {
            assert(s@.skip(i as int).first() == c);
            assert(s@.skip(i as int).drop_first() =~= s@.skip(i + 1));
        }
        push_escaped_char(out, c);
        i = i + 1;
    }
    proof {
        assert(s@.skip(len as int) =~= Seq::<char>::empty());
        assert(out@ + spec_escape(s@.skip(len as int)) =~= out@);
    }
}

/// The JSON object for one message: role and content as escaped string
/// literals.
pub open spec fn spec_message_json(m: MessageView) -> Seq<char> {
    "{\"role\":\""@ + spec_escape(m.role) + "\",\"content\":\""@ + spec_escape(m.content)
        + "\"}"@
}

/// The JSON array elements for a message list, in order, separated by
/// commas.
pub open spec fn spec_messages_json(ms: Seq<MessageView>) -> Seq<char>
    decreases ms.len(),
{
    if ms.len() == 0 {
        Seq::empty()
    } else if ms.len() == 1 {
        spec_message_json(ms[0])
    } else {
        spec_messages_json(ms.drop_last()) + ","@ + spec_message_json(ms.last())
    }
}

/// The serialized request: `{"model": ..., "messages": [...]}`.
pub open spec fn spec_request_json(r: RequestView) -> Seq<char> {
    "{\"model\":\""@ + spec_escape(r.model) + "\",\"messages\":["@ + spec_messages_json(
        r.messages,
    ) + "]}"@
}

fn push_message_json(out: &mut String, m: &QuestionMessage)
    ensures
        final(out)@ == old(out)@ + spec_message_json(m@),
{
    out.append("{\"role\":\"");
    push_escaped(out, m.role.as_str());
    out.append("\",\"content\":\"");
    push_escaped(out, m.content.as_str());
    out.append("\"}");
    assert(out@ =~= old(out)@ + spec_message_json(m@));
}

/// Serializes a request as its wire-level JSON body.
pub fn body_of_request(req: &Request) -> (r: String)
    ensures
        r@ == spec_request_json(req@),
{
    let ghost rv = req@;
    let mut out = "{\"model\":\"".to_owned();
    push_escaped(&mut out, req.model.as_str());
    out.append("\",\"messages\":[");
    let ghost header = out@;
    let n = req.messages.len();
    let mut i: usize = 0;
    while i < n
        invariant
            n == req.messages@.len(),
            i <= n,
            rv == req@,
            rv.messages.len() == n,
            out@ =~= header + spec_messages_json(rv.messages.take(i as int)),
        decreases n - i,
    {
        if i > 0 {
            out.append(",");
        }
        let m = &req.messages[i];
        push_message_json(&mut out, m);
        proof {
            assert(rv.messages[i as int] == req.messages@[i as int]@);
            if i == 0 {
                assert(rv.messages.take(1)[0] == rv.messages[0]);
                assert(out@ =~= header + spec_messages_json(rv.messages.take(i + 1)));
            } else {
                assert(rv.messages.take(i + 1).drop_last() =~= rv.messages.take(i as int));
                assert(rv.messages.take(i + 1).last() == rv.messages[i as int]);
                assert(out@ =~= header + spec_messages_json(rv.messages.take(i + 1)));
            }
        }
        i = i + 1;
    }
    proof {
        assert(rv.messages.take(n as int) =~= rv.messages);
    }
    out.append("]}");
    assert(out@ =~= spec_request_json(rv));
    out
}

/// What the answer-extraction logic reads of a response body, as plain
/// values: either the body was not JSON (with the parser's diagnostic), or
/// it was JSON without a top-level `choices` array, or it carried one, each
/// entry reduced to its `message.content` string if that is present.
pub enum ParsedResponse {
    NotJson(String),
    NoChoices,
    Choices(Vec<ResponseChoice>),
}

/// One entry of the `choices` array: its `message.content` field, if that
/// field exists and is a string.
pub struct ResponseChoice {
    pub content: Option<String>,
}

/// What parsing a given response body yields; a function of the body text
/// alone.
pub uninterp spec fn parsed_response_of(s: Seq<char>) -> ParsedResponse;

/// Relies on `serde_json::from_str::<Value>` to parse the body, and on
/// `Value::get`, `Value::as_array`, `Value::as_str` and
/// `serde_json::Error`'s display text to reduce the parsed document to the
/// plain shape the verified logic reads. All of these depend on the body
/// text alone.
#[verifier::external_body]
fn parse_response_body(body: &str) -> (r: ParsedResponse)
    ensures
        r == parsed_response_of(body@),
{
    match serde_json::from_str::<serde_json::Value>(body) {
        Err(e) => ParsedResponse::NotJson(e.to_string()),
        Ok(doc) => match doc.get("choices").and_then(|c| c.as_array()) {
            None => ParsedResponse::NoChoices,
            Some(items) => ParsedResponse::Choices(
                items.iter().map(|item| ResponseChoice {
                    content: item.get("message").and_then(|m| m.get("content"))
                        .and_then(|c| c.as_str()).map(|s| s.to_string()),
                }).collect(),
            ),
        },
    }
}

/// The error reported when a response is valid JSON but the answer field is
/// not where the protocol promises it.
pub open spec fn spec_missing_answer_error() -> AppError {
    AppError::ApiProtocolFailure(
        MistralAiApiError { code: 500, msg: "Could not find answer field in JSON response" },
    )
}

fn missing_answer_error() -> (e: AppError)
    ensures
        e == spec_missing_answer_error(),
{
    AppError::ApiProtocolFailure(
        MixtralAiApi::new_api_error(500, "Could not find answer field in JSON response"),
    )
}

/// The classification of a parsed response: a body that was not JSON is a
/// serialization failure carrying the parser's diagnostic; valid JSON
/// without `choices[0].message.content` as a string is the API-shape error;
/// otherwise the content string is the answer.
pub open spec fn spec_extract_answer(p: ParsedResponse) -> Result<String, AppError> {
    match p {
        ParsedResponse::NotJson(m) => Err(AppError::SerializationFailure(m)),
        ParsedResponse::NoChoices => Err(spec_missing_answer_error()),
        ParsedResponse::Choices(v) => if v@.len() == 0 {
            Err(spec_missing_answer_error())
        } else {
            match v@[0].content {
                Some(s) => Ok(s),
                None => Err(spec_missing_answer_error()),
            }
        },
    }
}

/// Extracts the answer (or the typed failure) from what parsing read of the
/// response body.
pub fn extract_answer(p: ParsedResponse) -> (r: Result<String, AppError>)
    ensures
        r == spec_extract_answer(p),
{
    match p {
        ParsedResponse::NotJson(m) => Err(AppError::SerializationFailure(m)),
        ParsedResponse::NoChoices => Err(missing_answer_error()),
        ParsedResponse::Choices(mut v) => {
            if v.len() == 0 {
                Err(missing_answer_error())
            } else {
                let first = v.remove(0);
                match first.content {
                    Some(s) => Ok(s),
                    None => Err(missing_answer_error()),
                }
            }
        },
    }
}

/// Classifies a raw response body: parses it and extracts the answer or the
/// typed failure.
///
/// The transport hands over whatever body it received, error statuses
/// included; a non-JSON body is therefore reported here as a serialization
/// failure, not as a transport failure.
pub fn read_answer(body: &str) -> (r: Result<String, AppError>)
    ensures
        r == spec_extract_answer(parsed_response_of(body@)),
{
    let p = parse_response_body(body);
    extract_answer(p)
}

} // verus!
