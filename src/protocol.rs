use vstd::prelude::*;

verus! {

#[verifier::external_type_specification]
#[verifier::external_body]
pub struct ExJsonValue(serde_json::Value);

#[verifier::external_type_specification]
#[verifier::external_body]
pub struct ExJsonError(serde_json::Error);

/// One inspectable page as the introspection endpoint lists it.
pub struct DevtoolPage {
    pub description: String,
    pub devtools_frontend_url: String,
    /// Identifier of the page, unique within one run of the target.
    pub id: String,
    pub title: String,
    /// Kind of the page (`page`, `background_page`, ...).
    pub kind: String,
    pub url: String,
    /// Address of the page's control channel.
    pub web_socket_debugger_url: String,
}

/// The reply to an evaluate call.
pub struct EvaluateResponse {
    pub id: i32,
    pub result: EvaluateResult,
}

/// The result part of the reply to an evaluate call.
pub struct EvaluateResult {
    pub result: serde_json::Value,
    pub exception_details: Option<serde_json::Value>,
}

/// A reply frame of the control channel, as the transport delivered it.
pub enum Reply {
    /// A frame that is not text (binary, ping, close).
    NonText,
    /// A text frame that does not hold an evaluate response.
    Malformed,
    /// A text frame that holds an evaluate response.
    Response(EvaluateResponse),
}

/// What came of one evaluate call.
#[derive(PartialEq, Eq, Structural, Clone, Copy, Debug)]
pub enum EvaluateOutcome {
    /// The reply was not text: nothing to read, and not an error.
    Ignored,
    /// The expression ran.
    Evaluated,
    /// The expression threw inside the page.
    Threw,
}

/// A hexadecimal digit in lower case.
pub open spec fn hex_digit(d: int) -> char {
    if d < 10 {
        (('0' as int) + d) as char
    } else {
        (('a' as int) + d - 10) as char
    }
}

/// How one character stands inside a JSON string literal: quote and
/// backslash get a backslash, the common controls their short forms, other
/// controls below 0x20 a `\u00xx` form, and everything else stays.
pub open spec fn json_escape(c: char) -> Seq<char> {
    if c == '"' {
        seq!['\\', '"']
    } else if c == '\\' {
        seq!['\\', '\\']
    } else if c == '\u{8}' {
        seq!['\\', 'b']
    } else if c == '\t' {
        seq!['\\', 't']
    } else if c == '\n' {
        seq!['\\', 'n']
    } else if c == '\u{c}' {
        seq!['\\', 'f']
    } else if c == '\r' {
        seq!['\\', 'r']
    } else if (c as int) < 0x20 {
        seq!['\\', 'u', '0', '0', hex_digit((c as int) / 16), hex_digit((c as int) % 16)]
    } else {
        seq![c]
    }
}

/// The characters of `s`, each escaped for a JSON string literal.
pub open spec fn json_escaped(s: Seq<char>) -> Seq<char>
    decreases s.len(),
{
    if s.len() == 0 {
        Seq::empty()
    } else {
        json_escaped(s.drop_last()) + json_escape(s.last())
    }
}

/// The JSON string literal of `s`.
pub open spec fn json_string(s: Seq<char>) -> Seq<char> {
    seq!['"'] + json_escaped(s) + seq!['"']
}

/// Relies on `serde_json::to_string` on a `str`: it writes the quoted,
/// escaped text into a `Vec<u8>`, which never fails.
#[verifier::external_body]
fn json_string_of(s: &str) -> (r: Result<String, serde_json::Error>)
    ensures
        r is Ok,
        r matches Ok(t) ==> t@ == json_string(s@),
{
    serde_json::to_string(s)
}

/// The text of the evaluate request whose expression is written as the JSON
/// string literal `quoted`.
pub open spec fn request_around(quoted: Seq<char>) -> Seq<char> {
    "{\"id\":1,\"method\":\"Runtime.evaluate\",\"params\":{\"awaitPromise\":true,\"expression\":"@
        + quoted
        + ",\"includeCommandLineAPI\":true,\"objectGroup\":\"inject\",\"silent\":true,\"userGesture\":true}}"@
}

/// The text of the evaluate request for `expression`.
pub open spec fn evaluate_request_text(expression: Seq<char>) -> Seq<char> {
    request_around(json_string(expression))
}

/// Builds the evaluate request around an expression already written as a JSON
/// string literal.
pub fn request_with_expression(quoted: &str) -> (r: String)
    ensures
        r@ == request_around(quoted@),
{
    let mut t = String::from_str(
        "{\"id\":1,\"method\":\"Runtime.evaluate\",\"params\":{\"awaitPromise\":true,\"expression\":",
    );
    t.append(quoted);
    t.append(
        ",\"includeCommandLineAPI\":true,\"objectGroup\":\"inject\",\"silent\":true,\"userGesture\":true}}",
    );
    t
}

/// Builds the request that evaluates `expression` in a page.
pub fn evaluate_request(expression: &str) -> (r: String)
    ensures
        r@ == evaluate_request_text(expression@),
{
    match json_string_of(expression) {
        Ok(quoted) => request_with_expression(quoted.as_str()),
        Err(_) => String::new(),
    }
}

/// What a reply means for the run: `None` for a reply that cannot be read,
/// else the outcome of the call.
pub open spec fn reply_outcome(reply: Reply) -> Option<EvaluateOutcome> {
    match reply {
        Reply::NonText => Some(EvaluateOutcome::Ignored),
        Reply::Malformed => None,
        Reply::Response(resp) => if resp.result.exception_details is Some {
            Some(EvaluateOutcome::Threw)
        } else {
            Some(EvaluateOutcome::Evaluated)
        },
    }
}

/// Reads the reply to an evaluate call. A frame that is not text is ignored,
/// and an exception inside the page is an outcome, not an error.
pub fn classify_reply(reply: &Reply) -> (r: Option<EvaluateOutcome>)
    ensures
        r == reply_outcome(*reply),
{
    match reply {
        Reply::NonText => Some(EvaluateOutcome::Ignored),
        Reply::Malformed => None,
        Reply::Response(resp) => {
            if resp.result.exception_details.is_some() {
                Some(EvaluateOutcome::Threw)
            } else {
                Some(EvaluateOutcome::Evaluated)
            }
        },
    }
}


/// A reply that reports an exception thrown in the page is read as an
/// outcome, not as an error, so the run goes on.
pub proof fn lemma_exception_is_tolerated(reply: Reply)
    requires
        reply matches Reply::Response(resp) && resp.result.exception_details is Some,
    ensures
        reply_outcome(reply) == Some(EvaluateOutcome::Threw),
{
}

/// A reply frame that is not text is a success with nothing to read.
pub proof fn lemma_non_text_is_ignored()
    ensures
        reply_outcome(Reply::NonText) == Some(EvaluateOutcome::Ignored),
{
}
} // verus!
