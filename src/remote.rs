//! The request bodies and status checks of the two remote calls: the text
//! rewrite (a chat completion) and the speech synthesis.
use vstd::prelude::*;
use vstd::string::StringExecFns;
use crate::text::{decimal, decimal_text};

verus! {

/// The JSON string literal that encodes `s`, quotes and escapes included.
pub uninterp spec fn json_quoted(s: Seq<char>) -> Seq<char>;

/// Relies on serde_json::to_string: a `str` serializes as one JSON string
/// literal, which depends on its characters alone, starts and ends with a
/// quote, and cannot fail since writing to memory does not fail.
#[verifier::external_body]
fn json_string(s: &str) -> (r: String)
    ensures
        r@ == json_quoted(s@),
        r@.len() >= 2,
        r@[0] == '"',
        r@.last() == '"',
{
    serde_json::to_string(s).unwrap()
}

/// The body of the rewrite request up to the text to rewrite: the model, and
/// the instruction exchange that precedes the text.
pub const REWRITE_BODY_HEAD: &'static str = "{\"frequency_penalty\":0,\"messages\":[{\"content\":[{\"text\":\"Given text from a blog post:\\n- Remove any introductory statement or metadata\\n- Redact code blocks and replace them with a short technical explanation of their content. Start with \\\"EDIT:\\\". End with \\\"END OF EDIT.\\\".\\nEmojis or other characters that cannot be pronounced should be removed.\\nYour response will be directly read of the user - so avoid any additional content besides the edited post\\n\\nOK?\",\"type\":\"text\"}],\"role\":\"user\"},{\"content\":[{\"text\":\"Okay, just provide the text from the blog post and I'll make the necessary edits.\",\"type\":\"text\"}],\"role\":\"assistant\"},{\"content\":[{\"text\":";

/// The body of the rewrite request after the text to rewrite: the sampling
/// parameters.
pub const REWRITE_BODY_TAIL: &'static str = ",\"type\":\"text\"}],\"role\":\"user\"}],\"model\":\"gpt-4o\",\"presence_penalty\":0,\"temperature\":1,\"top_p\":1}";

/// The body of the speech request before the text to speak.
pub const SPEECH_BODY_HEAD: &'static str = "{\"input\":";

/// The body of the speech request after the text to speak: model and voice.
pub const SPEECH_BODY_TAIL: &'static str = ",\"model\":\"tts-1\",\"voice\":\"nova\"}";

/// The JSON body of the request that rewrites `text`.
pub open spec fn rewrite_body(text: Seq<char>) -> Seq<char> {
    REWRITE_BODY_HEAD@ + json_quoted(text) + REWRITE_BODY_TAIL@
}

/// The JSON body of the request that converts `text` to speech.
pub open spec fn speech_body(text: Seq<char>) -> Seq<char> {
    SPEECH_BODY_HEAD@ + json_quoted(text) + SPEECH_BODY_TAIL@
}

fn framed(head: &str, text: &str, tail: &str) -> (r: String)
    ensures
        r@ == head@ + json_quoted(text@) + tail@,
{
    let mut body = String::from_str(head);
    let quoted = json_string(text);
    body.append(quoted.as_str());
    body.append(tail);
    body
}

/// The JSON body of the chat-completion request that rewrites `text`.
pub fn rewrite_request_body(text: &str) -> (r: String)
    ensures
        r@ == rewrite_body(text@),
{
    framed(REWRITE_BODY_HEAD, text, REWRITE_BODY_TAIL)
}

/// The JSON body of the speech-synthesis request for `text`.
pub fn speech_request_body(text: &str) -> (r: String)
    ensures
        r@ == speech_body(text@),
{
    framed(SPEECH_BODY_HEAD, text, SPEECH_BODY_TAIL)
}

/// An HTTP status code in the success class, 200 to 299.
pub open spec fn is_success(code: u16) -> bool {
    200 <= code <= 299
}

/// The error detail for an unsuccessful response: what failed, the status
/// code, and the response body.
pub open spec fn status_detail(what: Seq<char>, code: u16, body: Seq<char>) -> Seq<char> {
    "Failed to "@ + what + ": "@ + decimal(code as nat) + ": "@ + body
}

fn status_check(what: &str, code: u16, body: &str) -> (r: Option<String>)
    ensures
        is_success(code) <==> r is None,
        r matches Some(d) ==> d@ == status_detail(what@, code, body@),
{
    if 200 <= code && code <= 299 {
        None
    } else {
        let mut d = String::from_str("Failed to ");
        d.append(what);
        d.append(": ");
        let n = decimal_text(code as usize);
        d.append(n.as_str());
        d.append(": ");
        d.append(body);
        Some(d)
    }
}

/// The action that the rewrite request performs, as it is named in errors.
pub const REWRITE_WHAT: &'static str = "edit text";

/// The action that the speech request performs, as it is named in errors.
pub const SPEECH_WHAT: &'static str = "convert text to speech";

/// The error detail of a rewrite response with status `code` and `body`, or
/// `None` when the status is a success.
pub fn rewrite_status_error(code: u16, body: &str) -> (r: Option<String>)
    ensures
        is_success(code) <==> r is None,
        r matches Some(d) ==> d@ == status_detail(REWRITE_WHAT@, code, body@),
{
    status_check(REWRITE_WHAT, code, body)
}

/// The error detail of a speech response with status `code` and `body`, or
/// `None` when the status is a success.
pub fn speech_status_error(code: u16, body: &str) -> (r: Option<String>)
    ensures
        is_success(code) <==> r is None,
        r matches Some(d) ==> d@ == status_detail(SPEECH_WHAT@, code, body@),
{
    status_check(SPEECH_WHAT, code, body)
}

/// The error detail of a successful rewrite response that lacks the text.
pub const MISSING_CONTENT: &'static str = "Failed to edit text: the response has no choices[0].message.content string";

/// The outcome of the rewrite call, from the response's status `code`, its
/// `body`, and the string found at `choices[0].message.content` in it, if any.
pub fn rewrite_outcome(code: u16, body: &str, content: Option<String>) -> (r: Result<String, String>)
    ensures
        !is_success(code) ==> (r matches Err(d) && d@ == status_detail(REWRITE_WHAT@, code, body@)),
        is_success(code) && content is None ==> (r matches Err(d) && d@ == MISSING_CONTENT@),
        is_success(code) && content is Some ==> r == Ok::<String, String>(content->Some_0),
{
    match rewrite_status_error(code, body) {
        Some(d) => Err(d),
        None => match content {
            Some(t) => Ok(t),
            None => Err(String::from_str(MISSING_CONTENT)),
        },
    }
}

} // verus!
