use vstd::prelude::*;
use vstd::utf8::{decode_utf8, valid_utf8};

use crate::decimal::{decimal, u16_to_string};
use crate::error::{ChatError, ChatErrorView, ChatFailure};

verus! {

/// A raw HTTP response as the transport hands it over.
#[derive(Debug)]
pub struct Response {
    pub status: u16,
    pub headers: Vec<(String, String)>,
    pub body: Vec<u8>,
}

/// The error envelope `{ "error": { "code", "message", "status" } }` that
/// the OpenAI API answers with.
pub struct OpenAIErrorResponse {
    pub error: OpenAIErrorDetail,
}

pub struct OpenAIErrorDetail {
    pub code: Option<String>,
    pub message: String,
    pub status: Option<String>,
}

/// The same envelope as other Responses-API endpoints answer with it.
pub struct ResponsesErrorResponse {
    pub error: ResponsesErrorDetail,
}

pub struct ResponsesErrorDetail {
    pub code: Option<String>,
    pub message: String,
    pub status: Option<String>,
}

/// An envelope's code, message and status.
pub type Envelope = (Option<String>, String, Option<String>);

/// The text `String::from_utf8_lossy` makes of some bytes.
pub uninterp spec fn utf8_lossy(bytes: Seq<u8>) -> Seq<char>;

/// Wraps `String::from_utf8_lossy`: the bytes as text, with each invalid
/// sequence replaced; valid UTF-8 decodes as it is.
#[verifier::external_body]
pub(crate) fn lossy_text(bytes: &[u8]) -> (s: String)
    ensures
        s@ == utf8_lossy(bytes@),
        valid_utf8(bytes@) ==> s@ == decode_utf8(bytes@),
{
    String::from_utf8_lossy(bytes).into_owned()
}

/// The error message built from a parsed error envelope.
pub open spec fn envelope_message(prefix: Seq<char>, status: u16, code: Option<Seq<char>>, err_status: Option<Seq<char>>, message: Seq<char>) -> Seq<char> {
    prefix + "["@ + match code {
        Some(c) => c,
        None => decimal(status as nat),
    } + "] ("@ + match err_status {
        Some(s) => s,
        None => "UNKNOWN"@,
    } + "): "@ + message
}

/// What an error response is turned into: a rate limit for 429, the parsed
/// envelope's message when the body held one, otherwise the status and the
/// body's text.
pub open spec fn http_failure(prefix: Seq<char>, status: u16, body: Seq<u8>, parsed: Option<(Option<Seq<char>>, Seq<char>, Option<Seq<char>>)>) -> ChatErrorView {
    if status == 429 {
        ChatErrorView::RateLimited
    } else {
        match parsed {
            Some((code, message, err_status)) => ChatErrorView::Provider(envelope_message(prefix, status, code, err_status, message)),
            None => ChatErrorView::Provider("HTTP "@ + decimal(status as nat) + " Error: "@ + utf8_lossy(body)),
        }
    }
}

pub open spec fn opt_text(o: Option<String>) -> Option<Seq<char>> {
    match o {
        Some(c) => Some(c@),
        None => None,
    }
}

pub open spec fn detail_view(d: Option<Envelope>) -> Option<(Option<Seq<char>>, Seq<char>, Option<Seq<char>>)> {
    match d {
        Some((code, message, status)) => Some((opt_text(code), message@, opt_text(status))),
        None => None,
    }
}

pub open spec fn openai_envelope(d: Option<OpenAIErrorResponse>) -> Option<Envelope> {
    match d {
        Some(e) => Some((e.error.code, e.error.message, e.error.status)),
        None => None,
    }
}

pub open spec fn responses_envelope(d: Option<ResponsesErrorResponse>) -> Option<Envelope> {
    match d {
        Some(e) => Some((e.error.code, e.error.message, e.error.status)),
        None => None,
    }
}

/// Passes a 2xx response through and turns any other into a failure.
/// `parsed` is the error envelope read from the body's text, if it held one.
pub fn classify_response(prefix: &str, res: Response, parsed: Option<Envelope>) -> (r: Result<Response, ChatFailure>)
    ensures
        200 <= res.status < 300 ==> r == Ok::<Response, ChatFailure>(res),
        !(200 <= res.status < 300) ==> (r matches Err(f) && f.metadata is None
            && f.err@ == http_failure(prefix@, res.status, res.body@, detail_view(parsed))),
{
    let status = res.status;
    if 200 <= status && status < 300 {
        return Ok(res);
    }
    let err_text = lossy_text(res.body.as_slice());
    if status == 429 {
        return Err(ChatFailure::from_err(ChatError::RateLimited));
    }
    match parsed {
        Some((code, message, err_status)) => {
            let code = match code {
                Some(c) => c,
                None => u16_to_string(status),
            };
            let err_status = match err_status {
                Some(s) => s,
                None => "UNKNOWN".to_owned(),
            };
            let msg = prefix.to_owned().concat("[").concat(code.as_str()).concat("] (").concat(
                err_status.as_str(),
            ).concat("): ").concat(message.as_str());
            Err(ChatFailure::from_err(ChatError::Provider(msg)))
        },
        None => {
            let msg = "HTTP ".to_owned().concat(u16_to_string(status).as_str()).concat(" Error: ").concat(
                err_text.as_str(),
            );
            Err(ChatFailure::from_err(ChatError::Provider(msg)))
        },
    }
}

/// Maps a raw response of the OpenAI API into a failure unless it is 2xx.
/// `parsed` is the body's text read as an error envelope, if it is one.
pub fn handle_openai_error(res: Response, parsed: Option<OpenAIErrorResponse>) -> (r: Result<Response, ChatFailure>)
    ensures
        200 <= res.status < 300 ==> r == Ok::<Response, ChatFailure>(res),
        !(200 <= res.status < 300) ==> (r matches Err(f) && f.metadata is None
            && f.err@ == http_failure("OpenAI API Error"@, res.status, res.body@, detail_view(openai_envelope(parsed)))),
{
    let envelope = match parsed {
        Some(e) => Some((e.error.code, e.error.message, e.error.status)),
        None => None,
    };
    classify_response("OpenAI API Error", res, envelope)
}

/// Maps a raw response of a Responses-API endpoint into a failure unless it is 2xx.
/// `parsed` is the body's text read as an error envelope, if it is one.
pub fn handle_responses_error(res: Response, parsed: Option<ResponsesErrorResponse>) -> (r: Result<Response, ChatFailure>)
    ensures
        200 <= res.status < 300 ==> r == Ok::<Response, ChatFailure>(res),
        !(200 <= res.status < 300) ==> (r matches Err(f) && f.metadata is None
            && f.err@ == http_failure(
            "Responses API Error"@,
            res.status,
            res.body@,
            detail_view(responses_envelope(parsed)),
        )),
{
    let envelope = match parsed {
        Some(e) => Some((e.error.code, e.error.message, e.error.status)),
        None => None,
    };
    classify_response("Responses API Error", res, envelope)
}

} // verus!
