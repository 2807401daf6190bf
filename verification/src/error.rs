//! Errors originating from API calls, parsing responses, and reading or
//! writing the file system, and the classifier that turns an undecodable
//! response body into one normalized error value.

use vstd::prelude::*;
use vstd::string::StringExecFns;
use crate::json::{JsonTree, json_of, lookup, lookup_index, lossy_text, parse_json, utf8_lossy};
use crate::text::{dec_string, dec_text};

verus! {

/// An error code from the wire: the service sends either a string token or an
/// unsigned 16-bit status number.
#[derive(Debug, PartialEq)]
pub enum ErrorCode {
    Str(String),
    Int(u16),
}

/// The canonical text of a code: a string passes through unchanged, a number
/// becomes its base-10 text.
pub open spec fn code_text(c: ErrorCode) -> Seq<char> {
    match c {
        ErrorCode::Str(s) => s@,
        ErrorCode::Int(n) => dec_text(n as nat),
    }
}

impl ErrorCode {
    /// The canonical string form of the code; a number is rendered in base 10
    /// and cannot be told apart from the same text sent as a string.
    pub fn into_string(self) -> (r: String)
        ensures
            r@ == code_text(self),
    {
        match self {
            ErrorCode::Str(s) => s,
            ErrorCode::Int(i) => dec_string(i),
        }
    }
}

/// The error payload as it may arrive on the wire: like `ApiError`, but `code`
/// may be either a string or an unsigned 16-bit number. Built only while a
/// response is classified, then normalized into `ApiError`.
#[derive(Debug)]
pub struct ApiErrorFlex {
    pub message: String,
    pub kind: Option<String>,
    pub param: Option<String>,
    pub code: Option<ErrorCode>,
}

/// The error payload nested under the `"error"` key, the service's usual
/// convention.
#[derive(Debug)]
pub struct WrappedError {
    pub error: ApiErrorFlex,
}

/// The service's normalized error payload: only `message` is always present,
/// and `code` is kept in its canonical string form.
#[derive(Debug, Clone)]
pub struct ApiError {
    pub message: String,
    pub kind: Option<String>,
    pub param: Option<String>,
    pub code: Option<String>,
}

/// The character sequences of an `ApiError`, field by field.
#[verifier::ext_equal]
pub struct ApiErrorView {
    pub message: Seq<char>,
    pub kind: Option<Seq<char>>,
    pub param: Option<Seq<char>>,
    pub code: Option<Seq<char>>,
}

/// The character sequence of an optional string.
pub open spec fn opt_text(o: Option<String>) -> Option<Seq<char>> {
    match o {
        Some(s) => Some(s@),
        None => None,
    }
}

impl View for ApiError {
    type V = ApiErrorView;

    open spec fn view(&self) -> ApiErrorView {
        ApiErrorView {
            message: self.message@,
            kind: opt_text(self.kind),
            param: opt_text(self.param),
            code: opt_text(self.code),
        }
    }
}

/// Normalization of a wire payload: every field carries over, and the code
/// takes its canonical string form.
pub open spec fn normalized(f: ApiErrorFlex) -> ApiErrorView {
    ApiErrorView {
        message: f.message@,
        kind: opt_text(f.kind),
        param: opt_text(f.param),
        code: match f.code {
            Some(c) => Some(code_text(c)),
            None => None,
        },
    }
}

impl ApiError {
    /// Normalizes a wire payload; only the `code` field changes form.
    pub fn from_flex(flex: ApiErrorFlex) -> (r: ApiError)
        ensures
            r@ == normalized(flex),
    {
        let code = match flex.code {
            Some(c) => Some(c.into_string()),
            None => None,
        };
        ApiError { message: flex.message, kind: flex.kind, param: flex.param, code }
    }
}

/// The one-line rendering of an error payload: an optional `kind:` head, the
/// message, then optional `(param: ...)` and `(code: ...)` notes, single
/// spaces in between and nothing for absent fields.
pub open spec fn rendered(a: ApiErrorView) -> Seq<char> {
    (match a.kind {
        Some(k) => k + ": "@,
        None => Seq::<char>::empty(),
    }) + a.message + (match a.param {
        Some(p) => " (param: "@ + p + ")"@,
        None => Seq::<char>::empty(),
    }) + (match a.code {
        Some(c) => " (code: "@ + c + ")"@,
        None => Seq::<char>::empty(),
    })
}

impl ApiError {
    /// Renders the payload as one human-readable line.
    pub fn display_text(&self) -> (r: String)
        ensures
            r@ == rendered(self@),
    {
        let mut s = String::new();
        if let Some(k) = &self.kind {
            s.append(k.as_str());
            s.append(": ");
        }
        s.append(self.message.as_str());
        if let Some(p) = &self.param {
            s.append(" (param: ");
            s.append(p.as_str());
            s.append(")");
        }
        if let Some(c) = &self.code {
            s.append(" (code: ");
            s.append(c.as_str());
            s.append(")");
        }
        s
    }
}

/// The `message` field of an object: a required string; any other value, or
/// its absence, and the shape does not match.
pub open spec fn message_field(entries: Seq<(String, JsonTree)>) -> Option<String> {
    match lookup(entries, "message"@) {
        Some(JsonTree::Text(s)) => Some(s),
        _ => None,
    }
}

/// An optional string field: absent or `null` reads as `None`; a string reads
/// as itself; any other value is ill-typed and the shape does not match.
pub open spec fn opt_text_field(entries: Seq<(String, JsonTree)>, key: Seq<char>) -> Result<
    Option<String>,
    (),
> {
    match lookup(entries, key) {
        None => Ok(None),
        Some(JsonTree::Null) => Ok(None),
        Some(JsonTree::Text(s)) => Ok(Some(s)),
        Some(_) => Err(()),
    }
}

/// The `code` field: absent or `null` reads as `None`; a string or an
/// unsigned 16-bit number reads as a code; any other value is ill-typed and
/// the shape does not match.
pub open spec fn code_field(entries: Seq<(String, JsonTree)>) -> Result<Option<ErrorCode>, ()> {
    match lookup(entries, "code"@) {
        None => Ok(None),
        Some(JsonTree::Null) => Ok(None),
        Some(JsonTree::Text(s)) => Ok(Some(ErrorCode::Str(s))),
        Some(JsonTree::UInt(n)) => if n <= u16::MAX as u64 {
            Ok(Some(ErrorCode::Int(n as u16)))
        } else {
            Err(())
        },
        Some(_) => Err(()),
    }
}

/// The flat error shape: an object whose `message` is a string, whose `type`
/// and `param` are optional strings, and whose `code` is an optional string
/// or unsigned 16-bit number; every other field is ignored.
pub open spec fn flex_of(t: JsonTree) -> Option<ApiErrorFlex> {
    match t {
        JsonTree::Object(entries) => match message_field(entries@) {
            Some(message) => match (
                opt_text_field(entries@, "type"@),
                opt_text_field(entries@, "param"@),
                code_field(entries@),
            ) {
                (Ok(kind), Ok(param), Ok(code)) => Some(
                    ApiErrorFlex { message, kind, param, code },
                ),
                _ => None,
            },
            None => None,
        },
        _ => None,
    }
}

/// The wrapped error shape: an object with a single `error` key whose value
/// matches the flat shape.
pub open spec fn wrapped_of(t: JsonTree) -> Option<ApiErrorFlex> {
    match t {
        JsonTree::Object(entries) => if entries@.len() == 1 && entries@[0].0@ == "error"@ {
            flex_of(entries@[0].1)
        } else {
            None
        },
        _ => None,
    }
}

fn get_message(entries: &Vec<(String, JsonTree)>) -> (r: Option<String>)
    ensures
        r == message_field(entries@),
{
    match lookup_index(entries, "message") {
        Some(i) => match &entries[i].1 {
            JsonTree::Text(s) => Some(s.clone()),
            _ => None,
        },
        None => None,
    }
}

fn get_opt_text(entries: &Vec<(String, JsonTree)>, key: &str) -> (r: Result<Option<String>, ()>)
    ensures
        r == opt_text_field(entries@, key@),
{
    match lookup_index(entries, key) {
        Some(i) => match &entries[i].1 {
            JsonTree::Null => Ok(None),
            JsonTree::Text(s) => Ok(Some(s.clone())),
            _ => Err(()),
        },
        None => Ok(None),
    }
}

fn get_code(entries: &Vec<(String, JsonTree)>) -> (r: Result<Option<ErrorCode>, ()>)
    ensures
        r == code_field(entries@),
{
    match lookup_index(entries, "code") {
        Some(i) => match &entries[i].1 {
            JsonTree::Null => Ok(None),
            JsonTree::Text(s) => Ok(Some(ErrorCode::Str(s.clone()))),
            JsonTree::UInt(n) => if *n <= u16::MAX as u64 {
                Ok(Some(ErrorCode::Int(*n as u16)))
            } else {
                Err(())
            },
            _ => Err(()),
        },
        None => Ok(None),
    }
}

impl ApiErrorFlex {
    /// Reads the flat error shape out of a parsed document.
    pub fn from_tree(t: &JsonTree) -> (r: Option<ApiErrorFlex>)
        ensures
            r == flex_of(*t),
    {
        match t {
            JsonTree::Object(entries) => match get_message(entries) {
                Some(message) => match (
                    get_opt_text(entries, "type"),
                    get_opt_text(entries, "param"),
                    get_code(entries),
                ) {
                    (Ok(kind), Ok(param), Ok(code)) => Some(
                        ApiErrorFlex { message, kind, param, code },
                    ),
                    _ => None,
                },
                None => None,
            },
            _ => None,
        }
    }
}

impl WrappedError {
    /// Reads the wrapped error shape out of a parsed document.
    pub fn from_tree(t: &JsonTree) -> (r: Option<WrappedError>)
        ensures
            match r {
                Some(w) => wrapped_of(*t) == Some(w.error),
                None => wrapped_of(*t) is None,
            },
    {
        match t {
            JsonTree::Object(entries) => {
                if entries.len() == 1 && crate::text::str_eq(entries[0].0.as_str(), "error") {
                    match ApiErrorFlex::from_tree(&entries[0].1) {
                        Some(f) => Some(WrappedError { error: f }),
                        None => None,
                    }
                } else {
                    None
                }
            },
            _ => None,
        }
    }
}

/// Every way a call into the remote service can fail on the client side.
/// Each value is built at the point of failure and propagated unchanged; no
/// variant implies a retry.
#[derive(Debug)]
pub enum OpenAIError {
    /// The transport layer failed below the application; holds its message.
    Reqwest(String),
    /// The service reported a structured failure.
    ApiError(ApiError),
    /// The response matched neither the expected success shape nor a known
    /// error shape; holds the original decode failure and the response body
    /// recovered as text.
    JSONDeserialize(serde_json::Error, String),
    /// Saving a file to the local file system failed.
    FileSaveError(String),
    /// Reading a file from the local file system failed.
    FileReadError(String),
    /// A streamed response failed mid-stream.
    StreamError(String),
    /// A local argument or request was invalid before any call was made.
    InvalidArgument(String),
}

/// The rendering of a deserialization failure, from the decode failure's
/// message and the recovered response text.
pub open spec fn deser_text(err_text: Seq<char>, body: Seq<char>) -> Seq<char> {
    "Failed to deserialize API response: "@ + err_text + "\nResponse body: "@ + body
}

/// Relies on serde_json::Error's `Display` (via `ToString`): renders the
/// decode failure's own message. Nothing is assumed of the text.
#[verifier::external_body]
fn serde_error_text(e: &serde_json::Error) -> String {
    e.to_string()
}

/// Renders a deserialization failure from the decode failure's message and
/// the recovered response text.
pub fn deser_render(err_text: &str, body: &str) -> (r: String)
    ensures
        r@ == deser_text(err_text@, body@),
{
    let mut s = String::new();
    s.append("Failed to deserialize API response: ");
    s.append(err_text);
    s.append("\nResponse body: ");
    s.append(body);
    s
}

impl OpenAIError {
    /// Renders the error as one line of text (two for a deserialization
    /// failure, whose second line holds the response body): a fixed prefix
    /// per variant, then the detail.
    pub fn display_text(&self) -> (r: String)
        ensures
            self matches OpenAIError::Reqwest(d) ==> r@ == "http error: "@ + d@,
            self matches OpenAIError::ApiError(a) ==> r@ == rendered(a@),
            self matches OpenAIError::JSONDeserialize(e, body) ==> exists|t: Seq<char>|
                r@ == deser_text(t, body@),
            self matches OpenAIError::FileSaveError(d) ==> r@ == "failed to save file: "@ + d@,
            self matches OpenAIError::FileReadError(d) ==> r@ == "failed to read file: "@ + d@,
            self matches OpenAIError::StreamError(d) ==> r@ == "stream failed: "@ + d@,
            self matches OpenAIError::InvalidArgument(d) ==> r@ == "invalid args: "@ + d@,
    {
        match self {
            OpenAIError::Reqwest(d) => prefixed("http error: ", d),
            OpenAIError::ApiError(a) => a.display_text(),
            OpenAIError::JSONDeserialize(e, body) => {
                let t = serde_error_text(e);
                let r = deser_render(t.as_str(), body.as_str());
                proof {
                    assert(r@ == deser_text(t@, body@));
                }
                r
            },
            OpenAIError::FileSaveError(d) => prefixed("failed to save file: ", d),
            OpenAIError::FileReadError(d) => prefixed("failed to read file: ", d),
            OpenAIError::StreamError(d) => prefixed("stream failed: ", d),
            OpenAIError::InvalidArgument(d) => prefixed("invalid args: ", d),
        }
    }
}

fn prefixed(prefix: &str, detail: &String) -> (r: String)
    ensures
        r@ == prefix@ + detail@,
{
    let mut s = String::new();
    s.append(prefix);
    s.append(detail.as_str());
    s
}

/// What classification finds in a response body: the normalized payload of
/// the first error shape that matches (wrapped before flat), or nothing.
pub open spec fn classified_detail(bytes: Seq<u8>) -> Option<ApiErrorView> {
    match json_of(bytes) {
        Some(t) => match wrapped_of(t) {
            Some(f) => Some(normalized(f)),
            None => match flex_of(t) {
                Some(f) => Some(normalized(f)),
                None => None,
            },
        },
        None => None,
    }
}

/// Classifies a response body that failed to decode into its expected type:
/// the wrapped error shape is tried first, then the flat one, and a body
/// matching neither becomes a deserialization error that keeps the decode
/// failure and the body recovered as text.
pub fn map_deserialization_error(err: serde_json::Error, bytes: &[u8]) -> (r: OpenAIError)
    ensures
        match classified_detail(bytes@) {
            Some(d) => r matches OpenAIError::ApiError(a) && a@ == d,
            None => r matches OpenAIError::JSONDeserialize(e, body) && e == err && body@
                == lossy_text(bytes@),
        },
{
    match parse_json(bytes) {
        Some(tree) => match WrappedError::from_tree(&tree) {
            Some(w) => OpenAIError::ApiError(ApiError::from_flex(w.error)),
            None => match ApiErrorFlex::from_tree(&tree) {
                Some(f) => OpenAIError::ApiError(ApiError::from_flex(f)),
                None => OpenAIError::JSONDeserialize(err, utf8_lossy(bytes)),
            },
        },
        None => OpenAIError::JSONDeserialize(err, utf8_lossy(bytes)),
    }
}

impl ApiErrorFlex {
    /// Reads the flat error shape straight from a response body: parses the
    /// bytes and, when they hold a JSON document, reads it as the flat shape.
    pub fn from_json(bytes: &[u8]) -> (r: Option<ApiErrorFlex>)
        ensures
            match json_of(bytes@) {
                Some(t) => r == flex_of(t),
                None => r is None,
            },
    {
        match parse_json(bytes) {
            Some(t) => ApiErrorFlex::from_tree(&t),
            None => None,
        }
    }
}

/// A document matching the wrapped shape never also matches the flat shape:
/// the wrapped shape has exactly one key, `error`, so the flat shape's
/// required `message` key is absent. A wrapped body therefore never falls
/// through to the flat parse, whatever order the two shapes are tried in.
pub proof fn lemma_wrapped_flat_disjoint(t: JsonTree)
    ensures
        !(wrapped_of(t) is Some && flex_of(t) is Some),
{
    if wrapped_of(t) is Some && flex_of(t) is Some {
        if let JsonTree::Object(entries) = t {
            reveal_strlit("error");
            reveal_strlit("message");
            assert("error"@.len() == 5);
            assert("message"@.len() == 7);
            let s = entries@;
            assert(s[0].0@ == "error"@);
            assert(lookup(s, "message"@) == lookup(s.drop_first(), "message"@));
            assert(s.drop_first().len() == 0);
            assert(lookup(s.drop_first(), "message"@) is None);
        }
    }
}

/// A body matching the wrapped shape is classified from that shape's inner
/// payload: it never falls through to the flat parse or to the
/// deserialization fallback.
pub proof fn lemma_wrapped_takes_priority(bytes: Seq<u8>, t: JsonTree, f: ApiErrorFlex)
    requires
        json_of(bytes) == Some(t),
        wrapped_of(t) == Some(f),
    ensures
        classified_detail(bytes) == Some(normalized(f)),
{
}

/// For a body holding the flat shape with `code` a JSON string, classification
/// carries that string into the normalized payload unchanged.
pub proof fn lemma_code_string_preserved(
    bytes: Seq<u8>,
    t: JsonTree,
    f: ApiErrorFlex,
    s: String,
)
    requires
        json_of(bytes) == Some(t),
        flex_of(t) == Some(f),
        f.code == Some(ErrorCode::Str(s)),
    ensures
        classified_detail(bytes) matches Some(d) && d.code == Some(s@),
{
    lemma_wrapped_flat_disjoint(t);
}

/// For a body holding the flat shape with `code` an unsigned 16-bit JSON
/// number, classification yields that number's base-10 text as the code.
pub proof fn lemma_code_number_rendered(bytes: Seq<u8>, t: JsonTree, f: ApiErrorFlex, n: u16)
    requires
        json_of(bytes) == Some(t),
        flex_of(t) == Some(f),
        f.code == Some(ErrorCode::Int(n)),
    ensures
        classified_detail(bytes) matches Some(d) && d.code == Some(dec_text(n as nat)),
{
    lemma_wrapped_flat_disjoint(t);
}

/// Rendering a payload with only `message` present yields exactly the
/// message, with no separators or punctuation around it.
pub proof fn lemma_rendered_message_only(a: ApiErrorView)
    requires
        a.kind is None,
        a.param is None,
        a.code is None,
    ensures
        rendered(a) == a.message,
{
    assert(rendered(a) =~= a.message);
}

} // verus!
