//! The API probe: which request to send, and what the response says about
//! the health of the endpoint.
//!
//! The caller sends the request and waits; the probe says what each thing
//! that comes back means.

use vstd::prelude::*;
use vstd::string::StringSliceAdditionalSpecFns;
use vstd::utf8::{decode_utf8, encode_utf8, is_char_boundary};
use crate::database::models::{Monitor, clone_opt_text, opt_text};
use crate::monitor::{CheckOutcome, CheckOutcomeView, outcome_of};
use crate::text::{contains_text, is_substring, same_text, uppercase};

verus! {

/// The default limit for one request, in seconds.
pub const DEFAULT_TIMEOUT_SECS: u64 = 10;

/// How many bytes of a response body a preview shows.
pub const PREVIEW_BYTES: usize = 100;

/// Configuration for one API health check.
#[derive(Debug, Clone)]
pub struct ApiCheckConfig {
    pub url: String,
    /// `GET`, `POST`, `PUT`, `DELETE` or `PATCH`, in any case.
    pub method: String,
    pub headers: Option<Vec<(String, String)>>,
    pub body: Option<String>,
    /// A text that the response body must contain.
    pub expected_content: Option<String>,
    pub timeout_secs: u64,
}

/// An [`ApiCheckConfig`] with its texts as sequences.
pub struct ApiCheckConfigView {
    pub url: Seq<char>,
    pub method: Seq<char>,
    pub headers: Option<Seq<(Seq<char>, Seq<char>)>>,
    pub body: Option<Seq<char>>,
    pub expected_content: Option<Seq<char>>,
    pub timeout_secs: u64,
}

/// The texts of a list of headers.
pub open spec fn header_texts(headers: Seq<(String, String)>) -> Seq<(Seq<char>, Seq<char>)> {
    Seq::new(headers.len(), |i: int| (headers[i].0@, headers[i].1@))
}

/// The texts of an optional list of headers.
pub open spec fn opt_header_texts(headers: Option<Vec<(String, String)>>) -> Option<
    Seq<(Seq<char>, Seq<char>)>,
> {
    match headers {
        Some(list) => Some(header_texts(list@)),
        None => None,
    }
}

impl View for ApiCheckConfig {
    type V = ApiCheckConfigView;

    open spec fn view(&self) -> ApiCheckConfigView {
        ApiCheckConfigView {
            url: self.url@,
            method: self.method@,
            headers: opt_header_texts(self.headers),
            body: opt_text(self.body),
            expected_content: opt_text(self.expected_content),
            timeout_secs: self.timeout_secs,
        }
    }
}

/// One entry of a `headers` array in a JSON target: the two members `key` and
/// `value`, each where it is a string.
#[derive(Debug, Clone, PartialEq, Eq)]
pub struct HeaderField {
    pub key: Option<String>,
    pub value: Option<String>,
}

/// A [`HeaderField`] with its texts as sequences.
pub struct HeaderFieldView {
    pub key: Option<Seq<char>>,
    pub value: Option<Seq<char>>,
}

impl View for HeaderField {
    type V = HeaderFieldView;

    open spec fn view(&self) -> HeaderFieldView {
        HeaderFieldView { key: opt_text(self.key), value: opt_text(self.value) }
    }
}

/// What a JSON target holds of a request: the members `url`, `method` and
/// `body`, each where it is a string, and the entries of `headers` where it
/// is an array.
#[derive(Debug, Clone, PartialEq, Eq)]
pub struct TargetFields {
    pub url: Option<String>,
    pub method: Option<String>,
    pub headers: Option<Vec<HeaderField>>,
    pub body: Option<String>,
}

/// [`TargetFields`] with its texts as sequences.
pub struct TargetFieldsView {
    pub url: Option<Seq<char>>,
    pub method: Option<Seq<char>>,
    pub headers: Option<Seq<HeaderFieldView>>,
    pub body: Option<Seq<char>>,
}

/// The views of a list of header entries.
pub open spec fn field_views(fields: Seq<HeaderField>) -> Seq<HeaderFieldView> {
    Seq::new(fields.len(), |i: int| fields[i]@)
}

impl View for TargetFields {
    type V = TargetFieldsView;

    open spec fn view(&self) -> TargetFieldsView {
        TargetFieldsView {
            url: opt_text(self.url),
            method: opt_text(self.method),
            headers: match self.headers {
                Some(list) => Some(field_views(list@)),
                None => None,
            },
            body: opt_text(self.body),
        }
    }
}

/// The view of optional target fields.
pub open spec fn opt_fields_view(fields: Option<TargetFields>) -> Option<TargetFieldsView> {
    match fields {
        Some(f) => Some(f@),
        None => None,
    }
}

/// What `serde_json` reads from a text: nothing where the text is not JSON,
/// else the request fields of the JSON value.
pub uninterp spec fn json_target_fields(text: Seq<char>) -> Option<TargetFieldsView>;

/// Parses `text` with `serde_json::from_str` into a `serde_json::Value`.
/// `None` where that fails. Else the members `url`, `method`, `headers` and
/// `body` of the value, as `Value`'s index operator gives them (null for a
/// missing member and for a value that is no object), the strings through
/// `Value::as_str`, the array through `Value::as_array`, and of each of its
/// entries the members `key` and `value` in the same way. The result depends
/// on the text alone.
#[verifier::external_body]
fn read_json_target(text: &str) -> (fields: Option<TargetFields>)
    ensures
        opt_fields_view(fields) == json_target_fields(text@),
{
    let json = serde_json::from_str::<serde_json::Value>(text).ok()?;
    let text_of = |v: &serde_json::Value| v.as_str().map(|s| s.to_string());
    let entry = |h: &serde_json::Value| HeaderField { key: text_of(&h["key"]), value: text_of(&h["value"]) };
    Some(TargetFields {
        url: text_of(&json["url"]),
        method: text_of(&json["method"]),
        headers: json["headers"].as_array().map(|a| a.iter().map(entry).collect()),
        body: text_of(&json["body"]),
    })
}

/// The headers that have both a key and a value, in their order.
pub open spec fn kept_headers(fields: Seq<HeaderFieldView>) -> Seq<(Seq<char>, Seq<char>)>
    decreases fields.len(),
{
    if fields.len() == 0 {
        Seq::empty()
    } else {
        let before = kept_headers(fields.drop_last());
        match (fields.last().key, fields.last().value) {
            (Some(key), Some(value)) => before.push((key, value)),
            _ => before,
        }
    }
}

/// The check that a monitor's target describes. A target that is JSON gives
/// the URL (empty where it has none), the method (`GET` where it has none),
/// the headers and the body; any other target is the URL of a `GET` request.
/// The expected content is the monitor's, the limit the default one.
pub open spec fn config_of_target(
    target: Seq<char>,
    expected: Option<Seq<char>>,
    fields: Option<TargetFieldsView>,
) -> ApiCheckConfigView {
    match fields {
        Some(f) => ApiCheckConfigView {
            url: match f.url {
                Some(url) => url,
                None => Seq::empty(),
            },
            method: match f.method {
                Some(method) => method,
                None => "GET"@,
            },
            headers: match f.headers {
                Some(list) => Some(kept_headers(list)),
                None => None,
            },
            body: f.body,
            expected_content: expected,
            timeout_secs: DEFAULT_TIMEOUT_SECS,
        },
        None => ApiCheckConfigView {
            url: target,
            method: "GET"@,
            headers: None,
            body: None,
            expected_content: expected,
            timeout_secs: DEFAULT_TIMEOUT_SECS,
        },
    }
}

fn keep_headers(fields: &Vec<HeaderField>) -> (out: Vec<(String, String)>)
    ensures
        header_texts(out@) == kept_headers(field_views(fields@)),
{
    let mut out: Vec<(String, String)> = Vec::new();
    let mut i: usize = 0;
    let ghost all = field_views(fields@);
    assert(all.take(0).len() == 0);
    assert(header_texts(out@) =~= kept_headers(all.take(0)));
    while i < fields.len()
        invariant
            i <= fields.len(),
            all == field_views(fields@),
            header_texts(out@) == kept_headers(all.take(i as int)),
        decreases fields.len() - i,
    {
        let ghost longer = all.take(i + 1);
        let ghost before = out@;
        assert(longer.drop_last() =~= all.take(i as int));
        assert(longer.last() == fields@[i as int]@);
        match (&fields[i].key, &fields[i].value) {
            (Some(key), Some(value)) => {
                out.push((key.clone(), value.clone()));
                assert(header_texts(out@) =~= header_texts(before).push((key@, value@)));
            },
            _ => {},
        }
        i += 1;
    }
    assert(all.take(fields.len() as int) =~= all);
    out
}

impl ApiCheckConfig {
    /// A plain `GET` request.
    pub fn get(url: String) -> (config: Self)
        ensures
            config@ == (ApiCheckConfigView {
                url: url@,
                method: "GET"@,
                headers: None,
                body: None,
                expected_content: None,
                timeout_secs: DEFAULT_TIMEOUT_SECS,
            }),
    {
        Self {
            url,
            method: String::from_str("GET"),
            headers: None,
            body: None,
            expected_content: None,
            timeout_secs: DEFAULT_TIMEOUT_SECS,
        }
    }

    /// A `POST` request with a body.
    pub fn post(url: String, body: String) -> (config: Self)
        ensures
            config@ == (ApiCheckConfigView {
                url: url@,
                method: "POST"@,
                headers: None,
                body: Some(body@),
                expected_content: None,
                timeout_secs: DEFAULT_TIMEOUT_SECS,
            }),
    {
        Self {
            url,
            method: String::from_str("POST"),
            headers: None,
            body: Some(body),
            expected_content: None,
            timeout_secs: DEFAULT_TIMEOUT_SECS,
        }
    }

    /// The check that `target` describes, given what the target holds as
    /// JSON, if it is JSON.
    pub fn from_fields(target: &str, expected: &Option<String>, fields: Option<TargetFields>) -> (config:
        Self)
        ensures
            config@ == config_of_target(target@, opt_text(*expected), opt_fields_view(fields)),
    {
        match fields {
            Some(f) => {
                let url = match f.url {
                    Some(url) => url,
                    None => String::new(),
                };
                let method = match f.method {
                    Some(method) => method,
                    None => String::from_str("GET"),
                };
                let headers = match &f.headers {
                    Some(list) => Some(keep_headers(list)),
                    None => None,
                };
                Self {
                    url,
                    method,
                    headers,
                    body: f.body,
                    expected_content: clone_opt_text(expected),
                    timeout_secs: DEFAULT_TIMEOUT_SECS,
                }
            },
            None => Self {
                url: String::from_str(target),
                method: String::from_str("GET"),
                headers: None,
                body: None,
                expected_content: clone_opt_text(expected),
                timeout_secs: DEFAULT_TIMEOUT_SECS,
            },
        }
    }

    /// The check that a monitor's target describes: the target is read as
    /// JSON where it is JSON, as a bare URL otherwise.
    pub fn for_monitor(monitor: &Monitor) -> (config: Self)
        ensures
            config@ == config_of_target(
                monitor.target@,
                opt_text(monitor.expected_result),
                json_target_fields(monitor.target@),
            ),
    {
        let fields = read_json_target(monitor.target.as_str());
        Self::from_fields(monitor.target.as_str(), &monitor.expected_result, fields)
    }
}

/// The request methods that a check can use.
#[derive(Debug, Clone, Copy, PartialEq, Eq, Structural)]
pub enum HttpMethod {
    Get,
    Post,
    Put,
    Delete,
    Patch,
}

/// The method that an upper-case name stands for; `GET` for an unknown one.
pub open spec fn method_named(upper: Seq<char>) -> HttpMethod {
    if upper == "POST"@ {
        HttpMethod::Post
    } else if upper == "PUT"@ {
        HttpMethod::Put
    } else if upper == "DELETE"@ {
        HttpMethod::Delete
    } else if upper == "PATCH"@ {
        HttpMethod::Patch
    } else {
        HttpMethod::Get
    }
}

/// The method that a configured name stands for, whatever its case.
pub open spec fn method_of(name: Seq<char>) -> HttpMethod {
    method_named(uppercase(name))
}

impl HttpMethod {
    /// The method that an upper-case name stands for; `GET` for an unknown
    /// one.
    pub fn named(upper: &str) -> (method: HttpMethod)
        ensures
            method == method_named(upper@),
    {
        if same_text(upper, "POST") {
            HttpMethod::Post
        } else if same_text(upper, "PUT") {
            HttpMethod::Put
        } else if same_text(upper, "DELETE") {
            HttpMethod::Delete
        } else if same_text(upper, "PATCH") {
            HttpMethod::Patch
        } else {
            HttpMethod::Get
        }
    }

    /// The method that a configured name stands for, whatever its case.
    pub fn parse(name: &str) -> (method: HttpMethod)
        ensures
            method == method_of(name@),
    {
        let upper = name.to_uppercase();
        HttpMethod::named(upper.as_str())
    }
}

/// A status code of the 2xx class.
pub open spec fn is_success(status: u16) -> bool {
    200 <= status < 300
}

/// What came back from the network.
#[derive(Debug, Clone, PartialEq, Eq)]
pub enum ApiEvent {
    /// The client could not be built.
    BuildFailed(String),
    /// The request could not be sent or no response came.
    SendFailed(String),
    /// A response came, with this status code.
    Status(u16),
    /// The body of the response was read.
    Body(String),
    /// The body of the response could not be read.
    BodyFailed(String),
}

/// An [`ApiEvent`] with its texts as sequences.
pub enum ApiEventView {
    BuildFailed(Seq<char>),
    SendFailed(Seq<char>),
    Status(u16),
    Body(Seq<char>),
    BodyFailed(Seq<char>),
}

impl View for ApiEvent {
    type V = ApiEventView;

    open spec fn view(&self) -> ApiEventView {
        match self {
            ApiEvent::BuildFailed(e) => ApiEventView::BuildFailed(e@),
            ApiEvent::SendFailed(e) => ApiEventView::SendFailed(e@),
            ApiEvent::Status(code) => ApiEventView::Status(*code),
            ApiEvent::Body(text) => ApiEventView::Body(text@),
            ApiEvent::BodyFailed(e) => ApiEventView::BodyFailed(e@),
        }
    }
}

/// What to do after an event.
#[derive(Debug, Clone, PartialEq, Eq)]
pub enum ApiStep {
    /// Read the body of the response and hand it in.
    ReadBody,
    /// The check is over, with this outcome.
    Done(CheckOutcome),
}

/// An [`ApiStep`] with its texts as sequences.
pub enum ApiStepView {
    ReadBody,
    Done(CheckOutcomeView),
}

impl View for ApiStep {
    type V = ApiStepView;

    open spec fn view(&self) -> ApiStepView {
        match self {
            ApiStep::ReadBody => ApiStepView::ReadBody,
            ApiStep::Done(outcome) => ApiStepView::Done(outcome@),
        }
    }
}

/// The error of a client that could not be built.
pub open spec fn build_failed_message(error: Seq<char>) -> Seq<char> {
    "Failed to build HTTP client: "@ + error
}

/// The error of a request that got no response.
pub open spec fn send_failed_message(error: Seq<char>) -> Seq<char> {
    "Request failed: "@ + error
}

/// The error of a body that could not be read.
pub open spec fn body_failed_message(error: Seq<char>) -> Seq<char> {
    "Failed to read response body: "@ + error
}

/// The meaning of an event for a check. A failure to build, send or read is
/// an error. A status outside 2xx is unhealthy. A 2xx status is healthy where
/// no content is expected; where some is, the body decides: healthy exactly
/// if it contains the expected text.
pub open spec fn api_step(expected: Option<Seq<char>>, event: ApiEventView) -> ApiStepView {
    match event {
        ApiEventView::BuildFailed(e) => ApiStepView::Done(
            CheckOutcomeView::Failed(build_failed_message(e)),
        ),
        ApiEventView::SendFailed(e) => ApiStepView::Done(
            CheckOutcomeView::Failed(send_failed_message(e)),
        ),
        ApiEventView::Status(code) => if !is_success(code) {
            ApiStepView::Done(CheckOutcomeView::Unhealthy)
        } else if expected is Some {
            ApiStepView::ReadBody
        } else {
            ApiStepView::Done(CheckOutcomeView::Healthy)
        },
        ApiEventView::Body(text) => match expected {
            Some(wanted) => ApiStepView::Done(outcome_of(is_substring(wanted, text))),
            None => ApiStepView::Done(CheckOutcomeView::Healthy),
        },
        ApiEventView::BodyFailed(e) => ApiStepView::Done(
            CheckOutcomeView::Failed(body_failed_message(e)),
        ),
    }
}

/// The request to send for a check.
#[derive(Debug, Clone)]
pub struct ApiRequest {
    pub method: HttpMethod,
    pub url: String,
    pub headers: Vec<(String, String)>,
    pub body: Option<String>,
    pub timeout_secs: u64,
}

/// The headers to send: those configured, or none.
pub open spec fn headers_to_send(configured: Option<Seq<(Seq<char>, Seq<char>)>>) -> Seq<
    (Seq<char>, Seq<char>),
> {
    match configured {
        Some(list) => list,
        None => Seq::empty(),
    }
}

/// The first `PREVIEW_BYTES` bytes of a body can be cut off: the body is no
/// longer, or a character starts right after them.
pub open spec fn preview_cuts_cleanly(body: Seq<char>) -> bool {
    encode_utf8(body).len() <= PREVIEW_BYTES || is_char_boundary(
        encode_utf8(body),
        PREVIEW_BYTES as int,
    )
}

/// The preview of a body: the body itself, or its first `PREVIEW_BYTES` bytes
/// and three dots where it is longer.
pub open spec fn body_preview(body: Seq<char>) -> Seq<char> {
    if encode_utf8(body).len() > PREVIEW_BYTES {
        decode_utf8(encode_utf8(body).subrange(0, PREVIEW_BYTES as int)) + "..."@
    } else {
        body
    }
}

/// The text shown for a body that could not be read.
pub open spec fn unreadable_body() -> Seq<char> {
    "<unable to read body>"@
}

/// The description of a response.
pub open spec fn response_info(status: Seq<char>, body: Seq<char>) -> Seq<char> {
    "Status: "@ + status + " | Body preview: "@ + body_preview(body)
}

fn copy_headers(headers: &Vec<(String, String)>) -> (out: Vec<(String, String)>)
    ensures
        header_texts(out@) == header_texts(headers@),
{
    let mut out: Vec<(String, String)> = Vec::new();
    let mut i: usize = 0;
    while i < headers.len()
        invariant
            i <= headers.len(),
            out@.len() == i,
            forall|k: int|
                0 <= k < i ==> (#[trigger] out@[k]).0@ == headers@[k].0@ && out@[k].1@
                    == headers@[k].1@,
        decreases headers.len() - i,
    {
        out.push((headers[i].0.clone(), headers[i].1.clone()));
        i += 1;
    }
    assert(header_texts(out@) =~= header_texts(headers@));
    out
}

/// The API probe.
pub struct ApiMonitor;

impl ApiMonitor {
    pub fn new() -> Self {
        Self
    }

    /// The request to send for `config`: its URL, headers, body and limit,
    /// with the method that its method name stands for.
    pub fn request(&self, config: &ApiCheckConfig) -> (out: ApiRequest)
        ensures
            out.method == method_of(config.method@),
            out.url@ == config.url@,
            header_texts(out.headers@) == headers_to_send(config@.headers),
            opt_text(out.body) == config@.body,
            out.timeout_secs == config.timeout_secs,
    {
        let headers = match &config.headers {
            Some(list) => copy_headers(list),
            None => {
                let none: Vec<(String, String)> = Vec::new();
                assert(header_texts(none@) =~= Seq::empty());
                none
            },
        };
        ApiRequest {
            method: HttpMethod::parse(config.method.as_str()),
            url: config.url.clone(),
            headers,
            body: clone_opt_text(&config.body),
            timeout_secs: config.timeout_secs,
        }
    }

    /// What `event` means for the check `config`: the next thing to do, or
    /// the outcome of the check.
    pub fn check_api(&self, config: &ApiCheckConfig, event: &ApiEvent) -> (step: ApiStep)
        ensures
            step@ == api_step(config@.expected_content, event@),
    {
        match event {
            ApiEvent::BuildFailed(e) => {
                let mut message = String::from_str("Failed to build HTTP client: ");
                message.append(e.as_str());
                ApiStep::Done(CheckOutcome::Failed(message))
            },
            ApiEvent::SendFailed(e) => {
                let mut message = String::from_str("Request failed: ");
                message.append(e.as_str());
                ApiStep::Done(CheckOutcome::Failed(message))
            },
            ApiEvent::Status(code) => {
                if !(*code >= 200 && *code < 300) {
                    ApiStep::Done(CheckOutcome::Unhealthy)
                } else if config.expected_content.is_some() {
                    ApiStep::ReadBody
                } else {
                    ApiStep::Done(CheckOutcome::Healthy)
                }
            },
            ApiEvent::Body(text) => match &config.expected_content {
                Some(wanted) => ApiStep::Done(
                    CheckOutcome::of(contains_text(text.as_str(), wanted.as_str())),
                ),
                None => ApiStep::Done(CheckOutcome::Healthy),
            },
            ApiEvent::BodyFailed(e) => {
                let mut message = String::from_str("Failed to read response body: ");
                message.append(e.as_str());
                ApiStep::Done(CheckOutcome::Failed(message))
            },
        }
    }

    /// Whether the preview of `body` can be cut: the body has at most
    /// `PREVIEW_BYTES` bytes, or a character starts right after them.
    pub fn preview_fits(body: &str) -> (fits: bool)
        ensures
            fits == preview_cuts_cleanly(body@),
    {
        body.as_bytes().len() <= PREVIEW_BYTES || body.is_char_boundary(PREVIEW_BYTES)
    }

    /// The description of a response, where its preview can be cut; `None`
    /// where the cut would fall inside a character.
    pub fn response_info_checked(&self, status: &str, body: Option<&str>) -> (info: Option<String>)
        ensures
            match body {
                Some(text) => if preview_cuts_cleanly(text@) {
                    opt_text(info) == Some(response_info(status@, text@))
                } else {
                    info is None
                },
                None => opt_text(info) == Some(response_info(status@, unreadable_body())),
            },
    {
        let fits = match body {
            Some(text) => Self::preview_fits(text),
            None => true,
        };
        if fits {
            Some(self.get_response_info(status, body))
        } else {
            None
        }
    }

    /// The description of a response with the status line `status` and the
    /// body `body`, or the stand-in text where the body could not be read.
    pub fn get_response_info(&self, status: &str, body: Option<&str>) -> (info: String)
        requires
            body matches Some(text) ==> preview_cuts_cleanly(text@),
        ensures
            info@ == response_info(
                status@,
                match body {
                    Some(text) => text@,
                    None => unreadable_body(),
                },
            ),
    {
        broadcast use vstd::utf8::encode_utf8_decode_utf8;

        let shown: &str = match body {
            Some(text) => text,
            None => "<unable to read body>",
        };
        proof {
            if body is None {
                reveal_strlit("<unable to read body>");
                lemma_short_ascii(shown@);
            }
        }
        let mut info = String::from_str("Status: ");
        info.append(status);
        info.append(" | Body preview: ");
        let ghost start = info@;
        if shown.as_bytes().len() > PREVIEW_BYTES {
            let (head, _) = shown.split_at(PREVIEW_BYTES);
            assert(head@ == decode_utf8(encode_utf8(head@)));
            assert(head.spec_bytes() == encode_utf8(shown@).subrange(0, PREVIEW_BYTES as int));
            info.append(head);
            info.append("...");
            assert(info@ =~= start + body_preview(shown@));
        } else {
            info.append(shown);
            assert(info@ =~= start + body_preview(shown@));
        }
        info
    }
}

impl Default for ApiMonitor {
    fn default() -> Self {
        Self::new()
    }
}

/// A text of at most `PREVIEW_BYTES` ASCII characters takes as many bytes.
proof fn lemma_short_ascii(text: Seq<char>)
    requires
        text.len() <= PREVIEW_BYTES,
        vstd::utf8::is_ascii_chars(text),
    ensures
        encode_utf8(text).len() <= PREVIEW_BYTES,
{
    vstd::utf8::is_ascii_chars_encode_utf8(text);
}

} // verus!
