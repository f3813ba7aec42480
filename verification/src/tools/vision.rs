//! The vision API: the request sent for an image, the URL and headers it is
//! sent with, what an answer yields, and when a failed attempt is retried.
use vstd::prelude::*;
use vstd::string::StringExecFns;
use crate::config::VisionApiConfig;
use crate::text::{concat, concat3, opt_view, str_eq};

verus! {

/// What describing an image yields: a description, a warning, or both
/// (a description that was cut short carries a warning).
#[derive(Debug)]
pub struct VisionResult {
    pub description: Option<String>,
    pub warning: Option<String>,
}

impl VisionResult {
    /// A result without a description always says why.
    pub open spec fn is_explained(&self) -> bool {
        self.description is None ==> self.warning is Some
    }

    /// No description, and the warning `w`.
    pub fn warn(w: String) -> (r: VisionResult)
        ensures
            r.description is None,
            r.warning == Some(w),
    {
        VisionResult { description: None, warning: Some(w) }
    }
}

/// The image part of a request: base64 data of a media type.
#[derive(Debug)]
pub struct ImageSource {
    pub source_type: String,
    pub media_type: String,
    pub data: String,
}

/// One block of a message.
#[derive(Debug)]
pub enum ContentBlock {
    Image { source: ImageSource },
    Text { text: String },
}

/// A message of a request.
#[derive(Debug)]
pub struct Message {
    pub role: String,
    pub content: Vec<ContentBlock>,
}

/// The body of a vision request (Anthropic messages format).
#[derive(Debug)]
pub struct AnthropicRequest {
    pub model: String,
    pub max_tokens: u32,
    pub messages: Vec<Message>,
}

/// One block of an answer.
#[derive(Debug)]
pub struct ResponseContent {
    pub content_type: String,
    pub text: Option<String>,
}

/// The body of a vision answer.
#[derive(Debug)]
pub struct AnthropicResponse {
    pub content: Vec<ResponseContent>,
    pub stop_reason: Option<String>,
}

/// The character of a 6-bit value in the standard base64 alphabet
/// (`A`-`Z`, `a`-`z`, `0`-`9`, `+`, `/`).
pub open spec fn base64_digit(v: int) -> char {
    if v < 26 {
        ('A' as int + v) as char
    } else if v < 52 {
        ('a' as int + v - 26) as char
    } else if v < 62 {
        ('0' as int + v - 52) as char
    } else if v == 62 {
        '+'
    } else {
        '/'
    }
}

/// Standard base64 with padding (RFC 4648): each group of three bytes
/// becomes four characters of six bits each; a last group of one or two bytes
/// is padded with `=`.
pub open spec fn base64_standard(d: Seq<u8>) -> Seq<char>
    decreases d.len(),
{
    if d.len() == 0 {
        Seq::empty()
    } else if d.len() == 1 {
        seq![base64_digit(d[0] as int / 4), base64_digit((d[0] as int % 4) * 16), '=', '=']
    } else if d.len() == 2 {
        seq![
            base64_digit(d[0] as int / 4),
            base64_digit((d[0] as int % 4) * 16 + d[1] as int / 16),
            base64_digit((d[1] as int % 16) * 4),
            '=',
        ]
    } else {
        seq![
            base64_digit(d[0] as int / 4),
            base64_digit((d[0] as int % 4) * 16 + d[1] as int / 16),
            base64_digit((d[1] as int % 16) * 4 + d[2] as int / 64),
            base64_digit(d[2] as int % 64),
        ] + base64_standard(d.subrange(3, d.len() as int))
    }
}

/// Encodes bytes in standard base64 (`base64::engine::general_purpose::STANDARD.encode`).
#[verifier::external_body]
fn base64_encode(data: &[u8]) -> (r: String)
    ensures
        r@ == base64_standard(data@),
{
    base64::Engine::encode(&base64::engine::general_purpose::STANDARD, data)
}

/// Images larger than this many bytes are scaled down before sending.
pub open spec fn resize_threshold() -> int {
    10485760int
}

/// Whether an image of `len` bytes is scaled down before sending: above 10 MiB.
pub fn needs_resize(len: usize) -> (r: bool)
    ensures
        r == (len > resize_threshold()),
{
    len > 10 * 1024 * 1024
}

/// Images whose longest side exceeds this many pixels are scaled down.
pub open spec fn max_side() -> int {
    2048int
}

/// Whether an image of this size is scaled down: its longest side exceeds
/// 2048 pixels. (The scale factor itself is computed by the caller.)
pub fn needs_downscale(width: u32, height: u32) -> (r: bool)
    ensures
        r == (width > max_side() || height > max_side()),
{
    let longest: u32 = if width > height {
        width
    } else {
        height
    };
    longest > 2048
}

/// The request for an image of type `mime_type` with bytes `data`: one user
/// message holding the image in base64 and then the configured prompt, for
/// the configured model and token limit.
pub fn build_request(config: &VisionApiConfig, mime_type: &str, data: &[u8]) -> (r: AnthropicRequest)
    ensures
        r.model@ == config.model@,
        r.max_tokens == config.max_tokens,
        r.messages@.len() == 1,
        r.messages@[0].role@ == "user"@,
        r.messages@[0].content@.len() == 2,
        r.messages@[0].content@[0] matches ContentBlock::Image { source } && source.source_type@
            == "base64"@ && source.media_type@ == mime_type@ && source.data@ == base64_standard(
            data@,
        ),
        r.messages@[0].content@[1] matches ContentBlock::Text { text } && text@ == config.prompt@,
{
    let b64 = base64_encode(data);
    let mut content: Vec<ContentBlock> = Vec::new();
    content.push(
        ContentBlock::Image {
            source: ImageSource {
                source_type: String::from_str("base64"),
                media_type: String::from_str(mime_type),
                data: b64,
            },
        },
    );
    content.push(ContentBlock::Text { text: config.prompt.clone() });
    let mut messages: Vec<Message> = Vec::new();
    messages.push(Message { role: String::from_str("user"), content });
    AnthropicRequest { model: config.model.clone(), max_tokens: config.max_tokens, messages }
}

/// `s` without its trailing `/` characters (`str::trim_end_matches('/')`).
pub open spec fn trim_trailing_slashes(s: Seq<char>) -> Seq<char>
    decreases s.len(),
{
    if s.len() > 0 && s.last() == '/' {
        trim_trailing_slashes(s.drop_last())
    } else {
        s
    }
}

/// The messages endpoint below `base_url`: its trailing slashes removed, then `/v1/messages`.
pub fn messages_url(base_url: &str) -> (r: String)
    ensures
        r@ == trim_trailing_slashes(base_url@) + "/v1/messages"@,
{
    let v = crate::text::str_chars(base_url);
    let mut j: usize = v.len();
    assert(v@.subrange(0, j as int) =~= v@);
    while j > 0 && v[j - 1] == '/'
        invariant
            j <= v@.len(),
            v@ == base_url@,
            trim_trailing_slashes(base_url@) == trim_trailing_slashes(v@.subrange(0, j as int)),
        decreases j,
    {
        assert(v@.subrange(0, j as int).drop_last() =~= v@.subrange(0, j - 1));
        j -= 1;
    }
    assert(v@.subrange(0, v@.len() as int) =~= v@);
    let base = crate::text::chars_to_string(&v, 0, j);
    concat(base.as_str(), "/v1/messages")
}

/// A base URL with a trailing slash reaches the same endpoint as without it.
pub proof fn lemma_url_ignores_trailing_slash(base: Seq<char>)
    ensures
        trim_trailing_slashes(base.push('/')) == trim_trailing_slashes(base),
{
    assert(base.push('/').drop_last() =~= base);
}

/// The headers of a vision request, in order: the API key, the API version
/// and the JSON content type.
pub fn request_headers(config: &VisionApiConfig) -> (r: Vec<(String, String)>)
    ensures
        r@.len() == 3,
        r@[0].0@ == "x-api-key"@ && r@[0].1@ == config.api_key@,
        r@[1].0@ == "anthropic-version"@ && r@[1].1@ == "2023-06-01"@,
        r@[2].0@ == "content-type"@ && r@[2].1@ == "application/json"@,
{
    let mut r: Vec<(String, String)> = Vec::new();
    r.push((String::from_str("x-api-key"), config.api_key.clone()));
    r.push((String::from_str("anthropic-version"), String::from_str("2023-06-01")));
    r.push((String::from_str("content-type"), String::from_str("application/json")));
    r
}

/// The warning when the image file cannot be read.
pub fn read_failure(err: &str) -> (r: VisionResult)
    ensures
        r.description is None,
        opt_view(r.warning) == Some("Failed to read image file: "@ + err@),
{
    VisionResult::warn(concat("Failed to read image file: ", err))
}

/// The warning when a large image cannot be scaled down.
pub fn resize_failure(err: &str) -> (r: VisionResult)
    ensures
        r.description is None,
        opt_view(r.warning) == Some("Failed to resize large image: "@ + err@),
{
    VisionResult::warn(concat("Failed to resize large image: ", err))
}

/// The warning given, before anything is sent, when no API key is configured.
pub open spec fn missing_key_warning() -> Seq<char> {
    "Vision API is not configured: vision_api.api_key is empty"@
}

/// What describing an image yields before any request is made: a warning
/// when the configuration holds no API key (then nothing is sent), and
/// nothing when the request may go out.
pub fn unconfigured_result(config: &VisionApiConfig) -> (r: Option<VisionResult>)
    ensures
        r is Some <==> config.api_key@.len() == 0,
        r matches Some(v) ==> v.description is None && opt_view(v.warning) == Some(
            missing_key_warning(),
        ),
{
    if config.api_key.as_str().is_empty() {
        Some(
            VisionResult::warn(
                String::from_str("Vision API is not configured: vision_api.api_key is empty"),
            ),
        )
    } else {
        None
    }
}

/// The texts of the answer blocks that have one, one after the other.
pub open spec fn answer_text(blocks: Seq<ResponseContent>) -> Seq<char>
    decreases blocks.len(),
{
    if blocks.len() == 0 {
        Seq::empty()
    } else {
        answer_text(blocks.drop_last()) + match blocks.last().text {
            Some(t) => t@,
            None => Seq::empty(),
        }
    }
}

/// The warning given with a description cut short by the token limit.
pub open spec fn truncated_warning() -> Seq<char> {
    "AI description was truncated (hit max_tokens limit). Increase max_tokens in config for longer descriptions."@
}

/// What an answer yields, by value: the joined texts of its blocks as the
/// description (with the truncation warning when it stopped at the token
/// limit), or, when they are empty, no description and a warning.
pub open spec fn interpret_spec(resp: AnthropicResponse) -> (Option<Seq<char>>, Option<Seq<char>>) {
    let text = answer_text(resp.content@);
    if text.len() == 0 {
        (None, Some("Vision API returned empty response"@))
    } else if opt_view(resp.stop_reason) == Some("max_tokens"@) {
        (Some(text), Some(truncated_warning()))
    } else {
        (Some(text), None)
    }
}

/// What an answer yields: the joined texts of its blocks, with a warning
/// when the answer stopped at the token limit; a warning when it holds no text.
pub fn interpret_response(resp: &AnthropicResponse) -> (r: VisionResult)
    ensures
        (opt_view(r.description), opt_view(r.warning)) == interpret_spec(*resp),
        r.is_explained(),
{
    let mut text = String::new();
    let mut i: usize = 0;
    while i < resp.content.len()
        invariant
            i <= resp.content@.len(),
            text@ == answer_text(resp.content@.take(i as int)),
        decreases resp.content@.len() - i,
    {
        assert(resp.content@.take(i + 1).drop_last() =~= resp.content@.take(i as int));
        match &resp.content[i].text {
            Some(t) => {
                text.append(t.as_str());
            },
            None => {
                assert(text@ =~= text@ + Seq::<char>::empty());
            },
        }
        i += 1;
    }
    assert(resp.content@.take(resp.content@.len() as int) =~= resp.content@);
    if text.as_str().is_empty() {
        return VisionResult::warn(String::from_str("Vision API returned empty response"));
    }
    let truncated = match &resp.stop_reason {
        Some(s) => str_eq(s.as_str(), "max_tokens"),
        None => false,
    };
    let warning = if truncated {
        Some(
            String::from_str(
                "AI description was truncated (hit max_tokens limit). Increase max_tokens in config for longer descriptions.",
            ),
        )
    } else {
        None
    };
    VisionResult { description: Some(text), warning }
}

/// How one attempt to call the vision API went.
#[derive(Debug)]
pub enum AttemptOutcome {
    /// The request could not be sent; the error as shown.
    SendFailed(String),
    /// The API answered with an error status; the status and body as shown.
    HttpError { status: String, body: String },
    /// The answer could not be read; the error as shown.
    ParseFailed(String),
    /// The answer was read.
    Parsed(AnthropicResponse),
}

/// What to do after an attempt.
#[derive(Debug)]
pub enum AttemptDecision {
    /// Try once more.
    Retry,
    /// Stop with this result.
    Finish(VisionResult),
}

/// How many attempts are made at most.
pub open spec fn max_attempts() -> int {
    2
}

/// The decision finishes without a description, with warning `w`.
pub open spec fn failed_with(d: AttemptDecision, w: Seq<char>) -> bool {
    match d {
        AttemptDecision::Finish(res) => res.description is None && opt_view(res.warning) == Some(w),
        AttemptDecision::Retry => false,
    }
}

/// After attempt number `attempt` (counted from 0): a read answer finishes
/// with what it yields; a failure of the first attempt is retried; a failure
/// of the second finishes with a warning that says what failed.
pub fn after_attempt(attempt: u32, outcome: AttemptOutcome) -> (d: AttemptDecision)
    requires
        attempt < max_attempts(),
    ensures
        match outcome {
            AttemptOutcome::Parsed(resp) => d matches AttemptDecision::Finish(res) && (opt_view(
                res.description,
            ), opt_view(res.warning)) == interpret_spec(resp) && res.is_explained(),
            AttemptOutcome::SendFailed(e) => if attempt == 0 {
                d is Retry
            } else {
                failed_with(d, "Vision API request failed: "@ + e@)
            },
            AttemptOutcome::HttpError { status, body } => if attempt == 0 {
                d is Retry
            } else {
                failed_with(d, "Vision API error "@ + status@ + ": "@ + body@)
            },
            AttemptOutcome::ParseFailed(e) => if attempt == 0 {
                d is Retry
            } else {
                failed_with(d, "Failed to parse vision API response: "@ + e@)
            },
        },
{
    match outcome {
        AttemptOutcome::Parsed(resp) => AttemptDecision::Finish(interpret_response(&resp)),
        AttemptOutcome::SendFailed(e) => {
            if attempt == 0 {
                AttemptDecision::Retry
            } else {
                AttemptDecision::Finish(
                    VisionResult::warn(concat("Vision API request failed: ", e.as_str())),
                )
            }
        },
        AttemptOutcome::HttpError { status, body } => {
            if attempt == 0 {
                AttemptDecision::Retry
            } else {
                let head = concat3("Vision API error ", status.as_str(), ": ");
                AttemptDecision::Finish(VisionResult::warn(concat(head.as_str(), body.as_str())))
            }
        },
        AttemptOutcome::ParseFailed(e) => {
            if attempt == 0 {
                AttemptDecision::Retry
            } else {
                AttemptDecision::Finish(
                    VisionResult::warn(concat("Failed to parse vision API response: ", e.as_str())),
                )
            }
        },
    }
}

/// The result when every attempt was retried away.
pub fn retries_exhausted() -> (r: VisionResult)
    ensures
        r.description is None,
        opt_view(r.warning) == Some("Vision API failed after retry"@),
{
    VisionResult::warn(String::from_str("Vision API failed after retry"))
}

} // verus!
