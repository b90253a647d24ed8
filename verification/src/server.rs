//! Decisions of the local HTTP API that the browser extension talks to:
//! routing, CORS headers, the domain of a policy URL, the version hash of a
//! policy text, and the step-by-step handling of a grade request.

use vstd::prelude::*;
use std::collections::hash_map::DefaultHasher;
use std::hash::Hasher;
use vstd::std_specs::hash::DefaultHasherAdditionalSpecFns;
use vstd::utf8::encode_utf8;
use vstd::string::StringSliceAdditionalSpecFns;
use crate::cache::{CachedPolicyRecord, RecordView};
use crate::grade::{compute_grade, rubric_grade, Grade, GradeRequest, GradeResponse, PolicySummary, SummaryView};
use crate::text::{
    chars_of, hex_fixed, is_blank, is_prefix_of, occurs_at_vec, push_hex_fixed,
    starts_with, str_is_blank, string_from_chars,
};

verus! {

/// The handle returned once the local server is listening.
pub struct LocalServerHandle {
    pub port: u16,
}

/// The request methods that the local API tells apart.
#[derive(Debug, Clone, Copy, PartialEq, Eq, Structural)]
pub enum HttpMethod {
    Get,
    Post,
    Options,
    Other,
}

/// Where a request is dispatched.
#[derive(Debug, Clone, Copy, PartialEq, Eq, Structural)]
pub enum Route {
    /// A CORS preflight, answered with 204 and no body.
    Preflight,
    /// `GET /health`.
    Health,
    /// `POST /grade`.
    Grade,
    /// Anything else, answered with 404.
    NotFound,
}

/// The route of a request: every OPTIONS request is a preflight; a GET whose
/// path begins with "/health" is the health check; a POST whose path begins
/// with "/grade" is a grade request; anything else is not found.
pub open spec fn route_of(method: HttpMethod, path: Seq<char>) -> Route {
    if method == HttpMethod::Options {
        Route::Preflight
    } else if method == HttpMethod::Get && is_prefix_of("/health"@, path) {
        Route::Health
    } else if method == HttpMethod::Post && is_prefix_of("/grade"@, path) {
        Route::Grade
    } else {
        Route::NotFound
    }
}

/// Dispatches a request by its method and path.
pub fn route_request(method: HttpMethod, path: &str) -> (r: Route)
    ensures
        r == route_of(method, path@),
{
    match method {
        HttpMethod::Options => Route::Preflight,
        HttpMethod::Get => {
            if starts_with(path, "/health") {
                Route::Health
            } else {
                Route::NotFound
            }
        },
        HttpMethod::Post => {
            if starts_with(path, "/grade") {
                Route::Grade
            } else {
                Route::NotFound
            }
        },
        HttpMethod::Other => Route::NotFound,
    }
}

/// One header of a request or a reply.
#[derive(Debug)]
pub struct HeaderPair {
    pub name: String,
    pub value: String,
}

/// The code of a character once ASCII letters are lowered.
pub open spec fn ascii_lower_code(c: char) -> u32 {
    if 65 <= (c as u32) <= 90 {
        (c as u32 + 32) as u32
    } else {
        c as u32
    }
}

/// `a` and `b` are equal when ASCII letters are compared without case.
pub open spec fn eq_ignore_ascii_case(a: Seq<char>, b: Seq<char>) -> bool {
    a.len() == b.len() && forall|i: int| 0 <= i < a.len() ==> ascii_lower_code(#[trigger] a[i]) == ascii_lower_code(b[i])
}

/// An origin that the API echoes back: a Chrome extension or a page served
/// from localhost or 127.0.0.1.
pub open spec fn allowed_origin(v: Seq<char>) -> bool {
    is_prefix_of("chrome-extension://"@, v) || is_prefix_of("http://localhost"@, v)
        || is_prefix_of("http://127.0.0.1"@, v)
}

/// The header names an origin that the API echoes back.
pub open spec fn echoed_origin_header(h: HeaderPair) -> bool {
    eq_ignore_ascii_case(h.name@, "Origin"@) && allowed_origin(h.value@)
}

/// The value of `Access-Control-Allow-Origin` for a request with these
/// headers: the first Origin header whose value is an allowed origin, else "*".
pub open spec fn cors_origin(headers: Seq<HeaderPair>) -> Seq<char>
    decreases headers.len(),
{
    if headers.len() == 0 {
        "*"@
    } else if echoed_origin_header(headers[0]) {
        headers[0].value@
    } else {
        cors_origin(headers.drop_first())
    }
}

fn lower_code(c: char) -> (r: u32)
    ensures
        r == ascii_lower_code(c),
{
    let n = c as u32;
    if 65 <= n && n <= 90 {
        n + 32
    } else {
        n
    }
}

/// Whether `a` and `b` are equal when ASCII letters are compared without case.
pub fn str_eq_ignore_ascii_case(a: &str, b: &str) -> (r: bool)
    ensures
        r == eq_ignore_ascii_case(a@, b@),
{
    let x = chars_of(a);
    let y = chars_of(b);
    if x.len() != y.len() {
        return false;
    }
    let mut i: usize = 0;
    while i < x.len()
        invariant
            x@ == a@,
            y@ == b@,
            x@.len() == y@.len(),
            i <= x@.len(),
            forall|k: int| 0 <= k < i ==> ascii_lower_code(#[trigger] x@[k]) == ascii_lower_code(y@[k]),
        decreases x.len() - i,
    {
        if lower_code(x[i]) != lower_code(y[i]) {
            return false;
        }
        i = i + 1;
    }
    true
}

fn cors_origin_value(headers: &Vec<HeaderPair>) -> (r: String)
    ensures
        r@ == cors_origin(headers@),
{
    let mut i: usize = 0;
    assert(headers@.skip(0) =~= headers@);
    while i < headers.len()
        invariant
            i <= headers@.len(),
            cors_origin(headers@) == cors_origin(headers@.skip(i as int)),
        decreases headers.len() - i,
    {
        let h = &headers[i];
        assert(headers@.skip(i as int)[0] == headers@[i as int]);
        let is_origin = str_eq_ignore_ascii_case(h.name.as_str(), "Origin");
        if is_origin {
            let v = h.value.as_str();
            if starts_with(v, "chrome-extension://") || starts_with(v, "http://localhost")
                || starts_with(v, "http://127.0.0.1") {
                return h.value.clone();
            }
        }
        assert(headers@.skip(i as int).drop_first() =~= headers@.skip(i + 1));
        i = i + 1;
    }
    String::from_str("*")
}

/// The CORS headers of every reply: the allowed origin, the allowed methods
/// and the allowed request headers.
pub fn build_cors_headers(request_headers: &Vec<HeaderPair>) -> (r: Vec<HeaderPair>)
    ensures
        r@.len() == 3,
        r@[0].name@ == "Access-Control-Allow-Origin"@,
        r@[0].value@ == cors_origin(request_headers@),
        r@[1].name@ == "Access-Control-Allow-Methods"@,
        r@[1].value@ == "GET, POST, OPTIONS"@,
        r@[2].name@ == "Access-Control-Allow-Headers"@,
        r@[2].value@ == "Content-Type, Authorization"@,
{
    let origin = cors_origin_value(request_headers);
    let mut r: Vec<HeaderPair> = Vec::new();
    r.push(HeaderPair { name: String::from_str("Access-Control-Allow-Origin"), value: origin });
    r.push(
        HeaderPair {
            name: String::from_str("Access-Control-Allow-Methods"),
            value: String::from_str("GET, POST, OPTIONS"),
        },
    );
    r.push(
        HeaderPair {
            name: String::from_str("Access-Control-Allow-Headers"),
            value: String::from_str("Content-Type, Authorization"),
        },
    );
    r
}

/// Name for the host that `url::Url::parse` followed by `Url::host_str`
/// finds in a text: `None` where the text does not parse as a URL or the URL
/// has no host.
pub uninterp spec fn parsed_url_host(input: Seq<char>) -> Option<Seq<char>>;

/// Parses `input` with `url::Url::parse` and takes `Url::host_str` of the
/// result; the contract says only that the outcome is the named result.
#[verifier::external_body]
fn url_host(input: &str) -> (r: Option<String>)
    ensures
        match r {
            Some(h) => parsed_url_host(input@) == Some(h@),
            None => parsed_url_host(input@) is None,
        },
{
    match url::Url::parse(input) {
        Ok(parsed) => match parsed.host_str() {
            Some(h) => Some(h.to_string()),
            None => None,
        },
        Err(_) => None,
    }
}

/// `s` with every leading repetition of the non-empty `p` removed.
pub open spec fn trim_start_all(s: Seq<char>, p: Seq<char>) -> Seq<char>
    decreases s.len(),
{
    if p.len() > 0 && is_prefix_of(p, s) {
        trim_start_all(s.skip(p.len() as int), p)
    } else {
        s
    }
}

/// The part of `s` before the first `c`, or all of `s` where there is none.
pub open spec fn take_until(s: Seq<char>, c: char) -> Seq<char>
    decreases s.len(),
{
    if s.len() == 0 {
        s
    } else if s[0] == c {
        Seq::empty()
    } else {
        seq![s[0]] + take_until(s.drop_first(), c)
    }
}

/// The domain read from a text that is not a URL with a host: the scheme
/// prefixes "https://" and "http://" removed, then what comes before the
/// first '/', then what comes before the first ':'.
pub open spec fn fallback_domain(s: Seq<char>) -> Seq<char> {
    take_until(take_until(trim_start_all(trim_start_all(s, "https://"@), "http://"@), '/'), ':')
}

/// The domain of a policy URL, given the host that URL parsing found.
pub open spec fn domain_of(url: Seq<char>, host: Option<Seq<char>>) -> Seq<char> {
    match host {
        Some(h) => h,
        None => fallback_domain(url),
    }
}

proof fn lemma_take_until_prefix(s: Seq<char>, c: char, k: int)
    requires
        0 <= k <= s.len(),
        forall|j: int| 0 <= j < k ==> s[j] != c,
        k == s.len() || s[k] == c,
    ensures
        take_until(s, c) == s.take(k),
    decreases s.len(),
{
    if s.len() == 0 {
        assert(s.take(k) =~= s);
    } else if s[0] == c {
        assert(k == 0);
        assert(s.take(k) =~= Seq::<char>::empty());
    } else {
        assert(k > 0);
        let t = s.drop_first();
        assert forall|j: int| 0 <= j < k - 1 implies t[j] != c by {
            assert(t[j] == s[j + 1]);
        }
        if k < s.len() {
            assert(t[k - 1] == s[k]);
        }
        lemma_take_until_prefix(t, c, k - 1);
        assert(s.take(k) =~= seq![s[0]] + t.take(k - 1));
    }
}

fn take_until_vec(v: &Vec<char>, c: char) -> (r: Vec<char>)
    ensures
        r@ == take_until(v@, c),
{
    let mut k: usize = 0;
    while k < v.len() && v[k] != c
        invariant
            k <= v@.len(),
            forall|j: int| 0 <= j < k ==> v@[j] != c,
        decreases v.len() - k,
    {
        k = k + 1;
    }
    proof {
        lemma_take_until_prefix(v@, c, k as int);
    }
    let mut r: Vec<char> = Vec::new();
    let mut i: usize = 0;
    while i < k
        invariant
            k <= v@.len(),
            i <= k,
            r@ == v@.take(i as int),
        decreases k - i,
    {
        r.push(v[i]);
        assert(v@.take(i + 1) =~= v@.take(i as int).push(v@[i as int]));
        i = i + 1;
    }
    r
}

fn trim_start_all_vec(v: &Vec<char>, p: &Vec<char>) -> (r: Vec<char>)
    requires
        p@.len() > 0,
    ensures
        r@ == trim_start_all(v@, p@),
{
    let mut i: usize = 0;
    assert(v@.skip(0) =~= v@);
    while i <= v.len() && occurs_at_vec(v, p, i)
        invariant
            i <= v@.len(),
            p@.len() > 0,
            trim_start_all(v@, p@) == trim_start_all(v@.skip(i as int), p@),
        decreases v@.len() - i,
    {
        proof {
            let s = v@.skip(i as int);
            assert(s.subrange(0, p@.len() as int) =~= v@.subrange(i as int, i + p@.len()));
            assert(is_prefix_of(p@, s));
            assert(s.skip(p@.len() as int) =~= v@.skip(i + p@.len()));
        }
        i = i + p.len();
    }
    proof {
        let s = v@.skip(i as int);
        if is_prefix_of(p@, s) {
            assert(s.subrange(0, p@.len() as int) =~= v@.subrange(i as int, i + p@.len()));
        }
    }
    let mut r: Vec<char> = Vec::new();
    let mut j: usize = i;
    while j < v.len()
        invariant
            i <= j <= v@.len(),
            r@ == v@.subrange(i as int, j as int),
        decreases v.len() - j,
    {
        r.push(v[j]);
        assert(v@.subrange(i as int, j + 1) =~= v@.subrange(i as int, j as int).push(v@[j as int]));
        j = j + 1;
    }
    assert(r@ =~= v@.skip(i as int));
    r
}

/// The domain of a policy URL once URL parsing has run: the host it found,
/// or else the text read as `fallback_domain` describes.
pub fn domain_from_host(url_str: &str, host: Option<String>) -> (r: String)
    ensures
        r@ == domain_of(url_str@, match host { Some(h) => Some(h@), None => None }),
        host matches Some(h) ==> r@ == h@,
{
    match host {
        Some(h) => h,
        None => {
            let v = chars_of(url_str);
            let https = chars_of("https://");
            let http = chars_of("http://");
            proof {
                reveal_strlit("https://");
                reveal_strlit("http://");
            }
            let a = trim_start_all_vec(&v, &https);
            let b = trim_start_all_vec(&a, &http);
            let c = take_until_vec(&b, '/');
            let d = take_until_vec(&c, ':');
            string_from_chars(&d)
        },
    }
}

/// The domain of a policy URL: its host where it parses as a URL with one,
/// else the text with its scheme prefix, path and port stripped.
pub fn extract_domain(url_str: &str) -> (r: String)
    ensures
        r@ == domain_of(url_str@, parsed_url_host(url_str@)),
        parsed_url_host(url_str@) matches Some(h) ==> r@ == h,
{
    let host = url_host(url_str);
    domain_from_host(url_str, host)
}

/// The hash of a text as the standard `DefaultHasher` computes it for a
/// `str`: its UTF-8 bytes, then the byte 0xff.
pub open spec fn text_hash(t: Seq<char>) -> u64 {
    DefaultHasher::spec_finish(seq![encode_utf8(t), seq![0xffu8]])
}

/// Hashes a text with a fresh `DefaultHasher`, writing its UTF-8 bytes and
/// then the byte 0xff, as hashing a `str` does.
pub fn compute_hash(input: &str) -> (h: u64)
    ensures
        h == text_hash(input@),
{
    let mut hasher = DefaultHasher::new();
    let bytes = input.as_bytes();
    hasher.write(bytes);
    let end: [u8; 1] = [0xffu8];
    let end_slice: &[u8] = &end;
    assert(end_slice@ =~= seq![0xffu8]);
    hasher.write(end_slice);
    assert(hasher@ =~= seq![encode_utf8(input@), seq![0xffu8]]);
    hasher.finish()
}

/// The version hash stored for a policy text: its hash as sixteen lowercase
/// hexadecimal digits.
pub open spec fn policy_hash_text(t: Seq<char>) -> Seq<char> {
    hex_fixed(text_hash(t) as nat, 16)
}

/// The version hash of a policy text, as sixteen lowercase hexadecimal digits.
pub fn policy_version_hash(text: &str) -> (r: String)
    ensures
        r@ == policy_hash_text(text@),
{
    let h = compute_hash(text);
    let mut r = String::new();
    push_hex_fixed(&mut r, h, 16);
    assert(r@ =~= policy_hash_text(text@));
    r
}

/// The body of a reply of the local API.
pub enum ReplyBody {
    /// No body (the answer to a preflight).
    Empty,
    /// The plain text "Not Found".
    NotFound,
    /// The health report: `{"status": "ok", "sidecar_ready": .., "model_downloaded": ..}`.
    Health { sidecar_ready: bool, model_downloaded: bool },
    /// A grade with its summary.
    Graded(GradeResponse),
    /// `{"error": message}`.
    Error(String),
}

/// A reply of the local API: a status code and a body.
pub struct HttpReply {
    pub status: u16,
    pub body: ReplyBody,
}

/// The contents of a [`ReplyBody`] as mathematical values.
pub enum ReplyBodyView {
    Empty,
    NotFound,
    Health { sidecar_ready: bool, model_downloaded: bool },
    Graded { grade: Grade, summary: SummaryView, cached: bool, source: Seq<char> },
    Error(Seq<char>),
}

/// The contents of an [`HttpReply`] as mathematical values.
pub struct ReplyView {
    pub status: u16,
    pub body: ReplyBodyView,
}

impl View for HttpReply {
    type V = ReplyView;

    open spec fn view(&self) -> ReplyView {
        ReplyView {
            status: self.status,
            body: match self.body {
                ReplyBody::Empty => ReplyBodyView::Empty,
                ReplyBody::NotFound => ReplyBodyView::NotFound,
                ReplyBody::Health { sidecar_ready, model_downloaded } => ReplyBodyView::Health {
                    sidecar_ready,
                    model_downloaded,
                },
                ReplyBody::Graded(g) => ReplyBodyView::Graded {
                    grade: g.grade,
                    summary: g.summary@,
                    cached: g.cached,
                    source: g.source@,
                },
                ReplyBody::Error(m) => ReplyBodyView::Error(m@),
            },
        }
    }
}

/// The answer to a CORS preflight: 204 with no body.
pub fn preflight_reply() -> (r: HttpReply)
    ensures
        r@ == (ReplyView { status: 204, body: ReplyBodyView::Empty }),
{
    HttpReply { status: 204, body: ReplyBody::Empty }
}

/// The answer to the health check: 200 with the readiness of the sidecar and
/// whether the model is downloaded.
pub fn health_reply(sidecar_ready: bool, model_downloaded: bool) -> (r: HttpReply)
    ensures
        r@ == (ReplyView {
            status: 200,
            body: ReplyBodyView::Health { sidecar_ready, model_downloaded },
        }),
{
    HttpReply { status: 200, body: ReplyBody::Health { sidecar_ready, model_downloaded } }
}

/// The answer to any other route: 404 "Not Found".
pub fn not_found_reply() -> (r: HttpReply)
    ensures
        r@ == (ReplyView { status: 404, body: ReplyBodyView::NotFound }),
{
    HttpReply { status: 404, body: ReplyBody::NotFound }
}

/// Prefix of the message for a body that could not be read.
pub const MSG_BODY_UNREADABLE: &'static str = "Failed to read request body: ";

/// Prefix of the message for a body that is not a grade request.
pub const MSG_BODY_MALFORMED: &'static str = "Invalid JSON request: ";

/// Message for a request whose URL or text is blank.
pub const MSG_BLANK_FIELDS: &'static str = "Both 'url' and 'text' must be non-empty.";

/// Message for a grade request that arrives while the sidecar is not ready.
pub const MSG_SIDECAR_NOT_READY: &'static str = "Inference sidecar is not ready. Please download the model and verify the engine is running.";

/// Prefix of the message for a failed extraction.
pub const MSG_EXTRACTION_FAILED: &'static str = "LLM extraction failed: ";

/// The source recorded for grades computed here.
pub const SOURCE_LLM: &'static str = "llm";

/// The policy type recorded for grades computed here, where the request does
/// not say which kind of policy it is.
pub const POLICY_TYPE_UNKNOWN: &'static str = "unknown";

/// An error reply with a status and a message.
pub open spec fn error_reply(status: u16, msg: Seq<char>) -> ReplyView {
    ReplyView { status, body: ReplyBodyView::Error(msg) }
}

/// A 200 reply carrying a grade and its summary.
pub open spec fn graded_reply(grade: Grade, summary: SummaryView, cached: bool, source: Seq<char>) -> ReplyView {
    ReplyView { status: 200, body: ReplyBodyView::Graded { grade, summary, cached, source } }
}

/// The reply to a request whose policy is found in the cache.
pub open spec fn cached_reply(r: RecordView) -> ReplyView {
    graded_reply(r.grade, r.summary, true, r.source)
}

/// The reply to a request graded now from an extracted summary.
pub open spec fn fresh_reply(summary: SummaryView) -> ReplyView {
    graded_reply(rubric_grade(summary), summary, false, SOURCE_LLM@)
}

/// The record stored for a policy graded now.
pub open spec fn fresh_record(
    url: Seq<char>,
    domain: Seq<char>,
    text: Seq<char>,
    summary: SummaryView,
    graded_at: Seq<char>,
    model_version: Seq<char>,
) -> RecordView {
    RecordView {
        domain,
        policy_url: url,
        policy_type: POLICY_TYPE_UNKNOWN@,
        policy_version_hash: policy_hash_text(text),
        grade: rubric_grade(summary),
        summary,
        graded_at,
        model_version,
        source: SOURCE_LLM@,
    }
}

/// What the grade-request handler is told as it goes.
pub enum GradeEvent {
    /// Reading the request body failed with this message.
    BodyUnreadable(String),
    /// The body is not a grade request; the parser said this.
    BodyMalformed(String),
    /// The body is this grade request.
    BodyParsed(GradeRequest),
    /// The outcome of looking the policy up in the cache.
    CacheLooked(Result<Option<CachedPolicyRecord>, String>),
    /// Whether the inference sidecar is ready.
    SidecarChecked(bool),
    /// The outcome of extracting a summary from the policy text.
    Extracted(Result<PolicySummary, String>),
}

/// What the grade-request handler asks to be done next.
pub enum GradeAction {
    /// Look the policy up in the cache.
    LookUpCache { domain: String, url: String },
    /// Find out whether the inference sidecar is ready.
    CheckSidecar,
    /// Extract a summary from this policy text.
    Extract { text: String },
    /// Store this record in the cache, then send this reply.
    StoreAndReply { record: CachedPolicyRecord, reply: HttpReply },
    /// Send this reply.
    Reply(HttpReply),
    /// The event was not one the handler waits for; nothing is to be done.
    Ignore,
}

/// The values recorded with a policy graded now.
pub struct GradeContext {
    /// When the grade is computed.
    pub graded_at: String,
    /// The model that extracts the summary.
    pub model_version: String,
}

/// Where the handling of one grade request stands.
pub enum GradeFlow {
    /// Waiting for the request body.
    AwaitingBody,
    /// Waiting for the cache lookup.
    AwaitingCache { url: String, text: String, domain: String },
    /// Waiting to learn whether the sidecar is ready.
    AwaitingSidecar { url: String, text: String, domain: String },
    /// Waiting for the extracted summary.
    AwaitingExtraction { url: String, text: String, domain: String },
    /// A reply has been decided.
    Finished,
}

impl GradeFlow {
    /// How many events at most remain before a reply is decided.
    pub open spec fn stage(self) -> nat {
        match self {
            GradeFlow::AwaitingBody => 4,
            GradeFlow::AwaitingCache { .. } => 3,
            GradeFlow::AwaitingSidecar { .. } => 2,
            GradeFlow::AwaitingExtraction { .. } => 1,
            GradeFlow::Finished => 0,
        }
    }

    /// The flow is waiting for this kind of event.
    pub open spec fn awaits(self, event: GradeEvent) -> bool {
        match self {
            GradeFlow::AwaitingBody => event is BodyUnreadable || event is BodyMalformed
                || event is BodyParsed,
            GradeFlow::AwaitingCache { .. } => event is CacheLooked,
            GradeFlow::AwaitingSidecar { .. } => event is SidecarChecked,
            GradeFlow::AwaitingExtraction { .. } => event is Extracted,
            GradeFlow::Finished => false,
        }
    }

    /// The flow of a grade request that has just arrived.
    pub fn new() -> (f: GradeFlow)
        ensures
            f is AwaitingBody,
    {
        GradeFlow::AwaitingBody
    }
}

/// The action is a reply with this content.
pub open spec fn replies(a: GradeAction, r: ReplyView) -> bool {
    a matches GradeAction::Reply(x) && x@ == r
}

/// The decisions of one step of the grade-request handler.
pub open spec fn grade_step_spec(
    flow: GradeFlow,
    event: GradeEvent,
    ctx: GradeContext,
    next: GradeFlow,
    action: GradeAction,
) -> bool {
    if !flow.awaits(event) {
        next == flow && action is Ignore
    } else {
        match flow {
            GradeFlow::AwaitingBody => match event {
                GradeEvent::BodyUnreadable(e) => next is Finished && replies(
                    action,
                    error_reply(400, MSG_BODY_UNREADABLE@ + e@),
                ),
                GradeEvent::BodyMalformed(e) => next is Finished && replies(
                    action,
                    error_reply(400, MSG_BODY_MALFORMED@ + e@),
                ),
                GradeEvent::BodyParsed(req) => if is_blank(req.url@) || is_blank(req.text@) {
                    next is Finished && replies(action, error_reply(400, MSG_BLANK_FIELDS@))
                } else {
                    &&& next matches GradeFlow::AwaitingCache { url, text, domain }
                    &&& url@ == req.url@
                    &&& text@ == req.text@
                    &&& domain@ == domain_of(req.url@, parsed_url_host(req.url@))
                    &&& action matches GradeAction::LookUpCache { domain: d, url: u }
                    &&& d@ == domain@
                    &&& u@ == req.url@
                },
                _ => false,
            },
            GradeFlow::AwaitingCache { url, text, domain } => match event {
                GradeEvent::CacheLooked(Ok(Some(rec))) => next is Finished && replies(
                    action,
                    cached_reply(rec@),
                ),
                GradeEvent::CacheLooked(_) => {
                    &&& next matches GradeFlow::AwaitingSidecar { url: u2, text: t2, domain: d2 }
                    &&& u2@ == url@
                    &&& t2@ == text@
                    &&& d2@ == domain@
                    &&& action is CheckSidecar
                },
                _ => false,
            },
            GradeFlow::AwaitingSidecar { url, text, domain } => match event {
                GradeEvent::SidecarChecked(ready) => if ready {
                    &&& next matches GradeFlow::AwaitingExtraction { url: u2, text: t2, domain: d2 }
                    &&& u2@ == url@
                    &&& t2@ == text@
                    &&& d2@ == domain@
                    &&& action matches GradeAction::Extract { text: t3 }
                    &&& t3@ == text@
                } else {
                    next is Finished && replies(action, error_reply(503, MSG_SIDECAR_NOT_READY@))
                },
                _ => false,
            },
            GradeFlow::AwaitingExtraction { url, text, domain } => match event {
                GradeEvent::Extracted(Ok(summary)) => {
                    &&& next is Finished
                    &&& action matches GradeAction::StoreAndReply { record, reply }
                    &&& record@ == fresh_record(
                        url@,
                        domain@,
                        text@,
                        summary@,
                        ctx.graded_at@,
                        ctx.model_version@,
                    )
                    &&& reply@ == fresh_reply(summary@)
                },
                GradeEvent::Extracted(Err(e)) => next is Finished && replies(
                    action,
                    error_reply(500, MSG_EXTRACTION_FAILED@ + e@),
                ),
                _ => false,
            },
            GradeFlow::Finished => false,
        }
    }
}

fn message(prefix: &str, detail: &str) -> (r: String)
    ensures
        r@ == prefix@ + detail@,
{
    let mut r = String::from_str(prefix);
    r.append(detail);
    r
}

fn error_http(status: u16, msg: String) -> (r: HttpReply)
    ensures
        r@ == error_reply(status, msg@),
{
    HttpReply { status, body: ReplyBody::Error(msg) }
}

impl GradeFlow {
    /// Takes one event of a grade request: a body that cannot be read or
    /// parsed gets 400; a request with a blank URL or text gets 400; else the
    /// domain is derived and the cache consulted; a cached policy is answered
    /// as cached; otherwise a request while the sidecar is not ready gets 503;
    /// else the summary is extracted, and a failed extraction gets 500, a
    /// successful one is graded, stored and answered. An event the flow does
    /// not wait for changes nothing.
    pub fn step(self, event: GradeEvent, ctx: &GradeContext) -> (out: (GradeFlow, GradeAction))
        ensures
            grade_step_spec(self, event, *ctx, out.0, out.1),
            self.awaits(event) ==> out.0.stage() < self.stage(),
            self.awaits(event) ==> (out.0 is Finished <==> (out.1 is Reply || out.1 is StoreAndReply)),
    {
        match self {
            GradeFlow::AwaitingBody => match event {
                GradeEvent::BodyUnreadable(e) => {
                    let r = error_http(400, message(MSG_BODY_UNREADABLE, e.as_str()));
                    (GradeFlow::Finished, GradeAction::Reply(r))
                },
                GradeEvent::BodyMalformed(e) => {
                    let r = error_http(400, message(MSG_BODY_MALFORMED, e.as_str()));
                    (GradeFlow::Finished, GradeAction::Reply(r))
                },
                GradeEvent::BodyParsed(req) => {
                    if str_is_blank(req.url.as_str()) || str_is_blank(req.text.as_str()) {
                        let r = error_http(400, String::from_str(MSG_BLANK_FIELDS));
                        (GradeFlow::Finished, GradeAction::Reply(r))
                    } else {
                        let domain = extract_domain(req.url.as_str());
                        let action = GradeAction::LookUpCache {
                            domain: domain.clone(),
                            url: req.url.clone(),
                        };
                        (GradeFlow::AwaitingCache { url: req.url, text: req.text, domain }, action)
                    }
                },
                _ => (GradeFlow::AwaitingBody, GradeAction::Ignore),
            },
            GradeFlow::AwaitingCache { url, text, domain } => match event {
                GradeEvent::CacheLooked(found) => match found {
                    Ok(Some(rec)) => {
                        let r = HttpReply {
                            status: 200,
                            body: ReplyBody::Graded(
                                GradeResponse {
                                    grade: rec.grade,
                                    summary: rec.summary,
                                    cached: true,
                                    source: rec.source,
                                },
                            ),
                        };
                        (GradeFlow::Finished, GradeAction::Reply(r))
                    },
                    _ => (GradeFlow::AwaitingSidecar { url, text, domain }, GradeAction::CheckSidecar),
                },
                _ => (GradeFlow::AwaitingCache { url, text, domain }, GradeAction::Ignore),
            },
            GradeFlow::AwaitingSidecar { url, text, domain } => match event {
                GradeEvent::SidecarChecked(ready) => {
                    if ready {
                        let action = GradeAction::Extract { text: text.clone() };
                        (GradeFlow::AwaitingExtraction { url, text, domain }, action)
                    } else {
                        let r = error_http(503, String::from_str(MSG_SIDECAR_NOT_READY));
                        (GradeFlow::Finished, GradeAction::Reply(r))
                    }
                },
                _ => (GradeFlow::AwaitingSidecar { url, text, domain }, GradeAction::Ignore),
            },
            GradeFlow::AwaitingExtraction { url, text, domain } => match event {
                GradeEvent::Extracted(result) => match result {
                    Ok(summary) => {
                        let grade = compute_grade(&summary);
                        let hash = policy_version_hash(text.as_str());
                        let record = CachedPolicyRecord {
                            domain,
                            policy_url: url,
                            policy_type: String::from_str(POLICY_TYPE_UNKNOWN),
                            policy_version_hash: hash,
                            grade,
                            summary: summary.duplicate(),
                            graded_at: ctx.graded_at.clone(),
                            model_version: ctx.model_version.clone(),
                            source: String::from_str(SOURCE_LLM),
                        };
                        let reply = HttpReply {
                            status: 200,
                            body: ReplyBody::Graded(
                                GradeResponse {
                                    grade,
                                    summary,
                                    cached: false,
                                    source: String::from_str(SOURCE_LLM),
                                },
                            ),
                        };
                        (GradeFlow::Finished, GradeAction::StoreAndReply { record, reply })
                    },
                    Err(e) => {
                        let r = error_http(500, message(MSG_EXTRACTION_FAILED, e.as_str()));
                        (GradeFlow::Finished, GradeAction::Reply(r))
                    },
                },
                _ => (GradeFlow::AwaitingExtraction { url, text, domain }, GradeAction::Ignore),
            },
            GradeFlow::Finished => (GradeFlow::Finished, GradeAction::Ignore),
        }
    }
}

/// A policy graded now and the same policy later answered from the cache get
/// the same grade and summary, with only the cached flag telling them apart:
/// the record stored by a grading, once written as a row and read back,
/// answers a later request as the grading did.
pub proof fn law_cache_hit_repeats_fresh_grade(
    url: Seq<char>,
    domain: Seq<char>,
    text: Seq<char>,
    summary: SummaryView,
    graded_at: Seq<char>,
    model_version: Seq<char>,
)
    ensures
        ({
            let stored = fresh_record(url, domain, text, summary, graded_at, model_version);
            let read_back = crate::cache::record_of(crate::cache::row_of(stored), summary);
            &&& read_back == stored
            &&& cached_reply(read_back) == graded_reply(rubric_grade(summary), summary, true, SOURCE_LLM@)
        }),
{
    let stored = fresh_record(url, domain, text, summary, graded_at, model_version);
    crate::cache::law_row_round_trip(stored);
}


/// The API never echoes an origin it does not allow: the allowed origin of
/// every reply is "*" or a Chrome extension, localhost or 127.0.0.1 origin
/// that the request named.
pub proof fn law_cors_origin_is_allowed(headers: Seq<HeaderPair>)
    ensures
        cors_origin(headers) == "*"@ || (allowed_origin(cors_origin(headers))
            && exists|i: int| 0 <= i < headers.len() && #[trigger] headers[i].value@ == cors_origin(headers)),
    decreases headers.len(),
{
    if headers.len() == 0 {
    } else if echoed_origin_header(headers[0]) {
        assert(headers[0].value@ == cors_origin(headers));
    } else {
        let rest = headers.drop_first();
        law_cors_origin_is_allowed(rest);
        if cors_origin(rest) != "*"@ {
            let i = choose|i: int| 0 <= i < rest.len() && #[trigger] rest[i].value@ == cors_origin(rest);
            assert(headers[i + 1].value@ == cors_origin(headers));
        }
    }
}

proof fn lemma_hex_fixed_len(n: nat, width: nat)
    ensures
        hex_fixed(n, width).len() == width,
    decreases width,
{
    if width > 0 {
        lemma_hex_fixed_len(n / 16, (width - 1) as nat);
    }
}

/// Every policy version hash is sixteen hexadecimal digits long.
pub proof fn law_policy_hash_length(t: Seq<char>)
    ensures
        policy_hash_text(t).len() == 16,
{
    lemma_hex_fixed_len(text_hash(t) as nat, 16);
}

/// The header is an Origin header, its name compared without ASCII case,
/// whose value starts with "chrome-extension://", "http://localhost" or
/// "http://127.0.0.1".
pub open spec fn names_local_origin(h: HeaderPair) -> bool {
    &&& h.name@.len() == 6
    &&& forall|k: int| 0 <= k < 6 ==> ascii_lower_code(#[trigger] h.name@[k]) == ascii_lower_code("origin"@[k])
    &&& (is_prefix_of("chrome-extension://"@, h.value@) || is_prefix_of("http://localhost"@, h.value@)
        || is_prefix_of("http://127.0.0.1"@, h.value@))
}

/// Every Chrome extension, localhost or 127.0.0.1 origin is echoed: where the
/// `i`-th header is the first Origin header naming such an origin, the
/// allowed origin is its value; where no header does, it is "*".
pub proof fn law_cors_echoes_local_origins(headers: Seq<HeaderPair>, i: int)
    ensures
        0 <= i < headers.len() && names_local_origin(headers[i])
            && (forall|j: int| 0 <= j < i ==> !names_local_origin(#[trigger] headers[j]))
            ==> cors_origin(headers) == headers[i].value@,
        (forall|j: int| 0 <= j < headers.len() ==> !names_local_origin(#[trigger] headers[j]))
            ==> cors_origin(headers) == "*"@,
    decreases headers.len(),
{
    reveal_strlit("Origin");
    reveal_strlit("origin");
    if headers.len() > 0 {
        let h = headers[0];
        let rest = headers.drop_first();
        assert(echoed_origin_header(h) == names_local_origin(h)) by {
            if names_local_origin(h) {
                assert forall|k: int| 0 <= k < h.name@.len() implies ascii_lower_code(#[trigger] h.name@[k])
                    == ascii_lower_code("Origin"@[k]) by {
                    assert(ascii_lower_code("origin"@[k]) == ascii_lower_code("Origin"@[k]));
                }
            }
            if echoed_origin_header(h) {
                assert forall|k: int| 0 <= k < 6 implies ascii_lower_code(#[trigger] h.name@[k])
                    == ascii_lower_code("origin"@[k]) by {
                    assert(ascii_lower_code("origin"@[k]) == ascii_lower_code("Origin"@[k]));
                }
            }
        }
        law_cors_echoes_local_origins(rest, i - 1);
        if 0 < i < headers.len() && names_local_origin(headers[i])
            && (forall|j: int| 0 <= j < i ==> !names_local_origin(#[trigger] headers[j])) {
            assert(!names_local_origin(headers[0]));
            assert(rest[i - 1] == headers[i]);
            assert forall|j: int| 0 <= j < i - 1 implies !names_local_origin(#[trigger] rest[j]) by {
                assert(rest[j] == headers[j + 1]);
            }
        }
        if forall|j: int| 0 <= j < headers.len() ==> !names_local_origin(#[trigger] headers[j]) {
            assert(!names_local_origin(headers[0]));
            assert forall|j: int| 0 <= j < rest.len() implies !names_local_origin(#[trigger] rest[j]) by {
                assert(rest[j] == headers[j + 1]);
            }
        }
    }
}

/// Where URL parsing finds a host in a policy URL, the domain is exactly
/// that host, unchanged.
pub proof fn law_parsed_host_is_the_domain(url: Seq<char>, h: Seq<char>)
    ensures
        domain_of(url, Some(h)) == h,
        parsed_url_host(url) == Some(h) ==> domain_of(url, parsed_url_host(url)) == h,
{
}

proof fn lemma_take_until_append(d: Seq<char>, x: Seq<char>, c: char)
    requires
        forall|k: int| 0 <= k < d.len() ==> d[k] != c,
    ensures
        take_until(d + x, c) == d + take_until(x, c),
    decreases d.len(),
{
    if d.len() == 0 {
        assert(d + x =~= x);
        assert(d + take_until(x, c) =~= take_until(x, c));
    } else {
        let s = d + x;
        assert(s[0] == d[0]);
        assert(s.drop_first() =~= d.drop_first() + x);
        lemma_take_until_append(d.drop_first(), x, c);
        assert(seq![d[0]] + (d.drop_first() + take_until(x, c)) =~= d + take_until(x, c));
    }
}

proof fn lemma_trim_start_all_absent(s: Seq<char>, p: Seq<char>)
    requires
        !is_prefix_of(p, s),
    ensures
        trim_start_all(s, p) == s,
{
}

/// Where URL parsing finds no host, the domain read from "http://" or
/// "https://", a name, and then nothing or a path or a port, is that name:
/// the scheme, the path and the port are stripped and nothing else is.
pub proof fn law_fallback_domain_strips_scheme_path_port(scheme: Seq<char>, name: Seq<char>, rest: Seq<char>)
    requires
        scheme == "http://"@ || scheme == "https://"@,
        forall|k: int| 0 <= k < name.len() ==> name[k] != '/' && name[k] != ':',
        rest.len() == 0 || rest[0] == '/' || rest[0] == ':',
        !is_prefix_of("http://"@, name + rest),
        !is_prefix_of("https://"@, name + rest),
    ensures
        domain_of(scheme + name + rest, None) == name,
{
    reveal_strlit("http://");
    reveal_strlit("https://");
    let u = scheme + name + rest;
    let nr = name + rest;
    assert(u =~= scheme + nr);
    if scheme == "https://"@ {
        assert(u.subrange(0, 8) =~= "https://"@);
        assert(u.skip(8) =~= nr);
        assert(trim_start_all(u, "https://"@) == trim_start_all(nr, "https://"@));
    } else {
        assert(u[4] == ':');
        assert("https://"@[4] == 's');
        assert(!is_prefix_of("https://"@, u));
        assert(u.subrange(0, 7) =~= "http://"@);
        assert(u.skip(7) =~= nr);
    }
    lemma_trim_start_all_absent(nr, "https://"@);
    lemma_trim_start_all_absent(nr, "http://"@);
    lemma_take_until_append(name, rest, '/');
    let tr = take_until(rest, '/');
    if rest.len() > 0 && rest[0] == '/' {
        assert(tr.len() == 0);
    } else if rest.len() > 0 {
        assert(tr =~= seq![rest[0]] + take_until(rest.drop_first(), '/'));
    }
    lemma_take_until_append(name, tr, ':');
    if tr.len() > 0 {
        assert(tr[0] == ':');
    }
    assert(take_until(tr, ':') =~= Seq::<char>::empty());
    assert(name + Seq::<char>::empty() =~= name);
}

} // verus!
