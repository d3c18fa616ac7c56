//! The decisions of the Modrinth API client: which paths and parameters a request
//! carries, how an answer's status is judged, when a rate-limited request is
//! retried, how a download is accumulated, and which search hit names a project.
//! Sending requests and reading answers is left to the caller.
pub mod models;

use vstd::prelude::*;
use vstd::string::*;
use crate::error::ApiError;
use crate::api::models::{
    HashAlgorithm, SearchHit, VersionFilesRequest, VersionFilesUpdateRequest,
};
use crate::text::{
    clone_strings, decimal, decimal_string, lowercase, parse_u64, parse_u64_spec, push_str, to_lowercase,
    views,
};

verus! {

/// The API's base address.
pub const BASE_URL: &'static str = "https://api.modrinth.com";

/// How long a request may take, in seconds.
pub const REQUEST_TIMEOUT_SECS: u64 = 30;

/// How many times a rate-limited request is sent again.
pub const MAX_RETRIES: u32 = 3;

/// HTTP status of a rate-limited request.
pub const TOO_MANY_REQUESTS: u16 = 429;

/// HTTP status of a missing resource.
pub const NOT_FOUND: u16 = 404;

/// The endpoints the client calls.
#[derive(Debug, Clone, Copy, PartialEq, Eq, Structural)]
pub enum Endpoint {
    Loaders,
    GameVersions,
    Categories,
    Search,
    VersionFiles,
    VersionFilesUpdate,
}

impl Endpoint {
    /// The endpoint's path below the base address.
    pub open spec fn path_spec(self) -> Seq<char> {
        match self {
            Endpoint::Loaders => "/v2/tag/loader"@,
            Endpoint::GameVersions => "/v2/tag/game_version"@,
            Endpoint::Categories => "/v2/tag/category"@,
            Endpoint::Search => "/v2/search"@,
            Endpoint::VersionFiles => "/v2/version_files"@,
            Endpoint::VersionFilesUpdate => "/v2/version_files/update"@,
        }
    }

    /// The endpoint's path below the base address.
    pub fn path(&self) -> (res: &'static str)
        ensures
            res@ == self.path_spec(),
    {
        match self {
            Endpoint::Loaders => "/v2/tag/loader",
            Endpoint::GameVersions => "/v2/tag/game_version",
            Endpoint::Categories => "/v2/tag/category",
            Endpoint::Search => "/v2/search",
            Endpoint::VersionFiles => "/v2/version_files",
            Endpoint::VersionFilesUpdate => "/v2/version_files/update",
        }
    }
}

// ── Search ───────────────────────────────────────────────────────────

/// The views of a list of key/value pairs.
pub open spec fn pair_views(pairs: Seq<(String, String)>) -> Seq<(Seq<char>, Seq<char>)> {
    pairs.map_values(|p: (String, String)| (p.0@, p.1@))
}

/// The query parameters of a search, in order: `query`, then `facets` and
/// `index` when given, then `offset` and `limit` in decimal.
pub open spec fn search_params_spec(
    query: Seq<char>,
    facets: Option<Seq<char>>,
    index: Option<Seq<char>>,
    offset: nat,
    limit: nat,
) -> Seq<(Seq<char>, Seq<char>)> {
    seq![("query"@, query)] + match facets {
        Some(f) => seq![("facets"@, f)],
        None => Seq::empty(),
    } + match index {
        Some(i) => seq![("index"@, i)],
        None => Seq::empty(),
    } + seq![("offset"@, decimal(offset)), ("limit"@, decimal(limit))]
}

/// The view of an optional string slice.
pub open spec fn opt_str_view(s: Option<&str>) -> Option<Seq<char>> {
    match s {
        Some(x) => Some(x@),
        None => None,
    }
}

/// Builds the query parameters of `GET /v2/search`.
pub fn search_params(
    query: &str,
    facets: Option<&str>,
    index: Option<&str>,
    offset: u32,
    limit: u32,
) -> (res: Vec<(String, String)>)
    ensures
        pair_views(res@) == search_params_spec(
            query@,
            opt_str_view(facets),
            opt_str_view(index),
            offset as nat,
            limit as nat,
        ),
{
    let mut res: Vec<(String, String)> = Vec::new();
    res.push((String::from_str("query"), String::from_str(query)));
    match facets {
        Some(f) => res.push((String::from_str("facets"), String::from_str(f))),
        None => {},
    }
    match index {
        Some(i) => res.push((String::from_str("index"), String::from_str(i))),
        None => {},
    }
    res.push((String::from_str("offset"), decimal_string(offset as u64)));
    res.push((String::from_str("limit"), decimal_string(limit as u64)));
    assert(pair_views(res@) =~= search_params_spec(
        query@,
        opt_str_view(facets),
        opt_str_view(index),
        offset as nat,
        limit as nat,
    ));
    res
}

/// The parameters with which a project is looked up by name: ordered by
/// relevance, the first five hits.
pub fn project_search_params(name: &str) -> (res: Vec<(String, String)>)
    ensures
        pair_views(res@) == search_params_spec(name@, None, Some("relevance"@), 0, 5),
{
    search_params(name, None, Some("relevance"), 0, 5)
}

/// Whether a hit's title or slug equals `name_lower` once lower-cased.
pub open spec fn names_project(hit: SearchHit, name_lower: Seq<char>) -> bool {
    lowercase(hit.title@) == name_lower || lowercase(hit.slug@) == name_lower
}

/// Picks the best of a search's hits for `name`: the first whose title or slug
/// equals `name` when both are lower-cased, else the first hit; `None` only when
/// there are no hits.
pub fn best_match(hits: Vec<SearchHit>, name: &str) -> (res: Option<SearchHit>)
    ensures
        hits@.len() == 0 <==> res is None,
        (exists|i: int| 0 <= i < hits@.len() && names_project(#[trigger] hits@[i], lowercase(name@))) ==>
            (res matches Some(h) && exists|i: int|
                0 <= i < hits@.len() && hits@[i] == h && names_project(hits@[i], lowercase(name@))
                    && forall|j: int| 0 <= j < i ==> !names_project(#[trigger] hits@[j], lowercase(name@))),
        (forall|j: int| 0 <= j < hits@.len() ==> !names_project(#[trigger] hits@[j], lowercase(name@)))
            && hits@.len() > 0 ==> res == Some(hits@[0]),
{
    let name_lower = to_lowercase(name);
    let n = hits.len();
    let mut i: usize = 0;
    while i < n
        invariant
            n == hits@.len(),
            i <= n,
            name_lower@ == lowercase(name@),
            forall|j: int| 0 <= j < i ==> !names_project(#[trigger] hits@[j], lowercase(name@)),
        decreases n - i,
    {
        let title = to_lowercase(hits[i].title.as_str());
        let slug = to_lowercase(hits[i].slug.as_str());
        if title == name_lower || slug == name_lower {
            let ghost old_hits = hits@;
            let mut hits = hits;
            let h = hits.remove(i);
            assert(old_hits[i as int] == h);
            assert(names_project(old_hits[i as int], lowercase(name@)));
            return Some(h);
        }
        i = i + 1;
    }
    if n == 0 {
        return None;
    }
    let ghost old_hits = hits@;
    let mut hits = hits;
    let h = hits.remove(0);
    assert(old_hits[0] == h);
    Some(h)
}

// ── Request bodies ──────────────────────────────────────────────────

impl VersionFilesRequest {
    /// The body that asks which version each of `hashes` belongs to.
    pub fn new(hashes: &[String], algorithm: HashAlgorithm) -> (res: VersionFilesRequest)
        ensures
            res.hashes@ == hashes@,
            res.algorithm@ == algorithm.name_spec(),
    {
        VersionFilesRequest {
            hashes: clone_strings(hashes),
            algorithm: String::from_str(algorithm.as_str()),
        }
    }
}

impl VersionFilesUpdateRequest {
    /// The body that asks for the newest version, for the given loaders and game
    /// versions, of the project each of `hashes` belongs to.
    pub fn new(
        hashes: &[String],
        algorithm: HashAlgorithm,
        loaders: &[String],
        game_versions: &[String],
    ) -> (res: VersionFilesUpdateRequest)
        ensures
            res.hashes@ == hashes@,
            res.algorithm@ == algorithm.name_spec(),
            res.loaders@ == loaders@,
            res.game_versions@ == game_versions@,
    {
        VersionFilesUpdateRequest {
            hashes: clone_strings(hashes),
            algorithm: String::from_str(algorithm.as_str()),
            loaders: clone_strings(loaders),
            game_versions: clone_strings(game_versions),
        }
    }
}

// ── Answers ─────────────────────────────────────────────────────────

/// Whether an HTTP status is a success (2xx).
pub open spec fn is_success_status(status: u16) -> bool {
    200 <= status <= 299
}

/// Judges the status of a download: a success, or an `ApiError` that quotes the
/// status as `status_text` renders it (such as `404 Not Found`).
pub fn check_download_status(status: u16, status_text: &str) -> (res: Result<(), ApiError>)
    ensures
        is_success_status(status) <==> res is Ok,
        res matches Err(e) ==> (e matches ApiError::ApiError { status: s, message: m }
            && s == status && m@ == "Download failed with status "@ + status_text@),
{
    if 200 <= status && status <= 299 {
        Ok(())
    } else {
        let mut message = String::new();
        push_str(&mut message, "Download failed with status ");
        push_str(&mut message, status_text);
        Err(ApiError::ApiError { status, message })
    }
}

/// What to do with an answer that should carry JSON.
#[derive(Debug)]
pub enum ResponsePlan {
    /// Read the body and parse it.
    ParseBody,
    /// Fail with this error without reading the body.
    Fail(ApiError),
    /// Read the body as text and fail with `error_from_body`.
    ReadErrorBody,
}

/// Decides, from its status, how an answer that should carry JSON is handled: a
/// success is parsed, a 404 is `NotFound`, anything else is an error whose
/// message is the body.
pub fn plan_json_response(status: u16) -> (res: ResponsePlan)
    ensures
        is_success_status(status) ==> res is ParseBody,
        status == NOT_FOUND ==> (res matches ResponsePlan::Fail(ApiError::NotFound(m))
            && m@ == "Resource not found"@),
        !is_success_status(status) && status != NOT_FOUND ==> res is ReadErrorBody,
{
    if 200 <= status && status <= 299 {
        ResponsePlan::ParseBody
    } else if status == NOT_FOUND {
        ResponsePlan::Fail(ApiError::NotFound(String::from_str("Resource not found")))
    } else {
        ResponsePlan::ReadErrorBody
    }
}

/// The error for an unsuccessful answer: its status, and its body as the message,
/// or `Unknown error` when the body could not be read.
pub fn error_from_body(status: u16, body: Option<String>) -> (res: ApiError)
    ensures
        res matches ApiError::ApiError { status: s, message: m } && s == status && m@ == match body {
            Some(b) => b@,
            None => "Unknown error"@,
        },
{
    let message = match body {
        Some(b) => b,
        None => String::from_str("Unknown error"),
    };
    ApiError::ApiError { status, message }
}

// ── Retrying rate-limited requests ──────────────────────────────────

/// What to do after an answer to a POST request.
#[derive(Debug)]
pub enum PostStep {
    /// Handle the answer.
    Handle,
    /// Wait this many seconds and send the request again.
    Retry { delay_secs: u64 },
    /// Stop with this error.
    GiveUp(ApiError),
}

/// The delay a rate-limited request waits: the `retry-after` header in whole
/// seconds when it holds a number, else one second.
pub open spec fn retry_delay(retry_after: Option<Seq<char>>) -> u64 {
    match retry_after {
        Some(h) => match parse_u64_spec(h) {
            Some(v) => v,
            None => 1,
        },
        None => 1,
    }
}

/// How many times a POST request has been retried so far.
pub struct RetryState {
    retries: u32,
}

impl RetryState {
    #[verifier::type_invariant]
    closed spec fn wf(self) -> bool {
        self.retries <= MAX_RETRIES
    }

    /// The number of retries made so far.
    pub closed spec fn retries(&self) -> nat {
        self.retries as nat
    }

    /// No retry made yet.
    pub fn new() -> (res: RetryState)
        ensures
            res.retries() == 0,
    {
        RetryState { retries: 0 }
    }

    /// Decides what follows an answer with `status` and the text of its
    /// `retry-after` header: a rate-limited request is retried after the delay
    /// the header gives, at most `MAX_RETRIES` times; then it fails with
    /// `RateLimited`. Any other answer is handled.
    pub fn on_answer(&mut self, status: u16, retry_after: Option<&str>) -> (res: PostStep)
        ensures
            final(self).retries() <= MAX_RETRIES,
            status != TOO_MANY_REQUESTS ==> res is Handle && final(self).retries() == old(self).retries(),
            status == TOO_MANY_REQUESTS && old(self).retries() < MAX_RETRIES ==> {
                &&& final(self).retries() == old(self).retries() + 1
                &&& res == PostStep::Retry { delay_secs: retry_delay(opt_str_view(retry_after)) }
            },
            status == TOO_MANY_REQUESTS && old(self).retries() >= MAX_RETRIES ==> {
                &&& final(self).retries() == old(self).retries()
                &&& (res matches PostStep::GiveUp(ApiError::RateLimited { retry_after: d }) && d is None)
            },
    {
        proof {
            use_type_invariant(&*self);
        }
        if status != TOO_MANY_REQUESTS {
            return PostStep::Handle;
        }
        if self.retries < MAX_RETRIES {
            self.retries = self.retries + 1;
            let delay_secs = match retry_after {
                Some(h) => match parse_u64(h) {
                    Some(v) => v,
                    None => 1,
                },
                None => 1,
            };
            PostStep::Retry { delay_secs }
        } else {
            PostStep::GiveUp(ApiError::RateLimited { retry_after: None })
        }
    }
}

// ── Downloads ───────────────────────────────────────────────────────

/// The bytes of a download received so far, and the size the server announced.
pub struct DownloadProgress {
    total: u64,
    data: Vec<u8>,
}

impl DownloadProgress {
    /// The bytes received so far, in order.
    pub closed spec fn received(&self) -> Seq<u8> {
        self.data@
    }

    /// The size the server announced (0 when it announced none).
    pub closed spec fn total(&self) -> u64 {
        self.total
    }

    /// Nothing received yet, of a download of `content_length` bytes if known.
    pub fn new(content_length: Option<u64>) -> (res: DownloadProgress)
        ensures
            res.received() == Seq::<u8>::empty(),
            res.total() == match content_length {
                Some(n) => n,
                None => 0,
            },
    {
        let total = match content_length {
            Some(n) => n,
            None => 0,
        };
        DownloadProgress { total, data: Vec::new() }
    }

    /// Adds the next chunk and returns what the progress callback is told: the
    /// number of bytes received so far and the announced total.
    pub fn add_chunk(&mut self, chunk: &[u8]) -> (res: (u64, u64))
        ensures
            final(self).received() == old(self).received() + chunk@,
            final(self).total() == old(self).total(),
            res == (final(self).received().len() as u64, old(self).total()),
    {
        let n = chunk.len();
        let mut i: usize = 0;
        let ghost start = self.data@;
        let ghost total0 = self.total;
        while i < n
            invariant
                n == chunk@.len(),
                i <= n,
                self.data@ == start + chunk@.take(i as int),
                self.total == total0,
            decreases n - i,
        {
            self.data.push(chunk[i]);
            assert(chunk@.take(i + 1) =~= chunk@.take(i as int).push(chunk@[i as int]));
            i = i + 1;
        }
        assert(chunk@.take(n as int) =~= chunk@);
        (self.data.len() as u64, self.total)
    }

    /// The whole download.
    pub fn finish(self) -> (res: Vec<u8>)
        ensures
            res@ == self.received(),
    {
        self.data
    }
}

} // verus!
