//! Boundary for the engine's HTTP stack: synchronous and asynchronous
//! requests and their handles. The engine is not linked here:
//! requests complete at once with an empty body.

use vstd::prelude::*;
use std::collections::HashMap;
use std::sync::Arc;

verus! {

/// The request that a handle stands for.
pub enum HttpRequest {
    /// A GET of `url`, tried again up to `retries` times.
    Get { url: String, retries: u32 },
    /// A POST of `data` to `url`.
    Post { url: String, data: HttpPostData },
    /// No request: the response is already there, and empty.
    Ready,
}

/// A request as plain values: GET with URL and retries; POST with URL,
/// body, content type and compression; or a response already there.
pub enum HttpRequestView {
    Get(Seq<char>, u32),
    Post(Seq<char>, Seq<char>, Seq<char>, bool),
    Ready,
}

impl View for HttpRequest {
    type V = HttpRequestView;

    open spec fn view(&self) -> HttpRequestView {
        match self {
            HttpRequest::Get { url, retries } => HttpRequestView::Get(url@, *retries),
            HttpRequest::Post { url, data } => HttpRequestView::Post(
                url@,
                data.body@,
                data.content_type@,
                data.gzip,
            ),
            HttpRequest::Ready => HttpRequestView::Ready,
        }
    }
}

/// State shared by the handles of one request.
pub struct HttpFutureState {
    pub request: HttpRequest,
}

/// A handle on the body of a request.
#[derive(Clone)]
pub struct HttpFuture {
    inner: Option<Arc<HttpFutureState>>,
}

impl HttpFuture {
    /// Whether the handle stands for a request.
    pub closed spec fn spec_valid(&self) -> bool {
        self.inner is Some
    }

    /// The request that the handle stands for, if any.
    pub closed spec fn spec_request(&self) -> Option<HttpRequestView> {
        match self.inner {
            Some(a) => Some(a.request@),
            None => None,
        }
    }

    /// A handle that stands for no request.
    pub fn empty() -> (r: HttpFuture)
        ensures
            !r.spec_valid(),
            r.spec_request() is None,
    {
        HttpFuture { inner: None }
    }

    /// Whether the handle stands for a request.
    pub fn valid(&self) -> (r: bool)
        ensures
            r == self.spec_valid(),
            r == self.spec_request() is Some,
    {
        self.inner.is_some()
    }

    /// The request that the handle stands for, if any.
    pub fn request(&self) -> (r: Option<&HttpRequest>)
        ensures
            match r {
                Some(q) => self.spec_request() == Some(q@),
                None => self.spec_request() is None,
            },
    {
        match &self.inner {
            Some(a) => Some(&a.request),
            None => None,
        }
    }

    /// The body of the response: empty, since no engine is linked.
    pub fn get(&self) -> (r: Result<String, EngineError>)
        ensures
            r matches Ok(body) && body@ == Seq::<char>::empty(),
    {
        Ok(String::new())
    }

    /// Waits for the response, which is already there.
    pub fn wait(&self) {
    }
}

/// An error that the engine reports.
#[derive(Debug)]
pub struct EngineError(pub String);

impl EngineError {
    /// The text of the error, as the engine displays it.
    pub fn to_display_string(&self) -> (r: String)
        ensures
            r@ == self.0@,
    {
        self.0.clone()
    }
}

/// The body of a POST, its content type and whether it is compressed.
pub struct HttpPostData {
    pub body: String,
    pub content_type: String,
    pub gzip: bool,
}

impl HttpPostData {
    pub fn new(body: String, content_type: &str, gzip: bool) -> (r: HttpPostData)
        ensures
            r.body == body,
            r.content_type@ == content_type@,
            r.gzip == gzip,
    {
        HttpPostData { body, content_type: content_type.to_owned(), gzip }
    }
}

pub const CONTENT_TYPE_APPLICATION_JSON: &'static str = "application/json";

pub const CONTENT_TYPE_DEFAULT_UNSPECIFIED: &'static str = "";

/// A handle for the request `request`, which completes at once.
fn started_request(request: HttpRequest) -> (r: HttpFuture)
    ensures
        r.spec_valid(),
        r.spec_request() == Some(request@),
{
    HttpFuture { inner: Some(Arc::new(HttpFutureState { request })) }
}

/// Starts a GET of `url`, to be tried again up to `retries` times.
pub fn get_with_retries(url: &str, retries: u32) -> (r: HttpFuture)
    ensures
        r.spec_valid(),
        r.spec_request() == Some(HttpRequestView::Get(url@, retries)),
{
    started_request(HttpRequest::Get { url: url.to_owned(), retries })
}

/// Starts a POST of `data` to `url`.
pub fn post_async(url: &str, data: HttpPostData) -> (r: HttpFuture)
    ensures
        r.spec_valid(),
        r.spec_request() == Some(
            HttpRequestView::Post(url@, data.body@, data.content_type@, data.gzip),
        ),
{
    started_request(HttpRequest::Post { url: url.to_owned(), data })
}

/// A response that is already there, with an empty body.
pub fn ready_empty_future() -> (r: HttpFuture)
    ensures
        r.spec_valid(),
        r.spec_request() == Some(HttpRequestView::Ready),
{
    started_request(HttpRequest::Ready)
}

/// A synchronous request.
pub struct Http {
    url: String,
    pub additional_headers: HashMap<String, String>,
}

impl Http {
    pub closed spec fn spec_url(&self) -> Seq<char> {
        self.url@
    }

    pub closed spec fn spec_headers(&self) -> Map<String, String> {
        self.additional_headers@
    }

    /// A request for `url` with no additional headers.
    pub fn new(url: &str) -> (r: Http)
        ensures
            r.spec_url() == url@,
            r.spec_headers() == Map::<String, String>::empty(),
    {
        Http { url: url.to_owned(), additional_headers: HashMap::new() }
    }

    /// Performs a GET into `out`: it succeeds and leaves `out` as it is.
    pub fn get(&self, out: &mut String) -> (r: Result<(), EngineError>)
        ensures
            r is Ok,
            final(out)@ == old(out)@,
    {
        Ok(())
    }

    /// Performs a POST of `body` into `out`: it succeeds and leaves `out` as
    /// it is.
    pub fn post(&self, body: &[u8], content_type: &str, gzip: bool, out: &mut String) -> (r: Result<(), EngineError>)
        ensures
            r is Ok,
            final(out)@ == old(out)@,
    {
        Ok(())
    }

    /// Chooses the curl transport, which the inert engine ignores.
    pub fn set_use_curl(enable: bool) {
    }

    /// Turns request statistics on or off, which the inert engine ignores.
    pub fn set_use_statistics(enable: bool) {
    }

    /// Whether the in-game browser may open `url`: every URL is trusted.
    pub fn trust_check_browser(url: &str) -> (r: bool)
        ensures
            r,
    {
        true
    }
}

} // verus!
