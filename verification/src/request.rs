//! Requests: what a caller asks for, and what is put on the wire for it.

use vstd::prelude::*;
use crate::client::ClientConfiguration;
use crate::client::ClientConfigurationView;
use crate::error::ClientError;
use crate::error::ClientErrorView;
use hyper::header::HeaderValue;
use hyper::HeaderMap;
use crate::headers::add_default;
use crate::headers::copy_headers;
use crate::headers::header_list;
use crate::headers::header_pairs;
use crate::headers::called;
use crate::headers::has_header;
use crate::headers::lemma_with_default_called;
use crate::headers::lemma_with_default_has;
use crate::headers::with_default;
use crate::headers::HeaderSeq;
use crate::protocols::Version;
use crate::target::TargetView;
use crate::text::same_ignoring_case;

verus! {

/// The request methods of HTTP.
#[derive(Debug, Clone, Copy, PartialEq, Eq, Structural)]
pub enum Method {
    Options,
    Get,
    Post,
    Put,
    Delete,
    Head,
    Trace,
    Connect,
    Patch,
}

impl Method {
    /// The method as it is written on the wire.
    pub open spec fn spec_name(self) -> Seq<char> {
        match self {
            Method::Options => "OPTIONS"@,
            Method::Get => "GET"@,
            Method::Post => "POST"@,
            Method::Put => "PUT"@,
            Method::Delete => "DELETE"@,
            Method::Head => "HEAD"@,
            Method::Trace => "TRACE"@,
            Method::Connect => "CONNECT"@,
            Method::Patch => "PATCH"@,
        }
    }

    /// The method as it is written on the wire.
    pub fn as_str(self) -> (name: &'static str)
        ensures
            name@ == self.spec_name(),
    {
        match self {
            Method::Options => "OPTIONS",
            Method::Get => "GET",
            Method::Post => "POST",
            Method::Put => "PUT",
            Method::Delete => "DELETE",
            Method::Head => "HEAD",
            Method::Trace => "TRACE",
            Method::Connect => "CONNECT",
            Method::Patch => "PATCH",
        }
    }
}

/// The text without the slashes at its end.
pub open spec fn trim_end_slashes(text: Seq<char>) -> Seq<char>
    decreases text.len(),
{
    if text.len() > 0 && text.last() == '/' {
        trim_end_slashes(text.drop_last())
    } else {
        text
    }
}

/// The text without the slashes at its start.
pub open spec fn trim_start_slashes(text: Seq<char>) -> Seq<char>
    decreases text.len(),
{
    if text.len() > 0 && text.first() == '/' {
        trim_start_slashes(text.drop_first())
    } else {
        text
    }
}

/// A base and a path joined by exactly one slash.
pub open spec fn joined(base: Seq<char>, path: Seq<char>) -> Seq<char> {
    trim_end_slashes(base) + seq!['/'] + trim_start_slashes(path)
}

/// Trimming at the end keeps a prefix that does not end in a slash and drops
/// nothing but slashes.
pub proof fn lemma_trim_end_slashes(text: Seq<char>)
    ensures
        trim_end_slashes(text).len() <= text.len(),
        trim_end_slashes(text) == text.take(trim_end_slashes(text).len() as int),
        trim_end_slashes(text).len() > 0 ==> trim_end_slashes(text).last() != '/',
        forall|i: int| trim_end_slashes(text).len() <= i < text.len() ==> text[i] == '/',
    decreases text.len(),
{
    if text.len() > 0 && text.last() == '/' {
        lemma_trim_end_slashes(text.drop_last());
        let kept = trim_end_slashes(text.drop_last());
        assert(text.drop_last().take(kept.len() as int) =~= text.take(kept.len() as int));
        assert forall|i: int| kept.len() <= i < text.len() implies text[i] == '/' by {
            if i < text.len() - 1 {
                assert(text[i] == text.drop_last()[i]);
            }
        }
    } else {
        assert(text.take(text.len() as int) =~= text);
    }
}

/// Trimming at the start keeps a suffix that does not start with a slash and
/// drops nothing but slashes.
pub proof fn lemma_trim_start_slashes(text: Seq<char>)
    ensures
        trim_start_slashes(text).len() <= text.len(),
        trim_start_slashes(text) == text.skip(text.len() - trim_start_slashes(text).len()),
        trim_start_slashes(text).len() > 0 ==> trim_start_slashes(text).first() != '/',
        forall|i: int| 0 <= i < text.len() - trim_start_slashes(text).len() ==> text[i] == '/',
    decreases text.len(),
{
    if text.len() > 0 && text.first() == '/' {
        lemma_trim_start_slashes(text.drop_first());
        let rest = text.drop_first();
        let kept = trim_start_slashes(rest);
        assert(rest.skip(rest.len() - kept.len()) =~= text.skip(text.len() - kept.len()));
        assert forall|i: int| 0 <= i < text.len() - kept.len() implies text[i] == '/' by {
            if i > 0 {
                assert(text[i] == rest[i - 1]);
            }
        }
    } else {
        assert(text.skip(0) =~= text);
    }
}

/// Joins a base URL and a path with exactly one slash between them, whatever
/// slashes the base ends with and the path starts with.
pub fn join_base_and_path(base: &str, path: &str) -> (url: String)
    ensures
        url@ == joined(base@, path@),
{
    let mut end: usize = base.unicode_len();
    assert(base@.take(end as int) =~= base@);
    assert(path@.skip(0) =~= path@);
    while end > 0 && base.get_char(end - 1) == '/'
        invariant
            end <= base@.len(),
            trim_end_slashes(base@) == trim_end_slashes(base@.take(end as int)),
        decreases end,
    {
        assert(base@.take(end as int).drop_last() =~= base@.take(end - 1));
        end -= 1;
    }
    let len: usize = path.unicode_len();
    let mut start: usize = 0;
    while start < len && path.get_char(start) == '/'
        invariant
            len == path@.len(),
            start <= len,
            trim_start_slashes(path@) == trim_start_slashes(path@.skip(start as int)),
        decreases len - start,
    {
        assert(path@.skip(start as int).drop_first() =~= path@.skip(start + 1));
        start += 1;
    }
    proof {
        reveal_strlit("/");
        assert(base@.take(0) =~= Seq::<char>::empty());
        assert(path@.skip(len as int) =~= Seq::<char>::empty());
    }
    let mut url = String::from_str(base.substring_char(0, end));
    url.append("/");
    url.append(path.substring_char(start, len));
    assert(url@ =~= joined(base@, path@));
    url
}

/// What a caller asks for: a method on a URL, with headers of its own if it
/// has any.
#[derive(Debug, Clone, PartialEq, Eq)]
pub struct Request {
    pub url: String,
    pub method: Method,
    pub headers: Option<HeaderMap<HeaderValue>>,
}

/// The mathematical value of a [`Request`].
pub struct RequestView {
    pub url: Seq<char>,
    pub method: Method,
    pub headers: Option<HeaderSeq>,
}

impl View for Request {
    type V = RequestView;

    open spec fn view(&self) -> RequestView {
        RequestView {
            url: self.url@,
            method: self.method,
            headers: match self.headers {
                Some(map) => Some(header_list(map)),
                None => None,
            },
        }
    }
}

/// A request in the making.
#[derive(Debug, Clone, PartialEq, Eq)]
pub struct RequestBuilder {
    pub url: String,
    pub method: Method,
}

impl RequestBuilder {
    /// The request: the builder's URL and method, and no headers of its own.
    pub fn build(self) -> (result: Result<Request, ClientError>)
        ensures
            result is Ok,
            result->Ok_0@ == (RequestView {
                url: self.url@,
                method: self.method,
                headers: None,
            }),
    {
        Ok(Request { url: self.url, method: self.method, headers: None })
    }
}

/// A request as it goes out on a connection.
#[derive(Debug, Clone, PartialEq, Eq)]
pub struct HttpRequest {
    pub method: Method,
    pub uri: String,
    pub version: Version,
    pub headers: Vec<(String, String)>,
}

/// The mathematical value of an [`HttpRequest`].
pub struct HttpRequestView {
    pub method: Method,
    pub uri: Seq<char>,
    pub version: Version,
    pub headers: HeaderSeq,
}

impl View for HttpRequest {
    type V = HttpRequestView;

    open spec fn view(&self) -> HttpRequestView {
        HttpRequestView {
            method: self.method,
            uri: self.uri@,
            version: self.version,
            headers: self.headers.deep_view(),
        }
    }
}

impl HttpRequest {
    /// A copy of the request.
    pub fn duplicate(&self) -> (copy: HttpRequest)
        ensures
            copy@ == self@,
    {
        HttpRequest {
            method: self.method,
            uri: self.uri.clone(),
            version: self.version,
            headers: copy_headers(&self.headers),
        }
    }
}

/// The `User-Agent` value sent where the caller sets none.
pub open spec fn default_user_agent() -> Seq<char> {
    "apigrok/0.1.0"@
}

/// The header list that goes out: the request's own headers, then
/// `user-agent` and `host` where the request set neither. Nothing else is ever
/// added, and of a client's configuration only the target is read.
pub open spec fn outgoing_headers(own: Option<HeaderSeq>, target: TargetView) -> HeaderSeq {
    let own = match own {
        Some(h) => h,
        None => Seq::empty(),
    };
    with_default(
        with_default(own, "user-agent"@, default_user_agent()),
        "host"@,
        target.authority(),
    )
}

/// The request that goes out for what a caller asked of a client: its method
/// and URL, as HTTP/1.1 until a connection says otherwise, with the outgoing
/// headers.
pub open spec fn assembled(request: RequestView, config: ClientConfigurationView)
    -> HttpRequestView {
    HttpRequestView {
        method: request.method,
        uri: request.url,
        version: Version::Http11,
        headers: outgoing_headers(request.headers, config.target),
    }
}

/// Of a client's configuration only the target reaches a request: neither the
/// configured headers nor the timeout nor the base URL change what goes out.
pub proof fn lemma_configuration_reaches_requests_by_target_only(
    request: RequestView,
    one: ClientConfigurationView,
    other: ClientConfigurationView,
)
    requires
        one.target == other.target,
    ensures
        assembled(request, one) == assembled(request, other),
        built(request, one) == built(request, other),
{
}

/// The names `host` and `user-agent` differ, case ignored.
proof fn lemma_host_is_not_user_agent()
    ensures
        !same_ignoring_case("host"@, "user-agent"@),
{
    reveal_strlit("host");
    reveal_strlit("user-agent");
}

/// Every request goes out with a `user-agent` and a `host`. The `user-agent`
/// headers that go out are the request's own where it set any, and exactly
/// one, the default, where it set none.
pub proof fn lemma_user_agent_default(own: Option<HeaderSeq>, target: TargetView)
    ensures
        has_header(outgoing_headers(own, target), "user-agent"@),
        has_header(outgoing_headers(own, target), "host"@),
        own is Some && has_header(own->Some_0, "user-agent"@) ==> outgoing_headers(
            own,
            target,
        ).filter(called("user-agent"@)) == own->Some_0.filter(called("user-agent"@)),
        own is None || !has_header(own->Some_0, "user-agent"@) ==> outgoing_headers(
            own,
            target,
        ).filter(called("user-agent"@)) == seq![("user-agent"@, default_user_agent())],
{
    let base = match own {
        Some(h) => h,
        None => Seq::empty(),
    };
    let with_agent = with_default(base, "user-agent"@, default_user_agent());
    lemma_host_is_not_user_agent();
    lemma_with_default_has(base, "user-agent"@, default_user_agent(), "user-agent"@);
    lemma_with_default_has(with_agent, "host"@, target.authority(), "user-agent"@);
    lemma_with_default_called(base, "user-agent"@, default_user_agent(), "user-agent"@);
    lemma_with_default_called(with_agent, "host"@, target.authority(), "user-agent"@);
}

/// Builds the outgoing request for what a caller asked. The default headers
/// are added here and nowhere else.
pub fn assemble_request(request: Request, config: &ClientConfiguration) -> (out: HttpRequest)
    ensures
        out@ == assembled(request@, config@),
{
    let mut headers: Vec<(String, String)> = match &request.headers {
        Some(map) => header_pairs(map),
        None => {
            let empty: Vec<(String, String)> = Vec::new();
            assert(empty.deep_view() =~= Seq::<(Seq<char>, Seq<char>)>::empty());
            empty
        },
    };
    add_default(&mut headers, "user-agent", String::from_str("apigrok/0.1.0"));
    add_default(&mut headers, "host", config.target.authority());
    HttpRequest { method: request.method, uri: request.url, version: Version::Http11, headers }
}

/// Whether `hyper::Request::builder` takes a text as a request's URI.
pub uninterp spec fn uri_accepted(uri: Seq<char>) -> bool;

/// Whether `hyper::Request::builder` takes a name and a value as a header.
pub uninterp spec fn header_accepted(name: Seq<char>, value: Seq<char>) -> bool;

/// Hands `uri` to `hyper::Request::builder().uri(..)` and reports whether a
/// request could be built.
///
/// Trusted: the answer is named, not described. The contract claims only that
/// it is a function of the text.
#[verifier::external_body]
fn accepts_uri(uri: &str) -> (accepted: bool)
    ensures
        accepted == uri_accepted(uri@),
{
    hyper::Request::builder().uri(uri).body(()).is_ok()
}

/// Hands one header to `hyper::Request::builder().header(..)` and reports
/// whether a request could be built.
///
/// Trusted: the answer is named, not described. The contract claims only that
/// it is a function of the name and the value.
#[verifier::external_body]
fn accepts_header(name: &str, value: &str) -> (accepted: bool)
    ensures
        accepted == header_accepted(name@, value@),
{
    hyper::Request::builder().header(name, value).body(()).is_ok()
}

/// Whether every header of the list is accepted.
pub open spec fn headers_accepted(headers: HeaderSeq) -> bool {
    forall|i: int|
        0 <= i < headers.len() ==> header_accepted((#[trigger] headers[i]).0, headers[i].1)
}

/// What becomes of an assembled request once its URI and its headers have been
/// judged: it goes out where both pass; a URI that does not pass is an invalid
/// URL; a header that does not pass means the request cannot be sent.
pub open spec fn checked(request: HttpRequestView, uri_ok: bool, headers_ok: bool) -> Result<
    HttpRequestView,
    ClientErrorView,
> {
    if !uri_ok {
        Err(ClientErrorView::InvalidUrl)
    } else if !headers_ok {
        Err(ClientErrorView::SendFailed("invalid header"@))
    } else {
        Ok(request)
    }
}

/// Whether a builder's answer is the one that `expected` describes.
pub open spec fn built_as(
    got: Result<HttpRequest, ClientError>,
    expected: Result<HttpRequestView, ClientErrorView>,
) -> bool {
    match got {
        Ok(r) => expected == Ok::<HttpRequestView, ClientErrorView>(r@),
        Err(e) => expected == Err::<HttpRequestView, ClientErrorView>(e@),
    }
}

/// Lets an assembled request through, or says why it cannot go out.
pub fn check_request(request: HttpRequest, uri_ok: bool, headers_ok: bool) -> (result: Result<
    HttpRequest,
    ClientError,
>)
    ensures
        built_as(result, checked(request@, uri_ok, headers_ok)),
{
    if !uri_ok {
        Err(ClientError::InvalidUrl)
    } else if !headers_ok {
        Err(ClientError::SendFailed(String::from_str("invalid header")))
    } else {
        Ok(request)
    }
}

/// Whether every header of the list is accepted.
pub fn all_headers_accepted(headers: &Vec<(String, String)>) -> (accepted: bool)
    ensures
        accepted == headers_accepted(headers.deep_view()),
{
    let mut i: usize = 0;
    while i < headers.len()
        invariant
            i <= headers.len(),
            forall|j: int|
                0 <= j < i ==> header_accepted(
                    (#[trigger] headers.deep_view()[j]).0,
                    headers.deep_view()[j].1,
                ),
        decreases headers.len() - i,
    {
        assert(headers.deep_view()[i as int] == (headers[i as int].0@, headers[i as int].1@));
        if !accepts_header(headers[i].0.as_str(), headers[i].1.as_str()) {
            return false;
        }
        i += 1;
    }
    true
}

/// What building a request comes to: the assembled request where its URI and
/// all its headers can be written, and the reason otherwise.
pub open spec fn built(request: RequestView, config: ClientConfigurationView) -> Result<
    HttpRequestView,
    ClientErrorView,
> {
    checked(
        assembled(request, config),
        uri_accepted(request.url),
        headers_accepted(assembled(request, config).headers),
    )
}

/// Builds the outgoing request for what a caller asked, with the default
/// headers, and checks that it can be put on the wire.
pub fn build_http_request(request: Request, config: &ClientConfiguration) -> (result: Result<
    HttpRequest,
    ClientError,
>)
    ensures
        built_as(result, built(request@, config@)),
{
    let out = assemble_request(request, config);
    let uri_ok = accepts_uri(out.uri.as_str());
    let headers_ok = all_headers_accepted(&out.headers);
    check_request(out, uri_ok, headers_ok)
}

/// What came back for a request.
#[derive(Debug, Clone, PartialEq, Eq)]
pub struct Response {
    pub status: u16,
    pub headers: Vec<(String, String)>,
    pub body: Vec<u8>,
}

/// The mathematical value of a [`Response`].
pub struct ResponseView {
    pub status: u16,
    pub headers: HeaderSeq,
    pub body: Seq<u8>,
}

impl View for Response {
    type V = ResponseView;

    open spec fn view(&self) -> ResponseView {
        ResponseView { status: self.status, headers: self.headers.deep_view(), body: self.body@ }
    }
}

/// The response record for what was read off the wire.
pub fn build_http_response(status: u16, headers: Vec<(String, String)>, body: Vec<u8>) -> (result:
    Result<Response, ClientError>)
    ensures
        result is Ok,
        result->Ok_0@ == (ResponseView { status, headers: headers.deep_view(), body: body@ }),
{
    Ok(Response { status, headers, body })
}

} // verus!
