//! The HTTP way of making the one request the tool is asked for.

use vstd::prelude::*;
use crate::client::pending_as;
use crate::client::ClientBuilder;
use crate::client::ClientBuilderView;
use crate::client::PendingClient;
use crate::error::ClientError;
use crate::headers::copy_headers;
use crate::protocols::version_text;
use crate::protocols::version_to_string;
use crate::protocols::ApiRequest;
use crate::protocols::ApiRequestView;
use crate::protocols::ApiResponse;
use crate::protocols::ApiResponseView;
use crate::protocols::HttpVersion;
use crate::protocols::NegotiatedProtocol;
use crate::request::HttpRequest;
use crate::request::HttpRequestView;
use crate::request::Response;
use crate::request::ResponseView;
use crate::tls::server_name_accepted;

verus! {

/// A client for one HTTP version.
#[derive(Debug, Clone, Copy, PartialEq, Eq, Structural)]
pub struct HttpClient {
    pub version: HttpVersion,
}

impl HttpClient {
    /// Whether the connection is to speak HTTP/2: where a version above
    /// HTTP/1 is asked for, or the cleartext upgrade is.
    pub open spec fn spec_wants_http2(self, h2c: bool) -> bool {
        h2c || self.version != HttpVersion::Http1
    }

    /// The builder that a request to `url` starts from.
    pub open spec fn spec_builder(self, url: Seq<char>, h2c: bool) -> ClientBuilderView {
        ClientBuilderView {
            base_url: Some(url),
            http1_only: !self.spec_wants_http2(h2c),
            ..ClientBuilderView::fresh()
        }
    }

    /// The request as it is reported for display.
    pub open spec fn reported_request(url: Seq<char>, request: HttpRequestView) -> ApiRequestView {
        ApiRequestView {
            headers: Some(request.headers),
            method: request.method.spec_name(),
            path: url,
            version: version_text(request.version),
        }
    }

    /// The response as it is reported for display: what came back, with the
    /// protocol that was really negotiated.
    pub open spec fn reported_response(
        url: Seq<char>,
        response: ResponseView,
        negotiated: NegotiatedProtocol,
        ip: Option<Seq<char>>,
        duration_ms: u64,
    ) -> ApiResponseView {
        ApiResponseView {
            path: url,
            protocol: negotiated.spec_protocol(),
            status: Some(response.status),
            headers: Some(response.headers),
            body: Some(response.body),
            version: version_text(negotiated.spec_version()),
            ip,
            duration_ms,
        }
    }

    /// Whether the connection is to speak HTTP/2.
    pub fn wants_http2(&self, h2c: bool) -> (wanted: bool)
        ensures
            wanted == self.spec_wants_http2(h2c),
    {
        let above_http1 = match self.version {
            HttpVersion::Http1 => false,
            HttpVersion::Http2 => true,
            HttpVersion::Http3 => true,
        };
        h2c || above_http1
    }

    /// The builder that a request to `url` starts from.
    pub fn builder(&self, url: &str, h2c: bool) -> (builder: ClientBuilder)
        ensures
            builder@ == self.spec_builder(url@, h2c),
    {
        let builder = ClientBuilder::new().base_url(url);
        if self.wants_http2(h2c) {
            builder
        } else {
            builder.http1_only()
        }
    }

    /// Resolves the URL and begins the negotiation of the connection for one
    /// request. Nothing is opened yet.
    pub fn plan(&self, url: &str, h2c: bool) -> (result: Result<PendingClient, ClientError>)
        ensures
            pending_as(
                result,
                self.spec_builder(url@, h2c).configuration(
                    self.spec_builder(url@, h2c).parsed_base(),
                ),
                self.spec_builder(url@, h2c).options(),
                match result {
                    Ok(pending) => server_name_accepted(pending.config@.target.host),
                    Err(_) => false,
                },
            ),
    {
        self.builder(url, h2c).build()
    }

    /// The records handed to the caller once the request is done.
    pub fn report(
        &self,
        url: &str,
        request: &HttpRequest,
        response: Response,
        negotiated: NegotiatedProtocol,
        ip: Option<String>,
        duration_ms: u64,
    ) -> (records: (ApiRequest, ApiResponse))
        ensures
            records.0@ == Self::reported_request(url@, request@),
            records.1@ == Self::reported_response(
                url@,
                response@,
                negotiated,
                ip.deep_view(),
                duration_ms,
            ),
    {
        let api_request = ApiRequest {
            headers: Some(copy_headers(&request.headers)),
            method: String::from_str(request.method.as_str()),
            path: String::from_str(url),
            version: version_to_string(request.version),
        };
        let api_response = ApiResponse {
            path: String::from_str(url),
            protocol: negotiated.protocol(),
            status: Some(response.status),
            headers: Some(response.headers),
            body: Some(response.body),
            version: version_to_string(negotiated.version()),
            ip,
            duration_ms,
        };
        (api_request, api_response)
    }
}

} // verus!
