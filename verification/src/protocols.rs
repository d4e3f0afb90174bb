//! The protocols a request can be made over, and the records handed to the
//! caller once a request is done.

use vstd::prelude::*;

verus! {

/// The protocol families the tool knows by name.
#[derive(Debug, Clone, Copy, PartialEq, Eq, Structural)]
pub enum Protocol {
    Http1,
    Http2,
    Http3,
    Grpc,
    Websockets,
}

/// The HTTP version that a caller asks for.
#[derive(Debug, Clone, Copy, PartialEq, Eq, Structural)]
pub enum HttpVersion {
    Http1,
    Http2,
    Http3,
}

impl HttpVersion {
    /// The protocol family of the version.
    pub open spec fn spec_protocol(self) -> Protocol {
        match self {
            HttpVersion::Http1 => Protocol::Http1,
            HttpVersion::Http2 => Protocol::Http2,
            HttpVersion::Http3 => Protocol::Http3,
        }
    }

    /// The protocol family of the version.
    pub fn protocol(self) -> (protocol: Protocol)
        ensures
            protocol == self.spec_protocol(),
    {
        match self {
            HttpVersion::Http1 => Protocol::Http1,
            HttpVersion::Http2 => Protocol::Http2,
            HttpVersion::Http3 => Protocol::Http3,
        }
    }
}

/// The HTTP version that a connection speaks once it is negotiated.
///
/// It is fixed once per connection attempt, from the TLS ALPN answer or from
/// the outcome of the cleartext upgrade.
#[derive(Debug, Clone, Copy, PartialEq, Eq, Structural)]
pub enum NegotiatedProtocol {
    Http1,
    Http2,
}

impl NegotiatedProtocol {
    /// The version written on the wire by a connection of this protocol.
    pub open spec fn spec_version(self) -> Version {
        match self {
            NegotiatedProtocol::Http1 => Version::Http11,
            NegotiatedProtocol::Http2 => Version::Http2,
        }
    }

    /// The protocol family of the connection.
    pub open spec fn spec_protocol(self) -> Protocol {
        match self {
            NegotiatedProtocol::Http1 => Protocol::Http1,
            NegotiatedProtocol::Http2 => Protocol::Http2,
        }
    }

    /// The version written on the wire by a connection of this protocol.
    pub fn version(self) -> (version: Version)
        ensures
            version == self.spec_version(),
    {
        match self {
            NegotiatedProtocol::Http1 => Version::Http11,
            NegotiatedProtocol::Http2 => Version::Http2,
        }
    }

    /// The protocol family of the connection.
    pub fn protocol(self) -> (protocol: Protocol)
        ensures
            protocol == self.spec_protocol(),
    {
        match self {
            NegotiatedProtocol::Http1 => Protocol::Http1,
            NegotiatedProtocol::Http2 => Protocol::Http2,
        }
    }
}

/// The version of an HTTP message.
#[derive(Debug, Clone, Copy, PartialEq, Eq, Structural)]
pub enum Version {
    Http09,
    Http10,
    Http11,
    Http2,
    Http3,
    /// A version this crate has no name for.
    Other,
}

/// The text that names a message version.
pub open spec fn version_text(version: Version) -> Seq<char> {
    match version {
        Version::Http09 => "HTTP/0.9"@,
        Version::Http10 => "HTTP/1.0"@,
        Version::Http11 => "HTTP/1.1"@,
        Version::Http2 => "HTTP/2"@,
        Version::Http3 => "HTTP/3"@,
        Version::Other => "UNKNOWN_HTTP_VERSION"@,
    }
}

/// The text that names a message version, as it is shown to the user.
pub fn version_to_string(version: Version) -> (text: String)
    ensures
        text@ == version_text(version),
{
    let text = match version {
        Version::Http09 => "HTTP/0.9",
        Version::Http10 => "HTTP/1.0",
        Version::Http11 => "HTTP/1.1",
        Version::Http2 => "HTTP/2",
        Version::Http3 => "HTTP/3",
        Version::Other => "UNKNOWN_HTTP_VERSION",
    };
    String::from_str(text)
}

/// The request as it is reported to the caller for display.
#[derive(Debug, Clone, PartialEq, Eq)]
pub struct ApiRequest {
    pub headers: Option<Vec<(String, String)>>,
    pub method: String,
    pub path: String,
    pub version: String,
}

/// The response as it is reported to the caller for display.
#[derive(Debug, Clone, PartialEq, Eq)]
pub struct ApiResponse {
    pub path: String,
    pub protocol: Protocol,
    pub status: Option<u16>,
    pub headers: Option<Vec<(String, String)>>,
    pub body: Option<Vec<u8>>,
    pub version: String,
    /// The peer's address as text, where it is known.
    pub ip: Option<String>,
    /// The time the request took, in milliseconds.
    pub duration_ms: u64,
}

/// The mathematical value of an [`ApiRequest`].
pub struct ApiRequestView {
    pub headers: Option<Seq<(Seq<char>, Seq<char>)>>,
    pub method: Seq<char>,
    pub path: Seq<char>,
    pub version: Seq<char>,
}

impl View for ApiRequest {
    type V = ApiRequestView;

    open spec fn view(&self) -> ApiRequestView {
        ApiRequestView {
            headers: self.headers.deep_view(),
            method: self.method@,
            path: self.path@,
            version: self.version@,
        }
    }
}

/// The mathematical value of an [`ApiResponse`].
pub struct ApiResponseView {
    pub path: Seq<char>,
    pub protocol: Protocol,
    pub status: Option<u16>,
    pub headers: Option<Seq<(Seq<char>, Seq<char>)>>,
    pub body: Option<Seq<u8>>,
    pub version: Seq<char>,
    pub ip: Option<Seq<char>>,
    pub duration_ms: u64,
}

impl View for ApiResponse {
    type V = ApiResponseView;

    open spec fn view(&self) -> ApiResponseView {
        ApiResponseView {
            path: self.path@,
            protocol: self.protocol,
            status: self.status,
            headers: self.headers.deep_view(),
            body: match self.body {
                Some(b) => Some(b@),
                None => None,
            },
            version: self.version@,
            ip: self.ip.deep_view(),
            duration_ms: self.duration_ms,
        }
    }
}

} // verus!
