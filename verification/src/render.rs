//! The lines in which a request, its response and its connection are shown.
//!
//! Nothing is printed here: the caller gets the lines and writes them where it
//! likes.

use vstd::prelude::*;
use crate::headers::HeaderSeq;
use crate::protocols::ApiRequest;
use crate::protocols::ApiRequestView;
use crate::protocols::ApiResponse;
use crate::protocols::ApiResponseView;
use crate::target::Target;
use crate::target::TargetView;
use crate::text::append_decimal;
use crate::text::decimal;
use crate::tls::CertificateInfo;
use crate::tls::CertificateInfoView;

verus! {

/// How much the user wants to see.
#[derive(Debug, Clone, Copy, PartialEq, Eq, Structural)]
pub enum Verbosity {
    Quiet,
    Normal,
    Verbose,
    Debug,
}

/// The parts of the details that can be asked for.
#[derive(Debug, Clone, Copy, PartialEq, Eq, Hash, Structural)]
pub enum VerboseDetail {
    /// Every part that the verbosity allows.
    All,
    /// The request.
    RequestDetails,
    /// The response.
    ResponseDetails,
}

/// Which parts are shown.
#[derive(Debug, Clone, Copy, PartialEq, Eq, Structural)]
pub struct Sections {
    pub request: bool,
    pub response: bool,
}

/// The parts that are shown: none below the verbose level; at or above it the
/// request where all parts or the request is asked for, and the response
/// likewise.
pub open spec fn sections_of(verbosity: Verbosity, details: Seq<VerboseDetail>) -> Sections {
    let verbose = verbosity == Verbosity::Verbose || verbosity == Verbosity::Debug;
    Sections {
        request: verbose && (details.contains(VerboseDetail::All) || details.contains(
            VerboseDetail::RequestDetails,
        )),
        response: verbose && (details.contains(VerboseDetail::All) || details.contains(
            VerboseDetail::ResponseDetails,
        )),
    }
}

fn asks_for(details: &Vec<VerboseDetail>, wanted: VerboseDetail) -> (found: bool)
    ensures
        found == details@.contains(wanted),
{
    let mut i: usize = 0;
    while i < details.len()
        invariant
            i <= details.len(),
            forall|j: int| 0 <= j < i ==> details@[j] != wanted,
        decreases details.len() - i,
    {
        if details[i] == wanted {
            return true;
        }
        i += 1;
    }
    false
}

/// Which parts are shown for a verbosity and the details asked for.
pub fn sections(verbosity: Verbosity, details: &Vec<VerboseDetail>) -> (shown: Sections)
    ensures
        shown == sections_of(verbosity, details@),
{
    let verbose = match verbosity {
        Verbosity::Verbose => true,
        Verbosity::Debug => true,
        _ => false,
    };
    let all = asks_for(details, VerboseDetail::All);
    Sections {
        request: verbose && (all || asks_for(details, VerboseDetail::RequestDetails)),
        response: verbose && (all || asks_for(details, VerboseDetail::ResponseDetails)),
    }
}

/// One line per header: the mark, a space, the name, a colon and a space, the
/// value.
pub open spec fn header_lines_of(mark: Seq<char>, headers: HeaderSeq) -> Seq<Seq<char>> {
    Seq::new(headers.len(), |i: int| mark + " "@ + headers[i].0 + ": "@ + headers[i].1)
}

fn header_lines(mark: &str, headers: &Vec<(String, String)>) -> (lines: Vec<String>)
    ensures
        lines.deep_view() == header_lines_of(mark@, headers.deep_view()),
{
    let mut lines: Vec<String> = Vec::new();
    let mut i: usize = 0;
    while i < headers.len()
        invariant
            i <= headers.len(),
            lines.len() == i,
            forall|j: int|
                0 <= j < i ==> (#[trigger] lines[j])@ == mark@ + " "@ + headers[j].0@ + ": "@
                    + headers[j].1@,
        decreases headers.len() - i,
    {
        let mut line = String::from_str(mark);
        line.append(" ");
        line.append(headers[i].0.as_str());
        line.append(": ");
        line.append(headers[i].1.as_str());
        lines.push(line);
        i += 1;
    }
    assert(lines.deep_view() =~= header_lines_of(mark@, headers.deep_view()));
    lines
}

/// The request as it is shown: the request line, then its headers.
pub open spec fn request_lines_of(request: ApiRequestView) -> Seq<Seq<char>> {
    seq![">"@ + " "@ + request.method + " "@ + request.path + " "@ + request.version]
        + header_lines_of(
        ">"@,
        match request.headers {
            Some(h) => h,
            None => Seq::empty(),
        },
    )
}

/// The lines that show a request.
pub fn request_lines(request: &ApiRequest) -> (lines: Vec<String>)
    ensures
        lines.deep_view() == request_lines_of(request@),
{
    let mut first = String::from_str(">");
    first.append(" ");
    first.append(request.method.as_str());
    first.append(" ");
    first.append(request.path.as_str());
    first.append(" ");
    first.append(request.version.as_str());
    let mut lines: Vec<String> = Vec::new();
    lines.push(first);
    let ghost head = lines.deep_view();
    let mut rest = match &request.headers {
        Some(h) => header_lines(">", h),
        None => {
            let none: Vec<(String, String)> = Vec::new();
            assert(none.deep_view() =~= Seq::<(Seq<char>, Seq<char>)>::empty());
            header_lines(">", &none)
        },
    };
    let ghost tail = rest.deep_view();
    lines.append(&mut rest);
    assert(lines.deep_view() =~= head + tail);
    assert(head =~= seq![
        ">"@ + " "@ + request.method@ + " "@ + request.path@ + " "@ + request.version@,
    ]);
    lines
}

/// The response as it is shown: where the connection went, the version, the
/// time taken in milliseconds, the status line (with 0 for a status that is
/// not known), the headers, and a closing mark.
pub open spec fn response_lines_of(response: ApiResponseView) -> Seq<Seq<char>> {
    seq![
        "* Connected to unknown ("@ + (match response.ip {
            Some(ip) => ip,
            None => "unknown"@,
        }) + ")"@,
        "* HTTP Version: "@ + response.version,
        "* Request took: "@ + decimal(response.duration_ms as nat) + "ms"@,
        "<"@ + " "@ + response.path + " "@ + response.version + " "@ + decimal(
            (match response.status {
                Some(status) => status,
                None => 0,
            }) as nat,
        ),
    ] + header_lines_of(
        "<"@,
        match response.headers {
            Some(h) => h,
            None => Seq::empty(),
        },
    ) + seq!["<"@]
}

/// The lines that show a response.
pub fn response_lines(response: &ApiResponse) -> (lines: Vec<String>)
    ensures
        lines.deep_view() == response_lines_of(response@),
{
    let mut connected = String::from_str("* Connected to unknown (");
    match &response.ip {
        Some(ip) => connected.append(ip.as_str()),
        None => connected.append("unknown"),
    }
    connected.append(")");
    let mut version = String::from_str("* HTTP Version: ");
    version.append(response.version.as_str());
    let mut took = String::from_str("* Request took: ");
    append_decimal(&mut took, response.duration_ms);
    took.append("ms");
    let mut status = String::from_str("<");
    status.append(" ");
    status.append(response.path.as_str());
    status.append(" ");
    status.append(response.version.as_str());
    status.append(" ");
    let code: u16 = match response.status {
        Some(code) => code,
        None => 0,
    };
    append_decimal(&mut status, code as u64);
    let mut lines: Vec<String> = Vec::new();
    lines.push(connected);
    lines.push(version);
    lines.push(took);
    lines.push(status);
    let ghost head = lines.deep_view();
    let mut middle = match &response.headers {
        Some(h) => header_lines("<", h),
        None => {
            let none: Vec<(String, String)> = Vec::new();
            assert(none.deep_view() =~= Seq::<(Seq<char>, Seq<char>)>::empty());
            header_lines("<", &none)
        },
    };
    let ghost tail = middle.deep_view();
    lines.append(&mut middle);
    lines.push(String::from_str("<"));
    assert(lines.deep_view() =~= head + tail + seq!["<"@]);
    assert(head.len() == 4);
    assert(head =~= seq![head[0], head[1], head[2], head[3]]);
    lines
}

/// A certificate as it is shown.
pub open spec fn certificate_lines_of(info: CertificateInfoView) -> Seq<Seq<char>> {
    seq![
        "Certificate Version: "@ + info.version,
        "Certificate Issuer: "@ + info.issuer,
        "Certificate Subject: "@ + info.subject,
        "Certificate Validity: From "@ + info.valid_from + " until "@ + info.valid_until,
        "..."@,
    ]
}

/// The lines that show a certificate of the peer's chain.
pub fn certificate_lines(info: &CertificateInfo) -> (lines: Vec<String>)
    ensures
        lines.deep_view() == certificate_lines_of(info@),
{
    let mut version = String::from_str("Certificate Version: ");
    version.append(info.version.as_str());
    let mut issuer = String::from_str("Certificate Issuer: ");
    issuer.append(info.issuer.as_str());
    let mut subject = String::from_str("Certificate Subject: ");
    subject.append(info.subject.as_str());
    let mut validity = String::from_str("Certificate Validity: From ");
    validity.append(info.valid_from.as_str());
    validity.append(" until ");
    validity.append(info.valid_until.as_str());
    let mut lines: Vec<String> = Vec::new();
    lines.push(version);
    lines.push(issuer);
    lines.push(subject);
    lines.push(validity);
    lines.push(String::from_str("..."));
    assert(lines.deep_view() =~= certificate_lines_of(info@));
    lines
}

/// What is known of an open transport. It is shown to the user and decides
/// nothing.
#[derive(Debug, Clone, PartialEq, Eq)]
pub struct TransportInfo {
    pub local_address: String,
    pub peer_address: String,
    pub ttl: u32,
    pub nodelay: bool,
}

/// The mathematical value of a [`TransportInfo`].
pub struct TransportInfoView {
    pub local_address: Seq<char>,
    pub peer_address: Seq<char>,
    pub ttl: u32,
    pub nodelay: bool,
}

impl View for TransportInfo {
    type V = TransportInfoView;

    open spec fn view(&self) -> TransportInfoView {
        TransportInfoView {
            local_address: self.local_address@,
            peer_address: self.peer_address@,
            ttl: self.ttl,
            nodelay: self.nodelay,
        }
    }
}

/// An open transport as it is shown.
pub open spec fn transport_lines_of(target: TargetView, info: TransportInfoView) -> Seq<Seq<char>> {
    seq![
        "Connected to "@ + target.host + ":"@ + decimal(target.port as nat) + " via "@
            + target.scheme.spec_name(),
        "Local address: "@ + info.local_address,
        "Peer address: "@ + info.peer_address,
        "Socket TTL: "@ + decimal(info.ttl as nat),
        "Nodelay setting: "@ + (if info.nodelay {
            "true"@
        } else {
            "false"@
        }),
    ]
}

/// The lines that show an open transport.
pub fn transport_lines(target: &Target, info: &TransportInfo) -> (lines: Vec<String>)
    ensures
        lines.deep_view() == transport_lines_of(target@, info@),
{
    let mut connected = String::from_str("Connected to ");
    connected.append(target.host());
    connected.append(":");
    append_decimal(&mut connected, target.port() as u64);
    connected.append(" via ");
    connected.append(target.scheme().name());
    let mut local = String::from_str("Local address: ");
    local.append(info.local_address.as_str());
    let mut peer = String::from_str("Peer address: ");
    peer.append(info.peer_address.as_str());
    let mut ttl = String::from_str("Socket TTL: ");
    append_decimal(&mut ttl, info.ttl as u64);
    let mut nodelay = String::from_str("Nodelay setting: ");
    if info.nodelay {
        nodelay.append("true");
    } else {
        nodelay.append("false");
    }
    let mut lines: Vec<String> = Vec::new();
    lines.push(connected);
    lines.push(local);
    lines.push(peer);
    lines.push(ttl);
    lines.push(nodelay);
    assert(lines.deep_view() =~= transport_lines_of(target@, info@));
    lines
}

} // verus!
