//! The upgrade of a cleartext HTTP/1.1 connection to HTTP/2.
//!
//! The upgrade is a state machine that performs no I/O. It is begun on a
//! connection whose HTTP/1.1 preface has just succeeded, with the request the
//! caller really wants to make. A probe is sent first; what the peer answers
//! decides whether the same transport goes on as HTTP/2 or stays HTTP/1.1.

use vstd::prelude::*;
use crate::dispatch::lemma_free_connection_serves;
use crate::dispatch::Admission;
use crate::dispatch::DispatcherView;
use crate::error::ClientError;
use crate::error::ClientErrorView;
use crate::handshake::handshake_plan;
use crate::handshake::plan_of;
use crate::handshake::ConnectionHandle;
use crate::handshake::ConnectionHandleView;
use crate::handshake::HandshakePlan;
use crate::headers::copy_headers;
use crate::headers::HeaderSeq;
use crate::protocols::NegotiatedProtocol;
use crate::protocols::Version;
use crate::request::HttpRequest;
use crate::request::HttpRequestView;
use crate::request::Method;
use crate::request::ResponseView;

verus! {

/// The status with which a peer accepts the upgrade: 101 Switching Protocols.
pub const SWITCHING_PROTOCOLS: u16 = 101;

/// How far an upgrade has come.
#[derive(Debug, Clone, Copy, PartialEq, Eq, Structural)]
pub enum UpgradeState {
    /// The HTTP/1.1 connection stands; the probe is not written yet.
    Init,
    /// The probe is written; the peer's answer is awaited.
    ProbeSent,
    /// The peer switched protocols; the HTTP/2 preface is under way on the
    /// same transport.
    Accepted,
    /// The peer declined. The connection stays HTTP/1.1. This is no failure.
    Rejected,
    /// The connection now speaks HTTP/2 over the transport it began on.
    Reestablished,
    /// I/O broke during the probe or the switch. The connection is given up.
    Failed,
}

impl UpgradeState {
    /// Whether the upgrade has ended.
    pub open spec fn is_terminal(self) -> bool {
        self is Rejected || self is Reestablished || self is Failed
    }

    /// The protocol of the connection that an ended upgrade leaves: HTTP/1.1
    /// where the peer declined, HTTP/2 where the switch was made, none where
    /// the upgrade failed.
    pub open spec fn spec_outcome(self) -> Option<NegotiatedProtocol> {
        match self {
            UpgradeState::Rejected => Some(NegotiatedProtocol::Http1),
            UpgradeState::Reestablished => Some(NegotiatedProtocol::Http2),
            _ => None,
        }
    }

    /// The protocol of the connection that an ended upgrade leaves.
    pub fn outcome(self) -> (protocol: Option<NegotiatedProtocol>)
        ensures
            protocol == self.spec_outcome(),
    {
        match self {
            UpgradeState::Rejected => Some(NegotiatedProtocol::Http1),
            UpgradeState::Reestablished => Some(NegotiatedProtocol::Http2),
            _ => None,
        }
    }
}

/// What the caller observed.
#[derive(Debug, Clone, PartialEq, Eq)]
pub enum UpgradeEvent {
    /// The probe has been written to the connection.
    ProbeWritten,
    /// The peer answered the probe with this status.
    ProbeAnswered(u16),
    /// The HTTP/2 preface on the upgraded stream succeeded.
    SwitchDone,
    /// Reading or writing failed.
    IoFailed(String),
}

/// The mathematical value of an [`UpgradeEvent`].
pub enum UpgradeEventView {
    ProbeWritten,
    ProbeAnswered(u16),
    SwitchDone,
    IoFailed(Seq<char>),
}

impl View for UpgradeEvent {
    type V = UpgradeEventView;

    open spec fn view(&self) -> UpgradeEventView {
        match self {
            UpgradeEvent::ProbeWritten => UpgradeEventView::ProbeWritten,
            UpgradeEvent::ProbeAnswered(status) => UpgradeEventView::ProbeAnswered(*status),
            UpgradeEvent::SwitchDone => UpgradeEventView::SwitchDone,
            UpgradeEvent::IoFailed(r) => UpgradeEventView::IoFailed(r@),
        }
    }
}

/// What the caller is to do next.
#[derive(Debug, PartialEq, Eq)]
pub enum UpgradeAction {
    /// Write this probe to the HTTP/1.1 connection.
    SendProbe(HttpRequest),
    /// Wait for the peer's answer to the probe.
    AwaitAnswer,
    /// Detach the byte stream from the HTTP/1.1 driver and perform this
    /// preface on it. No new transport is opened.
    SwitchProtocols(HandshakePlan),
    /// The connection stays HTTP/1.1: make the request on it.
    KeepHttp1 { request: HttpRequest },
    /// The connection speaks HTTP/2 from now on, through this handle: submit
    /// `probe` again as its first stream, and make `request` after it.
    UseHttp2 { handle: ConnectionHandle, probe: HttpRequest, request: HttpRequest },
    /// Give the connection up with this failure.
    Abort(ClientError),
    /// The event was not one the upgrade waits for; nothing changed.
    Ignore,
}

/// The mathematical value of an [`UpgradeAction`].
pub enum UpgradeActionView {
    SendProbe(HttpRequestView),
    AwaitAnswer,
    SwitchProtocols(HandshakePlan),
    KeepHttp1 { request: HttpRequestView },
    UseHttp2 { handle: ConnectionHandleView, probe: HttpRequestView, request: HttpRequestView },
    Abort(ClientErrorView),
    Ignore,
}

impl View for UpgradeAction {
    type V = UpgradeActionView;

    open spec fn view(&self) -> UpgradeActionView {
        match self {
            UpgradeAction::SendProbe(r) => UpgradeActionView::SendProbe(r@),
            UpgradeAction::AwaitAnswer => UpgradeActionView::AwaitAnswer,
            UpgradeAction::SwitchProtocols(plan) => UpgradeActionView::SwitchProtocols(*plan),
            UpgradeAction::KeepHttp1 { request } => UpgradeActionView::KeepHttp1 {
                request: request@,
            },
            UpgradeAction::UseHttp2 { handle, probe, request } => UpgradeActionView::UseHttp2 {
                handle: handle@,
                probe: probe@,
                request: request@,
            },
            UpgradeAction::Abort(e) => UpgradeActionView::Abort(e@),
            UpgradeAction::Ignore => UpgradeActionView::Ignore,
        }
    }
}

/// The three headers that ask for the upgrade. The settings payload is empty.
pub open spec fn upgrade_headers() -> HeaderSeq {
    seq![
        ("connection"@, "Upgrade, HTTP2-Settings"@),
        ("upgrade"@, "h2c"@),
        ("http2-settings"@, ""@),
    ]
}

/// The probe for a request: an `OPTIONS` on the same URI over HTTP/1.1, with
/// the request's headers and, after them, the three that ask for the upgrade.
pub open spec fn probe_of(wanted: HttpRequestView) -> HttpRequestView {
    HttpRequestView {
        method: Method::Options,
        uri: wanted.uri,
        version: Version::Http11,
        headers: wanted.headers + upgrade_headers(),
    }
}

/// The probe as it is submitted again on the HTTP/2 connection: the same
/// method and URI, with the request's headers and without the three that
/// asked for the upgrade, which have no place there.
pub open spec fn resubmitted_probe_of(wanted: HttpRequestView) -> HttpRequestView {
    HttpRequestView {
        method: Method::Options,
        uri: wanted.uri,
        version: Version::Http2,
        headers: wanted.headers,
    }
}

/// A request as it is made on an HTTP/2 connection: the same method, URI and
/// headers.
pub open spec fn over_http2(request: HttpRequestView) -> HttpRequestView {
    HttpRequestView {
        method: request.method,
        uri: request.uri,
        version: Version::Http2,
        headers: request.headers,
    }
}

/// The mathematical value of an [`Upgrade`].
pub struct UpgradeView {
    pub state: UpgradeState,
    /// The request the caller wants to make. It never changes.
    pub wanted: HttpRequestView,
}

impl UpgradeView {
    /// An upgrade that has not written its probe yet.
    pub open spec fn initial(wanted: HttpRequestView) -> UpgradeView {
        UpgradeView { state: UpgradeState::Init, wanted }
    }

    /// The same upgrade in another state.
    pub open spec fn at(self, state: UpgradeState) -> UpgradeView {
        UpgradeView { state, wanted: self.wanted }
    }

    /// One step: the state after `event`, and what to do next.
    ///
    /// Status 101 accepts the upgrade; every other status declines it, and the
    /// request is then made over HTTP/1.1. A failure of I/O before the upgrade
    /// has ended gives the connection up. An event that the current state does
    /// not wait for changes nothing.
    pub open spec fn step(self, event: UpgradeEventView) -> (UpgradeView, UpgradeActionView) {
        match (self.state, event) {
            (UpgradeState::Init, UpgradeEventView::ProbeWritten) => (
                self.at(UpgradeState::ProbeSent),
                UpgradeActionView::AwaitAnswer,
            ),
            (UpgradeState::ProbeSent, UpgradeEventView::ProbeAnswered(status)) => {
                if status == 101 {
                    (
                        self.at(UpgradeState::Accepted),
                        UpgradeActionView::SwitchProtocols(plan_of(NegotiatedProtocol::Http2)),
                    )
                } else {
                    (
                        self.at(UpgradeState::Rejected),
                        UpgradeActionView::KeepHttp1 { request: self.wanted },
                    )
                }
            },
            (UpgradeState::Accepted, UpgradeEventView::SwitchDone) => (
                self.at(UpgradeState::Reestablished),
                UpgradeActionView::UseHttp2 {
                    handle: ConnectionHandleView::established(NegotiatedProtocol::Http2),
                    probe: resubmitted_probe_of(self.wanted),
                    request: over_http2(self.wanted),
                },
            ),
            (UpgradeState::Init, UpgradeEventView::IoFailed(reason)) => (
                self.at(UpgradeState::Failed),
                UpgradeActionView::Abort(ClientErrorView::UpgradeFailed(reason)),
            ),
            (UpgradeState::ProbeSent, UpgradeEventView::IoFailed(reason)) => (
                self.at(UpgradeState::Failed),
                UpgradeActionView::Abort(ClientErrorView::UpgradeFailed(reason)),
            ),
            (UpgradeState::Accepted, UpgradeEventView::IoFailed(reason)) => (
                self.at(UpgradeState::Failed),
                UpgradeActionView::Abort(ClientErrorView::UpgradeFailed(reason)),
            ),
            _ => (self, UpgradeActionView::Ignore),
        }
    }

    /// The state after a run of events.
    pub open spec fn run(self, events: Seq<UpgradeEventView>) -> UpgradeView
        decreases events.len(),
    {
        if events.len() == 0 {
            self
        } else {
            self.run(events.drop_last()).step(events.last()).0
        }
    }
}

/// A peer that answers the probe with anything but 101 declines the upgrade:
/// the connection stays HTTP/1.1, nothing has failed, and the request that the
/// caller wanted is made on it unchanged.
pub proof fn lemma_declined_upgrade_keeps_http1(wanted: HttpRequestView, status: u16)
    requires
        status != 101,
    ensures
        ({
            let sent = UpgradeView::initial(wanted).step(UpgradeEventView::ProbeWritten).0;
            let (end, action) = sent.step(UpgradeEventView::ProbeAnswered(status));
            &&& sent.state == UpgradeState::ProbeSent
            &&& end.state == UpgradeState::Rejected
            &&& end.state.spec_outcome() == Some(NegotiatedProtocol::Http1)
            &&& action == (UpgradeActionView::KeepHttp1 { request: wanted })
        }),
{
}

/// A declined upgrade does not stand in the way of the request. On the
/// HTTP/1.1 connection that the probe was answered on, open and with its
/// sender free again, the caller is admitted at once with the request it
/// wanted, and the response that comes back for it is the one it gets.
pub proof fn lemma_declined_upgrade_lets_the_request_through(
    wanted: HttpRequestView,
    status: u16,
    connection: DispatcherView,
    caller: u64,
    response: ResponseView,
)
    requires
        status != 101,
        connection.handle.protocol() == NegotiatedProtocol::Http1,
        connection.handle.is_open(),
        connection.holder is None,
    ensures
        ({
            let sent = UpgradeView::initial(wanted).step(UpgradeEventView::ProbeWritten).0;
            let (end, action) = sent.step(UpgradeEventView::ProbeAnswered(status));
            &&& end.state.spec_outcome() == Some(connection.handle.protocol())
            &&& action == (UpgradeActionView::KeepHttp1 { request: wanted })
            &&& connection.admission(caller) == Ok::<Admission, ClientErrorView>(Admission::Proceed)
            &&& connection.acquire(caller).completion(caller, Ok(response)) == Ok::<
                ResponseView,
                ClientErrorView,
            >(response)
            &&& connection.acquire(caller).release(caller).handle == connection.handle
        }),
{
    lemma_declined_upgrade_keeps_http1(wanted, status);
    lemma_free_connection_serves(connection, caller, response);
}

/// Whatever the caller observes, the request that an upgrade was begun with is
/// never altered.
pub proof fn lemma_upgrade_keeps_request(wanted: HttpRequestView, events: Seq<UpgradeEventView>)
    ensures
        UpgradeView::initial(wanted).run(events).wanted == wanted,
    decreases events.len(),
{
    if events.len() > 0 {
        lemma_upgrade_keeps_request(wanted, events.drop_last());
    }
}

/// An upgrade that has ended stays as it is, whatever is observed afterwards.
pub proof fn lemma_ended_upgrade_is_final(state: UpgradeView, event: UpgradeEventView)
    requires
        state.state.is_terminal(),
    ensures
        state.step(event) == (state, UpgradeActionView::Ignore),
{
}

/// The probe that is submitted again on the HTTP/2 connection is the probe
/// that was sent: the same method and URI, and the probe's headers but for the
/// three that asked for the upgrade.
pub proof fn lemma_resubmitted_probe(wanted: HttpRequestView)
    ensures
        resubmitted_probe_of(wanted).method == probe_of(wanted).method,
        resubmitted_probe_of(wanted).uri == probe_of(wanted).uri,
        probe_of(wanted).headers == resubmitted_probe_of(wanted).headers + upgrade_headers(),
        resubmitted_probe_of(wanted).headers == over_http2(wanted).headers,
{
}

/// The probe for a request.
pub fn probe_request(wanted: &HttpRequest) -> (probe: HttpRequest)
    ensures
        probe@ == probe_of(wanted@),
{
    let mut headers = copy_headers(&wanted.headers);
    let ghost kept = headers.deep_view();
    headers.push((String::from_str("connection"), String::from_str("Upgrade, HTTP2-Settings")));
    headers.push((String::from_str("upgrade"), String::from_str("h2c")));
    headers.push((String::from_str("http2-settings"), String::from_str("")));
    assert(headers.deep_view() =~= kept + upgrade_headers());
    HttpRequest {
        method: Method::Options,
        uri: wanted.uri.clone(),
        version: Version::Http11,
        headers,
    }
}

/// The probe as it is submitted again on the HTTP/2 connection.
pub fn resubmitted_probe(wanted: &HttpRequest) -> (probe: HttpRequest)
    ensures
        probe@ == resubmitted_probe_of(wanted@),
{
    HttpRequest {
        method: Method::Options,
        uri: wanted.uri.clone(),
        version: Version::Http2,
        headers: copy_headers(&wanted.headers),
    }
}

/// A request as it is made on an HTTP/2 connection.
pub fn request_over_http2(request: &HttpRequest) -> (out: HttpRequest)
    ensures
        out@ == over_http2(request@),
{
    HttpRequest {
        method: request.method,
        uri: request.uri.clone(),
        version: Version::Http2,
        headers: copy_headers(&request.headers),
    }
}

/// Whether the cleartext upgrade applies: only without TLS, and only where the
/// caller wants HTTP/2.
pub fn upgrade_applies(use_tls: bool, want_http2: bool) -> (applies: bool)
    ensures
        applies == (!use_tls && want_http2),
{
    !use_tls && want_http2
}

/// One attempt to upgrade a cleartext connection.
#[derive(Debug)]
pub struct Upgrade {
    state: UpgradeState,
    wanted: HttpRequest,
}

impl View for Upgrade {
    type V = UpgradeView;

    closed spec fn view(&self) -> UpgradeView {
        UpgradeView { state: self.state, wanted: self.wanted@ }
    }
}

impl Upgrade {
    /// Begins an upgrade on a connection whose HTTP/1.1 preface has just
    /// succeeded. The first thing to do is to write the probe.
    pub fn begin(wanted: HttpRequest) -> (begun: (Upgrade, UpgradeAction))
        ensures
            begun.0@ == UpgradeView::initial(wanted@),
            begun.1@ == UpgradeActionView::SendProbe(probe_of(wanted@)),
    {
        let probe = probe_request(&wanted);
        (Upgrade { state: UpgradeState::Init, wanted }, UpgradeAction::SendProbe(probe))
    }

    /// How far the upgrade has come.
    pub fn state(&self) -> (state: UpgradeState)
        ensures
            state == self@.state,
    {
        self.state
    }

    /// The request the caller wants to make.
    pub fn wanted(&self) -> (request: &HttpRequest)
        ensures
            request@ == self@.wanted,
    {
        &self.wanted
    }

    /// Takes what the caller observed and says what to do next.
    pub fn advance(&mut self, event: UpgradeEvent) -> (action: UpgradeAction)
        ensures
            final(self)@ == old(self)@.step(event@).0,
            action@ == old(self)@.step(event@).1,
    {
        match (self.state, event) {
            (UpgradeState::Init, UpgradeEvent::ProbeWritten) => {
                self.state = UpgradeState::ProbeSent;
                UpgradeAction::AwaitAnswer
            },
            (UpgradeState::ProbeSent, UpgradeEvent::ProbeAnswered(status)) => {
                if status == SWITCHING_PROTOCOLS {
                    self.state = UpgradeState::Accepted;
                    UpgradeAction::SwitchProtocols(handshake_plan(NegotiatedProtocol::Http2))
                } else {
                    self.state = UpgradeState::Rejected;
                    UpgradeAction::KeepHttp1 { request: self.wanted.duplicate() }
                }
            },
            (UpgradeState::Accepted, UpgradeEvent::SwitchDone) => {
                self.state = UpgradeState::Reestablished;
                UpgradeAction::UseHttp2 {
                    handle: ConnectionHandle::established(NegotiatedProtocol::Http2),
                    probe: resubmitted_probe(&self.wanted),
                    request: request_over_http2(&self.wanted),
                }
            },
            (UpgradeState::Init, UpgradeEvent::IoFailed(reason)) => {
                self.state = UpgradeState::Failed;
                UpgradeAction::Abort(ClientError::UpgradeFailed(reason))
            },
            (UpgradeState::ProbeSent, UpgradeEvent::IoFailed(reason)) => {
                self.state = UpgradeState::Failed;
                UpgradeAction::Abort(ClientError::UpgradeFailed(reason))
            },
            (UpgradeState::Accepted, UpgradeEvent::IoFailed(reason)) => {
                self.state = UpgradeState::Failed;
                UpgradeAction::Abort(ClientError::UpgradeFailed(reason))
            },
            _ => UpgradeAction::Ignore,
        }
    }
}

} // verus!
