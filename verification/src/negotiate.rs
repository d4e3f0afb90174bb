//! The negotiation of one connection, from the first byte stream to a handle.
//!
//! The negotiation is a state machine. It never performs I/O: each step takes
//! what the caller observed (the transport opened, the TLS session came up with
//! this ALPN answer, the preface failed) and says what to do next. The order is
//! fixed: transport, then TLS where the target asks for it, then the HTTP
//! preface.

use vstd::prelude::*;
use crate::error::ClientError;
use crate::error::ClientErrorView;
use crate::handshake::handshake_plan;
use crate::handshake::plan_of;
use crate::handshake::ConnectionHandle;
use crate::handshake::ConnectionHandleView;
use crate::handshake::HandshakePlan;
use crate::protocols::NegotiatedProtocol;
use crate::target::Scheme;
use crate::target::Target;
use crate::target::TargetView;
use crate::text::lemma_bytes_deep_view;
use crate::tls::accepts_server_name;
use crate::tls::alpn_h2;
use crate::tls::alpn_http11;
use crate::tls::lemma_protocol_follows_alpn;
use crate::tls::protocol_of_alpn;
use crate::tls::select_protocol;
use crate::tls::server_name_accepted;
use crate::tls::settings_from_check;
use crate::tls::settings_of;
use crate::tls::AlpnPolicy;
use crate::tls::TlsSettings;
use crate::tls::TlsSettingsView;

verus! {

/// What the caller wants of the connection.
#[derive(Debug, Clone, Copy, PartialEq, Eq, Structural)]
pub struct ConnectOptions {
    /// Whether HTTP/2 is asked for: by ALPN over TLS, by upgrade over cleartext.
    pub want_http2: bool,
    /// What to do when TLS does not answer with `h2` although it was asked for.
    pub policy: AlpnPolicy,
}

/// How far a negotiation has come.
#[derive(Debug, Clone, Copy, PartialEq, Eq, Structural)]
pub enum Phase {
    /// The byte stream to the target is being opened.
    Connecting,
    /// The TLS handshake is under way.
    SecuringTransport,
    /// The HTTP preface of the given protocol is under way.
    Handshaking(NegotiatedProtocol),
    /// The connection stands and speaks the given protocol.
    Established(NegotiatedProtocol),
    /// The negotiation was given up.
    Failed,
}

/// What the caller observed.
#[derive(Debug, Clone, PartialEq, Eq)]
pub enum ConnectEvent {
    TransportOpened,
    TransportFailed(String),
    /// The TLS session is up; the peer's ALPN answer, if it gave one.
    TlsEstablished(Option<Vec<u8>>),
    TlsFailed(String),
    HandshakeDone,
    HandshakeFailed(String),
}

/// The mathematical value of a [`ConnectEvent`].
pub enum ConnectEventView {
    TransportOpened,
    TransportFailed(Seq<char>),
    TlsEstablished(Option<Seq<u8>>),
    TlsFailed(Seq<char>),
    HandshakeDone,
    HandshakeFailed(Seq<char>),
}

impl View for ConnectEvent {
    type V = ConnectEventView;

    open spec fn view(&self) -> ConnectEventView {
        match self {
            ConnectEvent::TransportOpened => ConnectEventView::TransportOpened,
            ConnectEvent::TransportFailed(r) => ConnectEventView::TransportFailed(r@),
            ConnectEvent::TlsEstablished(a) => ConnectEventView::TlsEstablished(
                match a {
                    Some(id) => Some(id@),
                    None => None,
                },
            ),
            ConnectEvent::TlsFailed(r) => ConnectEventView::TlsFailed(r@),
            ConnectEvent::HandshakeDone => ConnectEventView::HandshakeDone,
            ConnectEvent::HandshakeFailed(r) => ConnectEventView::HandshakeFailed(r@),
        }
    }
}

/// What the caller is to do next.
#[derive(Debug, PartialEq, Eq)]
pub enum ConnectAction {
    /// Open a byte stream to this host and port.
    OpenTransport { host: String, port: u16 },
    /// Wrap the stream in a TLS session with these settings.
    StartTls(TlsSettings),
    /// Perform this HTTP preface on the stream and start its driver.
    Handshake(HandshakePlan),
    /// The connection stands. `try_upgrade` says whether the cleartext upgrade
    /// to HTTP/2 is to be attempted on it.
    Ready { handle: ConnectionHandle, try_upgrade: bool },
    /// Give up with this failure.
    Abort(ClientError),
    /// The event was not one the negotiation waits for; nothing changed.
    Ignore,
}

/// The mathematical value of a [`ConnectAction`].
pub enum ConnectActionView {
    OpenTransport { host: Seq<char>, port: u16 },
    StartTls(TlsSettingsView),
    Handshake(HandshakePlan),
    Ready { handle: ConnectionHandleView, try_upgrade: bool },
    Abort(ClientErrorView),
    Ignore,
}

impl View for ConnectAction {
    type V = ConnectActionView;

    open spec fn view(&self) -> ConnectActionView {
        match self {
            ConnectAction::OpenTransport { host, port } => ConnectActionView::OpenTransport {
                host: host@,
                port: *port,
            },
            ConnectAction::StartTls(settings) => ConnectActionView::StartTls(settings@),
            ConnectAction::Handshake(plan) => ConnectActionView::Handshake(*plan),
            ConnectAction::Ready { handle, try_upgrade } => ConnectActionView::Ready {
                handle: handle@,
                try_upgrade: *try_upgrade,
            },
            ConnectAction::Abort(e) => ConnectActionView::Abort(e@),
            ConnectAction::Ignore => ConnectActionView::Ignore,
        }
    }
}

/// The mathematical value of a [`Negotiation`].
pub struct NegotiationView {
    pub target: TargetView,
    pub options: ConnectOptions,
    /// Whether the target's host can be sent as a TLS server name.
    pub name_accepted: bool,
    pub phase: Phase,
    /// The peer's ALPN answer, once a TLS session has come up.
    pub alpn: Option<Option<Seq<u8>>>,
}

impl NegotiationView {
    /// A negotiation that has just asked for the transport.
    pub open spec fn initial(target: TargetView, options: ConnectOptions, name_accepted: bool)
        -> NegotiationView {
        NegotiationView { target, options, name_accepted, phase: Phase::Connecting, alpn: None }
    }

    /// The first thing to do: open the transport to the target.
    pub open spec fn first_action(self) -> ConnectActionView {
        ConnectActionView::OpenTransport { host: self.target.host, port: self.target.port }
    }

    /// The same negotiation in another phase.
    pub open spec fn at(self, phase: Phase) -> NegotiationView {
        NegotiationView { phase, ..self }
    }

    /// Whether the cleartext upgrade is to be attempted once the connection
    /// stands: only without TLS, and only where HTTP/2 is wanted.
    pub open spec fn try_upgrade(self) -> bool {
        !self.target.use_tls() && self.options.want_http2
    }

    /// What every reachable state satisfies: TLS is only ever spoken to a TLS
    /// target; a cleartext connection starts as HTTP/1.1; over TLS the protocol
    /// is the one that the recorded ALPN answer selects.
    pub open spec fn wf(self) -> bool {
        &&& self.phase is SecuringTransport ==> self.target.use_tls()
        &&& forall|p: NegotiatedProtocol|
            self.phase == Phase::Handshaking(p) || self.phase == Phase::Established(p) ==> {
                if self.target.use_tls() {
                    &&& self.alpn is Some
                    &&& protocol_of_alpn(
                        self.options.want_http2,
                        self.options.policy,
                        self.alpn->Some_0,
                    ) == Ok::<NegotiatedProtocol, ClientErrorView>(p)
                } else {
                    p == NegotiatedProtocol::Http1
                }
            }
    }

    /// One step: the state after `event`, and what to do next.
    ///
    /// An event that the current phase does not wait for changes nothing.
    pub open spec fn step(self, event: ConnectEventView) -> (NegotiationView, ConnectActionView) {
        match (self.phase, event) {
            (Phase::Connecting, ConnectEventView::TransportOpened) => {
                if self.target.use_tls() {
                    match settings_of(self.target, self.options.want_http2, self.name_accepted) {
                        Ok(settings) => (
                            self.at(Phase::SecuringTransport),
                            ConnectActionView::StartTls(settings),
                        ),
                        Err(e) => (self.at(Phase::Failed), ConnectActionView::Abort(e)),
                    }
                } else {
                    (
                        self.at(Phase::Handshaking(NegotiatedProtocol::Http1)),
                        ConnectActionView::Handshake(plan_of(NegotiatedProtocol::Http1)),
                    )
                }
            },
            (Phase::Connecting, ConnectEventView::TransportFailed(reason)) => (
                self.at(Phase::Failed),
                ConnectActionView::Abort(ClientErrorView::ConnectFailed(reason)),
            ),
            (Phase::SecuringTransport, ConnectEventView::TlsEstablished(answer)) => {
                let seen = NegotiationView { alpn: Some(answer), ..self };
                match protocol_of_alpn(self.options.want_http2, self.options.policy, answer) {
                    Ok(p) => (
                        seen.at(Phase::Handshaking(p)),
                        ConnectActionView::Handshake(plan_of(p)),
                    ),
                    Err(e) => (seen.at(Phase::Failed), ConnectActionView::Abort(e)),
                }
            },
            (Phase::SecuringTransport, ConnectEventView::TlsFailed(reason)) => (
                self.at(Phase::Failed),
                ConnectActionView::Abort(ClientErrorView::TlsHandshakeFailed(reason)),
            ),
            (Phase::Handshaking(p), ConnectEventView::HandshakeDone) => (
                self.at(Phase::Established(p)),
                ConnectActionView::Ready {
                    handle: ConnectionHandleView::established(p),
                    try_upgrade: self.try_upgrade(),
                },
            ),
            (Phase::Handshaking(_), ConnectEventView::HandshakeFailed(reason)) => (
                self.at(Phase::Failed),
                ConnectActionView::Abort(ClientErrorView::HandshakeFailed(reason)),
            ),
            _ => (self, ConnectActionView::Ignore),
        }
    }

    /// The state after a run of events.
    pub open spec fn run(self, events: Seq<ConnectEventView>) -> NegotiationView
        decreases events.len(),
    {
        if events.len() == 0 {
            self
        } else {
            self.run(events.drop_last()).step(events.last()).0
        }
    }
}

/// A step leads from a well-formed state to a well-formed state, and never
/// touches the target or the options.
pub proof fn lemma_step_keeps_wf(state: NegotiationView, event: ConnectEventView)
    requires
        state.wf(),
    ensures
        state.step(event).0.wf(),
        state.step(event).0.target == state.target,
        state.step(event).0.options == state.options,
        state.step(event).0.name_accepted == state.name_accepted,
{
}

/// A negotiation that has ended, in a connection or in a failure, stays as it
/// is: nothing is tried again.
pub proof fn lemma_ended_negotiation_is_final(state: NegotiationView, event: ConnectEventView)
    requires
        state.phase is Established || state.phase is Failed,
    ensures
        state.step(event) == (state, ConnectActionView::Ignore),
{
}

/// No step asks for the transport: it is opened once, at the start, and never
/// again.
pub proof fn lemma_transport_is_opened_once(state: NegotiationView, event: ConnectEventView)
    ensures
        !(state.step(event).1 is OpenTransport),
{
}

/// Every state that a negotiation can reach is well-formed.
pub proof fn lemma_reachable_wf(
    target: TargetView,
    options: ConnectOptions,
    name_accepted: bool,
    events: Seq<ConnectEventView>,
)
    ensures
        NegotiationView::initial(target, options, name_accepted).run(events).wf(),
        NegotiationView::initial(target, options, name_accepted).run(events).target == target,
        NegotiationView::initial(target, options, name_accepted).run(events).options == options,
    decreases events.len(),
{
    let start = NegotiationView::initial(target, options, name_accepted);
    if events.len() > 0 {
        lemma_reachable_wf(target, options, name_accepted, events.drop_last());
        lemma_step_keeps_wf(start.run(events.drop_last()), events.last());
    }
}

/// Over TLS, under the permissive policy, whatever the caller observes: a
/// connection that comes to stand speaks HTTP/2 only if the peer answered
/// `h2`, and HTTP/1.1 only if it answered `http/1.1` or nothing. No other
/// answer ever leads to a connection.
pub proof fn lemma_tls_protocol_follows_alpn(
    target: TargetView,
    options: ConnectOptions,
    name_accepted: bool,
    events: Seq<ConnectEventView>,
)
    requires
        target.use_tls(),
        options.policy == AlpnPolicy::Permissive,
    ensures
        ({
            let end = NegotiationView::initial(target, options, name_accepted).run(events);
            forall|p: NegotiatedProtocol|
                end.phase == Phase::Established(p) ==> {
                    &&& end.alpn is Some
                    &&& p == NegotiatedProtocol::Http2 ==> end.alpn->Some_0 == Some(alpn_h2())
                    &&& p == NegotiatedProtocol::Http1 ==> (end.alpn->Some_0 == Some(
                        alpn_http11(),
                    ) || end.alpn->Some_0 is None)
                }
        }),
{
    let end = NegotiationView::initial(target, options, name_accepted).run(events);
    lemma_reachable_wf(target, options, name_accepted, events);
    if end.alpn is Some {
        lemma_protocol_follows_alpn(options.want_http2, end.alpn->Some_0);
    }
}

/// A cleartext connection always comes to stand as HTTP/1.1; HTTP/2 is reached
/// from there by upgrade only.
pub proof fn lemma_cleartext_starts_as_http1(
    target: TargetView,
    options: ConnectOptions,
    name_accepted: bool,
    events: Seq<ConnectEventView>,
)
    requires
        !target.use_tls(),
    ensures
        ({
            let end = NegotiationView::initial(target, options, name_accepted).run(events);
            forall|p: NegotiatedProtocol|
                end.phase == Phase::Established(p) ==> p == NegotiatedProtocol::Http1
        }),
{
    lemma_reachable_wf(target, options, name_accepted, events);
}

/// When the preface of a cleartext connection succeeds, the connection stands
/// as HTTP/1.1, and the upgrade to HTTP/2 is asked for exactly where the caller
/// wants HTTP/2.
pub proof fn lemma_cleartext_asks_for_upgrade(state: NegotiationView)
    requires
        state.wf(),
        !state.target.use_tls(),
        state.phase is Handshaking,
    ensures
        state.step(ConnectEventView::HandshakeDone).0.phase == Phase::Established(
            NegotiatedProtocol::Http1,
        ),
        state.step(ConnectEventView::HandshakeDone).1 == (ConnectActionView::Ready {
            handle: ConnectionHandleView::established(NegotiatedProtocol::Http1),
            try_upgrade: state.options.want_http2,
        }),
{
}

/// The negotiation of one connection.
#[derive(Debug)]
pub struct Negotiation {
    target: Target,
    options: ConnectOptions,
    name_accepted: bool,
    phase: Phase,
    alpn: Option<Option<Vec<u8>>>,
}

impl View for Negotiation {
    type V = NegotiationView;

    closed spec fn view(&self) -> NegotiationView {
        NegotiationView {
            target: self.target@,
            options: self.options,
            name_accepted: self.name_accepted,
            phase: self.phase,
            alpn: match self.alpn {
                Some(Some(id)) => Some(Some(id@)),
                Some(None) => Some(None),
                None => None,
            },
        }
    }
}

impl Negotiation {
    #[verifier::type_invariant]
    spec fn well_formed(self) -> bool {
        self@.wf()
    }

    /// Begins the negotiation for a target, given whether its host can be a TLS
    /// server name. The first thing to do is to open the transport.
    pub fn start_with(target: Target, options: ConnectOptions, name_accepted: bool) -> (started: (
        Negotiation,
        ConnectAction,
    ))
        ensures
            started.0@ == NegotiationView::initial(target@, options, name_accepted),
            started.0@.wf(),
            started.1@ == started.0@.first_action(),
    {
        let action = ConnectAction::OpenTransport {
            host: String::from_str(target.host()),
            port: target.port(),
        };
        let negotiation = Negotiation {
            target,
            options,
            name_accepted,
            phase: Phase::Connecting,
            alpn: None,
        };
        (negotiation, action)
    }

    /// Begins the negotiation for a target.
    pub fn start(target: Target, options: ConnectOptions) -> (started: (Negotiation, ConnectAction))
        ensures
            started.0@ == NegotiationView::initial(
                target@,
                options,
                server_name_accepted(target@.host),
            ),
            started.1@ == started.0@.first_action(),
    {
        let name_accepted = accepts_server_name(target.host());
        Self::start_with(target, options, name_accepted)
    }

    /// How far the negotiation has come.
    pub fn phase(&self) -> (phase: Phase)
        ensures
            phase == self@.phase,
    {
        self.phase
    }

    /// The target the connection goes to.
    pub fn target(&self) -> (target: &Target)
        ensures
            target@ == self@.target,
    {
        &self.target
    }

    /// What the caller wants of the connection.
    pub fn options(&self) -> (options: ConnectOptions)
        ensures
            options == self@.options,
    {
        self.options
    }

    /// The protocol of the connection, once it stands.
    pub fn negotiated(&self) -> (protocol: Option<NegotiatedProtocol>)
        ensures
            protocol == (match self@.phase {
                Phase::Established(p) => Some(p),
                _ => None,
            }),
    {
        match self.phase {
            Phase::Established(p) => Some(p),
            _ => None,
        }
    }

    /// Whether the negotiation has ended, in a connection or in a failure.
    pub fn is_finished(&self) -> (finished: bool)
        ensures
            finished == (self@.phase is Established || self@.phase is Failed),
    {
        match self.phase {
            Phase::Established(_) => true,
            Phase::Failed => true,
            _ => false,
        }
    }

    /// Takes what the caller observed and says what to do next.
    pub fn advance(&mut self, event: ConnectEvent) -> (action: ConnectAction)
        ensures
            final(self)@ == old(self)@.step(event@).0,
            action@ == old(self)@.step(event@).1,
            final(self)@.wf(),
    {
        proof {
            use_type_invariant(&*self);
        }
        match (self.phase, event) {
            (Phase::Connecting, ConnectEvent::TransportOpened) => {
                if self.target.use_tls() {
                    match settings_from_check(
                        &self.target,
                        self.options.want_http2,
                        self.name_accepted,
                    ) {
                        Ok(settings) => {
                            self.phase = Phase::SecuringTransport;
                            ConnectAction::StartTls(settings)
                        },
                        Err(e) => {
                            self.phase = Phase::Failed;
                            ConnectAction::Abort(e)
                        },
                    }
                } else {
                    self.phase = Phase::Handshaking(NegotiatedProtocol::Http1);
                    ConnectAction::Handshake(handshake_plan(NegotiatedProtocol::Http1))
                }
            },
            (Phase::Connecting, ConnectEvent::TransportFailed(reason)) => {
                self.phase = Phase::Failed;
                ConnectAction::Abort(ClientError::ConnectFailed(reason))
            },
            (Phase::SecuringTransport, ConnectEvent::TlsEstablished(answer)) => {
                proof {
                    if answer is Some {
                        lemma_bytes_deep_view(answer->Some_0);
                    }
                }
                let selected = select_protocol(
                    self.options.want_http2,
                    self.options.policy,
                    &answer,
                );
                self.alpn = Some(answer);
                match selected {
                    Ok(p) => {
                        self.phase = Phase::Handshaking(p);
                        ConnectAction::Handshake(handshake_plan(p))
                    },
                    Err(e) => {
                        self.phase = Phase::Failed;
                        ConnectAction::Abort(e)
                    },
                }
            },
            (Phase::SecuringTransport, ConnectEvent::TlsFailed(reason)) => {
                self.phase = Phase::Failed;
                ConnectAction::Abort(ClientError::TlsHandshakeFailed(reason))
            },
            (Phase::Handshaking(p), ConnectEvent::HandshakeDone) => {
                let try_upgrade = !self.target.use_tls() && self.options.want_http2;
                self.phase = Phase::Established(p);
                ConnectAction::Ready { handle: ConnectionHandle::established(p), try_upgrade }
            },
            (Phase::Handshaking(_), ConnectEvent::HandshakeFailed(reason)) => {
                self.phase = Phase::Failed;
                ConnectAction::Abort(ClientError::HandshakeFailed(reason))
            },
            _ => ConnectAction::Ignore,
        }
    }
}

/// Begins the negotiations of connections that all want the same.
#[derive(Debug, Clone, Copy, PartialEq, Eq, Structural)]
pub struct GrokkerConnector {
    options: ConnectOptions,
}

impl GrokkerConnector {
    /// What the connector wants of its connections.
    pub closed spec fn spec_options(self) -> ConnectOptions {
        self.options
    }

    /// A connector that prefers HTTP/2 and judges ALPN permissively.
    pub fn new() -> (connector: GrokkerConnector)
        ensures
            connector.spec_options() == (ConnectOptions {
                want_http2: true,
                policy: AlpnPolicy::Permissive,
            }),
    {
        GrokkerConnector {
            options: ConnectOptions { want_http2: true, policy: AlpnPolicy::Permissive },
        }
    }

    /// A connector with the given wishes.
    pub fn with_options(options: ConnectOptions) -> (connector: GrokkerConnector)
        ensures
            connector.spec_options() == options,
    {
        GrokkerConnector { options }
    }

    /// What the connector wants of its connections.
    pub fn options(&self) -> (options: ConnectOptions)
        ensures
            options == self.spec_options(),
    {
        self.options
    }

    /// Begins the negotiation of a connection to `host` and `port`, with TLS
    /// or without. The first thing to do is to open the transport. An empty
    /// host is a missing host, and nothing is begun for it.
    pub fn connect(&self, host: &str, port: u16, use_tls: bool) -> (result: Result<
        (Negotiation, ConnectAction),
        ClientError,
    >)
        ensures
            match result {
                Ok(started) => {
                    &&& host@.len() > 0
                    &&& started.0@ == NegotiationView::initial(
                        TargetView {
                            host: host@,
                            port,
                            scheme: if use_tls {
                                Scheme::Https
                            } else {
                                Scheme::Http
                            },
                        },
                        self.spec_options(),
                        server_name_accepted(host@),
                    )
                    &&& started.1@ == started.0@.first_action()
                },
                Err(e) => host@.len() == 0 && e@ == ClientErrorView::MissingHost,
            },
    {
        let scheme = if use_tls {
            Scheme::Https
        } else {
            Scheme::Http
        };
        match Target::new(String::from_str(host), port, scheme) {
            Ok(target) => Ok(Negotiation::start(target, self.options)),
            Err(e) => Err(e),
        }
    }
}

} // verus!
