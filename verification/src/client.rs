//! The client: its configuration, its builder, and the guard of its
//! connection.
//!
//! A client is built in two halves. The first half is pure: the builder
//! resolves its base URL and begins the negotiation of the connection. The
//! caller then carries the negotiation out, and the second half makes the
//! client from the configuration and the handle that the negotiation yielded.
//! The same client serves blocking and non-blocking callers: what differs
//! between them is how they wait, which is none of the client's business.

use vstd::prelude::*;
use crate::dispatch::admitted_as;
use crate::dispatch::completed_as;
use crate::dispatch::lemma_closed_stays_closed;
use crate::dispatch::outcome_view;
use crate::dispatch::DispatchEvent;
use crate::dispatch::Admission;
use crate::dispatch::Dispatcher;
use crate::dispatch::DispatcherView;
use crate::error::ClientError;
use crate::error::ClientErrorView;
use crate::handshake::ConnectionHandle;
use hyper::header::HeaderValue;
use hyper::HeaderMap;
use crate::headers::header_list;
use crate::headers::holds_replaced;
use crate::headers::insert_header;
use crate::headers::new_header_map;
use crate::headers::HeaderSeq;
use crate::negotiate::ConnectAction;
use crate::negotiate::ConnectOptions;
use crate::negotiate::Negotiation;
use crate::negotiate::NegotiationView;
use crate::protocols::NegotiatedProtocol;
use crate::request::assembled;
use crate::request::built;
use crate::request::build_http_request;
use crate::request::built_as;
use crate::request::join_base_and_path;
use crate::request::joined;
use crate::request::HttpRequest;
use crate::request::HttpRequestView;
use crate::request::Method;
use crate::request::Request;
use crate::request::RequestView;
use crate::request::RequestBuilder;
use crate::request::Response;
use crate::target::parse_url;
use crate::target::parsed_url;
use crate::target::parts_view;
use crate::target::target_from_parts;
use crate::target::target_of;
use crate::target::Target;
use crate::target::TargetView;
use crate::target::UrlParts;
use crate::target::UrlPartsView;
use crate::tls::accepts_server_name;
use crate::tls::server_name_accepted;
use crate::tls::AlpnPolicy;
use crate::upgrade::over_http2;
use crate::upgrade::request_over_http2;

verus! {

/// The time a request may take where the caller sets none, in milliseconds.
pub const DEFAULT_TIMEOUT_MS: u64 = 10_000;

/// What a client was configured with.
#[derive(Debug, PartialEq, Eq)]
pub struct ClientConfiguration {
    /// The time a request may take, in milliseconds.
    pub timeout_ms: u64,
    /// The base URL as the parser writes it back.
    pub base_url: String,
    /// Where the connection goes to.
    pub target: Target,
    /// The headers that were set on the builder. They are kept with the
    /// configuration; building a request does not read them.
    pub headers: Option<HeaderMap<HeaderValue>>,
}

/// The mathematical value of a [`ClientConfiguration`].
pub struct ClientConfigurationView {
    pub timeout_ms: u64,
    pub base_url: Seq<char>,
    pub target: TargetView,
    pub headers: Option<HeaderSeq>,
}

impl View for ClientConfiguration {
    type V = ClientConfigurationView;

    open spec fn view(&self) -> ClientConfigurationView {
        ClientConfigurationView {
            timeout_ms: self.timeout_ms,
            base_url: self.base_url@,
            target: self.target@,
            headers: match self.headers {
                Some(map) => Some(header_list(map)),
                None => None,
            },
        }
    }
}

impl ClientConfiguration {
    /// The port the connection goes to.
    pub fn port(&self) -> (port: u16)
        ensures
            port == self@.target.port,
    {
        self.target.port()
    }
}

/// A client in the making.
#[derive(Debug)]
pub struct ClientBuilder {
    http1_only: bool,
    strict_alpn: bool,
    base_url: Option<String>,
    port: Option<u16>,
    timeout_ms: u64,
    headers: HeaderMap<HeaderValue>,
}

/// The mathematical value of a [`ClientBuilder`].
pub struct ClientBuilderView {
    pub http1_only: bool,
    pub strict_alpn: bool,
    pub base_url: Option<Seq<char>>,
    pub port: Option<u16>,
    pub timeout_ms: u64,
    pub headers: HeaderSeq,
}

impl View for ClientBuilder {
    type V = ClientBuilderView;

    closed spec fn view(&self) -> ClientBuilderView {
        ClientBuilderView {
            http1_only: self.http1_only,
            strict_alpn: self.strict_alpn,
            base_url: self.base_url.deep_view(),
            port: self.port,
            timeout_ms: self.timeout_ms,
            headers: header_list(self.headers),
        }
    }
}

impl ClientBuilderView {
    /// A builder on which nothing has been set: HTTP/2 is wanted, ALPN is
    /// judged permissively, the port is the URL's, a request may take ten
    /// seconds.
    pub open spec fn fresh() -> ClientBuilderView {
        ClientBuilderView {
            http1_only: false,
            strict_alpn: false,
            base_url: None,
            port: None,
            timeout_ms: 10_000,
            headers: Seq::empty(),
        }
    }

    /// What the builder wants of the connection.
    pub open spec fn options(self) -> ConnectOptions {
        ConnectOptions {
            want_http2: !self.http1_only,
            policy: if self.strict_alpn {
                AlpnPolicy::Strict
            } else {
                AlpnPolicy::Permissive
            },
        }
    }

    /// What the parser makes of the builder's base URL.
    pub open spec fn parsed_base(self) -> Option<UrlPartsView> {
        match self.base_url {
            Some(url) => parsed_url(url),
            None => None,
        }
    }

    /// The configuration that the builder stands for, given what the parser
    /// made of its base URL. A builder without a base URL has an invalid URL.
    /// A port set on the builder wins over the URL's.
    pub open spec fn configuration(self, parts: Option<UrlPartsView>) -> Result<
        ClientConfigurationView,
        ClientErrorView,
    > {
        if self.base_url is None {
            Err(ClientErrorView::InvalidUrl)
        } else {
            match target_of(parts) {
                Err(e) => Err(e),
                Ok(target) => Ok(
                    ClientConfigurationView {
                        timeout_ms: self.timeout_ms,
                        base_url: parts->Some_0.href,
                        target: TargetView {
                            host: target.host,
                            port: match self.port {
                                Some(port) => port,
                                None => target.port,
                            },
                            scheme: target.scheme,
                        },
                        headers: Some(self.headers),
                    },
                ),
            }
        }
    }
}

/// A client whose connection is still to be negotiated.
#[derive(Debug)]
pub struct PendingClient {
    pub config: ClientConfiguration,
    pub negotiation: Negotiation,
    /// The first thing to do: open the transport.
    pub first: ConnectAction,
}

/// Whether a builder's answer is the one that `expected` describes, with the
/// negotiation begun for the configured target.
pub open spec fn pending_as(
    got: Result<PendingClient, ClientError>,
    expected: Result<ClientConfigurationView, ClientErrorView>,
    options: ConnectOptions,
    name_accepted: bool,
) -> bool {
    match got {
        Ok(pending) => {
            &&& expected == Ok::<ClientConfigurationView, ClientErrorView>(pending.config@)
            &&& pending.negotiation@ == NegotiationView::initial(
                pending.config@.target,
                options,
                name_accepted,
            )
            &&& pending.first@ == pending.negotiation@.first_action()
        },
        Err(e) => expected == Err::<ClientConfigurationView, ClientErrorView>(e@),
    }
}

impl ClientBuilder {
    /// A builder on which nothing has been set.
    pub fn new() -> (builder: ClientBuilder)
        ensures
            builder@ == ClientBuilderView::fresh(),
    {
        let headers = new_header_map();
        ClientBuilder {
            http1_only: false,
            strict_alpn: false,
            base_url: None,
            port: None,
            timeout_ms: DEFAULT_TIMEOUT_MS,
            headers,
        }
    }

    /// Asks for HTTP/1.1 and nothing else.
    pub fn http1_only(self) -> (builder: ClientBuilder)
        ensures
            builder@ == (ClientBuilderView { http1_only: true, ..self@ }),
    {
        ClientBuilder { http1_only: true, ..self }
    }

    /// Makes a TLS peer that does not answer `h2` a failure where HTTP/2 is
    /// wanted.
    pub fn strict_alpn(self) -> (builder: ClientBuilder)
        ensures
            builder@ == (ClientBuilderView { strict_alpn: true, ..self@ }),
    {
        ClientBuilder { strict_alpn: true, ..self }
    }

    /// Sets the URL that every request of the client starts from.
    pub fn base_url(self, url: &str) -> (builder: ClientBuilder)
        ensures
            builder@ == (ClientBuilderView { base_url: Some(url@), ..self@ }),
    {
        ClientBuilder { base_url: Some(String::from_str(url)), ..self }
    }

    /// Sets the port to connect to, whatever the base URL says.
    pub fn port(self, port: u16) -> (builder: ClientBuilder)
        ensures
            builder@ == (ClientBuilderView { port: Some(port), ..self@ }),
    {
        ClientBuilder { port: Some(port), ..self }
    }

    /// Sets the time a request may take, in milliseconds.
    pub fn timeout(self, timeout_ms: u64) -> (builder: ClientBuilder)
        ensures
            builder@ == (ClientBuilderView { timeout_ms, ..self@ }),
    {
        ClientBuilder { timeout_ms, ..self }
    }

    /// Sets a header on the builder, in place of any that was set under the
    /// same name before. The header map decides whether the name and the value
    /// can be a header: where they cannot, the builder stays as it was.
    pub fn header(self, key: &str, value: &str) -> (builder: ClientBuilder)
        ensures
            builder@ == (ClientBuilderView { headers: builder@.headers, ..self@ }),
            builder@.headers == self@.headers || holds_replaced(
                self@.headers,
                builder@.headers,
                key@,
                value@,
            ),
    {
        let mut headers = self.headers;
        let inserted = insert_header(&mut headers, key, value);
        ClientBuilder {
            http1_only: self.http1_only,
            strict_alpn: self.strict_alpn,
            base_url: self.base_url,
            port: self.port,
            timeout_ms: self.timeout_ms,
            headers,
        }
    }

    /// What the builder wants of the connection.
    pub fn options(&self) -> (options: ConnectOptions)
        ensures
            options == self@.options(),
    {
        ConnectOptions {
            want_http2: !self.http1_only,
            policy: if self.strict_alpn {
                AlpnPolicy::Strict
            } else {
                AlpnPolicy::Permissive
            },
        }
    }

    /// Makes the configuration and begins the negotiation, given what the
    /// parser made of the base URL and whether the host it found can be a TLS
    /// server name.
    pub fn build_with(self, parts: Option<UrlParts>, name_accepted: bool) -> (result: Result<
        PendingClient,
        ClientError,
    >)
        ensures
            pending_as(
                result,
                self@.configuration(parts_view(parts)),
                self@.options(),
                name_accepted,
            ),
    {
        if self.base_url.is_none() {
            return Err(ClientError::InvalidUrl);
        }
        let options = self.options();
        let base_url = match &parts {
            Some(p) => p.href.clone(),
            None => String::new(),
        };
        let resolved = match target_from_parts(parts) {
            Ok(t) => t,
            Err(e) => {
                return Err(e);
            },
        };
        let target = match self.port {
            Some(port) => resolved.with_port(port),
            None => resolved,
        };
        let (negotiation, first) = Negotiation::start_with(
            target.duplicate(),
            options,
            name_accepted,
        );
        let config = ClientConfiguration {
            timeout_ms: self.timeout_ms,
            base_url,
            target,
            headers: Some(self.headers),
        };
        Ok(PendingClient { config, negotiation, first })
    }

    /// Resolves the base URL, makes the configuration and begins the
    /// negotiation of the connection. Nothing is opened yet.
    pub fn build(self) -> (result: Result<PendingClient, ClientError>)
        ensures
            pending_as(
                result,
                self@.configuration(self@.parsed_base()),
                self@.options(),
                match result {
                    Ok(pending) => server_name_accepted(pending.config@.target.host),
                    Err(_) => false,
                },
            ),
    {
        let parts = match &self.base_url {
            Some(url) => parse_url(url.as_str()),
            None => None,
        };
        let name_accepted = match &parts {
            Some(p) => match &p.host {
                Some(host) => accepts_server_name(host.as_str()),
                None => false,
            },
            None => false,
        };
        self.build_with(parts, name_accepted)
    }
}

/// What a caller is to do with its request.
#[derive(Debug, PartialEq, Eq)]
pub enum Execution {
    /// The sender is the caller's: put this on the wire, then hand in what
    /// came back.
    Send(HttpRequest),
    /// Another caller holds the sender: wait, then ask again with the request,
    /// which is handed back as it was.
    Wait(Request),
}

/// The mathematical value of an [`Execution`].
pub enum ExecutionView {
    Send(HttpRequestView),
    Wait(RequestView),
}

impl View for Execution {
    type V = ExecutionView;

    open spec fn view(&self) -> ExecutionView {
        match self {
            Execution::Send(out) => ExecutionView::Send(out@),
            Execution::Wait(request) => ExecutionView::Wait(request@),
        }
    }
}

/// Whether an execution's answer is the one that `expected` describes.
pub open spec fn executed_as(
    got: Result<Execution, ClientError>,
    expected: Result<ExecutionView, ClientErrorView>,
) -> bool {
    match got {
        Ok(x) => expected == Ok::<ExecutionView, ClientErrorView>(x@),
        Err(e) => expected == Err::<ExecutionView, ClientErrorView>(e@),
    }
}

/// A client on an established connection.
pub struct Client {
    config: ClientConfiguration,
    dispatcher: Dispatcher,
}

/// The mathematical value of a [`Client`].
pub struct ClientView {
    pub config: ClientConfigurationView,
    pub dispatcher: DispatcherView,
}

impl ClientView {
    /// The request that goes out for what a caller asked: assembled with the
    /// default headers, and, on an HTTP/2 connection, made over HTTP/2.
    pub open spec fn outgoing(self, request: RequestView) -> HttpRequestView {
        match self.dispatcher.handle.protocol() {
            NegotiatedProtocol::Http1 => assembled(request, self.config),
            NegotiatedProtocol::Http2 => over_http2(assembled(request, self.config)),
        }
    }

    /// What preparing a request comes to: the outgoing request where its URI
    /// and all its headers can be written, and the reason otherwise.
    pub open spec fn prepared(self, request: RequestView) -> Result<
        HttpRequestView,
        ClientErrorView,
    > {
        match built(request, self.config) {
            Ok(_) => Ok(self.outgoing(request)),
            Err(e) => Err(e),
        }
    }

    /// What a caller that wants to make a request is told, given what
    /// preparing the request comes to. A closed connection refuses whatever is
    /// asked. While another caller holds the sender the caller waits, and gets
    /// its request back. Otherwise a request that cannot be written fails and
    /// leaves the sender free, and one that can is to be sent.
    pub open spec fn execution(
        self,
        caller: u64,
        request: RequestView,
        prepared: Result<HttpRequestView, ClientErrorView>,
    ) -> Result<ExecutionView, ClientErrorView> {
        match self.dispatcher.admission(caller) {
            Err(e) => Err(e),
            Ok(Admission::Wait) => Ok(ExecutionView::Wait(request)),
            Ok(Admission::Proceed) => match prepared {
                Err(e) => Err(e),
                Ok(out) => Ok(ExecutionView::Send(out)),
            },
        }
    }

    /// The client after a caller asked to make a request: the caller holds the
    /// sender exactly where it was told to send.
    pub open spec fn after_execute(
        self,
        caller: u64,
        prepared: Result<HttpRequestView, ClientErrorView>,
    ) -> ClientView {
        if prepared is Ok && self.dispatcher.admission(caller) == Ok::<
            Admission,
            ClientErrorView,
        >(Admission::Proceed) {
            ClientView { config: self.config, dispatcher: self.dispatcher.acquire(caller) }
        } else {
            self
        }
    }
}

/// Once the driver has stopped, every request of every caller is refused with
/// a closed connection, at once and whatever else has happened since: the
/// caller is never made to wait for a connection that is gone.
pub proof fn lemma_send_on_closed_connection_fails(
    client: ClientView,
    reason: Seq<char>,
    events: Seq<DispatchEvent>,
    caller: u64,
    request: RequestView,
    prepared: Result<HttpRequestView, ClientErrorView>,
)
    ensures
        (ClientView {
            config: client.config,
            dispatcher: client.dispatcher.stop(reason).run(events),
        }).execution(caller, request, prepared) == Err::<ExecutionView, ClientErrorView>(
            ClientErrorView::ConnectionClosed,
        ),
{
    lemma_closed_stays_closed(client.dispatcher, reason, events, caller);
}

impl View for Client {
    type V = ClientView;

    closed spec fn view(&self) -> ClientView {
        ClientView { config: self.config@, dispatcher: self.dispatcher@ }
    }
}

impl Client {
    /// A builder on which nothing has been set.
    pub fn builder() -> (builder: ClientBuilder)
        ensures
            builder@ == ClientBuilderView::fresh(),
    {
        ClientBuilder::new()
    }

    /// The client on a connection that has just been negotiated.
    pub fn new(config: ClientConfiguration, handle: ConnectionHandle) -> (client: Client)
        ensures
            client@ == (ClientView {
                config: config@,
                dispatcher: DispatcherView::initial(handle@),
            }),
            client@.dispatcher.wf(),
    {
        Client { config, dispatcher: Dispatcher::new(handle) }
    }

    /// What the client was configured with.
    pub fn config(&self) -> (config: &ClientConfiguration)
        ensures
            config@ == self@.config,
    {
        &self.config
    }

    /// The protocol the client's connection speaks.
    pub fn protocol(&self) -> (protocol: NegotiatedProtocol)
        ensures
            protocol == self@.dispatcher.handle.protocol(),
            self@.dispatcher.wf(),
    {
        self.dispatcher.handle().protocol()
    }

    /// Whether requests can still be sent.
    pub fn is_open(&self) -> (open: bool)
        ensures
            open == self@.dispatcher.handle.is_open(),
            self@.dispatcher.wf(),
    {
        self.dispatcher.handle().is_open()
    }

    /// A `GET` on a path below the base URL.
    pub fn get(&self, path: &str) -> (builder: RequestBuilder)
        ensures
            builder.url@ == joined(self@.config.base_url, path@),
            builder.method == Method::Get,
    {
        RequestBuilder {
            url: join_base_and_path(self.config.base_url.as_str(), path),
            method: Method::Get,
        }
    }

    /// The request that goes out on the client's connection for what a caller
    /// asked, or the reason why none can.
    pub fn prepare(&self, request: Request) -> (result: Result<HttpRequest, ClientError>)
        ensures
            built_as(result, self@.prepared(request@)),
    {
        let out = match build_http_request(request, &self.config) {
            Ok(r) => r,
            Err(e) => {
                return Err(e);
            },
        };
        match self.protocol() {
            NegotiatedProtocol::Http1 => Ok(out),
            NegotiatedProtocol::Http2 => Ok(request_over_http2(&out)),
        }
    }

    /// Begins a request for `caller`: says whether the request is to be sent
    /// now, and as what, or whether the caller has to wait for its turn.
    ///
    /// What comes back for a request that was sent is handed in with
    /// [`Client::complete`]; a caller that gives up calls [`Client::release`].
    pub fn execute(&mut self, caller: u64, request: Request) -> (result: Result<
        Execution,
        ClientError,
    >)
        ensures
            executed_as(
                result,
                old(self)@.execution(caller, request@, old(self)@.prepared(request@)),
            ),
            final(self)@ == old(self)@.after_execute(caller, old(self)@.prepared(request@)),
            final(self)@.dispatcher.wf(),
    {
        match self.dispatcher.admission(caller) {
            Err(e) => Err(e),
            Ok(Admission::Wait) => Ok(Execution::Wait(request)),
            Ok(Admission::Proceed) => {
                match self.prepare(request) {
                    Err(e) => Err(e),
                    Ok(out) => {
                        let admitted = self.dispatcher.acquire(caller);
                        Ok(Execution::Send(out))
                    },
                }
            },
        }
    }

    /// Asks for the connection's sender on behalf of `caller`.
    pub fn acquire(&mut self, caller: u64) -> (result: Result<Admission, ClientError>)
        ensures
            admitted_as(result, old(self)@.dispatcher.admission(caller)),
            final(self)@ == (ClientView {
                config: old(self)@.config,
                dispatcher: old(self)@.dispatcher.acquire(caller),
            }),
            final(self)@.dispatcher.wf(),
    {
        self.dispatcher.acquire(caller)
    }

    /// Gives the sender back for `caller` and passes on what became of its
    /// send.
    pub fn complete(&mut self, caller: u64, outcome: Result<Response, String>) -> (result: Result<
        Response,
        ClientError,
    >)
        ensures
            completed_as(result, old(self)@.dispatcher.completion(caller, outcome_view(outcome))),
            final(self)@ == (ClientView {
                config: old(self)@.config,
                dispatcher: old(self)@.dispatcher.release(caller),
            }),
            final(self)@.dispatcher.wf(),
    {
        self.dispatcher.complete(caller, outcome)
    }

    /// Gives the sender back for a caller that abandons its send.
    pub fn release(&mut self, caller: u64) -> (released: bool)
        ensures
            released == (old(self)@.dispatcher.holder == Some(caller)),
            final(self)@ == (ClientView {
                config: old(self)@.config,
                dispatcher: old(self)@.dispatcher.release(caller),
            }),
            final(self)@.dispatcher.wf(),
    {
        self.dispatcher.release(caller)
    }

    /// Records that the driver of the connection has ended.
    pub fn driver_stopped(&mut self, reason: String)
        ensures
            final(self)@ == (ClientView {
                config: old(self)@.config,
                dispatcher: old(self)@.dispatcher.stop(reason@),
            }),
            !final(self)@.dispatcher.handle.is_open(),
            final(self)@.dispatcher.wf(),
    {
        self.dispatcher.driver_stopped(reason)
    }
}

} // verus!
