use apigrok::client::Client;
use apigrok::client::Execution;
use apigrok::client::PendingClient;
use apigrok::dispatch::Admission;
use apigrok::error::ClientError;
use apigrok::handshake::ConnectionHandle;
use apigrok::handshake::HandshakePlan;
use apigrok::http_client::HttpClient;
use apigrok::negotiate::ConnectAction;
use apigrok::negotiate::ConnectEvent;
use apigrok::negotiate::Phase;
use apigrok::protocols::HttpVersion;
use apigrok::protocols::NegotiatedProtocol;
use apigrok::protocols::Protocol;
use apigrok::protocols::Version;
use apigrok::request::HttpRequest;
use apigrok::request::Method;
use apigrok::request::Request;
use apigrok::request::Response;
use apigrok::upgrade::Upgrade;
use apigrok::upgrade::UpgradeAction;
use apigrok::upgrade::UpgradeEvent;
use apigrok::upgrade::UpgradeState;

/// What the peer of a simulated connection does.
struct Peer {
    /// What the TLS handshake ends in: the ALPN answer, or a failure.
    tls: Result<Option<Vec<u8>>, String>,
    /// The status the peer answers every request with.
    status: u16,
    /// The body the peer answers every request with.
    body: Vec<u8>,
}

impl Peer {
    /// Answers a request as a server would that serves one host: a request
    /// without a `host` header, or without a `user-agent`, is a bad request.
    fn answer(&self, request: &HttpRequest) -> Response {
        let has = |name: &str| request.headers.iter().any(|(n, _)| n.eq_ignore_ascii_case(name));
        if !has("host") || !has("user-agent") || request.uri.is_empty() {
            return Response { status: 400, headers: Vec::new(), body: Vec::new() };
        }
        Response { status: self.status, headers: Vec::new(), body: self.body.clone() }
    }
}

/// Carries a negotiation out against a simulated peer.
fn negotiate(pending: PendingClient, peer: &Peer) -> Result<(Client, bool), ClientError> {
    let PendingClient { config, mut negotiation, first } = pending;
    let mut action = first;
    let mut steps = 0;
    loop {
        steps += 1;
        assert!(steps < 10);
        action = match action {
            ConnectAction::OpenTransport { host, port } => {
                assert_eq!(host, config.target.host());
                assert_eq!(port, config.target.port());
                negotiation.advance(ConnectEvent::TransportOpened)
            }
            ConnectAction::StartTls(settings) => {
                assert_eq!(settings.server_name, config.target.host());
                match &peer.tls {
                    Ok(answer) => negotiation.advance(ConnectEvent::TlsEstablished(answer.clone())),
                    Err(reason) => negotiation.advance(ConnectEvent::TlsFailed(reason.clone())),
                }
            }
            ConnectAction::Handshake(_) => negotiation.advance(ConnectEvent::HandshakeDone),
            ConnectAction::Ready { handle, try_upgrade } => {
                assert_eq!(negotiation.negotiated(), Some(handle.protocol()));
                return Ok((Client::new(config, handle), try_upgrade));
            }
            ConnectAction::Abort(error) => {
                assert_eq!(negotiation.phase(), Phase::Failed);
                return Err(error);
            }
            ConnectAction::Ignore => panic!("the negotiation ignored an event"),
        };
    }
}

/// Makes a request on a client against a simulated peer: asks the client
/// what to do, puts on the simulated wire what it says, and hands in what
/// came back.
fn execute(client: &mut Client, caller: u64, request: Request, peer: &Peer) -> Result<Response, ClientError> {
    let out = match client.execute(caller, request)? {
        Execution::Send(out) => out,
        Execution::Wait(_) => panic!("the sender is held"),
    };
    assert_eq!(out.version, client.protocol().version());
    let response = peer.answer(&out);
    client.complete(caller, Ok(response))
}

/// Makes a `GET` on a path below the client's base URL.
fn exchange(client: &mut Client, caller: u64, path: &str, peer: &Peer) -> Result<Response, ClientError> {
    let request = client.get(path).build()?;
    execute(client, caller, request, peer)
}

#[test]
fn plain_http1_request_returns_200_and_hello() {
    let peer = Peer { tls: Err("no TLS here".to_string()), status: 200, body: b"hello".to_vec() };
    let http = HttpClient { version: HttpVersion::Http1 };
    let pending = http.plan("http://example.test/", false).unwrap();
    let (mut client, try_upgrade) = negotiate(pending, &peer).unwrap();
    assert!(!try_upgrade);
    assert_eq!(client.protocol(), NegotiatedProtocol::Http1);
    let request = client.get("/").build().unwrap();
    assert_eq!(request.method, Method::Get);
    assert_eq!(request.url, "http://example.test/");
    let response = exchange(&mut client, 1, "/", &peer).unwrap();
    assert_eq!(response.status, 200);
    assert_eq!(response.body, b"hello".to_vec());
    let out = client.prepare(request).unwrap();
    let (_, report) = http.report("http://example.test/", &out, response, client.protocol(), None, 3);
    assert_eq!(report.status, Some(200));
    assert_eq!(report.protocol, Protocol::Http1);
    assert_eq!(report.body, Some(b"hello".to_vec()));
    assert_eq!(report.version, "HTTP/1.1");
}

#[test]
fn https_peer_selecting_h2_gives_http2() {
    let peer = Peer { tls: Ok(Some(b"h2".to_vec())), status: 200, body: b"hello".to_vec() };
    let http = HttpClient { version: HttpVersion::Http2 };
    let pending = http.plan("https://example.test/", false).unwrap();
    match &pending.first {
        ConnectAction::OpenTransport { host, port } => {
            assert_eq!(host, "example.test");
            assert_eq!(*port, 443);
        }
        other => panic!("unexpected action {:?}", other),
    }
    let (mut client, try_upgrade) = negotiate(pending, &peer).unwrap();
    assert!(!try_upgrade);
    assert_eq!(client.protocol(), NegotiatedProtocol::Http2);
    let request = client.get("/").build().unwrap();
    let out = client.prepare(request).unwrap();
    assert_eq!(out.version, Version::Http2);
    assert_eq!(out.uri, "https://example.test/");
    let response = exchange(&mut client, 1, "/", &peer).unwrap();
    assert_eq!(response.status, 200);
}

#[test]
fn declined_h2c_upgrade_completes_over_http1() {
    let peer = Peer { tls: Err("no TLS here".to_string()), status: 404, body: Vec::new() };
    let http = HttpClient { version: HttpVersion::Http1 };
    let pending = http.plan("http://example.test/", true).unwrap();
    let (mut client, try_upgrade) = negotiate(pending, &peer).unwrap();
    assert!(try_upgrade);
    assert_eq!(client.protocol(), NegotiatedProtocol::Http1);

    let wanted = client.prepare(client.get("/").build().unwrap()).unwrap();
    let (mut upgrade, action) = Upgrade::begin(wanted.duplicate());
    let probe = match action {
        UpgradeAction::SendProbe(probe) => probe,
        other => panic!("unexpected action {:?}", other),
    };
    assert_eq!(probe.method, Method::Options);
    assert_eq!(client.acquire(1), Ok(Admission::Proceed));
    assert_eq!(upgrade.advance(UpgradeEvent::ProbeWritten), UpgradeAction::AwaitAnswer);
    let answer = client.complete(1, Ok(peer.answer(&probe))).unwrap();
    assert_eq!(answer.status, 404);
    let action = upgrade.advance(UpgradeEvent::ProbeAnswered(answer.status));
    assert_eq!(upgrade.state(), UpgradeState::Rejected);
    assert_eq!(upgrade.state().outcome(), Some(NegotiatedProtocol::Http1));
    let again = match action {
        UpgradeAction::KeepHttp1 { request } => request,
        other => panic!("unexpected action {:?}", other),
    };
    assert_eq!(again, wanted);
    assert_eq!(again.version, Version::Http11);
    assert_eq!(client.protocol(), NegotiatedProtocol::Http1);
    assert!(client.is_open());

    let served = Peer { tls: Err("no TLS here".to_string()), status: 200, body: b"hello".to_vec() };
    assert_eq!(client.acquire(2), Ok(Admission::Proceed));
    let response = client.complete(2, Ok(served.answer(&again))).unwrap();
    assert_eq!(response.status, 200);
    assert_eq!(response.body, b"hello".to_vec());
}

#[test]
fn accepted_h2c_upgrade_goes_on_as_http2() {
    let peer = Peer { tls: Err("no TLS here".to_string()), status: 101, body: Vec::new() };
    let http = HttpClient { version: HttpVersion::Http1 };
    let pending = http.plan("http://example.test/", true).unwrap();
    let (client, try_upgrade) = negotiate(pending, &peer).unwrap();
    assert!(try_upgrade);
    let wanted = client.prepare(client.get("/").build().unwrap()).unwrap();
    let (mut upgrade, _) = Upgrade::begin(wanted.duplicate());
    upgrade.advance(UpgradeEvent::ProbeWritten);
    assert!(matches!(
        upgrade.advance(UpgradeEvent::ProbeAnswered(101)),
        UpgradeAction::SwitchProtocols(HandshakePlan::Http2(_))
    ));
    match upgrade.advance(UpgradeEvent::SwitchDone) {
        UpgradeAction::UseHttp2 { handle, probe, request } => {
            assert_eq!(handle, ConnectionHandle::established(NegotiatedProtocol::Http2));
            assert_eq!(probe.method, Method::Options);
            assert_eq!(probe.uri, wanted.uri);
            assert_eq!(probe.version, Version::Http2);
            assert_eq!(probe.headers, wanted.headers);
            assert_eq!(request.method, Method::Get);
            assert_eq!(request.version, Version::Http2);
            assert_eq!(request.headers, wanted.headers);
        }
        other => panic!("unexpected action {:?}", other),
    }
    assert_eq!(upgrade.state(), UpgradeState::Reestablished);
}

#[test]
fn untrusted_certificate_fails_the_tls_handshake() {
    let peer = Peer {
        tls: Err("invalid peer certificate: UnknownIssuer".to_string()),
        status: 200,
        body: Vec::new(),
    };
    let http = HttpClient { version: HttpVersion::Http2 };
    let pending = http.plan("https://example.test/", false).unwrap();
    let result = negotiate(pending, &peer);
    assert_eq!(
        result.err(),
        Some(ClientError::TlsHandshakeFailed("invalid peer certificate: UnknownIssuer".to_string()))
    );
}

#[test]
fn https_negotiates_h2_or_http11_and_nothing_else() {
    let answers: Vec<(Option<Vec<u8>>, Option<NegotiatedProtocol>)> = vec![
        (Some(b"h2".to_vec()), Some(NegotiatedProtocol::Http2)),
        (Some(b"http/1.1".to_vec()), Some(NegotiatedProtocol::Http1)),
        (None, Some(NegotiatedProtocol::Http1)),
        (Some(b"h3".to_vec()), None),
        (Some(b"http/1.0".to_vec()), None),
        (Some(b"".to_vec()), None),
        (Some(b"h2 ".to_vec()), None),
    ];
    for (answer, expected) in answers {
        let peer = Peer { tls: Ok(answer), status: 200, body: Vec::new() };
        let pending = Client::builder().base_url("https://example.test/").build().unwrap();
        match negotiate(pending, &peer) {
            Ok((client, try_upgrade)) => {
                assert_eq!(Some(client.protocol()), expected);
                assert!(!try_upgrade);
            }
            Err(error) => {
                assert_eq!(expected, None);
                assert_eq!(error, ClientError::AlpnMismatch);
            }
        }
    }
}

#[test]
fn two_callers_never_hold_the_sender_together() {
    let peer = Peer { tls: Err("no TLS here".to_string()), status: 200, body: Vec::new() };
    let pending = Client::builder().base_url("http://example.test/").http1_only().build().unwrap();
    let (mut client, _) = negotiate(pending, &peer).unwrap();
    assert_eq!(client.acquire(1), Ok(Admission::Proceed));
    for _ in 0..5 {
        assert_eq!(client.acquire(2), Ok(Admission::Wait));
    }
    assert!(client.release(1));
    assert_eq!(client.acquire(2), Ok(Admission::Proceed));
    assert_eq!(client.acquire(1), Ok(Admission::Wait));
}

#[test]
fn send_after_the_driver_ended_fails_with_connection_closed() {
    let peer = Peer { tls: Err("no TLS here".to_string()), status: 200, body: Vec::new() };
    let pending = Client::builder().base_url("http://example.test/").http1_only().build().unwrap();
    let (mut client, _) = negotiate(pending, &peer).unwrap();
    assert!(exchange(&mut client, 1, "/", &peer).is_ok());
    client.driver_stopped("peer closed the socket".to_string());
    for caller in 2..6 {
        assert_eq!(exchange(&mut client, caller, "/", &peer), Err(ClientError::ConnectionClosed));
    }
}

#[test]
fn test_async_client() {
    let peer = Peer { tls: Err("no TLS here".to_string()), status: 301, body: Vec::new() };
    let url = "http://myrstack.tech";
    let port = apigrok::target::resolve_target(url).unwrap().port();
    assert_eq!(port, 80);

    let pending = Client::builder().base_url(url).port(port).http1_only().build().unwrap();
    let (mut client, _) = negotiate(pending, &peer).unwrap();

    let request = client.get("/").build().unwrap();

    let res = execute(&mut client, 1, request, &peer).unwrap();

    assert_eq!(res.status, 301);
}

#[test]
fn test_async_client_http2() {
    let peer = Peer { tls: Ok(Some(b"h2".to_vec())), status: 200, body: Vec::new() };
    let url = "https://myrstack.tech";
    let port = apigrok::target::resolve_target(url).unwrap().port();
    assert_eq!(port, 443);

    let pending = Client::builder().base_url(url).port(port).build().unwrap();
    let (mut client, _) = negotiate(pending, &peer).unwrap();

    let request = client.get("/").build().unwrap();

    let res = execute(&mut client, 1, request, &peer).unwrap();

    assert_eq!(res.status, 200);
}

#[test]
fn test_blocking_client() {
    let peer = Peer { tls: Err("no TLS here".to_string()), status: 301, body: Vec::new() };
    let url = "http://myrstack.tech";
    let port = apigrok::target::resolve_target(url).unwrap().port();
    assert_eq!(port, 80);

    let pending = Client::builder().base_url(url).port(port).header("accept", "*/*").build().unwrap();
    let (mut client, _) = negotiate(pending, &peer).unwrap();
    let request = client.get("/").build().unwrap();

    let res = execute(&mut client, 1, request, &peer).unwrap();

    assert_eq!(res.status, 301);
}
