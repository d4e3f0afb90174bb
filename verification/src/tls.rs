//! What is asked of a TLS session, and what is made of its outcome.
//!
//! The handshake itself is the caller's: this module says what to ask for
//! (server name, protocol versions, ALPN list, trust) and which HTTP version
//! follows from the peer's ALPN answer.

use vstd::prelude::*;
use crate::error::ClientError;
use crate::error::ClientErrorView;
use crate::protocols::NegotiatedProtocol;
use crate::target::Target;
use crate::target::TargetView;
use crate::text::lemma_bytes_deep_view;

verus! {

/// What to do when the peer does not answer with `h2` although HTTP/2 was asked for.
#[derive(Debug, Clone, Copy, PartialEq, Eq, Structural)]
pub enum AlpnPolicy {
    /// Go on with HTTP/1.1.
    Permissive,
    /// Fail.
    Strict,
}

/// A TLS protocol version.
#[derive(Debug, Clone, Copy, PartialEq, Eq, Structural)]
pub enum TlsVersion {
    Tls12,
    Tls13,
}

/// Where the trusted root certificates come from.
#[derive(Debug, Clone, Copy, PartialEq, Eq, Structural)]
pub enum RootStore {
    /// The certificate store of the platform.
    Platform,
}

/// The ALPN identifier of HTTP/2 over TLS: the bytes of `h2`.
pub open spec fn alpn_h2() -> Seq<u8> {
    seq![0x68u8, 0x32u8]
}

/// The ALPN identifier of HTTP/1.1: the bytes of `http/1.1`.
pub open spec fn alpn_http11() -> Seq<u8> {
    seq![0x68u8, 0x74u8, 0x74u8, 0x70u8, 0x2fu8, 0x31u8, 0x2eu8, 0x31u8]
}

/// The ALPN list that is offered, in the order of preference: `h2` first where
/// HTTP/2 is wanted, and `http/1.1` in any case.
pub open spec fn offered_alpn(want_http2: bool) -> Seq<Seq<u8>> {
    if want_http2 {
        seq![alpn_h2(), alpn_http11()]
    } else {
        seq![alpn_http11()]
    }
}

/// The bytes of `h2`.
pub fn h2_id() -> (id: Vec<u8>)
    ensures
        id@ == alpn_h2(),
{
    let id = vec![0x68u8, 0x32u8];
    assert(id@ =~= alpn_h2());
    id
}

/// The bytes of `http/1.1`.
pub fn http11_id() -> (id: Vec<u8>)
    ensures
        id@ == alpn_http11(),
{
    let id = vec![0x68u8, 0x74u8, 0x74u8, 0x70u8, 0x2fu8, 0x31u8, 0x2eu8, 0x31u8];
    assert(id@ =~= alpn_http11());
    id
}

/// The ALPN list to offer, most preferred first.
pub fn alpn_preference(want_http2: bool) -> (list: Vec<Vec<u8>>)
    ensures
        list.deep_view() == offered_alpn(want_http2),
{
    let mut list: Vec<Vec<u8>> = Vec::new();
    if want_http2 {
        list.push(h2_id());
    }
    list.push(http11_id());
    proof {
        assert forall|i: int| 0 <= i < list.len() implies #[trigger] list[i].deep_view()
            == list[i]@ by {
            lemma_bytes_deep_view(list[i]);
        }
        assert(list.deep_view() =~= offered_alpn(want_http2));
    }
    list
}

fn is_h2(id: &Vec<u8>) -> (yes: bool)
    ensures
        yes == (id@ == alpn_h2()),
{
    if id.len() != 2 {
        return false;
    }
    let yes = id[0] == 0x68 && id[1] == 0x32;
    proof {
        if yes {
            assert(id@ =~= alpn_h2());
        }
    }
    yes
}

fn is_http11(id: &Vec<u8>) -> (yes: bool)
    ensures
        yes == (id@ == alpn_http11()),
{
    if id.len() != 8 {
        return false;
    }
    let yes = id[0] == 0x68 && id[1] == 0x74 && id[2] == 0x74 && id[3] == 0x70 && id[4] == 0x2f
        && id[5] == 0x31 && id[6] == 0x2e && id[7] == 0x31;
    proof {
        if yes {
            assert(id@ =~= alpn_http11());
        }
    }
    yes
}

/// The HTTP version that follows from the peer's ALPN answer.
///
/// `h2` gives HTTP/2 where it was offered. `http/1.1`, or no answer at all,
/// gives HTTP/1.1, unless HTTP/2 was asked for under the strict policy. Any
/// other answer is a mismatch.
pub open spec fn protocol_of_alpn(
    want_http2: bool,
    policy: AlpnPolicy,
    answer: Option<Seq<u8>>,
) -> Result<NegotiatedProtocol, ClientErrorView> {
    let h2_required = want_http2 && policy == AlpnPolicy::Strict;
    match answer {
        None => if h2_required {
            Err(ClientErrorView::AlpnMismatch)
        } else {
            Ok(NegotiatedProtocol::Http1)
        },
        Some(id) => if id == alpn_h2() && want_http2 {
            Ok(NegotiatedProtocol::Http2)
        } else if id == alpn_http11() && !h2_required {
            Ok(NegotiatedProtocol::Http1)
        } else {
            Err(ClientErrorView::AlpnMismatch)
        },
    }
}

/// Whether a selection's answer is the one that `expected` describes.
pub open spec fn selected_as(
    got: Result<NegotiatedProtocol, ClientError>,
    expected: Result<NegotiatedProtocol, ClientErrorView>,
) -> bool {
    match got {
        Ok(p) => expected == Ok::<NegotiatedProtocol, ClientErrorView>(p),
        Err(e) => expected == Err::<NegotiatedProtocol, ClientErrorView>(e@),
    }
}

/// Decides the HTTP version from the peer's ALPN answer.
pub fn select_protocol(want_http2: bool, policy: AlpnPolicy, answer: &Option<Vec<u8>>) -> (result:
    Result<NegotiatedProtocol, ClientError>)
    ensures
        selected_as(result, protocol_of_alpn(want_http2, policy, answer.deep_view())),
{
    let strict = match policy {
        AlpnPolicy::Strict => true,
        AlpnPolicy::Permissive => false,
    };
    let h2_required = want_http2 && strict;
    match answer {
        None => {
            if h2_required {
                Err(ClientError::AlpnMismatch)
            } else {
                Ok(NegotiatedProtocol::Http1)
            }
        },
        Some(id) => {
            proof {
                lemma_bytes_deep_view(*id);
            }
            if is_h2(id) && want_http2 {
                Ok(NegotiatedProtocol::Http2)
            } else if is_http11(id) && !h2_required {
                Ok(NegotiatedProtocol::Http1)
            } else {
                Err(ClientError::AlpnMismatch)
            }
        },
    }
}

/// Under the permissive policy the negotiated version follows the ALPN answer:
/// HTTP/2 exactly for `h2`, HTTP/1.1 exactly for `http/1.1` or no answer. No
/// other answer is ever accepted.
pub proof fn lemma_protocol_follows_alpn(want_http2: bool, answer: Option<Seq<u8>>)
    ensures
        protocol_of_alpn(want_http2, AlpnPolicy::Permissive, answer) matches Ok(p) ==> {
            ||| p == NegotiatedProtocol::Http2 && answer == Some(alpn_h2())
            ||| p == NegotiatedProtocol::Http1 && (answer == Some(alpn_http11()) || answer
                is None)
        },
        want_http2 ==> (answer == Some(alpn_h2()) <==> protocol_of_alpn(
            want_http2,
            AlpnPolicy::Permissive,
            answer,
        ) == Ok::<NegotiatedProtocol, ClientErrorView>(NegotiatedProtocol::Http2)),
        (answer == Some(alpn_http11()) || answer is None) <==> protocol_of_alpn(
            want_http2,
            AlpnPolicy::Permissive,
            answer,
        ) == Ok::<NegotiatedProtocol, ClientErrorView>(NegotiatedProtocol::Http1),
{
    assert(alpn_h2().len() != alpn_http11().len());
}

/// Under the strict policy, with HTTP/2 asked for, only `h2` is accepted.
pub proof fn lemma_strict_accepts_only_h2(answer: Option<Seq<u8>>)
    ensures
        protocol_of_alpn(true, AlpnPolicy::Strict, answer) == (if answer == Some(alpn_h2()) {
            Ok::<NegotiatedProtocol, ClientErrorView>(NegotiatedProtocol::Http2)
        } else {
            Err::<NegotiatedProtocol, ClientErrorView>(ClientErrorView::AlpnMismatch)
        }),
{
}

/// What is asked of a TLS session.
#[derive(Debug, Clone, PartialEq, Eq)]
pub struct TlsSettings {
    /// The name sent to the peer and checked against its certificate.
    pub server_name: String,
    /// The ALPN identifiers offered, most preferred first.
    pub alpn_protocols: Vec<Vec<u8>>,
    /// The only protocol versions that may be negotiated.
    pub versions: Vec<TlsVersion>,
    /// Where trust is rooted.
    pub roots: RootStore,
    /// Whether a client certificate is presented.
    pub client_auth: bool,
}

/// The mathematical value of [`TlsSettings`].
pub struct TlsSettingsView {
    pub server_name: Seq<char>,
    pub alpn_protocols: Seq<Seq<u8>>,
    pub versions: Seq<TlsVersion>,
    pub roots: RootStore,
    pub client_auth: bool,
}

impl View for TlsSettings {
    type V = TlsSettingsView;

    open spec fn view(&self) -> TlsSettingsView {
        TlsSettingsView {
            server_name: self.server_name@,
            alpn_protocols: self.alpn_protocols.deep_view(),
            versions: self.versions@,
            roots: self.roots,
            client_auth: self.client_auth,
        }
    }
}

/// Whether `rustls::pki_types::ServerName::try_from` accepts a host, as a DNS
/// name or as an IP address.
pub uninterp spec fn server_name_accepted(host: Seq<char>) -> bool;

/// Asks `rustls::pki_types::ServerName::try_from` whether it can make a server
/// name of `host`.
///
/// Trusted: the answer is named, not described. The contract claims only that
/// it is a function of the host.
#[verifier::external_body]
pub(crate) fn accepts_server_name(host: &str) -> (accepted: bool)
    ensures
        accepted == server_name_accepted(host@),
{
    rustls::pki_types::ServerName::try_from(host).is_ok()
}

/// The settings of the TLS session to a target: its host as the server name,
/// the ALPN list in the order of preference, TLS 1.3 and nothing older, trust
/// rooted in the platform's store, no client certificate. A host that cannot
/// be a server name has no settings.
pub open spec fn settings_of(target: TargetView, want_http2: bool, name_accepted: bool) -> Result<
    TlsSettingsView,
    ClientErrorView,
> {
    if name_accepted {
        Ok(
            TlsSettingsView {
                server_name: target.host,
                alpn_protocols: offered_alpn(want_http2),
                versions: seq![TlsVersion::Tls13],
                roots: RootStore::Platform,
                client_auth: false,
            },
        )
    } else {
        Err(ClientErrorView::InvalidServerName)
    }
}

/// Whether a planner's answer is the one that `expected` describes.
pub open spec fn planned_as(
    got: Result<TlsSettings, ClientError>,
    expected: Result<TlsSettingsView, ClientErrorView>,
) -> bool {
    match got {
        Ok(s) => expected == Ok::<TlsSettingsView, ClientErrorView>(s@),
        Err(e) => expected == Err::<TlsSettingsView, ClientErrorView>(e@),
    }
}

/// The TLS settings for a target, given whether its host can be a server name.
pub fn settings_from_check(target: &Target, want_http2: bool, name_accepted: bool) -> (result:
    Result<TlsSettings, ClientError>)
    ensures
        planned_as(result, settings_of(target@, want_http2, name_accepted)),
{
    if !name_accepted {
        return Err(ClientError::InvalidServerName);
    }
    let mut versions: Vec<TlsVersion> = Vec::new();
    versions.push(TlsVersion::Tls13);
    let settings = TlsSettings {
        server_name: String::from_str(target.host()),
        alpn_protocols: alpn_preference(want_http2),
        versions,
        roots: RootStore::Platform,
        client_auth: false,
    };
    assert(settings@.versions =~= seq![TlsVersion::Tls13]);
    Ok(settings)
}

/// The TLS settings for a target.
pub fn tls_settings(target: &Target, want_http2: bool) -> (result: Result<TlsSettings, ClientError>)
    ensures
        planned_as(
            result,
            settings_of(target@, want_http2, server_name_accepted(target@.host)),
        ),
{
    let accepted = accepts_server_name(target.host());
    settings_from_check(target, want_http2, accepted)
}

/// What a peer certificate says of itself. It is shown to the user and decides
/// nothing.
#[derive(Debug, Clone, PartialEq, Eq)]
pub struct CertificateInfo {
    pub version: String,
    pub issuer: String,
    pub subject: String,
    pub valid_from: String,
    pub valid_until: String,
}

/// The mathematical value of a [`CertificateInfo`].
pub struct CertificateInfoView {
    pub version: Seq<char>,
    pub issuer: Seq<char>,
    pub subject: Seq<char>,
    pub valid_from: Seq<char>,
    pub valid_until: Seq<char>,
}

impl View for CertificateInfo {
    type V = CertificateInfoView;

    open spec fn view(&self) -> CertificateInfoView {
        CertificateInfoView {
            version: self.version@,
            issuer: self.issuer@,
            subject: self.subject@,
            valid_from: self.valid_from@,
            valid_until: self.valid_until@,
        }
    }
}

/// What `x509_parser::parse_x509_certificate` reads from DER bytes: `None`
/// where it refuses them, else the certificate's version, issuer, subject and
/// validity as that crate prints them.
pub uninterp spec fn decoded_certificate(der: Seq<u8>) -> Option<CertificateInfoView>;

/// The view of an optional [`CertificateInfo`].
pub open spec fn info_view(info: Option<CertificateInfo>) -> Option<CertificateInfoView> {
    match info {
        Some(i) => Some(i@),
        None => None,
    }
}

/// Decodes one DER certificate with `x509_parser::parse_x509_certificate` and
/// prints the five fields with the crate's own `Display`.
///
/// Trusted: the result is named, not described. The contract claims only that
/// decoding and printing are a function of the bytes.
#[verifier::external_body]
fn decode_certificate(der: &[u8]) -> (info: Option<CertificateInfo>)
    ensures
        info_view(info) == decoded_certificate(der@),
{
    match x509_parser::parse_x509_certificate(der) {
        Ok((_, cert)) => Some(
            CertificateInfo {
                version: cert.version.to_string(),
                issuer: cert.issuer.to_string(),
                subject: cert.subject.to_string(),
                valid_from: cert.validity.not_before.to_string(),
                valid_until: cert.validity.not_after.to_string(),
            },
        ),
        Err(_) => None,
    }
}

/// One record per certificate of the peer's chain, in the chain's order. A
/// certificate that cannot be decoded has `None` in its place: the chain was
/// already judged by the handshake, and these records decide nothing.
pub fn describe_chain(chain: &Vec<Vec<u8>>) -> (infos: Vec<Option<CertificateInfo>>)
    ensures
        infos.len() == chain.len(),
        forall|i: int|
            0 <= i < chain.len() ==> info_view(#[trigger] infos[i]) == decoded_certificate(
                chain[i]@,
            ),
{
    let mut infos: Vec<Option<CertificateInfo>> = Vec::new();
    let mut i: usize = 0;
    while i < chain.len()
        invariant
            i <= chain.len(),
            infos.len() == i,
            forall|j: int|
                0 <= j < i ==> info_view(#[trigger] infos[j]) == decoded_certificate(chain[j]@),
        decreases chain.len() - i,
    {
        let info = decode_certificate(chain[i].as_slice());
        infos.push(info);
        i += 1;
    }
    infos
}

} // verus!
