//! From a URL to the place a connection goes to.
//!
//! Resolving a target is pure parsing: nothing is looked up and nothing is
//! opened. The URL grammar itself is the `url` crate's; what this module owns is
//! what becomes of a parsed URL.

use vstd::prelude::*;
use crate::error::ClientError;
use crate::error::ClientErrorView;
use crate::text::append_decimal;
use crate::text::decimal;
use crate::text::text_eq;

verus! {

/// The two schemes a target can have.
#[derive(Debug, Clone, Copy, PartialEq, Eq, Structural)]
pub enum Scheme {
    Http,
    Https,
}

impl Scheme {
    /// The scheme's well-known port.
    pub open spec fn spec_default_port(self) -> u16 {
        match self {
            Scheme::Http => 80,
            Scheme::Https => 443,
        }
    }

    /// The scheme as it is written in a URL.
    pub open spec fn spec_name(self) -> Seq<char> {
        match self {
            Scheme::Http => "http"@,
            Scheme::Https => "https"@,
        }
    }

    /// The scheme's well-known port: 80 for `http`, 443 for `https`.
    pub fn default_port(self) -> (port: u16)
        ensures
            port == self.spec_default_port(),
    {
        match self {
            Scheme::Http => 80,
            Scheme::Https => 443,
        }
    }

    /// The scheme as it is written in a URL.
    pub fn name(self) -> (name: &'static str)
        ensures
            name@ == self.spec_name(),
    {
        match self {
            Scheme::Http => "http",
            Scheme::Https => "https",
        }
    }
}

/// Where a connection goes to, and whether it is wrapped in TLS.
///
/// A target is fixed once it is made. It always has a host, and its TLS flag
/// always agrees with its scheme.
#[derive(Debug, PartialEq, Eq)]
pub struct Target {
    host: String,
    port: u16,
    scheme: Scheme,
    use_tls: bool,
}

/// The mathematical value of a [`Target`]. The TLS flag is not a field of its
/// own: it is a function of the scheme.
pub struct TargetView {
    pub host: Seq<char>,
    pub port: u16,
    pub scheme: Scheme,
}

impl TargetView {
    /// What every target satisfies: it has a host.
    pub open spec fn wf(self) -> bool {
        self.host.len() > 0
    }

    /// Whether the transport is wrapped in TLS.
    pub open spec fn use_tls(self) -> bool {
        self.scheme == Scheme::Https
    }

    /// Host and port as a `Host` header names them: the port is written only
    /// where it is not the scheme's own.
    pub open spec fn authority(self) -> Seq<char> {
        if self.port == self.scheme.spec_default_port() {
            self.host
        } else {
            self.host + seq![':'] + decimal(self.port as nat)
        }
    }
}

impl View for Target {
    type V = TargetView;

    closed spec fn view(&self) -> TargetView {
        TargetView { host: self.host@, port: self.port, scheme: self.scheme }
    }
}

impl Target {
    #[verifier::type_invariant]
    spec fn well_formed(self) -> bool {
        &&& self.host@.len() > 0
        &&& self.use_tls == (self.scheme == Scheme::Https)
    }

    /// A target with the given parts. A target without a host cannot be: an
    /// empty host is a missing host.
    pub fn new(host: String, port: u16, scheme: Scheme) -> (result: Result<Target, ClientError>)
        ensures
            match result {
                Ok(target) => host@.len() > 0 && target@ == (TargetView {
                    host: host@,
                    port,
                    scheme,
                }),
                Err(e) => host@.len() == 0 && e@ == ClientErrorView::MissingHost,
            },
    {
        if host.as_str().unicode_len() == 0 {
            return Err(ClientError::MissingHost);
        }
        let use_tls = match scheme {
            Scheme::Https => true,
            Scheme::Http => false,
        };
        Ok(Target { host, port, scheme, use_tls })
    }

    /// The host to connect to. It is never empty.
    pub fn host(&self) -> (host: &str)
        ensures
            host@ == self@.host,
            self@.wf(),
    {
        proof {
            use_type_invariant(self);
        }
        self.host.as_str()
    }

    /// The port to connect to.
    pub fn port(&self) -> (port: u16)
        ensures
            port == self@.port,
    {
        self.port
    }

    /// The scheme of the URL the target came from.
    pub fn scheme(&self) -> (scheme: Scheme)
        ensures
            scheme == self@.scheme,
    {
        self.scheme
    }

    /// Whether the transport is wrapped in TLS: exactly for `https`.
    pub fn use_tls(&self) -> (tls: bool)
        ensures
            tls == self@.use_tls(),
            tls == (self@.scheme == Scheme::Https),
    {
        proof {
            use_type_invariant(self);
        }
        self.use_tls
    }

    /// Host and port as a `Host` header names them.
    pub fn authority(&self) -> (text: String)
        ensures
            text@ == self@.authority(),
    {
        let mut text = String::from_str(self.host.as_str());
        if self.port != self.scheme.default_port() {
            proof {
                reveal_strlit(":");
            }
            text.append(":");
            assert(text@ =~= self@.host + seq![':']);
            append_decimal(&mut text, self.port as u64);
        }
        text
    }

    /// The same target on another port.
    pub fn with_port(self, port: u16) -> (target: Target)
        ensures
            target@ == (TargetView { host: self@.host, port, scheme: self@.scheme }),
            target@.wf(),
    {
        proof {
            use_type_invariant(&self);
        }
        Target { host: self.host, port, scheme: self.scheme, use_tls: self.use_tls }
    }

    /// A copy of the target.
    pub fn duplicate(&self) -> (copy: Target)
        ensures
            copy@ == self@,
            copy@.wf(),
    {
        proof {
            use_type_invariant(self);
        }
        Target {
            host: self.host.clone(),
            port: self.port,
            scheme: self.scheme,
            use_tls: self.use_tls,
        }
    }
}

/// What the resolver reads off a parsed URL.
#[derive(Debug, Clone, PartialEq, Eq)]
pub struct UrlParts {
    /// The URL as the parser writes it back.
    pub href: String,
    /// The scheme, in lower case, without the colon.
    pub scheme: String,
    /// The host, if the URL has one.
    pub host: Option<String>,
    /// The port, if the URL names one that is not its scheme's own.
    pub port: Option<u16>,
}

/// The mathematical value of [`UrlParts`].
pub struct UrlPartsView {
    pub href: Seq<char>,
    pub scheme: Seq<char>,
    pub host: Option<Seq<char>>,
    pub port: Option<u16>,
}

impl View for UrlParts {
    type V = UrlPartsView;

    open spec fn view(&self) -> UrlPartsView {
        UrlPartsView {
            href: self.href@,
            scheme: self.scheme@,
            host: match self.host {
                Some(h) => Some(h@),
                None => None,
            },
            port: self.port,
        }
    }
}

/// What `url::Url::parse` makes of a text: `None` where it refuses the text,
/// else the parts of the URL it built.
pub uninterp spec fn parsed_url(input: Seq<char>) -> Option<UrlPartsView>;

/// Parses `input` with `url::Url::parse` and reads the parts off the result
/// with `as_str`, `scheme`, `host_str` and `port`.
///
/// Trusted: the result is named, not described. The contract claims only that
/// the parser is a function of its input.
#[verifier::external_body]
pub(crate) fn parse_url(input: &str) -> (parts: Option<UrlParts>)
    ensures
        parts.is_some() == parsed_url(input@).is_some(),
        parts matches Some(p) ==> parsed_url(input@) == Some(p@),
{
    match url::Url::parse(input) {
        Ok(u) => Some(
            UrlParts {
                href: u.as_str().to_string(),
                scheme: u.scheme().to_string(),
                host: u.host_str().map(String::from),
                port: u.port(),
            },
        ),
        Err(_) => None,
    }
}

/// The target that a parsed URL stands for.
///
/// A text that did not parse is an invalid URL. A URL without a host, or with
/// an empty one, misses its host. Of the schemes only `http` and `https` are
/// served; any other is an invalid URL. A port written in the URL wins;
/// without one the scheme's well-known port is taken.
pub open spec fn target_of(parts: Option<UrlPartsView>) -> Result<TargetView, ClientErrorView> {
    match parts {
        None => Err(ClientErrorView::InvalidUrl),
        Some(p) => match p.host {
            None => Err(ClientErrorView::MissingHost),
            Some(host) => if host.len() == 0 {
                Err(ClientErrorView::MissingHost)
            } else if p.scheme == "https"@ {
                Ok(
                    TargetView {
                        host,
                        port: match p.port {
                            Some(port) => port,
                            None => 443,
                        },
                        scheme: Scheme::Https,
                    },
                )
            } else if p.scheme == "http"@ {
                Ok(
                    TargetView {
                        host,
                        port: match p.port {
                            Some(port) => port,
                            None => 80,
                        },
                        scheme: Scheme::Http,
                    },
                )
            } else {
                Err(ClientErrorView::InvalidUrl)
            },
        },
    }
}

/// A URL that resolves goes to its own host, with TLS exactly where its scheme
/// is `https`, and on the port it names or, where it names none, on the
/// well-known port of its scheme.
pub proof fn lemma_target_follows_url(parts: UrlPartsView)
    ensures
        target_of(Some(parts)) matches Ok(target) ==> {
            &&& parts.host == Some(target.host)
            &&& target.host.len() > 0
            &&& target.scheme.spec_name() == parts.scheme
            &&& target.use_tls() == (parts.scheme == "https"@)
            &&& target.port == match parts.port {
                Some(port) => port,
                None => target.scheme.spec_default_port(),
            }
        },
{
}

/// The view of an optional [`UrlParts`].
pub open spec fn parts_view(parts: Option<UrlParts>) -> Option<UrlPartsView> {
    match parts {
        Some(p) => Some(p@),
        None => None,
    }
}

/// Whether a resolver's answer is the one that `expected` describes.
pub open spec fn resolved_as(
    got: Result<Target, ClientError>,
    expected: Result<TargetView, ClientErrorView>,
) -> bool {
    match got {
        Ok(t) => expected == Ok::<TargetView, ClientErrorView>(t@),
        Err(e) => expected == Err::<TargetView, ClientErrorView>(e@),
    }
}

/// Turns the parts of a parsed URL into a target.
pub fn target_from_parts(parts: Option<UrlParts>) -> (result: Result<Target, ClientError>)
    ensures
        resolved_as(result, target_of(parts_view(parts))),
{
    let p = match parts {
        Some(p) => p,
        None => {
            return Err(ClientError::InvalidUrl);
        },
    };
    let scheme_text = p.scheme;
    let port = p.port;
    let host = match p.host {
        Some(h) => h,
        None => {
            return Err(ClientError::MissingHost);
        },
    };
    if host.as_str().unicode_len() == 0 {
        return Err(ClientError::MissingHost);
    }
    let scheme = if text_eq(scheme_text.as_str(), "https") {
        Scheme::Https
    } else if text_eq(scheme_text.as_str(), "http") {
        Scheme::Http
    } else {
        return Err(ClientError::InvalidUrl);
    };
    let port = match port {
        Some(port) => port,
        None => scheme.default_port(),
    };
    Target::new(host, port, scheme)
}

/// Resolves a URL text to a target. Nothing is looked up or opened.
pub fn resolve_target(url: &str) -> (result: Result<Target, ClientError>)
    ensures
        resolved_as(result, target_of(parsed_url(url@))),
{
    target_from_parts(parse_url(url))
}

} // verus!
