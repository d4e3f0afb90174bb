//! The failures that negotiation and dispatch can report.

use vstd::prelude::*;

verus! {

/// Every way in which a request can fail before or while it is sent.
///
/// Each stage of the negotiation has its own variant, so that a caller can tell
/// a transport failure from a TLS failure from a protocol failure.
#[derive(Debug, Clone, PartialEq, Eq)]
pub enum ClientError {
    /// The input is not an absolute URL, or its scheme is neither `http` nor `https`.
    InvalidUrl,
    /// The URL parsed but names no host.
    MissingHost,
    /// No byte stream to the target could be opened.
    ConnectFailed(String),
    /// The TLS handshake did not complete.
    TlsHandshakeFailed(String),
    /// The host cannot be sent as a TLS server name.
    InvalidServerName,
    /// The peer's ALPN answer is not one this client can accept.
    AlpnMismatch,
    /// The HTTP connection preface failed.
    HandshakeFailed(String),
    /// The cleartext upgrade to HTTP/2 broke off.
    UpgradeFailed(String),
    /// The connection's driver has stopped; nothing can be sent any more.
    ConnectionClosed,
    /// The request could not be sent, or no response came back.
    SendFailed(String),
}

/// The mathematical value of a [`ClientError`].
pub enum ClientErrorView {
    InvalidUrl,
    MissingHost,
    ConnectFailed(Seq<char>),
    TlsHandshakeFailed(Seq<char>),
    InvalidServerName,
    AlpnMismatch,
    HandshakeFailed(Seq<char>),
    UpgradeFailed(Seq<char>),
    ConnectionClosed,
    SendFailed(Seq<char>),
}

impl View for ClientError {
    type V = ClientErrorView;

    open spec fn view(&self) -> ClientErrorView {
        match self {
            ClientError::InvalidUrl => ClientErrorView::InvalidUrl,
            ClientError::MissingHost => ClientErrorView::MissingHost,
            ClientError::ConnectFailed(r) => ClientErrorView::ConnectFailed(r@),
            ClientError::TlsHandshakeFailed(r) => ClientErrorView::TlsHandshakeFailed(r@),
            ClientError::InvalidServerName => ClientErrorView::InvalidServerName,
            ClientError::AlpnMismatch => ClientErrorView::AlpnMismatch,
            ClientError::HandshakeFailed(r) => ClientErrorView::HandshakeFailed(r@),
            ClientError::UpgradeFailed(r) => ClientErrorView::UpgradeFailed(r@),
            ClientError::ConnectionClosed => ClientErrorView::ConnectionClosed,
            ClientError::SendFailed(r) => ClientErrorView::SendFailed(r@),
        }
    }
}

impl ClientErrorView {
    /// The fixed words that name the kind of failure.
    pub open spec fn label(self) -> Seq<char> {
        match self {
            ClientErrorView::InvalidUrl => "invalid URL"@,
            ClientErrorView::MissingHost => "missing host"@,
            ClientErrorView::ConnectFailed(_) => "connect failed"@,
            ClientErrorView::TlsHandshakeFailed(_) => "TLS handshake failed"@,
            ClientErrorView::InvalidServerName => "invalid server name"@,
            ClientErrorView::AlpnMismatch => "ALPN mismatch"@,
            ClientErrorView::HandshakeFailed(_) => "handshake failed"@,
            ClientErrorView::UpgradeFailed(_) => "upgrade failed"@,
            ClientErrorView::ConnectionClosed => "connection closed"@,
            ClientErrorView::SendFailed(_) => "send failed"@,
        }
    }

    /// The reason that the failure carries, if its kind has one.
    pub open spec fn reason(self) -> Option<Seq<char>> {
        match self {
            ClientErrorView::ConnectFailed(r) => Some(r),
            ClientErrorView::TlsHandshakeFailed(r) => Some(r),
            ClientErrorView::HandshakeFailed(r) => Some(r),
            ClientErrorView::UpgradeFailed(r) => Some(r),
            ClientErrorView::SendFailed(r) => Some(r),
            _ => None,
        }
    }

    /// The text shown for the failure: its label, then a colon and the reason
    /// where there is one.
    pub open spec fn message(self) -> Seq<char> {
        match self.reason() {
            Some(r) => self.label() + ": "@ + r,
            None => self.label(),
        }
    }
}

impl ClientError {
    /// The fixed words that name the kind of failure.
    pub fn label(&self) -> (words: &'static str)
        ensures
            words@ == self@.label(),
    {
        match self {
            ClientError::InvalidUrl => "invalid URL",
            ClientError::MissingHost => "missing host",
            ClientError::ConnectFailed(_) => "connect failed",
            ClientError::TlsHandshakeFailed(_) => "TLS handshake failed",
            ClientError::InvalidServerName => "invalid server name",
            ClientError::AlpnMismatch => "ALPN mismatch",
            ClientError::HandshakeFailed(_) => "handshake failed",
            ClientError::UpgradeFailed(_) => "upgrade failed",
            ClientError::ConnectionClosed => "connection closed",
            ClientError::SendFailed(_) => "send failed",
        }
    }

    /// The reason that the failure carries, if its kind has one.
    pub fn reason(&self) -> (reason: Option<&String>)
        ensures
            reason.is_some() == self@.reason().is_some(),
            reason matches Some(r) ==> self@.reason() == Some(r@),
    {
        match self {
            ClientError::ConnectFailed(r) => Some(r),
            ClientError::TlsHandshakeFailed(r) => Some(r),
            ClientError::HandshakeFailed(r) => Some(r),
            ClientError::UpgradeFailed(r) => Some(r),
            ClientError::SendFailed(r) => Some(r),
            _ => None,
        }
    }

    /// The text shown for the failure.
    pub fn message(&self) -> (text: String)
        ensures
            text@ == self@.message(),
    {
        let mut text = String::from_str(self.label());
        match self.reason() {
            Some(r) => {
                text.append(": ");
                text.append(r.as_str());
            },
            None => {},
        }
        text
    }

    /// A copy of the failure.
    pub fn duplicate(&self) -> (copy: ClientError)
        ensures
            copy == *self,
    {
        match self {
            ClientError::InvalidUrl => ClientError::InvalidUrl,
            ClientError::MissingHost => ClientError::MissingHost,
            ClientError::ConnectFailed(r) => ClientError::ConnectFailed(r.clone()),
            ClientError::TlsHandshakeFailed(r) => ClientError::TlsHandshakeFailed(r.clone()),
            ClientError::InvalidServerName => ClientError::InvalidServerName,
            ClientError::AlpnMismatch => ClientError::AlpnMismatch,
            ClientError::HandshakeFailed(r) => ClientError::HandshakeFailed(r.clone()),
            ClientError::UpgradeFailed(r) => ClientError::UpgradeFailed(r.clone()),
            ClientError::ConnectionClosed => ClientError::ConnectionClosed,
            ClientError::SendFailed(r) => ClientError::SendFailed(r.clone()),
        }
    }
}

} // verus!
