//! The HTTP connection preface and the handle that a finished preface yields.

use vstd::prelude::*;
use crate::error::ClientError;
use crate::error::ClientErrorView;
use crate::protocols::NegotiatedProtocol;

verus! {

/// The per-stream flow-control window offered to an HTTP/2 peer, in bytes.
pub const INITIAL_STREAM_WINDOW_SIZE: u32 = 65_535;

/// The connection-wide flow-control window offered to an HTTP/2 peer, in bytes.
pub const INITIAL_CONNECTION_WINDOW_SIZE: u32 = 1_048_576;

/// The largest frame accepted from an HTTP/2 peer, in bytes.
pub const MAX_FRAME_SIZE: u32 = 16_384;

/// The flow-control values a client offers in its HTTP/2 preface.
#[derive(Debug, Clone, Copy, PartialEq, Eq, Structural)]
pub struct Http2Settings {
    pub initial_stream_window_size: u32,
    pub initial_connection_window_size: u32,
    pub max_frame_size: u32,
}

/// What the preface of a connection consists of.
#[derive(Debug, Clone, Copy, PartialEq, Eq, Structural)]
pub enum HandshakePlan {
    /// HTTP/1.1 needs nothing beyond an open stream.
    Http1,
    /// HTTP/2 exchanges settings, the client offering these.
    Http2(Http2Settings),
}

/// The values this client always offers. They are conservative on purpose and
/// are not negotiated further.
pub open spec fn fixed_http2_settings() -> Http2Settings {
    Http2Settings {
        initial_stream_window_size: 65_535,
        initial_connection_window_size: 1_048_576,
        max_frame_size: 16_384,
    }
}

/// The preface of a connection that is to speak `protocol`.
pub open spec fn plan_of(protocol: NegotiatedProtocol) -> HandshakePlan {
    match protocol {
        NegotiatedProtocol::Http1 => HandshakePlan::Http1,
        NegotiatedProtocol::Http2 => HandshakePlan::Http2(fixed_http2_settings()),
    }
}

/// The values this client always offers in an HTTP/2 preface.
pub fn http2_settings() -> (settings: Http2Settings)
    ensures
        settings == fixed_http2_settings(),
{
    Http2Settings {
        initial_stream_window_size: INITIAL_STREAM_WINDOW_SIZE,
        initial_connection_window_size: INITIAL_CONNECTION_WINDOW_SIZE,
        max_frame_size: MAX_FRAME_SIZE,
    }
}

/// The preface of a connection that is to speak `protocol`.
pub fn handshake_plan(protocol: NegotiatedProtocol) -> (plan: HandshakePlan)
    ensures
        plan == plan_of(protocol),
{
    match protocol {
        NegotiatedProtocol::Http1 => HandshakePlan::Http1,
        NegotiatedProtocol::Http2 => HandshakePlan::Http2(http2_settings()),
    }
}

/// The kind of sender a connection has.
#[derive(Debug, Clone, Copy, PartialEq, Eq, Structural)]
pub enum SendRequestClient {
    /// One request at a time, no multiplexing.
    Http1,
    /// Streams could be multiplexed; this client still sends one request at a time.
    Http2,
}

impl SendRequestClient {
    /// The protocol that a sender of this kind speaks.
    pub open spec fn spec_protocol(self) -> NegotiatedProtocol {
        match self {
            SendRequestClient::Http1 => NegotiatedProtocol::Http1,
            SendRequestClient::Http2 => NegotiatedProtocol::Http2,
        }
    }

    /// The kind of sender that speaks `protocol`.
    pub open spec fn spec_for_protocol(protocol: NegotiatedProtocol) -> SendRequestClient {
        match protocol {
            NegotiatedProtocol::Http1 => SendRequestClient::Http1,
            NegotiatedProtocol::Http2 => SendRequestClient::Http2,
        }
    }

    /// The protocol that a sender of this kind speaks.
    pub fn protocol(self) -> (protocol: NegotiatedProtocol)
        ensures
            protocol == self.spec_protocol(),
    {
        match self {
            SendRequestClient::Http1 => NegotiatedProtocol::Http1,
            SendRequestClient::Http2 => NegotiatedProtocol::Http2,
        }
    }

    /// The kind of sender that speaks `protocol`.
    pub fn for_protocol(protocol: NegotiatedProtocol) -> (sender: SendRequestClient)
        ensures
            sender == Self::spec_for_protocol(protocol),
            sender.spec_protocol() == protocol,
    {
        match protocol {
            NegotiatedProtocol::Http1 => SendRequestClient::Http1,
            NegotiatedProtocol::Http2 => SendRequestClient::Http2,
        }
    }
}

/// Whether the task that pumps a connection's transport is still at work.
#[derive(Debug, Clone, PartialEq, Eq)]
pub enum DriverStatus {
    Running,
    /// The driver has ended, for the reason given. This is final.
    Stopped(String),
}

/// The mathematical value of a [`DriverStatus`].
pub enum DriverStatusView {
    Running,
    Stopped(Seq<char>),
}

impl View for DriverStatus {
    type V = DriverStatusView;

    open spec fn view(&self) -> DriverStatusView {
        match self {
            DriverStatus::Running => DriverStatusView::Running,
            DriverStatus::Stopped(reason) => DriverStatusView::Stopped(reason@),
        }
    }
}

/// An established connection: the kind of its sender and the latched status
/// of its driver.
///
/// The protocol of a handle never changes. The driver's status changes once at
/// most, from running to stopped, and keeps the first reason it was given.
#[derive(Debug, PartialEq, Eq)]
pub struct ConnectionHandle {
    sender: SendRequestClient,
    driver: DriverStatus,
}

/// The mathematical value of a [`ConnectionHandle`].
pub struct ConnectionHandleView {
    pub sender: SendRequestClient,
    pub driver: DriverStatusView,
}

impl ConnectionHandleView {
    /// The protocol the connection speaks.
    pub open spec fn protocol(self) -> NegotiatedProtocol {
        self.sender.spec_protocol()
    }

    /// Whether requests can still be sent.
    pub open spec fn is_open(self) -> bool {
        self.driver is Running
    }

    /// A fresh handle for `protocol`, its driver running.
    pub open spec fn established(protocol: NegotiatedProtocol) -> ConnectionHandleView {
        ConnectionHandleView {
            sender: SendRequestClient::spec_for_protocol(protocol),
            driver: DriverStatusView::Running,
        }
    }

    /// The handle once its driver has been reported as ended: the first report
    /// is latched, later ones change nothing.
    pub open spec fn after_driver_stopped(self, reason: Seq<char>) -> ConnectionHandleView {
        match self.driver {
            DriverStatusView::Running => ConnectionHandleView {
                sender: self.sender,
                driver: DriverStatusView::Stopped(reason),
            },
            DriverStatusView::Stopped(_) => self,
        }
    }
}

impl View for ConnectionHandle {
    type V = ConnectionHandleView;

    closed spec fn view(&self) -> ConnectionHandleView {
        ConnectionHandleView { sender: self.sender, driver: self.driver@ }
    }
}

impl ConnectionHandle {
    /// The handle of a connection whose preface has just succeeded.
    pub fn established(protocol: NegotiatedProtocol) -> (handle: ConnectionHandle)
        ensures
            handle@ == ConnectionHandleView::established(protocol),
            handle@.protocol() == protocol,
            handle@.is_open(),
    {
        ConnectionHandle {
            sender: SendRequestClient::for_protocol(protocol),
            driver: DriverStatus::Running,
        }
    }

    /// The protocol the connection speaks.
    pub fn protocol(&self) -> (protocol: NegotiatedProtocol)
        ensures
            protocol == self@.protocol(),
    {
        self.sender.protocol()
    }

    /// The kind of the connection's sender.
    pub fn sender(&self) -> (sender: SendRequestClient)
        ensures
            sender == self@.sender,
    {
        self.sender
    }

    /// Whether requests can still be sent.
    pub fn is_open(&self) -> (open: bool)
        ensures
            open == self@.is_open(),
    {
        match &self.driver {
            DriverStatus::Running => true,
            DriverStatus::Stopped(_) => false,
        }
    }

    /// The latched status of the driver.
    pub fn driver_status(&self) -> (status: &DriverStatus)
        ensures
            status@ == self@.driver,
    {
        &self.driver
    }

    /// Records that the driver has ended. The first report stays.
    pub fn driver_stopped(&mut self, reason: String)
        ensures
            final(self)@ == old(self)@.after_driver_stopped(reason@),
            final(self)@.protocol() == old(self)@.protocol(),
            !final(self)@.is_open(),
        no_unwind
    {
        let running = match &self.driver {
            DriverStatus::Running => true,
            DriverStatus::Stopped(_) => false,
        };
        if running {
            self.driver = DriverStatus::Stopped(reason);
        }
    }

    /// `Ok` while the driver runs, `ConnectionClosed` once it has stopped.
    pub fn check_open(&self) -> (result: Result<(), ClientError>)
        ensures
            self@.is_open() ==> result is Ok,
            !self@.is_open() ==> result is Err && result->Err_0@
                == ClientErrorView::ConnectionClosed,
    {
        if self.is_open() {
            Ok(())
        } else {
            Err(ClientError::ConnectionClosed)
        }
    }
}

/// What a finished preface yields: a handle for `protocol` where it succeeded,
/// a handshake failure with the reason where it did not.
pub open spec fn handshake_result(protocol: NegotiatedProtocol, failure: Option<Seq<char>>) -> Result<
    ConnectionHandleView,
    ClientErrorView,
> {
    match failure {
        None => Ok(ConnectionHandleView::established(protocol)),
        Some(reason) => Err(ClientErrorView::HandshakeFailed(reason)),
    }
}

/// Turns the outcome of a preface into a handle or a failure.
pub fn conclude_handshake(protocol: NegotiatedProtocol, failure: Option<String>) -> (result: Result<
    ConnectionHandle,
    ClientError,
>)
    ensures
        match result {
            Ok(handle) => handshake_result(protocol, failure.deep_view()) == Ok::<
                ConnectionHandleView,
                ClientErrorView,
            >(handle@),
            Err(e) => handshake_result(protocol, failure.deep_view()) == Err::<
                ConnectionHandleView,
                ClientErrorView,
            >(e@),
        },
{
    match failure {
        None => Ok(ConnectionHandle::established(protocol)),
        Some(reason) => Err(ClientError::HandshakeFailed(reason)),
    }
}

} // verus!
