//! One request at a time over one connection.
//!
//! A dispatcher stands between the callers and the sender of a connection. A
//! caller asks for the sender before it writes and gives it back when its
//! response is complete, its send has failed, or it gives up. The dispatcher
//! decides who may write; it performs no I/O and never waits itself.

use vstd::prelude::*;
use crate::error::ClientError;
use crate::error::ClientErrorView;
use crate::handshake::ConnectionHandle;
use crate::handshake::ConnectionHandleView;
use crate::request::Response;
use crate::request::ResponseView;

verus! {

/// What happens on the wire of a connection, as far as the order of sends is
/// concerned.
pub enum WireEvent {
    /// The caller with this number starts to write its request.
    Begin(u64),
    /// The exchange of the caller with this number is over: its response is
    /// complete, or its send failed or was abandoned.
    End(u64),
}

/// Whether a caller may write.
#[derive(Debug, Clone, Copy, PartialEq, Eq, Structural)]
pub enum Admission {
    /// The sender is the caller's until it gives it back.
    Proceed,
    /// Another caller holds the sender: wait and ask again.
    Wait,
}

/// What the dispatcher is told.
pub enum DispatchEvent {
    /// A caller asks for the sender.
    Acquire(u64),
    /// A caller gives the sender back.
    Release(u64),
    /// The driver of the connection has ended.
    DriverStopped(Seq<char>),
}

/// Whether the exchanges on a wire follow one another without overlap: the
/// wire is a run of pairs, each the beginning of an exchange and, right after
/// it, the end of the same exchange. The last exchange may still be open.
pub open spec fn serial(wire: Seq<WireEvent>) -> bool {
    forall|i: int| 0 <= i < wire.len() ==> #[trigger] in_turn(wire, i)
}

/// Whether the event at place `i` of a wire is in turn: a beginning at an even
/// place, and at an odd place the end of the exchange that began just before.
pub open spec fn in_turn(wire: Seq<WireEvent>, i: int) -> bool {
    if i % 2 == 0 {
        wire[i] is Begin
    } else {
        wire[i] is End && wire[i - 1] is Begin && wire[i]->End_0 == wire[i - 1]->Begin_0
    }
}

/// The mathematical value of a [`Dispatcher`].
pub struct DispatcherView {
    pub handle: ConnectionHandleView,
    /// The caller that holds the sender, if any does.
    pub holder: Option<u64>,
    /// Everything that has happened on the wire so far.
    pub wire: Seq<WireEvent>,
}

impl DispatcherView {
    /// A dispatcher on a connection that nobody has used yet.
    pub open spec fn initial(handle: ConnectionHandleView) -> DispatcherView {
        DispatcherView { handle, holder: None, wire: Seq::empty() }
    }

    /// What every dispatcher satisfies: the wire is serial, and its last
    /// exchange is open exactly while a caller holds the sender, which is then
    /// the caller of that exchange.
    pub open spec fn wf(self) -> bool {
        &&& serial(self.wire)
        &&& match self.holder {
            Some(caller) => self.wire.len() % 2 == 1 && self.wire.last() == WireEvent::Begin(
                caller,
            ),
            None => self.wire.len() % 2 == 0,
        }
    }

    /// What a caller is told when it asks for the sender: the connection is
    /// closed once its driver has stopped; else the caller waits while another
    /// holds the sender; else it may proceed.
    pub open spec fn admission(self, caller: u64) -> Result<Admission, ClientErrorView> {
        if !self.handle.is_open() {
            Err(ClientErrorView::ConnectionClosed)
        } else if self.holder is Some {
            Ok(Admission::Wait)
        } else {
            Ok(Admission::Proceed)
        }
    }

    /// The dispatcher after a caller asked for the sender: where the caller
    /// may proceed it holds the sender and its exchange begins on the wire;
    /// else nothing changes.
    pub open spec fn acquire(self, caller: u64) -> DispatcherView {
        if self.admission(caller) == Ok::<Admission, ClientErrorView>(Admission::Proceed) {
            DispatcherView {
                handle: self.handle,
                holder: Some(caller),
                wire: self.wire.push(WireEvent::Begin(caller)),
            }
        } else {
            self
        }
    }

    /// The dispatcher after a caller gave the sender back: where the caller
    /// held it, nobody holds it now and the exchange ends on the wire; else
    /// nothing changes.
    pub open spec fn release(self, caller: u64) -> DispatcherView {
        if self.holder == Some(caller) {
            DispatcherView {
                handle: self.handle,
                holder: None,
                wire: self.wire.push(WireEvent::End(caller)),
            }
        } else {
            self
        }
    }

    /// The dispatcher after the driver of its connection was reported as ended.
    pub open spec fn stop(self, reason: Seq<char>) -> DispatcherView {
        DispatcherView {
            handle: self.handle.after_driver_stopped(reason),
            holder: self.holder,
            wire: self.wire,
        }
    }

    /// The dispatcher after one event.
    pub open spec fn step(self, event: DispatchEvent) -> DispatcherView {
        match event {
            DispatchEvent::Acquire(caller) => self.acquire(caller),
            DispatchEvent::Release(caller) => self.release(caller),
            DispatchEvent::DriverStopped(reason) => self.stop(reason),
        }
    }

    /// The dispatcher after a run of events.
    pub open spec fn run(self, events: Seq<DispatchEvent>) -> DispatcherView
        decreases events.len(),
    {
        if events.len() == 0 {
            self
        } else {
            self.run(events.drop_last()).step(events.last())
        }
    }

    /// What a caller gets when it hands in the outcome of its send. A caller
    /// that does not hold the sender has no send to report. A response that
    /// came back is passed on. A send that failed is a closed connection where
    /// the driver has stopped, and a failed send with its reason otherwise.
    pub open spec fn completion(self, caller: u64, outcome: Result<ResponseView, Seq<char>>)
        -> Result<ResponseView, ClientErrorView> {
        if self.holder != Some(caller) {
            Err(ClientErrorView::SendFailed("no send in flight"@))
        } else {
            match outcome {
                Ok(response) => Ok(response),
                Err(reason) => if self.handle.is_open() {
                    Err(ClientErrorView::SendFailed(reason))
                } else {
                    Err(ClientErrorView::ConnectionClosed)
                },
            }
        }
    }
}

/// Every event leads from a well-formed dispatcher to a well-formed one. None
/// changes the protocol of the connection or opens a closed connection again,
/// and no caller's asking or giving back touches the driver's status.
pub proof fn lemma_step_keeps_wf(state: DispatcherView, event: DispatchEvent)
    requires
        state.wf(),
    ensures
        state.step(event).wf(),
        state.step(event).handle.protocol() == state.handle.protocol(),
        !state.handle.is_open() ==> !state.step(event).handle.is_open(),
        !(event is DriverStopped) ==> state.step(event).handle == state.handle,
{
    let next = state.step(event);
    if next.wire != state.wire {
        assert forall|i: int| 0 <= i < next.wire.len() implies #[trigger] in_turn(
            next.wire,
            i,
        ) by {
            if i < state.wire.len() {
                assert(in_turn(state.wire, i));
            }
        }
    }
}

/// Every dispatcher that can be reached from a fresh one is well-formed.
pub proof fn lemma_reachable_wf(handle: ConnectionHandleView, events: Seq<DispatchEvent>)
    ensures
        DispatcherView::initial(handle).run(events).wf(),
    decreases events.len(),
{
    if events.len() > 0 {
        lemma_reachable_wf(handle, events.drop_last());
        lemma_step_keeps_wf(DispatcherView::initial(handle).run(events.drop_last()), events.last());
    }
}

/// Two sends never overlap. Whatever callers ask for the sender and give it
/// back, in whatever order, the wire stays serial: after an exchange has begun
/// nothing happens on the wire before that same exchange ends, so the next
/// exchange begins only after it.
pub proof fn lemma_sends_never_interleave(
    handle: ConnectionHandleView,
    events: Seq<DispatchEvent>,
    i: int,
    j: int,
)
    requires
        0 <= i < j < DispatcherView::initial(handle).run(events).wire.len(),
        DispatcherView::initial(handle).run(events).wire[i] is Begin,
        DispatcherView::initial(handle).run(events).wire[j] is Begin,
    ensures
        serial(DispatcherView::initial(handle).run(events).wire),
        i + 1 < j,
        DispatcherView::initial(handle).run(events).wire[i + 1] == WireEvent::End(
            DispatcherView::initial(handle).run(events).wire[i]->Begin_0,
        ),
{
    lemma_reachable_wf(handle, events);
    let wire = DispatcherView::initial(handle).run(events).wire;
    assert(in_turn(wire, i));
    assert(in_turn(wire, j));
    assert(in_turn(wire, i + 1));
}

/// While one caller holds the sender, no other is admitted.
pub proof fn lemma_holder_excludes_others(state: DispatcherView, caller: u64)
    requires
        state.holder is Some,
    ensures
        state.admission(caller) != Ok::<Admission, ClientErrorView>(Admission::Proceed),
        state.acquire(caller) == state,
{
}

/// Once the driver has stopped, the connection stays closed whatever happens
/// afterwards, and every caller that asks for the sender is told so at once:
/// it is neither admitted nor made to wait.
pub proof fn lemma_closed_stays_closed(
    state: DispatcherView,
    reason: Seq<char>,
    events: Seq<DispatchEvent>,
    caller: u64,
)
    ensures
        !state.stop(reason).run(events).handle.is_open(),
        state.stop(reason).run(events).admission(caller) == Err::<Admission, ClientErrorView>(
            ClientErrorView::ConnectionClosed,
        ),
    decreases events.len(),
{
    if events.len() > 0 {
        lemma_closed_stays_closed(state, reason, events.drop_last(), caller);
    }
}

/// On an open connection whose sender nobody holds, an exchange goes through:
/// the caller is admitted at once, and the response that comes back for it is
/// the one it gets.
pub proof fn lemma_free_connection_serves(state: DispatcherView, caller: u64, response: ResponseView)
    requires
        state.handle.is_open(),
        state.holder is None,
    ensures
        state.admission(caller) == Ok::<Admission, ClientErrorView>(Admission::Proceed),
        state.acquire(caller).holder == Some(caller),
        state.acquire(caller).completion(caller, Ok(response)) == Ok::<
            ResponseView,
            ClientErrorView,
        >(response),
        state.acquire(caller).release(caller).holder is None,
{
}

/// Giving the sender back frees it: the next caller that asks is admitted, as
/// long as the connection is open. This holds too where the send was abandoned.
pub proof fn lemma_release_frees_sender(state: DispatcherView, holder: u64, next: u64)
    requires
        state.holder == Some(holder),
        state.handle.is_open(),
    ensures
        state.release(holder).holder is None,
        state.release(holder).admission(next) == Ok::<Admission, ClientErrorView>(
            Admission::Proceed,
        ),
{
}

/// The guard of a connection's sender.
pub struct Dispatcher {
    handle: ConnectionHandle,
    turn: Turn,
}

/// Who holds the sender, together with the history of the wire.
struct Turn {
    holder: Option<u64>,
    wire: Ghost<Seq<WireEvent>>,
}

impl View for Dispatcher {
    type V = DispatcherView;

    closed spec fn view(&self) -> DispatcherView {
        DispatcherView { handle: self.handle@, holder: self.turn.holder, wire: self.turn.wire@ }
    }
}

/// Whether an admission's answer is the one that `expected` describes.
pub open spec fn admitted_as(
    got: Result<Admission, ClientError>,
    expected: Result<Admission, ClientErrorView>,
) -> bool {
    match got {
        Ok(a) => expected == Ok::<Admission, ClientErrorView>(a),
        Err(e) => expected == Err::<Admission, ClientErrorView>(e@),
    }
}

/// Whether a completion's answer is the one that `expected` describes.
pub open spec fn completed_as(
    got: Result<Response, ClientError>,
    expected: Result<ResponseView, ClientErrorView>,
) -> bool {
    match got {
        Ok(r) => expected == Ok::<ResponseView, ClientErrorView>(r@),
        Err(e) => expected == Err::<ResponseView, ClientErrorView>(e@),
    }
}

/// The view of the outcome of a send.
pub open spec fn outcome_view(outcome: Result<Response, String>) -> Result<ResponseView, Seq<char>> {
    match outcome {
        Ok(r) => Ok(r@),
        Err(reason) => Err(reason@),
    }
}

impl Dispatcher {
    #[verifier::type_invariant]
    spec fn well_formed(self) -> bool {
        self@.wf()
    }

    /// A dispatcher on a connection that nobody has used yet.
    pub fn new(handle: ConnectionHandle) -> (dispatcher: Dispatcher)
        ensures
            dispatcher@ == DispatcherView::initial(handle@),
            dispatcher@.wf(),
    {
        Dispatcher { handle, turn: Turn { holder: None, wire: Ghost(Seq::empty()) } }
    }

    /// The connection behind the dispatcher.
    pub fn handle(&self) -> (handle: &ConnectionHandle)
        ensures
            handle@ == self@.handle,
            self@.wf(),
    {
        proof {
            use_type_invariant(self);
        }
        &self.handle
    }

    /// The caller that holds the sender, if any does.
    pub fn holder(&self) -> (holder: Option<u64>)
        ensures
            holder == self@.holder,
            self@.wf(),
    {
        proof {
            use_type_invariant(self);
        }
        self.turn.holder
    }

    /// What `caller` would be told if it asked for the sender now. Nothing
    /// changes.
    pub fn admission(&self, caller: u64) -> (result: Result<Admission, ClientError>)
        ensures
            admitted_as(result, self@.admission(caller)),
            self@.wf(),
    {
        proof {
            use_type_invariant(self);
        }
        if !self.handle.is_open() {
            Err(ClientError::ConnectionClosed)
        } else if self.turn.holder.is_some() {
            Ok(Admission::Wait)
        } else {
            Ok(Admission::Proceed)
        }
    }

    /// Asks for the sender on behalf of `caller`.
    ///
    /// Fails at once with `ConnectionClosed` where the driver has stopped.
    /// Tells the caller to wait while another holds the sender, and to proceed
    /// otherwise; the sender is then the caller's until it gives it back.
    pub fn acquire(&mut self, caller: u64) -> (result: Result<Admission, ClientError>)
        ensures
            admitted_as(result, old(self)@.admission(caller)),
            final(self)@ == old(self)@.acquire(caller),
            final(self)@.wf(),
    {
        proof {
            use_type_invariant(&*self);
            lemma_step_keeps_wf(self@, DispatchEvent::Acquire(caller));
        }
        if !self.handle.is_open() {
            Err(ClientError::ConnectionClosed)
        } else if self.turn.holder.is_some() {
            Ok(Admission::Wait)
        } else {
            self.turn = Turn {
                holder: Some(caller),
                wire: Ghost(self.turn.wire@.push(WireEvent::Begin(caller))),
            };
            Ok(Admission::Proceed)
        }
    }

    /// Gives the sender back for `caller` and passes on what became of its
    /// send.
    pub fn complete(&mut self, caller: u64, outcome: Result<Response, String>) -> (result: Result<
        Response,
        ClientError,
    >)
        ensures
            completed_as(result, old(self)@.completion(caller, outcome_view(outcome))),
            final(self)@ == old(self)@.release(caller),
            final(self)@.wf(),
    {
        proof {
            use_type_invariant(&*self);
        }
        if !self.release(caller) {
            return Err(ClientError::SendFailed(String::from_str("no send in flight")));
        }
        match outcome {
            Ok(response) => Ok(response),
            Err(reason) => {
                if self.handle.is_open() {
                    Err(ClientError::SendFailed(reason))
                } else {
                    Err(ClientError::ConnectionClosed)
                }
            },
        }
    }

    /// Gives the sender back for `caller`, whatever became of its send: this
    /// is what a caller does that abandons a send. Returns whether the caller
    /// held the sender.
    pub fn release(&mut self, caller: u64) -> (released: bool)
        ensures
            released == (old(self)@.holder == Some(caller)),
            final(self)@ == old(self)@.release(caller),
            final(self)@.wf(),
    {
        proof {
            use_type_invariant(&*self);
            lemma_step_keeps_wf(self@, DispatchEvent::Release(caller));
        }
        let held = match self.turn.holder {
            Some(h) => h == caller,
            None => false,
        };
        if held {
            self.turn = Turn {
                holder: None,
                wire: Ghost(self.turn.wire@.push(WireEvent::End(caller))),
            };
        }
        held
    }

    /// Records that the driver of the connection has ended. From now on every
    /// caller that asks for the sender is told that the connection is closed.
    pub fn driver_stopped(&mut self, reason: String)
        ensures
            final(self)@ == old(self)@.stop(reason@),
            final(self)@.wf(),
            !final(self)@.handle.is_open(),
    {
        proof {
            use_type_invariant(&*self);
        }
        self.handle.driver_stopped(reason);
    }
}

} // verus!
