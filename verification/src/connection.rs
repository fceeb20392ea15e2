//! The per-connection event multiplexer: a state machine that is told what
//! happened on the transport and answers with the one thing to do next.
//!
//! The machine owns every decision of a connection's life: completing the
//! handshake, racing the three event sources, reading one message, choosing
//! the reply, and closing the connection when a handler fails. The caller owns
//! the transport: it performs the requested action and reports its outcome as
//! the next event.

use crate::protocol::{command_of, reply_to, Command, ProtocolError, Reply};
use crate::text::decode;
use vstd::prelude::*;
use vstd::slice::{slice_subrange, slice_to_vec};
use vstd::utf8::*;

verus! {

/// The most bytes that one read of a stream may deliver: the size of the
/// buffer that a connection reuses for all its reads.
pub const READ_BUFFER_CAPACITY: usize = 65536;

/// The buffer that a connection reads into. It is made once and used again
/// for every read; as the multiplexer asks for one read at a time, no two
/// reads ever share it.
#[derive(Debug)]
pub struct ReadBuffer {
    bytes: Vec<u8>,
}

impl View for ReadBuffer {
    type V = Seq<u8>;

    closed spec fn view(&self) -> Seq<u8> {
        self.bytes@
    }
}

impl ReadBuffer {
    /// A buffer of `READ_BUFFER_CAPACITY` zero bytes.
    pub fn new() -> (buffer: Self)
        ensures
            buffer@.len() == READ_BUFFER_CAPACITY,
            forall|i: int| 0 <= i < buffer@.len() ==> buffer@[i] == 0,
    {
        ReadBuffer { bytes: vec![0u8; READ_BUFFER_CAPACITY] }
    }

    /// The number of bytes that the buffer holds.
    pub fn len(&self) -> (len: usize)
        ensures
            len == self@.len(),
    {
        self.bytes.len()
    }

    /// The whole buffer, to read into.
    pub fn as_mut_slice(&mut self) -> (slice: &mut [u8])
        ensures
            slice@ == old(self)@,
            final(slice)@ == final(self)@,
    {
        self.bytes.as_mut_slice()
    }

    /// The first `len` bytes of the buffer: what a read of `len` bytes left
    /// there. `None` where the buffer is shorter than that.
    pub fn filled(&self, len: usize) -> (data: Option<Vec<u8>>)
        ensures
            data is Some <==> len <= self@.len(),
            data matches Some(bytes) ==> bytes@ == self@.subrange(0, len as int),
    {
        if len <= self.bytes.len() {
            Some(slice_to_vec(slice_subrange(self.bytes.as_slice(), 0, len)))
        } else {
            None
        }
    }
}

/// Why a connection was closed.
#[derive(Clone, Copy, Debug, PartialEq, Eq, Structural)]
pub enum CloseReason {
    /// The session's handshake did not complete.
    HandshakeError,
    /// None of the event sources could be waited on any longer.
    ConnectionLost,
    /// A stream or datagram handler failed.
    HandlerError(ProtocolError),
}

/// The two steps of a handshake.
#[derive(Clone, Copy, Debug, PartialEq, Eq, Structural)]
pub enum HandshakeStage {
    /// Waiting for the peer's session request.
    Request,
    /// The request is here and is being accepted.
    Acceptance,
}

/// What the event loop is busy with. There is one activity at a time: no
/// second stream or datagram is looked at until the loop is `Racing` again.
#[derive(Clone, Copy, Debug, PartialEq, Eq, Structural)]
pub enum Activity {
    /// Waiting for whichever event source is ready first.
    Racing,
    /// Reading the command of a bidirectional stream.
    ReadingCommand,
    /// Writing the reply to a command and finishing the stream.
    Replying(Reply),
    /// Reading the message of a unidirectional stream.
    ReadingOneWay,
    /// Acknowledging a unidirectional stream on a fresh stream.
    Acknowledging,
    /// Acknowledging a datagram.
    AnsweringDatagram,
}

/// The state of a connection.
#[derive(Clone, Copy, Debug, PartialEq, Eq, Structural)]
pub enum ConnectionState {
    /// The session has not been established yet.
    AwaitingHandshake(HandshakeStage),
    /// The session is established; no event has been selected yet.
    Accepted,
    /// The connection services streams and datagrams.
    EventLoop(Activity),
    /// Terminal: the connection is gone.
    Closed(CloseReason),
}

/// What happened on the transport, as the outcome of the last action.
#[derive(Debug)]
pub enum Event {
    /// The peer's session request arrived.
    SessionRequested,
    /// The session was accepted and the connection is established.
    HandshakeCompleted,
    /// The race was won by a new bidirectional stream.
    BidirectionalStream,
    /// The race was won by a new unidirectional stream.
    UnidirectionalStream,
    /// The race was won by a datagram with this payload.
    Datagram(Vec<u8>),
    /// The read returned these bytes, or `None` where the peer closed the
    /// stream before sending any.
    Read(Option<Vec<u8>>),
    /// The write, the new stream or the datagram went out.
    Done,
    /// The action failed.
    Failed,
}

/// The one thing to do next on the transport.
#[derive(Clone, Copy, Debug, PartialEq, Eq, Structural)]
pub enum Action {
    /// Wait for the peer's session request.
    AwaitSession,
    /// Accept the session request.
    AcceptSession,
    /// Wait for a new bidirectional stream, a new unidirectional stream and a
    /// datagram at once, and report the first that arrives.
    Race,
    /// Read once from the stream that won the race, at most `limit` bytes.
    Read { limit: usize },
    /// Write the reply to the stream that carried the command, and finish it.
    Reply(Reply),
    /// Open a unidirectional stream, write the message to it, and finish it.
    OpenUnidirectional(Reply),
    /// Send the message as one datagram.
    SendDatagram(Reply),
    /// Leave: the connection is closed.
    Stop(CloseReason),
}

/// True of the two states in which the three event sources are raced.
pub open spec fn is_idle(state: ConnectionState) -> bool {
    state == ConnectionState::Accepted || state == ConnectionState::EventLoop(Activity::Racing)
}

/// The state after the race was won.
pub open spec fn after_race(state: ConnectionState, event: Event) -> ConnectionState
    recommends
        is_idle(state),
{
    match event {
        Event::BidirectionalStream => ConnectionState::EventLoop(Activity::ReadingCommand),
        Event::UnidirectionalStream => ConnectionState::EventLoop(Activity::ReadingOneWay),
        Event::Datagram(payload) => if valid_utf8(payload@) {
            ConnectionState::EventLoop(Activity::AnsweringDatagram)
        } else {
            ConnectionState::Closed(CloseReason::HandlerError(ProtocolError::MalformedUtf8))
        },
        Event::Failed => ConnectionState::Closed(CloseReason::ConnectionLost),
        _ => state,
    }
}

/// The state after the command of a bidirectional stream was read.
pub open spec fn after_command(event: Event) -> ConnectionState {
    match event {
        Event::Read(None) => ConnectionState::EventLoop(Activity::Racing),
        Event::Read(Some(bytes)) => match command_of(bytes@) {
            Ok(command) => ConnectionState::EventLoop(Activity::Replying(reply_to(command))),
            Err(error) => ConnectionState::Closed(CloseReason::HandlerError(error)),
        },
        Event::Failed => ConnectionState::Closed(CloseReason::HandlerError(ProtocolError::Io)),
        _ => ConnectionState::EventLoop(Activity::ReadingCommand),
    }
}

/// The state after the message of a unidirectional stream was read. The
/// stream is acknowledged whatever it carried, and also where it ended before
/// it carried anything; only bytes that are not UTF-8 end the connection.
pub open spec fn after_one_way(event: Event) -> ConnectionState {
    match event {
        Event::Read(None) => ConnectionState::EventLoop(Activity::Acknowledging),
        Event::Read(Some(bytes)) => if valid_utf8(bytes@) {
            ConnectionState::EventLoop(Activity::Acknowledging)
        } else {
            ConnectionState::Closed(CloseReason::HandlerError(ProtocolError::MalformedUtf8))
        },
        Event::Failed => ConnectionState::Closed(CloseReason::HandlerError(ProtocolError::Io)),
        _ => ConnectionState::EventLoop(Activity::ReadingOneWay),
    }
}

/// The state after a message was sent, or failed to be.
pub open spec fn after_send(state: ConnectionState, event: Event) -> ConnectionState {
    match event {
        Event::Done => ConnectionState::EventLoop(Activity::Racing),
        Event::Failed => ConnectionState::Closed(CloseReason::HandlerError(ProtocolError::Io)),
        _ => state,
    }
}

/// The transition function. An event that the state does not wait for
/// changes nothing.
pub open spec fn next_state(state: ConnectionState, event: Event) -> ConnectionState {
    match state {
        ConnectionState::AwaitingHandshake(stage) => match (stage, event) {
            (HandshakeStage::Request, Event::SessionRequested) => ConnectionState::AwaitingHandshake(
                HandshakeStage::Acceptance,
            ),
            (HandshakeStage::Acceptance, Event::HandshakeCompleted) => ConnectionState::Accepted,
            (_, Event::Failed) => ConnectionState::Closed(CloseReason::HandshakeError),
            _ => state,
        },
        ConnectionState::Accepted => after_race(state, event),
        ConnectionState::EventLoop(activity) => match activity {
            Activity::Racing => after_race(state, event),
            Activity::ReadingCommand => after_command(event),
            Activity::ReadingOneWay => after_one_way(event),
            Activity::Replying(_) => after_send(state, event),
            Activity::Acknowledging => after_send(state, event),
            Activity::AnsweringDatagram => after_send(state, event),
        },
        ConnectionState::Closed(_) => state,
    }
}

/// The action that a state asks for.
pub open spec fn action_for(state: ConnectionState) -> Action {
    match state {
        ConnectionState::AwaitingHandshake(HandshakeStage::Request) => Action::AwaitSession,
        ConnectionState::AwaitingHandshake(HandshakeStage::Acceptance) => Action::AcceptSession,
        ConnectionState::Accepted => Action::Race,
        ConnectionState::EventLoop(activity) => match activity {
            Activity::Racing => Action::Race,
            Activity::ReadingCommand => Action::Read { limit: READ_BUFFER_CAPACITY },
            Activity::ReadingOneWay => Action::Read { limit: READ_BUFFER_CAPACITY },
            Activity::Replying(reply) => Action::Reply(reply),
            Activity::Acknowledging => Action::OpenUnidirectional(Reply::AckUni),
            Activity::AnsweringDatagram => Action::SendDatagram(Reply::AckDatagram),
        },
        ConnectionState::Closed(reason) => Action::Stop(reason),
    }
}

/// The state after a sequence of events.
pub open spec fn run(state: ConnectionState, events: Seq<Event>) -> ConnectionState
    decreases events.len(),
{
    if events.len() == 0 {
        state
    } else {
        run(next_state(state, events.first()), events.drop_first())
    }
}

/// The actions that a sequence of events is answered with, one for each event.
pub open spec fn answers(state: ConnectionState, events: Seq<Event>) -> Seq<Action>
    decreases events.len(),
{
    if events.len() == 0 {
        Seq::empty()
    } else {
        let next = next_state(state, events.first());
        seq![action_for(next)] + answers(next, events.drop_first())
    }
}

/// The number of messages that a sequence of actions sends to the peer.
pub open spec fn messages_sent(actions: Seq<Action>) -> nat
    decreases actions.len(),
{
    if actions.len() == 0 {
        0
    } else {
        let rest = messages_sent(actions.drop_last());
        match actions.last() {
            Action::Reply(_) => rest + 1,
            Action::OpenUnidirectional(_) => rest + 1,
            Action::SendDatagram(_) => rest + 1,
            _ => rest,
        }
    }
}

/// The multiplexer of one connection.
#[derive(Debug)]
pub struct ConnectionMultiplexer {
    state: ConnectionState,
}

impl View for ConnectionMultiplexer {
    type V = ConnectionState;

    closed spec fn view(&self) -> ConnectionState {
        self.state
    }
}

impl ConnectionMultiplexer {
    /// The multiplexer of a session whose handshake is pending.
    pub fn new() -> (mux: Self)
        ensures
            mux@ == ConnectionState::AwaitingHandshake(HandshakeStage::Request),
    {
        ConnectionMultiplexer { state: ConnectionState::AwaitingHandshake(HandshakeStage::Request) }
    }

    /// The current state.
    pub fn state(&self) -> (state: ConnectionState)
        ensures
            state == self@,
    {
        self.state
    }

    /// True once the connection is closed.
    pub fn is_closed(&self) -> (closed: bool)
        ensures
            closed == (self@ is Closed),
    {
        match self.state {
            ConnectionState::Closed(_) => true,
            _ => false,
        }
    }

    /// What to do in the current state.
    pub fn action(&self) -> (action: Action)
        ensures
            action == action_for(self@),
    {
        action_of(self.state)
    }

    /// Takes in the outcome of the last action and says what to do next.
    pub fn step(&mut self, event: Event) -> (action: Action)
        ensures
            final(self)@ == next_state(old(self)@, event),
            action == action_for(final(self)@),
    {
        let next = transition(self.state, event);
        self.state = next;
        action_of(next)
    }
}

/// Computes `action_for`.
pub fn action_of(state: ConnectionState) -> (action: Action)
    ensures
        action == action_for(state),
{
    match state {
        ConnectionState::AwaitingHandshake(HandshakeStage::Request) => Action::AwaitSession,
        ConnectionState::AwaitingHandshake(HandshakeStage::Acceptance) => Action::AcceptSession,
        ConnectionState::Accepted => Action::Race,
        ConnectionState::EventLoop(activity) => match activity {
            Activity::Racing => Action::Race,
            Activity::ReadingCommand => Action::Read { limit: READ_BUFFER_CAPACITY },
            Activity::ReadingOneWay => Action::Read { limit: READ_BUFFER_CAPACITY },
            Activity::Replying(reply) => Action::Reply(reply),
            Activity::Acknowledging => Action::OpenUnidirectional(Reply::AckUni),
            Activity::AnsweringDatagram => Action::SendDatagram(Reply::AckDatagram),
        },
        ConnectionState::Closed(reason) => Action::Stop(reason),
    }
}

/// Computes `next_state`.
pub fn transition(state: ConnectionState, event: Event) -> (next: ConnectionState)
    ensures
        next == next_state(state, event),
{
    match state {
        ConnectionState::AwaitingHandshake(stage) => match (stage, event) {
            (HandshakeStage::Request, Event::SessionRequested) => ConnectionState::AwaitingHandshake(
                HandshakeStage::Acceptance,
            ),
            (HandshakeStage::Acceptance, Event::HandshakeCompleted) => ConnectionState::Accepted,
            (_, Event::Failed) => ConnectionState::Closed(CloseReason::HandshakeError),
            _ => state,
        },
        ConnectionState::Accepted => on_race_won(state, event),
        ConnectionState::EventLoop(activity) => match activity {
            Activity::Racing => on_race_won(state, event),
            Activity::ReadingCommand => on_command_read(event),
            Activity::ReadingOneWay => on_one_way_read(event),
            Activity::Replying(_) => on_sent(state, event),
            Activity::Acknowledging => on_sent(state, event),
            Activity::AnsweringDatagram => on_sent(state, event),
        },
        ConnectionState::Closed(_) => state,
    }
}

/// Dispatches the event that won the race to its handler.
fn on_race_won(state: ConnectionState, event: Event) -> (next: ConnectionState)
    ensures
        next == after_race(state, event),
{
    match event {
        Event::BidirectionalStream => ConnectionState::EventLoop(Activity::ReadingCommand),
        Event::UnidirectionalStream => ConnectionState::EventLoop(Activity::ReadingOneWay),
        Event::Datagram(payload) => match decode(payload.as_slice()) {
            Some(_) => ConnectionState::EventLoop(Activity::AnsweringDatagram),
            None => ConnectionState::Closed(
                CloseReason::HandlerError(ProtocolError::MalformedUtf8),
            ),
        },
        Event::Failed => ConnectionState::Closed(CloseReason::ConnectionLost),
        _ => state,
    }
}

/// The handler of a bidirectional stream, after its one read.
fn on_command_read(event: Event) -> (next: ConnectionState)
    ensures
        next == after_command(event),
{
    match event {
        Event::Read(None) => ConnectionState::EventLoop(Activity::Racing),
        Event::Read(Some(bytes)) => match Command::parse(bytes.as_slice()) {
            Ok(command) => ConnectionState::EventLoop(Activity::Replying(command.reply())),
            Err(error) => ConnectionState::Closed(CloseReason::HandlerError(error)),
        },
        Event::Failed => ConnectionState::Closed(CloseReason::HandlerError(ProtocolError::Io)),
        _ => ConnectionState::EventLoop(Activity::ReadingCommand),
    }
}

/// The handler of a unidirectional stream, after its one read.
fn on_one_way_read(event: Event) -> (next: ConnectionState)
    ensures
        next == after_one_way(event),
{
    match event {
        Event::Read(None) => ConnectionState::EventLoop(Activity::Acknowledging),
        Event::Read(Some(bytes)) => match decode(bytes.as_slice()) {
            Some(_) => ConnectionState::EventLoop(Activity::Acknowledging),
            None => ConnectionState::Closed(
                CloseReason::HandlerError(ProtocolError::MalformedUtf8),
            ),
        },
        Event::Failed => ConnectionState::Closed(CloseReason::HandlerError(ProtocolError::Io)),
        _ => ConnectionState::EventLoop(Activity::ReadingOneWay),
    }
}

/// The end of a handler: the message went out, or did not.
fn on_sent(state: ConnectionState, event: Event) -> (next: ConnectionState)
    ensures
        next == after_send(state, event),
{
    match event {
        Event::Done => ConnectionState::EventLoop(Activity::Racing),
        Event::Failed => ConnectionState::Closed(CloseReason::HandlerError(ProtocolError::Io)),
        _ => state,
    }
}

} // verus!
