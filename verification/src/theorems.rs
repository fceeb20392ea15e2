//! What holds of the server on every input: the exchanges of the three kinds
//! of channel, the end of a connection, the isolation of connections from one
//! another, the order in which the sources of an identity are tried, and the
//! pages that carry the port and the digest.

use crate::connection::{
    action_for, answers, is_idle, messages_sent, next_state, run, Action, Activity, CloseReason,
    ConnectionState, Event, HandshakeStage, READ_BUFFER_CAPACITY,
};
use crate::html_content::{
    lemma_digest_placeholder_once, lemma_port_placeholder_once, CLIENT_JS, INDEX_HTML,
};
use crate::http_server::{client_script, digest_placeholder, index_page, port_placeholder};
use crate::identity::{
    decide, resolution, state_after, Decision, FallbackReason, IdentityError, IdentitySource,
    Observation, ResolverState,
};
use crate::protocol::{
    classify, command_of, get_metadata_token, reply_to, start_video_token, Command, ProtocolError,
    Reply,
};
use crate::text::{
    decimal, is_trimmed, is_white_space, lemma_replaced_single_occurrence, lemma_trimmed_fixed,
    occurs_at, trimmed,
};
use crate::tls::bytes_array_text;
use vstd::prelude::*;
use vstd::utf8::*;

verus! {

/// The events of one exchange on a bidirectional stream whose read returned
/// `bytes`: the stream wins the race, is read, and the reply goes out.
pub open spec fn command_exchange(bytes: Vec<u8>) -> Seq<Event> {
    seq![Event::BidirectionalStream, Event::Read(Some(bytes)), Event::Done]
}

/// The events of one exchange on a unidirectional stream whose read returned
/// `read`: the stream wins the race, is read, and the acknowledgment goes
/// out.
pub open spec fn one_way_exchange(read: Option<Vec<u8>>) -> Seq<Event> {
    seq![Event::UnidirectionalStream, Event::Read(read), Event::Done]
}

/// The events of one exchange of datagrams.
pub open spec fn datagram_exchange(payload: Vec<u8>) -> Seq<Event> {
    seq![Event::Datagram(payload), Event::Done]
}

/// The answers to three events, one by one.
pub proof fn lemma_answers_of_three(state: ConnectionState, a: Event, b: Event, c: Event)
    ensures
        answers(state, seq![a, b, c]) == seq![
            action_for(next_state(state, a)),
            action_for(next_state(next_state(state, a), b)),
            action_for(next_state(next_state(next_state(state, a), b), c)),
        ],
        run(state, seq![a, b, c]) == next_state(next_state(next_state(state, a), b), c),
{
    let e3 = seq![a, b, c];
    let e2 = seq![b, c];
    let e1 = seq![c];
    assert(e3.drop_first() =~= e2);
    assert(e2.drop_first() =~= e1);
    assert(e1.drop_first() =~= Seq::<Event>::empty());
    let s1 = next_state(state, a);
    let s2 = next_state(s1, b);
    let s3 = next_state(s2, c);
    assert(answers(s3, Seq::<Event>::empty()) =~= Seq::<Action>::empty());
    assert(answers(s2, e1) =~= seq![action_for(s3)]);
    assert(answers(s1, e2) =~= seq![action_for(s2), action_for(s3)]);
    assert(answers(state, e3) =~= seq![action_for(s1), action_for(s2), action_for(s3)]);
    assert(run(s3, Seq::<Event>::empty()) == s3);
    assert(run(s2, e1) == s3);
    assert(run(s1, e2) == s3);
}

/// The answers to two events, one by one.
pub proof fn lemma_answers_of_two(state: ConnectionState, a: Event, b: Event)
    ensures
        answers(state, seq![a, b]) == seq![
            action_for(next_state(state, a)),
            action_for(next_state(next_state(state, a), b)),
        ],
        run(state, seq![a, b]) == next_state(next_state(state, a), b),
{
    let e2 = seq![a, b];
    let e1 = seq![b];
    assert(e2.drop_first() =~= e1);
    assert(e1.drop_first() =~= Seq::<Event>::empty());
    let s1 = next_state(state, a);
    let s2 = next_state(s1, b);
    assert(answers(s2, Seq::<Event>::empty()) =~= Seq::<Action>::empty());
    assert(answers(s1, e1) =~= seq![action_for(s2)]);
    assert(answers(state, e2) =~= seq![action_for(s1), action_for(s2)]);
    assert(run(s2, Seq::<Event>::empty()) == s2);
    assert(run(s1, e1) == s2);
}

/// Three actions of which the middle one alone sends a message send one
/// message.
proof fn lemma_one_message_of_three(first: Action, second: Action, third: Action)
    requires
        first is Read,
        second is Reply || second is OpenUnidirectional || second is SendDatagram,
        third is Race,
    ensures
        messages_sent(seq![first, second, third]) == 1,
{
    let a3 = seq![first, second, third];
    let a2 = seq![first, second];
    let a1 = seq![first];
    assert(a3.drop_last() =~= a2);
    assert(a2.drop_last() =~= a1);
    assert(a1.drop_last() =~= Seq::<Action>::empty());
    assert(messages_sent(Seq::<Action>::empty()) == 0);
    assert(messages_sent(a1) == 0);
    assert(messages_sent(a2) == 1);
}

/// The command that `text` is read as, when it arrives as UTF-8.
proof fn lemma_command_of_text(text: Seq<char>)
    ensures
        command_of(encode_utf8(text)) == Ok::<Command, ProtocolError>(classify(trimmed(text))),
{
    encode_utf8_valid_utf8(text);
    encode_utf8_decode_utf8(text);
}

/// A command whose token is neither `START_VIDEO` nor `GET_METADATA`, sent on
/// a fresh bidirectional stream, is answered with exactly one message, `ACK`,
/// after which the connection waits for the next event.
pub proof fn theorem_unknown_command_is_acknowledged(
    state: ConnectionState,
    text: Seq<char>,
    bytes: Vec<u8>,
)
    requires
        is_idle(state),
        bytes@ == encode_utf8(text),
        trimmed(text) != start_video_token(),
        trimmed(text) != get_metadata_token(),
    ensures
        answers(state, command_exchange(bytes)) == seq![
            Action::Read { limit: READ_BUFFER_CAPACITY },
            Action::Reply(Reply::Ack),
            Action::Race,
        ],
        messages_sent(answers(state, command_exchange(bytes))) == 1,
        run(state, command_exchange(bytes)) == ConnectionState::EventLoop(Activity::Racing),
{
    lemma_command_of_text(text);
    lemma_answers_of_three(
        state,
        Event::BidirectionalStream,
        Event::Read(Some(bytes)),
        Event::Done,
    );
    lemma_one_message_of_three(
        Action::Read { limit: READ_BUFFER_CAPACITY },
        Action::Reply(Reply::Ack),
        Action::Race,
    );
}

/// A text without white space at its ends that is not one of the two command
/// tokens is its own token, and so is answered with `ACK`.
pub proof fn theorem_plain_text_is_acknowledged(
    state: ConnectionState,
    text: Seq<char>,
    bytes: Vec<u8>,
)
    requires
        is_idle(state),
        bytes@ == encode_utf8(text),
        is_trimmed(text),
        text != start_video_token(),
        text != get_metadata_token(),
    ensures
        answers(state, command_exchange(bytes))[1] == Action::Reply(Reply::Ack),
{
    lemma_trimmed_fixed(text);
    theorem_unknown_command_is_acknowledged(state, text, bytes);
}

/// Whatever UTF-8 arrives on a fresh bidirectional stream, the exchange is one
/// read and one reply, and the reply is the one that the command's token
/// selects.
pub proof fn theorem_command_gets_its_reply(state: ConnectionState, bytes: Vec<u8>)
    requires
        is_idle(state),
        valid_utf8(bytes@),
    ensures
        answers(state, command_exchange(bytes)) == seq![
            Action::Read { limit: READ_BUFFER_CAPACITY },
            Action::Reply(reply_to(classify(trimmed(decode_utf8(bytes@))))),
            Action::Race,
        ],
        messages_sent(answers(state, command_exchange(bytes))) == 1,
        run(state, command_exchange(bytes)) == ConnectionState::EventLoop(Activity::Racing),
{
    let reply = reply_to(classify(trimmed(decode_utf8(bytes@))));
    lemma_answers_of_three(
        state,
        Event::BidirectionalStream,
        Event::Read(Some(bytes)),
        Event::Done,
    );
    lemma_one_message_of_three(
        Action::Read { limit: READ_BUFFER_CAPACITY },
        Action::Reply(reply),
        Action::Race,
    );
}

/// A peer that closes its bidirectional stream before sending anything gets
/// no reply, and the connection goes on.
pub proof fn theorem_silent_stream_gets_no_reply(state: ConnectionState)
    requires
        is_idle(state),
    ensures
        answers(state, seq![Event::BidirectionalStream, Event::Read(None)]) == seq![
            Action::Read { limit: READ_BUFFER_CAPACITY },
            Action::Race,
        ],
        run(state, seq![Event::BidirectionalStream, Event::Read(None)])
            == ConnectionState::EventLoop(Activity::Racing),
{
    lemma_answers_of_two(state, Event::BidirectionalStream, Event::Read(None));
}

/// Bytes that are not UTF-8, sent on a bidirectional stream, close the
/// connection: the answer to them is to stop, and no message is sent.
pub proof fn theorem_malformed_command_closes(state: ConnectionState, bytes: Vec<u8>)
    requires
        is_idle(state),
        !valid_utf8(bytes@),
    ensures
        answers(state, seq![Event::BidirectionalStream, Event::Read(Some(bytes))]) == seq![
            Action::Read { limit: READ_BUFFER_CAPACITY },
            Action::Stop(CloseReason::HandlerError(ProtocolError::MalformedUtf8)),
        ],
        messages_sent(answers(state, seq![Event::BidirectionalStream, Event::Read(Some(bytes))]))
            == 0,
        run(state, seq![Event::BidirectionalStream, Event::Read(Some(bytes))])
            == ConnectionState::Closed(CloseReason::HandlerError(ProtocolError::MalformedUtf8)),
{
    lemma_answers_of_two(state, Event::BidirectionalStream, Event::Read(Some(bytes)));
    let a2 = seq![
        Action::Read { limit: READ_BUFFER_CAPACITY },
        Action::Stop(CloseReason::HandlerError(ProtocolError::MalformedUtf8)),
    ];
    let a1 = seq![Action::Read { limit: READ_BUFFER_CAPACITY }];
    assert(a2.drop_last() =~= a1);
    assert(a1.drop_last() =~= Seq::<Action>::empty());
    assert(messages_sent(Seq::<Action>::empty()) == 0);
    assert(messages_sent(a1) == 0);
}

/// A closed connection stays closed and sends nothing, whatever is reported
/// to it.
pub proof fn theorem_closed_is_terminal(reason: CloseReason, events: Seq<Event>)
    ensures
        run(ConnectionState::Closed(reason), events) == ConnectionState::Closed(reason),
        messages_sent(answers(ConnectionState::Closed(reason), events)) == 0,
        forall|i: int|
            0 <= i < answers(ConnectionState::Closed(reason), events).len() ==> answers(
                ConnectionState::Closed(reason),
                events,
            )[i] == Action::Stop(reason),
    decreases events.len(),
{
    let closed = ConnectionState::Closed(reason);
    if events.len() > 0 {
        theorem_closed_is_terminal(reason, events.drop_first());
        let rest = answers(closed, events.drop_first());
        let all = answers(closed, events);
        assert(all =~= seq![Action::Stop(reason)] + rest);
        lemma_stops_send_nothing(all, reason);
    }
}

/// A sequence of nothing but stops sends no message.
proof fn lemma_stops_send_nothing(actions: Seq<Action>, reason: CloseReason)
    requires
        forall|i: int| 0 <= i < actions.len() ==> actions[i] == Action::Stop(reason),
    ensures
        messages_sent(actions) == 0,
    decreases actions.len(),
{
    if actions.len() > 0 {
        lemma_stops_send_nothing(actions.drop_last(), reason);
    }
}

/// A fresh unidirectional stream is answered with exactly one message:
/// `ACK_UNI`, on a stream that the server opens. This holds of a stream that
/// carried UTF-8 and of one that ended before it carried anything.
pub proof fn theorem_one_way_stream_is_acknowledged(
    state: ConnectionState,
    read: Option<Vec<u8>>,
)
    requires
        is_idle(state),
        read matches Some(bytes) ==> valid_utf8(bytes@),
    ensures
        answers(state, one_way_exchange(read)) == seq![
            Action::Read { limit: READ_BUFFER_CAPACITY },
            Action::OpenUnidirectional(Reply::AckUni),
            Action::Race,
        ],
        messages_sent(answers(state, one_way_exchange(read))) == 1,
        run(state, one_way_exchange(read)) == ConnectionState::EventLoop(Activity::Racing),
{
    lemma_answers_of_three(state, Event::UnidirectionalStream, Event::Read(read), Event::Done);
    lemma_one_message_of_three(
        Action::Read { limit: READ_BUFFER_CAPACITY },
        Action::OpenUnidirectional(Reply::AckUni),
        Action::Race,
    );
}

/// A datagram with a UTF-8 payload is answered with exactly one datagram,
/// `ACK_DGRAM`.
pub proof fn theorem_datagram_is_acknowledged(state: ConnectionState, payload: Vec<u8>)
    requires
        is_idle(state),
        valid_utf8(payload@),
    ensures
        answers(state, datagram_exchange(payload)) == seq![
            Action::SendDatagram(Reply::AckDatagram),
            Action::Race,
        ],
        messages_sent(answers(state, datagram_exchange(payload))) == 1,
        run(state, datagram_exchange(payload)) == ConnectionState::EventLoop(Activity::Racing),
{
    lemma_answers_of_two(state, Event::Datagram(payload), Event::Done);
    let a2 = seq![Action::SendDatagram(Reply::AckDatagram), Action::Race];
    let a1 = seq![Action::SendDatagram(Reply::AckDatagram)];
    assert(a2.drop_last() =~= a1);
    assert(a1.drop_last() =~= Seq::<Action>::empty());
    assert(messages_sent(Seq::<Action>::empty()) == 0);
    assert(messages_sent(a1) == 1);
}

/// A payload that is not UTF-8 closes the connection without an answer, on a
/// unidirectional stream and in a datagram alike.
pub proof fn theorem_malformed_payload_closes(state: ConnectionState, bytes: Vec<u8>)
    requires
        is_idle(state),
        !valid_utf8(bytes@),
    ensures
        run(state, seq![Event::UnidirectionalStream, Event::Read(Some(bytes))])
            == ConnectionState::Closed(CloseReason::HandlerError(ProtocolError::MalformedUtf8)),
        next_state(state, Event::Datagram(bytes)) == ConnectionState::Closed(
            CloseReason::HandlerError(ProtocolError::MalformedUtf8),
        ),
{
    lemma_answers_of_two(state, Event::UnidirectionalStream, Event::Read(Some(bytes)));
}

/// While a handler runs, a stream or datagram that arrives is not looked at:
/// the state and the action stay as they are until the handler is done.
pub proof fn theorem_handling_is_sequential(state: ConnectionState, event: Event)
    requires
        state is EventLoop,
        !is_idle(state),
        event is BidirectionalStream || event is UnidirectionalStream || event is Datagram,
    ensures
        next_state(state, event) == state,
{
}

/// The command tokens and the replies, character by character.
pub proof fn lemma_vocabulary()
    ensures
        start_video_token() == seq!['S', 'T', 'A', 'R', 'T', '_', 'V', 'I', 'D', 'E', 'O'],
        get_metadata_token() == seq!['G', 'E', 'T', '_', 'M', 'E', 'T', 'A', 'D', 'A', 'T', 'A'],
        Reply::StartingVideo.text() == seq![
            'S', 'T', 'A', 'R', 'T', 'I', 'N', 'G', '_', 'V', 'I', 'D', 'E', 'O',
        ],
        Reply::Ack.text() == seq!['A', 'C', 'K'],
        Reply::AckUni.text() == seq!['A', 'C', 'K', '_', 'U', 'N', 'I'],
        Reply::AckDatagram.text() == seq!['A', 'C', 'K', '_', 'D', 'G', 'R', 'A', 'M'],
        Reply::Ack.wire() == seq![0x41u8, 0x43, 0x4b],
        is_trimmed(start_video_token()),
        is_trimmed(get_metadata_token()),
{
    reveal_strlit("START_VIDEO");
    reveal_strlit("GET_METADATA");
    reveal_strlit("STARTING_VIDEO");
    reveal_strlit("ACK");
    reveal_strlit("ACK_UNI");
    reveal_strlit("ACK_DGRAM");
    assert(start_video_token() =~= seq!['S', 'T', 'A', 'R', 'T', '_', 'V', 'I', 'D', 'E', 'O']);
    assert(get_metadata_token() =~= seq![
        'G', 'E', 'T', '_', 'M', 'E', 'T', 'A', 'D', 'A', 'T', 'A',
    ]);
    assert(Reply::StartingVideo.text() =~= seq![
        'S', 'T', 'A', 'R', 'T', 'I', 'N', 'G', '_', 'V', 'I', 'D', 'E', 'O',
    ]);
    assert(Reply::Ack.text() =~= seq!['A', 'C', 'K']);
    assert(Reply::AckUni.text() =~= seq!['A', 'C', 'K', '_', 'U', 'N', 'I']);
    assert(Reply::AckDatagram.text() =~= seq!['A', 'C', 'K', '_', 'D', 'G', 'R', 'A', 'M']);
    let ack = Reply::Ack.text();
    assert(is_ascii_chars(ack));
    is_ascii_chars_encode_utf8(ack);
    assert(Reply::Ack.wire() =~= seq![0x41u8, 0x43, 0x4b]);
    assert(!is_white_space('S') && !is_white_space('O') && !is_white_space('G') && !is_white_space(
        'A',
    ));
}

/// `START_VIDEO`, with or without white space around it, is answered with
/// `STARTING_VIDEO`; `GET_METADATA` with the description of the media file.
pub proof fn theorem_known_commands(state: ConnectionState, text: Seq<char>, bytes: Vec<u8>)
    requires
        is_idle(state),
        bytes@ == encode_utf8(text),
    ensures
        trimmed(text) == start_video_token() ==> answers(state, command_exchange(bytes))[1]
            == Action::Reply(Reply::StartingVideo),
        trimmed(text) == get_metadata_token() ==> answers(state, command_exchange(bytes))[1]
            == Action::Reply(Reply::Metadata),
        trimmed(start_video_token()) == start_video_token(),
        trimmed(get_metadata_token()) == get_metadata_token(),
{
    lemma_vocabulary();
    lemma_trimmed_fixed(start_video_token());
    lemma_trimmed_fixed(get_metadata_token());
    lemma_command_of_text(text);
    encode_utf8_valid_utf8(text);
    encode_utf8_decode_utf8(text);
    theorem_command_gets_its_reply(state, bytes);
    assert(start_video_token() != get_metadata_token()) by {
        assert(start_video_token().len() == 11);
        assert(get_metadata_token().len() == 12);
    }
}

/// True of the states that a connection can be in: a reply on a
/// bidirectional stream is one of the three that answer a command.
pub open spec fn well_formed(state: ConnectionState) -> bool {
    state matches ConnectionState::EventLoop(Activity::Replying(reply)) ==> reply
        == Reply::StartingVideo || reply == Reply::Metadata || reply == Reply::Ack
}

/// Every step keeps a connection's state well-formed.
pub proof fn lemma_step_keeps_well_formed(state: ConnectionState, event: Event)
    requires
        well_formed(state),
    ensures
        well_formed(next_state(state, event)),
{
}

/// Whatever is reported to a connection from its start on, the message that
/// it is asked to send fits the channel: a command's reply on the command's
/// stream, `ACK_UNI` on a new unidirectional stream, `ACK_DGRAM` in a
/// datagram.
pub proof fn theorem_messages_fit_their_channel(events: Seq<Event>)
    ensures
        ({
            let state = run(
                ConnectionState::AwaitingHandshake(HandshakeStage::Request),
                events,
            );
            &&& well_formed(state)
            &&& action_for(state) matches Action::Reply(reply) ==> reply == Reply::StartingVideo
                || reply == Reply::Metadata || reply == Reply::Ack
            &&& action_for(state) matches Action::OpenUnidirectional(reply) ==> reply
                == Reply::AckUni
            &&& action_for(state) matches Action::SendDatagram(reply) ==> reply
                == Reply::AckDatagram
        }),
{
    lemma_run_keeps_well_formed(
        ConnectionState::AwaitingHandshake(HandshakeStage::Request),
        events,
    );
}

/// A run that starts well-formed ends well-formed.
proof fn lemma_run_keeps_well_formed(state: ConnectionState, events: Seq<Event>)
    requires
        well_formed(state),
    ensures
        well_formed(run(state, events)),
    decreases events.len(),
{
    if events.len() > 0 {
        lemma_step_keeps_well_formed(state, events.first());
        lemma_run_keeps_well_formed(next_state(state, events.first()), events.drop_first());
    }
}

/// No event is serviced before the handshake is complete: until then the
/// connection asks for nothing but the handshake, and it never goes back to it.
pub proof fn theorem_handshake_comes_first(state: ConnectionState, event: Event)
    ensures
        state is AwaitingHandshake ==> next_state(state, event) is AwaitingHandshake || next_state(
            state,
            event,
        ) == ConnectionState::Accepted || next_state(state, event) == ConnectionState::Closed(
            CloseReason::HandshakeError,
        ),
        !(state is AwaitingHandshake) ==> !(next_state(state, event) is AwaitingHandshake),
        state is EventLoop ==> next_state(state, event) != ConnectionState::Accepted,
{
}

/// The connections of a server, each with its state.
pub type Connections = Map<nat, ConnectionState>;

/// The connections after `event` was reported to connection `id`.
pub open spec fn deliver(connections: Connections, id: nat, event: Event) -> Connections {
    if connections.dom().contains(id) {
        connections.insert(id, next_state(connections[id], event))
    } else {
        connections
    }
}

/// The connections after a sequence of events, each reported to one of them.
pub open spec fn deliver_all(connections: Connections, trace: Seq<(nat, Event)>) -> Connections
    decreases trace.len(),
{
    if trace.len() == 0 {
        connections
    } else {
        deliver_all(deliver(connections, trace.first().0, trace.first().1), trace.drop_first())
    }
}

/// The events of a trace that were reported to connection `id`, in order.
pub open spec fn events_of(trace: Seq<(nat, Event)>, id: nat) -> Seq<Event>
    decreases trace.len(),
{
    if trace.len() == 0 {
        Seq::empty()
    } else if trace.first().0 == id {
        seq![trace.first().1] + events_of(trace.drop_first(), id)
    } else {
        events_of(trace.drop_first(), id)
    }
}

/// Connections are isolated: however the events of many connections are
/// interleaved, the state of each, and so every reply it sends, is what its
/// own events alone lead to. No connection is opened or dropped by another's
/// events.
pub proof fn theorem_connections_are_isolated(
    connections: Connections,
    trace: Seq<(nat, Event)>,
    id: nat,
)
    requires
        connections.dom().contains(id),
    ensures
        deliver_all(connections, trace).dom() == connections.dom(),
        deliver_all(connections, trace)[id] == run(connections[id], events_of(trace, id)),
    decreases trace.len(),
{
    if trace.len() > 0 {
        let first = trace.first();
        let after = deliver(connections, first.0, first.1);
        assert(after.dom() =~= connections.dom());
        theorem_connections_are_isolated(after, trace.drop_first(), id);
        if first.0 == id {
            let own = events_of(trace, id);
            assert(own.first() == first.1);
            assert(own.drop_first() =~= events_of(trace.drop_first(), id));
        }
    }
}

/// An event reported to one connection leaves every other one as it was.
pub proof fn theorem_failure_is_contained(
    connections: Connections,
    id: nat,
    other: nat,
    event: Event,
)
    requires
        id != other,
        connections.dom().contains(other),
    ensures
        deliver(connections, id, event).dom().contains(other),
        deliver(connections, id, event)[other] == connections[other],
{
}

/// In production mode the identity of the configured files is the one used,
/// whether or not the default files exist and whether or not an identity
/// could have been self-signed; and where they cannot be loaded, there is no
/// fallback.
pub proof fn theorem_production_never_falls_back(
    files_present: bool,
    loadable: bool,
    synthesized: bool,
    observation: Observation,
)
    ensures
        resolution(true, files_present, loadable, synthesized) == if loadable {
            Ok::<IdentitySource, IdentityError>(IdentitySource::ProductionFiles)
        } else {
            Err::<IdentitySource, IdentityError>(IdentityError::LoadFailed)
        },
        !(decide(ResolverState::LoadingRequired, observation) is SelfSign),
        !(decide(ResolverState::LoadingRequired, observation) is LoadDefaults),
{
}

/// Outside production mode, with no certificate files at the default paths,
/// a self-signed identity is produced: the policy calls for one, and the
/// resolver's step ends with it.
pub proof fn theorem_development_self_signs(cert_exists: bool, key_exists: bool, loadable: bool)
    requires
        !(cert_exists && key_exists),
    ensures
        decide(ResolverState::Probing, Observation::Probed { cert_exists, key_exists })
            == Decision::SelfSign(FallbackReason::NoCertificateFiles),
        state_after(
            ResolverState::Probing,
            decide(ResolverState::Probing, Observation::Probed { cert_exists, key_exists }),
            true,
        ) == ResolverState::Resolved(
            IdentitySource::SelfSigned(FallbackReason::NoCertificateFiles),
        ),
        resolution(false, false, loadable, true) == Ok::<IdentitySource, IdentityError>(
            IdentitySource::SelfSigned(FallbackReason::NoCertificateFiles),
        ),
{
}

/// Outside production mode every resolution ends with an identity, whatever
/// is found on the file system.
pub proof fn theorem_development_always_resolves(files_present: bool, loadable: bool)
    ensures
        resolution(false, files_present, loadable, true) is Ok,
{
}

/// The resolver, fed what the caller finds, ends as `resolution` says.
pub proof fn theorem_resolver_follows_policy(
    production: bool,
    files_present: bool,
    loadable: bool,
    synthesized: bool,
)
    ensures
        ({
            let start = if production {
                ResolverState::LoadingRequired
            } else {
                ResolverState::Probing
            };
            let load = if loadable {
                Observation::Loaded
            } else {
                Observation::LoadFailed
            };
            let probed = if production {
                start
            } else {
                state_after(
                    start,
                    decide(
                        start,
                        Observation::Probed { cert_exists: files_present, key_exists: files_present },
                    ),
                    synthesized,
                )
            };
            let end = state_after(probed, decide(probed, load), synthesized);
            match resolution(production, files_present, loadable, synthesized) {
                Ok(source) => end == ResolverState::Resolved(source),
                Err(error) => end == ResolverState::Failed(error),
            }
        }),
{
}

/// The script holds the digest as it is, and in one place: the page is the
/// template with the digest's text where the template has its placeholder.
pub proof fn theorem_script_embeds_digest(digest: Seq<u8>)
    ensures
        client_script(digest) == CLIENT_JS@.subrange(0, 34) + bytes_array_text(digest)
            + CLIENT_JS@.subrange(48, CLIENT_JS@.len() as int),
        CLIENT_JS@.subrange(34, 48) == digest_placeholder(),
{
    reveal_strlit("${CERT_DIGEST}");
    lemma_digest_placeholder_once();
    lemma_replaced_single_occurrence(
        CLIENT_JS@,
        digest_placeholder(),
        bytes_array_text(digest),
        34,
    );
    assert(occurs_at(CLIENT_JS@, digest_placeholder(), 34));
}

/// The document holds the port as it is, and in one place: the page is the
/// template with the port's decimal numeral where the template has its
/// placeholder.
pub proof fn theorem_document_embeds_port(port: u16)
    ensures
        index_page(port) == INDEX_HTML@.subrange(0, 481) + decimal(port as nat)
            + INDEX_HTML@.subrange(501, INDEX_HTML@.len() as int),
        INDEX_HTML@.subrange(481, 501) == port_placeholder(),
{
    reveal_strlit("${WEBTRANSPORT_PORT}");
    lemma_port_placeholder_once();
    lemma_replaced_single_occurrence(
        INDEX_HTML@,
        port_placeholder(),
        decimal(port as nat),
        481,
    );
    assert(occurs_at(INDEX_HTML@, port_placeholder(), 481));
}

} // verus!
