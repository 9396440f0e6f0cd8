//! Whole runs of the relay: what it asks for over a sequence of outcomes,
//! and what that says about the frames it writes.

use crate::config::READ_DEADLINE_SECONDS;
use crate::protocol::{decode, frame, header_value, length_header, length_limit, Decoded};
use crate::relay::{
    step_model, ActionView, FatalView, Mode, NextView, OutcomeView, PhaseView, RelayView,
};
use crate::response::{
    closed_text, connect_failure_text, deadline_failure_text, error_body, read_failure_text,
    send_failure_text, with_terminator, without_terminator,
};
use crate::stream::granted;
use vstd::prelude::*;

verus! {

/// The operations that a relay asks for, one for each outcome that comes
/// in, up to the step at which it stops.
pub open spec fn actions(relay: RelayView, outcomes: Seq<OutcomeView>) -> Seq<ActionView>
    decreases outcomes.len(),
{
    if outcomes.len() == 0 {
        Seq::empty()
    } else {
        match step_model(relay, outcomes[0]).next {
            NextView::Perform { relay: next, action } => seq![action] + actions(
                next,
                outcomes.skip(1),
            ),
            _ => Seq::empty(),
        }
    }
}

/// The frames among a sequence of operations, in the order in which they
/// are written to the output.
pub open spec fn written(actions: Seq<ActionView>) -> Seq<Seq<u8>>
    decreases actions.len(),
{
    if actions.len() == 0 {
        Seq::empty()
    } else {
        match actions[0] {
            ActionView::WriteFrame { bytes } => seq![bytes] + written(actions.skip(1)),
            _ => written(actions.skip(1)),
        }
    }
}

/// The number of connections that a sequence of operations opens: one for
/// each message that the relay has taken in.
pub open spec fn connections(actions: Seq<ActionView>) -> nat
    decreases actions.len(),
{
    if actions.len() == 0 {
        0
    } else {
        match actions[0] {
            ActionView::Connect { .. } => 1 + connections(actions.skip(1)),
            _ => connections(actions.skip(1)),
        }
    }
}

/// Whether the relay holds a message that it has not answered yet.
pub open spec fn owes_response(phase: PhaseView) -> bool {
    match phase {
        PhaseView::Connect { .. } => true,
        PhaseView::Deadline { .. } => true,
        PhaseView::Send => true,
        PhaseView::Reply => true,
        _ => false,
    }
}

/// The states that a relay can be in: in minimal mode it never waits for a
/// deadline, a reply or the output.
pub open spec fn consistent(relay: RelayView) -> bool {
    relay.mode == Mode::Minimal ==> match relay.phase {
        PhaseView::Deadline { .. } => false,
        PhaseView::Reply => false,
        PhaseView::Output { .. } => false,
        _ => true,
    }
}

/// A relay that waits for a length header.
pub open spec fn idle(mode: Mode, path: Seq<char>) -> RelayView {
    RelayView { mode, path, phase: PhaseView::Header }
}

/// A step leads from a state that the relay can be in to another one, and
/// leaves the mode and the socket path as they are.
pub proof fn lemma_step_keeps_consistent(relay: RelayView, outcome: OutcomeView)
    requires
        consistent(relay),
    ensures
        step_model(relay, outcome).next matches NextView::Perform { relay: next, .. }
            ==> consistent(next) && next.mode == relay.mode && next.path == relay.path,
{
}

/// Nothing that happens over the connection ends the relay. Once a
/// message is taken in, the relay goes on whatever the outcome of the
/// connection, the deadline, the send or the read of the reply: only the
/// input and the output can make it give up.
pub proof fn lemma_connection_never_fatal(relay: RelayView, outcome: OutcomeView)
    requires
        owes_response(relay.phase),
    ensures
        step_model(relay, outcome).next is Perform,
{
}

/// In verbose mode the frames written and the connections opened keep
/// step: a relay that owes a response writes one frame before it opens
/// the next connection, and one that owes none opens a connection before
/// it writes the next frame.
pub proof fn lemma_frames_follow_connections(relay: RelayView, outcomes: Seq<OutcomeView>)
    requires
        relay.mode == Mode::Verbose,
    ensures
        owes_response(relay.phase) ==> connections(actions(relay, outcomes)) <= written(
            actions(relay, outcomes),
        ).len() <= connections(actions(relay, outcomes)) + 1,
        !owes_response(relay.phase) ==> written(actions(relay, outcomes)).len() <= connections(
            actions(relay, outcomes),
        ) <= written(actions(relay, outcomes)).len() + 1,
    decreases outcomes.len(),
{
    if outcomes.len() > 0 {
        match step_model(relay, outcomes[0]).next {
            NextView::Perform { relay: next, action } => {
                let rest = actions(next, outcomes.skip(1));
                lemma_frames_follow_connections(next, outcomes.skip(1));
                assert((seq![action] + rest).skip(1) =~= rest);
            },
            _ => {},
        }
    }
}

/// In minimal mode the relay writes no frame at all.
pub proof fn lemma_minimal_writes_nothing(relay: RelayView, outcomes: Seq<OutcomeView>)
    requires
        relay.mode == Mode::Minimal,
        consistent(relay),
    ensures
        written(actions(relay, outcomes)).len() == 0,
    decreases outcomes.len(),
{
    if outcomes.len() > 0 {
        match step_model(relay, outcomes[0]).next {
            NextView::Perform { relay: next, action } => {
                let rest = actions(next, outcomes.skip(1));
                lemma_minimal_writes_nothing(next, outcomes.skip(1));
                assert((seq![action] + rest).skip(1) =~= rest);
            },
            _ => {},
        }
    }
}

/// From its start on, a verbose relay has written at most one frame for
/// each message taken in, and has taken in at most one message more than
/// it has answered: one message is in flight at a time, and none is
/// answered twice.
pub proof fn lemma_one_frame_per_message(path: Seq<char>, outcomes: Seq<OutcomeView>)
    ensures
        written(actions(idle(Mode::Verbose, path), outcomes)).len() <= connections(
            actions(idle(Mode::Verbose, path), outcomes),
        ) <= written(actions(idle(Mode::Verbose, path), outcomes)).len() + 1,
{
    lemma_frames_follow_connections(idle(Mode::Verbose, path), outcomes);
}

/// From its start on, a minimal relay writes nothing to the output.
pub proof fn lemma_minimal_is_silent(path: Seq<char>, outcomes: Seq<OutcomeView>)
    ensures
        written(actions(idle(Mode::Minimal, path), outcomes)).len() == 0,
{
    lemma_minimal_writes_nothing(idle(Mode::Minimal, path), outcomes);
}

/// What a relay that waits for a header answers once it has read one frame
/// off the front of `stream`: up to four bytes for the header and, where
/// the relay asks for a body, up to as many bytes as it asks for.
pub open spec fn after_frame(mode: Mode, path: Seq<char>, stream: Seq<u8>) -> NextView {
    let header = stream.take(granted(4, stream.len()) as int);
    match step_model(idle(mode, path), OutcomeView::Done(header)).next {
        NextView::Perform { relay, action: ActionView::ReadBody { length } } => {
            let body = stream.skip(4).take(granted(length, stream.skip(4).len()) as int);
            step_model(relay, OutcomeView::Done(body)).next
        },
        next => next,
    }
}

/// The relay reads frames as the codec does. At the end of the stream it
/// is done; a frame that breaks off makes it give up with the codec's
/// error; a complete frame makes it open a connection for the message that
/// the codec finds.
pub proof fn lemma_relay_reads_as_decode(mode: Mode, path: Seq<char>, stream: Seq<u8>)
    ensures
        after_frame(mode, path, stream) == (match decode(stream) {
            Decoded::End => NextView::Finish,
            Decoded::Failed(error) => NextView::Abort(FatalView::Framing(error)),
            Decoded::Message { body, rest } => NextView::Perform {
                relay: RelayView { mode, path, phase: PhaseView::Connect { message: body } },
                action: ActionView::Connect { path },
            },
        }),
{
    let header = stream.take(granted(4, stream.len()) as int);
    if stream.len() >= 4 {
        assert(header_value(header) == header_value(stream));
        let length = header_value(stream);
        let body = stream.skip(4).take(granted(length, stream.skip(4).len()) as int);
        if stream.len() - 4 >= length {
            assert(body =~= stream.subrange(4, 4 + length as int));
        }
    }
}

/// How the application dealt with one message.
pub enum Exchange {
    /// No connection could be opened, for this reason.
    Refused { reason: Seq<char> },
    /// A connection was opened, and its read deadline could not be set,
    /// for this reason.
    Unready { reason: Seq<char> },
    /// A connection was opened and its deadline set, and the message could
    /// not be sent, for this reason.
    Unsent { reason: Seq<char> },
    /// A connection was opened and the message sent over it; the read of
    /// the reply ended with `reply`.
    Served { reply: OutcomeView },
}

/// The response that the host gets for a message.
pub open spec fn response(exchange: Exchange) -> Seq<u8> {
    match exchange {
        Exchange::Refused { reason } => error_body(connect_failure_text(reason)),
        Exchange::Unready { reason } => error_body(deadline_failure_text(reason)),
        Exchange::Unsent { reason } => error_body(send_failure_text(reason)),
        Exchange::Served { reply: OutcomeView::Failed(reason) } => error_body(
            read_failure_text(reason),
        ),
        Exchange::Served { reply: OutcomeView::Done(line) } => if line.len() == 0 {
            error_body(closed_text())
        } else {
            without_terminator(line)
        },
    }
}

/// The outcome of an operation that succeeded and read nothing.
pub open spec fn done() -> OutcomeView {
    OutcomeView::Done(Seq::empty())
}

/// The outcomes that a verbose relay meets with one message. The header
/// and the body are read. Then the connection is opened, its deadline is
/// set, the message is sent and the reply is read, as far as this goes:
/// the first of these that fails ends the exchange. At last the response
/// is written.
pub open spec fn exchange_outcomes(message: Seq<u8>, exchange: Exchange) -> Seq<OutcomeView> {
    let header = OutcomeView::Done(length_header(message.len()));
    let body = OutcomeView::Done(message);
    match exchange {
        Exchange::Refused { reason } => seq![header, body, OutcomeView::Failed(reason), done()],
        Exchange::Unready { reason } => seq![
            header,
            body,
            done(),
            OutcomeView::Failed(reason),
            done(),
        ],
        Exchange::Unsent { reason } => seq![
            header,
            body,
            done(),
            done(),
            OutcomeView::Failed(reason),
            done(),
        ],
        Exchange::Served { reply } => seq![header, body, done(), done(), done(), reply, done()],
    }
}

/// The outcomes that a verbose relay meets over a whole session: those of
/// each message in turn, and then the end of the input.
pub open spec fn session_outcomes(messages: Seq<Seq<u8>>, exchanges: Seq<Exchange>) -> Seq<
    OutcomeView,
>
    decreases messages.len(),
{
    if messages.len() == 0 || exchanges.len() == 0 {
        seq![done()]
    } else {
        exchange_outcomes(messages[0], exchanges[0]) + session_outcomes(
            messages.skip(1),
            exchanges.skip(1),
        )
    }
}

/// The operations that a verbose relay asks for with one message, after
/// the read of the header that it began with: the read of the body and
/// the connection; over a connection that was opened the deadline, the
/// message with its line feed, and the read of the reply, as far as the
/// exchange goes; then the one frame with the response, and the read of
/// the next header.
pub open spec fn exchange_actions(path: Seq<char>, message: Seq<u8>, exchange: Exchange) -> Seq<
    ActionView,
> {
    let body = ActionView::ReadBody { length: message.len() };
    let connect = ActionView::Connect { path };
    let deadline = ActionView::SetReadDeadline { seconds: READ_DEADLINE_SECONDS as nat };
    let send = ActionView::Send { bytes: with_terminator(message) };
    let answer = ActionView::WriteFrame { bytes: frame(response(exchange)) };
    match exchange {
        Exchange::Refused { .. } => seq![body, connect, answer, ActionView::ReadHeader],
        Exchange::Unready { .. } => seq![body, connect, deadline, answer, ActionView::ReadHeader],
        Exchange::Unsent { .. } => seq![
            body,
            connect,
            deadline,
            send,
            answer,
            ActionView::ReadHeader,
        ],
        Exchange::Served { .. } => seq![
            body,
            connect,
            deadline,
            send,
            ActionView::ReadLine,
            answer,
            ActionView::ReadHeader,
        ],
    }
}

/// The operations that a verbose relay asks for over a whole session:
/// those for each message in turn. At the end of the input it asks for
/// nothing more.
pub open spec fn session_actions(
    path: Seq<char>,
    messages: Seq<Seq<u8>>,
    exchanges: Seq<Exchange>,
) -> Seq<ActionView>
    decreases messages.len(),
{
    if messages.len() == 0 || exchanges.len() == 0 {
        Seq::empty()
    } else {
        exchange_actions(path, messages[0], exchanges[0]) + session_actions(
            path,
            messages.skip(1),
            exchanges.skip(1),
        )
    }
}

/// A verbose relay in the given phase.
pub open spec fn verbose(path: Seq<char>, phase: PhaseView) -> RelayView {
    RelayView { mode: Mode::Verbose, path, phase }
}

/// The first outcome decides the first operation; the relay that it leaves
/// meets the other outcomes.
proof fn lemma_first_action(relay: RelayView, first: OutcomeView, rest: Seq<OutcomeView>)
    ensures
        actions(relay, seq![first] + rest) == (match step_model(relay, first).next {
            NextView::Perform { relay: next, action } => seq![action] + actions(next, rest),
            _ => Seq::empty(),
        }),
{
    let outcomes = seq![first] + rest;
    assert(outcomes[0] == first);
    assert(outcomes.skip(1) =~= rest);
}

/// A complete header and a complete body lead to the attempt to connect.
proof fn lemma_take_in(path: Seq<char>, message: Seq<u8>, rest: Seq<OutcomeView>)
    requires
        message.len() < length_limit(),
    ensures
        actions(
            verbose(path, PhaseView::Header),
            seq![OutcomeView::Done(length_header(message.len()))] + (seq![
                OutcomeView::Done(message),
            ] + rest),
        ) == seq![ActionView::ReadBody { length: message.len() }] + (seq![
            ActionView::Connect { path },
        ] + actions(verbose(path, PhaseView::Connect { message }), rest)),
{
    let header = length_header(message.len());
    assert(header_value(header) == message.len());
    lemma_first_action(
        verbose(path, PhaseView::Header),
        OutcomeView::Done(header),
        seq![OutcomeView::Done(message)] + rest,
    );
    lemma_first_action(
        verbose(path, PhaseView::Body { length: message.len() }),
        OutcomeView::Done(message),
        rest,
    );
}

/// A connection that was opened gets its read deadline.
proof fn lemma_connected(path: Seq<char>, message: Seq<u8>, rest: Seq<OutcomeView>)
    ensures
        actions(verbose(path, PhaseView::Connect { message }), seq![done()] + rest) == seq![
            ActionView::SetReadDeadline { seconds: READ_DEADLINE_SECONDS as nat },
        ] + actions(verbose(path, PhaseView::Deadline { message }), rest),
{
    lemma_first_action(verbose(path, PhaseView::Connect { message }), done(), rest);
}

/// Once the deadline is set, the message is sent with its line feed.
proof fn lemma_ready(path: Seq<char>, message: Seq<u8>, rest: Seq<OutcomeView>)
    ensures
        actions(verbose(path, PhaseView::Deadline { message }), seq![done()] + rest) == seq![
            ActionView::Send { bytes: with_terminator(message) },
        ] + actions(verbose(path, PhaseView::Send), rest),
{
    lemma_first_action(verbose(path, PhaseView::Deadline { message }), done(), rest);
}

/// Once the message is sent, the reply is read.
proof fn lemma_sent(path: Seq<char>, rest: Seq<OutcomeView>)
    ensures
        actions(verbose(path, PhaseView::Send), seq![done()] + rest) == seq![
            ActionView::ReadLine,
        ] + actions(verbose(path, PhaseView::Reply), rest),
{
    lemma_first_action(verbose(path, PhaseView::Send), done(), rest);
}

/// Whether `outcome` ends the exchange of a relay in `phase`, with the
/// response that `exchange` calls for.
spec fn ends_with(phase: PhaseView, outcome: OutcomeView, exchange: Exchange) -> bool {
    match exchange {
        Exchange::Refused { reason } => phase is Connect && outcome == OutcomeView::Failed(reason),
        Exchange::Unready { reason } => phase is Deadline && outcome == OutcomeView::Failed(
            reason,
        ),
        Exchange::Unsent { reason } => phase is Send && outcome == OutcomeView::Failed(reason),
        Exchange::Served { reply } => phase is Reply && outcome == reply,
    }
}

/// The outcome that ends an exchange is answered with one frame, which
/// holds the response, and the relay turns to the next header.
proof fn lemma_answered(
    path: Seq<char>,
    phase: PhaseView,
    outcome: OutcomeView,
    exchange: Exchange,
    rest: Seq<OutcomeView>,
)
    requires
        ends_with(phase, outcome, exchange),
    ensures
        actions(verbose(path, phase), seq![outcome] + (seq![done()] + rest)) == seq![
            ActionView::WriteFrame { bytes: frame(response(exchange)) },
        ] + (seq![ActionView::ReadHeader] + actions(verbose(path, PhaseView::Header), rest)),
{
    let relay = verbose(path, phase);
    lemma_first_action(relay, outcome, seq![done()] + rest);
    let waiting = step_model(relay, outcome).next->Perform_relay;
    lemma_first_action(waiting, done(), rest);
}

/// One message whose connection is refused.
proof fn lemma_exchange_refused(
    path: Seq<char>,
    message: Seq<u8>,
    reason: Seq<char>,
    rest: Seq<OutcomeView>,
)
    requires
        message.len() < length_limit(),
    ensures
        actions(
            idle(Mode::Verbose, path),
            exchange_outcomes(message, Exchange::Refused { reason }) + rest,
        ) == exchange_actions(path, message, Exchange::Refused { reason }) + actions(
            idle(Mode::Verbose, path),
            rest,
        ),
{
    let exchange = Exchange::Refused { reason };
    let header = OutcomeView::Done(length_header(message.len()));
    let body = OutcomeView::Done(message);
    let failed = OutcomeView::Failed(reason);
    let later = actions(idle(Mode::Verbose, path), rest);
    let t2 = seq![failed] + (seq![done()] + rest);
    assert(exchange_outcomes(message, exchange) + rest =~= seq![header] + (seq![body] + t2));
    lemma_take_in(path, message, t2);
    lemma_answered(path, PhaseView::Connect { message }, failed, exchange, rest);
    let answer = ActionView::WriteFrame { bytes: frame(response(exchange)) };
    assert(exchange_actions(path, message, exchange) + later =~= seq![
        ActionView::ReadBody { length: message.len() },
    ] + (seq![ActionView::Connect { path }] + (seq![answer] + (seq![ActionView::ReadHeader]
        + later))));
}

/// One message whose connection gets no deadline.
proof fn lemma_exchange_unready(
    path: Seq<char>,
    message: Seq<u8>,
    reason: Seq<char>,
    rest: Seq<OutcomeView>,
)
    requires
        message.len() < length_limit(),
    ensures
        actions(
            idle(Mode::Verbose, path),
            exchange_outcomes(message, Exchange::Unready { reason }) + rest,
        ) == exchange_actions(path, message, Exchange::Unready { reason }) + actions(
            idle(Mode::Verbose, path),
            rest,
        ),
{
    let exchange = Exchange::Unready { reason };
    let header = OutcomeView::Done(length_header(message.len()));
    let body = OutcomeView::Done(message);
    let failed = OutcomeView::Failed(reason);
    let later = actions(idle(Mode::Verbose, path), rest);
    let t3 = seq![failed] + (seq![done()] + rest);
    let t2 = seq![done()] + t3;
    assert(exchange_outcomes(message, exchange) + rest =~= seq![header] + (seq![body] + t2));
    lemma_take_in(path, message, t2);
    lemma_connected(path, message, t3);
    lemma_answered(path, PhaseView::Deadline { message }, failed, exchange, rest);
    let answer = ActionView::WriteFrame { bytes: frame(response(exchange)) };
    assert(exchange_actions(path, message, exchange) + later =~= seq![
        ActionView::ReadBody { length: message.len() },
    ] + (seq![ActionView::Connect { path }] + (seq![
        ActionView::SetReadDeadline { seconds: READ_DEADLINE_SECONDS as nat },
    ] + (seq![answer] + (seq![ActionView::ReadHeader] + later)))));
}

/// One message that cannot be sent.
proof fn lemma_exchange_unsent(
    path: Seq<char>,
    message: Seq<u8>,
    reason: Seq<char>,
    rest: Seq<OutcomeView>,
)
    requires
        message.len() < length_limit(),
    ensures
        actions(
            idle(Mode::Verbose, path),
            exchange_outcomes(message, Exchange::Unsent { reason }) + rest,
        ) == exchange_actions(path, message, Exchange::Unsent { reason }) + actions(
            idle(Mode::Verbose, path),
            rest,
        ),
{
    let exchange = Exchange::Unsent { reason };
    let header = OutcomeView::Done(length_header(message.len()));
    let body = OutcomeView::Done(message);
    let failed = OutcomeView::Failed(reason);
    let later = actions(idle(Mode::Verbose, path), rest);
    let t4 = seq![failed] + (seq![done()] + rest);
    let t3 = seq![done()] + t4;
    let t2 = seq![done()] + t3;
    assert(exchange_outcomes(message, exchange) + rest =~= seq![header] + (seq![body] + t2));
    lemma_take_in(path, message, t2);
    lemma_connected(path, message, t3);
    lemma_ready(path, message, t4);
    lemma_answered(path, PhaseView::Send, failed, exchange, rest);
    let answer = ActionView::WriteFrame { bytes: frame(response(exchange)) };
    assert(exchange_actions(path, message, exchange) + later =~= seq![
        ActionView::ReadBody { length: message.len() },
    ] + (seq![ActionView::Connect { path }] + (seq![
        ActionView::SetReadDeadline { seconds: READ_DEADLINE_SECONDS as nat },
    ] + (seq![ActionView::Send { bytes: with_terminator(message) }] + (seq![answer] + (seq![
        ActionView::ReadHeader,
    ] + later))))));
}

/// One message that is sent, whatever comes of the read of the reply.
proof fn lemma_exchange_served(
    path: Seq<char>,
    message: Seq<u8>,
    reply: OutcomeView,
    rest: Seq<OutcomeView>,
)
    requires
        message.len() < length_limit(),
    ensures
        actions(
            idle(Mode::Verbose, path),
            exchange_outcomes(message, Exchange::Served { reply }) + rest,
        ) == exchange_actions(path, message, Exchange::Served { reply }) + actions(
            idle(Mode::Verbose, path),
            rest,
        ),
{
    let exchange = Exchange::Served { reply };
    let header = OutcomeView::Done(length_header(message.len()));
    let body = OutcomeView::Done(message);
    let later = actions(idle(Mode::Verbose, path), rest);
    let t5 = seq![reply] + (seq![done()] + rest);
    let t4 = seq![done()] + t5;
    let t3 = seq![done()] + t4;
    let t2 = seq![done()] + t3;
    assert(exchange_outcomes(message, exchange) + rest =~= seq![header] + (seq![body] + t2));
    lemma_take_in(path, message, t2);
    lemma_connected(path, message, t3);
    lemma_ready(path, message, t4);
    lemma_sent(path, t5);
    lemma_answered(path, PhaseView::Reply, reply, exchange, rest);
    let answer = ActionView::WriteFrame { bytes: frame(response(exchange)) };
    assert(exchange_actions(path, message, exchange) + later =~= seq![
        ActionView::ReadBody { length: message.len() },
    ] + (seq![ActionView::Connect { path }] + (seq![
        ActionView::SetReadDeadline { seconds: READ_DEADLINE_SECONDS as nat },
    ] + (seq![ActionView::Send { bytes: with_terminator(message) }] + (seq![
        ActionView::ReadLine,
    ] + (seq![answer] + (seq![ActionView::ReadHeader] + later)))))));
}

/// One message, served from an idle relay: the relay asks for the
/// operations of the exchange, and is idle again for what follows.
proof fn lemma_exchange(
    path: Seq<char>,
    message: Seq<u8>,
    exchange: Exchange,
    rest: Seq<OutcomeView>,
)
    requires
        message.len() < length_limit(),
    ensures
        actions(idle(Mode::Verbose, path), exchange_outcomes(message, exchange) + rest)
            == exchange_actions(path, message, exchange) + actions(
            idle(Mode::Verbose, path),
            rest,
        ),
{
    match exchange {
        Exchange::Refused { reason } => lemma_exchange_refused(path, message, reason, rest),
        Exchange::Unready { reason } => lemma_exchange_unready(path, message, reason, rest),
        Exchange::Unsent { reason } => lemma_exchange_unsent(path, message, reason, rest),
        Exchange::Served { reply } => lemma_exchange_served(path, message, reply, rest),
    }
}

/// Messages are served one after the other. Where a verbose relay takes in
/// a sequence of messages, and the application deals with each in some
/// way, the relay asks for the operations of the first message, then for
/// those of the second, and so on: each message gets a connection of its
/// own, is sent with one line feed behind it once the deadline is set, and
/// is answered with one frame before the next header is read. A connection
/// that fails at any point costs its own message the reply, and no other.
pub proof fn lemma_session_actions(
    path: Seq<char>,
    messages: Seq<Seq<u8>>,
    exchanges: Seq<Exchange>,
)
    requires
        messages.len() == exchanges.len(),
        forall|i: int| 0 <= i < messages.len() ==> (#[trigger] messages[i]).len() < length_limit(),
    ensures
        actions(idle(Mode::Verbose, path), session_outcomes(messages, exchanges))
            == session_actions(path, messages, exchanges),
    decreases messages.len(),
{
    let relay = idle(Mode::Verbose, path);
    if messages.len() == 0 {
        lemma_first_action(relay, done(), Seq::empty());
        assert(seq![done()] + Seq::<OutcomeView>::empty() =~= seq![done()]);
    } else {
        let later = session_outcomes(messages.skip(1), exchanges.skip(1));
        lemma_exchange(path, messages[0], exchanges[0], later);
        assert forall|i: int| 0 <= i < messages.skip(1).len() implies (#[trigger] messages.skip(
            1,
        )[i]).len() < length_limit() by {
            assert(messages.skip(1)[i] == messages[i + 1]);
        }
        lemma_session_actions(path, messages.skip(1), exchanges.skip(1));
    }
}

/// The frames of one sequence of operations followed by another.
proof fn lemma_written_concat(first: Seq<ActionView>, second: Seq<ActionView>)
    ensures
        written(first + second) == written(first) + written(second),
    decreases first.len(),
{
    if first.len() == 0 {
        assert(first + second =~= second);
        assert(written(first) + written(second) =~= written(second));
    } else {
        assert((first + second).skip(1) =~= first.skip(1) + second);
        lemma_written_concat(first.skip(1), second);
        match first[0] {
            ActionView::WriteFrame { bytes } => {
                assert(seq![bytes] + (written(first.skip(1)) + written(second)) =~= (seq![bytes]
                    + written(first.skip(1))) + written(second));
            },
            _ => {},
        }
    }
}

/// The operations of one exchange write one frame: the response.
proof fn lemma_exchange_writes_one(path: Seq<char>, message: Seq<u8>, exchange: Exchange)
    ensures
        written(exchange_actions(path, message, exchange)) == seq![frame(response(exchange))],
{
    reveal_with_fuel(written, 8);
    assert(written(exchange_actions(path, message, exchange)) =~= seq![
        frame(response(exchange)),
    ]);
}

/// The frames of a session: one for each message, in the order of the
/// messages.
proof fn lemma_session_writes(path: Seq<char>, messages: Seq<Seq<u8>>, exchanges: Seq<Exchange>)
    requires
        messages.len() == exchanges.len(),
    ensures
        written(session_actions(path, messages, exchanges)) == Seq::new(
            messages.len(),
            |i: int| frame(response(exchanges[i])),
        ),
    decreases messages.len(),
{
    let expected = Seq::new(messages.len(), |i: int| frame(response(exchanges[i])));
    if messages.len() == 0 {
        assert(written(session_actions(path, messages, exchanges)) =~= expected);
    } else {
        let later = session_actions(path, messages.skip(1), exchanges.skip(1));
        lemma_written_concat(exchange_actions(path, messages[0], exchanges[0]), later);
        lemma_exchange_writes_one(path, messages[0], exchanges[0]);
        lemma_session_writes(path, messages.skip(1), exchanges.skip(1));
        let later_frames = Seq::new(
            messages.skip(1).len(),
            |i: int| frame(response(exchanges.skip(1)[i])),
        );
        assert(seq![frame(response(exchanges[0]))] + later_frames =~= expected);
    }
}

/// Responses keep the order of the messages. Where a verbose relay takes
/// in a sequence of messages, and the application deals with each in some
/// way, the relay writes exactly one frame for each message, and the frames
/// stand in the order of the messages: the frame at each place holds the
/// response to the message at that place.
pub proof fn lemma_responses_in_order(
    path: Seq<char>,
    messages: Seq<Seq<u8>>,
    exchanges: Seq<Exchange>,
)
    requires
        messages.len() == exchanges.len(),
        forall|i: int| 0 <= i < messages.len() ==> (#[trigger] messages[i]).len() < length_limit(),
    ensures
        written(actions(idle(Mode::Verbose, path), session_outcomes(messages, exchanges)))
            == Seq::new(messages.len(), |i: int| frame(response(exchanges[i]))),
{
    lemma_session_actions(path, messages, exchanges);
    lemma_session_writes(path, messages, exchanges);
}

} // verus!
