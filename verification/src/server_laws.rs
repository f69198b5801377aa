//! What holds of the upgrades on a server's transport as a whole, whatever the events are.
use crate::client::{ClientAction, ClientEvent, ClientView};
use crate::ice::{
    arrivals_add_up, arrived, candidate_line, exchange_after, exchange_goes_on, exchange_step,
    exchange_until_both_marks, incoming, outgoing, IceCandidate, IceCandidateInit, IceExchange,
    Passed,
};
use crate::rtc::RTCMessage;
use crate::server::{
    accept_next, AcceptAction, AcceptEvent, Failure, ServerAction, ServerConnection, ServerError,
    ServerEvent, ServerPhase, TlsAcceptError, TlsUpgradeTransportServer, UpgradeWebRTCServer,
};
use crate::tls::TlsInitError;
use crate::transport::{RecvError, StreamTransport};
use vstd::prelude::*;

verus! {

/// Where a transport stands after the given events.
pub open spec fn server_after<D, AE, E>(
    start: ServerConnection<D, E>,
    events: Seq<ServerEvent<D, E>>,
) -> ServerConnection<D, E>
    decreases events.len(),
{
    if events.len() == 0 {
        start
    } else {
        server_after::<D, AE, E>(start.after::<AE>(events[0]).0, events.drop_first())
    }
}

/// The actions that are decided on at the given events.
pub open spec fn server_actions<D, AE, E>(
    start: ServerConnection<D, E>,
    events: Seq<ServerEvent<D, E>>,
) -> Seq<ServerAction<D, AE, E>>
    decreases events.len(),
{
    if events.len() == 0 {
        seq![]
    } else {
        let (next, action) = start.after::<AE>(events[0]);
        seq![action] + server_actions(next, events.drop_first())
    }
}

/// Each of the events is awaited when it comes.
pub open spec fn server_accepts<D, AE, E>(
    start: ServerConnection<D, E>,
    events: Seq<ServerEvent<D, E>>,
) -> bool
    decreases events.len(),
{
    events.len() == 0 || (start.awaits(events[0]) && server_accepts::<D, AE, E>(
        start.after::<AE>(events[0]).0,
        events.drop_first(),
    ))
}

/// Events one behind the other have the effects of the first ones, then of the others.
proof fn server_runs_on<D, AE, E>(
    start: ServerConnection<D, E>,
    first: Seq<ServerEvent<D, E>>,
    later: Seq<ServerEvent<D, E>>,
)
    ensures
        server_after::<D, AE, E>(start, first + later) == server_after::<D, AE, E>(
            server_after::<D, AE, E>(start, first),
            later,
        ),
        server_actions::<D, AE, E>(start, first + later) == server_actions::<D, AE, E>(start, first)
            + server_actions::<D, AE, E>(server_after::<D, AE, E>(start, first), later),
        server_accepts::<D, AE, E>(start, first + later) == (server_accepts::<D, AE, E>(
            start,
            first,
        ) && server_accepts::<D, AE, E>(server_after::<D, AE, E>(start, first), later)),
    decreases first.len(),
{
    let tail = server_actions::<D, AE, E>(server_after::<D, AE, E>(start, first), later);
    if first.len() == 0 {
        assert(first + later =~= later);
        assert(server_actions::<D, AE, E>(start, first) + tail =~= tail);
    } else {
        let (next, action) = start.after::<AE>(first[0]);
        server_runs_on::<D, AE, E>(next, first.drop_first(), later);
        assert((first + later).drop_first() =~= first.drop_first() + later);
        let head = server_actions::<D, AE, E>(next, first.drop_first());
        assert(seq![action] + (head + tail) =~= (seq![action] + head) + tail);
    }
}

/// One event.
proof fn server_one<D, AE, E>(start: ServerConnection<D, E>, event: ServerEvent<D, E>)
    ensures
        server_after::<D, AE, E>(start, seq![event]) == start.after::<AE>(event).0,
        server_actions::<D, AE, E>(start, seq![event]) == seq![start.after::<AE>(event).1],
        server_accepts::<D, AE, E>(start, seq![event]) == start.awaits(event),
{
    reveal_with_fuel(server_after, 2);
    reveal_with_fuel(server_actions, 2);
    reveal_with_fuel(server_accepts, 2);
    assert(seq![event].drop_first() =~= seq![]);
    assert(server_actions::<D, AE, E>(start, seq![event]) =~= seq![start.after::<AE>(event).1]);
}

/// What the event says went wrong.
pub open spec fn failure_in<D, E>(event: ServerEvent<D, E>) -> Option<Failure<E>> {
    match event {
        ServerEvent::Offer(Err(RecvError::DeserializeError(e))) => Some(Failure::BadMessage(e)),
        ServerEvent::Offer(Err(RecvError::IOError(e))) => Some(Failure::IOError(e)),
        ServerEvent::PeerOpened(Err(e)) => Some(Failure::WebRTCError(e)),
        ServerEvent::Applied(Err(e)) => Some(Failure::WebRTCError(e)),
        ServerEvent::AnswerCreated(Err(e)) => Some(Failure::WebRTCError(e)),
        ServerEvent::Sent(Err(e)) => Some(Failure::IOError(e)),
        ServerEvent::LocalCandidate(Err(e)) => Some(Failure::WebRTCError(e)),
        ServerEvent::RemoteCandidate(Err(failure)) => Some(failure),
        _ => None,
    }
}

/// There is a peer connection that nobody else has been handed.
pub open spec fn holds_peer<D, E>(phase: ServerPhase<D, E>) -> bool {
    match phase {
        ServerPhase::AwaitingOffer => false,
        ServerPhase::OpeningPeer(_) => false,
        ServerPhase::Serving => false,
        ServerPhase::Identifying(_) => false,
        ServerPhase::Over => false,
        _ => true,
    }
}

/// The events that come between a failure and its report: the peer connection is closed if there
/// is one, and the sender is named if a message could not be decoded.
pub open spec fn closing_events<D, E>(open: bool, failure: Failure<E>, id: String) -> Seq<
    ServerEvent<D, E>,
> {
    (if open {
        seq![ServerEvent::Closed]
    } else {
        seq![]
    }) + (if failure is BadMessage {
        seq![ServerEvent::Identified(id)]
    } else {
        seq![]
    })
}

/// What is done about a failure, up to its report.
pub open spec fn closing_actions<D, AE, E>(open: bool, failure: Failure<E>, id: String) -> Seq<
    ServerAction<D, AE, E>,
> {
    (if open {
        seq![ServerAction::ClosePeer]
    } else {
        seq![]
    }) + (match failure {
        Failure::BadMessage(error) => seq![
            ServerAction::Identify,
            ServerAction::Report(ServerError::BadMessage { error, client_id: id }),
        ],
        Failure::IOError(e) => seq![ServerAction::Report(ServerError::IOError(e))],
        Failure::WebRTCError(e) => seq![ServerAction::Report(ServerError::WebRTCError(e))],
    })
}

/// Whatever goes wrong is reported, exactly as it was and exactly once, and the transport is
/// done with. A peer connection that nobody has been handed is closed before that, and the sender
/// of a message that could not be decoded is named.
pub proof fn server_reports_failure<D, AE, E>(
    start: ServerConnection<D, E>,
    event: ServerEvent<D, E>,
    failure: Failure<E>,
    id: String,
)
    requires
        start.awaits(event),
        failure_in(event) == Some(failure),
    ensures
        ({
            let open = holds_peer(start.phase);
            let events = seq![event] + closing_events(open, failure, id);
            &&& server_accepts::<D, AE, E>(start, events)
            &&& server_actions::<D, AE, E>(start, events) == closing_actions::<D, AE, E>(
                open,
                failure,
                id,
            )
            &&& server_after::<D, AE, E>(start, events).phase is Over
        }),
{
    let open = holds_peer(start.phase);
    let s1 = start.after::<AE>(event).0;
    server_one::<D, AE, E>(start, event);
    let closed = if open {
        seq![ServerEvent::<D, E>::Closed]
    } else {
        seq![]
    };
    let identified = if failure is BadMessage {
        seq![ServerEvent::<D, E>::Identified(id)]
    } else {
        seq![]
    };
    if open {
        server_one::<D, AE, E>(s1, ServerEvent::<D, E>::Closed);
    }
    let s2 = server_after::<D, AE, E>(s1, closed);
    if failure is BadMessage {
        server_one::<D, AE, E>(s2, ServerEvent::<D, E>::Identified(id));
    }
    server_runs_on::<D, AE, E>(s1, closed, identified);
    server_runs_on::<D, AE, E>(start, seq![event], closed + identified);
    assert(server_actions::<D, AE, E>(
        start,
        seq![event] + closing_events(open, failure, id),
    ) =~= closing_actions::<D, AE, E>(open, failure, id));
}

/// A transport is done with only once a failure was reported; then it awaits no further event.
pub proof fn server_ends_with_report<D, AE, E>(
    start: ServerConnection<D, E>,
    event: ServerEvent<D, E>,
    later: ServerEvent<D, E>,
)
    requires
        start.awaits(event),
    ensures
        start.after::<AE>(event).0.phase is Over <==> start.after::<AE>(event).1 is Report,
        start.after::<AE>(event).0.phase is Over ==> !start.after::<AE>(event).0.awaits(later),
{
}

/// While candidates are exchanged the exchange is not over, and the connection is handed over
/// only when it is.
pub open spec fn server_is_consistent<D, E>(connection: ServerConnection<D, E>) -> bool {
    match connection.phase {
        ServerPhase::Exchanging => !connection.exchange.over(),
        ServerPhase::SendingCandidate(_) => !connection.exchange.over(),
        ServerPhase::AddingCandidate => !connection.exchange.over(),
        ServerPhase::Serving => connection.exchange.over(),
        _ => true,
    }
}

/// Every transport is consistent at first, and stays so at each event.
pub proof fn server_stays_consistent<D, AE, E>(
    connection: ServerConnection<D, E>,
    event: ServerEvent<D, E>,
)
    ensures
        server_is_consistent(ServerConnection::<D, E>::begin()),
        server_is_consistent(connection) && connection.awaits(event) ==> server_is_consistent(
            connection.after::<AE>(event).0,
        ),
{
}

/// The events of one step of an exchange in which nothing fails.
pub open spec fn passed_events<D, E>(step: Passed<IceCandidateInit, IceCandidateInit>) -> Seq<
    ServerEvent<D, E>,
> {
    match step {
        Passed::Outgoing(candidate) => seq![
            ServerEvent::LocalCandidate(Ok(candidate)),
            ServerEvent::Sent(Ok(())),
        ],
        Passed::Incoming(Some(candidate)) => seq![
            ServerEvent::RemoteCandidate(Ok(Some(candidate))),
            ServerEvent::Applied(Ok(())),
        ],
        Passed::Incoming(None) => seq![ServerEvent::RemoteCandidate(Ok(None))],
    }
}

/// The events of an exchange in which nothing fails.
pub open spec fn exchange_events<D, E>(
    steps: Seq<Passed<IceCandidateInit, IceCandidateInit>>,
) -> Seq<ServerEvent<D, E>>
    decreases steps.len(),
{
    if steps.len() == 0 {
        seq![]
    } else {
        passed_events(steps[0]) + exchange_events(steps.drop_first())
    }
}

/// The action that follows on a step.
pub open spec fn follow_up<D, AE, E>(exchange: IceExchange) -> ServerAction<D, AE, E> {
    if exchange.over() {
        ServerAction::Serve
    } else {
        ServerAction::Exchange
    }
}

/// A candidate, or the end mark, as the server sends it.
pub open spec fn as_message<D>(candidate: Option<IceCandidateInit>) -> Option<RTCMessage<D>> {
    match candidate {
        Some(candidate) => Some(RTCMessage::ICE(candidate)),
        None => None,
    }
}

/// The actions of an exchange: each candidate of this end is sent, each one of the other end is
/// added, in the order of the steps, until the exchange is over.
pub open spec fn exchange_actions<D, AE, E>(
    exchange: IceExchange,
    steps: Seq<Passed<IceCandidateInit, IceCandidateInit>>,
) -> Seq<ServerAction<D, AE, E>>
    decreases steps.len(),
{
    if steps.len() == 0 {
        seq![]
    } else {
        let next = exchange_step(exchange, steps[0]);
        (match steps[0] {
            Passed::Outgoing(candidate) => seq![
                ServerAction::SendCandidate(as_message(candidate)),
                follow_up(next),
            ],
            Passed::Incoming(Some(candidate)) => seq![
                ServerAction::AddCandidate(candidate),
                follow_up(next),
            ],
            Passed::Incoming(None) => seq![follow_up(next)],
        }) + exchange_actions(next, steps.drop_first())
    }
}

/// In an exchange in which nothing fails, every candidate of this end is sent and every one of
/// the other end is added, each once and in order, however the two interleave; and the connection
/// is handed over as soon as both end marks have passed, and not before.
pub proof fn server_exchanges_candidates<D, AE, E>(
    start: ServerConnection<D, E>,
    steps: Seq<Passed<IceCandidateInit, IceCandidateInit>>,
)
    requires
        start.phase is Exchanging,
        !start.exchange.over(),
        exchange_goes_on(start.exchange, steps),
    ensures
        server_accepts::<D, AE, E>(start, exchange_events::<D, E>(steps)),
        server_actions::<D, AE, E>(start, exchange_events::<D, E>(steps)) == exchange_actions::<
            D,
            AE,
            E,
        >(start.exchange, steps),
        server_after::<D, AE, E>(start, exchange_events::<D, E>(steps)) == (ServerConnection {
            phase: if exchange_after(start.exchange, steps).over() {
                ServerPhase::<D, E>::Serving
            } else {
                ServerPhase::Exchanging
            },
            exchange: exchange_after(start.exchange, steps),
        }),
    decreases steps.len(),
{
    let events = exchange_events::<D, E>(steps);
    if steps.len() > 0 {
        let now = passed_events::<D, E>(steps[0]);
        let later = exchange_events::<D, E>(steps.drop_first());
        let exchange = exchange_step(start.exchange, steps[0]);
        let next = start.go_on::<AE>(exchange).0;
        let middle = start.after::<AE>(now[0]).0;
        server_one::<D, AE, E>(start, now[0]);
        match steps[0] {
            Passed::Incoming(None) => {},
            _ => {
                assert(now =~= seq![now[0]] + seq![now[1]]);
                server_runs_on::<D, AE, E>(start, seq![now[0]], seq![now[1]]);
                server_one::<D, AE, E>(middle, now[1]);
                assert(middle.after::<AE>(now[1]) == start.go_on::<AE>(exchange));
            },
        }
        assert(server_after::<D, AE, E>(start, now) == next);
        server_runs_on::<D, AE, E>(start, now, later);
        assert(exchange_goes_on(exchange, steps.drop_first()));
        assert(server_actions::<D, AE, E>(start, now) + exchange_actions::<D, AE, E>(
            exchange,
            steps.drop_first(),
        ) =~= exchange_actions::<D, AE, E>(start.exchange, steps));
        if exchange.over() {
            assert(later =~= seq![]);
        } else {
            server_exchanges_candidates::<D, AE, E>(next, steps.drop_first());
        }
        assert(server_actions::<D, AE, E>(start, events) =~= exchange_actions::<D, AE, E>(
            start.exchange,
            steps,
        ));
    }
}

/// The events from the offer to the exchange of candidates, when nothing fails.
pub open spec fn answer_events<D, E>(offer: D, answer: D) -> Seq<ServerEvent<D, E>> {
    seq![
        ServerEvent::Offer(Ok(offer)),
        ServerEvent::PeerOpened(Ok(())),
        ServerEvent::Watching,
        ServerEvent::Applied(Ok(())),
        ServerEvent::AnswerCreated(Ok(answer)),
        ServerEvent::Sent(Ok(())),
        ServerEvent::Applied(Ok(())),
    ]
}

/// The offer that arrives becomes the remote description of a new connection; the answer that is
/// created for it is sent, and that same answer becomes the local description. The exchange that
/// follows starts afresh, whatever upgrades the transport has seen before.
pub proof fn server_answers_offer<D, AE, E>(start: ServerConnection<D, E>, offer: D, answer: D)
    requires
        start.phase is AwaitingOffer,
    ensures
        server_accepts::<D, AE, E>(start, answer_events::<D, E>(offer, answer)),
        server_actions::<D, AE, E>(start, answer_events::<D, E>(offer, answer)) == seq![
            ServerAction::<D, AE, E>::OpenPeer,
            ServerAction::WatchPeer,
            ServerAction::SetRemote(offer),
            ServerAction::CreateAnswer,
            ServerAction::SendAnswer,
            ServerAction::SetLocal(answer),
            ServerAction::Exchange,
        ],
        server_after::<D, AE, E>(start, answer_events::<D, E>(offer, answer).take(5)).phase
            == ServerPhase::<D, E>::SendingAnswer(answer),
        server_after::<D, AE, E>(start, answer_events::<D, E>(offer, answer)) == (ServerConnection {
            phase: ServerPhase::<D, E>::Exchanging,
            exchange: IceExchange::begin(),
        }),
{
    let events = answer_events::<D, E>(offer, answer);
    let s1 = start.after::<AE>(events[0]).0;
    let s2 = s1.after::<AE>(events[1]).0;
    let s3 = s2.after::<AE>(events[2]).0;
    let s4 = s3.after::<AE>(events[3]).0;
    let s5 = s4.after::<AE>(events[4]).0;
    let s6 = s5.after::<AE>(events[5]).0;
    server_one::<D, AE, E>(start, events[0]);
    server_one::<D, AE, E>(s1, events[1]);
    server_one::<D, AE, E>(s2, events[2]);
    server_one::<D, AE, E>(s3, events[3]);
    server_one::<D, AE, E>(s4, events[4]);
    server_one::<D, AE, E>(s5, events[5]);
    server_one::<D, AE, E>(s6, events[6]);
    let e1 = seq![events[0]];
    let e2 = e1 + seq![events[1]];
    let e3 = e2 + seq![events[2]];
    let e4 = e3 + seq![events[3]];
    let e5 = e4 + seq![events[4]];
    let e6 = e5 + seq![events[5]];
    server_runs_on::<D, AE, E>(start, e1, seq![events[1]]);
    server_runs_on::<D, AE, E>(start, e2, seq![events[2]]);
    server_runs_on::<D, AE, E>(start, e3, seq![events[3]]);
    server_runs_on::<D, AE, E>(start, e4, seq![events[4]]);
    server_runs_on::<D, AE, E>(start, e5, seq![events[5]]);
    server_runs_on::<D, AE, E>(start, e6, seq![events[6]]);
    assert(events =~= e6 + seq![events[6]]);
    assert(events.take(5) =~= e5);
    assert(server_actions::<D, AE, E>(start, events) =~= seq![
        ServerAction::<D, AE, E>::OpenPeer,
        ServerAction::WatchPeer,
        ServerAction::SetRemote(offer),
        ServerAction::CreateAnswer,
        ServerAction::SendAnswer,
        ServerAction::SetLocal(answer),
        ServerAction::Exchange,
    ]);
}

/// The events of a whole upgrade in which nothing fails, until the connection is handed over.
pub open spec fn upgrade_events<D, E>(
    offer: D,
    answer: D,
    steps: Seq<Passed<IceCandidateInit, IceCandidateInit>>,
) -> Seq<ServerEvent<D, E>> {
    answer_events(offer, answer) + exchange_events(steps)
}

/// An upgrade in which nothing fails ends with the connection being handed over once both ends
/// have sent their end marks, however the candidates of the two interleave; and then the
/// transport awaits the next offer.
pub proof fn server_upgrade_completes<D, AE, E>(
    start: ServerConnection<D, E>,
    offer: D,
    answer: D,
    steps: Seq<Passed<IceCandidateInit, IceCandidateInit>>,
)
    requires
        start.phase is AwaitingOffer,
        exchange_goes_on(IceExchange::begin(), steps),
        exchange_after(IceExchange::begin(), steps).over(),
    ensures
        ({
            let events = upgrade_events::<D, E>(offer, answer, steps);
            let served = server_after::<D, AE, E>(start, events);
            &&& server_accepts::<D, AE, E>(start, events)
            &&& server_actions::<D, AE, E>(start, events).last() is Serve
            &&& server_actions::<D, AE, E>(start, events) == seq![
                ServerAction::<D, AE, E>::OpenPeer,
                ServerAction::WatchPeer,
                ServerAction::SetRemote(offer),
                ServerAction::CreateAnswer,
                ServerAction::SendAnswer,
                ServerAction::SetLocal(answer),
                ServerAction::Exchange,
            ] + exchange_actions::<D, AE, E>(IceExchange::begin(), steps)
            &&& served.phase is Serving
            &&& served.after::<AE>(ServerEvent::Served).0.phase is AwaitingOffer
            &&& served.after::<AE>(ServerEvent::Served).1 is ReceiveOffer
        }),
{
    let p1 = answer_events::<D, E>(offer, answer);
    let p2 = exchange_events::<D, E>(steps);
    server_answers_offer::<D, AE, E>(start, offer, answer);
    let s1 = server_after::<D, AE, E>(start, p1);
    server_exchanges_candidates::<D, AE, E>(s1, steps);
    server_runs_on::<D, AE, E>(start, p1, p2);
    exchange_ends_in_serve::<D, AE, E>(IceExchange::begin(), steps);
    let actions = server_actions::<D, AE, E>(s1, p2);
    assert(server_actions::<D, AE, E>(
        start,
        upgrade_events::<D, E>(offer, answer, steps),
    ).last() == actions.last());
}

/// The actions of an exchange that comes to its end close with the connection being handed over.
proof fn exchange_ends_in_serve<D, AE, E>(
    exchange: IceExchange,
    steps: Seq<Passed<IceCandidateInit, IceCandidateInit>>,
)
    requires
        !exchange.over(),
        exchange_goes_on(exchange, steps),
        exchange_after(exchange, steps).over(),
    ensures
        exchange_actions::<D, AE, E>(exchange, steps).len() > 0,
        exchange_actions::<D, AE, E>(exchange, steps).last() is Serve,
    decreases steps.len(),
{
    let next = exchange_step(exchange, steps[0]);
    let later = steps.drop_first();
    assert(exchange_goes_on(next, later));
    if !next.over() {
        exchange_ends_in_serve::<D, AE, E>(next, later);
    } else {
        assert(later.len() == 0);
    }
}

/// A client takes whatever a server sends while candidates are exchanged: it adds the very
/// candidate that the server sent, and takes the end mark for the end mark. A server never sends
/// what a client refuses at that point.
pub proof fn client_takes_what_server_sends<D, AE, SE, C, Ch, CE>(
    server: ServerConnection<D, SE>,
    event: ServerEvent<D, SE>,
    message: Option<RTCMessage<D>>,
    client: ClientView<D, Ch>,
)
    requires
        server.awaits(event),
        server.after::<AE>(event).1 == ServerAction::<D, AE, SE>::SendCandidate(message),
        client.phase is Exchanging,
    ensures
        message is Some ==> message->Some_0 is ICE,
        ({
            let received = ClientEvent::<D, C, Ch, CE>::RemoteMessage(Ok(message));
            let (next, action) = client.step(received);
            &&& client.awaits(received)
            &&& match message {
                Some(RTCMessage::ICE(candidate)) => action == ClientAction::<
                    D,
                    C,
                    CE,
                >::AddCandidate(candidate),
                _ => next.exchange.received_all,
            }
        }),
{
}

/// Every decision leaves the transport waiting for the answer to the very action that was decided
/// on, and for nothing else: the phase and the action belong together.
pub proof fn server_awaits_answer_to_its_action<D, AE, E>(
    connection: ServerConnection<D, E>,
    event: ServerEvent<D, E>,
    r: (ServerConnection<D, E>, ServerAction<D, AE, E>),
    later: ServerEvent<D, E>,
)
    requires
        connection.awaits(event),
        call_ensures(ServerConnection::<D, E>::step::<AE>, (connection, event), r),
    ensures
        ({
            let phase = r.0.phase;
            &&& r.1 is ReceiveOffer <==> phase is AwaitingOffer
            &&& r.1 is OpenPeer <==> phase is OpeningPeer
            &&& r.1 is WatchPeer <==> phase is StartingWatch
            &&& r.1 is SetRemote <==> phase is SettingRemote
            &&& r.1 is CreateAnswer <==> phase is CreatingAnswer
            &&& r.1 is SendAnswer <==> phase is SendingAnswer
            &&& r.1 is SetLocal <==> phase is SettingLocal
            &&& r.1 is Exchange <==> phase is Exchanging
            &&& r.1 is SendCandidate <==> phase is SendingCandidate
            &&& r.1 is AddCandidate <==> phase is AddingCandidate
            &&& r.1 is Serve <==> phase is Serving
            &&& r.1 is ClosePeer <==> phase is Closing
            &&& r.1 is Identify <==> phase is Identifying
            &&& r.1 is Report <==> phase is Over
        }),
        r.0.awaits(later) <==> match r.1 {
            ServerAction::ReceiveOffer => later is Offer,
            ServerAction::OpenPeer => later is PeerOpened,
            ServerAction::WatchPeer => later is Watching,
            ServerAction::SetRemote(_) => later is Applied,
            ServerAction::CreateAnswer => later is AnswerCreated,
            ServerAction::SendAnswer => later is Sent,
            ServerAction::SetLocal(_) => later is Applied,
            ServerAction::Exchange => later is LocalCandidate || later is RemoteCandidate,
            ServerAction::SendCandidate(_) => later is Sent,
            ServerAction::AddCandidate(_) => later is Applied,
            ServerAction::Serve => later is Served,
            ServerAction::ClosePeer => later is Closed,
            ServerAction::Identify => later is Identified,
            ServerAction::Report(_) => false,
        },
        r.0.awaits(later) ==> call_requires(
            ServerConnection::<D, E>::step::<AE>,
            (r.0, later),
        ),
{
}

/// A transport begins by receiving an offer, with no end mark having passed.
pub proof fn server_begins_with_offer<D, AE, E>(
    r: (ServerConnection<D, E>, ServerAction<D, AE, E>),
    event: ServerEvent<D, E>,
)
    requires
        call_ensures(ServerConnection::<D, E>::start::<AE>, (), r),
    ensures
        r.1 is ReceiveOffer,
        r.0.phase is AwaitingOffer,
        r.0.awaits(event) <==> event is Offer,
        !r.0.exchange.sent_all && !r.0.exchange.received_all,
{
}

/// What goes wrong before there is a peer connection is reported, and what goes wrong later makes
/// the server close the connection first and report then; the sender of a message that could not
/// be decoded is asked for before that is reported. What is reported is the error that it was,
/// under its own kind. Nothing else closes a connection or is reported.
pub proof fn server_says_what_went_wrong<D, AE, E>(
    connection: ServerConnection<D, E>,
    event: ServerEvent<D, E>,
    r: (ServerConnection<D, E>, ServerAction<D, AE, E>),
)
    requires
        connection.awaits(event),
        call_ensures(ServerConnection::<D, E>::step::<AE>, (connection, event), r),
    ensures
        match event {
            ServerEvent::Offer(Err(RecvError::DeserializeError(e))) => r.1 is Identify && r.0.phase
                == ServerPhase::<D, E>::Identifying(e),
            ServerEvent::Offer(Err(RecvError::IOError(e))) => r.1 == ServerAction::<
                D,
                AE,
                E,
            >::Report(ServerError::IOError(e)),
            ServerEvent::PeerOpened(Err(e)) => r.1 == ServerAction::<D, AE, E>::Report(
                ServerError::WebRTCError(e),
            ),
            ServerEvent::Applied(Err(e)) => r.1 is ClosePeer && r.0.phase == ServerPhase::<
                D,
                E,
            >::Closing(Failure::WebRTCError(e)),
            ServerEvent::AnswerCreated(Err(e)) => r.1 is ClosePeer && r.0.phase == ServerPhase::<
                D,
                E,
            >::Closing(Failure::WebRTCError(e)),
            ServerEvent::LocalCandidate(Err(e)) => r.1 is ClosePeer && r.0.phase == ServerPhase::<
                D,
                E,
            >::Closing(Failure::WebRTCError(e)),
            ServerEvent::Sent(Err(e)) => r.1 is ClosePeer && r.0.phase == ServerPhase::<
                D,
                E,
            >::Closing(Failure::IOError(e)),
            ServerEvent::RemoteCandidate(Err(failure)) => r.1 is ClosePeer && r.0.phase
                == ServerPhase::<D, E>::Closing(failure),
            ServerEvent::Closed => match connection.phase {
                ServerPhase::Closing(Failure::BadMessage(e)) => r.1 is Identify && r.0.phase
                    == ServerPhase::<D, E>::Identifying(e),
                ServerPhase::Closing(Failure::IOError(e)) => r.1 == ServerAction::<
                    D,
                    AE,
                    E,
                >::Report(ServerError::IOError(e)),
                ServerPhase::Closing(Failure::WebRTCError(e)) => r.1 == ServerAction::<
                    D,
                    AE,
                    E,
                >::Report(ServerError::WebRTCError(e)),
                _ => true,
            },
            ServerEvent::Identified(client_id) => r.1 == ServerAction::<D, AE, E>::Report(
                ServerError::BadMessage { error: connection.phase->Identifying_0, client_id },
            ),
            _ => r.1 !is Report && r.1 !is ClosePeer && r.1 !is Identify,
        },
{
}

/// Descriptions and candidates are handed on as they come: the offer that arrives is the one that
/// is set, the answer that is created is the one that is sent and then set, and each candidate is
/// sent or added as it is.
pub proof fn server_hands_on_what_comes<D, AE, E>(
    connection: ServerConnection<D, E>,
    event: ServerEvent<D, E>,
    r: (ServerConnection<D, E>, ServerAction<D, AE, E>),
    answer: Option<&D>,
)
    requires
        connection.awaits(event),
        call_ensures(ServerConnection::<D, E>::step::<AE>, (connection, event), r),
        call_ensures(ServerConnection::<D, E>::answer, (&r.0,), answer),
    ensures
        answer is Some <==> r.1 is SendAnswer,
        event matches ServerEvent::Offer(Ok(offer)) ==> r.1 is OpenPeer && r.0.phase
            == ServerPhase::<D, E>::OpeningPeer(offer),
        event matches ServerEvent::PeerOpened(Ok(_)) ==> r.1 is WatchPeer && r.0.phase
            == ServerPhase::<D, E>::StartingWatch(connection.phase->OpeningPeer_0),
        event is Watching ==> r.1 == ServerAction::<D, AE, E>::SetRemote(
            connection.phase->StartingWatch_0,
        ),
        event matches ServerEvent::AnswerCreated(Ok(created)) ==> r.1 is SendAnswer && answer
            == Some(&created),
        connection.phase is SendingAnswer && (event matches ServerEvent::Sent(Ok(_))) ==> r.1
            == ServerAction::<D, AE, E>::SetLocal(connection.phase->SendingAnswer_0),
        event matches ServerEvent::LocalCandidate(Ok(Some(candidate))) ==> r.1 == ServerAction::<
            D,
            AE,
            E,
        >::SendCandidate(Some(RTCMessage::ICE(candidate))) && r.0.phase == ServerPhase::<
            D,
            E,
        >::SendingCandidate(false),
        event matches ServerEvent::LocalCandidate(Ok(None)) ==> r.1 == ServerAction::<
            D,
            AE,
            E,
        >::SendCandidate(None) && r.0.phase == ServerPhase::<D, E>::SendingCandidate(true),
        event matches ServerEvent::RemoteCandidate(Ok(Some(candidate))) ==> r.1 == ServerAction::<
            D,
            AE,
            E,
        >::AddCandidate(candidate),
        event is Served ==> r.1 is ReceiveOffer,
{
}

/// While candidates are exchanged the end mark of this end has passed once it was sent, that of
/// the other end once it has come, and neither at any other time. The connection is handed over at
/// the success that leaves both passed, and the exchange goes on at any other. Each upgrade
/// exchanges afresh.
pub proof fn server_serves_with_both_marks<D, AE, E>(
    connection: ServerConnection<D, E>,
    event: ServerEvent<D, E>,
    r: (ServerConnection<D, E>, ServerAction<D, AE, E>),
)
    requires
        connection.awaits(event),
        call_ensures(ServerConnection::<D, E>::step::<AE>, (connection, event), r),
    ensures
        connection.phase is SettingLocal && (event matches ServerEvent::Applied(Ok(_))) ==> r.1
            is Exchange && !r.0.exchange.sent_all && !r.0.exchange.received_all,
        connection.phase !is SettingLocal ==> (r.0.exchange.sent_all
            <==> connection.exchange.sent_all || (event matches ServerEvent::Sent(Ok(_))
            && connection.phase == ServerPhase::<D, E>::SendingCandidate(true))),
        connection.phase !is SettingLocal ==> (r.0.exchange.received_all
            <==> connection.exchange.received_all || (event matches ServerEvent::RemoteCandidate(
            Ok(None),
        ))),
        connection.phase is SendingCandidate && (event matches ServerEvent::Sent(Ok(_))) || (
        connection.phase is AddingCandidate && (event matches ServerEvent::Applied(Ok(_)))) || (
        event matches ServerEvent::RemoteCandidate(Ok(None))) ==> if r.0.exchange.sent_all
            && r.0.exchange.received_all {
            r.1 is Serve
        } else {
            r.1 is Exchange
        },
{
}

/// A candidate that this end finds is sent as the line that it is written out as, for the first
/// media section; the end mark is sent as such; and a candidate that cannot be written out ends the
/// upgrade with the reason.
pub proof fn server_sends_its_candidates<D, AE, E>(
    connection: ServerConnection<D, E>,
    candidate: Option<IceCandidate>,
    r: (ServerConnection<D, E>, ServerAction<D, AE, E>),
)
    requires
        connection.phase is Exchanging,
        candidate is Some ==> candidate->Some_0.priority != 0 || candidate->Some_0.component
            <= 256,
        call_ensures(
            ServerConnection::<D, E>::local_candidate::<AE>,
            (connection, candidate),
            r,
        ),
    ensures
        call_requires(
            ServerConnection::<D, E>::local_candidate::<AE>,
            (connection, candidate),
        ),
        r.0.exchange == connection.exchange,
        candidate is None ==> r.1 == ServerAction::<D, AE, E>::SendCandidate(None) && r.0.phase
            == ServerPhase::<D, E>::SendingCandidate(true),
        candidate is Some ==> match candidate_line(candidate->Some_0@) {
            Ok(line) => {
                &&& r.0.phase == ServerPhase::<D, E>::SendingCandidate(false)
                &&& r.1 is SendCandidate
                &&& r.1->SendCandidate_0 is Some
                &&& r.1->SendCandidate_0->Some_0 matches RTCMessage::ICE(init)
                &&& init.candidate@ == line
                &&& init.sdp_mid is Some
                &&& init.sdp_mid->Some_0@.len() == 0
                &&& init.sdp_mline_index == Some(0u16)
                &&& init.username_fragment is None
            },
            Err(e) => r.1 is ClosePeer && r.0.phase == ServerPhase::<D, E>::Closing(
                Failure::WebRTCError(e),
            ),
        },
{
}

/// A candidate of the other end is added as the line that it is written out as, for the first
/// media section; the end mark is noted; and what could not be received, decoded or written out
/// ends the upgrade with the reason.
pub proof fn server_adds_candidates_of_client<D, AE, E>(
    connection: ServerConnection<D, E>,
    received: Result<Option<IceCandidate>, RecvError<E>>,
    r: (ServerConnection<D, E>, ServerAction<D, AE, E>),
)
    requires
        connection.phase is Exchanging,
        received matches Ok(Some(c)) ==> c.priority != 0 || c.component <= 256,
        call_ensures(
            ServerConnection::<D, E>::remote_candidate::<AE>,
            (connection, received),
            r,
        ),
    ensures
        call_requires(
            ServerConnection::<D, E>::remote_candidate::<AE>,
            (connection, received),
        ),
        r.0.exchange.sent_all == connection.exchange.sent_all,
        match received {
            Ok(None) => r.0.exchange.received_all && if connection.exchange.sent_all {
                r.1 is Serve && r.0.phase is Serving
            } else {
                r.1 is Exchange && r.0.phase is Exchanging
            },
            Ok(Some(c)) => r.0.exchange == connection.exchange && match candidate_line(c@) {
                Ok(line) => {
                    &&& r.0.phase is AddingCandidate
                    &&& r.1 matches ServerAction::AddCandidate(init)
                    &&& init.candidate@ == line
                    &&& init.sdp_mid is Some
                    &&& init.sdp_mid->Some_0@.len() == 0
                    &&& init.sdp_mline_index == Some(0u16)
                    &&& init.username_fragment is None
                },
                Err(e) => r.1 is ClosePeer && r.0.phase == ServerPhase::<D, E>::Closing(
                    Failure::WebRTCError(e),
                ),
            },
            Err(RecvError::DeserializeError(e)) => r.1 is ClosePeer && r.0.phase
                == ServerPhase::<D, E>::Closing(Failure::BadMessage(e)),
            Err(RecvError::IOError(e)) => r.1 is ClosePeer && r.0.phase == ServerPhase::<
                D,
                E,
            >::Closing(Failure::IOError(e)),
        },
{
}

/// The candidates, and the end mark, that the given actions send.
pub open spec fn sent_by<D, AE, E>(actions: Seq<ServerAction<D, AE, E>>) -> Seq<
    Option<IceCandidateInit>,
>
    decreases actions.len(),
{
    if actions.len() == 0 {
        seq![]
    } else {
        let front = sent_by(actions.drop_last());
        match actions.last() {
            ServerAction::SendCandidate(Some(RTCMessage::ICE(candidate))) => front.push(
                Some(candidate),
            ),
            ServerAction::SendCandidate(None) => front.push(None),
            _ => front,
        }
    }
}

/// The candidates that the given actions add.
pub open spec fn added_by<D, AE, E>(actions: Seq<ServerAction<D, AE, E>>) -> Seq<IceCandidateInit>
    decreases actions.len(),
{
    if actions.len() == 0 {
        seq![]
    } else {
        let front = added_by(actions.drop_last());
        match actions.last() {
            ServerAction::AddCandidate(candidate) => front.push(candidate),
            _ => front,
        }
    }
}

/// What is sent and added by actions one behind the other adds up.
proof fn server_effects_add_up<D, AE, E>(
    first: Seq<ServerAction<D, AE, E>>,
    later: Seq<ServerAction<D, AE, E>>,
)
    ensures
        sent_by(first + later) == sent_by(first) + sent_by(later),
        added_by(first + later) == added_by(first) + added_by(later),
    decreases later.len(),
{
    if later.len() == 0 {
        assert(first + later =~= first);
        assert(sent_by(first) + sent_by(later) =~= sent_by(first));
        assert(added_by(first) + added_by(later) =~= added_by(first));
    } else {
        server_effects_add_up(first, later.drop_last());
        assert((first + later).drop_last() =~= first + later.drop_last());
        assert((first + later).last() == later.last());
        assert(sent_by(first + later) =~= sent_by(first) + sent_by(later));
        assert(added_by(first + later) =~= added_by(first) + added_by(later));
    }
}

/// Actions that neither send nor add candidates have no effect of that kind.
proof fn server_other_actions_pass<D, AE, E>(actions: Seq<ServerAction<D, AE, E>>)
    requires
        forall|i: int|
            0 <= i < actions.len() ==> (#[trigger] actions[i]) !is SendCandidate && actions[i]
                !is AddCandidate,
    ensures
        sent_by(actions) == Seq::<Option<IceCandidateInit>>::empty(),
        added_by(actions) == Seq::<IceCandidateInit>::empty(),
    decreases actions.len(),
{
    if actions.len() > 0 {
        let front = actions.drop_last();
        assert forall|i: int| 0 <= i < front.len() implies (#[trigger] front[i]) !is SendCandidate
            && front[i] !is AddCandidate by {
            assert(front[i] == actions[i]);
        }
        server_other_actions_pass(front);
        assert(actions.last() == actions[actions.len() - 1]);
    }
}

/// One action.
proof fn server_effect_of_one<D, AE, E>(action: ServerAction<D, AE, E>)
    ensures
        action matches ServerAction::SendCandidate(Some(RTCMessage::ICE(candidate))) ==> sent_by(
            seq![action],
        ) == seq![Some(candidate)],
        action matches ServerAction::SendCandidate(None) ==> sent_by(seq![action]) == seq![
            None::<IceCandidateInit>,
        ],
        action !is SendCandidate ==> sent_by(seq![action])
            == Seq::<Option<IceCandidateInit>>::empty(),
        action matches ServerAction::AddCandidate(candidate) ==> added_by(seq![action])
            == seq![candidate],
        action !is AddCandidate ==> added_by(seq![action]) == Seq::<IceCandidateInit>::empty(),
{
    assert(seq![action].drop_last() =~= seq![]);
    assert(seq![action].last() == action);
    reveal_with_fuel(sent_by, 2);
    reveal_with_fuel(added_by, 2);
    if let ServerAction::SendCandidate(Some(RTCMessage::ICE(candidate))) = action {
        assert(sent_by(seq![action]) =~= seq![Some(candidate)]);
    }
    if let ServerAction::SendCandidate(None) = action {
        assert(sent_by(seq![action]) =~= seq![None::<IceCandidateInit>]);
    }
    if action is AddCandidate {
        assert(added_by(seq![action]) =~= seq![action->AddCandidate_0]);
    }
}

/// An exchange sends all that goes out, adds all that comes in, does nothing else, and hands the
/// connection over at its end and not before.
proof fn server_exchange_has_its_effect<D, AE, E>(
    exchange: IceExchange,
    steps: Seq<Passed<IceCandidateInit, IceCandidateInit>>,
)
    requires
        exchange_goes_on(exchange, steps),
    ensures
        ({
            let actions = exchange_actions::<D, AE, E>(exchange, steps);
            &&& sent_by(actions) == outgoing(steps)
            &&& added_by(actions) == arrived(incoming(steps))
            &&& forall|i: int| 0 <= i < actions.len() - 1 ==> (#[trigger] actions[i]) !is Serve
            &&& forall|i: int|
                0 <= i < actions.len() ==> (#[trigger] actions[i]) is Exchange || actions[i]
                    is SendCandidate || actions[i] is AddCandidate || actions[i] is Serve
        }),
    decreases steps.len(),
{
    let actions = exchange_actions::<D, AE, E>(exchange, steps);
    if steps.len() > 0 {
        let next = exchange_step(exchange, steps[0]);
        let rest = steps.drop_first();
        let later = exchange_actions::<D, AE, E>(next, rest);
        assert(exchange_goes_on(next, rest));
        server_exchange_has_its_effect::<D, AE, E>(next, rest);
        let follow = follow_up::<D, AE, E>(next);
        server_effect_of_one(follow);
        if next.over() {
            assert(rest.len() == 0);
        }
        match steps[0] {
            Passed::Outgoing(candidate) => {
                let send = ServerAction::<D, AE, E>::SendCandidate(as_message(candidate));
                server_effect_of_one(send);
                server_effects_add_up(seq![send], seq![follow]);
                assert(seq![send] + seq![follow] =~= seq![send, follow]);
                server_effects_add_up(seq![send, follow], later);
                assert(sent_by(actions) =~= outgoing(steps));
                assert(added_by(actions) =~= arrived(incoming(steps)));
            },
            Passed::Incoming(Some(candidate)) => {
                let add = ServerAction::<D, AE, E>::AddCandidate(candidate);
                server_effect_of_one(add);
                server_effects_add_up(seq![add], seq![follow]);
                assert(seq![add] + seq![follow] =~= seq![add, follow]);
                server_effects_add_up(seq![add, follow], later);
                arrivals_add_up(seq![Some(candidate)], incoming(rest));
                reveal_with_fuel(arrived, 2);
                assert(seq![Some(candidate)].drop_last() =~= seq![]);
                assert(arrived(seq![Some(candidate)]) =~= seq![candidate]);
                assert(sent_by(actions) =~= outgoing(steps));
                assert(added_by(actions) =~= arrived(incoming(steps)));
            },
            Passed::Incoming(None) => {
                server_effects_add_up(seq![follow], later);
                arrivals_add_up(seq![None::<IceCandidateInit>], incoming(rest));
                reveal_with_fuel(arrived, 2);
                assert(seq![None::<IceCandidateInit>].drop_last() =~= seq![]);
                assert(sent_by(actions) =~= outgoing(steps));
                assert(added_by(actions) =~= arrived(incoming(steps)));
            },
        }
    }
}

/// A run of steps takes the transport where its events do, by the actions that they lead to.
proof fn server_run_goes_by_events<D, AE, E>(
    connections: Seq<ServerConnection<D, E>>,
    events: Seq<ServerEvent<D, E>>,
    actions: Seq<ServerAction<D, AE, E>>,
)
    requires
        connections.len() == events.len() + 1,
        actions.len() == events.len(),
        forall|i: int|
            0 <= i < events.len() ==> call_ensures(
                ServerConnection::<D, E>::step::<AE>,
                (#[trigger] connections[i], events[i]),
                (connections[i + 1], actions[i]),
            ),
    ensures
        server_actions::<D, AE, E>(connections[0], events) == actions,
        server_after::<D, AE, E>(connections[0], events) == connections.last(),
        server_accepts::<D, AE, E>(connections[0], events) ==> forall|i: int|
            0 <= i < events.len() ==> (#[trigger] connections[i]).awaits(events[i]),
    decreases events.len(),
{
    if events.len() == 0 {
        assert(actions =~= seq![]);
    } else {
        let (c, e, a) = (connections.drop_first(), events.drop_first(), actions.drop_first());
        assert forall|i: int| 0 <= i < e.len() implies call_ensures(
            ServerConnection::<D, E>::step::<AE>,
            (#[trigger] c[i], e[i]),
            (c[i + 1], a[i]),
        ) by {
            assert(c[i] == connections[i + 1]);
        }
        server_run_goes_by_events::<D, AE, E>(c, e, a);
        assert(call_ensures(
            ServerConnection::<D, E>::step::<AE>,
            (connections[0], events[0]),
            (connections[1], actions[0]),
        ));
        assert(c[0] == connections[1]);
        assert(c.last() == connections.last());
        assert(actions =~= seq![actions[0]] + a);
        if server_accepts::<D, AE, E>(connections[0], events) {
            assert forall|i: int| 0 <= i < events.len() implies (
            #[trigger] connections[i]).awaits(events[i]) by {
                if i > 0 {
                    assert(c[i - 1] == connections[i]);
                    assert(e[i - 1] == events[i]);
                }
            }
        }
    }
}

/// The protocol of a whole upgrade in which nothing fails, however the candidates of the two ends
/// interleave, and whatever upgrades the transport has seen before: a peer connection is opened for
/// the offer, the server starts to watch it, sets the offer, creates, sends and sets the answer,
/// and then exchanges candidates. What goes out is sent and what comes in is added, all of it, once
/// and in order. The connection is handed over when both end marks have passed, and not before; and
/// once it is served the next offer is received.
#[verifier::spinoff_prover]
#[verifier::rlimit(60)]
pub proof fn server_follows_protocol<D, AE, E>(
    offer: D,
    answer: D,
    steps: Seq<Passed<IceCandidateInit, IceCandidateInit>>,
    connections: Seq<ServerConnection<D, E>>,
    events: Seq<ServerEvent<D, E>>,
    actions: Seq<ServerAction<D, AE, E>>,
)
    requires
        outgoing(steps).contains(None),
        incoming(steps).contains(None),
        forall|k: int|
            0 <= k < steps.len() ==> !(outgoing(#[trigger] steps.take(k)).contains(None)
                && incoming(steps.take(k)).contains(None)),
        events == seq![
            ServerEvent::<D, E>::Offer(Ok(offer)),
            ServerEvent::PeerOpened(Ok(())),
            ServerEvent::Watching,
            ServerEvent::Applied(Ok(())),
            ServerEvent::AnswerCreated(Ok(answer)),
            ServerEvent::Sent(Ok(())),
            ServerEvent::Applied(Ok(())),
        ] + exchange_events(steps) + seq![ServerEvent::Served],
        connections.len() == events.len() + 1,
        actions.len() == events.len(),
        connections[0].phase is AwaitingOffer,
        forall|i: int|
            0 <= i < events.len() ==> call_ensures(
                ServerConnection::<D, E>::step::<AE>,
                (#[trigger] connections[i], events[i]),
                (connections[i + 1], actions[i]),
            ),
    ensures
        forall|i: int|
            0 <= i < events.len() ==> (#[trigger] connections[i]).awaits(events[i]),
        actions.len() >= 9,
        actions.take(7) == seq![
            ServerAction::<D, AE, E>::OpenPeer,
            ServerAction::WatchPeer,
            ServerAction::SetRemote(offer),
            ServerAction::CreateAnswer,
            ServerAction::SendAnswer,
            ServerAction::SetLocal(answer),
            ServerAction::Exchange,
        ],
        forall|i: int|
            7 <= i < actions.len() - 1 ==> (#[trigger] actions[i]) is Exchange || actions[i]
                is SendCandidate || actions[i] is AddCandidate || actions[i] is Serve,
        sent_by(actions) == outgoing(steps),
        added_by(actions) == arrived(incoming(steps)),
        forall|i: int| 0 <= i < actions.len() ==> ((#[trigger] actions[i]) is Serve <==> i
            == actions.len() - 2),
        actions.last() is ReceiveOffer,
        connections.last().phase is AwaitingOffer,
{
    exchange_until_both_marks(steps);
    let start = connections[0];
    server_upgrade_completes::<D, AE, E>(start, offer, answer, steps);
    let before = upgrade_events::<D, E>(offer, answer, steps);
    let served = ServerEvent::<D, E>::Served;
    assert(before == answer_events::<D, E>(offer, answer) + exchange_events::<D, E>(steps));
    assert(events == before + seq![served]);
    server_one::<D, AE, E>(server_after::<D, AE, E>(start, before), served);
    server_runs_on::<D, AE, E>(start, before, seq![served]);
    server_run_goes_by_events::<D, AE, E>(connections, events, actions);
    server_actions_have_their_effect::<D, AE, E>(offer, answer, steps, actions);
}

/// What the actions of a whole upgrade come to.
#[verifier::spinoff_prover]
#[verifier::rlimit(60)]
proof fn server_actions_have_their_effect<D, AE, E>(
    offer: D,
    answer: D,
    steps: Seq<Passed<IceCandidateInit, IceCandidateInit>>,
    actions: Seq<ServerAction<D, AE, E>>,
)
    requires
        exchange_goes_on(IceExchange::begin(), steps),
        exchange_after(IceExchange::begin(), steps).over(),
        actions == seq![
            ServerAction::<D, AE, E>::OpenPeer,
            ServerAction::WatchPeer,
            ServerAction::SetRemote(offer),
            ServerAction::CreateAnswer,
            ServerAction::SendAnswer,
            ServerAction::SetLocal(answer),
            ServerAction::Exchange,
        ] + exchange_actions(IceExchange::begin(), steps) + seq![ServerAction::ReceiveOffer],
    ensures
        actions.len() >= 9,
        actions.take(7) == seq![
            ServerAction::<D, AE, E>::OpenPeer,
            ServerAction::WatchPeer,
            ServerAction::SetRemote(offer),
            ServerAction::CreateAnswer,
            ServerAction::SendAnswer,
            ServerAction::SetLocal(answer),
            ServerAction::Exchange,
        ],
        forall|i: int|
            7 <= i < actions.len() - 1 ==> (#[trigger] actions[i]) is Exchange || actions[i]
                is SendCandidate || actions[i] is AddCandidate || actions[i] is Serve,
        sent_by(actions) == outgoing(steps),
        added_by(actions) == arrived(incoming(steps)),
        forall|i: int| 0 <= i < actions.len() ==> ((#[trigger] actions[i]) is Serve <==> i
            == actions.len() - 2),
        actions.last() is ReceiveOffer,
{
    let begin = IceExchange::begin();
    let answering = seq![
        ServerAction::<D, AE, E>::OpenPeer,
        ServerAction::WatchPeer,
        ServerAction::SetRemote(offer),
        ServerAction::CreateAnswer,
        ServerAction::SendAnswer,
        ServerAction::SetLocal(answer),
        ServerAction::Exchange,
    ];
    let exchanging = exchange_actions::<D, AE, E>(begin, steps);
    let last = ServerAction::<D, AE, E>::ReceiveOffer;
    assert(actions == answering + exchanging + seq![last]);
    server_other_actions_pass(answering);
    server_exchange_has_its_effect::<D, AE, E>(begin, steps);
    server_effect_of_one(last);
    server_effects_add_up(answering, exchanging);
    server_effects_add_up(answering + exchanging, seq![last]);
    assert(sent_by(actions) =~= outgoing(steps));
    assert(added_by(actions) =~= arrived(incoming(steps)));
    exchange_ends_in_serve::<D, AE, E>(begin, steps);
    assert(actions.take(7) =~= answering);
    let n = exchanging.len() as int;
    assert forall|i: int| 0 <= i < actions.len() implies ((#[trigger] actions[i]) is Serve <==> i
        == actions.len() - 2) by {
        if i < 7 {
            assert(actions[i] == answering[i]);
            assert(answering[i] !is Serve);
        } else if i < 7 + n {
            assert(actions[i] == exchanging[i - 7]);
        }
    }
    assert forall|i: int| 7 <= i < actions.len() - 1 implies (#[trigger] actions[i]) is Exchange
        || actions[i] is SendCandidate || actions[i] is AddCandidate || actions[i] is Serve by {
        assert(actions[i] == exchanging[i - 7]);
    }
}

/// A transport that is accepted is upgraded, one that is not is reported, and the server closes
/// exactly when it is asked to.
pub proof fn server_accepts_until_closed<T, AE, DE>(
    event: AcceptEvent<T, AE>,
    action: AcceptAction<T, AE, DE>,
)
    requires
        call_ensures(accept_next::<T, AE, DE>, (event,), action),
    ensures
        event matches AcceptEvent::Accepted(Ok(transport)) ==> action == AcceptAction::<
            T,
            AE,
            DE,
        >::Upgrade(transport),
        event matches AcceptEvent::Accepted(Err(e)) ==> action == AcceptAction::<
            T,
            AE,
            DE,
        >::Report(ServerError::AcceptError(e)),
        event is CloseRequested <==> action is Close,
{
}

/// An error says what the error inside says; one about a message names the sender first.
pub proof fn server_errors_in_words<AE, DE>(
    error: ServerError<AE, DE>,
    below: TlsAcceptError<AE>,
    cause: &str,
    text: String,
    text_below: String,
)
    requires
        call_ensures(ServerError::<AE, DE>::message, (&error, cause), text),
        call_ensures(TlsAcceptError::<AE>::message, (&below, cause), text_below),
    ensures
        error matches ServerError::BadMessage { client_id, .. } ==> text@ == "From: "@ + client_id@
            + "\n"@ + cause@,
        error !is BadMessage ==> text@ == cause@,
        text_below@ == cause@,
{
}

/// TLS is put on the very stream that was accepted, and what comes of it is a transport on which
/// nothing has been read yet. What fails is told apart by where it failed.
pub proof fn tls_is_put_on_what_was_accepted<S, C, T, E>(
    accepted: Result<StreamTransport<C>, E>,
    stream: Result<C, TlsAcceptError<E>>,
    secured: Result<T, std::io::Error>,
    transport: Result<StreamTransport<T>, TlsAcceptError<E>>,
)
    requires
        call_ensures(TlsUpgradeTransportServer::<S>::accepted::<C, E>, (accepted,), stream),
        call_ensures(TlsUpgradeTransportServer::<S>::secured::<T, E>, (secured,), transport),
    ensures
        accepted matches Ok(below) ==> stream is Ok && stream->Ok_0 == below.stream,
        accepted matches Err(e) ==> stream is Err && stream->Err_0 == TlsAcceptError::AcceptError(
            e,
        ),
        secured matches Ok(above) ==> transport is Ok && transport->Ok_0.stream == above
            && transport->Ok_0.recv_buffer@.len() == 0,
        secured matches Err(e) ==> transport is Err && transport->Err_0
            == TlsAcceptError::<E>::IOError(e),
{
}

/// A server starts on what it is given, with the default interface and settings, and keeps both
/// when it gets TLS. Where TLS could not be set up, the server comes back as it was, with the
/// reason.
pub proof fn server_keeps_its_settings_with_tls<S>(
    below: S,
    server: UpgradeWebRTCServer<S>,
    acceptor: tokio_rustls::TlsAcceptor,
    with_tls: UpgradeWebRTCServer<TlsUpgradeTransportServer<S>>,
    setup: Result<tokio_rustls::TlsAcceptor, TlsInitError>,
    from_config: Result<
        UpgradeWebRTCServer<TlsUpgradeTransportServer<S>>,
        (TlsInitError, UpgradeWebRTCServer<S>),
    >,
)
    requires
        call_ensures(UpgradeWebRTCServer::<S>::new, (below,), server),
        call_ensures(UpgradeWebRTCServer::<S>::add_tls, (server, acceptor), with_tls),
        call_ensures(
            UpgradeWebRTCServer::<S>::add_tls_from_config,
            (server, setup),
            from_config,
        ),
    ensures
        server.server == below,
        crate::rtc::has_interceptor_settings(crate::rtc::media_engine_of(*server.api)),
        crate::rtc::has_default_interceptors(crate::rtc::interceptors_of(*server.api)),
        server.config.ice_servers@.len() == 1,
        server.config.ice_servers@[0].urls@.len() == 1,
        server.config.ice_servers@[0].urls@[0]@ == "stun:stun.l.google.com:19302"@,
        with_tls.server.server == below,
        with_tls.server.acceptor == acceptor,
        with_tls.api == server.api,
        with_tls.config == server.config,
        setup matches Ok(other) ==> {
            &&& from_config is Ok
            &&& from_config->Ok_0.server.server == below
            &&& from_config->Ok_0.server.acceptor == other
            &&& from_config->Ok_0.api == server.api
            &&& from_config->Ok_0.config == server.config
        },
        setup matches Err(e) ==> from_config is Err && from_config->Err_0 == (e, server),
{
}

} // verus!
