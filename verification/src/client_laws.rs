//! What holds of a client's upgrade as a whole, whatever the events are.
use crate::client::{
    ClientAction, ClientError, ClientEvent, ClientPhase, ClientUpgrade, ClientView,
    PeerAndChannels, UpgradeWebRTCClient,
};
use crate::ice::{
    arrivals_add_up, arrived, exchange_after, exchange_goes_on, exchange_step,
    exchange_until_both_marks, incoming, outgoing, IceCandidateInit, IceExchange, Passed,
};
use crate::rtc::{DataChannelInit, RTCMessage};
use crate::tls::TlsInitError;
use crate::transport::{RecvError, StreamTransport};
use vstd::prelude::*;

verus! {

/// Where an upgrade stands after the given events.
pub open spec fn client_after<D, C, Ch, E>(
    start: ClientView<D, Ch>,
    events: Seq<ClientEvent<D, C, Ch, E>>,
) -> ClientView<D, Ch>
    decreases events.len(),
{
    if events.len() == 0 {
        start
    } else {
        client_after(start.step(events[0]).0, events.drop_first())
    }
}

/// The actions that an upgrade decides on at the given events.
pub open spec fn client_actions<D, C, Ch, E>(
    start: ClientView<D, Ch>,
    events: Seq<ClientEvent<D, C, Ch, E>>,
) -> Seq<ClientAction<D, C, E>>
    decreases events.len(),
{
    if events.len() == 0 {
        seq![]
    } else {
        let (next, action) = start.step(events[0]);
        seq![action] + client_actions(next, events.drop_first())
    }
}

/// Each of the events is awaited when it comes.
pub open spec fn client_accepts<D, C, Ch, E>(
    start: ClientView<D, Ch>,
    events: Seq<ClientEvent<D, C, Ch, E>>,
) -> bool
    decreases events.len(),
{
    events.len() == 0 || (start.awaits(events[0]) && client_accepts(
        start.step(events[0]).0,
        events.drop_first(),
    ))
}

/// Events one behind the other have the effects of the first ones, then of the others.
proof fn client_runs_on<D, C, Ch, E>(
    start: ClientView<D, Ch>,
    first: Seq<ClientEvent<D, C, Ch, E>>,
    later: Seq<ClientEvent<D, C, Ch, E>>,
)
    ensures
        client_after(start, first + later) == client_after(client_after(start, first), later),
        client_actions(start, first + later) == client_actions(start, first) + client_actions(
            client_after(start, first),
            later,
        ),
        client_accepts(start, first + later) == (client_accepts(start, first) && client_accepts(
            client_after(start, first),
            later,
        )),
    decreases first.len(),
{
    if first.len() == 0 {
        assert(first + later =~= later);
        assert(client_actions(start, first) + client_actions(start, later) =~= client_actions(
            start,
            later,
        ));
    } else {
        let (next, action) = start.step(first[0]);
        client_runs_on(next, first.drop_first(), later);
        assert((first + later).drop_first() =~= first.drop_first() + later);
        assert(seq![action] + (client_actions(next, first.drop_first()) + client_actions(
            client_after(start, first),
            later,
        )) =~= (seq![action] + client_actions(next, first.drop_first())) + client_actions(
            client_after(start, first),
            later,
        ));
    }
}

/// One event.
proof fn client_one<D, C, Ch, E>(start: ClientView<D, Ch>, event: ClientEvent<D, C, Ch, E>)
    ensures
        client_after(start, seq![event]) == start.step(event).0,
        client_actions(start, seq![event]) == seq![start.step(event).1],
        client_accepts(start, seq![event]) == start.awaits(event),
{
    reveal_with_fuel(client_after, 2);
    reveal_with_fuel(client_actions, 2);
    reveal_with_fuel(client_accepts, 2);
    assert(seq![event].drop_first() =~= seq![]);
    assert(client_actions(start, seq![event]) =~= seq![start.step(event).1]);
}

/// The event reports that something went wrong.
pub open spec fn reports_failure<D, C, Ch, E>(event: ClientEvent<D, C, Ch, E>) -> bool {
    match event {
        ClientEvent::PeerOpened(r) => r is Err,
        ClientEvent::ChannelOpened(r) => r is Err,
        ClientEvent::OfferCreated(r) => r is Err,
        ClientEvent::Sent(r) => r is Err,
        ClientEvent::Applied(r) => r is Err,
        ClientEvent::Message(r) => r is Err,
        ClientEvent::Watching => false,
        ClientEvent::LocalCandidate(_) => false,
        ClientEvent::RemoteMessage(r) => match r {
            Ok(Some(RTCMessage::SDPAnswer(_))) => true,
            Ok(_) => false,
            Err(_) => true,
        },
    }
}

/// An upgrade fails exactly at an event that reports a failure (a second answer is one), and a
/// failed upgrade awaits no further event.
pub proof fn client_fails_on_failure<D, C, Ch, E>(
    start: ClientView<D, Ch>,
    event: ClientEvent<D, C, Ch, E>,
    later: ClientEvent<D, C, Ch, E>,
)
    requires
        start.awaits(event),
    ensures
        start.step(event).1 is Fail <==> reports_failure(event),
        start.step(event).0.phase is Failed <==> reports_failure(event),
        reports_failure(event) ==> !start.step(event).0.awaits(later),
{
}

/// While candidates are exchanged the exchange is not over; before that it has not begun; and an
/// upgrade is done only when it is over.
pub open spec fn client_is_consistent<D, Ch>(upgrade: ClientView<D, Ch>) -> bool {
    match upgrade.phase {
        ClientPhase::Exchanging => !upgrade.exchange.over(),
        ClientPhase::SendingCandidate(_) => !upgrade.exchange.over(),
        ClientPhase::AddingCandidate => !upgrade.exchange.over(),
        ClientPhase::Done => upgrade.exchange.over(),
        ClientPhase::Failed => true,
        _ => upgrade.exchange == IceExchange::begin(),
    }
}

/// Every upgrade is consistent when it begins, and stays so at each event.
pub proof fn client_stays_consistent<D, C, Ch, E>(
    requested: Seq<(String, DataChannelInit)>,
    upgrade: ClientView<D, Ch>,
    event: ClientEvent<D, C, Ch, E>,
)
    ensures
        client_is_consistent(ClientView::<D, Ch>::begin(requested)),
        client_is_consistent(upgrade) && upgrade.awaits(event) ==> client_is_consistent(
            upgrade.step(event).0,
        ),
{
}

/// An upgrade is reported finished exactly when it is done, and then awaits no further event.
pub proof fn client_finishes_once<D, C, Ch, E>(
    upgrade: ClientView<D, Ch>,
    event: ClientEvent<D, C, Ch, E>,
    later: ClientEvent<D, C, Ch, E>,
)
    requires
        upgrade.awaits(event),
    ensures
        upgrade.step(event).1 is Finish <==> upgrade.step(event).0.phase is Done,
        upgrade.step(event).1 is Finish ==> !upgrade.step(event).0.awaits(later),
{
}

/// The actions that open the given channels.
pub open spec fn open_actions<D, C, E>(requested: Seq<(String, DataChannelInit)>) -> Seq<
    ClientAction<D, C, E>,
> {
    Seq::new(requested.len(), |i: int| ClientAction::OpenChannel(requested[i].0, requested[i].1))
}

/// The events that report the given channels open.
pub open spec fn opened_events<D, C, Ch, E>(handles: Seq<Ch>) -> Seq<ClientEvent<D, C, Ch, E>> {
    Seq::new(handles.len(), |i: int| ClientEvent::ChannelOpened(Ok(handles[i])))
}

/// The given channels with their labels.
pub open spec fn labelled<Ch>(
    requested: Seq<(String, DataChannelInit)>,
    handles: Seq<Ch>,
) -> Seq<(String, Ch)> {
    Seq::new(requested.len(), |i: int| (requested[i].0, handles[i]))
}

/// The requested channels are opened one after the other, in the order in which they were
/// requested, and are handed out in that order under their labels.
pub proof fn channels_open_in_order<D, C, Ch, E>(start: ClientView<D, Ch>, handles: Seq<Ch>)
    requires
        handles.len() == start.requested.len(),
    ensures
        ({
            let (next, action) = start.open_next::<C, E>();
            let events = opened_events::<D, C, Ch, E>(handles);
            &&& client_accepts(next, events)
            &&& seq![action] + client_actions(next, events) == open_actions::<D, C, E>(
                start.requested,
            ).push(ClientAction::CreateOffer)
            &&& client_after(next, events) == ClientView {
                phase: ClientPhase::CreatingOffer,
                requested: seq![],
                channels: start.channels + labelled(start.requested, handles),
                ..start
            }
        }),
    decreases handles.len(),
{
    let (next, action) = start.open_next::<C, E>();
    let events = opened_events::<D, C, Ch, E>(handles);
    if handles.len() == 0 {
        assert(seq![action] + client_actions(next, events) =~= open_actions::<D, C, E>(
            start.requested,
        ).push(ClientAction::CreateOffer));
        assert(start.channels + labelled(start.requested, handles) =~= start.channels);
        assert(start.requested =~= seq![]);
    } else {
        let opened = ClientView {
            channels: next.channels.push((start.requested[0].0, handles[0])),
            ..next
        };
        let later = handles.drop_first();
        channels_open_in_order::<D, C, Ch, E>(opened, later);
        assert(events.drop_first() =~= opened_events::<D, C, Ch, E>(later));
        assert(next.step(events[0]) == opened.open_next::<C, E>());
        let tail = client_actions(opened.open_next::<C, E>().0, events.drop_first());
        assert(client_actions(next, events) =~= seq![opened.open_next::<C, E>().1] + tail);
        assert(seq![action] + open_actions::<D, C, E>(start.requested.drop_first()).push(
            ClientAction::CreateOffer,
        ) =~= open_actions::<D, C, E>(start.requested).push(ClientAction::CreateOffer));
        assert(opened.channels + labelled(opened.requested, later) =~= start.channels + labelled(
            start.requested,
            handles,
        ));
    }
}

/// The events that bring the given candidates ahead of the answer, and then the answer.
pub open spec fn answer_events<D, C, Ch, E>(candidates: Seq<IceCandidateInit>, answer: D) -> Seq<
    ClientEvent<D, C, Ch, E>,
> {
    Seq::new(
        candidates.len(),
        |i: int| ClientEvent::Message(Ok(RTCMessage::ICE(candidates[i]))),
    ).push(ClientEvent::Message(Ok(RTCMessage::SDPAnswer(answer))))
}

/// Candidates that come ahead of the answer are kept, in the order in which they come, and the
/// answer is set before any of them is added.
pub proof fn early_candidates_are_kept<D, C, Ch, E>(
    start: ClientView<D, Ch>,
    candidates: Seq<IceCandidateInit>,
    answer: D,
)
    requires
        start.phase is AwaitingAnswer,
    ensures
        client_accepts(start, answer_events::<D, C, Ch, E>(candidates, answer)),
        client_actions(start, answer_events::<D, C, Ch, E>(candidates, answer)) == Seq::new(
            candidates.len(),
            |i: int| ClientAction::<D, C, E>::Receive,
        ).push(ClientAction::SetRemote(answer)),
        client_after(start, answer_events::<D, C, Ch, E>(candidates, answer)) == (ClientView {
            phase: ClientPhase::SettingRemote,
            early: start.early + candidates,
            ..start
        }),
    decreases candidates.len(),
{
    let events = answer_events::<D, C, Ch, E>(candidates, answer);
    if candidates.len() == 0 {
        assert(events =~= seq![
            ClientEvent::<D, C, Ch, E>::Message(Ok(RTCMessage::SDPAnswer(answer))),
        ]);
        client_one(start, events[0]);
        assert(start.early + candidates =~= start.early);
        assert(Seq::new(candidates.len(), |i: int| ClientAction::<D, C, E>::Receive).push(
            ClientAction::SetRemote(answer),
        ) =~= seq![ClientAction::<D, C, E>::SetRemote(answer)]);
    } else {
        let next = ClientView { early: start.early.push(candidates[0]), ..start };
        let later = candidates.drop_first();
        early_candidates_are_kept::<D, C, Ch, E>(next, later, answer);
        assert(events.drop_first() =~= answer_events::<D, C, Ch, E>(later, answer));
        assert(events[0] == ClientEvent::<D, C, Ch, E>::Message(
            Ok(RTCMessage::ICE(candidates[0])),
        ));
        assert(start.step(events[0]) == (next, ClientAction::<D, C, E>::Receive));
        assert(next.early + later =~= start.early + candidates);
        assert(seq![ClientAction::<D, C, E>::Receive] + Seq::new(
            later.len(),
            |i: int| ClientAction::<D, C, E>::Receive,
        ).push(ClientAction::SetRemote(answer)) =~= Seq::new(
            candidates.len(),
            |i: int| ClientAction::<D, C, E>::Receive,
        ).push(ClientAction::SetRemote(answer)));
    }
}

/// As many reports of success as there are steps to apply.
pub open spec fn applied_events<D, C, Ch, E>(n: nat) -> Seq<ClientEvent<D, C, Ch, E>> {
    Seq::new(n, |i: int| ClientEvent::Applied(Ok(())))
}

/// The actions that add the given candidates.
pub open spec fn add_actions<D, C, E>(candidates: Seq<IceCandidateInit>) -> Seq<
    ClientAction<D, C, E>,
> {
    Seq::new(candidates.len(), |i: int| ClientAction::AddCandidate(candidates[i]))
}

/// Once the answer is set, each early candidate is added exactly once, in the order in which
/// they came, and only then does the client look for candidates of its own.
pub proof fn early_candidates_are_added<D, C, Ch, E>(start: ClientView<D, Ch>)
    ensures
        ({
            let (next, action) = start.add_next::<C, E>();
            let events = applied_events::<D, C, Ch, E>(start.early.len());
            &&& client_accepts(next, events)
            &&& seq![action] + client_actions(next, events) == add_actions::<D, C, E>(
                start.early,
            ).push(ClientAction::WatchCandidates)
            &&& client_after(next, events) == ClientView {
                phase: ClientPhase::StartingWatch,
                early: seq![],
                ..start
            }
        }),
    decreases start.early.len(),
{
    let (next, action) = start.add_next::<C, E>();
    let events = applied_events::<D, C, Ch, E>(start.early.len());
    if start.early.len() == 0 {
        assert(start.early =~= seq![]);
        assert(seq![action] + client_actions(next, events) =~= add_actions::<D, C, E>(
            start.early,
        ).push(ClientAction::WatchCandidates));
    } else {
        early_candidates_are_added::<D, C, Ch, E>(next);
        assert(events.drop_first() =~= applied_events::<D, C, Ch, E>(next.early.len()));
        assert(next.step(events[0]) == next.add_next::<C, E>());
        let tail = client_actions(next.add_next::<C, E>().0, events.drop_first());
        assert(client_actions(next, events) =~= seq![next.add_next::<C, E>().1] + tail);
        assert(seq![action] + add_actions::<D, C, E>(next.early).push(
            ClientAction::WatchCandidates,
        ) =~= add_actions::<D, C, E>(start.early).push(ClientAction::WatchCandidates));
    }
}

/// The events of one step of an exchange in which nothing fails.
pub open spec fn passed_events<D, C, Ch, E>(step: Passed<C, IceCandidateInit>) -> Seq<
    ClientEvent<D, C, Ch, E>,
> {
    match step {
        Passed::Outgoing(candidate) => seq![
            ClientEvent::LocalCandidate(candidate),
            ClientEvent::Sent(Ok(())),
        ],
        Passed::Incoming(Some(candidate)) => seq![
            ClientEvent::RemoteMessage(Ok(Some(RTCMessage::ICE(candidate)))),
            ClientEvent::Applied(Ok(())),
        ],
        Passed::Incoming(None) => seq![ClientEvent::RemoteMessage(Ok(None))],
    }
}

/// The events of an exchange in which nothing fails.
pub open spec fn exchange_events<D, C, Ch, E>(steps: Seq<Passed<C, IceCandidateInit>>) -> Seq<
    ClientEvent<D, C, Ch, E>,
>
    decreases steps.len(),
{
    if steps.len() == 0 {
        seq![]
    } else {
        passed_events(steps[0]) + exchange_events(steps.drop_first())
    }
}

/// The action that follows on a step.
pub open spec fn follow_up<D, C, E>(exchange: IceExchange) -> ClientAction<D, C, E> {
    if exchange.over() {
        ClientAction::Finish
    } else {
        ClientAction::Exchange
    }
}

/// The actions of an exchange: each candidate of this end is sent, each one of the other end is
/// added, in the order of the steps, and the upgrade goes on until the exchange is over.
pub open spec fn exchange_actions<D, C, E>(
    exchange: IceExchange,
    steps: Seq<Passed<C, IceCandidateInit>>,
) -> Seq<ClientAction<D, C, E>>
    decreases steps.len(),
{
    if steps.len() == 0 {
        seq![]
    } else {
        let next = exchange_step(exchange, steps[0]);
        (match steps[0] {
            Passed::Outgoing(candidate) => seq![
                ClientAction::SendCandidate(candidate),
                follow_up(next),
            ],
            Passed::Incoming(Some(candidate)) => seq![
                ClientAction::AddCandidate(candidate),
                follow_up(next),
            ],
            Passed::Incoming(None) => seq![follow_up(next)],
        }) + exchange_actions(next, steps.drop_first())
    }
}

/// In an exchange in which nothing fails, every candidate of this end is sent and every one of
/// the other end is added, each once and in order, however the two interleave; and the upgrade
/// is done as soon as both end marks have passed, and not before.
pub proof fn client_exchanges_candidates<D, C, Ch, E>(
    start: ClientView<D, Ch>,
    steps: Seq<Passed<C, IceCandidateInit>>,
)
    requires
        start.phase is Exchanging,
        !start.exchange.over(),
        exchange_goes_on(start.exchange, steps),
    ensures
        client_accepts(start, exchange_events::<D, C, Ch, E>(steps)),
        client_actions(start, exchange_events::<D, C, Ch, E>(steps)) == exchange_actions::<D, C, E>(
            start.exchange,
            steps,
        ),
        client_after(start, exchange_events::<D, C, Ch, E>(steps)) == (ClientView {
            phase: if exchange_after(start.exchange, steps).over() {
                ClientPhase::Done
            } else {
                ClientPhase::Exchanging
            },
            exchange: exchange_after(start.exchange, steps),
            ..start
        }),
    decreases steps.len(),
{
    let events = exchange_events::<D, C, Ch, E>(steps);
    if steps.len() > 0 {
        let now = passed_events::<D, C, Ch, E>(steps[0]);
        let later = exchange_events::<D, C, Ch, E>(steps.drop_first());
        let exchange = exchange_step(start.exchange, steps[0]);
        let next = start.go_on::<C, E>(exchange).0;
        match steps[0] {
            Passed::Outgoing(candidate) => {
                let middle = start.step(now[0]).0;
                assert(now =~= seq![now[0]] + seq![now[1]]);
                client_runs_on(start, seq![now[0]], seq![now[1]]);
                client_one(start, now[0]);
                client_one(middle, now[1]);
                assert(middle.step(now[1]) == start.go_on::<C, E>(exchange));
            },
            Passed::Incoming(Some(candidate)) => {
                let middle = start.step(now[0]).0;
                assert(now =~= seq![now[0]] + seq![now[1]]);
                client_runs_on(start, seq![now[0]], seq![now[1]]);
                client_one(start, now[0]);
                client_one(middle, now[1]);
                assert(exchange == start.exchange);
                assert(middle.step(now[1]) == start.go_on::<C, E>(exchange));
            },
            Passed::Incoming(None) => {
                client_one(start, now[0]);
            },
        }
        assert(client_after(start, now) == next);
        client_runs_on(start, now, later);
        assert(exchange_goes_on(exchange, steps.drop_first()));
        assert(client_actions(start, now) + exchange_actions::<D, C, E>(
            exchange,
            steps.drop_first(),
        ) =~= exchange_actions::<D, C, E>(start.exchange, steps));
        if exchange.over() {
            assert(later =~= seq![]);
        } else {
            client_exchanges_candidates::<D, C, Ch, E>(next, steps.drop_first());
        }
        assert(client_actions(start, events) =~= exchange_actions::<D, C, E>(
            start.exchange,
            steps,
        ));
    }
}

/// The events of an upgrade in which nothing fails, up to the answer.
pub open spec fn offer_events<D, C, Ch, E>(command: Ch, handles: Seq<Ch>, offer: D) -> Seq<
    ClientEvent<D, C, Ch, E>,
> {
    seq![ClientEvent::PeerOpened(Ok(())), ClientEvent::ChannelOpened(Ok(command))]
        + opened_events(handles) + seq![
        ClientEvent::OfferCreated(Ok(offer)),
        ClientEvent::Sent(Ok(())),
        ClientEvent::Applied(Ok(())),
    ]
}

/// The client opens its channels, in order, before it creates the offer; the offer that it
/// sends is the one that was created, and that same offer becomes its local description.
pub proof fn client_makes_offer<D, C, Ch, E>(
    requested: Seq<(String, DataChannelInit)>,
    command: Ch,
    handles: Seq<Ch>,
    offer: D,
)
    requires
        handles.len() == requested.len(),
    ensures
        ({
            let start = ClientView::<D, Ch>::begin(requested);
            let events = offer_events::<D, C, Ch, E>(command, handles, offer);
            &&& client_accepts(start, events)
            &&& client_actions(start, events) == seq![
                ClientAction::<D, C, E>::OpenCommandChannel,
            ] + open_actions(requested) + seq![
                ClientAction::CreateOffer,
                ClientAction::SendOffer,
                ClientAction::SetLocal(offer),
                ClientAction::Receive,
            ]
            &&& client_after(start, events.take(events.len() - 2)).phase == ClientPhase::SendingOffer(
                offer,
            )
            &&& client_after(start, events) == ClientView {
                phase: ClientPhase::AwaitingAnswer,
                requested: seq![],
                channels: labelled(requested, handles),
                ..start
            }
        }),
{
    let start = ClientView::<D, Ch>::begin(requested);
    let e0 = ClientEvent::<D, C, Ch, E>::PeerOpened(Ok(()));
    let e1 = ClientEvent::<D, C, Ch, E>::ChannelOpened(Ok(command));
    let opened = opened_events::<D, C, Ch, E>(handles);
    let e2 = ClientEvent::<D, C, Ch, E>::OfferCreated(Ok(offer));
    let e3 = ClientEvent::<D, C, Ch, E>::Sent(Ok(()));
    let e4 = ClientEvent::<D, C, Ch, E>::Applied(Ok(()));
    let events = offer_events::<D, C, Ch, E>(command, handles, offer);

    // The command channel.
    let s1 = start.step(e0).0;
    client_one(start, e0);
    client_runs_on(start, seq![e0], seq![e1]);
    client_one(s1, e1);
    let prelude = seq![e0] + seq![e1];
    assert(prelude =~= seq![e0, e1]);
    let s2 = s1.step(e1).0;
    assert(s1.step(e1) == s1.open_next::<C, E>());

    // The requested channels.
    channels_open_in_order::<D, C, Ch, E>(s1, handles);
    client_runs_on(start, prelude, opened);
    let s3 = client_after(s2, opened);
    assert(s1.channels + labelled(requested, handles) =~= labelled(requested, handles));

    // The offer.
    let upto_offer = prelude + opened;
    client_one(s3, e2);
    client_runs_on(start, upto_offer, seq![e2]);
    let s4 = s3.step(e2).0;
    let sent = upto_offer + seq![e2];
    client_one(s4, e3);
    client_runs_on(start, sent, seq![e3]);
    let s5 = s4.step(e3).0;
    client_one(s5, e4);
    client_runs_on(start, sent + seq![e3], seq![e4]);
    assert(events =~= sent + seq![e3] + seq![e4]);
    assert(events.take(events.len() - 2) =~= sent);
    assert(client_actions(start, prelude) =~= seq![
        ClientAction::<D, C, E>::OpenCommandChannel,
    ] + seq![s1.open_next::<C, E>().1]);
    assert(client_actions(start, upto_offer) =~= seq![
        ClientAction::<D, C, E>::OpenCommandChannel,
    ] + (seq![s1.open_next::<C, E>().1] + client_actions(s2, opened)));
    assert(client_actions(start, events) =~= seq![ClientAction::<D, C, E>::OpenCommandChannel]
        + open_actions(requested) + seq![
        ClientAction::CreateOffer,
        ClientAction::SendOffer,
        ClientAction::SetLocal(offer),
        ClientAction::Receive,
    ]);
}

/// The events of a whole upgrade in which nothing fails.
pub open spec fn upgrade_events<D, C, Ch, E>(
    command: Ch,
    handles: Seq<Ch>,
    offer: D,
    early: Seq<IceCandidateInit>,
    answer: D,
    steps: Seq<Passed<C, IceCandidateInit>>,
) -> Seq<ClientEvent<D, C, Ch, E>> {
    offer_events(command, handles, offer) + answer_events(early, answer) + applied_events(
        early.len() + 1,
    ) + seq![ClientEvent::Watching] + exchange_events(steps)
}

/// An upgrade in which nothing fails completes once both ends have sent their end marks,
/// whatever channels were requested, whatever candidates come ahead of the answer, and however
/// the candidates of the two ends interleave after it. The requested channels are handed out in
/// order. (What the client does on the way, `client_makes_offer`, `early_candidates_are_kept`,
/// `early_candidates_are_added` and `client_exchanges_candidates` say.)
pub proof fn client_upgrade_completes<D, C, Ch, E>(
    requested: Seq<(String, DataChannelInit)>,
    command: Ch,
    handles: Seq<Ch>,
    offer: D,
    early: Seq<IceCandidateInit>,
    answer: D,
    steps: Seq<Passed<C, IceCandidateInit>>,
)
    requires
        handles.len() == requested.len(),
        exchange_goes_on(IceExchange::begin(), steps),
        exchange_after(IceExchange::begin(), steps).over(),
    ensures
        ({
            let start = ClientView::<D, Ch>::begin(requested);
            let events = upgrade_events::<D, C, Ch, E>(
                command,
                handles,
                offer,
                early,
                answer,
                steps,
            );
            &&& client_accepts(start, events)
            &&& client_actions(start, events).last() is Finish
            &&& client_actions(start, events) == seq![
                ClientAction::<D, C, E>::OpenCommandChannel,
            ] + open_actions(requested) + seq![
                ClientAction::CreateOffer,
                ClientAction::SendOffer,
                ClientAction::SetLocal(offer),
                ClientAction::Receive,
            ] + Seq::new(early.len(), |i: int| ClientAction::<D, C, E>::Receive) + seq![
                ClientAction::SetRemote(answer),
            ] + add_actions(early) + seq![
                ClientAction::WatchCandidates,
                ClientAction::Exchange,
            ] + exchange_actions(IceExchange::begin(), steps)
            &&& client_after(start, events).phase is Done
            &&& client_after(start, events).channels == labelled(requested, handles)
        }),
{
    let start = ClientView::<D, Ch>::begin(requested);
    let p1 = offer_events::<D, C, Ch, E>(command, handles, offer);
    client_makes_offer::<D, C, Ch, E>(requested, command, handles, offer);
    let s1 = client_after(start, p1);

    let p2 = answer_events::<D, C, Ch, E>(early, answer);
    early_candidates_are_kept::<D, C, Ch, E>(s1, early, answer);
    client_runs_on(start, p1, p2);
    let s2 = client_after(s1, p2);
    assert(s2.early =~= early);

    let applied = ClientEvent::<D, C, Ch, E>::Applied(Ok(()));
    let p3 = applied_events::<D, C, Ch, E>(early.len() + 1);
    early_candidates_are_added::<D, C, Ch, E>(s2);
    assert(p3.drop_first() =~= applied_events::<D, C, Ch, E>(early.len()));
    assert(p3[0] == applied);
    assert(s2.step(applied) == s2.add_next::<C, E>());
    client_runs_on(start, p1 + p2, p3);
    let s3 = client_after(s2, p3);

    let watching = ClientEvent::<D, C, Ch, E>::Watching;
    client_one(s3, watching);
    client_runs_on(start, p1 + p2 + p3, seq![watching]);
    let s4 = s3.step(watching).0;

    let p5 = exchange_events::<D, C, Ch, E>(steps);
    client_exchanges_candidates::<D, C, Ch, E>(s4, steps);
    client_runs_on(start, p1 + p2 + p3 + seq![watching], p5);
    exchange_ends_in_finish::<D, C, E>(IceExchange::begin(), steps);
    let actions = client_actions(s4, p5);
    let all = client_actions(
        start,
        upgrade_events::<D, C, Ch, E>(command, handles, offer, early, answer, steps),
    );
    assert(all.last() == actions.last());
    let later = p3.drop_first();
    let s2b = s2.step(applied).0;
    assert(client_actions(s2, p3) == seq![s2.step(applied).1] + client_actions(s2b, later));
    assert(client_actions(s2, p3) == add_actions::<D, C, E>(early).push(
        ClientAction::WatchCandidates,
    ));
    assert(all =~= seq![ClientAction::<D, C, E>::OpenCommandChannel] + open_actions(requested)
        + seq![
        ClientAction::CreateOffer,
        ClientAction::SendOffer,
        ClientAction::SetLocal(offer),
        ClientAction::Receive,
    ] + Seq::new(early.len(), |i: int| ClientAction::<D, C, E>::Receive) + seq![
        ClientAction::SetRemote(answer),
    ] + add_actions(early) + seq![ClientAction::WatchCandidates, ClientAction::Exchange]
        + exchange_actions(IceExchange::begin(), steps));
}

/// The actions of an exchange that comes to its end close with the report that it is finished.
proof fn exchange_ends_in_finish<D, C, E>(
    exchange: IceExchange,
    steps: Seq<Passed<C, IceCandidateInit>>,
)
    requires
        !exchange.over(),
        exchange_goes_on(exchange, steps),
        exchange_after(exchange, steps).over(),
    ensures
        exchange_actions::<D, C, E>(exchange, steps).len() > 0,
        exchange_actions::<D, C, E>(exchange, steps).last() is Finish,
    decreases steps.len(),
{
    let next = exchange_step(exchange, steps[0]);
    let later = steps.drop_first();
    assert(exchange_goes_on(next, later));
    if !next.over() {
        exchange_ends_in_finish::<D, C, E>(next, later);
    } else {
        assert(later.len() == 0);
    }
}

/// Every decision leaves the upgrade waiting for the answer to the very action that was decided on,
/// and for nothing else: the phase and the action belong together.
pub proof fn client_awaits_answer_to_its_action<D, C, Ch, E>(
    upgrade: ClientUpgrade<D, Ch>,
    event: ClientEvent<D, C, Ch, E>,
    r: (ClientUpgrade<D, Ch>, ClientAction<D, C, E>),
    later: ClientEvent<D, C, Ch, E>,
)
    requires
        upgrade@.awaits(event),
        call_ensures(ClientUpgrade::<D, Ch>::step::<C, E>, (upgrade, event), r),
    ensures
        ({
            let phase = r.0.phase;
            &&& r.1 !is OpenPeer && phase !is OpeningPeer
            &&& r.1 is OpenCommandChannel <==> phase is OpeningCommandChannel
            &&& r.1 is OpenChannel <==> phase is OpeningChannel
            &&& r.1 is CreateOffer <==> phase is CreatingOffer
            &&& r.1 is SendOffer <==> phase is SendingOffer
            &&& r.1 is SetLocal <==> phase is SettingLocal
            &&& r.1 is Receive <==> phase is AwaitingAnswer
            &&& r.1 is SetRemote <==> phase is SettingRemote
            &&& r.1 is AddCandidate <==> phase is AddingEarly || phase is AddingCandidate
            &&& r.1 is WatchCandidates <==> phase is StartingWatch
            &&& r.1 is Exchange <==> phase is Exchanging
            &&& r.1 is SendCandidate <==> phase is SendingCandidate
            &&& r.1 is Finish <==> phase is Done
            &&& r.1 is Fail <==> phase is Failed
        }),
        r.0@.awaits(later) <==> match r.1 {
            ClientAction::OpenPeer => later is PeerOpened,
            ClientAction::OpenCommandChannel => later is ChannelOpened,
            ClientAction::OpenChannel(_, _) => later is ChannelOpened,
            ClientAction::CreateOffer => later is OfferCreated,
            ClientAction::SendOffer => later is Sent,
            ClientAction::SetLocal(_) => later is Applied,
            ClientAction::Receive => later is Message,
            ClientAction::SetRemote(_) => later is Applied,
            ClientAction::AddCandidate(_) => later is Applied,
            ClientAction::WatchCandidates => later is Watching,
            ClientAction::Exchange => later is LocalCandidate || later is RemoteMessage,
            ClientAction::SendCandidate(_) => later is Sent,
            ClientAction::Finish => false,
            ClientAction::Fail(_) => false,
        },
        r.0@.awaits(later) ==> call_requires(
            ClientUpgrade::<D, Ch>::step::<C, E>,
            (r.0, later),
        ),
{
}

/// An upgrade begins by opening a peer connection, with nothing open, nothing received, and all of
/// the requested channels still to be opened.
pub proof fn client_begins_with_peer<D, C, Ch, E>(
    requested: Vec<(String, DataChannelInit)>,
    r: (ClientUpgrade<D, Ch>, ClientAction<D, C, E>),
    event: ClientEvent<D, C, Ch, E>,
)
    requires
        call_ensures(ClientUpgrade::<D, Ch>::start::<C, E>, (requested,), r),
    ensures
        r.1 is OpenPeer,
        r.0@.awaits(event) <==> event is PeerOpened,
        r.0.requested@ == requested@,
        r.0.channels@.len() == 0,
        r.0.early@.len() == 0,
        !r.0.exchange.sent_all && !r.0.exchange.received_all,
{
}

/// What goes wrong ends the upgrade at once, and comes out as the error that it was: of the
/// connection, of the transport, or of a message that could not be decoded. A second answer is
/// unexpected. Nothing else ends an upgrade with an error.
pub proof fn client_says_what_went_wrong<D, C, Ch, E>(
    upgrade: ClientUpgrade<D, Ch>,
    event: ClientEvent<D, C, Ch, E>,
    r: (ClientUpgrade<D, Ch>, ClientAction<D, C, E>),
)
    requires
        upgrade@.awaits(event),
        call_ensures(ClientUpgrade::<D, Ch>::step::<C, E>, (upgrade, event), r),
    ensures
        match event {
            ClientEvent::PeerOpened(Err(e)) => r.1 == ClientAction::<D, C, E>::Fail(
                ClientError::WebRTCError(e),
            ),
            ClientEvent::ChannelOpened(Err(e)) => r.1 == ClientAction::<D, C, E>::Fail(
                ClientError::WebRTCError(e),
            ),
            ClientEvent::OfferCreated(Err(e)) => r.1 == ClientAction::<D, C, E>::Fail(
                ClientError::WebRTCError(e),
            ),
            ClientEvent::Applied(Err(e)) => r.1 == ClientAction::<D, C, E>::Fail(
                ClientError::WebRTCError(e),
            ),
            ClientEvent::Sent(Err(e)) => r.1 == ClientAction::<D, C, E>::Fail(
                ClientError::IOError(e),
            ),
            ClientEvent::Message(Err(RecvError::IOError(e))) => r.1 == ClientAction::<
                D,
                C,
                E,
            >::Fail(ClientError::IOError(e)),
            ClientEvent::Message(Err(RecvError::DeserializeError(e))) => r.1 == ClientAction::<
                D,
                C,
                E,
            >::Fail(ClientError::DeserializeError(e)),
            ClientEvent::RemoteMessage(Err(RecvError::IOError(e))) => r.1 == ClientAction::<
                D,
                C,
                E,
            >::Fail(ClientError::IOError(e)),
            ClientEvent::RemoteMessage(Err(RecvError::DeserializeError(e))) => r.1
                == ClientAction::<D, C, E>::Fail(ClientError::DeserializeError(e)),
            ClientEvent::RemoteMessage(Ok(Some(RTCMessage::SDPAnswer(_)))) => r.1
                == ClientAction::<D, C, E>::Fail(ClientError::UnexpectedMessage),
            _ => r.1 !is Fail,
        },
{
}

/// Descriptions and candidates are handed on as they come: the offer that was created is the one
/// that is sent and then set, the answer that arrives is the one that is set, and each candidate
/// is sent, added or kept as it is.
pub proof fn client_hands_on_what_comes<D, C, Ch, E>(
    upgrade: ClientUpgrade<D, Ch>,
    event: ClientEvent<D, C, Ch, E>,
    r: (ClientUpgrade<D, Ch>, ClientAction<D, C, E>),
    offer: Option<&D>,
)
    requires
        upgrade@.awaits(event),
        call_ensures(ClientUpgrade::<D, Ch>::step::<C, E>, (upgrade, event), r),
        call_ensures(ClientUpgrade::<D, Ch>::offer, (&r.0,), offer),
    ensures
        offer is Some <==> r.1 is SendOffer,
        event matches ClientEvent::OfferCreated(Ok(created)) ==> r.1 is SendOffer && offer == Some(
            &created,
        ),
        (event matches ClientEvent::Sent(Ok(_)) && (
        upgrade.phase matches ClientPhase::SendingOffer(sent) && true)) ==> r.1
            == ClientAction::<D, C, E>::SetLocal(upgrade.phase->SendingOffer_0),
        event matches ClientEvent::Message(Ok(RTCMessage::SDPAnswer(answer))) ==> r.1
            == ClientAction::<D, C, E>::SetRemote(answer) && r.0.early@ == upgrade.early@,
        event matches ClientEvent::Message(Ok(RTCMessage::ICE(candidate))) ==> r.1 is Receive
            && r.0.early@ == upgrade.early@.push(candidate),
        event matches ClientEvent::LocalCandidate(candidate) ==> r.1 == ClientAction::<
            D,
            C,
            E,
        >::SendCandidate(candidate) && r.0.phase == ClientPhase::<D>::SendingCandidate(
            candidate is None,
        ),
        event matches ClientEvent::RemoteMessage(Ok(Some(RTCMessage::ICE(candidate)))) ==> r.1
            == ClientAction::<D, C, E>::AddCandidate(candidate) && r.0.phase is AddingCandidate,
{
}

/// The end mark of this end has passed once it was sent, that of the other end once it has come,
/// and neither at any other time. The upgrade is finished at the success that leaves both passed,
/// and goes on exchanging at any other.
pub proof fn client_finishes_with_both_marks<D, C, Ch, E>(
    upgrade: ClientUpgrade<D, Ch>,
    event: ClientEvent<D, C, Ch, E>,
    r: (ClientUpgrade<D, Ch>, ClientAction<D, C, E>),
)
    requires
        upgrade@.awaits(event),
        call_ensures(ClientUpgrade::<D, Ch>::step::<C, E>, (upgrade, event), r),
    ensures
        r.0.exchange.sent_all <==> upgrade.exchange.sent_all || (event matches ClientEvent::Sent(
            Ok(_),
        ) && upgrade.phase == ClientPhase::<D>::SendingCandidate(true)),
        r.0.exchange.received_all <==> upgrade.exchange.received_all || (
        event matches ClientEvent::RemoteMessage(Ok(None))),
        upgrade.phase is SendingCandidate && (event matches ClientEvent::Sent(Ok(_))) || (
        upgrade.phase is AddingCandidate && (event matches ClientEvent::Applied(Ok(_)))) || (
        event matches ClientEvent::RemoteMessage(Ok(None))) ==> if r.0.exchange.sent_all
            && r.0.exchange.received_all {
            r.1 is Finish
        } else {
            r.1 is Exchange
        },
{
}

/// The candidates, and the end mark, that the given actions send.
pub open spec fn sent_by<D, C, E>(actions: Seq<ClientAction<D, C, E>>) -> Seq<Option<C>>
    decreases actions.len(),
{
    if actions.len() == 0 {
        seq![]
    } else {
        let front = sent_by(actions.drop_last());
        match actions.last() {
            ClientAction::SendCandidate(candidate) => front.push(candidate),
            _ => front,
        }
    }
}

/// The candidates that the given actions add.
pub open spec fn added_by<D, C, E>(actions: Seq<ClientAction<D, C, E>>) -> Seq<IceCandidateInit>
    decreases actions.len(),
{
    if actions.len() == 0 {
        seq![]
    } else {
        let front = added_by(actions.drop_last());
        match actions.last() {
            ClientAction::AddCandidate(candidate) => front.push(candidate),
            _ => front,
        }
    }
}

/// What is sent and added by actions one behind the other adds up.
proof fn client_effects_add_up<D, C, E>(
    first: Seq<ClientAction<D, C, E>>,
    later: Seq<ClientAction<D, C, E>>,
)
    ensures
        sent_by(first + later) == sent_by(first) + sent_by(later),
        added_by(first + later) == added_by(first) + added_by(later),
    decreases later.len(),
{
    if later.len() == 0 {
        assert(first + later =~= first);
        assert(sent_by(first) + sent_by(later) =~= sent_by(first));
        assert(added_by(first) + added_by(later) =~= added_by(first));
    } else {
        client_effects_add_up(first, later.drop_last());
        assert((first + later).drop_last() =~= first + later.drop_last());
        assert((first + later).last() == later.last());
        assert(sent_by(first + later) =~= sent_by(first) + sent_by(later));
        assert(added_by(first + later) =~= added_by(first) + added_by(later));
    }
}

/// Actions that neither send nor add candidates have no effect of that kind.
proof fn client_other_actions_pass<D, C, E>(actions: Seq<ClientAction<D, C, E>>)
    requires
        forall|i: int|
            0 <= i < actions.len() ==> (#[trigger] actions[i]) !is SendCandidate && actions[i]
                !is AddCandidate,
    ensures
        sent_by(actions) == Seq::<Option<C>>::empty(),
        added_by(actions) == Seq::<IceCandidateInit>::empty(),
    decreases actions.len(),
{
    if actions.len() > 0 {
        let front = actions.drop_last();
        assert forall|i: int| 0 <= i < front.len() implies (#[trigger] front[i]) !is SendCandidate
            && front[i] !is AddCandidate by {
            assert(front[i] == actions[i]);
        }
        client_other_actions_pass(front);
        assert(actions.last() == actions[actions.len() - 1]);
    }
}

/// The actions that add candidates add them all.
proof fn client_adds_them_all<D, C, E>(candidates: Seq<IceCandidateInit>)
    ensures
        sent_by(add_actions::<D, C, E>(candidates)) == Seq::<Option<C>>::empty(),
        added_by(add_actions::<D, C, E>(candidates)) == candidates,
    decreases candidates.len(),
{
    let actions = add_actions::<D, C, E>(candidates);
    if candidates.len() > 0 {
        client_adds_them_all::<D, C, E>(candidates.drop_last());
        assert(actions.drop_last() =~= add_actions::<D, C, E>(candidates.drop_last()));
        assert(actions.last() == ClientAction::<D, C, E>::AddCandidate(candidates.last()));
        assert(candidates.drop_last().push(candidates.last()) =~= candidates);
    }
}

/// One action.
proof fn client_effect_of_one<D, C, E>(action: ClientAction<D, C, E>)
    ensures
        action matches ClientAction::SendCandidate(candidate) ==> sent_by(seq![action])
            == seq![candidate],
        action !is SendCandidate ==> sent_by(seq![action]) == Seq::<Option<C>>::empty(),
        action matches ClientAction::AddCandidate(candidate) ==> added_by(seq![action])
            == seq![candidate],
        action !is AddCandidate ==> added_by(seq![action]) == Seq::<IceCandidateInit>::empty(),
{
    assert(seq![action].drop_last() =~= seq![]);
    assert(seq![action].last() == action);
    reveal_with_fuel(sent_by, 2);
    reveal_with_fuel(added_by, 2);
    if action is SendCandidate {
        assert(sent_by(seq![action]) =~= seq![action->SendCandidate_0]);
    }
    if action is AddCandidate {
        assert(added_by(seq![action]) =~= seq![action->AddCandidate_0]);
    }
}

/// An exchange sends all that goes out, adds all that comes in, and finishes at its end and not
/// before.
proof fn client_exchange_has_its_effect<D, C, E>(
    exchange: IceExchange,
    steps: Seq<Passed<C, IceCandidateInit>>,
)
    requires
        exchange_goes_on(exchange, steps),
    ensures
        ({
            let actions = exchange_actions::<D, C, E>(exchange, steps);
            &&& sent_by(actions) == outgoing(steps)
            &&& added_by(actions) == arrived(incoming(steps))
            &&& forall|i: int|
                0 <= i < actions.len() - 1 ==> (#[trigger] actions[i]) !is Finish
            &&& forall|i: int| 0 <= i < actions.len() ==> (#[trigger] actions[i]) !is Fail
        }),
    decreases steps.len(),
{
    let actions = exchange_actions::<D, C, E>(exchange, steps);
    if steps.len() > 0 {
        let next = exchange_step(exchange, steps[0]);
        let rest = steps.drop_first();
        let later = exchange_actions::<D, C, E>(next, rest);
        client_exchange_has_its_effect::<D, C, E>(next, rest);
        let follow = follow_up::<D, C, E>(next);
        client_effect_of_one(follow);
        assert(exchange_goes_on(next, rest));
        if next.over() {
            assert(rest.len() == 0);
        }
        match steps[0] {
            Passed::Outgoing(candidate) => {
                let send = ClientAction::<D, C, E>::SendCandidate(candidate);
                client_effect_of_one(send);
                client_effects_add_up(seq![send], seq![follow]);
                assert(seq![send] + seq![follow] =~= seq![send, follow]);
                client_effects_add_up(seq![send, follow], later);
                assert(sent_by(actions) =~= outgoing(steps));
                assert(added_by(actions) =~= arrived(incoming(steps)));
            },
            Passed::Incoming(Some(candidate)) => {
                let add = ClientAction::<D, C, E>::AddCandidate(candidate);
                client_effect_of_one(add);
                client_effects_add_up(seq![add], seq![follow]);
                assert(seq![add] + seq![follow] =~= seq![add, follow]);
                client_effects_add_up(seq![add, follow], later);
                arrivals_add_up(seq![Some(candidate)], incoming(rest));
                reveal_with_fuel(arrived, 2);
                assert(seq![Some(candidate)].drop_last() =~= seq![]);
                assert(arrived(seq![Some(candidate)]) =~= seq![candidate]);
                assert(sent_by(actions) =~= outgoing(steps));
                assert(added_by(actions) =~= arrived(incoming(steps)));
            },
            Passed::Incoming(None) => {
                client_effects_add_up(seq![follow], later);
                arrivals_add_up(seq![None::<IceCandidateInit>], incoming(rest));
                reveal_with_fuel(arrived, 2);
                assert(seq![None::<IceCandidateInit>].drop_last() =~= seq![]);
                assert(sent_by(actions) =~= outgoing(steps));
                assert(added_by(actions) =~= arrived(incoming(steps)));
            },
        }
    }
}

/// A run of steps takes the upgrade where its events do, by the actions that they lead to.
proof fn client_run_goes_by_events<D, C, Ch, E>(
    upgrades: Seq<ClientUpgrade<D, Ch>>,
    events: Seq<ClientEvent<D, C, Ch, E>>,
    actions: Seq<ClientAction<D, C, E>>,
)
    requires
        upgrades.len() == events.len() + 1,
        actions.len() == events.len(),
        forall|i: int|
            0 <= i < events.len() ==> call_ensures(
                ClientUpgrade::<D, Ch>::step::<C, E>,
                (#[trigger] upgrades[i], events[i]),
                (upgrades[i + 1], actions[i]),
            ),
    ensures
        client_actions(upgrades[0]@, events) == actions,
        client_after(upgrades[0]@, events) == upgrades.last()@,
        client_accepts(upgrades[0]@, events) ==> forall|i: int|
            0 <= i < events.len() ==> (#[trigger] upgrades[i])@.awaits(events[i]),
    decreases events.len(),
{
    if events.len() == 0 {
        assert(actions =~= seq![]);
    } else {
        let (u, e, a) = (upgrades.drop_first(), events.drop_first(), actions.drop_first());
        assert forall|i: int| 0 <= i < e.len() implies call_ensures(
            ClientUpgrade::<D, Ch>::step::<C, E>,
            (#[trigger] u[i], e[i]),
            (u[i + 1], a[i]),
        ) by {
            assert(u[i] == upgrades[i + 1]);
        }
        client_run_goes_by_events(u, e, a);
        assert(call_ensures(
            ClientUpgrade::<D, Ch>::step::<C, E>,
            (upgrades[0], events[0]),
            (upgrades[1], actions[0]),
        ));
        assert(u[0] == upgrades[1]);
        assert(u.last() == upgrades.last());
        assert(actions =~= seq![actions[0]] + a);
        if client_accepts(upgrades[0]@, events) {
            assert forall|i: int| 0 <= i < events.len() implies (#[trigger] upgrades[i])@.awaits(
                events[i],
            ) by {
                if i > 0 {
                    assert(u[i - 1] == upgrades[i]);
                    assert(e[i - 1] == events[i]);
                }
            }
        }
    }
}

/// The protocol of a whole upgrade in which nothing fails, from its first action to its last one,
/// whatever channels are requested, whatever candidates come ahead of the answer, and however the
/// candidates of the two ends interleave behind it: the peer connection, the command channel and
/// the requested channels are opened, in order; the offer is created, sent and set; messages are
/// received up to the answer, which is set; the early candidates are added, in order; then, once,
/// the client starts to watch for candidates of its own; and then candidates are exchanged. What
/// goes out is sent and what comes in is added, all of it, once and in order. The upgrade is
/// finished at the very end and not before, and hands out each requested channel under its label.
#[verifier::spinoff_prover]
#[verifier::rlimit(60)]
pub proof fn client_follows_protocol<D, C, Ch, E>(
    requested: Vec<(String, DataChannelInit)>,
    command: Ch,
    handles: Seq<Ch>,
    offer: D,
    early: Seq<IceCandidateInit>,
    answer: D,
    steps: Seq<Passed<C, IceCandidateInit>>,
    upgrades: Seq<ClientUpgrade<D, Ch>>,
    events: Seq<ClientEvent<D, C, Ch, E>>,
    first: ClientAction<D, C, E>,
    actions: Seq<ClientAction<D, C, E>>,
    channels: Vec<(String, Ch)>,
)
    requires
        handles.len() == requested@.len(),
        outgoing(steps).contains(None),
        incoming(steps).contains(None),
        forall|k: int|
            0 <= k < steps.len() ==> !(outgoing(#[trigger] steps.take(k)).contains(None)
                && incoming(steps.take(k)).contains(None)),
        events == seq![
            ClientEvent::<D, C, Ch, E>::PeerOpened(Ok(())),
            ClientEvent::ChannelOpened(Ok(command)),
        ] + Seq::new(
            handles.len(),
            |i: int| ClientEvent::<D, C, Ch, E>::ChannelOpened(Ok(handles[i])),
        ) + seq![
            ClientEvent::OfferCreated(Ok(offer)),
            ClientEvent::Sent(Ok(())),
            ClientEvent::Applied(Ok(())),
        ] + Seq::new(
            early.len(),
            |i: int| ClientEvent::<D, C, Ch, E>::Message(Ok(RTCMessage::ICE(early[i]))),
        ) + seq![ClientEvent::Message(Ok(RTCMessage::SDPAnswer(answer)))] + Seq::new(
            early.len() + 1,
            |i: int| ClientEvent::<D, C, Ch, E>::Applied(Ok(())),
        ) + seq![ClientEvent::Watching] + exchange_events(steps),
        upgrades.len() == events.len() + 1,
        actions.len() == events.len(),
        call_ensures(
            ClientUpgrade::<D, Ch>::start::<C, E>,
            (requested,),
            (upgrades[0], first),
        ),
        forall|i: int|
            0 <= i < events.len() ==> call_ensures(
                ClientUpgrade::<D, Ch>::step::<C, E>,
                (#[trigger] upgrades[i], events[i]),
                (upgrades[i + 1], actions[i]),
            ),
        call_ensures(ClientUpgrade::<D, Ch>::into_channels, (upgrades.last(),), channels),
    ensures
        first is OpenPeer,
        forall|i: int|
            0 <= i < events.len() ==> (#[trigger] upgrades[i])@.awaits(events[i]),
        seq![ClientAction::<D, C, E>::OpenCommandChannel] + Seq::new(
            requested@.len(),
            |i: int|
                ClientAction::<D, C, E>::OpenChannel(requested@[i].0, requested@[i].1),
        ) + seq![
            ClientAction::CreateOffer,
            ClientAction::SendOffer,
            ClientAction::SetLocal(offer),
            ClientAction::Receive,
        ] + Seq::new(early.len(), |i: int| ClientAction::<D, C, E>::Receive) + seq![
            ClientAction::SetRemote(answer),
        ] + Seq::new(
            early.len(),
            |i: int| ClientAction::<D, C, E>::AddCandidate(early[i]),
        ) + seq![ClientAction::WatchCandidates, ClientAction::Exchange] == actions.take(
            (requested@.len() + 2 * early.len() + 8) as int,
        ),
        forall|i: int|
            requested@.len() + 2 * early.len() + 8 <= i < actions.len() ==> (
            #[trigger] actions[i]) is Exchange || actions[i] is SendCandidate || actions[i]
                is AddCandidate || actions[i] is Finish,
        sent_by(actions) == outgoing(steps),
        added_by(actions) == early + arrived(incoming(steps)),
        forall|i: int| 0 <= i < actions.len() ==> ((#[trigger] actions[i]) is Finish <==> i
            == actions.len() - 1),
        upgrades.last().phase is Done,
        channels@.len() == requested@.len(),
        forall|i: int|
            0 <= i < channels@.len() ==> (#[trigger] channels@[i]) == (
                requested@[i].0,
                handles[i],
            ),
{
    exchange_until_both_marks(steps);
    let asked = requested@;
    client_upgrade_completes::<D, C, Ch, E>(asked, command, handles, offer, early, answer, steps);
    assert(opened_events::<D, C, Ch, E>(handles) =~= Seq::new(
        handles.len(),
        |i: int| ClientEvent::<D, C, Ch, E>::ChannelOpened(Ok(handles[i])),
    ));
    assert(applied_events::<D, C, Ch, E>(early.len() + 1) =~= Seq::new(
        early.len() + 1,
        |i: int| ClientEvent::<D, C, Ch, E>::Applied(Ok(())),
    ));
    let come = Seq::new(
        early.len(),
        |i: int| ClientEvent::<D, C, Ch, E>::Message(Ok(RTCMessage::ICE(early[i]))),
    );
    let answered = ClientEvent::<D, C, Ch, E>::Message(Ok(RTCMessage::SDPAnswer(answer)));
    let offered = offer_events::<D, C, Ch, E>(command, handles, offer);
    assert(answer_events::<D, C, Ch, E>(early, answer) =~= come + seq![answered]);
    assert(offered + (come + seq![answered]) =~= offered + come + seq![answered]);
    assert(events == upgrade_events::<D, C, Ch, E>(
        command,
        handles,
        offer,
        early,
        answer,
        steps,
    ));
    client_run_goes_by_events(upgrades, events, actions);
    assert(open_actions::<D, C, E>(asked) =~= Seq::new(
        asked.len(),
        |i: int| ClientAction::<D, C, E>::OpenChannel(asked[i].0, asked[i].1),
    ));
    assert(add_actions::<D, C, E>(early) =~= Seq::new(
        early.len(),
        |i: int| ClientAction::<D, C, E>::AddCandidate(early[i]),
    ));
    client_actions_have_their_effect::<D, C, E>(asked, offer, early, answer, steps, actions);
    assert(channels@ =~= labelled(asked, handles));
}

/// What the actions of a whole upgrade come to.
#[verifier::spinoff_prover]
#[verifier::rlimit(60)]
proof fn client_actions_have_their_effect<D, C, E>(
    asked: Seq<(String, DataChannelInit)>,
    offer: D,
    early: Seq<IceCandidateInit>,
    answer: D,
    steps: Seq<Passed<C, IceCandidateInit>>,
    actions: Seq<ClientAction<D, C, E>>,
)
    requires
        exchange_goes_on(IceExchange::begin(), steps),
        exchange_after(IceExchange::begin(), steps).over(),
        actions == seq![ClientAction::<D, C, E>::OpenCommandChannel] + open_actions(asked) + seq![
            ClientAction::CreateOffer,
            ClientAction::SendOffer,
            ClientAction::SetLocal(offer),
            ClientAction::Receive,
        ] + Seq::new(early.len(), |i: int| ClientAction::<D, C, E>::Receive) + seq![
            ClientAction::SetRemote(answer),
        ] + add_actions(early) + seq![ClientAction::WatchCandidates, ClientAction::Exchange]
            + exchange_actions(IceExchange::begin(), steps),
    ensures
        ({
            let n = asked.len() + 2 * early.len() + 8;
            &&& n <= actions.len()
            &&& actions.take(n as int) == seq![ClientAction::<D, C, E>::OpenCommandChannel]
                + open_actions(asked) + seq![
                ClientAction::CreateOffer,
                ClientAction::SendOffer,
                ClientAction::SetLocal(offer),
                ClientAction::Receive,
            ] + Seq::new(early.len(), |i: int| ClientAction::<D, C, E>::Receive) + seq![
                ClientAction::SetRemote(answer),
            ] + add_actions(early) + seq![ClientAction::WatchCandidates, ClientAction::Exchange]
            &&& forall|i: int|
                n <= i < actions.len() ==> (#[trigger] actions[i]) is Exchange || actions[i]
                    is SendCandidate || actions[i] is AddCandidate || actions[i] is Finish
        }),
        sent_by(actions) == outgoing(steps),
        added_by(actions) == early + arrived(incoming(steps)),
        forall|i: int| 0 <= i < actions.len() ==> ((#[trigger] actions[i]) is Finish <==> i
            == actions.len() - 1),
{
    let begin = IceExchange::begin();
    let opening = seq![ClientAction::<D, C, E>::OpenCommandChannel] + open_actions(asked) + seq![
        ClientAction::CreateOffer,
        ClientAction::SendOffer,
        ClientAction::SetLocal(offer),
        ClientAction::Receive,
    ] + Seq::new(early.len(), |i: int| ClientAction::<D, C, E>::Receive) + seq![
        ClientAction::SetRemote(answer),
    ];
    let adding = add_actions::<D, C, E>(early);
    let watching = seq![ClientAction::<D, C, E>::WatchCandidates, ClientAction::Exchange];
    let exchanging = exchange_actions::<D, C, E>(begin, steps);
    assert(actions == opening + adding + watching + exchanging);
    client_other_actions_pass(opening);
    client_adds_them_all::<D, C, E>(early);
    client_other_actions_pass(watching);
    client_exchange_has_its_effect::<D, C, E>(begin, steps);
    client_effects_add_up(opening, adding);
    client_effects_add_up(opening + adding, watching);
    client_effects_add_up(opening + adding + watching, exchanging);
    assert(sent_by(actions) =~= outgoing(steps));
    assert(added_by(actions) =~= early + arrived(incoming(steps)));
    exchange_ends_in_finish::<D, C, E>(begin, steps);
    exchange_actions_are_of_its_kind::<D, C, E>(begin, steps);
    let front = opening + adding + watching;
    let n = front.len() as int;
    assert(actions.take(n) =~= front);
    assert forall|i: int| 0 <= i < actions.len() implies ((#[trigger] actions[i]) is Finish <==> i
        == actions.len() - 1) by {
        if i >= n {
            assert(actions[i] == exchanging[i - n]);
        } else {
            assert(actions[i] == front[i]);
            assert(front[i] !is Finish);
        }
    }
    assert forall|i: int| n <= i < actions.len() implies (#[trigger] actions[i]) is Exchange
        || actions[i] is SendCandidate || actions[i] is AddCandidate || actions[i] is Finish by {
        assert(actions[i] == exchanging[i - n]);
    }
}

/// In an exchange candidates are sent and added, and nothing else is done until it is over.
proof fn exchange_actions_are_of_its_kind<D, C, E>(
    exchange: IceExchange,
    steps: Seq<Passed<C, IceCandidateInit>>,
)
    ensures
        ({
            let actions = exchange_actions::<D, C, E>(exchange, steps);
            forall|i: int|
                0 <= i < actions.len() ==> (#[trigger] actions[i]) is Exchange || actions[i]
                    is SendCandidate || actions[i] is AddCandidate || actions[i] is Finish
        }),
    decreases steps.len(),
{
    if steps.len() > 0 {
        exchange_actions_are_of_its_kind::<D, C, E>(
            exchange_step(exchange, steps[0]),
            steps.drop_first(),
        );
    }
}

/// Errors of each kind keep their kind when they become errors of an upgrade.
pub proof fn client_errors_keep_their_kind<DE>(
    connection: webrtc::Error,
    transport: std::io::Error,
    received: RecvError<DE>,
    of_connection: ClientError<DE>,
    of_transport: ClientError<DE>,
    of_received: ClientError<DE>,
)
    requires
        call_ensures(<ClientError<DE> as From<webrtc::Error>>::from, (connection,), of_connection),
        call_ensures(<ClientError<DE> as From<std::io::Error>>::from, (transport,), of_transport),
        call_ensures(<ClientError<DE> as From<RecvError<DE>>>::from, (received,), of_received),
    ensures
        of_connection == ClientError::<DE>::WebRTCError(connection),
        of_transport == ClientError::<DE>::IOError(transport),
        received matches RecvError::IOError(e) ==> of_received == ClientError::<DE>::IOError(e),
        received matches RecvError::DeserializeError(e) ==> of_received
            == ClientError::DeserializeError(e),
{
}

/// An error that carries another one says what that one says.
pub proof fn client_errors_in_words<DE>(error: ClientError<DE>, cause: &str, text: String)
    requires
        call_ensures(ClientError::<DE>::message, (&error, cause), text),
    ensures
        error is UnexpectedMessage ==> text@ == "Unexpected WebRTC SDP type"@,
        error !is UnexpectedMessage ==> text@ == cause@,
{
}

/// A client that gets TLS goes on with the stream that TLS was put on, on which nothing has been
/// read yet, and with the interface and the settings that it had. Where TLS fails, so does this,
/// with the same error.
pub proof fn client_keeps_its_settings_with_tls<S, T>(
    client: UpgradeWebRTCClient<StreamTransport<S>>,
    taken: (S, UpgradeWebRTCClient<()>),
    connected: Result<T, std::io::Error>,
    with_tls: Result<UpgradeWebRTCClient<StreamTransport<T>>, std::io::Error>,
    from_config: Result<UpgradeWebRTCClient<StreamTransport<T>>, TlsInitError>,
)
    requires
        call_ensures(
            UpgradeWebRTCClient::<StreamTransport<S>>::into_stream,
            (client,),
            taken,
        ),
        call_ensures(
            UpgradeWebRTCClient::<()>::add_tls::<T>,
            (taken.1, connected),
            with_tls,
        ),
        call_ensures(
            UpgradeWebRTCClient::<()>::add_tls_from_config::<T>,
            (taken.1, connected),
            from_config,
        ),
    ensures
        taken.0 == client.client.stream,
        with_tls is Ok <==> connected is Ok,
        from_config is Ok <==> connected is Ok,
        connected matches Ok(stream) ==> {
            &&& with_tls->Ok_0.client.stream == stream
            &&& with_tls->Ok_0.client.recv_buffer@.len() == 0
            &&& with_tls->Ok_0.api == client.api
            &&& with_tls->Ok_0.config == client.config
            &&& from_config->Ok_0.client.stream == stream
            &&& from_config->Ok_0.client.recv_buffer@.len() == 0
            &&& from_config->Ok_0.api == client.api
            &&& from_config->Ok_0.config == client.config
        },
        connected matches Err(e) ==> with_tls->Err_0 == e && from_config->Err_0
            == TlsInitError::IOError(e),
{
}

/// A client starts on the transport that it is given.
pub proof fn client_starts_on_its_transport<C>(transport: C, client: UpgradeWebRTCClient<C>)
    requires
        call_ensures(UpgradeWebRTCClient::<C>::new, (transport,), client),
    ensures
        client.client == transport,
        crate::rtc::has_interceptor_settings(crate::rtc::media_engine_of(client.api)),
        crate::rtc::has_default_interceptors(crate::rtc::interceptors_of(client.api)),
        client.config.ice_servers@.len() == 1,
        client.config.ice_servers@[0].urls@.len() == 1,
        client.config.ice_servers@[0].urls@[0]@ == "stun:stun.l.google.com:19302"@,
{
}

/// The channels of an upgrade come out from the last one on, each once, as long as there are any;
/// the connection stays.
pub proof fn channels_come_out_from_the_last<P, Ch>(
    peer: &mut PeerAndChannels<P, Ch>,
    channel: Option<(String, Ch)>,
)
    requires
        call_ensures(PeerAndChannels::<P, Ch>::take_last, (peer,), channel),
    ensures
        final(peer).peer == old(peer).peer,
        channel is None <==> old(peer).channels@.len() == 0,
        channel is None ==> final(peer).channels@ == old(peer).channels@,
        channel is Some ==> final(peer).channels@.push(channel->Some_0) == old(peer).channels@,
{
    if channel is Some {
        assert(final(peer).channels@.push(channel->Some_0) =~= old(peer).channels@);
    }
}

/// A client is shown with its transport and nothing else.
pub proof fn client_is_shown_with_its_transport<C>(
    client: UpgradeWebRTCClient<C>,
    transport: &str,
    text: String,
)
    requires
        call_ensures(UpgradeWebRTCClient::<C>::debug_text, (&client, transport), text),
    ensures
        text@ == "UpgradeWebRTCClient { client: "@ + transport@ + " }"@,
{
}

/// The channels that are handed out are those that are open, in order.
pub proof fn open_channels_are_handed_out<D, Ch>(
    upgrade: ClientUpgrade<D, Ch>,
    channels: Vec<(String, Ch)>,
)
    requires
        call_ensures(ClientUpgrade::<D, Ch>::into_channels, (upgrade,), channels),
    ensures
        channels@ == upgrade.channels@,
{
}

} // verus!
