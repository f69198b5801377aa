use std::io::{Error, ErrorKind};
use webrtc_tunnel::client::{
    ClientAction, ClientError, ClientEvent, ClientUpgrade, PeerAndChannels, UpgradeWebRTCClient,
    COMMAND_CHANNEL,
};
use webrtc_tunnel::ice::IceCandidateInit;
use webrtc_tunnel::rtc::{tcp_data_channel, udp_data_channel, DataChannelInit, RTCMessage};
use webrtc_tunnel::tls::TlsInitError;
use webrtc_tunnel::transport::{RecvError, StreamTransport};

type Event = ClientEvent<&'static str, u32, u32, &'static str>;
type Action = ClientAction<&'static str, u32, &'static str>;
type Upgrade = ClientUpgrade<&'static str, u32>;

fn candidate(line: &str) -> IceCandidateInit {
    IceCandidateInit {
        candidate: line.to_owned(),
        sdp_mid: None,
        sdp_mline_index: None,
        username_fragment: None,
    }
}

fn requested() -> Vec<(String, DataChannelInit)> {
    vec![("first".to_owned(), tcp_data_channel()), ("second".to_owned(), udp_data_channel())]
}

fn begin(requested: Vec<(String, DataChannelInit)>) -> Upgrade {
    let (upgrade, action): (Upgrade, Action) = ClientUpgrade::start(requested);
    assert!(matches!(action, ClientAction::OpenPeer));
    upgrade
}

fn run(mut upgrade: Upgrade, events: Vec<Event>) -> (Upgrade, Vec<Action>) {
    let mut actions = Vec::new();
    for event in events {
        let (next, action) = upgrade.step(event);
        upgrade = next;
        actions.push(action);
    }
    (upgrade, actions)
}

fn until_answer() -> Vec<Event> {
    vec![
        ClientEvent::PeerOpened(Ok(())),
        ClientEvent::ChannelOpened(Ok(0)),
        ClientEvent::OfferCreated(Ok("offer")),
        ClientEvent::Sent(Ok(())),
        ClientEvent::Applied(Ok(())),
    ]
}

fn until_exchange() -> Vec<Event> {
    let mut events = until_answer();
    events.push(ClientEvent::Message(Ok(RTCMessage::SDPAnswer("answer"))));
    events.push(ClientEvent::Applied(Ok(())));
    events.push(ClientEvent::Watching);
    events
}

#[test]
fn channels_open_in_the_requested_order() {
    let (upgrade, actions) = run(
        begin(requested()),
        vec![
            ClientEvent::PeerOpened(Ok(())),
            ClientEvent::ChannelOpened(Ok(0)),
            ClientEvent::ChannelOpened(Ok(1)),
            ClientEvent::ChannelOpened(Ok(2)),
        ],
    );
    assert_eq!(COMMAND_CHANNEL, "command");
    assert!(matches!(actions[0], ClientAction::OpenCommandChannel));
    assert!(matches!(&actions[1], ClientAction::OpenChannel(label, init)
        if label == "first" && init.ordered == Some(true)));
    assert!(matches!(&actions[2], ClientAction::OpenChannel(label, init)
        if label == "second" && init.ordered == Some(false)));
    assert!(matches!(actions[3], ClientAction::CreateOffer));
    assert_eq!(upgrade.into_channels(), vec![("first".to_owned(), 1), ("second".to_owned(), 2)]);
}

#[test]
fn created_offer_is_sent_and_set() {
    let upgrade = begin(vec![]);
    assert_eq!(upgrade.offer(), None);
    let mut events = until_answer();
    let last = events.split_off(3);
    let (upgrade, actions) = run(upgrade, events);
    assert!(matches!(actions[2], ClientAction::SendOffer));
    assert_eq!(upgrade.offer(), Some(&"offer"));
    let (upgrade, actions) = run(upgrade, last);
    assert!(matches!(actions[0], ClientAction::SetLocal("offer")));
    assert!(matches!(actions[1], ClientAction::Receive));
    assert_eq!(upgrade.offer(), None);
}

#[test]
fn early_candidates_are_added_behind_the_answer() {
    let (upgrade, _) = run(begin(vec![]), until_answer());
    let (_, actions) = run(
        upgrade,
        vec![
            ClientEvent::Message(Ok(RTCMessage::ICE(candidate("a")))),
            ClientEvent::Message(Ok(RTCMessage::ICE(candidate("b")))),
            ClientEvent::Message(Ok(RTCMessage::SDPAnswer("answer"))),
            ClientEvent::Applied(Ok(())),
            ClientEvent::Applied(Ok(())),
            ClientEvent::Applied(Ok(())),
            ClientEvent::Watching,
        ],
    );
    assert!(matches!(actions[0], ClientAction::Receive));
    assert!(matches!(actions[1], ClientAction::Receive));
    assert!(matches!(actions[2], ClientAction::SetRemote("answer")));
    assert!(matches!(&actions[3], ClientAction::AddCandidate(c) if c.candidate == "a"));
    assert!(matches!(&actions[4], ClientAction::AddCandidate(c) if c.candidate == "b"));
    assert!(matches!(actions[5], ClientAction::WatchCandidates));
    assert!(matches!(actions[6], ClientAction::Exchange));
}

#[test]
fn exchange_finishes_with_both_marks() {
    for send_first in [true, false] {
        let (upgrade, _) = run(begin(vec![]), until_exchange());
        let (upgrade, actions) = run(
            upgrade,
            vec![
                ClientEvent::LocalCandidate(Some(5)),
                ClientEvent::Sent(Ok(())),
                ClientEvent::RemoteMessage(Ok(Some(RTCMessage::ICE(candidate("x"))))),
                ClientEvent::Applied(Ok(())),
            ],
        );
        assert!(matches!(actions[0], ClientAction::SendCandidate(Some(5))));
        assert!(matches!(actions[1], ClientAction::Exchange));
        assert!(matches!(&actions[2], ClientAction::AddCandidate(c) if c.candidate == "x"));
        assert!(matches!(actions[3], ClientAction::Exchange));
        let send = vec![ClientEvent::LocalCandidate(None), ClientEvent::Sent(Ok(()))];
        let receive = vec![ClientEvent::RemoteMessage(Ok(None))];
        let (first, second) = if send_first { (send, receive) } else { (receive, send) };
        let (upgrade, actions) = run(upgrade, first);
        assert!(matches!(actions.last(), Some(ClientAction::Exchange)));
        let (_, actions) = run(upgrade, second);
        assert!(matches!(actions.last(), Some(ClientAction::Finish)));
    }
}

#[test]
fn second_answer_is_unexpected() {
    let (upgrade, _) = run(begin(vec![]), until_exchange());
    let again = ClientEvent::RemoteMessage(Ok(Some(RTCMessage::SDPAnswer("again"))));
    let (_, actions) = run(upgrade, vec![again]);
    assert!(matches!(actions[0], ClientAction::Fail(ClientError::UnexpectedMessage)));
}

#[test]
fn every_failure_ends_the_upgrade() {
    let broken = || webrtc::Error::ErrConnectionClosed;
    let lost = || Error::from(ErrorKind::BrokenPipe);
    let (_, actions) = run(begin(vec![]), vec![ClientEvent::PeerOpened(Err(broken()))]);
    assert!(matches!(actions[0], ClientAction::Fail(ClientError::WebRTCError(_))));

    let mut events = until_answer();
    events.truncate(1);
    events.push(ClientEvent::ChannelOpened(Err(broken())));
    let (_, actions) = run(begin(vec![]), events);
    assert!(matches!(actions[1], ClientAction::Fail(ClientError::WebRTCError(_))));

    let mut events = until_answer();
    events.truncate(2);
    events.push(ClientEvent::OfferCreated(Err(broken())));
    let (_, actions) = run(begin(vec![]), events);
    assert!(matches!(actions[2], ClientAction::Fail(ClientError::WebRTCError(_))));

    let mut events = until_answer();
    events.truncate(3);
    events.push(ClientEvent::Sent(Err(lost())));
    let (_, actions) = run(begin(vec![]), events);
    assert!(matches!(&actions[3], ClientAction::Fail(ClientError::IOError(e))
        if e.kind() == ErrorKind::BrokenPipe));

    let mut events = until_answer();
    events.truncate(4);
    events.push(ClientEvent::Applied(Err(broken())));
    let (_, actions) = run(begin(vec![]), events);
    assert!(matches!(actions[4], ClientAction::Fail(ClientError::WebRTCError(_))));

    let mut events = until_answer();
    events.push(ClientEvent::Message(Err(RecvError::DeserializeError("bad"))));
    let (_, actions) = run(begin(vec![]), events);
    assert!(matches!(actions[5], ClientAction::Fail(ClientError::DeserializeError("bad"))));

    let mut events = until_exchange();
    events.push(ClientEvent::RemoteMessage(Err(RecvError::IOError(lost()))));
    let (_, actions) = run(begin(vec![]), events);
    assert!(matches!(actions[8], ClientAction::Fail(ClientError::IOError(_))));
}

#[test]
fn client_errors_in_words() {
    let unexpected: ClientError<String> = ClientError::UnexpectedMessage;
    assert_eq!(unexpected.message("cause"), "Unexpected WebRTC SDP type");
    assert_eq!(ClientError::DeserializeError(0).message("cause"), "cause");
    let io: ClientError<u8> = ClientError::from(Error::from(ErrorKind::NotFound));
    assert_eq!(io.message("cause"), "cause");
    let rtc: ClientError<u8> = ClientError::from(webrtc::Error::ErrConnectionClosed);
    assert!(matches!(rtc, ClientError::WebRTCError(_)));
    assert!(matches!(
        ClientError::from(RecvError::DeserializeError(3)),
        ClientError::DeserializeError(3)
    ));
    let lost: RecvError<u8> = RecvError::IOError(Error::from(ErrorKind::NotFound));
    assert!(matches!(ClientError::from(lost), ClientError::IOError(_)));
}

#[test]
fn tls_replaces_the_stream_only() {
    let mut client = UpgradeWebRTCClient::new(StreamTransport::from("plain"));
    client.client.recv_buffer = vec![1, 2, 3];
    client.config.ice_servers.clear();
    let (stream, rest) = client.into_stream();
    assert_eq!(stream, "plain");
    let client = rest.add_tls(Ok(17)).ok().unwrap();
    assert_eq!(client.client.stream, 17);
    assert!(client.client.recv_buffer.is_empty());
    assert!(client.config.ice_servers.is_empty());

    let (_, rest) = UpgradeWebRTCClient::new(StreamTransport::from(())).into_stream();
    let failed = rest.add_tls::<()>(Err(Error::from(ErrorKind::TimedOut)));
    assert_eq!(failed.err().unwrap().kind(), ErrorKind::TimedOut);
}

#[test]
fn tls_from_config_tells_why_it_failed() {
    let (_, rest) = UpgradeWebRTCClient::new(StreamTransport::from(())).into_stream();
    let failed = rest.add_tls_from_config::<()>(Err(Error::from(ErrorKind::TimedOut)));
    assert!(matches!(failed, Err(TlsInitError::IOError(e)) if e.kind() == ErrorKind::TimedOut));
    let (_, rest) = UpgradeWebRTCClient::new(StreamTransport::from(())).into_stream();
    assert_eq!(rest.add_tls_from_config(Ok("tls")).ok().unwrap().client.stream, "tls");
}

#[test]
fn client_is_shown_with_its_transport() {
    let client = UpgradeWebRTCClient::new(());
    assert_eq!(client.debug_text("T"), "UpgradeWebRTCClient { client: T }");
}

#[test]
fn last_channel_is_taken_out() {
    let mut upgraded =
        PeerAndChannels { peer: (), channels: vec![("a".to_owned(), 1), ("b".to_owned(), 2)] };
    assert_eq!(upgraded.take_last(), Some(("b".to_owned(), 2)));
    assert_eq!(upgraded.take_last(), Some(("a".to_owned(), 1)));
    assert_eq!(upgraded.take_last(), None);
}
