use std::io::{Error, ErrorKind};
use webrtc_tunnel::ice::IceCandidate;
use webrtc_tunnel::rtc::RTCMessage;
use webrtc_tunnel::server::{
    accept_next, AcceptAction, AcceptEvent, ServerAction, ServerConnection, ServerError,
    ServerEvent, TlsAcceptError, TlsUpgradeTransportServer, UpgradeWebRTCServer,
};
use webrtc_tunnel::tls::{new_acceptor, TlsInitError};
use webrtc_tunnel::transport::{RecvError, StreamTransport};

type Connection = ServerConnection<&'static str, &'static str>;
type Action = ServerAction<&'static str, (), &'static str>;
type Event = ServerEvent<&'static str, &'static str>;

fn candidate(typ: &str) -> IceCandidate {
    IceCandidate {
        stats_id: "id".to_owned(),
        foundation: "7".to_owned(),
        priority: 99,
        address: "10.0.0.1".to_owned(),
        protocol: "udp".to_owned(),
        port: 5000,
        typ: typ.to_owned(),
        component: 1,
        related_address: String::new(),
        related_port: 0,
        tcp_type: String::new(),
    }
}

const LINE: &str = "candidate:7 1 udp 99 10.0.0.1 5000 typ host";

fn begin() -> Connection {
    let (connection, action): (Connection, Action) = ServerConnection::start();
    assert!(matches!(action, ServerAction::ReceiveOffer));
    connection
}

fn run(mut connection: Connection, events: Vec<Event>) -> (Connection, Vec<Action>) {
    let mut actions = Vec::new();
    for event in events {
        let (next, action) = connection.step(event);
        connection = next;
        actions.push(action);
    }
    (connection, actions)
}

fn until_exchange() -> Vec<Event> {
    vec![
        ServerEvent::Offer(Ok("offer")),
        ServerEvent::PeerOpened(Ok(())),
        ServerEvent::Watching,
        ServerEvent::Applied(Ok(())),
        ServerEvent::AnswerCreated(Ok("answer")),
        ServerEvent::Sent(Ok(())),
        ServerEvent::Applied(Ok(())),
    ]
}

fn broken() -> webrtc::Error {
    webrtc::Error::ErrConnectionClosed
}

#[test]
fn offer_is_answered() {
    let mut events = until_exchange();
    let last = events.split_off(5);
    let (connection, actions) = run(begin(), events);
    assert!(matches!(actions[0], ServerAction::OpenPeer));
    assert!(matches!(actions[1], ServerAction::WatchPeer));
    assert!(matches!(actions[2], ServerAction::SetRemote("offer")));
    assert!(matches!(actions[3], ServerAction::CreateAnswer));
    assert!(matches!(actions[4], ServerAction::SendAnswer));
    assert_eq!(connection.answer(), Some(&"answer"));
    let (connection, actions) = run(connection, last);
    assert!(matches!(actions[0], ServerAction::SetLocal("answer")));
    assert!(matches!(actions[1], ServerAction::Exchange));
    assert_eq!(connection.answer(), None);
}

#[test]
fn candidates_are_written_out_before_they_are_sent() {
    let (connection, _) = run(begin(), until_exchange());
    let (connection, action): (Connection, Action) =
        connection.local_candidate(Some(candidate("host")));
    let ServerAction::SendCandidate(Some(RTCMessage::ICE(init))) = action else {
        panic!("a candidate should be sent");
    };
    assert_eq!(init.candidate, LINE);
    assert_eq!(init.sdp_mid, Some(String::new()));
    assert_eq!(init.sdp_mline_index, Some(0));
    assert_eq!(init.username_fragment, None);
    let (_, actions) = run(connection, vec![ServerEvent::Sent(Ok(()))]);
    assert!(matches!(actions[0], ServerAction::Exchange));
}

#[test]
fn remote_candidates_are_written_out_before_they_are_added() {
    let (connection, _) = run(begin(), until_exchange());
    let (connection, action): (Connection, Action) =
        connection.remote_candidate(Ok(Some(candidate("host"))));
    assert!(matches!(&action, ServerAction::AddCandidate(init) if init.candidate == LINE));
    let (_, actions) = run(connection, vec![ServerEvent::Applied(Ok(()))]);
    assert!(matches!(actions[0], ServerAction::Exchange));
}

#[test]
fn candidates_of_no_kind_are_refused() {
    let (connection, _) = run(begin(), until_exchange());
    let (connection, action): (Connection, Action) =
        connection.local_candidate(Some(candidate("none")));
    assert!(matches!(action, ServerAction::ClosePeer));
    let (_, actions) = run(connection, vec![ServerEvent::Closed]);
    assert!(matches!(
        actions[0],
        ServerAction::Report(ServerError::WebRTCError(webrtc::Error::ErrICECandidateTypeUnknown))
    ));

    let (connection, _) = run(begin(), until_exchange());
    let (connection, action): (Connection, Action) =
        connection.remote_candidate(Ok(Some(candidate("none"))));
    assert!(matches!(action, ServerAction::ClosePeer));
    let (_, actions) = run(connection, vec![ServerEvent::Closed]);
    assert!(matches!(
        actions[0],
        ServerAction::Report(ServerError::WebRTCError(webrtc::Error::ErrICECandidateTypeUnknown))
    ));
}

#[test]
fn connection_is_served_with_both_marks_and_the_next_offer_awaited() {
    for send_first in [true, false] {
        let mut connection = begin();
        for _ in 0..2 {
            let (exchanging, _) = run(connection, until_exchange());
            let after_send = |connection: Connection| {
                let (connection, action): (Connection, Action) = connection.local_candidate(None);
                assert!(matches!(action, ServerAction::SendCandidate(None)));
                let (connection, mut actions) = run(connection, vec![ServerEvent::Sent(Ok(()))]);
                (connection, actions.remove(0))
            };
            let (halfway, action): (Connection, Action) = if send_first {
                after_send(exchanging)
            } else {
                exchanging.remote_candidate(Ok(None))
            };
            assert!(matches!(action, ServerAction::Exchange));
            let (served, action): (Connection, Action) = if send_first {
                halfway.remote_candidate(Ok(None))
            } else {
                after_send(halfway)
            };
            assert!(matches!(action, ServerAction::Serve));
            let (next, actions) = run(served, vec![ServerEvent::Served]);
            assert!(matches!(actions[0], ServerAction::ReceiveOffer));
            connection = next;
        }
    }
}

#[test]
fn failures_before_the_peer_are_reported_at_once() {
    let (connection, actions) =
        run(begin(), vec![ServerEvent::Offer(Err(RecvError::DeserializeError("bad")))]);
    assert!(matches!(actions[0], ServerAction::Identify));
    let (_, actions) = run(connection, vec![ServerEvent::Identified("me".to_owned())]);
    assert!(matches!(&actions[0], ServerAction::Report(ServerError::BadMessage { error: "bad", client_id })
        if client_id == "me"));

    let lost = Error::from(ErrorKind::UnexpectedEof);
    let (_, actions) = run(begin(), vec![ServerEvent::Offer(Err(RecvError::IOError(lost)))]);
    assert!(matches!(actions[0], ServerAction::Report(ServerError::IOError(_))));

    let (_, actions) = run(
        begin(),
        vec![ServerEvent::Offer(Ok("offer")), ServerEvent::PeerOpened(Err(broken()))],
    );
    assert!(matches!(actions[1], ServerAction::Report(ServerError::WebRTCError(_))));
}

#[test]
fn later_failures_close_the_peer_first() {
    let failures: Vec<(usize, Event)> = vec![
        (3, ServerEvent::Applied(Err(broken()))),
        (4, ServerEvent::AnswerCreated(Err(broken()))),
        (5, ServerEvent::Sent(Err(Error::from(ErrorKind::BrokenPipe)))),
        (6, ServerEvent::Applied(Err(broken()))),
    ];
    for (at, failure) in failures {
        let mut events = until_exchange();
        events.truncate(at);
        events.push(failure);
        events.push(ServerEvent::Closed);
        let (_, actions) = run(begin(), events);
        assert!(matches!(actions[at], ServerAction::ClosePeer));
        assert!(matches!(actions[at + 1], ServerAction::Report(_)));
    }
}

#[test]
fn bad_message_is_reported_with_its_sender_after_closing() {
    let (connection, _) = run(begin(), until_exchange());
    let (connection, action): (Connection, Action) =
        connection.remote_candidate(Err(RecvError::DeserializeError("garbage")));
    assert!(matches!(action, ServerAction::ClosePeer));
    let (_, actions) =
        run(connection, vec![ServerEvent::Closed, ServerEvent::Identified("them".to_owned())]);
    assert!(matches!(actions[0], ServerAction::Identify));
    let ServerAction::Report(error) = &actions[1] else {
        panic!("the failure should be reported");
    };
    assert_eq!(error.message("garbage"), "From: them\ngarbage");
}

#[test]
fn lost_stream_is_reported_after_closing() {
    let (connection, _) = run(begin(), until_exchange());
    let lost = Error::from(ErrorKind::UnexpectedEof);
    let (connection, _): (Connection, Action) =
        connection.remote_candidate(Err(RecvError::IOError(lost)));
    let (_, actions) = run(connection, vec![ServerEvent::Closed]);
    assert!(matches!(&actions[0], ServerAction::Report(ServerError::IOError(e))
        if e.kind() == ErrorKind::UnexpectedEof));
}

#[test]
fn server_errors_in_words() {
    let accept: ServerError<u8, u8> = ServerError::AcceptError(1);
    assert_eq!(accept.message("cause"), "cause");
    let bad: ServerError<u8, u8> =
        ServerError::BadMessage { error: 2, client_id: "PID(3)".to_owned() };
    assert_eq!(bad.message("cause"), "From: PID(3)\ncause");
    let rtc: ServerError<u8, u8> = ServerError::WebRTCError(broken());
    assert_eq!(rtc.message("closed"), "closed");
}

#[test]
fn tls_accept_errors_in_words() {
    let accept: TlsAcceptError<u8> = TlsAcceptError::AcceptError(1);
    assert_eq!(accept.message("no more files"), "no more files");
    let lost: TlsAcceptError<u8> = TlsAcceptError::from(Error::from(ErrorKind::UnexpectedEof));
    assert_eq!(lost.message("unexpected end of file"), "unexpected end of file");
}

#[test]
fn accepting_goes_on_until_closed() {
    let action: AcceptAction<&str, u8, ()> = accept_next(AcceptEvent::Accepted(Ok("stream")));
    assert!(matches!(action, AcceptAction::Upgrade("stream")));
    let action: AcceptAction<&str, u8, ()> = accept_next(AcceptEvent::Accepted(Err(4)));
    assert!(matches!(action, AcceptAction::Report(ServerError::AcceptError(4))));
    let action: AcceptAction<&str, u8, ()> = accept_next(AcceptEvent::CloseRequested);
    assert!(matches!(action, AcceptAction::Close));
}

#[test]
fn tls_accepting_tells_the_layers_apart() {
    let stream = TlsUpgradeTransportServer::<()>::accepted::<_, u8>(Ok(StreamTransport::from(3)));
    assert!(matches!(stream, Ok(3)));
    let refused = TlsUpgradeTransportServer::<()>::accepted::<(), u8>(Err(9));
    assert!(matches!(refused, Err(TlsAcceptError::AcceptError(9))));
    let secured = TlsUpgradeTransportServer::<()>::secured::<_, u8>(Ok("tls"));
    let transport = secured.ok().unwrap();
    assert_eq!(transport.stream, "tls");
    assert!(transport.recv_buffer.is_empty());
    let failed = Error::from(ErrorKind::InvalidData);
    let failed = TlsUpgradeTransportServer::<()>::secured::<(), u8>(Err(failed));
    assert!(matches!(failed, Err(TlsAcceptError::IOError(e)) if e.kind() == ErrorKind::InvalidData));
}

#[test]
fn tls_wraps_the_acceptor_of_transports() {
    let cert = rcgen::generate_simple_self_signed(vec!["localhost".to_owned()]).unwrap();
    let der = cert.serialize_der().unwrap();
    let acceptor = new_acceptor(der.clone(), der, cert.serialize_private_key_der());
    let server = UpgradeWebRTCServer::new("listener");
    assert_eq!(server.config.ice_servers.len(), 1);
    let server = server.add_tls_from_config(acceptor).ok().unwrap();
    assert_eq!(server.server.server, "listener");
}

#[test]
fn server_comes_back_when_tls_fails() {
    let server = UpgradeWebRTCServer::new("listener");
    let error = TlsInitError::from(Error::from(ErrorKind::NotFound));
    let (error, server) = server.add_tls_from_config(Err(error)).err().unwrap();
    assert!(matches!(error, TlsInitError::IOError(_)));
    assert_eq!(server.server, "listener");
}
