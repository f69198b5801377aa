use webrtc_tunnel::client::{ClientAction, ClientEvent, ClientUpgrade, PeerAndChannels};
use webrtc_tunnel::ice::IceCandidate;
use webrtc_tunnel::rtc::{tcp_data_channel, RTCMessage};
use webrtc_tunnel::server::{ServerAction, ServerConnection, ServerEvent};

type ClientSide = ClientUpgrade<String, u32>;
type ServerSide = ServerConnection<String, ()>;

fn candidate(port: u16) -> IceCandidate {
    IceCandidate {
        stats_id: String::new(),
        foundation: "1".to_owned(),
        priority: 1,
        address: "127.0.0.1".to_owned(),
        protocol: "udp".to_owned(),
        port,
        typ: "host".to_owned(),
        component: 1,
        related_address: String::new(),
        related_port: 0,
        tcp_type: String::new(),
    }
}

/// What is on its way to the client.
enum ToClient {
    Message(RTCMessage<String>),
    Candidate(Option<RTCMessage<String>>),
}

/// What is on its way to the server.
enum ToServer {
    Offer(String),
    Candidate(Option<IceCandidate>),
}

/// A client and a server that share a stream upgrade it, and the client gets the channel that it
/// asked for.
#[test]
fn upgrade_over_a_shared_stream() {
    let mut to_client: Vec<ToClient> = Vec::new();
    let mut to_server: Vec<ToServer> = Vec::new();
    let mut client_candidates = vec![None, Some(candidate(2)), Some(candidate(1))];
    let mut server_candidates = vec![None, Some(candidate(3))];
    let mut added_by_client = Vec::new();
    let mut added_by_server = Vec::new();
    let mut finished = false;
    let mut served = false;

    let (mut client, mut client_action): (ClientSide, ClientAction<String, IceCandidate, ()>) =
        ClientUpgrade::start(vec![("test".to_owned(), tcp_data_channel())]);
    let (mut server, mut server_action): (ServerSide, ServerAction<String, (), ()>) =
        ServerConnection::start();

    for _ in 0..200 {
        let event = match client_action {
            ClientAction::OpenPeer => Some(ClientEvent::PeerOpened(Ok(()))),
            ClientAction::OpenCommandChannel => Some(ClientEvent::ChannelOpened(Ok(0))),
            ClientAction::OpenChannel(ref label, _) => {
                assert_eq!(label, "test");
                Some(ClientEvent::ChannelOpened(Ok(1)))
            }
            ClientAction::CreateOffer => Some(ClientEvent::OfferCreated(Ok("offer".to_owned()))),
            ClientAction::SendOffer => {
                to_server.push(ToServer::Offer(client.offer().unwrap().clone()));
                Some(ClientEvent::Sent(Ok(())))
            }
            ClientAction::SetLocal(ref offer) => {
                assert_eq!(offer, "offer");
                Some(ClientEvent::Applied(Ok(())))
            }
            ClientAction::Receive if to_client.is_empty() => None,
            ClientAction::Receive => match to_client.remove(0) {
                ToClient::Message(message) => Some(ClientEvent::Message(Ok(message))),
                ToClient::Candidate(_) => panic!("the answer should come first"),
            },
            ClientAction::SetRemote(ref answer) => {
                assert_eq!(answer, "answer to offer");
                Some(ClientEvent::Applied(Ok(())))
            }
            ClientAction::AddCandidate(ref init) => {
                added_by_client.push(init.candidate.clone());
                Some(ClientEvent::Applied(Ok(())))
            }
            ClientAction::WatchCandidates => Some(ClientEvent::Watching),
            ClientAction::Exchange => {
                if let Some(candidate) = client_candidates.pop() {
                    Some(ClientEvent::LocalCandidate(candidate))
                } else if to_client.is_empty() {
                    None
                } else {
                    match to_client.remove(0) {
                        ToClient::Candidate(message) => {
                            Some(ClientEvent::RemoteMessage(Ok(message)))
                        }
                        ToClient::Message(_) => panic!("there should be one answer"),
                    }
                }
            }
            ClientAction::SendCandidate(candidate) => {
                to_server.push(ToServer::Candidate(candidate));
                client_action = ClientAction::Exchange;
                Some(ClientEvent::Sent(Ok(())))
            }
            ClientAction::Finish => {
                finished = true;
                None
            }
            ClientAction::Fail(error) => panic!("client error: {error:?}"),
        };
        if let Some(event) = event {
            (client, client_action) = client.step(event);
        }

        let event = match server_action {
            ServerAction::ReceiveOffer if to_server.is_empty() || served => None,
            ServerAction::ReceiveOffer => match to_server.remove(0) {
                ToServer::Offer(offer) => Some(ServerEvent::Offer(Ok(offer))),
                ToServer::Candidate(_) => panic!("the offer should come first"),
            },
            ServerAction::OpenPeer => Some(ServerEvent::PeerOpened(Ok(()))),
            ServerAction::WatchPeer => Some(ServerEvent::Watching),
            ServerAction::SetRemote(ref offer) => {
                assert_eq!(offer, "offer");
                Some(ServerEvent::Applied(Ok(())))
            }
            ServerAction::CreateAnswer => {
                Some(ServerEvent::AnswerCreated(Ok("answer to offer".to_owned())))
            }
            ServerAction::SendAnswer => {
                let answer = server.answer().unwrap().clone();
                to_client.push(ToClient::Message(RTCMessage::SDPAnswer(answer)));
                Some(ServerEvent::Sent(Ok(())))
            }
            ServerAction::SetLocal(ref answer) => {
                assert_eq!(answer, "answer to offer");
                Some(ServerEvent::Applied(Ok(())))
            }
            ServerAction::Exchange => {
                if let Some(candidate) = server_candidates.pop() {
                    (server, server_action) = server.local_candidate(candidate);
                } else if !to_server.is_empty() {
                    match to_server.remove(0) {
                        ToServer::Candidate(candidate) => {
                            (server, server_action) = server.remote_candidate(Ok(candidate));
                        }
                        ToServer::Offer(_) => panic!("there should be one offer"),
                    }
                }
                None
            }
            ServerAction::SendCandidate(message) => {
                to_client.push(ToClient::Candidate(message));
                server_action = ServerAction::Exchange;
                Some(ServerEvent::Sent(Ok(())))
            }
            ServerAction::AddCandidate(ref init) => {
                added_by_server.push(init.candidate.clone());
                Some(ServerEvent::Applied(Ok(())))
            }
            ServerAction::Serve => {
                served = true;
                Some(ServerEvent::Served)
            }
            ServerAction::ClosePeer | ServerAction::Identify | ServerAction::Report(_) => {
                panic!("the server should not fail")
            }
        };
        if let Some(event) = event {
            (server, server_action) = server.step(event);
        }
    }

    assert!(finished, "client should have upgraded");
    assert!(served, "server should have upgraded a client");
    assert!(to_client.is_empty());
    assert!(to_server.is_empty());
    assert_eq!(added_by_client, vec!["candidate:1 1 udp 1 127.0.0.1 3 typ host"]);
    assert_eq!(
        added_by_server,
        vec![
            "candidate:1 1 udp 1 127.0.0.1 1 typ host",
            "candidate:1 1 udp 1 127.0.0.1 2 typ host",
        ]
    );
    let mut upgraded = PeerAndChannels { peer: (), channels: client.into_channels() };
    assert_eq!(upgraded.take_last(), Some(("test".to_owned(), 1)));
    assert_eq!(upgraded.take_last(), None);
}
