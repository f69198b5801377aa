use bytes::Bytes;
use std::io::{Error, ErrorKind};
use webrtc_tunnel::rtc::DataChannelInit;
use webrtc_tunnel::tunnel::channel::{remapped, Channel, Port, Quality};
use webrtc_tunnel::tunnel::client::{
    init_channels, plan, pump, wait_next, ChannelCounter, ClientConfig, ConfigError, Datagram, Plan, PumpAction,
    PumpEvent, UdpSessions, WaitAction, WaitEvent,
};
use webrtc_tunnel::tunnel::server::{
    relay, AllowedChannels, Destination, RelayAction, RelayEvent, ServerConfig,
};

fn port(number: u16) -> Port {
    Port::new(number).unwrap()
}

fn udp(number: u16, remap: Option<u16>) -> Channel {
    Channel::UDP { port: port(number), remap: remap.map(port), quality: Some(Quality::UDP) }
}

fn tcp(number: u16, remap: Option<u16>) -> Channel {
    Channel::TCP { port: port(number), remap: remap.map(port), quality: Some(Quality::TCP) }
}

fn socket(addr: &str, remap: Option<&str>) -> Channel {
    Channel::LocalSocket {
        addr: addr.to_owned(),
        remap: remap.map(|name| name.to_owned()),
        quality: None,
    }
}

fn client_config(use_tls: bool, domain: Option<&str>, channels: Vec<Channel>) -> ClientConfig {
    ClientConfig {
        use_tls,
        root_cert_path: None,
        domain_name: domain.map(|name| name.to_owned()),
        channels,
    }
}

#[test]
fn ports_are_not_zero() {
    assert!(Port::new(0).is_none());
    assert_eq!(port(1).get(), 1);
    assert_eq!(port(65535).get(), 65535);
    assert_eq!(remapped(port(80), None), 80);
    assert_eq!(remapped(port(80), Some(port(8080))), 8080);
}

#[test]
fn qualities_have_settings() {
    let settings = |quality| {
        let init = DataChannelInit::from(quality);
        (init.ordered, init.max_retransmits)
    };
    assert_eq!(settings(Quality::UDP), (Some(false), Some(0)));
    assert_eq!(settings(Quality::TCP), (Some(true), Some(u16::MAX)));
    assert_eq!(settings(Quality::ReliableUnordered), (Some(false), Some(u16::MAX)));
}

#[test]
fn channels_are_named_by_what_they_are_remapped_to() {
    assert_eq!(udp(53, None).public_name(), "53");
    assert_eq!(udp(53, Some(5353)).public_name(), "5353");
    assert_eq!(tcp(80, Some(8080)).public_name(), "8080");
    assert_eq!(socket("/run/a", None).public_name(), "/run/a");
    assert_eq!(socket("/run/a", Some("/run/b")).public_name(), "/run/b");
}

#[test]
fn server_leads_to_its_own_ports() {
    let allowed = AllowedChannels::new(vec![
        udp(53, None),
        tcp(80, Some(8080)),
        socket("/run/a", None),
    ]);
    assert_eq!(allowed.dispatch("53"), Destination::Udp(53));
    assert_eq!(allowed.dispatch("8080"), Destination::Tcp(80));
    assert_eq!(allowed.dispatch("80"), Destination::Refused);
    assert_eq!(allowed.dispatch("/run/a"), Destination::LocalSocket);
    assert_eq!(allowed.dispatch("/run/b"), Destination::Refused);
    assert_eq!(allowed.dispatch(""), Destination::Refused);
    assert_eq!(allowed.dispatch("053"), Destination::Refused);
}

#[test]
fn last_channel_of_a_name_counts() {
    let allowed = AllowedChannels::new(vec![tcp(1, Some(9)), udp(2, Some(9)), tcp(9, None)]);
    assert_eq!(allowed.dispatch("9"), Destination::Tcp(9));
    let allowed = AllowedChannels::new(vec![tcp(9, None), udp(2, Some(9))]);
    assert_eq!(allowed.dispatch("9"), Destination::Udp(2));
    let allowed = AllowedChannels::new(vec![tcp(9, None), socket("9", None)]);
    assert_eq!(allowed.dispatch("9"), Destination::LocalSocket);
    assert_eq!(AllowedChannels::new(vec![]).dispatch("9"), Destination::Refused);
}

#[test]
fn client_port_comes_out_at_the_offered_port() {
    let allowed = AllowedChannels::new(vec![tcp(80, Some(8080)), udp(53, None)]);
    let Plan::Tcp(listener) = plan(&tcp(8080, Some(10000))) else {
        panic!("the port should be listened on");
    };
    assert_eq!(listener.listen, 10000);
    let (label, init) = listener.open(41);
    assert_eq!(label, "41");
    assert_eq!(init.ordered, Some(true));
    assert_eq!(init.protocol.as_deref(), Some("8080"));
    assert_eq!(allowed.dispatch(&init.protocol.unwrap()), Destination::Tcp(80));
    let Plan::Udp(listener) = plan(&udp(80, None)) else {
        panic!("the port should be listened on");
    };
    assert_eq!(listener.listen, 80);
    let (label, init) = listener.open(u64::MAX);
    assert_eq!(label, "18446744073709551615");
    assert_eq!(init.ordered, Some(false));
    assert_eq!(allowed.dispatch(&init.protocol.unwrap()), Destination::Refused);
}

#[test]
fn client_needs_to_know_the_quality() {
    for channel in [
        Channel::UDP { port: port(53), remap: None, quality: None },
        Channel::TCP { port: port(53), remap: Some(port(54)), quality: None },
    ] {
        let Plan::MissingQuality(text) = plan(&channel) else {
            panic!("there should be a complaint");
        };
        assert_eq!(text, "Missing quality setting for port 53");
    }
    assert!(matches!(plan(&socket("/run/a", None)), Plan::Unsupported));
}

#[test]
fn client_needs_channels() {
    let error = client_config(false, None, vec![]).check_channels().unwrap_err();
    assert!(matches!(error, ConfigError::NoChannels));
    assert_eq!(error.message(""), "No channels provided");
    assert!(client_config(false, None, vec![udp(1, None)]).check_channels().is_ok());
}

#[test]
fn client_needs_a_domain_for_tls() {
    assert!(matches!(client_config(false, None, vec![]).tls_domain(), Ok(None)));
    assert!(matches!(client_config(false, Some("a b"), vec![]).tls_domain(), Ok(None)));
    let error = client_config(true, None, vec![]).tls_domain().unwrap_err();
    assert!(matches!(error, ConfigError::MissingDomainName));
    assert_eq!(error.message(""), "Missing domain name");
    let error = client_config(true, Some("a b"), vec![]).tls_domain().unwrap_err();
    assert!(matches!(error, ConfigError::InvalidDomainName(_)));
    assert_eq!(error.message("invalid dns name"), "invalid dns name");
    let domain = client_config(true, Some("example.org"), vec![]).tls_domain().unwrap();
    let expected = tokio_rustls::rustls::ServerName::try_from("example.org").unwrap();
    assert_eq!(domain, Some(expected));
}

#[test]
fn client_upgrades_with_one_channel() {
    let channels = init_channels();
    assert_eq!(channels.len(), 1);
    assert_eq!(channels[0].0, "init");
    assert_eq!(channels[0].1.ordered, Some(true));
    assert_eq!(channels[0].1.protocol, None);
}

fn session_of(sessions: &UdpSessions, peer: (u32, u16)) -> Option<u64> {
    match sessions.route(peer, b"ping", 3) {
        Datagram::PassOn(session, payload) => {
            assert_eq!(&payload[..], b"pin");
            Some(session)
        }
        Datagram::Open(payload) => {
            assert_eq!(&payload[..], b"pin");
            None
        }
    }
}

#[test]
fn sessions_belong_to_peers() {
    let (one, two) = ((0x7f000001, 1000), (0x7f000001, 1001));
    let mut sessions = UdpSessions::new();
    assert_eq!(session_of(&sessions, one), None);
    assert_eq!(sessions.opened(one), 0);
    assert_eq!(sessions.opened(two), 1);
    assert_eq!(session_of(&sessions, one), Some(0));
    assert_eq!(session_of(&sessions, two), Some(1));
    sessions.passed_on(one, true);
    assert_eq!(session_of(&sessions, one), Some(0));
    sessions.passed_on(one, false);
    assert_eq!(session_of(&sessions, one), None);
    assert_eq!(session_of(&sessions, two), Some(1));
    assert_eq!(sessions.opened(one), 2);
    assert_eq!(session_of(&sessions, one), Some(2));
    assert_eq!(sessions.opened(one), 3);
    assert_eq!(session_of(&sessions, one), Some(3));
}

#[test]
fn labels_of_a_run_differ() {
    let listeners: Vec<_> = [udp(53, None), udp(54, Some(55))]
        .iter()
        .map(|channel| match plan(channel) {
            Plan::Udp(listener) => listener,
            _ => panic!("the port should be listened on"),
        })
        .collect();
    let mut counter = ChannelCounter::new();
    let mut labels = std::collections::HashSet::new();
    for i in 0..100 {
        let index = counter.next();
        assert_eq!(index, i);
        let (label, init) = listeners[i as usize % 2].open(index);
        assert_eq!(init.protocol.as_deref(), Some(if i % 2 == 0 { "53" } else { "54" }));
        assert!(labels.insert(label));
    }
    counter.count = usize::MAX;
    assert_eq!(counter.next(), usize::MAX as u64);
    assert_eq!(counter.next(), 0);
}

#[test]
fn labels_of_connections_differ() {
    let Plan::Udp(listener) = plan(&udp(53, None)) else {
        panic!("the port should be listened on");
    };
    assert_ne!(listener.open(1).0, listener.open(11).0);
    assert_eq!(listener.open(7).0, listener.open(7).0);
}

#[test]
fn connection_passes_payloads_both_ways() {
    let payload = Bytes::from_static(b"ping");
    let PumpAction::ToChannel(sending) = pump(PumpEvent::Local(Some(payload.clone()))) else {
        panic!("the payload should be sent");
    };
    assert_eq!(sending.rest().unwrap(), payload);
    let PumpAction::ToSocket(bytes) = pump(PumpEvent::Remote(Some(payload.clone()))) else {
        panic!("the payload should be handed to the socket");
    };
    assert_eq!(bytes, payload);
    assert!(matches!(pump(PumpEvent::Local(None)), PumpAction::Stop));
    assert!(matches!(pump(PumpEvent::Remote(None)), PumpAction::Stop));
}

#[test]
fn server_relays_what_comes_first() {
    let buf = [9, 8, 7, 0, 0];
    let action: RelayAction<&str> = relay(&buf, RelayEvent::Read(Ok(3)));
    assert!(matches!(action, RelayAction::ToChannel(bytes) if bytes[..] == [9, 8, 7]));
    let action: RelayAction<&str> = relay(&buf, RelayEvent::Read(Err("lost")));
    assert!(matches!(action, RelayAction::SocketFailed("lost")));
    let message = Bytes::from_static(b"pong");
    let action: RelayAction<&str> = relay(&buf, RelayEvent::Message(Some(message.clone())));
    assert!(matches!(action, RelayAction::ToSocket(sending) if sending.rest() == Some(message)));
    let action: RelayAction<&str> = relay(&buf, RelayEvent::Message(None));
    assert!(matches!(action, RelayAction::ChannelGone));
}

#[test]
fn client_waits_for_the_user_or_a_task() {
    let action: WaitAction<u8, u8> = wait_next(WaitEvent::CtrlC(Ok(())));
    assert!(matches!(action, WaitAction::ShutDown));
    let unknown = Error::from(ErrorKind::Unsupported);
    let action: WaitAction<u8, u8> = wait_next(WaitEvent::CtrlC(Err(unknown)));
    assert!(matches!(action, WaitAction::WaitForTasks(e) if e.kind() == ErrorKind::Unsupported));
    let action: WaitAction<u8, u8> = wait_next(WaitEvent::TaskEnded(Ok(Ok(()))));
    assert!(matches!(action, WaitAction::ShutDown));
    let action: WaitAction<u8, u8> = wait_next(WaitEvent::TaskEnded(Ok(Err(1))));
    assert!(matches!(action, WaitAction::FailWithTask(1)));
    let action: WaitAction<u8, u8> = wait_next(WaitEvent::TaskEnded(Err(2)));
    assert!(matches!(action, WaitAction::FailWithJoin(2)));
}

#[test]
fn server_uses_tls_with_a_root_certificate() {
    let config = |path: &str| ServerConfig {
        root_cert_chain_path: path.to_owned(),
        parent_key_path: "key.pem".to_owned(),
        subject_alt_names: vec!["localhost".to_owned()],
        create_if_missing: true,
        channels: vec![udp(53, None)],
    };
    let (channels, tls) = config("").into_parts();
    assert_eq!(channels.len(), 1);
    assert!(tls.is_none());
    let (channels, tls) = config("cert.pem").into_parts();
    assert_eq!(channels.len(), 1);
    let tls = tls.unwrap();
    assert_eq!(tls.root_cert_chain_path, "cert.pem");
    assert_eq!(tls.parent_key_path, "key.pem");
    assert_eq!(tls.subject_alt_names, vec!["localhost".to_owned()]);
    assert!(tls.create_if_missing);
}
