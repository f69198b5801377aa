use webrtc_tunnel::ice::{IceCandidate, IceExchange};
use webrtc_tunnel::rtc::{
    default_api, default_configuration, reliable_unordered_data_channel, tcp_data_channel,
    udp_data_channel, STUN_SERVERS,
};

#[test]
fn data_channel_settings() {
    let tcp = tcp_data_channel();
    assert_eq!((tcp.ordered, tcp.max_retransmits), (Some(true), Some(u16::MAX)));
    let udp = udp_data_channel();
    assert_eq!((udp.ordered, udp.max_retransmits), (Some(false), Some(0)));
    let loose = reliable_unordered_data_channel();
    assert_eq!((loose.ordered, loose.max_retransmits), (Some(false), Some(u16::MAX)));
    for init in [tcp, udp, loose] {
        assert_eq!(init.max_packet_life_time, None);
        assert_eq!(init.protocol, None);
        assert_eq!(init.negotiated, None);
    }
}

#[test]
fn one_stun_server_by_default() {
    let config = default_configuration();
    assert_eq!(config.ice_servers.len(), 1);
    assert_eq!(config.ice_servers[0].urls, vec!["stun:stun.l.google.com:19302".to_owned()]);
    assert_eq!(STUN_SERVERS.len(), 19);
    assert_eq!(STUN_SERVERS[0], "stun:stun.l.google.com:19302");
    assert_eq!(STUN_SERVERS[18], "stun:stun.xten.com");
}

#[test]
fn default_interface_can_be_built_again_and_again() {
    let _ = default_api();
    let _ = default_api();
}

/// What an offer says of video: each codec has the feedback that the interceptors ask for, once,
/// and the header extension is there.
#[test]
fn default_interface_offers_what_its_interceptors_ask_for() {
    let runtime = tokio::runtime::Builder::new_current_thread().enable_all().build().unwrap();
    let offer = runtime.block_on(async {
        let config = webrtc::peer_connection::configuration::RTCConfiguration::default();
        let peer = default_api().new_peer_connection(config).await.unwrap();
        let video = webrtc::rtp_transceiver::rtp_codec::RTPCodecType::Video;
        peer.add_transceiver_from_kind(video, None).await.unwrap();
        let offer = peer.create_offer(None).await.unwrap();
        peer.close().await.unwrap();
        offer.sdp
    });
    let lines: Vec<&str> = offer.lines().collect();
    let count = |line: &str| lines.iter().filter(|l| l.trim() == line).count();
    assert_eq!(count("a=rtpmap:96 VP8/90000"), 1);
    assert_eq!(count("a=rtcp-fb:96 transport-cc"), 1);
    let extension = "http://www.ietf.org/id/draft-holmer-rmcat-transport-wide-cc-extensions-01";
    let extensions = lines.iter().filter(|l| l.starts_with("a=extmap:")).collect::<Vec<_>>();
    assert_eq!(extensions.len(), 1);
    assert!(extensions[0].trim().ends_with(extension));
}

#[test]
fn exchange_is_over_with_both_marks() {
    let begin = IceExchange::new();
    assert!(!begin.is_over());
    assert!(!begin.after_sending(false).is_over());
    assert!(!begin.after_sending(true).is_over());
    assert!(!begin.after_last_received().is_over());
    assert!(begin.after_sending(true).after_last_received().is_over());
    assert!(begin.after_last_received().after_sending(true).is_over());
    assert!(!begin.after_last_received().after_sending(false).is_over());
}

#[test]
fn candidates_without_priority_need_a_small_component() {
    let mut candidate = IceCandidate {
        stats_id: String::new(),
        foundation: "1".to_owned(),
        priority: 1,
        address: "127.0.0.1".to_owned(),
        protocol: "udp".to_owned(),
        port: 1,
        typ: "host".to_owned(),
        component: 300,
        related_address: String::new(),
        related_port: 0,
        tcp_type: String::new(),
    };
    assert!(candidate.is_renderable());
    candidate.priority = 0;
    assert!(!candidate.is_renderable());
    candidate.component = 256;
    assert!(candidate.is_renderable());
}
