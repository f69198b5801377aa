//! What both ends of an upgrade share: the settings of data channels and connections, the
//! WebRTC interface with its default codecs and interceptors, and the messages that a server
//! sends.
use crate::ice::IceCandidateInit;
use vstd::prelude::*;

verus! {

#[verifier::external_type_specification]
#[verifier::external_body]
pub struct ExRtcError(webrtc::Error);

#[verifier::external_type_specification]
#[verifier::external_body]
pub struct ExApi(webrtc::api::API);

#[verifier::external_type_specification]
#[verifier::external_body]
pub struct ExMediaEngine(webrtc::api::media_engine::MediaEngine);

#[verifier::external_type_specification]
#[verifier::external_body]
pub struct ExRegistry(webrtc::interceptor::registry::Registry);

/// Public STUN servers.
pub const STUN_SERVERS: [&'static str; 19] = [
    "stun:stun.l.google.com:19302",
    "stun:stun1.l.google.com:19302",
    "stun:stun2.l.google.com:19302",
    "stun:stun3.l.google.com:19302",
    "stun:stun4.l.google.com:19302",
    "stun:stun01.sipphone.com",
    "stun:stun.ekiga.net",
    "stun:stun.fwdnet.net",
    "stun:stun.ideasip.com",
    "stun:stun.iptel.org",
    "stun:stun.rixtelecom.se",
    "stun:stun.schlund.de",
    "stun:stunserver.org",
    "stun:stun.softjoys.com",
    "stun:stun.voiparound.com",
    "stun:stun.voipbuster.com",
    "stun:stun.voipstunt.com",
    "stun:stun.voxgratia.org",
    "stun:stun.xten.com",
];

/// The settings of a data channel.
#[derive(Debug)]
pub struct DataChannelInit {
    pub ordered: Option<bool>,
    pub max_packet_life_time: Option<u16>,
    pub max_retransmits: Option<u16>,
    pub protocol: Option<String>,
    pub negotiated: Option<u16>,
}

/// Configuration for a data channel that is equivalent to a TCP connection.
#[verifier::allow_in_spec]
pub fn tcp_data_channel() -> DataChannelInit
    returns
        (DataChannelInit {
            ordered: Some(true),
            max_packet_life_time: None,
            max_retransmits: Some(u16::MAX),
            protocol: None,
            negotiated: None,
        }),
{
    DataChannelInit {
        ordered: Some(true),
        max_packet_life_time: None,
        max_retransmits: Some(u16::MAX),
        protocol: None,
        negotiated: None,
    }
}

/// Configuration for a data channel that is equivalent to a UDP connection.
#[verifier::allow_in_spec]
pub fn udp_data_channel() -> DataChannelInit
    returns
        (DataChannelInit {
            ordered: Some(false),
            max_packet_life_time: None,
            max_retransmits: Some(0),
            protocol: None,
            negotiated: None,
        }),
{
    DataChannelInit {
        ordered: Some(false),
        max_packet_life_time: None,
        max_retransmits: Some(0),
        protocol: None,
        negotiated: None,
    }
}

/// Configuration for a data channel where messages are always received but may not be in
/// order.
#[verifier::allow_in_spec]
pub fn reliable_unordered_data_channel() -> DataChannelInit
    returns
        (DataChannelInit {
            ordered: Some(false),
            max_packet_life_time: None,
            max_retransmits: Some(u16::MAX),
            protocol: None,
            negotiated: None,
        }),
{
    DataChannelInit {
        ordered: Some(false),
        max_packet_life_time: None,
        max_retransmits: Some(u16::MAX),
        protocol: None,
        negotiated: None,
    }
}

/// A server that helps to find a path to the peer, reached under any of its addresses.
#[derive(Debug)]
pub struct IceServer {
    pub urls: Vec<String>,
}

/// The settings of a connection. Whatever is not named here has its default value.
#[derive(Debug)]
pub struct RtcConfiguration {
    pub ice_servers: Vec<IceServer>,
}

/// The address of the one STUN server that connections use.
pub const DEFAULT_STUN_SERVER: &'static str = "stun:stun.l.google.com:19302";

/// Exactly one server, reached under exactly the default address.
pub open spec fn is_default_configuration(config: RtcConfiguration) -> bool {
    &&& config.ice_servers@.len() == 1
    &&& config.ice_servers@[0].urls@.len() == 1
    &&& config.ice_servers@[0].urls@[0]@ == DEFAULT_STUN_SERVER@
}

/// The settings that both ends start with.
pub fn default_configuration() -> (config: RtcConfiguration)
    ensures
        is_default_configuration(config),
{
    let mut urls: Vec<String> = Vec::new();
    urls.push(DEFAULT_STUN_SERVER.to_owned());
    let mut ice_servers: Vec<IceServer> = Vec::new();
    ice_servers.push(IceServer { urls });
    RtcConfiguration { ice_servers }
}

/// A message from a server to a client during an upgrade. `D` is a session description.
#[derive(Debug)]
pub enum RTCMessage<D> {
    SDPAnswer(D),
    ICE(IceCandidateInit),
}

/// Whether a media engine is as it was made: no codec and no header extension is registered.
pub uninterp spec fn is_blank(engine: webrtc::api::media_engine::MediaEngine) -> bool;

/// Whether the default codecs are registered with a media engine as they come, and nothing else.
pub uninterp spec fn has_default_codecs(engine: webrtc::api::media_engine::MediaEngine) -> bool;

/// Whether the default codecs are registered with a media engine, each with the feedback that the
/// default interceptors ask of it, once, together with the header extension of those interceptors,
/// and nothing else.
pub uninterp spec fn has_interceptor_settings(
    engine: webrtc::api::media_engine::MediaEngine,
) -> bool;

/// Whether a registry holds no interceptor.
pub uninterp spec fn is_empty_registry(
    registry: webrtc::interceptor::registry::Registry,
) -> bool;

/// Whether a registry holds the default interceptors, each once, and no other.
pub uninterp spec fn has_default_interceptors(
    registry: webrtc::interceptor::registry::Registry,
) -> bool;

/// The media engine that an interface was built with.
pub uninterp spec fn media_engine_of(
    api: webrtc::api::API,
) -> webrtc::api::media_engine::MediaEngine;

/// The interceptors that an interface was built with.
pub uninterp spec fn interceptors_of(
    api: webrtc::api::API,
) -> webrtc::interceptor::registry::Registry;

/// `MediaEngine::default`: an engine with nothing registered.
#[verifier::external_body]
fn new_media_engine() -> (engine: webrtc::api::media_engine::MediaEngine)
    ensures
        is_blank(engine),
{
    webrtc::api::media_engine::MediaEngine::default()
}

/// `MediaEngine::register_default_codecs`: succeeds, since each of the codecs that it
/// registers is one for audio or for video. An engine that had nothing registered has the default
/// codecs after it, and nothing else. It takes the time for the names of the codecs, from a clock
/// that has to be past the year 1970.
#[verifier::external_body]
fn register_default_codecs(engine: &mut webrtc::api::media_engine::MediaEngine) -> (r: Result<
    (),
    webrtc::Error,
>)
    ensures
        r is Ok,
        is_blank(*old(engine)) ==> has_default_codecs(*final(engine)),
{
    engine.register_default_codecs()
}

/// `Registry::new`: a registry with no interceptor in it.
#[verifier::external_body]
fn new_registry() -> (registry: webrtc::interceptor::registry::Registry)
    ensures
        is_empty_registry(registry),
{
    webrtc::interceptor::registry::Registry::new()
}

/// `register_default_interceptors`: adds the default interceptors to the registry, and what they
/// ask for to the engine: feedback to each codec that is registered by then, and a header
/// extension. It can fail only for an engine that has header extensions already. An engine that
/// had just the default codecs has them with these settings after it, and a registry that was
/// empty holds just the default interceptors.
#[verifier::external_body]
fn register_default_interceptors(
    registry: webrtc::interceptor::registry::Registry,
    engine: &mut webrtc::api::media_engine::MediaEngine,
) -> (r: Result<webrtc::interceptor::registry::Registry, webrtc::Error>)
    ensures
        is_blank(*old(engine)) || has_default_codecs(*old(engine)) ==> r is Ok,
        has_default_codecs(*old(engine)) && r is Ok ==> has_interceptor_settings(*final(engine)),
        is_empty_registry(registry) && r is Ok ==> has_default_interceptors(r->Ok_0),
{
    webrtc::api::interceptor_registry::register_default_interceptors(registry, engine)
}

/// `APIBuilder`: an interface with the given media engine and interceptors.
#[verifier::external_body]
fn build_api(
    engine: webrtc::api::media_engine::MediaEngine,
    registry: webrtc::interceptor::registry::Registry,
) -> (api: webrtc::api::API)
    ensures
        media_engine_of(api) == engine,
        interceptors_of(api) == registry,
{
    webrtc::api::APIBuilder::new()
        .with_media_engine(engine)
        .with_interceptor_registry(registry)
        .build()
}

/// An interface with the default codecs and the default interceptors: its media engine has the
/// codecs with the settings that the interceptors ask for, and nothing else, and its interceptors
/// are the default ones, and no other.
pub open spec fn is_default_api(api: webrtc::api::API) -> bool {
    has_interceptor_settings(media_engine_of(api)) && has_default_interceptors(interceptors_of(api))
}

/// The interface that both ends use.
pub fn default_api() -> (api: webrtc::api::API)
    ensures
        is_default_api(api),
{
    let mut engine = new_media_engine();
    register_default_codecs(&mut engine).expect("Default codecs should have registered safely");
    let registry = register_default_interceptors(new_registry(), &mut engine).expect(
        "Default interceptors should have registered safely",
    );
    build_api(engine, registry)
}

} // verus!
