//! What holds of a tunnel: where each end listens, what it asks for, and where that leads.
use crate::payload::{content, rest_is_what_is_missing, Sending};
use crate::rtc::DataChannelInit;
use crate::text::{decimal, decimal_reads_back, decimal_value, digits_stand_for_number};
use crate::tls::{server_name_of, TlsServerConfig};
use crate::tunnel::channel::{
    remapped, Channel, Port, Quality, TCP_BUFFER_SIZE, UDP_PACKET_SIZE,
};
use crate::tunnel::client::{
    init_channels, plan, pump, wait_next, ChannelCounter, ClientConfig, ConfigError, Datagram, Listener, Plan,
    PumpAction, PumpEvent, UdpSessions, WaitAction, WaitEvent,
};
use crate::tunnel::server::{
    last_named, only_offered_names_are_served, relay, AllowedChannels, Destination, RelayAction,
    RelayEvent, ServerConfig,
};
use vstd::prelude::*;

verus! {

/// Every number but zero is that of a port, and a port gives back the number that it was made
/// from.
pub proof fn port_keeps_its_number(number: u16, port: Option<Port>, got: u16)
    requires
        call_ensures(Port::new, (number,), port),
        port is Some ==> call_ensures(Port::get, (&port->Some_0,), got),
    ensures
        port is None <==> number == 0,
        port is Some ==> got == number,
        port is Some ==> port->Some_0@ == number,
{
}

/// Where there is a port to remap to, it is used, and else the port itself.
pub proof fn remap_takes_precedence(port: Port, remap: Option<Port>, number: u16)
    requires
        call_ensures(remapped, (port, remap), number),
    ensures
        remap is Some ==> number == remap->Some_0@,
        remap is None ==> number == port@,
{
}

/// A client listens on the remapped port where there is one, and on the port itself where there is
/// none, for UDP and for TCP; it asks the server for the port itself, and for the quality that is
/// configured. The quality has no part in where it listens.
pub proof fn client_listens_where_it_is_told(
    channel: Channel,
    port: Port,
    remap: Option<Port>,
    quality: Quality,
    plan_of_it: Plan,
)
    requires
        call_ensures(plan, (&channel,), plan_of_it),
        channel == (Channel::UDP { port, remap, quality: Some(quality) }) || channel == (
        Channel::TCP { port, remap, quality: Some(quality) }),
    ensures
        ({
            let listener = if channel is UDP {
                plan_of_it->Udp_0
            } else {
                plan_of_it->Tcp_0
            };
            &&& channel is UDP ==> plan_of_it is Udp
            &&& channel is TCP ==> plan_of_it is Tcp
            &&& remap is Some ==> listener.listen == remap->Some_0@
            &&& remap is None ==> listener.listen == port@
            &&& listener.port == port
            &&& listener.quality == quality
        }),
{
}

/// A port without a quality is complained about under its own number, whatever it is remapped to;
/// a local socket is not served.
pub proof fn client_complains_about_missing_quality(
    channel: Channel,
    port: Port,
    remap: Option<Port>,
    plan_of_it: Plan,
    digits: String,
)
    requires
        call_ensures(plan, (&channel,), plan_of_it),
        call_ensures(decimal, (port@ as u64,), digits),
        channel is LocalSocket || channel == (Channel::UDP { port, remap, quality: None })
            || channel == (Channel::TCP { port, remap, quality: None }),
    ensures
        channel is LocalSocket ==> plan_of_it is Unsupported,
        channel !is LocalSocket ==> plan_of_it is MissingQuality
            && plan_of_it->MissingQuality_0@ == "Missing quality setting for port "@ + digits@,
        decimal_value(digits@) == port@,
{
    decimal_reads_back(port@ as u64, digits);
}

/// What the settings of each quality are: TCP is ordered and sends again, UDP does neither, and
/// the third sends again without an order.
pub proof fn qualities_have_their_settings(quality: Quality, init: DataChannelInit)
    requires
        call_ensures(<DataChannelInit as From<Quality>>::from, (quality,), init),
    ensures
        init.ordered == Some(quality is TCP),
        init.max_retransmits == Some(
            if quality is UDP {
                0u16
            } else {
                65535u16
            },
        ),
        init.max_packet_life_time is None,
        init.protocol is None,
        init.negotiated is None,
{
}

/// The data channel of a connection is labelled with the number of the connection, asks for the
/// number of the port, and has the settings of the quality otherwise.
pub proof fn data_channel_asks_for_port(
    listener: Listener,
    index: u64,
    opened: (String, DataChannelInit),
    settings: DataChannelInit,
)
    requires
        call_ensures(Listener::open, (&listener, index), opened),
        call_ensures(<DataChannelInit as From<Quality>>::from, (listener.quality,), settings),
    ensures
        decimal_value(opened.0@) == index,
        opened.1.protocol is Some,
        decimal_value(opened.1.protocol->Some_0@) == listener.port@,
        opened.1.ordered == settings.ordered,
        opened.1.max_retransmits == settings.max_retransmits,
        opened.1.max_packet_life_time == settings.max_packet_life_time,
        opened.1.negotiated == settings.negotiated,
        forall|label: String|
            call_ensures(decimal, (index,), label) ==> #[trigger] label@ == opened.0@,
        forall|protocol: String|
            call_ensures(decimal, (listener.port@ as u64,), protocol) ==> #[trigger] protocol@
                == opened.1.protocol->Some_0@,
{
    digits_stand_for_number(index as nat);
    digits_stand_for_number(listener.port@ as nat);
}

/// Connections are numbered from zero on, one by one, and from zero again where the numbers run
/// out.
pub proof fn connections_are_numbered(counter: &mut ChannelCounter, index: u64)
    requires
        call_ensures(ChannelCounter::next, (counter,), index),
    ensures
        index == old(counter).count,
        old(counter).count < usize::MAX ==> final(counter).count == old(counter).count + 1,
        old(counter).count == usize::MAX ==> final(counter).count == 0,
        forall|begin: ChannelCounter|
            call_ensures(ChannelCounter::new, (), begin) ==> (#[trigger] begin.count) == 0,
{
}

/// The name under which a channel is offered is the decimal notation of the port that it is
/// remapped to, or else of its own port; that of a local socket is what it is remapped to, or else
/// its address. The quality has no part in it.
pub proof fn channel_goes_by_its_remapped_name(channel: Channel, name: String)
    requires
        call_ensures(Channel::public_name, (&channel,), name),
    ensures
        match channel {
            Channel::UDP { port, remap: Some(other), .. } => decimal_value(name@) == other@,
            Channel::UDP { port, remap: None, .. } => decimal_value(name@) == port@,
            Channel::TCP { port, remap: Some(other), .. } => decimal_value(name@) == other@,
            Channel::TCP { port, remap: None, .. } => decimal_value(name@) == port@,
            Channel::LocalSocket { addr, remap: Some(other), .. } => name@ == other@,
            Channel::LocalSocket { addr, remap: None, .. } => name@ == addr@,
        },
        channel !is LocalSocket ==> forall|digits: String|
            call_ensures(decimal, (decimal_value(name@) as u64,), digits) ==> #[trigger] digits@
                == name@,
{
    match channel {
        Channel::UDP { port, remap: Some(other), .. } => {
            digits_stand_for_number(other@ as nat);
        },
        Channel::UDP { port, remap: None, .. } => {
            digits_stand_for_number(port@ as nat);
        },
        Channel::TCP { port, remap: Some(other), .. } => {
            digits_stand_for_number(other@ as nat);
        },
        Channel::TCP { port, remap: None, .. } => {
            digits_stand_for_number(port@ as nat);
        },
        _ => {},
    }
}

/// A data channel is led to the channel that is offered last under its name: to the UDP port of
/// that number, or to the TCP port of that number, whatever the remap and the quality are. Where
/// nothing is offered under the name, it is refused.
pub proof fn data_channel_leads_to_last_offer(
    channels: Vec<Channel>,
    names: Seq<String>,
    allowed: AllowedChannels,
    protocol: &str,
    r: Destination,
)
    requires
        names.len() == channels@.len(),
        forall|i: int|
            0 <= i < names.len() ==> call_ensures(
                Channel::public_name,
                (&channels@[i],),
                #[trigger] names[i],
            ),
        call_ensures(AllowedChannels::new, (channels,), allowed),
        call_ensures(AllowedChannels::dispatch, (&allowed, protocol), r),
    ensures
        forall|i: int|
            0 <= i < names.len() && (#[trigger] names[i])@ == protocol@ && (forall|j: int|
                i < j < names.len() ==> (#[trigger] names[j])@ != protocol@)
                ==> match channels@[i] {
                Channel::UDP { port, .. } => r == Destination::Udp(port@),
                Channel::TCP { port, .. } => r == Destination::Tcp(port@),
                Channel::LocalSocket { .. } => r == Destination::LocalSocket,
            },
        (forall|i: int| 0 <= i < names.len() ==> (#[trigger] names[i])@ != protocol@) <==> r
            is Refused,
{
    let all = channels@;
    let name = protocol@;
    assert forall|i: int| 0 <= i < names.len() implies (#[trigger] names[i])@ == all[i].name() by {}
    assert(allowed.offered(name) == last_named(all, name));
    last_one_counts(all, name);
    only_offered_names_are_served(all, name);
    assert forall|i: int|
        0 <= i < names.len() && (#[trigger] names[i])@ == name && (forall|j: int|
            i < j < names.len() ==> (#[trigger] names[j])@ != name) implies match all[i] {
        Channel::UDP { port, .. } => r == Destination::Udp(port@),
        Channel::TCP { port, .. } => r == Destination::Tcp(port@),
        Channel::LocalSocket { .. } => r == Destination::LocalSocket,
    } by {
        assert(all[i].name() == name);
        assert forall|j: int| i < j < all.len() implies #[trigger] all[j].name() != name by {
            assert(names[j]@ != name);
        }
    }
    if r is Refused {
        assert forall|i: int| 0 <= i < names.len() implies (#[trigger] names[i])@ != name by {
            assert(all[i].name() != name);
        }
    }
    if forall|i: int| 0 <= i < names.len() ==> (#[trigger] names[i])@ != name {
        assert forall|i: int| 0 <= i < all.len() implies #[trigger] all[i].name() != name by {
            assert(names[i]@ != name);
        }
    }
}

/// The last one of the channels of a name is the one that has no other of that name behind it.
proof fn last_one_counts(channels: Seq<Channel>, name: Seq<char>)
    ensures
        forall|i: int|
            0 <= i < channels.len() && #[trigger] channels[i].name() == name && (forall|j: int|
                i < j < channels.len() ==> #[trigger] channels[j].name() != name)
                ==> last_named(channels, name) == Some(channels[i]),
    decreases channels.len(),
{
    if channels.len() > 0 {
        let front = channels.drop_last();
        last_one_counts(front, name);
        assert forall|i: int|
            0 <= i < channels.len() && #[trigger] channels[i].name() == name && (forall|j: int|
                i < j < channels.len() ==> #[trigger] channels[j].name()
                    != name) implies last_named(channels, name) == Some(
            channels[i],
        ) by {
            if i < front.len() {
                assert(channels[front.len() as int].name() != name);
                assert(front[i].name() == name);
                assert forall|j: int| i < j < front.len() implies #[trigger] front[j].name()
                    != name by {
                    assert(channels[j].name() != name);
                }
            }
        }
    }
}

/// The two ends of a tunnel meet: where the port that a client asks for is the number under which
/// a server offers a port, and nothing behind that is offered under the same name, the data channel
/// comes out at that port of the server, over UDP or TCP as the server says, whatever the client
/// listens on and whatever the qualities are.
pub proof fn ends_of_tunnel_meet(
    listener: Listener,
    index: u64,
    opened: (String, DataChannelInit),
    channels: Vec<Channel>,
    names: Seq<String>,
    allowed: AllowedChannels,
    protocol: &str,
    r: Destination,
    i: int,
    number: u16,
)
    requires
        call_ensures(Listener::open, (&listener, index), opened),
        opened.1.protocol is Some,
        protocol@ == opened.1.protocol->Some_0@,
        names.len() == channels@.len(),
        forall|j: int|
            0 <= j < names.len() ==> call_ensures(
                Channel::public_name,
                (&channels@[j],),
                #[trigger] names[j],
            ),
        call_ensures(AllowedChannels::new, (channels,), allowed),
        call_ensures(AllowedChannels::dispatch, (&allowed, protocol), r),
        0 <= i < channels@.len(),
        channels@[i] matches Channel::UDP { port, remap, .. } ==> call_ensures(
            remapped,
            (port, remap),
            number,
        ),
        channels@[i] matches Channel::TCP { port, remap, .. } ==> call_ensures(
            remapped,
            (port, remap),
            number,
        ),
        number == listener.port@,
        forall|j: int| i < j < names.len() ==> (#[trigger] names[j])@ != protocol@,
    ensures
        channels@[i] matches Channel::UDP { port, .. } ==> r == Destination::Udp(port@),
        channels@[i] matches Channel::TCP { port, .. } ==> r == Destination::Tcp(port@),
{
    data_channel_leads_to_last_offer(channels, names, allowed, protocol, r);
    assert(call_ensures(Channel::public_name, (&channels@[i],), names[i]));
    if channels@[i] !is LocalSocket {
        assert(names[i]@ == protocol@);
    }
}

/// A new table knows no peer: every datagram opens a session, with its bytes.
pub proof fn first_datagram_opens_session(
    sessions: UdpSessions,
    peer: (u32, u16),
    buf: &[u8],
    n: usize,
    datagram: Datagram,
)
    requires
        call_ensures(UdpSessions::new, (), sessions),
        n <= buf@.len(),
        call_ensures(UdpSessions::route, (&sessions, peer, buf, n), datagram),
    ensures
        call_requires(UdpSessions::route, (&sessions, peer, buf, n)),
        datagram is Open,
        content(datagram->Open_0) == buf@.take(n as int),
{
}

/// Whichever way a datagram goes, it goes with all of its bytes and no others.
pub proof fn datagrams_stay_whole(
    sessions: UdpSessions,
    peer: (u32, u16),
    buf: &[u8],
    n: usize,
    datagram: Datagram,
)
    requires
        n <= buf@.len(),
        call_ensures(UdpSessions::route, (&sessions, peer, buf, n), datagram),
    ensures
        match datagram {
            Datagram::PassOn(_, payload) => content(payload) == buf@.take(n as int),
            Datagram::Open(payload) => content(payload) == buf@.take(n as int),
        },
{
}

/// Once a session was opened for a peer, its datagrams go to that session, with all of their
/// bytes, and those of other peers go where they went before. No peer has had that session before.
pub proof fn opened_session_gets_datagrams(
    sessions: &mut UdpSessions,
    peer: (u32, u16),
    session: u64,
    other: (u32, u16),
    buf: &[u8],
    n: usize,
    before: Datagram,
    after: Datagram,
)
    requires
        old(sessions)@.wf(),
        old(sessions).count < u64::MAX,
        n <= buf@.len(),
        call_ensures(UdpSessions::opened, (sessions, peer), session),
        call_ensures(UdpSessions::route, (&*old(sessions), other, buf, n), before),
        call_ensures(UdpSessions::route, (&*final(sessions), other, buf, n), after),
    ensures
        call_requires(UdpSessions::opened, (sessions, peer)),
        final(sessions)@.wf(),
        final(sessions).count == old(sessions).count + 1,
        before is PassOn ==> before->PassOn_0 != session,
        other == peer ==> after is PassOn && after->PassOn_0 == session && content(
            after->PassOn_1,
        ) == buf@.take(n as int),
        other != peer ==> (before is PassOn <==> after is PassOn),
        other != peer && before is PassOn ==> before->PassOn_0 == after->PassOn_0,
{
}

/// A session is over for its peer once a datagram could not be passed on to it, and only then;
/// those of other peers go on.
pub proof fn session_ends_when_it_takes_no_more(
    sessions: &mut UdpSessions,
    peer: (u32, u16),
    passed: bool,
    other: (u32, u16),
    buf: &[u8],
    n: usize,
    before: Datagram,
    after: Datagram,
)
    requires
        old(sessions)@.wf(),
        n <= buf@.len(),
        call_ensures(UdpSessions::passed_on, (sessions, peer, passed), ()),
        call_ensures(UdpSessions::route, (&*old(sessions), other, buf, n), before),
        call_ensures(UdpSessions::route, (&*final(sessions), other, buf, n), after),
    ensures
        call_requires(UdpSessions::passed_on, (sessions, peer, passed)),
        final(sessions)@.wf(),
        final(sessions).count == old(sessions).count,
        other == peer && !passed ==> after is Open,
        other != peer || passed ==> (before is PassOn <==> after is PassOn),
        (other != peer || passed) && before is PassOn ==> before->PassOn_0 == after->PassOn_0,
{
}

/// What comes from one side goes to the other as it is, and from its first byte on; the end of
/// either side ends the connection.
pub proof fn client_passes_payloads_on(event: PumpEvent, action: PumpAction)
    requires
        call_ensures(pump, (event,), action),
    ensures
        match event {
            PumpEvent::Local(Some(payload)) => action is ToChannel && action->ToChannel_0.payload
                == payload && action->ToChannel_0.sent == 0,
            PumpEvent::Remote(Some(payload)) => action == PumpAction::ToSocket(payload),
            PumpEvent::Local(None) => action is Stop,
            PumpEvent::Remote(None) => action is Stop,
        },
{
}

/// A payload of this end is sent over the data channel whole, whatever its length: the first rest
/// is all of it, unless it is empty.
pub proof fn client_sends_whole_payload(
    payload: bytes::Bytes,
    action: PumpAction,
    rest: Option<bytes::Bytes>,
)
    requires
        call_ensures(pump, (PumpEvent::Local(Some(payload)),), action),
        action is ToChannel,
        call_ensures(Sending::rest, (&action->ToChannel_0,), rest),
    ensures
        rest is None <==> content(payload).len() == 0,
        rest is Some ==> content(rest->Some_0) == content(payload),
{
    rest_is_what_is_missing(action->ToChannel_0, rest);
    if rest is Some {
        assert(content(payload).take(0) + content(rest->Some_0) =~= content(rest->Some_0));
    }
}

/// What is read from the socket goes to the data channel with all of its bytes, a message goes to
/// the socket from its first byte on, and what fails is told apart.
pub proof fn server_passes_payloads_on<E>(buf: &[u8], event: RelayEvent<E>, action: RelayAction<E>)
    requires
        event matches RelayEvent::Read(Ok(n)) ==> n <= buf@.len(),
        call_ensures(relay::<E>, (buf, event), action),
    ensures
        call_requires(relay::<E>, (buf, event)),
        match event {
            RelayEvent::Read(Ok(n)) => action is ToChannel && content(action->ToChannel_0)
                == buf@.take(n as int),
            RelayEvent::Read(Err(e)) => action == RelayAction::SocketFailed(e),
            RelayEvent::Message(Some(payload)) => action is ToSocket && action->ToSocket_0.payload
                == payload && action->ToSocket_0.sent == 0,
            RelayEvent::Message(None) => action is ChannelGone,
        },
{
}

/// A message is sent to the socket whole, whatever its length: the first rest is all of it, unless
/// it is empty.
pub proof fn server_sends_whole_message<E>(
    buf: &[u8],
    payload: bytes::Bytes,
    action: RelayAction<E>,
    rest: Option<bytes::Bytes>,
)
    requires
        call_ensures(relay::<E>, (buf, RelayEvent::Message(Some(payload))), action),
        action is ToSocket,
        call_ensures(Sending::rest, (&action->ToSocket_0,), rest),
    ensures
        rest is None <==> content(payload).len() == 0,
        rest is Some ==> content(rest->Some_0) == content(payload),
{
    rest_is_what_is_missing(action->ToSocket_0, rest);
    if rest is Some {
        assert(content(payload).take(0) + content(rest->Some_0) =~= content(rest->Some_0));
    }
}

/// A client shuts down in order when the user asks for it or a task ends well; it ends with the
/// error of a task that fails, or with the reason for which one did not come to its end; and where
/// it cannot be told whether the user asks, it reports that and waits on.
pub proof fn client_ends_as_its_tasks_do<E, J>(event: WaitEvent<E, J>, action: WaitAction<E, J>)
    requires
        call_ensures(wait_next::<E, J>, (event,), action),
    ensures
        action is ShutDown <==> (event matches WaitEvent::CtrlC(Ok(_)) || (
        event matches WaitEvent::TaskEnded(Ok(Ok(_))))),
        event matches WaitEvent::CtrlC(Err(e)) ==> action == WaitAction::<E, J>::WaitForTasks(e),
        event matches WaitEvent::TaskEnded(Ok(Err(e))) ==> action == WaitAction::<
            E,
            J,
        >::FailWithTask(e),
        event matches WaitEvent::TaskEnded(Err(j)) ==> action == WaitAction::<E, J>::FailWithJoin(
            j,
        ),
{
}

/// A client starts exactly with channels; and with TLS exactly where it is given the name of a
/// server that is one, and that name is the one it connects under.
pub proof fn client_starts_with_valid_configuration(
    config: ClientConfig,
    channels: Result<(), ConfigError>,
    domain: Result<Option<tokio_rustls::rustls::ServerName>, ConfigError>,
)
    requires
        call_ensures(ClientConfig::check_channels, (&config,), channels),
        call_ensures(ClientConfig::tls_domain, (&config,), domain),
    ensures
        channels is Ok <==> config.channels@.len() > 0,
        channels is Err ==> channels->Err_0 is NoChannels,
        !config.use_tls <==> domain is Ok && domain->Ok_0 is None,
        config.use_tls && config.domain_name is None ==> domain is Err && domain->Err_0
            is MissingDomainName,
        config.use_tls && config.domain_name is Some ==> match server_name_of(
            config.domain_name->Some_0@,
        ) {
            Ok(name) => domain is Ok && domain->Ok_0 == Some(name),
            Err(e) => domain is Err && domain->Err_0 == ConfigError::InvalidDomainName(e),
        },
{
}

/// What a client says about its configuration.
pub proof fn configuration_errors_in_words(error: ConfigError, cause: &str, text: String)
    requires
        call_ensures(ConfigError::message, (&error, cause), text),
    ensures
        error is NoChannels ==> text@ == "No channels provided"@,
        error is MissingDomainName ==> text@ == "Missing domain name"@,
        error is InvalidDomainName ==> text@ == cause@,
{
}

/// A server offers exactly the channels that it is configured with, and uses TLS exactly where a
/// root certificate is named, with the settings that stand in its configuration.
pub proof fn server_starts_with_its_configuration(
    config: ServerConfig,
    parts: (Vec<Channel>, Option<TlsServerConfig>),
)
    requires
        call_ensures(ServerConfig::into_parts, (config,), parts),
    ensures
        parts.0 == config.channels,
        parts.1 is Some <==> config.root_cert_chain_path@.len() > 0,
        parts.1 is Some ==> {
            let tls = parts.1->Some_0;
            &&& tls.root_cert_chain_path == config.root_cert_chain_path
            &&& tls.parent_key_path == config.parent_key_path
            &&& tls.subject_alt_names == config.subject_alt_names
            &&& tls.create_if_missing == config.create_if_missing
        },
{
}

/// The one channel that a client asks for when it upgrades its connection is labelled `init`, and
/// is ordered and sends again.
pub proof fn client_asks_for_init_channel(channels: Vec<(String, DataChannelInit)>)
    requires
        call_ensures(init_channels, (), channels),
    ensures
        channels@.len() == 1,
        channels@[0].0@ == "init"@,
        channels@[0].1.ordered == Some(true),
        channels@[0].1.max_retransmits == Some(65535u16),
        channels@[0].1.max_packet_life_time is None,
        channels@[0].1.protocol is None,
        channels@[0].1.negotiated is None,
{
}

/// A datagram of 512 bytes fits the buffer for datagrams, and one read of a TCP connection takes in
/// up to 2048 bytes.
pub proof fn buffers_have_their_sizes()
    ensures
        UDP_PACKET_SIZE == 512,
        TCP_BUFFER_SIZE == 2048,
{
}

} // verus!
