//! The client's side of an upgrade: from a transport to a peer connection.
//!
//! [`ClientUpgrade`] decides what happens next; its caller does it and reports how it went.
use crate::ice::{IceCandidateInit, IceExchange};
use crate::rtc::{default_api, default_configuration, DataChannelInit, RTCMessage, RtcConfiguration};
use crate::tls::TlsInitError;
use crate::transport::{RecvError, StreamTransport};
use vstd::prelude::*;
use vstd::string::StringExecFns;

verus! {

/// Why an upgrade failed.
#[derive(Debug)]
pub enum ClientError<DE> {
    WebRTCError(webrtc::Error),
    IOError(std::io::Error),
    DeserializeError(DE),
    UnexpectedMessage,
}

impl<DE> vstd::std_specs::convert::FromSpecImpl<webrtc::Error> for ClientError<DE> {
    open spec fn obeys_from_spec() -> bool {
        true
    }

    open spec fn from_spec(value: webrtc::Error) -> Self {
        ClientError::WebRTCError(value)
    }
}

impl<DE> From<webrtc::Error> for ClientError<DE> {
    fn from(value: webrtc::Error) -> (error: Self) {
        ClientError::WebRTCError(value)
    }
}

impl<DE> vstd::std_specs::convert::FromSpecImpl<std::io::Error> for ClientError<DE> {
    open spec fn obeys_from_spec() -> bool {
        true
    }

    open spec fn from_spec(value: std::io::Error) -> Self {
        ClientError::IOError(value)
    }
}

impl<DE> From<std::io::Error> for ClientError<DE> {
    fn from(value: std::io::Error) -> (error: Self) {
        ClientError::IOError(value)
    }
}

impl<DE> vstd::std_specs::convert::FromSpecImpl<RecvError<DE>> for ClientError<DE> {
    open spec fn obeys_from_spec() -> bool {
        true
    }

    open spec fn from_spec(value: RecvError<DE>) -> Self {
        match value {
            RecvError::DeserializeError(e) => ClientError::DeserializeError(e),
            RecvError::IOError(e) => ClientError::IOError(e),
        }
    }
}

impl<DE> From<RecvError<DE>> for ClientError<DE> {
    fn from(value: RecvError<DE>) -> (error: Self) {
        match value {
            RecvError::DeserializeError(e) => ClientError::DeserializeError(e),
            RecvError::IOError(e) => ClientError::IOError(e),
        }
    }
}

impl<DE> ClientError<DE> {
    /// The text of the error, where `cause` is the text of the error that it carries, if any.
    pub fn message(&self, cause: &str) -> (text: String)
        ensures
            text@ == (match self {
                ClientError::UnexpectedMessage => "Unexpected WebRTC SDP type"@,
                _ => cause@,
            }),
    {
        match self {
            ClientError::UnexpectedMessage => "Unexpected WebRTC SDP type".to_owned(),
            _ => cause.to_owned(),
        }
    }
}

/// A client that is connected over the transport `C`.
pub struct UpgradeWebRTCClient<C> {
    pub client: C,
    pub api: webrtc::api::API,
    pub config: RtcConfiguration,
}

impl<C> UpgradeWebRTCClient<C> {
    /// A client on the given transport, with the default interface and the default settings.
    pub fn new(client: C) -> (r: Self)
        ensures
            r.client == client,
            crate::rtc::is_default_api(r.api),
            crate::rtc::is_default_configuration(r.config),
    {
        UpgradeWebRTCClient { client, api: default_api(), config: default_configuration() }
    }

    /// The client in diagnostic output, where `client` is what its transport is shown as. The
    /// interface and the settings are not shown.
    pub fn debug_text(&self, client: &str) -> (text: String)
        ensures
            text@ == "UpgradeWebRTCClient { client: "@ + client@ + " }"@,
    {
        "UpgradeWebRTCClient { client: ".to_owned().concat(client).concat(" }")
    }
}

impl<S> UpgradeWebRTCClient<StreamTransport<S>> {
    /// Takes the stream out, for TLS to be put on it.
    pub fn into_stream(self) -> (r: (S, UpgradeWebRTCClient<()>))
        ensures
            r.0 == self.client.stream,
            r.1.api == self.api,
            r.1.config == self.config,
    {
        let UpgradeWebRTCClient { client, api, config } = self;
        (client.stream, UpgradeWebRTCClient { client: (), api, config })
    }
}

impl UpgradeWebRTCClient<()> {
    /// The client on the stream that TLS was put on, from which nothing has been read yet; the
    /// rest is kept. Where the connection failed, so does this.
    pub fn add_tls<T>(self, connected: Result<T, std::io::Error>) -> (r: Result<
        UpgradeWebRTCClient<StreamTransport<T>>,
        std::io::Error,
    >)
        ensures
            match connected {
                Ok(stream) => r matches Ok(client) && client.client.stream == stream
                    && client.client.recv_buffer@ == Seq::<u8>::empty() && client.api == self.api
                    && client.config == self.config,
                Err(e) => r == Err::<UpgradeWebRTCClient<StreamTransport<T>>, _>(e),
            },
    {
        match connected {
            Ok(stream) => Ok(
                UpgradeWebRTCClient {
                    client: StreamTransport::from(stream),
                    api: self.api,
                    config: self.config,
                },
            ),
            Err(e) => Err(e),
        }
    }

    /// The same, where the connector was set up for the purpose.
    pub fn add_tls_from_config<T>(self, connected: Result<T, std::io::Error>) -> (r: Result<
        UpgradeWebRTCClient<StreamTransport<T>>,
        TlsInitError,
    >)
        ensures
            match connected {
                Ok(stream) => r matches Ok(client) && client.client.stream == stream
                    && client.client.recv_buffer@ == Seq::<u8>::empty() && client.api == self.api
                    && client.config == self.config,
                Err(e) => r == Err::<UpgradeWebRTCClient<StreamTransport<T>>, _>(
                    TlsInitError::IOError(e),
                ),
            },
    {
        match self.add_tls(connected) {
            Ok(client) => Ok(client),
            Err(e) => Err(TlsInitError::from(e)),
        }
    }
}

/// The outcome of an upgrade: the connection, and the channels that were asked for, in that
/// order, each with its label.
pub struct PeerAndChannels<P, Ch> {
    pub peer: P,
    pub channels: Vec<(String, Ch)>,
}

impl<P, Ch> PeerAndChannels<P, Ch> {
    /// Takes the last channel out.
    pub fn take_last(&mut self) -> (channel: Option<(String, Ch)>)
        ensures
            final(self).peer == old(self).peer,
            old(self).channels@.len() == 0 ==> channel is None,
            old(self).channels@.len() == 0 ==> final(self).channels@ == old(self).channels@,
            old(self).channels@.len() > 0 ==> channel == Some(old(self).channels@.last()),
            old(self).channels@.len() > 0 ==> final(self).channels@
                == old(self).channels@.drop_last(),
    {
        self.channels.pop()
    }
}

/// The label of the channel that every client opens first.
pub const COMMAND_CHANNEL: &'static str = "command";

/// What the caller is to do next.
///
/// `D` is a session description, `C` a candidate of this end, `E` what can go wrong when a
/// message is decoded.
#[derive(Debug)]
pub enum ClientAction<D, C, E> {
    /// Open a peer connection; answer with [`ClientEvent::PeerOpened`].
    OpenPeer,
    /// Open the channel [`COMMAND_CHANNEL`] with default settings; answer with
    /// [`ClientEvent::ChannelOpened`].
    OpenCommandChannel,
    /// Open a channel; answer with [`ClientEvent::ChannelOpened`].
    OpenChannel(String, DataChannelInit),
    /// Create an offer; answer with [`ClientEvent::OfferCreated`].
    CreateOffer,
    /// Send [`ClientUpgrade::offer`]; answer with [`ClientEvent::Sent`].
    SendOffer,
    /// Set the local description; answer with [`ClientEvent::Applied`].
    SetLocal(D),
    /// Receive a message; answer with [`ClientEvent::Message`].
    Receive,
    /// Set the remote description; answer with [`ClientEvent::Applied`].
    SetRemote(D),
    /// Add a candidate of the other end; answer with [`ClientEvent::Applied`].
    AddCandidate(IceCandidateInit),
    /// Start to collect the candidates of this end; answer with [`ClientEvent::Watching`].
    WatchCandidates,
    /// Wait for whatever comes first: a candidate of this end, or a message; answer with
    /// [`ClientEvent::LocalCandidate`] or [`ClientEvent::RemoteMessage`].
    Exchange,
    /// Send a candidate of this end, or the end mark; answer with [`ClientEvent::Sent`].
    SendCandidate(Option<C>),
    /// The upgrade is complete.
    Finish,
    /// The upgrade has failed.
    Fail(ClientError<E>),
}

/// How the last action went.
#[derive(Debug)]
pub enum ClientEvent<D, C, Ch, E> {
    PeerOpened(Result<(), webrtc::Error>),
    ChannelOpened(Result<Ch, webrtc::Error>),
    OfferCreated(Result<D, webrtc::Error>),
    Sent(Result<(), std::io::Error>),
    Applied(Result<(), webrtc::Error>),
    Message(Result<RTCMessage<D>, RecvError<E>>),
    Watching,
    LocalCandidate(Option<C>),
    RemoteMessage(Result<Option<RTCMessage<D>>, RecvError<E>>),
}

/// Where an upgrade stands.
#[derive(Debug)]
pub enum ClientPhase<D> {
    OpeningPeer,
    OpeningCommandChannel,
    /// A channel of this label is being opened.
    OpeningChannel(String),
    CreatingOffer,
    SendingOffer(D),
    SettingLocal,
    AwaitingAnswer,
    SettingRemote,
    AddingEarly,
    StartingWatch,
    Exchanging,
    /// A candidate is being sent, or the end mark, if `true`.
    SendingCandidate(bool),
    AddingCandidate,
    Done,
    Failed,
}

/// An upgrade in progress.
#[derive(Debug)]
pub struct ClientUpgrade<D, Ch> {
    pub phase: ClientPhase<D>,
    /// The channels that are still to be opened.
    pub requested: Vec<(String, DataChannelInit)>,
    /// The channels that are open.
    pub channels: Vec<(String, Ch)>,
    /// The candidates that arrived ahead of the answer and are not added yet.
    pub early: Vec<IceCandidateInit>,
    pub exchange: IceExchange,
}

/// What a [`ClientUpgrade`] holds.
#[verifier::ext_equal]
pub struct ClientView<D, Ch> {
    pub phase: ClientPhase<D>,
    pub requested: Seq<(String, DataChannelInit)>,
    pub channels: Seq<(String, Ch)>,
    pub early: Seq<IceCandidateInit>,
    pub exchange: IceExchange,
}

impl<D, Ch> View for ClientUpgrade<D, Ch> {
    type V = ClientView<D, Ch>;

    open spec fn view(&self) -> ClientView<D, Ch> {
        ClientView {
            phase: self.phase,
            requested: self.requested@,
            channels: self.channels@,
            early: self.early@,
            exchange: self.exchange,
        }
    }
}

impl<D, Ch> ClientView<D, Ch> {
    /// An upgrade that has not begun.
    pub open spec fn begin(requested: Seq<(String, DataChannelInit)>) -> Self {
        ClientView {
            phase: ClientPhase::OpeningPeer,
            requested,
            channels: seq![],
            early: seq![],
            exchange: IceExchange::begin(),
        }
    }

    /// The same upgrade in another phase.
    pub open spec fn in_phase(self, phase: ClientPhase<D>) -> Self {
        ClientView { phase, ..self }
    }

    /// The event answers the action that the upgrade waits for.
    pub open spec fn awaits<C, E>(self, event: ClientEvent<D, C, Ch, E>) -> bool {
        match self.phase {
            ClientPhase::OpeningPeer => event is PeerOpened,
            ClientPhase::OpeningCommandChannel => event is ChannelOpened,
            ClientPhase::OpeningChannel(_) => event is ChannelOpened,
            ClientPhase::CreatingOffer => event is OfferCreated,
            ClientPhase::SendingOffer(_) => event is Sent,
            ClientPhase::SettingLocal => event is Applied,
            ClientPhase::AwaitingAnswer => event is Message,
            ClientPhase::SettingRemote => event is Applied,
            ClientPhase::AddingEarly => event is Applied,
            ClientPhase::StartingWatch => event is Watching,
            ClientPhase::Exchanging => event is LocalCandidate || event is RemoteMessage,
            ClientPhase::SendingCandidate(_) => event is Sent,
            ClientPhase::AddingCandidate => event is Applied,
            ClientPhase::Done => false,
            ClientPhase::Failed => false,
        }
    }

    /// Ends the upgrade with an error.
    pub open spec fn fail<C, E>(self, error: ClientError<E>) -> (Self, ClientAction<D, C, E>) {
        (self.in_phase(ClientPhase::Failed), ClientAction::Fail(error))
    }

    /// Opens the next channel, or goes on to the offer when all are open.
    pub open spec fn open_next<C, E>(self) -> (Self, ClientAction<D, C, E>) {
        if self.requested.len() == 0 {
            (self.in_phase(ClientPhase::CreatingOffer), ClientAction::CreateOffer)
        } else {
            let (label, init) = self.requested[0];
            (
                ClientView {
                    phase: ClientPhase::OpeningChannel(label),
                    requested: self.requested.drop_first(),
                    ..self
                },
                ClientAction::OpenChannel(label, init),
            )
        }
    }

    /// Adds the next early candidate, or goes on to the exchange when all are added.
    pub open spec fn add_next<C, E>(self) -> (Self, ClientAction<D, C, E>) {
        if self.early.len() == 0 {
            (self.in_phase(ClientPhase::StartingWatch), ClientAction::WatchCandidates)
        } else {
            (
                ClientView {
                    phase: ClientPhase::AddingEarly,
                    early: self.early.drop_first(),
                    ..self
                },
                ClientAction::AddCandidate(self.early[0]),
            )
        }
    }

    /// Goes on with the exchange as it stands, or finishes when it is over.
    pub open spec fn go_on<C, E>(self, exchange: IceExchange) -> (Self, ClientAction<D, C, E>) {
        if exchange.over() {
            (
                ClientView { phase: ClientPhase::Done, exchange, ..self },
                ClientAction::Finish,
            )
        } else {
            (
                ClientView { phase: ClientPhase::Exchanging, exchange, ..self },
                ClientAction::Exchange,
            )
        }
    }

    /// What follows on an awaited event.
    pub open spec fn step<C, E>(self, event: ClientEvent<D, C, Ch, E>) -> (
        Self,
        ClientAction<D, C, E>,
    ) {
        match event {
            ClientEvent::PeerOpened(Err(e)) => self.fail(ClientError::WebRTCError(e)),
            ClientEvent::PeerOpened(Ok(_)) => (
                self.in_phase(ClientPhase::OpeningCommandChannel),
                ClientAction::OpenCommandChannel,
            ),
            ClientEvent::ChannelOpened(Err(e)) => self.fail(ClientError::WebRTCError(e)),
            ClientEvent::ChannelOpened(Ok(channel)) => match self.phase {
                ClientPhase::OpeningChannel(label) => ClientView {
                    channels: self.channels.push((label, channel)),
                    ..self
                }.open_next(),
                _ => self.open_next(),
            },
            ClientEvent::OfferCreated(Err(e)) => self.fail(ClientError::WebRTCError(e)),
            ClientEvent::OfferCreated(Ok(offer)) => (
                self.in_phase(ClientPhase::SendingOffer(offer)),
                ClientAction::SendOffer,
            ),
            ClientEvent::Sent(Err(e)) => self.fail(ClientError::IOError(e)),
            ClientEvent::Sent(Ok(_)) => match self.phase {
                ClientPhase::SendingOffer(offer) => (
                    self.in_phase(ClientPhase::SettingLocal),
                    ClientAction::SetLocal(offer),
                ),
                ClientPhase::SendingCandidate(last) => self.go_on(self.exchange.sent(last)),
                _ => arbitrary(),
            },
            ClientEvent::Applied(Err(e)) => self.fail(ClientError::WebRTCError(e)),
            ClientEvent::Applied(Ok(_)) => match self.phase {
                ClientPhase::SettingLocal => (
                    self.in_phase(ClientPhase::AwaitingAnswer),
                    ClientAction::Receive,
                ),
                ClientPhase::AddingCandidate => self.go_on(self.exchange),
                _ => self.add_next(),
            },
            ClientEvent::Message(Err(e)) => self.fail(
                <ClientError<E> as vstd::std_specs::convert::FromSpec<RecvError<E>>>::from_spec(e),
            ),
            ClientEvent::Message(Ok(RTCMessage::SDPAnswer(answer))) => (
                self.in_phase(ClientPhase::SettingRemote),
                ClientAction::SetRemote(answer),
            ),
            ClientEvent::Message(Ok(RTCMessage::ICE(candidate))) => (
                ClientView { early: self.early.push(candidate), ..self },
                ClientAction::Receive,
            ),
            ClientEvent::Watching => (
                self.in_phase(ClientPhase::Exchanging),
                ClientAction::Exchange,
            ),
            ClientEvent::LocalCandidate(candidate) => (
                self.in_phase(ClientPhase::SendingCandidate(candidate is None)),
                ClientAction::SendCandidate(candidate),
            ),
            ClientEvent::RemoteMessage(Err(e)) => self.fail(
                <ClientError<E> as vstd::std_specs::convert::FromSpec<RecvError<E>>>::from_spec(e),
            ),
            ClientEvent::RemoteMessage(Ok(Some(RTCMessage::SDPAnswer(_)))) => self.fail(
                ClientError::UnexpectedMessage,
            ),
            ClientEvent::RemoteMessage(Ok(Some(RTCMessage::ICE(candidate)))) => (
                self.in_phase(ClientPhase::AddingCandidate),
                ClientAction::AddCandidate(candidate),
            ),
            ClientEvent::RemoteMessage(Ok(None)) => self.go_on(self.exchange.received(true)),
        }
    }
}

impl<D, Ch> ClientUpgrade<D, Ch> {
    /// An upgrade that opens the given channels. The first action is
    /// [`ClientAction::OpenPeer`].
    pub fn start<C, E>(requested: Vec<(String, DataChannelInit)>) -> (r: (
        Self,
        ClientAction<D, C, E>,
    ))
        ensures
            r.0@ == ClientView::<D, Ch>::begin(requested@),
            r.1 == ClientAction::<D, C, E>::OpenPeer,
    {
        let upgrade = ClientUpgrade {
            phase: ClientPhase::OpeningPeer,
            requested,
            channels: Vec::new(),
            early: Vec::new(),
            exchange: IceExchange::new(),
        };
        (upgrade, ClientAction::OpenPeer)
    }

    /// The offer that is being sent.
    pub fn offer(&self) -> (r: Option<&D>)
        ensures
            match self@.phase {
                ClientPhase::SendingOffer(offer) => r == Some(&offer),
                _ => r is None,
            },
    {
        match &self.phase {
            ClientPhase::SendingOffer(offer) => Some(offer),
            _ => None,
        }
    }

    /// The channels that are open, with their labels.
    pub fn into_channels(self) -> (channels: Vec<(String, Ch)>)
        ensures
            channels@ == self@.channels,
    {
        self.channels
    }

    fn fail<C, E>(self, error: ClientError<E>) -> (r: (Self, ClientAction<D, C, E>))
        ensures
            (r.0@, r.1) == self@.fail::<C, E>(error),
    {
        let upgrade = ClientUpgrade { phase: ClientPhase::Failed, ..self };
        (upgrade, ClientAction::Fail(error))
    }

    fn open_next<C, E>(self) -> (r: (Self, ClientAction<D, C, E>))
        ensures
            (r.0@, r.1) == self@.open_next::<C, E>(),
    {
        let mut upgrade = self;
        if upgrade.requested.len() == 0 {
            upgrade.phase = ClientPhase::CreatingOffer;
            (upgrade, ClientAction::CreateOffer)
        } else {
            let (label, init) = upgrade.requested.remove(0);
            assert(upgrade.requested@ =~= self.requested@.drop_first());
            upgrade.phase = ClientPhase::OpeningChannel(label.clone());
            (upgrade, ClientAction::OpenChannel(label, init))
        }
    }

    fn add_next<C, E>(self) -> (r: (Self, ClientAction<D, C, E>))
        ensures
            (r.0@, r.1) == self@.add_next::<C, E>(),
    {
        let mut upgrade = self;
        if upgrade.early.len() == 0 {
            upgrade.phase = ClientPhase::StartingWatch;
            (upgrade, ClientAction::WatchCandidates)
        } else {
            let candidate = upgrade.early.remove(0);
            assert(upgrade.early@ =~= self.early@.drop_first());
            upgrade.phase = ClientPhase::AddingEarly;
            (upgrade, ClientAction::AddCandidate(candidate))
        }
    }

    fn go_on<C, E>(self, exchange: IceExchange) -> (r: (Self, ClientAction<D, C, E>))
        ensures
            (r.0@, r.1) == self@.go_on::<C, E>(exchange),
    {
        if exchange.is_over() {
            (ClientUpgrade { phase: ClientPhase::Done, exchange, ..self }, ClientAction::Finish)
        } else {
            (
                ClientUpgrade { phase: ClientPhase::Exchanging, exchange, ..self },
                ClientAction::Exchange,
            )
        }
    }

    /// Takes in how the last action went, and decides on the next one.
    pub fn step<C, E>(self, event: ClientEvent<D, C, Ch, E>) -> (r: (Self, ClientAction<D, C, E>))
        requires
            self@.awaits(event),
        ensures
            (r.0@, r.1) == self@.step(event),
    {
        match event {
            ClientEvent::PeerOpened(Err(e)) => self.fail(ClientError::from(e)),
            ClientEvent::PeerOpened(Ok(_)) => (
                ClientUpgrade { phase: ClientPhase::OpeningCommandChannel, ..self },
                ClientAction::OpenCommandChannel,
            ),
            ClientEvent::ChannelOpened(Err(e)) => self.fail(ClientError::from(e)),
            ClientEvent::ChannelOpened(Ok(channel)) => {
                let mut upgrade = self;
                let phase = upgrade.phase;
                upgrade.phase = ClientPhase::CreatingOffer;
                if let ClientPhase::OpeningChannel(label) = phase {
                    upgrade.channels.push((label, channel));
                }
                upgrade.open_next()
            },
            ClientEvent::OfferCreated(Err(e)) => self.fail(ClientError::from(e)),
            ClientEvent::OfferCreated(Ok(offer)) => (
                ClientUpgrade { phase: ClientPhase::SendingOffer(offer), ..self },
                ClientAction::SendOffer,
            ),
            ClientEvent::Sent(Err(e)) => self.fail(ClientError::from(e)),
            ClientEvent::Sent(Ok(_)) => {
                let mut upgrade = self;
                let phase = upgrade.phase;
                upgrade.phase = ClientPhase::SettingLocal;
                match phase {
                    ClientPhase::SendingOffer(offer) => (upgrade, ClientAction::SetLocal(offer)),
                    ClientPhase::SendingCandidate(last) => {
                        let exchange = upgrade.exchange.after_sending(last);
                        upgrade.go_on(exchange)
                    },
                    _ => {
                        assert(false);
                        (upgrade, ClientAction::Exchange)
                    },
                }
            },
            ClientEvent::Applied(Err(e)) => self.fail(ClientError::from(e)),
            ClientEvent::Applied(Ok(_)) => match self.phase {
                ClientPhase::SettingLocal => (
                    ClientUpgrade { phase: ClientPhase::AwaitingAnswer, ..self },
                    ClientAction::Receive,
                ),
                ClientPhase::AddingCandidate => {
                    let exchange = self.exchange;
                    self.go_on(exchange)
                },
                _ => self.add_next(),
            },
            ClientEvent::Message(Err(e)) => self.fail(ClientError::from(e)),
            ClientEvent::Message(Ok(RTCMessage::SDPAnswer(answer))) => (
                ClientUpgrade { phase: ClientPhase::SettingRemote, ..self },
                ClientAction::SetRemote(answer),
            ),
            ClientEvent::Message(Ok(RTCMessage::ICE(candidate))) => {
                let mut upgrade = self;
                upgrade.early.push(candidate);
                (upgrade, ClientAction::Receive)
            },
            ClientEvent::Watching => (
                ClientUpgrade { phase: ClientPhase::Exchanging, ..self },
                ClientAction::Exchange,
            ),
            ClientEvent::LocalCandidate(candidate) => {
                let last = candidate.is_none();
                (
                    ClientUpgrade { phase: ClientPhase::SendingCandidate(last), ..self },
                    ClientAction::SendCandidate(candidate),
                )
            },
            ClientEvent::RemoteMessage(Err(e)) => self.fail(ClientError::from(e)),
            ClientEvent::RemoteMessage(Ok(Some(RTCMessage::SDPAnswer(_)))) => self.fail(
                ClientError::UnexpectedMessage,
            ),
            ClientEvent::RemoteMessage(Ok(Some(RTCMessage::ICE(candidate)))) => (
                ClientUpgrade { phase: ClientPhase::AddingCandidate, ..self },
                ClientAction::AddCandidate(candidate),
            ),
            ClientEvent::RemoteMessage(Ok(None)) => {
                let exchange = self.exchange.after_last_received();
                self.go_on(exchange)
            },
        }
    }
}

} // verus!
