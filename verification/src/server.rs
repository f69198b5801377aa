//! The server's side of an upgrade: accepting transports, and taking each of them to a peer
//! connection.
//!
//! [`ServerConnection`] decides what happens next on a transport; its caller does it and reports
//! how it went.
use crate::ice::{
    candidate_line, candidate_to_json, describes, renderable, IceCandidate, IceCandidateInit,
    IceExchange,
};
use crate::rtc::{default_api, default_configuration, RTCMessage, RtcConfiguration};
use crate::tls::TlsInitError;
use crate::transport::{RecvError, StreamTransport};
use std::sync::Arc;
use vstd::prelude::*;
use vstd::string::StringExecFns;

verus! {

/// What went wrong on a server. `AE` is why a transport was not accepted, `DE` why a message
/// could not be decoded.
#[derive(Debug)]
pub enum ServerError<AE, DE> {
    AcceptError(AE),
    BadMessage { error: DE, client_id: String },
    IOError(std::io::Error),
    WebRTCError(webrtc::Error),
}

impl<AE, DE> ServerError<AE, DE> {
    /// The text of the error, where `cause` is the text of the error that it carries: a message
    /// that could not be decoded is reported together with its sender.
    pub fn message(&self, cause: &str) -> (text: String)
        ensures
            text@ == (match self {
                ServerError::BadMessage { client_id, .. } => "From: "@ + client_id@ + "\n"@
                    + cause@,
                _ => cause@,
            }),
    {
        match self {
            ServerError::BadMessage { client_id, .. } => "From: ".to_owned().concat(
                client_id.as_str(),
            ).concat("\n").concat(cause),
            _ => cause.to_owned(),
        }
    }
}

/// Why a transport with TLS was not accepted: the transport below it was not, or TLS failed.
#[derive(Debug)]
pub enum TlsAcceptError<E> {
    AcceptError(E),
    IOError(std::io::Error),
}

impl<E> TlsAcceptError<E> {
    /// The error in words, where `cause` are the words of the error inside: those same words.
    pub fn message(&self, cause: &str) -> (text: String)
        ensures
            text@ == cause@,
    {
        cause.to_owned()
    }
}

impl<E> vstd::std_specs::convert::FromSpecImpl<std::io::Error> for TlsAcceptError<E> {
    open spec fn obeys_from_spec() -> bool {
        true
    }

    open spec fn from_spec(value: std::io::Error) -> Self {
        TlsAcceptError::IOError(value)
    }
}

impl<E> From<std::io::Error> for TlsAcceptError<E> {
    fn from(value: std::io::Error) -> (error: Self) {
        TlsAcceptError::IOError(value)
    }
}

/// A server that puts TLS on what the server `S` accepts.
pub struct TlsUpgradeTransportServer<S> {
    pub server: S,
    pub acceptor: tokio_rustls::TlsAcceptor,
}

impl<S> TlsUpgradeTransportServer<S> {
    /// The stream to put TLS on, if the server below accepted a transport.
    pub fn accepted<C, E>(accepted: Result<StreamTransport<C>, E>) -> (r: Result<
        C,
        TlsAcceptError<E>,
    >)
        ensures
            r == (match accepted {
                Ok(transport) => Ok::<C, TlsAcceptError<E>>(transport.stream),
                Err(e) => Err(TlsAcceptError::AcceptError(e)),
            }),
    {
        match accepted {
            Ok(transport) => Ok(transport.stream),
            Err(e) => Err(TlsAcceptError::AcceptError(e)),
        }
    }

    /// The transport on the stream that TLS was put on, if that succeeded. Nothing has been read
    /// from it yet.
    pub fn secured<T, E>(secured: Result<T, std::io::Error>) -> (r: Result<
        StreamTransport<T>,
        TlsAcceptError<E>,
    >)
        ensures
            match secured {
                Ok(stream) => r matches Ok(transport) && transport.stream == stream
                    && transport.recv_buffer@ == Seq::<u8>::empty(),
                Err(e) => r == Err::<StreamTransport<T>, _>(TlsAcceptError::<E>::IOError(e)),
            },
    {
        match secured {
            Ok(stream) => Ok(StreamTransport::from(stream)),
            Err(e) => Err(TlsAcceptError::from(e)),
        }
    }
}

/// A server that accepts transports from `S` and upgrades them.
pub struct UpgradeWebRTCServer<S> {
    pub server: S,
    pub api: Arc<webrtc::api::API>,
    pub config: RtcConfiguration,
}

impl<S> UpgradeWebRTCServer<S> {
    /// A server on the given acceptor of transports, with the default interface and the default
    /// settings.
    pub fn new(server: S) -> (r: Self)
        ensures
            r.server == server,
            crate::rtc::is_default_api(*r.api),
            crate::rtc::is_default_configuration(r.config),
    {
        UpgradeWebRTCServer {
            server,
            api: Arc::new(default_api()),
            config: default_configuration(),
        }
    }

    /// The server with TLS on everything that it accepts; the rest is kept.
    pub fn add_tls(self, acceptor: tokio_rustls::TlsAcceptor) -> (r: UpgradeWebRTCServer<
        TlsUpgradeTransportServer<S>,
    >)
        ensures
            r.server.server == self.server,
            r.server.acceptor == acceptor,
            r.api == self.api,
            r.config == self.config,
    {
        UpgradeWebRTCServer {
            server: TlsUpgradeTransportServer { server: self.server, acceptor },
            api: self.api,
            config: self.config,
        }
    }

    /// The server with TLS, where the acceptor was set up for the purpose. Where that failed,
    /// the server comes back as it was, along with the reason.
    pub fn add_tls_from_config(
        self,
        acceptor: Result<tokio_rustls::TlsAcceptor, TlsInitError>,
    ) -> (r: Result<UpgradeWebRTCServer<TlsUpgradeTransportServer<S>>, (TlsInitError, Self)>)
        ensures
            match acceptor {
                Ok(acceptor) => r matches Ok(server) && server.server.server == self.server
                    && server.server.acceptor == acceptor && server.api == self.api
                    && server.config == self.config,
                Err(e) => r == Err::<UpgradeWebRTCServer<TlsUpgradeTransportServer<S>>, _>(
                    (e, self),
                ),
            },
    {
        match acceptor {
            Ok(acceptor) => Ok(self.add_tls(acceptor)),
            Err(e) => Err((e, self)),
        }
    }
}

/// What a server waits for.
#[derive(Debug)]
pub enum AcceptEvent<T, AE> {
    /// A transport was accepted, or not.
    Accepted(Result<T, AE>),
    /// A handle asks the server to close.
    CloseRequested,
}

/// What a server does next.
#[derive(Debug)]
pub enum AcceptAction<T, AE, DE> {
    /// Upgrade this transport, in a task of its own, and go on.
    Upgrade(T),
    /// Report this error, and go on.
    Report(ServerError<AE, DE>),
    /// Stop all tasks, wait for them to end, and close.
    Close,
}

/// What follows on the event: a transport that could not be accepted is reported and does not
/// keep the server from accepting further ones.
pub fn accept_next<T, AE, DE>(event: AcceptEvent<T, AE>) -> (action: AcceptAction<T, AE, DE>)
    ensures
        action == (match event {
            AcceptEvent::Accepted(Ok(transport)) => AcceptAction::<T, AE, DE>::Upgrade(transport),
            AcceptEvent::Accepted(Err(e)) => AcceptAction::Report(ServerError::AcceptError(e)),
            AcceptEvent::CloseRequested => AcceptAction::Close,
        }),
{
    match event {
        AcceptEvent::Accepted(Ok(transport)) => AcceptAction::Upgrade(transport),
        AcceptEvent::Accepted(Err(e)) => AcceptAction::Report(ServerError::AcceptError(e)),
        AcceptEvent::CloseRequested => AcceptAction::Close,
    }
}

/// What went wrong on a transport.
#[derive(Debug)]
pub enum Failure<E> {
    BadMessage(E),
    IOError(std::io::Error),
    WebRTCError(webrtc::Error),
}

/// What the caller is to do next.
///
/// `D` is a session description, `AE` why a transport was not accepted, `E` what can go wrong
/// when a message is decoded.
#[derive(Debug)]
pub enum ServerAction<D, AE, E> {
    /// Receive an offer; answer with [`ServerEvent::Offer`].
    ReceiveOffer,
    /// Open a peer connection; answer with [`ServerEvent::PeerOpened`].
    OpenPeer,
    /// Start to collect the channels that the client opens and the candidates of this end;
    /// answer with [`ServerEvent::Watching`].
    WatchPeer,
    /// Set the remote description; answer with [`ServerEvent::Applied`].
    SetRemote(D),
    /// Create an answer; answer with [`ServerEvent::AnswerCreated`].
    CreateAnswer,
    /// Send [`ServerConnection::answer`] as an [`RTCMessage::SDPAnswer`]; answer with
    /// [`ServerEvent::Sent`].
    SendAnswer,
    /// Set the local description; answer with [`ServerEvent::Applied`].
    SetLocal(D),
    /// Wait for whatever comes first: a candidate of this end, or one of the other end; answer
    /// by [`ServerConnection::local_candidate`] or [`ServerConnection::remote_candidate`].
    Exchange,
    /// Send a candidate of this end, or the end mark; answer with [`ServerEvent::Sent`].
    SendCandidate(Option<RTCMessage<D>>),
    /// Add a candidate of the other end; answer with [`ServerEvent::Applied`].
    AddCandidate(IceCandidateInit),
    /// The upgrade is complete: hand the connection over; answer with [`ServerEvent::Served`].
    Serve,
    /// Close the peer connection; answer with [`ServerEvent::Closed`], whether that succeeds or
    /// not.
    ClosePeer,
    /// Ask the transport for the name of its peer; answer with [`ServerEvent::Identified`].
    Identify,
    /// Report this error; the transport is done with.
    Report(ServerError<AE, E>),
}

/// How the last action went.
#[derive(Debug)]
pub enum ServerEvent<D, E> {
    Offer(Result<D, RecvError<E>>),
    PeerOpened(Result<(), webrtc::Error>),
    Watching,
    Applied(Result<(), webrtc::Error>),
    AnswerCreated(Result<D, webrtc::Error>),
    Sent(Result<(), std::io::Error>),
    /// A candidate of this end, or the end mark, written out for the client.
    LocalCandidate(Result<Option<IceCandidateInit>, webrtc::Error>),
    /// A candidate of the other end, or the end mark, as the peer connection takes it.
    RemoteCandidate(Result<Option<IceCandidateInit>, Failure<E>>),
    Served,
    Closed,
    Identified(String),
}

/// Where a transport stands.
#[derive(Debug)]
pub enum ServerPhase<D, E> {
    AwaitingOffer,
    /// The offer has arrived.
    OpeningPeer(D),
    StartingWatch(D),
    SettingRemote,
    CreatingAnswer,
    SendingAnswer(D),
    SettingLocal,
    Exchanging,
    /// A candidate is being sent, or the end mark, if `true`.
    SendingCandidate(bool),
    AddingCandidate,
    Serving,
    /// The peer connection is being closed because of this failure.
    Closing(Failure<E>),
    /// The sender of a message that could not be decoded is being identified.
    Identifying(E),
    Over,
}

/// The upgrades on one transport, one after the other.
#[derive(Debug)]
pub struct ServerConnection<D, E> {
    pub phase: ServerPhase<D, E>,
    pub exchange: IceExchange,
}

impl<D, E> ServerConnection<D, E> {
    /// A transport on which nothing has happened yet.
    pub open spec fn begin() -> Self {
        ServerConnection { phase: ServerPhase::AwaitingOffer, exchange: IceExchange::begin() }
    }

    /// The same transport in another phase.
    pub open spec fn in_phase(self, phase: ServerPhase<D, E>) -> Self {
        ServerConnection { phase, ..self }
    }

    /// The event answers the action that the transport waits for.
    pub open spec fn awaits(self, event: ServerEvent<D, E>) -> bool {
        match self.phase {
            ServerPhase::AwaitingOffer => event is Offer,
            ServerPhase::OpeningPeer(_) => event is PeerOpened,
            ServerPhase::StartingWatch(_) => event is Watching,
            ServerPhase::SettingRemote => event is Applied,
            ServerPhase::CreatingAnswer => event is AnswerCreated,
            ServerPhase::SendingAnswer(_) => event is Sent,
            ServerPhase::SettingLocal => event is Applied,
            ServerPhase::Exchanging => event is LocalCandidate || event is RemoteCandidate,
            ServerPhase::SendingCandidate(_) => event is Sent,
            ServerPhase::AddingCandidate => event is Applied,
            ServerPhase::Serving => event is Served,
            ServerPhase::Closing(_) => event is Closed,
            ServerPhase::Identifying(_) => event is Identified,
            ServerPhase::Over => false,
        }
    }

    /// Reports a failure, once the sender is known where a message could not be decoded.
    pub open spec fn report<AE>(self, failure: Failure<E>) -> (Self, ServerAction<D, AE, E>) {
        match failure {
            Failure::BadMessage(e) => (
                self.in_phase(ServerPhase::Identifying(e)),
                ServerAction::Identify,
            ),
            Failure::IOError(e) => (
                self.in_phase(ServerPhase::Over),
                ServerAction::Report(ServerError::IOError(e)),
            ),
            Failure::WebRTCError(e) => (
                self.in_phase(ServerPhase::Over),
                ServerAction::Report(ServerError::WebRTCError(e)),
            ),
        }
    }

    /// Closes the peer connection, and then reports the failure.
    pub open spec fn give_up<AE>(self, failure: Failure<E>) -> (Self, ServerAction<D, AE, E>) {
        (self.in_phase(ServerPhase::Closing(failure)), ServerAction::ClosePeer)
    }

    /// Goes on with the exchange as it stands, or hands the connection over when it is over.
    pub open spec fn go_on<AE>(self, exchange: IceExchange) -> (Self, ServerAction<D, AE, E>) {
        if exchange.over() {
            (ServerConnection { phase: ServerPhase::Serving, exchange }, ServerAction::Serve)
        } else {
            (ServerConnection { phase: ServerPhase::Exchanging, exchange }, ServerAction::Exchange)
        }
    }

    /// What follows on an awaited event.
    pub open spec fn after<AE>(self, event: ServerEvent<D, E>) -> (Self, ServerAction<D, AE, E>) {
        match event {
            ServerEvent::Offer(Ok(offer)) => (
                self.in_phase(ServerPhase::OpeningPeer(offer)),
                ServerAction::OpenPeer,
            ),
            ServerEvent::Offer(Err(RecvError::DeserializeError(e))) => self.report(
                Failure::BadMessage(e),
            ),
            ServerEvent::Offer(Err(RecvError::IOError(e))) => self.report(Failure::IOError(e)),
            ServerEvent::PeerOpened(Err(e)) => self.report(Failure::WebRTCError(e)),
            ServerEvent::PeerOpened(Ok(_)) => match self.phase {
                ServerPhase::OpeningPeer(offer) => (
                    self.in_phase(ServerPhase::StartingWatch(offer)),
                    ServerAction::WatchPeer,
                ),
                _ => arbitrary(),
            },
            ServerEvent::Watching => match self.phase {
                ServerPhase::StartingWatch(offer) => (
                    self.in_phase(ServerPhase::SettingRemote),
                    ServerAction::SetRemote(offer),
                ),
                _ => arbitrary(),
            },
            ServerEvent::Applied(Err(e)) => self.give_up(Failure::WebRTCError(e)),
            ServerEvent::Applied(Ok(_)) => match self.phase {
                ServerPhase::SettingRemote => (
                    self.in_phase(ServerPhase::CreatingAnswer),
                    ServerAction::CreateAnswer,
                ),
                ServerPhase::SettingLocal => (
                    ServerConnection {
                        phase: ServerPhase::Exchanging,
                        exchange: IceExchange::begin(),
                    },
                    ServerAction::Exchange,
                ),
                _ => self.go_on(self.exchange),
            },
            ServerEvent::AnswerCreated(Err(e)) => self.give_up(Failure::WebRTCError(e)),
            ServerEvent::AnswerCreated(Ok(answer)) => (
                self.in_phase(ServerPhase::SendingAnswer(answer)),
                ServerAction::SendAnswer,
            ),
            ServerEvent::Sent(Err(e)) => self.give_up(Failure::IOError(e)),
            ServerEvent::Sent(Ok(_)) => match self.phase {
                ServerPhase::SendingAnswer(answer) => (
                    self.in_phase(ServerPhase::SettingLocal),
                    ServerAction::SetLocal(answer),
                ),
                ServerPhase::SendingCandidate(last) => self.go_on(self.exchange.sent(last)),
                _ => arbitrary(),
            },
            ServerEvent::LocalCandidate(Err(e)) => self.give_up(Failure::WebRTCError(e)),
            ServerEvent::LocalCandidate(Ok(Some(candidate))) => (
                self.in_phase(ServerPhase::SendingCandidate(false)),
                ServerAction::SendCandidate(Some(RTCMessage::ICE(candidate))),
            ),
            ServerEvent::LocalCandidate(Ok(None)) => (
                self.in_phase(ServerPhase::SendingCandidate(true)),
                ServerAction::SendCandidate(None),
            ),
            ServerEvent::RemoteCandidate(Err(failure)) => self.give_up(failure),
            ServerEvent::RemoteCandidate(Ok(Some(candidate))) => (
                self.in_phase(ServerPhase::AddingCandidate),
                ServerAction::AddCandidate(candidate),
            ),
            ServerEvent::RemoteCandidate(Ok(None)) => self.go_on(self.exchange.received(true)),
            ServerEvent::Served => (
                self.in_phase(ServerPhase::AwaitingOffer),
                ServerAction::ReceiveOffer,
            ),
            ServerEvent::Closed => match self.phase {
                ServerPhase::Closing(failure) => self.report(failure),
                _ => arbitrary(),
            },
            ServerEvent::Identified(client_id) => match self.phase {
                ServerPhase::Identifying(error) => (
                    self.in_phase(ServerPhase::Over),
                    ServerAction::Report(ServerError::BadMessage { error, client_id }),
                ),
                _ => arbitrary(),
            },
        }
    }

    /// A transport on which nothing has happened yet. The first action is
    /// [`ServerAction::ReceiveOffer`].
    pub fn start<AE>() -> (r: (Self, ServerAction<D, AE, E>))
        ensures
            r == (Self::begin(), ServerAction::<D, AE, E>::ReceiveOffer),
    {
        (
            ServerConnection { phase: ServerPhase::AwaitingOffer, exchange: IceExchange::new() },
            ServerAction::ReceiveOffer,
        )
    }

    /// The answer that is being sent.
    pub fn answer(&self) -> (r: Option<&D>)
        ensures
            match self.phase {
                ServerPhase::SendingAnswer(answer) => r == Some(&answer),
                _ => r is None,
            },
    {
        match &self.phase {
            ServerPhase::SendingAnswer(answer) => Some(answer),
            _ => None,
        }
    }

    fn reporting<AE>(self, failure: Failure<E>) -> (r: (Self, ServerAction<D, AE, E>))
        ensures
            r == self.report::<AE>(failure),
    {
        match failure {
            Failure::BadMessage(e) => (
                ServerConnection { phase: ServerPhase::Identifying(e), ..self },
                ServerAction::Identify,
            ),
            Failure::IOError(e) => (
                ServerConnection { phase: ServerPhase::Over, ..self },
                ServerAction::Report(ServerError::IOError(e)),
            ),
            Failure::WebRTCError(e) => (
                ServerConnection { phase: ServerPhase::Over, ..self },
                ServerAction::Report(ServerError::WebRTCError(e)),
            ),
        }
    }

    fn giving_up<AE>(self, failure: Failure<E>) -> (r: (Self, ServerAction<D, AE, E>))
        ensures
            r == self.give_up::<AE>(failure),
    {
        (
            ServerConnection { phase: ServerPhase::Closing(failure), ..self },
            ServerAction::ClosePeer,
        )
    }

    fn going_on<AE>(self, exchange: IceExchange) -> (r: (Self, ServerAction<D, AE, E>))
        ensures
            r == self.go_on::<AE>(exchange),
    {
        if exchange.is_over() {
            (ServerConnection { phase: ServerPhase::Serving, exchange }, ServerAction::Serve)
        } else {
            (ServerConnection { phase: ServerPhase::Exchanging, exchange }, ServerAction::Exchange)
        }
    }

    /// Takes in how the last action went, and decides on the next one.
    pub fn step<AE>(self, event: ServerEvent<D, E>) -> (r: (Self, ServerAction<D, AE, E>))
        requires
            self.awaits(event),
        ensures
            r == self.after::<AE>(event),
    {
        let ServerConnection { phase, exchange } = self;
        let now = ServerConnection { phase: ServerPhase::Over, exchange };
        match (phase, event) {
            (_, ServerEvent::Offer(Ok(offer))) => (
                ServerConnection { phase: ServerPhase::OpeningPeer(offer), exchange },
                ServerAction::OpenPeer,
            ),
            (_, ServerEvent::Offer(Err(RecvError::DeserializeError(e)))) => now.reporting(
                Failure::BadMessage(e),
            ),
            (_, ServerEvent::Offer(Err(RecvError::IOError(e)))) => now.reporting(
                Failure::IOError(e),
            ),
            (_, ServerEvent::PeerOpened(Err(e))) => now.reporting(Failure::WebRTCError(e)),
            (ServerPhase::OpeningPeer(offer), ServerEvent::PeerOpened(Ok(_))) => (
                ServerConnection { phase: ServerPhase::StartingWatch(offer), exchange },
                ServerAction::WatchPeer,
            ),
            (ServerPhase::StartingWatch(offer), ServerEvent::Watching) => (
                ServerConnection { phase: ServerPhase::SettingRemote, exchange },
                ServerAction::SetRemote(offer),
            ),
            (_, ServerEvent::Applied(Err(e))) => now.giving_up(Failure::WebRTCError(e)),
            (ServerPhase::SettingRemote, ServerEvent::Applied(Ok(_))) => (
                ServerConnection { phase: ServerPhase::CreatingAnswer, exchange },
                ServerAction::CreateAnswer,
            ),
            (ServerPhase::SettingLocal, ServerEvent::Applied(Ok(_))) => (
                ServerConnection { phase: ServerPhase::Exchanging, exchange: IceExchange::new() },
                ServerAction::Exchange,
            ),
            (_, ServerEvent::Applied(Ok(_))) => now.going_on(exchange),
            (_, ServerEvent::AnswerCreated(Err(e))) => now.giving_up(Failure::WebRTCError(e)),
            (_, ServerEvent::AnswerCreated(Ok(answer))) => (
                ServerConnection { phase: ServerPhase::SendingAnswer(answer), exchange },
                ServerAction::SendAnswer,
            ),
            (_, ServerEvent::Sent(Err(e))) => now.giving_up(Failure::IOError(e)),
            (ServerPhase::SendingAnswer(answer), ServerEvent::Sent(Ok(_))) => (
                ServerConnection { phase: ServerPhase::SettingLocal, exchange },
                ServerAction::SetLocal(answer),
            ),
            (ServerPhase::SendingCandidate(last), ServerEvent::Sent(Ok(_))) => now.going_on(
                exchange.after_sending(last),
            ),
            (_, ServerEvent::LocalCandidate(Err(e))) => now.giving_up(Failure::WebRTCError(e)),
            (_, ServerEvent::LocalCandidate(Ok(Some(candidate)))) => (
                ServerConnection { phase: ServerPhase::SendingCandidate(false), exchange },
                ServerAction::SendCandidate(Some(RTCMessage::ICE(candidate))),
            ),
            (_, ServerEvent::LocalCandidate(Ok(None))) => (
                ServerConnection { phase: ServerPhase::SendingCandidate(true), exchange },
                ServerAction::SendCandidate(None),
            ),
            (_, ServerEvent::RemoteCandidate(Err(failure))) => now.giving_up(failure),
            (_, ServerEvent::RemoteCandidate(Ok(Some(candidate)))) => (
                ServerConnection { phase: ServerPhase::AddingCandidate, exchange },
                ServerAction::AddCandidate(candidate),
            ),
            (_, ServerEvent::RemoteCandidate(Ok(None))) => now.going_on(
                exchange.after_last_received(),
            ),
            (_, ServerEvent::Served) => (
                ServerConnection { phase: ServerPhase::AwaitingOffer, exchange },
                ServerAction::ReceiveOffer,
            ),
            (ServerPhase::Closing(failure), ServerEvent::Closed) => now.reporting(failure),
            (ServerPhase::Identifying(error), ServerEvent::Identified(client_id)) => (
                now,
                ServerAction::Report(ServerError::BadMessage { error, client_id }),
            ),
            _ => {
                assert(false);
                (now, ServerAction::ClosePeer)
            },
        }
    }

    /// Takes in a candidate that this end has found, or the end mark, and decides what to do
    /// with it.
    pub fn local_candidate<AE>(self, candidate: Option<IceCandidate>) -> (r: (
        Self,
        ServerAction<D, AE, E>,
    ))
        requires
            self.phase is Exchanging,
            candidate matches Some(c) ==> renderable(c@),
        ensures
            match candidate {
                None => r == self.after::<AE>(ServerEvent::LocalCandidate(Ok(None))),
                Some(c) => match candidate_line(c@) {
                    Ok(_) => exists|init: IceCandidateInit| #[trigger]
                        describes(init, c@) && r == self.after::<AE>(
                            ServerEvent::LocalCandidate(Ok(Some(init))),
                        ),
                    Err(e) => r == self.after::<AE>(ServerEvent::LocalCandidate(Err(e))),
                },
            },
    {
        match candidate {
            None => self.step(ServerEvent::LocalCandidate(Ok(None))),
            Some(candidate) => match candidate_to_json(&candidate) {
                Ok(init) => self.step(ServerEvent::LocalCandidate(Ok(Some(init)))),
                Err(e) => self.step(ServerEvent::LocalCandidate(Err(e))),
            },
        }
    }

    /// Takes in what was received while candidates are exchanged: a candidate of the other end,
    /// the end mark, or why there is neither.
    pub fn remote_candidate<AE>(
        self,
        received: Result<Option<IceCandidate>, RecvError<E>>,
    ) -> (r: (Self, ServerAction<D, AE, E>))
        requires
            self.phase is Exchanging,
            received matches Ok(Some(c)) ==> renderable(c@),
        ensures
            match received {
                Err(RecvError::DeserializeError(e)) => r == self.after::<AE>(
                    ServerEvent::RemoteCandidate(Err(Failure::BadMessage(e))),
                ),
                Err(RecvError::IOError(e)) => r == self.after::<AE>(
                    ServerEvent::RemoteCandidate(Err(Failure::IOError(e))),
                ),
                Ok(None) => r == self.after::<AE>(ServerEvent::RemoteCandidate(Ok(None))),
                Ok(Some(c)) => match candidate_line(c@) {
                    Ok(_) => exists|init: IceCandidateInit| #[trigger]
                        describes(init, c@) && r == self.after::<AE>(
                            ServerEvent::RemoteCandidate(Ok(Some(init))),
                        ),
                    Err(e) => r == self.after::<AE>(
                        ServerEvent::RemoteCandidate(Err(Failure::WebRTCError(e))),
                    ),
                },
            },
    {
        match received {
            Err(RecvError::DeserializeError(e)) => self.step(
                ServerEvent::RemoteCandidate(Err(Failure::BadMessage(e))),
            ),
            Err(RecvError::IOError(e)) => self.step(
                ServerEvent::RemoteCandidate(Err(Failure::IOError(e))),
            ),
            Ok(None) => self.step(ServerEvent::RemoteCandidate(Ok(None))),
            Ok(Some(candidate)) => match candidate_to_json(&candidate) {
                Ok(init) => self.step(ServerEvent::RemoteCandidate(Ok(Some(init)))),
                Err(e) => self.step(
                    ServerEvent::RemoteCandidate(Err(Failure::WebRTCError(e))),
                ),
            },
        }
    }
}

} // verus!
