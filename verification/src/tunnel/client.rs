//! The client's end of a tunnel: which ports it listens on, and which data channel each
//! connection goes through.
use crate::payload::{content, payload_of, Sending};
use crate::rtc::{tcp_data_channel, DataChannelInit};
use crate::text::{decimal, decimal_digits, decimal_is_injective};
use crate::tls::{server_name, server_name_of};
use crate::tunnel::channel::{port_or_remap, remapped, Channel, Port, Quality};
use crate::tunnel::server::{destination, last_named, last_on, ports_are_found_by_number};
use vstd::prelude::*;
use vstd::string::StringExecFns;

verus! {

/// The configuration of a client.
#[derive(Debug)]
pub struct ClientConfig {
    /// Whether the connection to the server uses TLS.
    pub use_tls: bool,
    /// The path to the certificate that the client trusts, if any.
    pub root_cert_path: Option<String>,
    /// The name that the server's certificate has to be made out to.
    pub domain_name: Option<String>,
    /// The channels of the tunnel.
    pub channels: Vec<Channel>,
}

/// Why a client cannot start.
#[derive(Debug)]
pub enum ConfigError {
    NoChannels,
    MissingDomainName,
    InvalidDomainName(tokio_rustls::rustls::client::InvalidDnsNameError),
}

impl ConfigError {
    /// The text of the error, where `cause` is the text of the error that it carries, if any.
    pub fn message(&self, cause: &str) -> (text: String)
        ensures
            text@ == (match self {
                ConfigError::NoChannels => "No channels provided"@,
                ConfigError::MissingDomainName => "Missing domain name"@,
                ConfigError::InvalidDomainName(_) => cause@,
            }),
    {
        match self {
            ConfigError::NoChannels => "No channels provided".to_owned(),
            ConfigError::MissingDomainName => "Missing domain name".to_owned(),
            ConfigError::InvalidDomainName(_) => cause.to_owned(),
        }
    }
}

impl ClientConfig {
    /// Checks that there is something to tunnel.
    pub fn check_channels(&self) -> (r: Result<(), ConfigError>)
        ensures
            r == (if self.channels@.len() == 0 {
                Err::<(), _>(ConfigError::NoChannels)
            } else {
                Ok(())
            }),
    {
        if self.channels.len() == 0 {
            Err(ConfigError::NoChannels)
        } else {
            Ok(())
        }
    }

    /// The name of the server to connect to with TLS, or nothing where TLS is not used.
    pub fn tls_domain(&self) -> (r: Result<Option<tokio_rustls::rustls::ServerName>, ConfigError>)
        ensures
            r == (if !self.use_tls {
                Ok::<Option<tokio_rustls::rustls::ServerName>, ConfigError>(None)
            } else {
                match self.domain_name {
                    None => Err(ConfigError::MissingDomainName),
                    Some(name) => match server_name_of(name@) {
                        Ok(domain) => Ok(Some(domain)),
                        Err(e) => Err(ConfigError::InvalidDomainName(e)),
                    },
                }
            }),
    {
        if !self.use_tls {
            return Ok(None);
        }
        match &self.domain_name {
            None => Err(ConfigError::MissingDomainName),
            Some(name) => match server_name(name.as_str()) {
                Ok(domain) => Ok(Some(domain)),
                Err(e) => Err(ConfigError::InvalidDomainName(e)),
            },
        }
    }
}

/// The label of the channel that a client opens to upgrade its connection, and closes when that
/// is done.
pub const INIT_CHANNEL: &'static str = "init";

/// The channels that a client asks for when it upgrades its connection.
pub fn init_channels() -> (channels: Vec<(String, DataChannelInit)>)
    ensures
        channels@.len() == 1,
        channels@[0].0@ == INIT_CHANNEL@,
        channels@[0].1 == tcp_data_channel(),
{
    let mut channels: Vec<(String, DataChannelInit)> = Vec::new();
    channels.push((INIT_CHANNEL.to_owned(), tcp_data_channel()));
    channels
}

/// A port that a client listens on.
#[derive(Clone, Copy, Debug)]
pub struct Listener {
    /// The number of the port to listen on.
    pub listen: u16,
    /// The port to ask the server for.
    pub port: Port,
    /// How well the data channels have to work.
    pub quality: Quality,
}

/// What a client does about a channel.
#[derive(Debug)]
pub enum Plan {
    /// Pass datagrams on.
    Udp(Listener),
    /// Pass connections on.
    Tcp(Listener),
    /// It is not said how well the data channels have to work; this is the complaint.
    MissingQuality(String),
    /// Clients do not serve local sockets.
    Unsupported,
}

/// What a client does about a port: it listens on the remapped port, or else on the port itself.
pub open spec fn listener_of(port: Port, remap: Option<Port>, quality: Quality) -> Listener {
    Listener { listen: port_or_remap(port, remap), port, quality }
}

/// The complaint about a port for which it is not said how well the data channels have to work.
pub open spec fn missing_quality(port: Port) -> Seq<char> {
    "Missing quality setting for port "@ + decimal_digits(port@ as nat)
}

fn complaint(port: Port) -> (text: String)
    ensures
        text@ == missing_quality(port),
{
    "Missing quality setting for port ".to_owned().concat(decimal(port.get() as u64).as_str())
}

/// What a client does about a channel.
pub fn plan(channel: &Channel) -> (plan: Plan)
    ensures
        match *channel {
            Channel::UDP { port, remap, quality: Some(quality) } => plan == Plan::Udp(
                listener_of(port, remap, quality),
            ),
            Channel::TCP { port, remap, quality: Some(quality) } => plan == Plan::Tcp(
                listener_of(port, remap, quality),
            ),
            Channel::UDP { port, remap, quality: None } => plan matches Plan::MissingQuality(text)
                && text@ == missing_quality(port),
            Channel::TCP { port, remap, quality: None } => plan matches Plan::MissingQuality(text)
                && text@ == missing_quality(port),
            Channel::LocalSocket { .. } => plan == Plan::Unsupported,
        },
{
    match channel {
        Channel::UDP { port, remap, quality } => match quality {
            Some(quality) => Plan::Udp(
                Listener { listen: remapped(*port, *remap), port: *port, quality: *quality },
            ),
            None => Plan::MissingQuality(complaint(*port)),
        },
        Channel::TCP { port, remap, quality } => match quality {
            Some(quality) => Plan::Tcp(
                Listener { listen: remapped(*port, *remap), port: *port, quality: *quality },
            ),
            None => Plan::MissingQuality(complaint(*port)),
        },
        Channel::LocalSocket { .. } => Plan::Unsupported,
    }
}

impl Listener {
    /// The data channel of the connection with the given number has that number for a label.
    pub open spec fn has_label(label: Seq<char>, index: u64) -> bool {
        label == decimal_digits(index as nat)
    }

    /// The settings are those of the quality, with the number of the port for a protocol.
    pub open spec fn has_settings(self, init: DataChannelInit) -> bool {
        &&& init.protocol matches Some(protocol) && protocol@ == decimal_digits(self.port@ as nat)
        &&& DataChannelInit { protocol: None, ..init }
            == <DataChannelInit as vstd::std_specs::convert::FromSpec<Quality>>::from_spec(
            self.quality,
        )
    }

    /// The label and the settings of the data channel for the connection with the given number.
    pub fn open(&self, index: u64) -> (r: (String, DataChannelInit))
        ensures
            Self::has_label(r.0@, index),
            self.has_settings(r.1),
    {
        let mut init = DataChannelInit::from(self.quality);
        init.protocol = Some(decimal(self.port.get() as u64));
        (decimal(index), init)
    }
}

/// Counts the connections of a run, over all channels. It starts at zero, and starts over when it
/// runs out of numbers.
#[derive(Debug)]
pub struct ChannelCounter {
    pub count: usize,
}

/// The number behind `n`.
pub open spec fn number_behind(n: usize) -> usize {
    if n == usize::MAX {
        0
    } else {
        (n + 1) as usize
    }
}

impl ChannelCounter {
    /// A counter of which no number was drawn.
    pub fn new() -> (counter: ChannelCounter)
        ensures
            counter.count == 0,
    {
        ChannelCounter { count: 0 }
    }

    /// Draws the number of the next connection.
    pub fn next(&mut self) -> (index: u64)
        ensures
            index == old(self).count,
            final(self).count == number_behind(old(self).count),
    {
        let index: usize = self.count;
        self.count = if index == usize::MAX {
            0
        } else {
            index + 1
        };
        index as u64
    }
}

/// Where a datagram came from: an IPv4 address as a number, and a port.
pub type PeerAddress = (u32, u16);

/// What a table of sessions holds: the number of the session of each peer.
pub uninterp spec fn sessions_in(table: fxhash::FxHashMap<(u32, u16), u64>) -> Map<
    (u32, u16),
    u64,
>;

/// `<FxHashMap as Default>::default`: an empty table.
#[verifier::external_body]
fn new_table() -> (table: fxhash::FxHashMap<(u32, u16), u64>)
    ensures
        forall|peer: (u32, u16)| !#[trigger] sessions_in(table).dom().contains(peer),
{
    fxhash::FxHashMap::default()
}

/// `HashMap::insert` on an `FxHashMap`: enters a session, in place of any other one of that peer.
#[verifier::external_body]
fn insert_session(table: &mut fxhash::FxHashMap<(u32, u16), u64>, peer: (u32, u16), session: u64)
    ensures
        sessions_in(*final(table)) == sessions_in(*old(table)).insert(peer, session),
{
    table.insert(peer, session);
}

/// `HashMap::get` on an `FxHashMap`: the session of a peer, if there is one.
#[verifier::external_body]
fn get_session(table: &fxhash::FxHashMap<(u32, u16), u64>, peer: (u32, u16)) -> (session: Option<
    u64,
>)
    ensures
        session == (if sessions_in(*table).dom().contains(peer) {
            Some(sessions_in(*table)[peer])
        } else {
            None
        }),
{
    table.get(&peer).copied()
}

/// `HashMap::remove` on an `FxHashMap`: strikes the session of a peer out.
#[verifier::external_body]
fn remove_session(table: &mut fxhash::FxHashMap<(u32, u16), u64>, peer: (u32, u16))
    ensures
        sessions_in(*final(table)) == sessions_in(*old(table)).remove(peer),
{
    table.remove(&peer);
}

/// The sessions of a UDP port: every peer that sends datagrams has a data channel of its own.
pub struct UdpSessions {
    pub table: fxhash::FxHashMap<(u32, u16), u64>,
    /// How many sessions have been opened so far. They are numbered in that order.
    pub count: u64,
}

/// What [`UdpSessions`] hold.
#[verifier::ext_equal]
pub struct SessionsView {
    /// The session of each peer that has one.
    pub sessions: Map<(u32, u16), u64>,
    pub count: u64,
}

impl View for UdpSessions {
    type V = SessionsView;

    open spec fn view(&self) -> SessionsView {
        SessionsView { sessions: sessions_in(self.table), count: self.count }
    }
}

impl SessionsView {
    /// No sessions.
    pub open spec fn begin() -> SessionsView {
        SessionsView { sessions: Map::empty(), count: 0 }
    }

    /// Only sessions that were opened are in use, and no two peers share one.
    pub open spec fn wf(self) -> bool {
        &&& forall|peer: (u32, u16)| #[trigger]
            self.sessions.dom().contains(peer) ==> self.sessions[peer] < self.count
        &&& forall|peer: (u32, u16), other: (u32, u16)|
            self.sessions.dom().contains(peer) && self.sessions.dom().contains(other) && peer
                != other ==> #[trigger] self.sessions[peer] != #[trigger] self.sessions[other]
    }

    /// The sessions after one was opened for a peer.
    pub open spec fn open(self, peer: (u32, u16)) -> SessionsView {
        SessionsView {
            sessions: self.sessions.insert(peer, self.count),
            count: (self.count + 1) as u64,
        }
    }

    /// The sessions after a datagram of a peer was passed on, or could not be.
    pub open spec fn pass_on(self, peer: (u32, u16), passed: bool) -> SessionsView {
        if passed {
            self
        } else {
            SessionsView { sessions: self.sessions.remove(peer), ..self }
        }
    }
}

/// What becomes of a datagram.
pub enum Datagram {
    /// It belongs to the session of this number.
    PassOn(u64, bytes::Bytes),
    /// A session has to be opened, with this as the first payload.
    Open(bytes::Bytes),
}

impl UdpSessions {
    /// No sessions.
    pub fn new() -> (sessions: UdpSessions)
        ensures
            sessions@ == SessionsView::begin(),
            sessions@.wf(),
    {
        let sessions = UdpSessions { table: new_table(), count: 0 };
        assert(sessions@ =~= SessionsView::begin());
        sessions
    }

    /// What becomes of a datagram of `n` bytes, the first ones of `buf`, that came from `peer`.
    pub fn route(&self, peer: PeerAddress, buf: &[u8], n: usize) -> (datagram: Datagram)
        requires
            n <= buf@.len(),
        ensures
            match self@.sessions.get(peer) {
                Some(session) => datagram matches Datagram::PassOn(number, payload) && number
                    == session && content(payload) == buf@.take(n as int),
                None => datagram matches Datagram::Open(payload) && content(payload) == buf@.take(
                    n as int,
                ),
            },
    {
        let payload = payload_of(buf, n);
        match get_session(&self.table, peer) {
            Some(session) => Datagram::PassOn(session, payload),
            None => Datagram::Open(payload),
        }
    }

    /// Notes that a session was opened for this peer, and gives its number.
    pub fn opened(&mut self, peer: PeerAddress) -> (session: u64)
        requires
            old(self)@.wf(),
            old(self)@.count < u64::MAX,
        ensures
            session == old(self)@.count,
            final(self)@ == old(self)@.open(peer),
            final(self)@.wf(),
    {
        let session: u64 = self.count;
        insert_session(&mut self.table, peer, session);
        self.count = session + 1;
        assert forall|p: (u32, u16)| #[trigger] self@.sessions.dom().contains(p) && p
            != peer implies self@.sessions[p] < session by {
            assert(old(self)@.sessions.dom().contains(p));
        }
        assert forall|p: (u32, u16), q: (u32, u16)|
            self@.sessions.dom().contains(p) && self@.sessions.dom().contains(q) && p
                != q implies #[trigger] self@.sessions[p] != #[trigger] self@.sessions[q] by {
            if p != peer && q != peer {
                assert(old(self)@.sessions[p] != old(self)@.sessions[q]);
            }
        }
        session
    }

    /// Notes whether a datagram could be handed to the session of this peer. Where it could not,
    /// the session is over.
    pub fn passed_on(&mut self, peer: PeerAddress, passed: bool)
        requires
            old(self)@.wf(),
        ensures
            final(self)@ == old(self)@.pass_on(peer, passed),
            final(self)@.wf(),
    {
        if !passed {
            remove_session(&mut self.table, peer);
        }
        assert forall|p: (u32, u16)| #[trigger] self@.sessions.dom().contains(p) implies old(self)@.sessions.dom().contains(p) && self@.sessions[p] == old(self)@.sessions[p] by {}
        assert forall|p: (u32, u16), q: (u32, u16)|
            self@.sessions.dom().contains(p) && self@.sessions.dom().contains(q) && p
                != q implies #[trigger] self@.sessions[p] != #[trigger] self@.sessions[q] by {
            assert(old(self)@.sessions[p] != old(self)@.sessions[q]);
        }
    }
}

/// What a connection waits for.
pub enum PumpEvent {
    /// The payload that comes from this end, or nothing when no more will come.
    Local(Option<bytes::Bytes>),
    /// The payload that comes over the data channel, or nothing when no more will come.
    Remote(Option<bytes::Bytes>),
}

/// What a connection does about it.
pub enum PumpAction {
    /// Send this over the data channel.
    ToChannel(Sending),
    /// Hand this to the socket.
    ToSocket(bytes::Bytes),
    /// The connection is over.
    Stop,
}

/// Passes a payload on to the other side, and stops as soon as either side has ended.
pub fn pump(event: PumpEvent) -> (action: PumpAction)
    ensures
        action == (match event {
            PumpEvent::Local(Some(payload)) => PumpAction::ToChannel(Sending { payload, sent: 0 }),
            PumpEvent::Remote(Some(payload)) => PumpAction::ToSocket(payload),
            _ => PumpAction::Stop,
        }),
{
    match event {
        PumpEvent::Local(Some(payload)) => PumpAction::ToChannel(Sending::new(payload)),
        PumpEvent::Remote(Some(payload)) => PumpAction::ToSocket(payload),
        _ => PumpAction::Stop,
    }
}

/// What a client waits for while its channels are served. `E` is why a task failed, `J` why it
/// did not even come to its end.
#[derive(Debug)]
pub enum WaitEvent<E, J> {
    /// The user asks to stop, or it cannot be found out whether they do.
    CtrlC(Result<(), std::io::Error>),
    /// A task ended.
    TaskEnded(Result<Result<(), E>, J>),
}

/// What a client does next.
#[derive(Debug)]
pub enum WaitAction<E, J> {
    /// Report this error, and wait on, but no longer for the user.
    WaitForTasks(std::io::Error),
    /// Stop all tasks, close the connection, wait for the tasks to end, and end well.
    ShutDown,
    /// End with the error of the task.
    FailWithTask(E),
    /// End with the reason for which the task did not come to its end.
    FailWithJoin(J),
}

/// What a client does when the user asks it to stop, or a task ends. A task that ends well ends
/// the client as the user does.
pub fn wait_next<E, J>(event: WaitEvent<E, J>) -> (action: WaitAction<E, J>)
    ensures
        action == (match event {
            WaitEvent::CtrlC(Ok(_)) => WaitAction::<E, J>::ShutDown,
            WaitEvent::CtrlC(Err(e)) => WaitAction::WaitForTasks(e),
            WaitEvent::TaskEnded(Ok(Ok(_))) => WaitAction::ShutDown,
            WaitEvent::TaskEnded(Ok(Err(e))) => WaitAction::FailWithTask(e),
            WaitEvent::TaskEnded(Err(j)) => WaitAction::FailWithJoin(j),
        }),
{
    match event {
        WaitEvent::CtrlC(Ok(_)) => WaitAction::ShutDown,
        WaitEvent::CtrlC(Err(e)) => WaitAction::WaitForTasks(e),
        WaitEvent::TaskEnded(Ok(Ok(_))) => WaitAction::ShutDown,
        WaitEvent::TaskEnded(Ok(Err(e))) => WaitAction::FailWithTask(e),
        WaitEvent::TaskEnded(Err(j)) => WaitAction::FailWithJoin(j),
    }
}

/// Data channels of different numbers have different labels.
pub proof fn labels_are_distinct(label: Seq<char>, index: u64, other: u64)
    requires
        Listener::has_label(label, index),
        Listener::has_label(label, other),
    ensures
        index == other,
{
    decimal_is_injective(index as nat, other as nat);
}

/// The number of the connection that is the `n`th of a run, counted from zero.
pub open spec fn nth_number(n: nat) -> usize
    decreases n,
{
    if n == 0 {
        0
    } else {
        number_behind(nth_number((n - 1) as nat))
    }
}

/// The numbers of a run go up by one, and start over when there are no more.
proof fn numbers_go_up(n: nat)
    ensures
        nth_number(n) == n % (usize::MAX as nat + 1),
    decreases n,
{
    let all = (usize::MAX as nat + 1) as int;
    if n > 0 {
        numbers_go_up((n - 1) as nat);
        vstd::arithmetic::div_mod::lemma_fundamental_div_mod(n - 1, all);
        let q = (n - 1) / all;
        let r = (n - 1) % all;
        if r == usize::MAX {
            assert(n == (q + 1) * all) by (nonlinear_arith)
                requires
                    n - 1 == all * q + r,
                    r == all - 1,
            ;
            vstd::arithmetic::div_mod::lemma_fundamental_div_mod_converse(n as int, all, q + 1, 0);
        } else {
            assert(n == q * all + (r + 1)) by (nonlinear_arith)
                requires
                    n - 1 == all * q + r,
            ;
            vstd::arithmetic::div_mod::lemma_fundamental_div_mod_converse(n as int, all, q, r + 1);
        }
    } else {
        vstd::arithmetic::div_mod::lemma_small_mod(0, all as nat);
    }
}

/// No two data channels of a run have the same label, whichever of the channels of the tunnel
/// they are opened for, until the counter has run out of numbers between the two.
pub proof fn labels_of_a_run_are_distinct(
    i: nat,
    j: nat,
    label: Seq<char>,
    other: Seq<char>,
)
    requires
        i < j,
        j - i <= usize::MAX,
        Listener::has_label(label, nth_number(i) as u64),
        Listener::has_label(other, nth_number(j) as u64),
    ensures
        label != other,
{
    numbers_go_up(i);
    numbers_go_up(j);
    let all = (usize::MAX as nat + 1) as int;
    if label == other {
        labels_are_distinct(label, nth_number(i) as u64, nth_number(j) as u64);
        vstd::arithmetic::div_mod::lemma_fundamental_div_mod(i as int, all);
        vstd::arithmetic::div_mod::lemma_fundamental_div_mod(j as int, all);
        let p = i as int / all;
        let q = j as int / all;
        assert(j - i == all * (q - p)) by (nonlinear_arith)
            requires
                i == all * p + i as int % all,
                j == all * q + j as int % all,
                i as int % all == j as int % all,
        ;
        assert(q - p >= 1 ==> all * (q - p) >= all) by (nonlinear_arith)
            requires
                all > 0,
        ;
        assert(q - p <= 0 ==> all * (q - p) <= 0) by (nonlinear_arith)
            requires
                all > 0,
        ;
    }
}

/// A client's port leads where the server says: a data channel that the client opens for a port
/// comes out at whatever the server offers last under the number of that port, and is refused if
/// that is nothing. Which port the client listens on makes no difference.
pub proof fn port_leads_to_offer(
    listener: Listener,
    init: DataChannelInit,
    channels: Seq<Channel>,
)
    requires
        listener.has_settings(init),
    ensures
        destination(last_named(channels, init.protocol->Some_0@)) == destination(
            last_on(channels, listener.port@),
        ),
{
    ports_are_found_by_number(channels, listener.port@);
}

/// Something that happens to a session.
pub enum SessionEvent {
    /// A session was opened for this peer.
    Opened((u32, u16)),
    /// A datagram of this peer was passed on to its session, or could not be.
    PassedOn((u32, u16), bool),
}

/// The sessions after the given events.
pub open spec fn sessions_after(start: SessionsView, events: Seq<SessionEvent>) -> SessionsView
    decreases events.len(),
{
    if events.len() == 0 {
        start
    } else {
        let before = sessions_after(start, events.drop_last());
        match events.last() {
            SessionEvent::Opened(peer) => before.open(peer),
            SessionEvent::PassedOn(peer, passed) => before.pass_on(peer, passed),
        }
    }
}

/// How many sessions are opened in the given events.
pub open spec fn openings(events: Seq<SessionEvent>) -> nat
    decreases events.len(),
{
    if events.len() == 0 {
        0
    } else {
        openings(events.drop_last()) + if events.last() is Opened {
            1nat
        } else {
            0nat
        }
    }
}

/// The session that a peer has of its own events, if any: the one that was opened last, unless a
/// datagram could not be passed on to it since. Sessions are numbered in the order in which they
/// are opened.
pub open spec fn own_session(events: Seq<SessionEvent>, peer: (u32, u16)) -> Option<nat>
    decreases events.len(),
{
    if events.len() == 0 {
        None
    } else if events.last() == SessionEvent::Opened(peer) {
        Some(openings(events.drop_last()))
    } else if events.last() == SessionEvent::PassedOn(peer, false) {
        None
    } else {
        own_session(events.drop_last(), peer)
    }
}

/// A peer keeps its session until a datagram cannot be passed on to it, and has none from then on
/// until a new one is opened, whatever happens to the sessions of other peers. No two peers ever
/// share a session.
pub proof fn peers_keep_their_sessions(
    events: Seq<SessionEvent>,
    peer: (u32, u16),
    other: (u32, u16),
)
    requires
        openings(events) <= u64::MAX,
    ensures
        ({
            let now = sessions_after(SessionsView::begin(), events);
            &&& now.count == openings(events)
            &&& match own_session(events, peer) {
                Some(session) => now.sessions.get(peer) == Some(session as u64) && session
                    < openings(events),
                None => now.sessions.get(peer) is None,
            }
            &&& peer != other && now.sessions.get(peer) is Some ==> now.sessions.get(peer)
                != now.sessions.get(other)
        }),
    decreases events.len(),
{
    if events.len() > 0 {
        peers_keep_their_sessions(events.drop_last(), peer, other);
        peers_keep_their_sessions(events.drop_last(), other, peer);
    }
}

} // verus!
