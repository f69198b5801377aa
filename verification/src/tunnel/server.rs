//! The server's end of a tunnel: which channels it offers, and what each of them leads to.
use crate::payload::{content, payload_of, Sending};
use crate::text::{decimal_digits, decimal_is_injective};
use crate::tls::TlsServerConfig;
use crate::tunnel::channel::{port_or_remap, Channel};
use vstd::prelude::*;

verus! {

/// The configuration of a server.
#[derive(Debug)]
pub struct ServerConfig {
    /// The path to the root certificate.
    pub root_cert_chain_path: String,
    /// The path to the root private key.
    pub parent_key_path: String,
    /// Subject Alternative Names that will be used to create the server certificate.
    pub subject_alt_names: Vec<String>,
    /// Whether a root certificate is made up where there is none.
    pub create_if_missing: bool,
    /// The channels that the server offers.
    pub channels: Vec<Channel>,
}

impl ServerConfig {
    /// The offered channels, and the settings of TLS where it is used, which is where a root
    /// certificate is named.
    pub fn into_parts(self) -> (r: (Vec<Channel>, Option<TlsServerConfig>))
        ensures
            r.0 == self.channels,
            self.root_cert_chain_path@.len() == 0 ==> r.1 is None,
            self.root_cert_chain_path@.len() > 0 ==> r.1 == Some(
                TlsServerConfig {
                    root_cert_chain_path: self.root_cert_chain_path,
                    parent_key_path: self.parent_key_path,
                    subject_alt_names: self.subject_alt_names,
                    create_if_missing: self.create_if_missing,
                },
            ),
    {
        if self.root_cert_chain_path.as_str().is_empty() {
            (self.channels, None)
        } else {
            let tls = TlsServerConfig {
                root_cert_chain_path: self.root_cert_chain_path,
                parent_key_path: self.parent_key_path,
                subject_alt_names: self.subject_alt_names,
                create_if_missing: self.create_if_missing,
            };
            (self.channels, Some(tls))
        }
    }
}

/// What a table of channels holds, by name.
pub uninterp spec fn channels_in(table: fxhash::FxHashMap<String, Channel>) -> Map<
    Seq<char>,
    Channel,
>;

/// `<FxHashMap as Default>::default`: an empty table.
#[verifier::external_body]
fn new_table() -> (table: fxhash::FxHashMap<String, Channel>)
    ensures
        forall|name: Seq<char>| !#[trigger] channels_in(table).dom().contains(name),
{
    fxhash::FxHashMap::default()
}

/// `HashMap::insert` on an `FxHashMap`: enters a channel under a name, in place of any other one
/// of that name.
#[verifier::external_body]
fn insert_channel(
    table: &mut fxhash::FxHashMap<String, Channel>,
    name: String,
    channel: Channel,
)
    ensures
        channels_in(*final(table)) == channels_in(*old(table)).insert(name@, channel),
{
    table.insert(name, channel);
}

/// `HashMap::get` on an `FxHashMap`: the channel under a name, if there is one.
#[verifier::external_body]
fn get_channel<'a>(table: &'a fxhash::FxHashMap<String, Channel>, name: &str) -> (channel: Option<
    &'a Channel,
>)
    ensures
        channel == (if channels_in(*table).dom().contains(name@) {
            Some(&channels_in(*table)[name@])
        } else {
            None
        }),
{
    table.get(name)
}

/// The last of the given channels that has this name.
pub open spec fn last_named(channels: Seq<Channel>, name: Seq<char>) -> Option<Channel>
    decreases channels.len(),
{
    if channels.len() == 0 {
        None
    } else if channels.last().name() == name {
        Some(channels.last())
    } else {
        last_named(channels.drop_last(), name)
    }
}

/// The channels that a server offers.
pub struct AllowedChannels {
    pub table: fxhash::FxHashMap<String, Channel>,
}

/// What a new data channel leads to.
#[derive(Clone, Copy, Debug, PartialEq, Eq, Structural)]
pub enum Destination {
    /// Nothing is offered under that name: the data channel is closed.
    Refused,
    /// The UDP port of this number on the server's machine.
    Udp(u16),
    /// The TCP port of this number on the server's machine.
    Tcp(u16),
    /// A local socket, which is left alone.
    LocalSocket,
}

/// What a channel leads to, or what becomes of a data channel for which there is none.
pub open spec fn destination(channel: Option<Channel>) -> Destination {
    match channel {
        None => Destination::Refused,
        Some(Channel::UDP { port, .. }) => Destination::Udp(port@),
        Some(Channel::TCP { port, .. }) => Destination::Tcp(port@),
        Some(Channel::LocalSocket { .. }) => Destination::LocalSocket,
    }
}

impl AllowedChannels {
    /// The channel that is offered under a name.
    pub open spec fn offered(self, name: Seq<char>) -> Option<Channel> {
        if channels_in(self.table).dom().contains(name) {
            Some(channels_in(self.table)[name])
        } else {
            None
        }
    }

    /// Offers the given channels. Of several that have the same name the last one counts.
    pub fn new(channels: Vec<Channel>) -> (allowed: AllowedChannels)
        ensures
            forall|name: Seq<char>| #[trigger]
                allowed.offered(name) == last_named(channels@, name),
    {
        let mut allowed = AllowedChannels { table: new_table() };
        let mut rest = channels;
        let ghost all = channels@;
        let ghost mut done: int = 0;
        assert(rest@ =~= all.skip(0));
        while rest.len() > 0
            invariant
                0 <= done <= all.len(),
                rest@ == all.skip(done),
                forall|name: Seq<char>| #[trigger]
                    allowed.offered(name) == last_named(all.take(done), name),
            decreases rest.len(),
        {
            let ghost before = allowed;
            let channel = rest.remove(0);
            let name = channel.public_name();
            insert_channel(&mut allowed.table, name, channel);
            proof {
                let now = all.take(done + 1);
                assert(now.drop_last() =~= all.take(done));
                assert forall|n: Seq<char>| #[trigger] allowed.offered(n) == last_named(now, n) by {
                    assert(before.offered(n) == last_named(all.take(done), n));
                }
                assert(rest@ =~= all.skip(done + 1));
                done = done + 1;
            }
        }
        assert(all.take(done) =~= all);
        allowed
    }

    /// What a new data channel of the given protocol leads to.
    pub fn dispatch(&self, protocol: &str) -> (r: Destination)
        ensures
            r == destination(self.offered(protocol@)),
    {
        match get_channel(&self.table, protocol) {
            None => Destination::Refused,
            Some(Channel::UDP { port, .. }) => Destination::Udp(port.get()),
            Some(Channel::TCP { port, .. }) => Destination::Tcp(port.get()),
            Some(Channel::LocalSocket { .. }) => Destination::LocalSocket,
        }
    }
}

/// What a server that relays between a socket and a data channel waits for.
pub enum RelayEvent<E> {
    /// So many bytes were read from the socket, or none could be.
    Read(Result<usize, E>),
    /// A message came in over the data channel, or none ever will.
    Message(Option<bytes::Bytes>),
}

/// What it does about it.
pub enum RelayAction<E> {
    /// Send this over the data channel.
    ToChannel(bytes::Bytes),
    /// Send this to the socket.
    ToSocket(Sending),
    /// The socket failed.
    SocketFailed(E),
    /// The data channel is gone.
    ChannelGone,
}

/// Passes on what came first: bytes that were read into `buf`, or a message.
pub fn relay<E>(buf: &[u8], event: RelayEvent<E>) -> (action: RelayAction<E>)
    requires
        event matches RelayEvent::Read(Ok(n)) ==> n <= buf@.len(),
    ensures
        match event {
            RelayEvent::Read(Ok(n)) => action matches RelayAction::ToChannel(payload) && content(
                payload,
            ) == buf@.take(n as int),
            RelayEvent::Read(Err(e)) => action == RelayAction::SocketFailed(e),
            RelayEvent::Message(Some(payload)) => action == RelayAction::<E>::ToSocket(
                Sending { payload, sent: 0 },
            ),
            RelayEvent::Message(None) => action == RelayAction::<E>::ChannelGone,
        },
{
    match event {
        RelayEvent::Read(Ok(n)) => RelayAction::ToChannel(payload_of(buf, n)),
        RelayEvent::Read(Err(e)) => RelayAction::SocketFailed(e),
        RelayEvent::Message(Some(payload)) => RelayAction::ToSocket(Sending::new(payload)),
        RelayEvent::Message(None) => RelayAction::ChannelGone,
    }
}

/// The channel is offered under this number: it is a port of that number, or one that is remapped
/// to it, or a local socket with the number for a name.
pub open spec fn offered_on(channel: Channel, number: u16) -> bool {
    match channel {
        Channel::UDP { port, remap, .. } => port_or_remap(port, remap) == number,
        Channel::TCP { port, remap, .. } => port_or_remap(port, remap) == number,
        Channel::LocalSocket { .. } => channel.name() == decimal_digits(number as nat),
    }
}

/// The last of the given channels that is offered under this number.
pub open spec fn last_on(channels: Seq<Channel>, number: u16) -> Option<Channel>
    decreases channels.len(),
{
    if channels.len() == 0 {
        None
    } else if offered_on(channels.last(), number) {
        Some(channels.last())
    } else {
        last_on(channels.drop_last(), number)
    }
}

/// A port is found under its number and no other one: who asks for the decimal notation of a
/// number gets the last channel that is offered under that number.
pub proof fn ports_are_found_by_number(channels: Seq<Channel>, number: u16)
    ensures
        last_named(channels, decimal_digits(number as nat)) == last_on(channels, number),
    decreases channels.len(),
{
    if channels.len() > 0 {
        ports_are_found_by_number(channels.drop_last(), number);
        match channels.last() {
            Channel::UDP { port, remap, .. } => {
                let other = port_or_remap(port, remap) as nat;
                if decimal_digits(other) == decimal_digits(number as nat) {
                    decimal_is_injective(other, number as nat);
                }
            },
            Channel::TCP { port, remap, .. } => {
                let other = port_or_remap(port, remap) as nat;
                if decimal_digits(other) == decimal_digits(number as nat) {
                    decimal_is_injective(other, number as nat);
                }
            },
            Channel::LocalSocket { .. } => {},
        }
    }
}

/// A name that no channel has is refused, and one that some channel has is not.
pub proof fn only_offered_names_are_served(channels: Seq<Channel>, name: Seq<char>)
    ensures
        destination(last_named(channels, name)) is Refused <==> forall|i: int|
            0 <= i < channels.len() ==> #[trigger] channels[i].name() != name,
    decreases channels.len(),
{
    if channels.len() > 0 {
        only_offered_names_are_served(channels.drop_last(), name);
        let n = channels.len() - 1;
        if channels[n].name() != name {
            assert forall|i: int|
                0 <= i < channels.drop_last().len() implies channels.drop_last()[i] == #[trigger] channels[i] by {}
            if destination(last_named(channels.drop_last(), name)) is Refused {
                assert forall|i: int| 0 <= i < channels.len() implies #[trigger] channels[i].name()
                    != name by {
                    if i < n {
                        assert(channels.drop_last()[i].name() != name);
                    }
                }
            }
        }
    }
}

} // verus!
