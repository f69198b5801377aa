//! The channels of a tunnel, as both ends are told of them.
use crate::rtc::{
    reliable_unordered_data_channel, tcp_data_channel, udp_data_channel, DataChannelInit,
};
use crate::text::{decimal, decimal_digits};
use vstd::prelude::*;

verus! {

/// The size of the buffer for a datagram.
pub const UDP_PACKET_SIZE: usize = 512;

/// The size of the buffer for what is read from a TCP connection.
pub const TCP_BUFFER_SIZE: usize = 2048;

/// A port number, which is never zero.
#[derive(Clone, Copy, Debug, PartialEq, Eq)]
pub struct Port {
    number: u16,
}

impl View for Port {
    type V = u16;

    closed spec fn view(&self) -> u16 {
        self.number
    }
}

impl Port {
    #[verifier::type_invariant]
    spec fn is_port(self) -> bool {
        self.number != 0
    }

    /// The port with this number, unless that is zero.
    pub fn new(number: u16) -> (port: Option<Port>)
        ensures
            number == 0 ==> port is None,
            number != 0 ==> port is Some && port->Some_0@ == number,
    {
        if number == 0 {
            None
        } else {
            Some(Port { number })
        }
    }

    /// The number of the port.
    pub fn get(&self) -> (number: u16)
        ensures
            number == self@,
            number != 0,
    {
        proof {
            use_type_invariant(self);
        }
        self.number
    }
}

/// How well the data channel of a connection has to work.
#[derive(Clone, Copy, Debug, PartialEq, Eq, Structural)]
pub enum Quality {
    UDP,
    TCP,
    ReliableUnordered,
}

impl vstd::std_specs::convert::FromSpecImpl<Quality> for DataChannelInit {
    open spec fn obeys_from_spec() -> bool {
        true
    }

    open spec fn from_spec(quality: Quality) -> Self {
        match quality {
            Quality::UDP => udp_data_channel(),
            Quality::TCP => tcp_data_channel(),
            Quality::ReliableUnordered => reliable_unordered_data_channel(),
        }
    }
}

impl From<Quality> for DataChannelInit {
    fn from(quality: Quality) -> (init: Self) {
        match quality {
            Quality::UDP => udp_data_channel(),
            Quality::TCP => tcp_data_channel(),
            Quality::ReliableUnordered => reliable_unordered_data_channel(),
        }
    }
}

/// A channel of a tunnel: what it leads to, and, under `remap`, what it is called elsewhere.
#[derive(Debug)]
pub enum Channel {
    UDP { port: Port, remap: Option<Port>, quality: Option<Quality> },
    TCP { port: Port, remap: Option<Port>, quality: Option<Quality> },
    LocalSocket { addr: String, remap: Option<String>, quality: Option<Quality> },
}

/// The number of the port that is used where `remap` may stand in for `port`.
pub open spec fn port_or_remap(port: Port, remap: Option<Port>) -> u16 {
    match remap {
        Some(other) => other@,
        None => port@,
    }
}

/// The number of the port that is used where `remap` may stand in for `port`.
pub fn remapped(port: Port, remap: Option<Port>) -> (number: u16)
    ensures
        number == port_or_remap(port, remap),
{
    match remap {
        Some(other) => other.get(),
        None => port.get(),
    }
}

impl Channel {
    /// The name under which a server offers the channel: what it is remapped to, or else what it
    /// leads to.
    pub open spec fn name(self) -> Seq<char> {
        match self {
            Channel::UDP { port, remap, .. } => decimal_digits(port_or_remap(port, remap) as nat),
            Channel::TCP { port, remap, .. } => decimal_digits(port_or_remap(port, remap) as nat),
            Channel::LocalSocket { addr, remap, .. } => match remap {
                Some(other) => other@,
                None => addr@,
            },
        }
    }

    /// The name under which a server offers the channel.
    pub fn public_name(&self) -> (name: String)
        ensures
            name@ == self.name(),
    {
        match self {
            Channel::UDP { port, remap, .. } => decimal(remapped(*port, *remap) as u64),
            Channel::TCP { port, remap, .. } => decimal(remapped(*port, *remap) as u64),
            Channel::LocalSocket { addr, remap, .. } => match remap {
                Some(other) => other.clone(),
                None => addr.clone(),
            },
        }
    }
}

} // verus!
