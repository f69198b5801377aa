//! Messages over a byte stream: every message travels behind its length, a `u32` in little
//! endian order.
//!
//! [`StreamTransport`] keeps the bytes that have arrived and are not yet part of a delivered
//! message. What has been read stays in that buffer when a receiver gives up waiting, so a
//! receive can be abandoned and taken up again at any point.
use crate::outside::{io_error_from_kind, IoErrorKind};
use vstd::prelude::*;
use vstd::string::StringExecFns;

verus! {

#[verifier::external_type_specification]
#[verifier::external_body]
#[verifier::reject_recursive_types(T)]
pub struct ExCompat<T>(tokio_util::compat::Compat<T>);

#[verifier::external_type_specification]
#[verifier::external_body]
#[verifier::reject_recursive_types(T)]
pub struct ExTlsStream<T>(tokio_rustls::TlsStream<T>);

#[verifier::external_type_specification]
#[verifier::external_body]
#[verifier::reject_recursive_types(IO)]
pub struct ExClientTlsStream<IO>(tokio_rustls::client::TlsStream<IO>);

#[verifier::external_type_specification]
#[verifier::external_body]
#[verifier::reject_recursive_types(IO)]
pub struct ExServerTlsStream<IO>(tokio_rustls::server::TlsStream<IO>);

/// The length of the header in front of each message.
pub const HEADER_LEN: usize = 4;

/// The four bytes of `n` in little endian order.
pub open spec fn le_bytes(n: nat) -> Seq<u8> {
    seq![
        (n % 256) as u8,
        (n / 256 % 256) as u8,
        (n / 65536 % 256) as u8,
        (n / 16777216 % 256) as u8,
    ]
}

/// The number that the first four bytes of `b` denote in little endian order.
pub open spec fn le_value(b: Seq<u8>) -> nat {
    (b[0] + 256 * b[1] + 65536 * b[2] + 16777216 * b[3]) as nat
}

/// A message as it travels: its length, then its bytes.
pub open spec fn frame(msg: Seq<u8>) -> Seq<u8> {
    le_bytes(msg.len()) + msg
}

/// A message can travel when its length fits the header.
pub open spec fn sendable(msg: Seq<u8>) -> bool {
    msg.len() <= u32::MAX
}

/// The first message in `buf` and the bytes behind it, once the whole message is there.
pub open spec fn first_message(buf: Seq<u8>) -> Option<(Seq<u8>, Seq<u8>)> {
    if buf.len() >= HEADER_LEN && buf.len() >= HEADER_LEN + le_value(buf) {
        let end = (HEADER_LEN + le_value(buf)) as int;
        Some((buf.subrange(HEADER_LEN as int, end), buf.skip(end)))
    } else {
        None
    }
}

/// All messages that are complete in `buf`, in order.
pub open spec fn messages(buf: Seq<u8>) -> Seq<Seq<u8>>
    decreases buf.len(),
{
    match first_message(buf) {
        Some((msg, rest)) => seq![msg] + messages(rest),
        None => seq![],
    }
}

/// The bytes of `buf` behind its last complete message.
pub open spec fn incomplete(buf: Seq<u8>) -> Seq<u8>
    decreases buf.len(),
{
    match first_message(buf) {
        Some((msg, rest)) => incomplete(rest),
        None => buf,
    }
}

/// The messages `msgs` as they travel one behind the other.
pub open spec fn frames(msgs: Seq<Seq<u8>>) -> Seq<u8>
    decreases msgs.len(),
{
    if msgs.len() == 0 {
        seq![]
    } else {
        frame(msgs[0]) + frames(msgs.drop_first())
    }
}

/// One turn of a receiver: it takes a complete message off the buffer, if there is one, or it
/// reads more bytes from the stream into the buffer.
pub enum Turn {
    Take,
    Read(Seq<u8>),
}

/// The bytes that the turns read.
pub open spec fn bytes_read(turns: Seq<Turn>) -> Seq<u8>
    decreases turns.len(),
{
    if turns.len() == 0 {
        seq![]
    } else {
        match turns[0] {
            Turn::Take => bytes_read(turns.drop_first()),
            Turn::Read(chunk) => chunk + bytes_read(turns.drop_first()),
        }
    }
}

/// The messages that the turns take, starting from the buffer `buf`.
pub open spec fn taken(buf: Seq<u8>, turns: Seq<Turn>) -> Seq<Seq<u8>>
    decreases turns.len(),
{
    if turns.len() == 0 {
        seq![]
    } else {
        match turns[0] {
            Turn::Take => match first_message(buf) {
                Some((msg, rest)) => seq![msg] + taken(rest, turns.drop_first()),
                None => taken(buf, turns.drop_first()),
            },
            Turn::Read(chunk) => taken(buf + chunk, turns.drop_first()),
        }
    }
}

/// What the turns leave in the buffer, starting from the buffer `buf`.
pub open spec fn left_over(buf: Seq<u8>, turns: Seq<Turn>) -> Seq<u8>
    decreases turns.len(),
{
    if turns.len() == 0 {
        buf
    } else {
        match turns[0] {
            Turn::Take => match first_message(buf) {
                Some((msg, rest)) => left_over(rest, turns.drop_first()),
                None => left_over(buf, turns.drop_first()),
            },
            Turn::Read(chunk) => left_over(buf + chunk, turns.drop_first()),
        }
    }
}

/// The header of a message gives its length back.
proof fn header_gives_length(n: nat, rest: Seq<u8>)
    requires
        n <= u32::MAX,
    ensures
        le_value(le_bytes(n) + rest) == n,
{
    let b = le_bytes(n) + rest;
    assert(b[0] == (n % 256) as u8);
    assert(b[1] == (n / 256 % 256) as u8);
    assert(b[2] == (n / 65536 % 256) as u8);
    assert(b[3] == (n / 16777216 % 256) as u8);
    assert(n == n % 256 + 256 * (n / 256 % 256) + 65536 * (n / 65536 % 256) + 16777216 * (n
        / 16777216 % 256)) by (nonlinear_arith)
        requires
            n <= u32::MAX,
    ;
}

/// What a receiver gets back of a sent message: the message itself, and whatever follows it
/// stays behind.
pub proof fn receive_gives_back_sent(msg: Seq<u8>, rest: Seq<u8>)
    requires
        sendable(msg),
    ensures
        first_message(frame(msg) + rest) == Some((msg, rest)),
{
    let buf = frame(msg) + rest;
    assert(buf =~= le_bytes(msg.len()) + (msg + rest));
    header_gives_length(msg.len(), msg + rest);
    let end = (HEADER_LEN + msg.len()) as int;
    assert(buf.subrange(HEADER_LEN as int, end) =~= msg);
    assert(buf.skip(end) =~= rest);
}

/// The messages of a stream are those that were sent, in the order in which they were sent.
pub proof fn messages_arrive_in_order(msgs: Seq<Seq<u8>>, tail: Seq<u8>)
    requires
        forall|i: int| 0 <= i < msgs.len() ==> sendable(#[trigger] msgs[i]),
    ensures
        messages(frames(msgs) + tail) == msgs + messages(tail),
        incomplete(frames(msgs) + tail) == incomplete(tail),
    decreases msgs.len(),
{
    if msgs.len() == 0 {
        assert(frames(msgs) + tail =~= tail);
        assert(msgs + messages(tail) =~= messages(tail));
    } else {
        let rest = msgs.drop_first();
        assert forall|i: int| 0 <= i < rest.len() implies sendable(#[trigger] rest[i]) by {
            assert(rest[i] == msgs[i + 1]);
        }
        messages_arrive_in_order(rest, tail);
        assert(sendable(msgs[0]));
        receive_gives_back_sent(msgs[0], frames(rest) + tail);
        assert(frames(msgs) + tail =~= frame(msgs[0]) + (frames(rest) + tail));
        assert(seq![msgs[0]] + (rest + messages(tail)) =~= msgs + messages(tail));
    }
}

/// A message that is complete stays the first one when more bytes arrive.
pub proof fn complete_message_stays(buf: Seq<u8>, more: Seq<u8>)
    requires
        first_message(buf) is Some,
    ensures
        first_message(buf + more) == Some(
            (first_message(buf).unwrap().0, first_message(buf).unwrap().1 + more),
        ),
{
    let all = buf + more;
    assert(le_value(all) == le_value(buf));
    let end = (HEADER_LEN + le_value(buf)) as int;
    assert(all.subrange(HEADER_LEN as int, end) =~= buf.subrange(HEADER_LEN as int, end));
    assert(all.skip(end) =~= buf.skip(end) + more);
}

/// How a stream is cut into reads, and when complete messages are taken between those reads,
/// makes no difference: what was taken, together with what is still complete in the buffer, is
/// what the whole stream holds. No byte is lost and none counts twice.
pub proof fn cutting_makes_no_difference(buf: Seq<u8>, turns: Seq<Turn>)
    ensures
        taken(buf, turns) + messages(left_over(buf, turns)) == messages(buf + bytes_read(turns)),
        incomplete(left_over(buf, turns)) == incomplete(buf + bytes_read(turns)),
    decreases turns.len(),
{
    if turns.len() == 0 {
        assert(buf + bytes_read(turns) =~= buf);
        assert(taken(buf, turns) + messages(buf) =~= messages(buf));
    } else {
        let later = turns.drop_first();
        match turns[0] {
            Turn::Take => match first_message(buf) {
                Some((msg, rest)) => {
                    cutting_makes_no_difference(rest, later);
                    complete_message_stays(buf, bytes_read(later));
                    assert((seq![msg] + taken(rest, later)) + messages(left_over(rest, later))
                        =~= seq![msg] + (taken(rest, later) + messages(left_over(rest, later))));
                },
                None => {
                    cutting_makes_no_difference(buf, later);
                },
            },
            Turn::Read(chunk) => {
                cutting_makes_no_difference(buf + chunk, later);
                assert((buf + chunk) + bytes_read(later) =~= buf + (chunk + bytes_read(later)));
            },
        }
    }
}

/// The bytes to write for a message: its length, then its bytes.
pub fn frame_message(msg: &[u8]) -> (out: Vec<u8>)
    requires
        sendable(msg@),
    ensures
        out@ == frame(msg@),
{
    let n: u32 = msg.len() as u32;
    let mut out: Vec<u8> = Vec::new();
    out.push((n % 256) as u8);
    out.push((n / 256 % 256) as u8);
    out.push((n / 65536 % 256) as u8);
    out.push((n / 16777216 % 256) as u8);
    assert(out@ =~= le_bytes(msg@.len()));
    out.extend_from_slice(msg);
    assert(out@ =~= frame(msg@));
    out
}

/// The hexadecimal digit `d` in lower case.
pub open spec fn hex_digit(d: int) -> char {
    "0123456789abcdef"@[d]
}

/// Two digits for each byte of `bytes`, the upper four bits first.
pub open spec fn hex_text(bytes: Seq<u8>) -> Seq<char> {
    Seq::new(
        2 * bytes.len(),
        |i: int| hex_digit(if i % 2 == 0 { bytes[i / 2] / 16 } else { bytes[i / 2] % 16 } as int),
    )
}

/// `hex::encode`: two lower case digits for each byte, in the order of the bytes.
#[verifier::external_body]
fn hex_encode(bytes: &[u8]) -> (text: String)
    ensures
        text@ == hex_text(bytes@),
{
    hex::encode(bytes)
}

/// Why a message could not be received.
#[derive(Debug)]
pub enum RecvError<E> {
    DeserializeError(E),
    IOError(std::io::Error),
}

/// The outcome of a receive whose message arrived and was decoded with the given result.
pub fn decoded<V, E>(result: Result<V, E>) -> (r: Result<V, RecvError<E>>)
    ensures
        r == (match result {
            Ok(value) => Ok::<V, RecvError<E>>(value),
            Err(error) => Err(RecvError::DeserializeError(error)),
        }),
{
    match result {
        Ok(value) => Ok(value),
        Err(error) => Err(RecvError::DeserializeError(error)),
    }
}

/// A transport that can name the peer at its other end.
pub trait IDUpgradeTransport {
    /// A name for the peer, for reports. It may change over time, as the peer goes away.
    fn get_id(&self) -> (id: String);
}

/// A transport on a byte stream such as a TCP connection (as opposed to a message based
/// protocol such as HTTP). The stream has to be reliable.
pub struct StreamTransport<T> {
    /// The stream itself.
    pub stream: T,
    /// The bytes that were read and are not yet part of a delivered message.
    pub recv_buffer: Vec<u8>,
}

impl<T> StreamTransport<T> {
    /// The buffered bytes in hexadecimal notation, for diagnostic output.
    pub fn buffered_hex(&self) -> (text: String)
        ensures
            text@ == hex_text(self.recv_buffer@),
    {
        hex_encode(self.recv_buffer.as_slice())
    }

    /// The transport in diagnostic output, where `stream` is what the stream is shown as.
    pub fn debug_text(&self, stream: &str) -> (text: String)
        ensures
            text@ == "StreamTransport { stream: "@ + stream@ + ", recv_buffer: \""@ + hex_text(
                self.recv_buffer@,
            ) + "\" }"@,
    {
        "StreamTransport { stream: ".to_owned().concat(stream).concat(
            ", recv_buffer: \"",
        ).concat(self.buffered_hex().as_str()).concat("\" }")
    }

    /// Takes the first message off the buffer, if it is complete.
    pub fn take_message(&mut self) -> (msg: Option<Vec<u8>>)
        ensures
            final(self).stream == old(self).stream,
            match first_message(old(self).recv_buffer@) {
                Some((body, rest)) => msg is Some && msg->Some_0@ == body && final(self).recv_buffer@
                    == rest,
                None => msg is None && final(self).recv_buffer@ == old(self).recv_buffer@,
            },
    {
        if self.recv_buffer.len() < HEADER_LEN {
            return None;
        }
        let b0: u32 = self.recv_buffer[0] as u32;
        let b1: u32 = self.recv_buffer[1] as u32;
        let b2: u32 = self.recv_buffer[2] as u32;
        let b3: u32 = self.recv_buffer[3] as u32;
        let size: u32 = b0 + 256 * b1 + 65536 * b2 + 16777216 * b3;
        assert(size == le_value(self.recv_buffer@));
        if self.recv_buffer.len() - HEADER_LEN < size as usize {
            return None;
        }
        let end: usize = size as usize + HEADER_LEN;
        let rest = self.recv_buffer.split_off(end);
        let body = self.recv_buffer.split_off(HEADER_LEN);
        assert(body@ =~= old(self).recv_buffer@.subrange(HEADER_LEN as int, end as int));
        assert(rest@ =~= old(self).recv_buffer@.skip(end as int));
        self.recv_buffer = rest;
        Some(body)
    }

    /// Takes in a read of `n` bytes, the first `n` of `buf`, and then takes the first message
    /// off the buffer, if it is complete. A read of no bytes is the end of the stream.
    pub fn receive(&mut self, buf: &[u8], n: usize) -> (r: Result<Option<Vec<u8>>, std::io::Error>)
        requires
            n <= buf@.len(),
        ensures
            final(self).stream == old(self).stream,
            n == 0 ==> r == Err::<Option<Vec<u8>>, _>(
                crate::outside::io_error_of_kind(IoErrorKind::UnexpectedEof),
            ) && final(self).recv_buffer@ == old(self).recv_buffer@,
            n > 0 ==> r is Ok && match first_message(old(self).recv_buffer@ + buf@.take(n as int)) {
                Some((body, rest)) => r->Ok_0 is Some && r->Ok_0->Some_0@ == body && final(self).recv_buffer@
                    == rest,
                None => r->Ok_0 is None && final(self).recv_buffer@ == old(self).recv_buffer@
                    + buf@.take(n as int),
            },
    {
        if n == 0 {
            return Err(io_error_from_kind(IoErrorKind::UnexpectedEof));
        }
        let (chunk, _) = buf.split_at(n);
        self.recv_buffer.extend_from_slice(chunk);
        assert(self.recv_buffer@ =~= old(self).recv_buffer@ + buf@.take(n as int));
        Ok(self.take_message())
    }
}

impl<T> vstd::std_specs::convert::FromSpecImpl<T> for StreamTransport<T> {
    open spec fn obeys_from_spec() -> bool {
        false
    }

    open spec fn from_spec(stream: T) -> Self {
        arbitrary()
    }
}

impl<T> From<T> for StreamTransport<T> {
    /// A transport on `stream` that has read nothing yet.
    fn from(stream: T) -> (transport: Self)
        ensures
            transport.stream == stream,
            transport.recv_buffer@ == Seq::<u8>::empty(),
    {
        StreamTransport { stream, recv_buffer: Vec::new() }
    }
}

impl<T: IDUpgradeTransport> IDUpgradeTransport for StreamTransport<T> {
    /// The name that the stream itself gives.
    fn get_id(&self) -> (id: String)
        ensures
            call_ensures(T::get_id, (&self.stream,), id),
    {
        self.stream.get_id()
    }
}

/// `Compat::get_ref`: the stream that is adapted.
/// Since that stream can be of any type, no name stands for it: callers speak of what this call
/// returned.
#[verifier::external_body]
fn under_compat<T>(stream: &tokio_util::compat::Compat<T>) -> (inner: &T) {
    stream.get_ref()
}

/// `inner` is the stream under an adapter.
pub closed spec fn is_under_compat<T>(
    stream: &tokio_util::compat::Compat<T>,
    inner: &T,
) -> bool {
    call_ensures(under_compat::<T>, (stream,), inner)
}

impl<T: IDUpgradeTransport> IDUpgradeTransport for tokio_util::compat::Compat<T> {
    /// The name that the stream underneath gives.
    fn get_id(&self) -> (id: String)
        ensures
            exists|inner: &T| #[trigger]
                is_under_compat(self, inner) && call_ensures(T::get_id, (inner,), id),
    {
        let inner = under_compat(self);
        assert(is_under_compat(self, inner));
        inner.get_id()
    }
}

/// `tokio_rustls::TlsStream::get_ref`: the stream that TLS was put on.
/// Since that stream can be of any type, no name stands for it: callers speak of what this call
/// returned.
#[verifier::external_body]
fn under_tls<T>(stream: &tokio_rustls::TlsStream<T>) -> (inner: &T) {
    stream.get_ref().0
}

/// `inner` is the stream under TLS.
pub closed spec fn is_under_tls<T>(
    stream: &tokio_rustls::TlsStream<T>,
    inner: &T,
) -> bool {
    call_ensures(under_tls::<T>, (stream,), inner)
}

impl<T: IDUpgradeTransport> IDUpgradeTransport for tokio_rustls::TlsStream<T> {
    /// The name that the stream underneath gives.
    fn get_id(&self) -> (id: String)
        ensures
            exists|inner: &T| #[trigger]
                is_under_tls(self, inner) && call_ensures(T::get_id, (inner,), id),
    {
        let inner = under_tls(self);
        assert(is_under_tls(self, inner));
        inner.get_id()
    }
}

/// `tokio_rustls::client::TlsStream::get_ref`: the stream that TLS was put on.
/// Since that stream can be of any type, no name stands for it: callers speak of what this call
/// returned.
#[verifier::external_body]
fn under_client_tls<IO>(stream: &tokio_rustls::client::TlsStream<IO>) -> (inner: &IO) {
    stream.get_ref().0
}

/// `inner` is the stream under TLS at the end of a client.
pub closed spec fn is_under_client_tls<IO>(
    stream: &tokio_rustls::client::TlsStream<IO>,
    inner: &IO,
) -> bool {
    call_ensures(under_client_tls::<IO>, (stream,), inner)
}

impl<IO: IDUpgradeTransport> IDUpgradeTransport for tokio_rustls::client::TlsStream<IO> {
    /// The name that the stream underneath gives.
    fn get_id(&self) -> (id: String)
        ensures
            exists|inner: &IO| #[trigger]
                is_under_client_tls(self, inner) && call_ensures(IO::get_id, (inner,), id),
    {
        let inner = under_client_tls(self);
        assert(is_under_client_tls(self, inner));
        inner.get_id()
    }
}

/// `tokio_rustls::server::TlsStream::get_ref`: the stream that TLS was put on.
/// Since that stream can be of any type, no name stands for it: callers speak of what this call
/// returned.
#[verifier::external_body]
fn under_server_tls<IO>(stream: &tokio_rustls::server::TlsStream<IO>) -> (inner: &IO) {
    stream.get_ref().0
}

/// `inner` is the stream under TLS at the end of a server.
pub closed spec fn is_under_server_tls<IO>(
    stream: &tokio_rustls::server::TlsStream<IO>,
    inner: &IO,
) -> bool {
    call_ensures(under_server_tls::<IO>, (stream,), inner)
}

impl<IO: IDUpgradeTransport> IDUpgradeTransport for tokio_rustls::server::TlsStream<IO> {
    /// The name that the stream underneath gives.
    fn get_id(&self) -> (id: String)
        ensures
            exists|inner: &IO| #[trigger]
                is_under_server_tls(self, inner) && call_ensures(IO::get_id, (inner,), id),
    {
        let inner = under_server_tls(self);
        assert(is_under_server_tls(self, inner));
        inner.get_id()
    }
}

/// At a server, a transport over TLS names its peer as the stream under TLS does. That stream
/// can have others below it in turn, each of which passes the name on.
pub proof fn server_names_come_from_below<S: IDUpgradeTransport>(
    transport: StreamTransport<tokio_rustls::server::TlsStream<S>>,
    id: String,
)
    requires
        call_ensures(
            StreamTransport::<tokio_rustls::server::TlsStream<S>>::get_id,
            (&transport,),
            id,
        ),
    ensures
        exists|inner: &S| #[trigger]
            is_under_server_tls(&transport.stream, inner) && call_ensures(S::get_id, (inner,), id),
{
}

/// The same at a server over an adapter that lies under TLS: the name is that of the stream
/// under the adapter.
pub proof fn server_names_come_from_below_adapters<S: IDUpgradeTransport>(
    transport: StreamTransport<tokio_rustls::server::TlsStream<tokio_util::compat::Compat<S>>>,
    id: String,
)
    requires
        call_ensures(
            StreamTransport::<
                tokio_rustls::server::TlsStream<tokio_util::compat::Compat<S>>,
            >::get_id,
            (&transport,),
            id,
        ),
    ensures
        exists|adapter: &tokio_util::compat::Compat<S>, inner: &S|
            is_under_server_tls(&transport.stream, adapter) && #[trigger] is_under_compat(
                adapter,
                inner,
            ) && call_ensures(S::get_id, (inner,), id),
{
}

/// At a client, a transport over TLS names its peer as the stream under TLS does. That stream
/// can have others below it in turn, each of which passes the name on.
pub proof fn client_names_come_from_below<S: IDUpgradeTransport>(
    transport: StreamTransport<tokio_rustls::client::TlsStream<S>>,
    id: String,
)
    requires
        call_ensures(
            StreamTransport::<tokio_rustls::client::TlsStream<S>>::get_id,
            (&transport,),
            id,
        ),
    ensures
        exists|inner: &S| #[trigger]
            is_under_client_tls(&transport.stream, inner) && call_ensures(S::get_id, (inner,), id),
{
}

/// The same at a client over an adapter that lies under TLS: the name is that of the stream
/// under the adapter.
pub proof fn client_names_come_from_below_adapters<S: IDUpgradeTransport>(
    transport: StreamTransport<tokio_rustls::client::TlsStream<tokio_util::compat::Compat<S>>>,
    id: String,
)
    requires
        call_ensures(
            StreamTransport::<
                tokio_rustls::client::TlsStream<tokio_util::compat::Compat<S>>,
            >::get_id,
            (&transport,),
            id,
        ),
    ensures
        exists|adapter: &tokio_util::compat::Compat<S>, inner: &S|
            is_under_client_tls(&transport.stream, adapter) && #[trigger] is_under_compat(
                adapter,
                inner,
            ) && call_ensures(S::get_id, (inner,), id),
{
}

/// What has been received has no part in the name of the peer: a transport whose stream is the
/// same gives a name that the stream itself gives, whatever is in the buffer.
pub proof fn buffer_has_no_part_in_name<T: IDUpgradeTransport>(
    before: StreamTransport<T>,
    after: StreamTransport<T>,
    id: String,
)
    requires
        before.stream == after.stream,
        call_ensures(StreamTransport::<T>::get_id, (&after,), id),
    ensures
        call_ensures(T::get_id, (&before.stream,), id),
{
}

/// A message of any length that a `u32` holds can be sent. It travels behind its length, which
/// takes four bytes, the least significant one first; all of it and nothing else follows.
pub proof fn message_travels_behind_its_length(msg: &[u8], out: Vec<u8>)
    requires
        msg@.len() <= u32::MAX,
        call_ensures(frame_message, (msg,), out),
    ensures
        call_requires(frame_message, (msg,)),
        out@.len() == 4 + msg@.len(),
        out@[0] + 256 * out@[1] + 65536 * out@[2] + 16777216 * out@[3] == msg@.len(),
        out@.skip(4) == msg@,
{
    header_gives_length(msg@.len(), msg@);
    assert(out@.skip(4) =~= msg@);
}

/// The first message is taken exactly when all of it has arrived, and then exactly the bytes that
/// its length says, without the length; whatever follows stays, and where the message is not
/// complete, everything stays.
pub proof fn complete_messages_are_taken<T>(
    transport: &mut StreamTransport<T>,
    msg: Option<Vec<u8>>,
)
    requires
        call_ensures(StreamTransport::<T>::take_message, (transport,), msg),
    ensures
        ({
            let buf = old(transport).recv_buffer@;
            let rest = final(transport).recv_buffer@;
            let size = buf[0] + 256 * buf[1] + 65536 * buf[2] + 16777216 * buf[3];
            &&& final(transport).stream == old(transport).stream
            &&& msg is Some <==> buf.len() >= 4 && buf.len() >= 4 + size
            &&& msg is Some ==> msg->Some_0@.len() == size && buf.take(4) + msg->Some_0@ + rest
                == buf
            &&& msg is None ==> rest == buf
        }),
{
    let buf = old(transport).recv_buffer@;
    if msg is Some {
        assert(buf.take(4) + msg->Some_0@ + final(transport).recv_buffer@ =~= buf);
    }
}

/// A read adds its bytes, and no others, behind those that are there, and the first message is
/// taken exactly when all of it is there then. A read of no bytes is the end of the stream: it is
/// reported as such, and changes nothing.
pub proof fn reads_are_added_in_order<T>(
    transport: &mut StreamTransport<T>,
    read: &[u8],
    n: usize,
    r: Result<Option<Vec<u8>>, std::io::Error>,
)
    requires
        n <= read@.len(),
        call_ensures(StreamTransport::<T>::receive, (transport, read, n), r),
    ensures
        call_requires(StreamTransport::<T>::receive, (transport, read, n)),
        ({
            let buf = old(transport).recv_buffer@ + read@.take(n as int);
            let rest = final(transport).recv_buffer@;
            let size = buf[0] + 256 * buf[1] + 65536 * buf[2] + 16777216 * buf[3];
            &&& final(transport).stream == old(transport).stream
            &&& r is Err <==> n == 0
            &&& r is Err ==> rest == old(transport).recv_buffer@
            &&& r is Err ==> r->Err_0 == crate::outside::io_error_of_kind(
                IoErrorKind::UnexpectedEof,
            )
            &&& r is Ok && r->Ok_0 is None ==> rest == buf
            &&& r is Ok ==> (r->Ok_0 is Some <==> buf.len() >= 4 && buf.len() >= 4 + size)
            &&& r is Ok && r->Ok_0 is Some ==> r->Ok_0->Some_0@.len() == size && buf.take(4)
                + r->Ok_0->Some_0@ + rest == buf
        }),
{
    let buf = old(transport).recv_buffer@ + read@.take(n as int);
    if r is Ok && r->Ok_0 is Some {
        assert(buf.take(4) + r->Ok_0->Some_0@ + final(transport).recv_buffer@ =~= buf);
    }
}

/// What is written for a message is received as that message, whatever its length, by a transport
/// that has nothing else in its buffer; and nothing is left behind.
pub proof fn written_message_is_received<T>(
    msg: &[u8],
    out: Vec<u8>,
    read: &[u8],
    transport: &mut StreamTransport<T>,
    r: Result<Option<Vec<u8>>, std::io::Error>,
)
    requires
        msg@.len() <= u32::MAX,
        out@.len() <= usize::MAX,
        call_ensures(frame_message, (msg,), out),
        read@ == out@,
        old(transport).recv_buffer@.len() == 0,
        call_ensures(
            StreamTransport::<T>::receive,
            (transport, read, out@.len() as usize),
            r,
        ),
    ensures
        r is Ok && r->Ok_0 is Some,
        r->Ok_0->Some_0@ == msg@,
        final(transport).recv_buffer@.len() == 0,
{
    message_travels_behind_its_length(msg, out);
    reads_are_added_in_order(transport, read, out@.len() as usize, r);
    let buf = old(transport).recv_buffer@ + read@.take(out@.len() as int);
    assert(buf =~= out@);
    let got = r->Ok_0->Some_0@;
    assert((buf.take(4) + got + final(transport).recv_buffer@).skip(4) =~= got
        + final(transport).recv_buffer@);
    assert(got + final(transport).recv_buffer@ == msg@);
    assert(got =~= msg@);
}

/// A transport starts with nothing in its buffer, on the stream that it is given.
pub proof fn transport_starts_empty<T>(stream: T, transport: StreamTransport<T>)
    requires
        call_ensures(<StreamTransport<T> as From<T>>::from, (stream,), transport),
    ensures
        transport.stream == stream,
        transport.recv_buffer@.len() == 0,
{
}

/// A message that could be decoded is handed out as it is, and one that could not be is an error of
/// decoding.
pub proof fn decoding_has_the_last_word<V, E>(
    result: Result<V, E>,
    r: Result<V, RecvError<E>>,
)
    requires
        call_ensures(decoded::<V, E>, (result,), r),
    ensures
        result is Ok ==> r is Ok && r->Ok_0 == result->Ok_0,
        result is Err ==> r is Err && r->Err_0 == RecvError::DeserializeError(result->Err_0),
{
}

/// Every buffered byte is shown, by two hexadecimal digits, in order; the stream is shown as given.
pub proof fn buffer_is_shown_in_full<T>(
    transport: StreamTransport<T>,
    hex: String,
    stream: &str,
    text: String,
)
    requires
        call_ensures(StreamTransport::<T>::buffered_hex, (&transport,), hex),
        call_ensures(StreamTransport::<T>::debug_text, (&transport, stream), text),
    ensures
        hex@.len() == 2 * transport.recv_buffer@.len(),
        forall|i: int|
            0 <= i < transport.recv_buffer@.len() ==> {
                let byte = #[trigger] transport.recv_buffer@[i] as int;
                &&& hex@[2 * i] == "0123456789abcdef"@[byte / 16]
                &&& hex@[2 * i + 1] == "0123456789abcdef"@[byte % 16]
            },
        text@ == "StreamTransport { stream: "@ + stream@ + ", recv_buffer: \""@ + hex@ + "\" }"@,
{
}

/// A stream on top of another one names its peer as that one does, for an adapter and for TLS at
/// either end.
pub proof fn names_pass_through_layers<S: IDUpgradeTransport>(
    adapter: tokio_util::compat::Compat<S>,
    tls: tokio_rustls::TlsStream<S>,
    client: tokio_rustls::client::TlsStream<S>,
    server: tokio_rustls::server::TlsStream<S>,
    of_adapter: String,
    of_tls: String,
    of_client: String,
    of_server: String,
)
    requires
        call_ensures(tokio_util::compat::Compat::<S>::get_id, (&adapter,), of_adapter),
        call_ensures(tokio_rustls::TlsStream::<S>::get_id, (&tls,), of_tls),
        call_ensures(tokio_rustls::client::TlsStream::<S>::get_id, (&client,), of_client),
        call_ensures(tokio_rustls::server::TlsStream::<S>::get_id, (&server,), of_server),
    ensures
        exists|inner: &S| #[trigger]
            is_under_compat(&adapter, inner) && call_ensures(S::get_id, (inner,), of_adapter),
        exists|inner: &S| #[trigger]
            is_under_tls(&tls, inner) && call_ensures(S::get_id, (inner,), of_tls),
        exists|inner: &S| #[trigger]
            is_under_client_tls(&client, inner) && call_ensures(S::get_id, (inner,), of_client),
        exists|inner: &S| #[trigger]
            is_under_server_tls(&server, inner) && call_ensures(S::get_id, (inner,), of_server),
{
}

/// A transport names its peer as its stream does.
pub proof fn transport_goes_by_name_of_stream<T: IDUpgradeTransport>(
    transport: StreamTransport<T>,
    id: String,
)
    requires
        call_ensures(StreamTransport::<T>::get_id, (&transport,), id),
    ensures
        call_ensures(T::get_id, (&transport.stream,), id),
{
}

} // verus!
