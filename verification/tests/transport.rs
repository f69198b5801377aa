use std::io;
use std::pin::Pin;
use std::task::{Context, Poll};
use tokio::io::{AsyncRead, AsyncWrite, DuplexStream, ReadBuf};
use tokio_util::compat::TokioAsyncReadCompatExt;
use webrtc_tunnel::text::{address_id, decimal, process_id};
use webrtc_tunnel::tls::{new_acceptor, new_tls_connector};
use webrtc_tunnel::transport::{
    decoded, frame_message, IDUpgradeTransport, RecvError, StreamTransport,
};

struct Named(&'static str);

impl IDUpgradeTransport for Named {
    fn get_id(&self) -> String {
        self.0.to_owned()
    }
}

#[test]
fn frame_is_length_then_bytes() {
    assert_eq!(frame_message(&[]), vec![0, 0, 0, 0]);
    assert_eq!(frame_message(&[7]), vec![1, 0, 0, 0, 7]);
    let long = vec![9u8; 70_000];
    let framed = frame_message(&long);
    assert_eq!(framed.len(), 70_004);
    assert_eq!(&framed[..4], &[0x70, 0x11, 0x01, 0x00]);
    assert_eq!(&framed[4..], &long[..]);
}

#[test]
fn sent_message_is_received() {
    for msg in [vec![], vec![1], vec![0; 255], vec![3; 256], (0..=255).collect::<Vec<u8>>()] {
        let mut transport = StreamTransport::from(());
        let framed = frame_message(&msg);
        let received = transport.receive(&framed, framed.len()).unwrap();
        assert_eq!(received, Some(msg));
        assert!(transport.recv_buffer.is_empty());
    }
}

#[test]
fn messages_come_out_in_order() {
    let mut stream = Vec::new();
    for msg in [&b"one"[..], &b""[..], &b"three"[..]] {
        stream.extend(frame_message(msg));
    }
    let mut transport = StreamTransport::from(());
    assert_eq!(transport.receive(&stream, stream.len()).unwrap(), Some(b"one".to_vec()));
    assert_eq!(transport.take_message(), Some(vec![]));
    assert_eq!(transport.take_message(), Some(b"three".to_vec()));
    assert_eq!(transport.take_message(), None);
}

#[test]
fn message_in_single_bytes_is_received_once() {
    let framed = frame_message(b"tunnel");
    let mut transport = StreamTransport::from(());
    let mut got = Vec::new();
    for byte in &framed {
        if let Some(msg) = transport.receive(&[*byte], 1).unwrap() {
            got.push(msg);
        }
    }
    assert_eq!(got, vec![b"tunnel".to_vec()]);
}

#[test]
fn abandoned_receive_loses_nothing() {
    let framed = frame_message(b"abandoned");
    let mut transport = StreamTransport::from(());
    assert_eq!(transport.receive(&framed[..6], 6).unwrap(), None);
    assert_eq!(transport.take_message(), None);
    assert_eq!(transport.recv_buffer, framed[..6].to_vec());
    assert_eq!(
        transport.receive(&framed[6..], framed.len() - 6).unwrap(),
        Some(b"abandoned".to_vec())
    );
}

#[test]
fn cutting_a_stream_differently_gives_the_same_messages() {
    let mut stream = Vec::new();
    let msgs: Vec<Vec<u8>> = (0..5u8).map(|i| vec![i; 3 * i as usize]).collect();
    for msg in &msgs {
        stream.extend(frame_message(msg));
    }
    for cut in 1..stream.len() {
        let mut transport = StreamTransport::from(());
        let mut got = Vec::new();
        for chunk in stream.chunks(cut) {
            got.extend(transport.receive(chunk, chunk.len()).unwrap());
            while let Some(msg) = transport.take_message() {
                got.push(msg);
            }
        }
        assert_eq!(got, msgs);
        assert!(transport.recv_buffer.is_empty());
    }
}

#[test]
fn complete_message_stays_when_more_arrives() {
    let mut transport = StreamTransport::from(());
    transport.recv_buffer = frame_message(b"first");
    let more = [1, 2, 3];
    assert_eq!(transport.receive(&more, 3).unwrap(), Some(b"first".to_vec()));
    assert_eq!(transport.recv_buffer, vec![1, 2, 3]);
}

#[test]
fn only_the_bytes_read_count() {
    let mut buf = frame_message(b"ab");
    buf.extend([0xff; 10]);
    let mut transport = StreamTransport::from(());
    assert_eq!(transport.receive(&buf, 5).unwrap(), None);
    assert_eq!(transport.recv_buffer, vec![2, 0, 0, 0, b'a']);
}

#[test]
fn empty_read_is_the_end() {
    let mut transport = StreamTransport::from(());
    transport.recv_buffer = vec![1, 0];
    let error = transport.receive(&[5; 8], 0).unwrap_err();
    assert_eq!(error.kind(), std::io::ErrorKind::UnexpectedEof);
    assert_eq!(transport.recv_buffer, vec![1, 0]);
}

#[test]
fn decoding_failures_are_told_apart() {
    assert!(matches!(decoded::<u8, &str>(Ok(3)), Ok(3)));
    assert!(matches!(decoded::<u8, &str>(Err("bad")), Err(RecvError::DeserializeError("bad"))));
}

#[test]
fn buffer_is_shown_in_hexadecimal() {
    let mut transport = StreamTransport::from(());
    assert_eq!(transport.buffered_hex(), "");
    transport.recv_buffer = vec![0x00, 0x1f, 0xa0, 0xff];
    assert_eq!(transport.buffered_hex(), "001fa0ff");
}

#[test]
fn transport_is_shown_with_its_stream() {
    let mut transport = StreamTransport::from(());
    assert_eq!(transport.debug_text("S"), "StreamTransport { stream: S, recv_buffer: \"\" }");
    transport.recv_buffer = vec![0x0a, 0xff];
    assert_eq!(transport.debug_text("S"), "StreamTransport { stream: S, recv_buffer: \"0aff\" }");
}

#[test]
fn transport_is_named_by_its_stream() {
    assert_eq!(StreamTransport::from(Named("peer")).get_id(), "peer");
}

/// One end of a pipe, with a name for the peer at the other.
struct Pipe(DuplexStream, &'static str);

impl IDUpgradeTransport for Pipe {
    fn get_id(&self) -> String {
        self.1.to_owned()
    }
}

impl AsyncRead for Pipe {
    fn poll_read(
        mut self: Pin<&mut Self>,
        cx: &mut Context<'_>,
        buf: &mut ReadBuf<'_>,
    ) -> Poll<io::Result<()>> {
        Pin::new(&mut self.0).poll_read(cx, buf)
    }
}

impl AsyncWrite for Pipe {
    fn poll_write(
        mut self: Pin<&mut Self>,
        cx: &mut Context<'_>,
        buf: &[u8],
    ) -> Poll<io::Result<usize>> {
        Pin::new(&mut self.0).poll_write(cx, buf)
    }

    fn poll_flush(mut self: Pin<&mut Self>, cx: &mut Context<'_>) -> Poll<io::Result<()>> {
        Pin::new(&mut self.0).poll_flush(cx)
    }

    fn poll_shutdown(mut self: Pin<&mut Self>, cx: &mut Context<'_>) -> Poll<io::Result<()>> {
        Pin::new(&mut self.0).poll_shutdown(cx)
    }
}

/// The name of a peer comes up through TLS, adapters and transports, whatever lies between, and
/// stays the same when messages are received.
#[test]
fn names_come_up_from_the_lowest_stream() {
    let cert = rcgen::generate_simple_self_signed(vec!["localhost".to_owned()]).unwrap();
    let der = cert.serialize_der().unwrap();
    let key = cert.serialize_private_key_der();
    let acceptor = new_acceptor(der.clone(), der, key).ok().unwrap();
    let pem = cert.serialize_pem().unwrap().into_bytes();
    let connector = new_tls_connector(Some(pem)).ok().unwrap();
    let runtime = tokio::runtime::Builder::new_current_thread().build().unwrap();
    runtime.block_on(async {
        let (near, far) = tokio::io::duplex(1 << 16);
        let name = tokio_rustls::rustls::ServerName::try_from("localhost").unwrap();
        let server = tokio::spawn(acceptor.accept(Pipe(far, "a client")));
        let client = connector.connect(name, Pipe(near, "a server")).await.unwrap();
        let server = server.await.unwrap().unwrap();
        assert_eq!(client.get_id(), "a server");
        assert_eq!(server.get_id(), "a client");
        assert_eq!(tokio_rustls::TlsStream::Client(client).get_id(), "a server");
        let mut transport = StreamTransport::from(server);
        assert_eq!(transport.get_id(), "a client");
        assert!(transport.receive(&[1, 0, 0, 0], 4).unwrap().is_none());
        assert_eq!(transport.get_id(), "a client");
    });
    let (pipe, _) = tokio::io::duplex(1);
    assert_eq!(Pipe(pipe, "a process").compat().get_id(), "a process");
    let (pipe, _) = tokio::io::duplex(1);
    assert_eq!(StreamTransport::from(Pipe(pipe, "below").compat()).get_id(), "below");
}

#[test]
fn decimal_notation() {
    for n in [0, 1, 9, 10, 80, 8080, 65535, u64::MAX] {
        assert_eq!(decimal(n), n.to_string());
    }
}

#[test]
fn decimal_notations_differ() {
    let all: std::collections::HashSet<String> = (0..2000).map(decimal).collect();
    assert_eq!(all.len(), 2000);
}

#[test]
fn peers_are_named_by_address_or_process() {
    assert_eq!(address_id(Ok("127.0.0.1:8000".to_owned())), "127.0.0.1:8000");
    assert_eq!(address_id(Err("gone".to_owned())), "GET_ID_ERROR: gone");
    assert_eq!(process_id(Ok(4711)), "PID(4711)");
    assert_eq!(process_id(Err("gone".to_owned())), "GET_ID_ERROR: gone");
}
