use evloop::generator::{ErrorKind, IoError};
use evloop::tcp::Opened;
use evloop::{GeneratorState, TcpListener, TcpStream, YieldValue};

type Accepted = GeneratorState<YieldValue<u8>, Result<(TcpStream<&'static str>, u16), &'static str>>;

fn opened(socket: &'static str) -> Opened<&'static str, &'static str> {
    Opened { socket, nonblocking: Ok(()) }
}

#[test]
fn bound_listener_keeps_its_socket() {
    let listener = TcpListener::bind(Ok(opened("127.0.0.1:8080"))).unwrap();
    assert_eq!(*listener, "127.0.0.1:8080");
}

#[test]
fn bind_fails_with_the_first_error() {
    let bound: Result<Opened<&str, &str>, &str> = Err("address in use");
    assert_eq!(TcpListener::bind(bound).unwrap_err(), "address in use");
    let bound = Ok(Opened { socket: "s", nonblocking: Err("not a socket") });
    assert_eq!(TcpListener::bind(bound).unwrap_err(), "not a socket");
}

#[test]
fn connected_stream_reads_and_writes_its_descriptor() {
    let stream = TcpStream::connect(Ok(opened("peer"))).unwrap();
    assert_eq!(stream.write_async(7, b"hello").fd(), 7);
    assert_eq!(stream.write_async(7, b"hello").buf(), b"hello");
    let mut buffer = vec![0; 4096];
    let mut read = stream.read_async(7, &mut buffer);
    assert_eq!(read.fd(), 7);
    assert_eq!(read.buf().len(), 4096);
}

#[test]
fn replaced_socket_is_waited_for_under_its_own_descriptor() {
    let mut stream = TcpStream::connect(Ok(opened("peer"))).unwrap();
    *stream = "other peer";
    assert_eq!(*stream, "other peer");
    let mut write = stream.write_async(8, b"hello");
    let state: GeneratorState<YieldValue<u8>, Result<usize, &str>> =
        write.resume(Err(IoError { kind: ErrorKind::WouldBlock, error: "again" }));
    assert_eq!(state, GeneratorState::Yielded(YieldValue::Fd(8)));
    let mut listener = TcpListener::bind(Ok(opened("listener"))).unwrap();
    *listener = "other listener";
    assert_eq!(*listener, "other listener");
    assert_eq!(listener.accept_async(9).fd(), 9);
}

#[test]
fn connect_reports_refusal() {
    let refused: Result<Opened<&str, &str>, &str> = Err("refused");
    assert_eq!(TcpStream::connect(refused).unwrap_err(), "refused");
}

#[test]
fn accept_waits_for_a_connection() {
    let listener = TcpListener::bind(Ok(opened("listener"))).unwrap();
    let mut accept = listener.accept_async(5);
    let state: Accepted =
        accept.resume(Err(IoError { kind: ErrorKind::WouldBlock, error: "again" }));
    assert!(matches!(state, GeneratorState::Yielded(YieldValue::Fd(5))));
    assert!(!accept.is_complete());
    let state: Accepted = accept.resume(Ok((opened("client"), 4321)));
    assert!(accept.is_complete());
    match state {
        GeneratorState::Complete(Ok((stream, address))) => {
            assert_eq!(*stream, "client");
            assert_eq!(address, 4321);
        }
        _ => panic!("no connection"),
    }
}

#[test]
fn accept_fails_with_the_first_error() {
    let listener = TcpListener::bind(Ok(opened("listener"))).unwrap();
    let mut accept = listener.accept_async(5);
    let state: Accepted = accept.resume(Err(IoError { kind: ErrorKind::Other, error: "aborted" }));
    assert!(matches!(state, GeneratorState::Complete(Err("aborted"))));
    let mut accept = listener.accept_async(5);
    let client = Opened { socket: "client", nonblocking: Err("bad descriptor") };
    let state: Accepted = accept.resume(Ok((client, 4321)));
    assert!(matches!(state, GeneratorState::Complete(Err("bad descriptor"))));
    assert!(accept.is_complete());
}
