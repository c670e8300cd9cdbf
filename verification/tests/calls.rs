use evloop::epoll::{register, EpollCtl, EpollEvent, EPOLLIN, EPOLL_CTL_ADD, FD_COUNT, O_NONBLOCK};
use evloop::generator::{handle_would_block, ErrorKind, IoError, ReadAsync, WriteAsync};
use evloop::pipe::{PipeCall, PipeReturn};
use evloop::{EventLoop, GeneratorState, NonBlockingCall, Pipe, PipeWriter, ReadPipe, WritePipe};
use evloop::YieldValue;

type State<R> = GeneratorState<YieldValue<u8>, Result<R, &'static str>>;

fn blocked<R>() -> Result<R, IoError<&'static str>> {
    Err(IoError { kind: ErrorKind::WouldBlock, error: "would block" })
}

fn failed<R>(error: &'static str) -> Result<R, IoError<&'static str>> {
    Err(IoError { kind: ErrorKind::Other, error })
}

#[test]
fn constants_are_those_of_linux() {
    assert_eq!(EPOLL_CTL_ADD, 1);
    assert_eq!(EPOLLIN, 1);
    assert_eq!(O_NONBLOCK, 0o4000);
    assert_eq!(FD_COUNT, 64);
}

#[test]
fn descriptor_is_registered_under_its_number() {
    assert_eq!(
        register(9, 5),
        EpollCtl { epfd: 9, op: 1, fd: 5, event: EpollEvent { events: 1, data: 5 } }
    );
}

#[test]
fn negative_descriptor_is_registered_modulo_word_size() {
    assert_eq!(register(9, -1).fd, -1);
    assert_eq!(register(9, -1).event.data, u64::MAX);
    assert_eq!(register(9, i32::MIN).event.data, 0xffff_ffff_8000_0000);
    assert_eq!(register(9, -1).event.data as usize as i32, -1);
}

#[test]
fn tokens_are_distinct() {
    assert_ne!(register(9, 5).event.data, register(9, 6).event.data);
    assert_ne!(register(9, 1).event.data, register(9, -1).event.data);
}

#[test]
fn attempt_that_blocks_suspends_on_descriptor() {
    let state: State<u8> = handle_would_block(6, blocked());
    assert_eq!(state, GeneratorState::Yielded(YieldValue::Fd(6)));
}

#[test]
fn attempt_that_fails_or_succeeds_completes() {
    let state: State<u8> = handle_would_block(6, failed("broken pipe"));
    assert_eq!(state, GeneratorState::Complete(Err("broken pipe")));
    let state: State<u8> = handle_would_block(6, Ok(4));
    assert_eq!(state, GeneratorState::Complete(Ok(4)));
}

#[test]
fn call_ends_with_first_settled_outcome() {
    let mut call = NonBlockingCall::new(8);
    assert_eq!(call.fd(), 8);
    for _ in 0..2 {
        let state: State<usize> = call.resume(blocked());
        assert_eq!(state, GeneratorState::Yielded(YieldValue::Fd(8)));
        assert!(!call.is_complete());
    }
    let state: State<usize> = call.resume(Ok(11));
    assert_eq!(state, GeneratorState::Complete(Ok(11)));
    assert!(call.is_complete());
}

#[test]
fn write_keeps_its_buffer_between_attempts() {
    let mut write = WriteAsync::new(4, b"hello 0");
    let state: State<usize> = write.resume(blocked());
    assert_eq!(state, GeneratorState::Yielded(YieldValue::Fd(4)));
    assert_eq!(write.buf(), b"hello 0");
    assert_eq!(write.fd(), 4);
    let state: State<usize> = write.resume(failed("reset"));
    assert_eq!(state, GeneratorState::Complete(Err("reset")));
    assert!(write.is_complete());
}

fn made(result: i32, fds: [i32; 2], os_error: &str) -> PipeReturn<&str> {
    PipeReturn { result, fds, os_error }
}

#[test]
fn pipe_is_made_non_blocking() {
    assert_eq!(Pipe::pipe_call(), PipeCall { flags: O_NONBLOCK });
}

#[test]
fn write_goes_to_its_own_descriptor() {
    let call = WritePipe::new(4).write_call(b"hello");
    assert_eq!(call.fd, 4);
    assert_eq!(call.buf, b"hello");
}

#[test]
fn read_gets_the_whole_buffer_each_time() {
    let mut buffer = [0u8; 6];
    let mut read = ReadAsync::new(7, &mut buffer);
    assert_eq!(read.fd(), 7);
    assert_eq!(read.buf().len(), 6);
    let state: State<usize> = read.resume(blocked());
    assert_eq!(state, GeneratorState::Yielded(YieldValue::Fd(7)));
    assert!(!read.is_complete());
    assert_eq!(read.buf().len(), 6);
    read.buf()[..5].copy_from_slice(b"hello");
    let state: State<usize> = read.resume(Ok(5));
    assert_eq!(state, GeneratorState::Complete(Ok(5)));
    assert!(read.is_complete());
    assert_eq!(&buffer, b"hello\0");
}

#[test]
fn pipe_has_read_end_first() {
    let (read, write) = Pipe::new(made(0, [3, 4], "unused")).unwrap();
    assert_eq!(read, ReadPipe::new(3));
    assert_eq!(write, WritePipe::new(4));
    assert_eq!(read.as_raw_fd(), 3);
    assert_eq!(write.as_raw_fd(), 4);
}

#[test]
fn pipe_that_cannot_be_made_is_an_error() {
    assert_eq!(Pipe::new(made(-1, [0, 0], "too many files")).unwrap_err(), "too many files");
    assert_eq!(Pipe::new(made(1, [3, 4], "odd")).unwrap_err(), "odd");
}

#[test]
fn write_result_is_decoded() {
    let pipe = WritePipe::new(4);
    assert_eq!(pipe.write(-1, "again"), Err("again"));
    assert_eq!(pipe.write(0, "again"), Ok(0));
    assert_eq!(pipe.write(12, "again"), Ok(12));
    assert_eq!(pipe.write(-2, "again"), Ok(usize::MAX - 1));
}

#[test]
fn pipe_write_starts_on_its_descriptor() {
    let mut writer = PipeWriter::new();
    writer.set(WritePipe::new(4));
    let write = EventLoop::<u8>::write_pipe(&writer).write_async(b"0");
    assert_eq!(write.fd(), 4);
    assert_eq!(write.buf(), b"0");
    assert!(!write.is_complete());
}
