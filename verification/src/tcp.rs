//! TCP sockets that never block.
use crate::epoll::RawFd;
use crate::generator::{attempted, would_block};
use crate::generator::{ErrorKind, GeneratorState, IoError, NonBlockingCall};
use crate::generator::{ReadAsync, WriteAsync, YieldValue};
use vstd::prelude::*;

verus! {

/// A socket that was just opened, with what came of switching it to non-blocking
/// operation.
#[derive(Debug)]
pub struct Opened<S, E> {
    pub socket: S,
    pub nonblocking: Result<(), E>,
}

/// A socket that accepts connections, and does not block.
#[derive(Debug)]
pub struct TcpListener<L> {
    listener: L,
}

/// A connected socket that does not block.
#[derive(Debug)]
pub struct TcpStream<S> {
    stream: S,
}

/// A call that accepts a connection, repeated until it no longer blocks.
#[derive(Debug)]
pub struct AcceptAsync {
    call: NonBlockingCall,
}

impl<L> TcpListener<L> {
    /// The socket itself.
    pub closed spec fn socket(&self) -> L {
        self.listener
    }

    /// The listener that an attempt to bind an address led to, unless the
    /// address could not be bound or the socket could not be kept from blocking.
    pub fn bind<E>(bound: Result<Opened<L, E>, E>) -> (listener: Result<Self, E>)
        ensures
            match bound {
                Err(error) => listener == Err::<Self, E>(error),
                Ok(opened) => match opened.nonblocking {
                    Err(error) => listener == Err::<Self, E>(error),
                    Ok(_) => {
                        &&& listener is Ok
                        &&& listener->Ok_0.socket() == opened.socket
                    },
                },
            },
    {
        match bound {
            Err(error) => Err(error),
            Ok(opened) => match opened.nonblocking {
                Err(error) => Err(error),
                Ok(_) => Ok(Self { listener: opened.socket }),
            },
        }
    }

    /// Starts to accept a connection. `fd` is the descriptor of the socket.
    pub fn accept_async(&self, fd: RawFd) -> (accept: AcceptAsync)
        ensures
            accept.fd() == fd,
            !accept.is_complete(),
    {
        AcceptAsync { call: NonBlockingCall::new(fd) }
    }
}

impl<S> TcpStream<S> {
    /// The socket itself.
    pub closed spec fn socket(&self) -> S {
        self.stream
    }

    /// The stream that an attempt to connect led to, unless no connection was
    /// made. The socket must have been switched to non-blocking operation.
    pub fn connect<E>(connected: Result<Opened<S, E>, E>) -> (stream: Result<Self, E>)
        requires
            connected matches Ok(opened) ==> opened.nonblocking is Ok,
        ensures
            match connected {
                Err(error) => stream == Err::<Self, E>(error),
                Ok(opened) => {
                    &&& stream is Ok
                    &&& stream->Ok_0.socket() == opened.socket
                },
            },
    {
        match connected {
            Err(error) => Err(error),
            Ok(opened) => Ok(Self { stream: opened.socket }),
        }
    }

    /// Starts a write of `buf` to the socket. `fd` is the descriptor of the socket.
    pub fn write_async<'a>(&self, fd: RawFd, buf: &'a [u8]) -> (write: WriteAsync<'a>)
        ensures
            write.fd() == fd,
            !write.is_complete(),
            write.buf() == buf,
    {
        WriteAsync::new(fd, buf)
    }

    /// Starts a read from the socket into `buf`. `fd` is the descriptor of the socket.
    pub fn read_async<'a>(&self, fd: RawFd, buf: &'a mut [u8]) -> (read: ReadAsync<'a>)
        ensures
            read.fd() == fd,
            !read.is_complete(),
            read.bytes() == old(buf)@,
            final(read.buf)@ == final(buf)@,
    {
        ReadAsync::new(fd, buf)
    }
}

impl<L> core::ops::Deref for TcpListener<L> {
    type Target = L;

    /// The socket itself.
    fn deref(&self) -> (listener: &L)
        ensures
            *listener == self.socket(),
    {
        &self.listener
    }
}

impl<L> core::ops::DerefMut for TcpListener<L> {
    /// The socket itself.
    fn deref_mut(&mut self) -> (listener: &mut L)
        ensures
            *listener == old(self).socket(),
            final(self).socket() == *final(listener),
    {
        &mut self.listener
    }
}

impl<S> core::ops::Deref for TcpStream<S> {
    type Target = S;

    /// The socket itself.
    fn deref(&self) -> (stream: &S)
        ensures
            *stream == self.socket(),
    {
        &self.stream
    }
}

impl<S> core::ops::DerefMut for TcpStream<S> {
    /// The socket itself.
    fn deref_mut(&mut self) -> (stream: &mut S)
        ensures
            *stream == old(self).socket(),
            final(self).socket() == *final(stream),
    {
        &mut self.stream
    }
}

impl AcceptAsync {
    /// The descriptor of the listener.
    pub closed spec fn spec_fd(&self) -> RawFd {
        self.call.fd()
    }

    /// Whether the call has come to its end.
    pub closed spec fn spec_is_complete(&self) -> bool {
        self.call.is_complete()
    }

    /// The descriptor of the listener.
    #[verifier::when_used_as_spec(spec_fd)]
    pub fn fd(&self) -> (fd: RawFd)
        ensures
            fd == self.fd(),
    {
        self.call.fd()
    }

    /// Whether the call has come to its end. It is not resumed again then.
    #[verifier::when_used_as_spec(spec_is_complete)]
    pub fn is_complete(&self) -> (complete: bool)
        ensures
            complete == self.is_complete(),
    {
        self.call.is_complete()
    }

    /// Takes the outcome of one more attempt to accept a connection: the socket
    /// of the connection and the address of its other side.
    pub fn resume<T, S, A, E>(&mut self, outcome: Result<(Opened<S, E>, A), IoError<E>>) -> (state:
        GeneratorState<YieldValue<T>, Result<(TcpStream<S>, A), E>>)
        requires
            !old(self).is_complete(),
        ensures
            final(self).fd() == old(self).fd(),
            final(self).is_complete() == !would_block(outcome),
            final(self).is_complete() == (state is Complete),
            match outcome {
                Err(e) => {
                    &&& state == attempted::<T, (TcpStream<S>, A), E>(old(self).fd(), Err(e))
                    &&& e.kind == ErrorKind::WouldBlock ==> state == GeneratorState::<
                        YieldValue<T>,
                        Result<(TcpStream<S>, A), E>,
                    >::Yielded(YieldValue::Fd(old(self).fd()))
                    &&& e.kind != ErrorKind::WouldBlock ==> state == GeneratorState::<
                        YieldValue<T>,
                        Result<(TcpStream<S>, A), E>,
                    >::Complete(Err(e.error))
                },
                Ok((opened, address)) => match opened.nonblocking {
                    Err(error) => state == GeneratorState::<
                        YieldValue<T>,
                        Result<(TcpStream<S>, A), E>,
                    >::Complete(Err(error)),
                    Ok(_) => {
                        &&& state matches GeneratorState::Complete(Ok(accepted))
                        &&& accepted.0.socket() == opened.socket
                        &&& accepted.1 == address
                    },
                },
            },
    {
        match self.call.resume(outcome) {
            GeneratorState::Yielded(value) => GeneratorState::Yielded(value),
            GeneratorState::Complete(Err(error)) => GeneratorState::Complete(Err(error)),
            GeneratorState::Complete(Ok((opened, address))) => match opened.nonblocking {
                Err(error) => GeneratorState::Complete(Err(error)),
                Ok(_) => GeneratorState::Complete(
                    Ok((TcpStream { stream: opened.socket }, address)),
                ),
            },
        }
    }
}

} // verus!
