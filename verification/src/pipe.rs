//! The pipe by which a task reaches the event loop.
use crate::epoll::{RawFd, O_NONBLOCK};
use crate::generator::WriteAsync;
use vstd::prelude::*;

verus! {

/// A pipe whose ends do not block.
pub struct Pipe;

/// The end of a pipe that is read from.
#[derive(Clone, Copy, Debug, PartialEq, Eq, Structural)]
pub struct ReadPipe {
    fd: RawFd,
}

/// The end of a pipe that is written to.
#[derive(Clone, Copy, Debug, PartialEq, Eq, Structural)]
pub struct WritePipe {
    fd: RawFd,
}

/// A call of `pipe2`.
#[derive(Clone, Copy, Debug, PartialEq, Eq, Structural)]
pub struct PipeCall {
    pub flags: i32,
}

/// What a call of `pipe2` left behind.
#[derive(Debug, PartialEq, Eq)]
pub struct PipeReturn<E> {
    /// The value returned: zero, unless the call failed.
    pub result: i32,
    /// The descriptors of the two ends, first the one to read from.
    pub fds: [RawFd; 2],
    /// The error of the call, if it failed.
    pub os_error: E,
}

/// A call of `write`.
#[derive(Debug)]
pub struct WriteCall<'a> {
    pub fd: RawFd,
    pub buf: &'a [u8],
}

/// The descriptor that is remembered to wake the event loop made last.
#[derive(Clone, Copy, Debug, PartialEq, Eq, Structural)]
pub struct PipeWriter {
    fd: RawFd,
}

/// The descriptor that is remembered, if it was `fd` before a pipe was to be made:
/// the pipe's own one, or still `fd` if there is no pipe.
pub open spec fn remembered<E>(fd: RawFd, made: PipeReturn<E>) -> RawFd {
    if made.result == 0 {
        made.fds@[1]
    } else {
        fd
    }
}

/// The descriptor that is remembered, if it was `fd` before a number of pipes were
/// to be made one after the other.
pub open spec fn remembered_after<E>(fd: RawFd, made: Seq<PipeReturn<E>>) -> RawFd
    decreases made.len(),
{
    if made.len() == 0 {
        fd
    } else {
        remembered(remembered_after(fd, made.drop_last()), made.last())
    }
}

/// The pipe that was made last is the one remembered, whatever failed since.
pub proof fn last_pipe_is_remembered<E>(fd: RawFd, made: Seq<PipeReturn<E>>, last: int)
    requires
        0 <= last < made.len(),
        made[last].result == 0,
        forall|i: int| last < i < made.len() ==> (#[trigger] made[i]).result != 0,
    ensures
        remembered_after(fd, made) == made[last].fds@[1],
    decreases made.len(),
{
    if last < made.len() - 1 {
        assert(made[made.len() - 1].result != 0);
        last_pipe_is_remembered(fd, made.drop_last(), last);
    }
}

/// As long as no pipe was made, what is remembered stays the same.
pub proof fn failed_pipes_are_not_remembered<E>(fd: RawFd, made: Seq<PipeReturn<E>>)
    requires
        forall|i: int| 0 <= i < made.len() ==> (#[trigger] made[i]).result != 0,
    ensures
        remembered_after(fd, made) == fd,
    decreases made.len(),
{
    if made.len() > 0 {
        assert(made[made.len() - 1].result != 0);
        failed_pipes_are_not_remembered(fd, made.drop_last());
    }
}

impl PipeWriter {
    /// The descriptor that is remembered.
    pub closed spec fn spec_fd(&self) -> RawFd {
        self.fd
    }

    /// What is remembered before any event loop was made: no descriptor at all.
    pub fn new() -> (writer: Self)
        ensures
            writer.fd() == -1,
    {
        Self { fd: -1 }
    }

    /// The descriptor that is remembered.
    #[verifier::when_used_as_spec(spec_fd)]
    pub fn fd(&self) -> (fd: RawFd)
        ensures
            fd == self.fd(),
    {
        self.fd
    }

    /// Remembers the given end of a pipe.
    pub fn set(&mut self, pipe: WritePipe)
        ensures
            final(self).fd() == pipe.as_raw_fd(),
    {
        self.fd = pipe.as_raw_fd();
    }
}

impl ReadPipe {
    /// The descriptor of this end.
    pub closed spec fn spec_as_raw_fd(&self) -> RawFd {
        self.fd
    }

    /// The end with the given descriptor.
    pub fn new(fd: RawFd) -> (pipe: Self)
        ensures
            pipe.as_raw_fd() == fd,
    {
        Self { fd }
    }

    /// The descriptor of this end.
    #[verifier::when_used_as_spec(spec_as_raw_fd)]
    pub fn as_raw_fd(&self) -> (fd: RawFd)
        ensures
            fd == self.as_raw_fd(),
    {
        self.fd
    }
}

impl WritePipe {
    /// The descriptor of this end.
    pub closed spec fn spec_as_raw_fd(&self) -> RawFd {
        self.fd
    }

    /// The end with the given descriptor.
    pub fn new(fd: RawFd) -> (pipe: Self)
        ensures
            pipe.as_raw_fd() == fd,
    {
        Self { fd }
    }

    /// The descriptor of this end.
    #[verifier::when_used_as_spec(spec_as_raw_fd)]
    pub fn as_raw_fd(&self) -> (fd: RawFd)
        ensures
            fd == self.as_raw_fd(),
    {
        self.fd
    }

    /// The call that writes `buf` to this end.
    pub fn write_call<'a>(&self, buf: &'a [u8]) -> (call: WriteCall<'a>)
        ensures
            call.fd == self.as_raw_fd(),
            call.buf == buf,
    {
        WriteCall { fd: self.fd, buf }
    }

    /// What a call of `write` on this end came to. `result` is what the call
    /// returned, and `os_error` the error that it left behind if it failed.
    pub fn write<E>(&self, result: isize, os_error: E) -> (written: Result<usize, E>)
        ensures
            written == (if result == -1 {
                Err(os_error)
            } else {
                Ok(result as usize)
            }),
            result >= 0 ==> written is Ok && written->Ok_0 == result,
    {
        if result == -1 {
            Err(os_error)
        } else {
            Ok(result as usize)
        }
    }

    /// Starts a write of `buf` that suspends its task while the pipe is full.
    pub fn write_async<'a>(&self, buf: &'a [u8]) -> (write: WriteAsync<'a>)
        ensures
            write.fd() == self.as_raw_fd(),
            !write.is_complete(),
            write.buf() == buf,
    {
        WriteAsync::new(self.fd, buf)
    }
}

impl Pipe {
    /// The call that makes a pipe.
    pub fn pipe_call() -> (call: PipeCall)
        ensures
            call.flags == O_NONBLOCK,
            call.flags == 2048,
    {
        PipeCall { flags: O_NONBLOCK }
    }

    /// The two ends of a pipe, given what the call that was to make it left behind.
    pub fn new<E>(made: PipeReturn<E>) -> (pipe: Result<(ReadPipe, WritePipe), E>)
        ensures
            made.result != 0 ==> pipe == Err::<(ReadPipe, WritePipe), E>(made.os_error),
            made.result == 0 ==> {
                &&& pipe is Ok
                &&& pipe->Ok_0.0.as_raw_fd() == made.fds@[0]
                &&& pipe->Ok_0.1.as_raw_fd() == made.fds@[1]
            },
    {
        if made.result == 0 {
            Ok((ReadPipe::new(made.fds[0]), WritePipe::new(made.fds[1])))
        } else {
            Err(made.os_error)
        }
    }
}

} // verus!
