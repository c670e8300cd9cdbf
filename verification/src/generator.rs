//! What a suspended task tells the event loop, and calls that suspend their
//! task for as long as they would block.
use crate::epoll::RawFd;
use vstd::prelude::*;

verus! {

/// How a task came back from being resumed.
#[derive(Debug, PartialEq, Eq)]
pub enum GeneratorState<Y, R> {
    /// The task suspended itself with a value.
    Yielded(Y),
    /// The task came to its end with a result.
    Complete(R),
}

/// Why a task suspended itself.
#[derive(Debug, PartialEq, Eq)]
pub enum YieldValue<T> {
    /// The task waits for this descriptor.
    Fd(RawFd),
    /// The task wants this other task started.
    Task(T),
}

/// What the caller of a non-blocking operation needs to know of its failure.
#[derive(Clone, Copy, Debug, PartialEq, Eq, Structural)]
pub enum ErrorKind {
    /// The operation has to be tried again once the descriptor is ready.
    WouldBlock,
    /// The operation failed.
    Other,
}

/// The failure of an operation: its kind, and the error to report.
#[derive(Debug, PartialEq, Eq)]
pub struct IoError<E> {
    pub kind: ErrorKind,
    pub error: E,
}

/// Whether an attempt has to be repeated later.
pub open spec fn would_block<R, E>(outcome: Result<R, IoError<E>>) -> bool {
    outcome matches Err(e) && e.kind == ErrorKind::WouldBlock
}

/// The result that an attempt leads to when it is not repeated.
pub open spec fn settled<R, E>(outcome: Result<R, IoError<E>>) -> Result<R, E> {
    match outcome {
        Ok(result) => Ok(result),
        Err(e) => Err(e.error),
    }
}

/// The state of a call on `fd` after an attempt with the given outcome.
pub open spec fn attempted<T, R, E>(
    fd: RawFd,
    outcome: Result<R, IoError<E>>,
) -> GeneratorState<YieldValue<T>, Result<R, E>> {
    if would_block(outcome) {
        GeneratorState::Yielded(YieldValue::Fd(fd))
    } else {
        GeneratorState::Complete(settled(outcome))
    }
}

/// An attempt that would have blocked suspends the task on the call's own descriptor.
/// Any other attempt ends the call with its own result or error.
pub proof fn only_blocked_attempts_suspend<T, R, E>(fd: RawFd, result: R, e: IoError<E>)
    ensures
        attempted::<T, R, E>(fd, Ok(result)) == GeneratorState::<
            YieldValue<T>,
            Result<R, E>,
        >::Complete(Ok(result)),
        e.kind == ErrorKind::WouldBlock ==> attempted::<T, R, E>(fd, Err(e)) == GeneratorState::<
            YieldValue<T>,
            Result<R, E>,
        >::Yielded(YieldValue::Fd(fd)),
        e.kind != ErrorKind::WouldBlock ==> attempted::<T, R, E>(fd, Err(e)) == GeneratorState::<
            YieldValue<T>,
            Result<R, E>,
        >::Complete(Err(e.error)),
{
}

/// Turns the outcome of an attempt on `fd` into a suspension where the attempt
/// would have blocked, and into the result of the call everywhere else.
pub fn handle_would_block<T, R, E>(fd: RawFd, outcome: Result<R, IoError<E>>) -> (state:
    GeneratorState<YieldValue<T>, Result<R, E>>)
    ensures
        state == attempted::<T, R, E>(fd, outcome),
        outcome matches Ok(result) ==> state == GeneratorState::<
            YieldValue<T>,
            Result<R, E>,
        >::Complete(Ok(result)),
        outcome matches Err(e) ==> state == (if e.kind == ErrorKind::WouldBlock {
            GeneratorState::<YieldValue<T>, Result<R, E>>::Yielded(YieldValue::Fd(fd))
        } else {
            GeneratorState::Complete(Err(e.error))
        }),
{
    match outcome {
        Ok(result) => GeneratorState::Complete(Ok(result)),
        Err(e) => if e.kind == ErrorKind::WouldBlock {
            GeneratorState::Yielded(YieldValue::Fd(fd))
        } else {
            GeneratorState::Complete(Err(e.error))
        },
    }
}

/// A call on a descriptor that is repeated until it no longer blocks.
///
/// Each time the call is resumed, its operation is attempted once and the
/// outcome of the attempt is handed to [`NonBlockingCall::resume`].
#[derive(Debug)]
pub struct NonBlockingCall {
    fd: RawFd,
    complete: bool,
}

impl NonBlockingCall {
    /// The descriptor of the call.
    pub closed spec fn spec_fd(&self) -> RawFd {
        self.fd
    }

    /// Whether the call has come to its end.
    pub closed spec fn spec_is_complete(&self) -> bool {
        self.complete
    }

    /// A call on `fd` of which nothing was attempted yet.
    pub fn new(fd: RawFd) -> (call: Self)
        ensures
            call.fd() == fd,
            !call.is_complete(),
    {
        Self { fd, complete: false }
    }

    /// The descriptor of the call.
    #[verifier::when_used_as_spec(spec_fd)]
    pub fn fd(&self) -> (fd: RawFd)
        ensures
            fd == self.fd(),
    {
        self.fd
    }

    /// Whether the call has come to its end. It is not resumed again then.
    #[verifier::when_used_as_spec(spec_is_complete)]
    pub fn is_complete(&self) -> (complete: bool)
        ensures
            complete == self.is_complete(),
    {
        self.complete
    }

    /// Takes the outcome of one more attempt.
    pub fn resume<T, R, E>(&mut self, outcome: Result<R, IoError<E>>) -> (state: GeneratorState<
        YieldValue<T>,
        Result<R, E>,
    >)
        requires
            !old(self).is_complete(),
        ensures
            state == attempted::<T, R, E>(old(self).fd(), outcome),
            outcome matches Ok(result) ==> state == GeneratorState::<
                YieldValue<T>,
                Result<R, E>,
            >::Complete(Ok(result)),
            outcome matches Err(e) ==> state == (if e.kind == ErrorKind::WouldBlock {
                GeneratorState::<YieldValue<T>, Result<R, E>>::Yielded(YieldValue::Fd(old(self).fd()))
            } else {
                GeneratorState::Complete(Err(e.error))
            }),
            final(self).fd() == old(self).fd(),
            final(self).is_complete() == (state is Complete),
    {
        let state = handle_would_block(self.fd, outcome);
        match &state {
            GeneratorState::Yielded(_) => {},
            GeneratorState::Complete(_) => {
                self.complete = true;
            },
        }
        state
    }
}

/// A write of one buffer that is repeated until it no longer blocks.
#[derive(Debug)]
pub struct WriteAsync<'a> {
    call: NonBlockingCall,
    buf: &'a [u8],
}

impl<'a> WriteAsync<'a> {
    /// The descriptor that is written to.
    pub closed spec fn spec_fd(&self) -> RawFd {
        self.call.fd()
    }

    /// Whether the write has come to its end.
    pub closed spec fn spec_is_complete(&self) -> bool {
        self.call.is_complete()
    }

    /// The bytes to be written.
    pub closed spec fn spec_buf(&self) -> &'a [u8] {
        self.buf
    }

    /// A write of `buf` to `fd` of which nothing was attempted yet.
    pub fn new(fd: RawFd, buf: &'a [u8]) -> (write: Self)
        ensures
            write.fd() == fd,
            !write.is_complete(),
            write.buf() == buf,
    {
        Self { call: NonBlockingCall::new(fd), buf }
    }

    /// The descriptor that is written to.
    #[verifier::when_used_as_spec(spec_fd)]
    pub fn fd(&self) -> (fd: RawFd)
        ensures
            fd == self.fd(),
    {
        self.call.fd()
    }

    /// Whether the write has come to its end. It is not resumed again then.
    #[verifier::when_used_as_spec(spec_is_complete)]
    pub fn is_complete(&self) -> (complete: bool)
        ensures
            complete == self.is_complete(),
    {
        self.call.is_complete()
    }

    /// The bytes that each attempt writes, all of them.
    #[verifier::when_used_as_spec(spec_buf)]
    pub fn buf(&self) -> (buf: &'a [u8])
        ensures
            buf == self.buf(),
    {
        self.buf
    }

    /// Takes the outcome of one more attempt to write the buffer.
    pub fn resume<T, E>(&mut self, outcome: Result<usize, IoError<E>>) -> (state: GeneratorState<
        YieldValue<T>,
        Result<usize, E>,
    >)
        requires
            !old(self).is_complete(),
        ensures
            state == attempted::<T, usize, E>(old(self).fd(), outcome),
            outcome matches Ok(result) ==> state == GeneratorState::<
                YieldValue<T>,
                Result<usize, E>,
            >::Complete(Ok(result)),
            outcome matches Err(e) ==> state == (if e.kind == ErrorKind::WouldBlock {
                GeneratorState::<YieldValue<T>, Result<usize, E>>::Yielded(YieldValue::Fd(old(self).fd()))
            } else {
                GeneratorState::Complete(Err(e.error))
            }),
            final(self).fd() == old(self).fd(),
            final(self).is_complete() == (state is Complete),
            final(self).buf() == old(self).buf(),
    {
        self.call.resume(outcome)
    }
}

/// A read into one buffer that is repeated until it no longer blocks.
///
/// What the buffer holds when the read is given up is what its owner gets back.
#[derive(Debug)]
pub struct ReadAsync<'a> {
    /// The call on the descriptor that is read from.
    pub call: NonBlockingCall,
    /// The buffer, all of which each attempt reads into.
    pub buf: &'a mut [u8],
}

impl<'a> ReadAsync<'a> {
    /// The descriptor that is read from.
    pub closed spec fn spec_fd(&self) -> RawFd {
        self.call.fd()
    }

    /// Whether the read has come to its end.
    pub closed spec fn spec_is_complete(&self) -> bool {
        self.call.is_complete()
    }

    /// What the buffer holds at present.
    pub open spec fn bytes(&self) -> Seq<u8> {
        self.buf@
    }

    /// A read from `fd` into `buf` of which nothing was attempted yet.
    pub fn new(fd: RawFd, buf: &'a mut [u8]) -> (read: Self)
        ensures
            read.fd() == fd,
            !read.is_complete(),
            read.bytes() == old(buf)@,
            read.buf@ == old(buf)@,
            final(read.buf)@ == final(buf)@,
    {
        Self { call: NonBlockingCall::new(fd), buf }
    }

    /// The descriptor that is read from.
    #[verifier::when_used_as_spec(spec_fd)]
    pub fn fd(&self) -> (fd: RawFd)
        ensures
            fd == self.fd(),
    {
        self.call.fd()
    }

    /// Whether the read has come to its end. It is not resumed again then.
    #[verifier::when_used_as_spec(spec_is_complete)]
    pub fn is_complete(&self) -> (complete: bool)
        ensures
            complete == self.is_complete(),
    {
        self.call.is_complete()
    }

    /// The buffer that each attempt reads into, all of it.
    pub fn buf(&mut self) -> (buf: &mut [u8])
        ensures
            (*buf)@ == old(self).bytes(),
            final(self).bytes() == (*final(buf))@,
            final(self).fd() == old(self).fd(),
            final(self).is_complete() == old(self).is_complete(),
            final(final(self).buf)@ == final(old(self).buf)@,
    {
        &mut *self.buf
    }

    /// Takes the outcome of one more attempt to read into the buffer.
    pub fn resume<T, E>(&mut self, outcome: Result<usize, IoError<E>>) -> (state: GeneratorState<
        YieldValue<T>,
        Result<usize, E>,
    >)
        requires
            !old(self).is_complete(),
        ensures
            state == attempted::<T, usize, E>(old(self).fd(), outcome),
            outcome matches Ok(result) ==> state == GeneratorState::<
                YieldValue<T>,
                Result<usize, E>,
            >::Complete(Ok(result)),
            outcome matches Err(e) ==> state == (if e.kind == ErrorKind::WouldBlock {
                GeneratorState::<YieldValue<T>, Result<usize, E>>::Yielded(YieldValue::Fd(old(self).fd()))
            } else {
                GeneratorState::Complete(Err(e.error))
            }),
            final(self).fd() == old(self).fd(),
            final(self).is_complete() == (state is Complete),
            final(self).bytes() == old(self).bytes(),
            final(final(self).buf)@ == final(old(self).buf)@,
    {
        self.call.resume(outcome)
    }
}

/// The states that a call on `fd` goes through when it is resumed with the
/// given outcomes, one after the other, until it is complete.
pub open spec fn call_states<T, R, E>(fd: RawFd, outcomes: Seq<Result<R, IoError<E>>>) -> Seq<
    GeneratorState<YieldValue<T>, Result<R, E>>,
>
    decreases outcomes.len(),
{
    if outcomes.len() == 0 {
        Seq::empty()
    } else {
        let state = attempted::<T, R, E>(fd, outcomes[0]);
        if state is Complete {
            seq![state]
        } else {
            seq![state] + call_states::<T, R, E>(fd, outcomes.drop_first())
        }
    }
}

/// A call suspends its task on its descriptor once for each attempt that would
/// have blocked, and ends with the first attempt that would not.
pub proof fn call_ends_with_first_settled_outcome<T, R, E>(
    fd: RawFd,
    outcomes: Seq<Result<R, IoError<E>>>,
    first: int,
)
    requires
        0 <= first < outcomes.len(),
        !would_block(outcomes[first]),
        forall|i: int| 0 <= i < first ==> would_block(#[trigger] outcomes[i]),
    ensures
        call_states::<T, R, E>(fd, outcomes) == Seq::new(
            (first + 1) as nat,
            |i: int|
                if i < first {
                    GeneratorState::Yielded(YieldValue::<T>::Fd(fd))
                } else {
                    GeneratorState::Complete(settled(outcomes[first]))
                },
        ),
    decreases first,
{
    let rest = outcomes.drop_first();
    if first > 0 {
        assert(would_block(outcomes[0]));
        assert forall|i: int| 0 <= i < first - 1 implies would_block(#[trigger] rest[i]) by {
            assert(rest[i] == outcomes[i + 1]);
        }
        call_ends_with_first_settled_outcome::<T, R, E>(fd, rest, first - 1);
    }
}

/// A call whose attempts would all have blocked is suspended on its descriptor
/// each time, and is not complete.
pub proof fn call_waits_while_blocked<T, R, E>(fd: RawFd, outcomes: Seq<Result<R, IoError<E>>>)
    requires
        forall|i: int| 0 <= i < outcomes.len() ==> would_block(#[trigger] outcomes[i]),
    ensures
        call_states::<T, R, E>(fd, outcomes) == Seq::new(
            outcomes.len(),
            |i: int| GeneratorState::<YieldValue<T>, Result<R, E>>::Yielded(YieldValue::Fd(fd)),
        ),
    decreases outcomes.len(),
{
    let rest = outcomes.drop_first();
    if outcomes.len() > 0 {
        assert(would_block(outcomes[0]));
        assert forall|i: int| 0 <= i < rest.len() implies would_block(#[trigger] rest[i]) by {
            assert(rest[i] == outcomes[i + 1]);
        }
        call_waits_while_blocked::<T, R, E>(fd, rest);
    }
}

} // verus!
