//! Starting a task from within another.
use crate::epoll::RawFd;
use crate::generator::{attempted, call_states, handle_would_block};
use crate::generator::{ErrorKind, GeneratorState, IoError, YieldValue};
use vstd::prelude::*;

verus! {

/// The byte that wakes the event loop: the digit zero in ASCII.
pub const WAKE_BYTE: u8 = 0x30;

/// The course of starting a task: the task is handed to the event loop, and
/// then one byte is written to the pipe that wakes it.
#[derive(Debug, PartialEq, Eq)]
pub enum Spawn<T> {
    /// The task is still to be handed over.
    Start(T),
    /// The task was handed over.
    Started,
    /// The byte is being written to this descriptor.
    Writing(RawFd),
    /// The byte could not be written to this descriptor yet.
    Blocked(RawFd),
    /// The byte was written, or cannot be.
    Complete,
}

/// What has to be done to start a task.
#[derive(Debug, PartialEq, Eq)]
pub enum SpawnAction<T, E> {
    /// Suspend the task that starts the other.
    Yield(YieldValue<T>),
    /// Write a byte to a descriptor.
    Write(RawFd, u8),
    /// Nothing more: the write has this result.
    Return(Result<usize, E>),
}

/// What came of such an action.
#[derive(Debug, PartialEq, Eq)]
pub enum SpawnReply<E> {
    /// The task that starts the other is resumed. The event loop is woken by
    /// this descriptor.
    Resumed(RawFd),
    /// The write has this outcome.
    Written(Result<usize, IoError<E>>),
}

/// What an action lets the event loop see of the starting task.
pub open spec fn shown<T, E>(action: SpawnAction<T, E>) -> Seq<
    GeneratorState<YieldValue<T>, Result<usize, E>>,
> {
    match action {
        SpawnAction::Yield(value) => seq![GeneratorState::Yielded(value)],
        SpawnAction::Return(result) => seq![GeneratorState::Complete(result)],
        SpawnAction::Write(_, _) => Seq::empty(),
    }
}

impl<T> Spawn<T> {
    /// The replies that fit the last action. The first reply is a resumption.
    pub open spec fn accepts<E>(self, reply: SpawnReply<E>) -> bool {
        match self {
            Spawn::Start(_) | Spawn::Started | Spawn::Blocked(_) => reply is Resumed,
            Spawn::Writing(_) => reply is Written,
            Spawn::Complete => false,
        }
    }

    /// The state and the action that follow a reply.
    pub open spec fn next<E>(self, reply: SpawnReply<E>) -> (Self, SpawnAction<T, E>)
        recommends
            self.accepts(reply),
    {
        match (self, reply) {
            (Spawn::Start(task), _) => (
                Spawn::Started,
                SpawnAction::Yield(YieldValue::Task(task)),
            ),
            (Spawn::Started, SpawnReply::Resumed(fd)) => (
                Spawn::Writing(fd),
                SpawnAction::Write(fd, WAKE_BYTE),
            ),
            (Spawn::Blocked(fd), _) => (Spawn::Writing(fd), SpawnAction::Write(fd, WAKE_BYTE)),
            (Spawn::Writing(fd), SpawnReply::Written(outcome)) => match attempted(fd, outcome) {
                GeneratorState::Yielded(value) => (Spawn::Blocked(fd), SpawnAction::Yield(value)),
                GeneratorState::Complete(result) => (
                    Spawn::Complete,
                    SpawnAction::Return(result),
                ),
            },
            _ => arbitrary(),
        }
    }

    /// A reply is expected exactly where the action that it answers was given: the
    /// outcome of a write after a write, whatever it is, and a resumption, whichever
    /// descriptor comes with it, at the beginning and after each suspension.
    pub proof fn replies_fit_their_actions<E>(self, reply: SpawnReply<E>)
        ensures
            self is Complete ==> !self.accepts(reply),
            self is Writing ==> (self.accepts(reply) <==> reply is Written),
            self is Start || self is Started || self is Blocked ==> (self.accepts(reply)
                <==> reply is Resumed),
    {
    }

    /// Starts to start a task.
    pub fn new(task: T) -> (spawn: Self)
        ensures
            spawn == Spawn::Start(task),
    {
        Spawn::Start(task)
    }

    /// Takes what came of the last action and gives the next one.
    pub fn step<E>(self, reply: SpawnReply<E>) -> (next: (Self, SpawnAction<T, E>))
        requires
            self.accepts(reply),
        ensures
            next == self.next(reply),
            self matches Spawn::Start(task) ==> next == (
                Spawn::<T>::Started,
                SpawnAction::<T, E>::Yield(YieldValue::Task(task)),
            ),
            self is Started ==> (reply matches SpawnReply::Resumed(fd) ==> next == (
                Spawn::<T>::Writing(fd),
                SpawnAction::<T, E>::Write(fd, 0x30),
            )),
            self matches Spawn::Blocked(fd) ==> next == (
                Spawn::<T>::Writing(fd),
                SpawnAction::<T, E>::Write(fd, 0x30),
            ),
            self matches Spawn::Writing(fd) ==> (reply matches SpawnReply::Written(outcome)
                ==> match outcome {
                Ok(count) => next == (Spawn::<T>::Complete, SpawnAction::<T, E>::Return(Ok(count))),
                Err(e) => if e.kind == ErrorKind::WouldBlock {
                    next == (
                        Spawn::<T>::Blocked(fd),
                        SpawnAction::<T, E>::Yield(YieldValue::Fd(fd)),
                    )
                } else {
                    next == (
                        Spawn::<T>::Complete,
                        SpawnAction::<T, E>::Return(Err(e.error)),
                    )
                },
            }),
    {
        match (self, reply) {
            (Spawn::Start(task), _) => (
                Spawn::Started,
                SpawnAction::Yield(YieldValue::Task(task)),
            ),
            (Spawn::Started, SpawnReply::Resumed(fd)) => (
                Spawn::Writing(fd),
                SpawnAction::Write(fd, WAKE_BYTE),
            ),
            (Spawn::Blocked(fd), _) => (Spawn::Writing(fd), SpawnAction::Write(fd, WAKE_BYTE)),
            (Spawn::Writing(fd), SpawnReply::Written(outcome)) => {
                match handle_would_block(fd, outcome) {
                    GeneratorState::Yielded(value) => (
                        Spawn::Blocked(fd),
                        SpawnAction::Yield(value),
                    ),
                    GeneratorState::Complete(result) => (
                        Spawn::Complete,
                        SpawnAction::Return(result),
                    ),
                }
            },
            _ => vstd::pervasive::unreached(),
        }
    }

    /// The states that the starting task goes through, if the event loop is woken
    /// by `writer_fd` and the attempts to write the byte have the given outcomes.
    pub open spec fn states<E>(
        self,
        writer_fd: RawFd,
        outcomes: Seq<Result<usize, IoError<E>>>,
    ) -> Seq<GeneratorState<YieldValue<T>, Result<usize, E>>>
        decreases
                outcomes.len(),
                match self {
                    Spawn::Start(_) => 3int,
                    Spawn::Started | Spawn::Blocked(_) => 2int,
                    Spawn::Writing(_) => 1int,
                    Spawn::Complete => 0int,
                },
    {
        match self {
            Spawn::Writing(_) => if outcomes.len() == 0 {
                Seq::empty()
            } else {
                let (next, action) = self.next(SpawnReply::Written(outcomes[0]));
                shown(action) + next.states(writer_fd, outcomes.drop_first())
            },
            Spawn::Complete => Seq::empty(),
            _ => {
                let (next, action) = self.next(SpawnReply::<E>::Resumed(writer_fd));
                shown(action) + next.states(writer_fd, outcomes)
            },
        }
    }

    /// A write of the byte goes through the states of any other call on the same
    /// descriptor.
    proof fn write_states<E>(fd: RawFd, outcomes: Seq<Result<usize, IoError<E>>>, writer_fd: RawFd)
        ensures
            Spawn::<T>::Writing(fd).states(writer_fd, outcomes) == call_states::<T, usize, E>(
                fd,
                outcomes,
            ),
        decreases outcomes.len(),
    {
        if outcomes.len() > 0 {
            let rest = outcomes.drop_first();
            let (next, action) = Spawn::<T>::Writing(fd).next(SpawnReply::Written(outcomes[0]));
            Self::write_states(fd, rest, writer_fd);
            if next is Blocked {
                reveal_with_fuel(Spawn::<_>::states, 2);
                assert(next.states(writer_fd, rest) =~= Spawn::<T>::Writing(fd).states(
                    writer_fd,
                    rest,
                ));
            } else {
                assert(next.states(writer_fd, rest) =~= Seq::empty());
            }
            assert(Spawn::<T>::Writing(fd).states(writer_fd, outcomes) == shown(action)
                + next.states(writer_fd, rest));
            assert(shown(action) + next.states(writer_fd, rest) =~= call_states::<T, usize, E>(
                fd,
                outcomes,
            ));
        }
    }

    /// All that the course of starting a task asks for, if the event loop is woken by
    /// `writer_fd` and the attempts to write the byte have the given outcomes.
    pub open spec fn asked<E>(
        self,
        writer_fd: RawFd,
        outcomes: Seq<Result<usize, IoError<E>>>,
    ) -> Seq<SpawnAction<T, E>>
        decreases
                outcomes.len(),
                match self {
                    Spawn::Start(_) => 3int,
                    Spawn::Started | Spawn::Blocked(_) => 2int,
                    Spawn::Writing(_) => 1int,
                    Spawn::Complete => 0int,
                },
    {
        match self {
            Spawn::Writing(_) => if outcomes.len() == 0 {
                Seq::empty()
            } else {
                let (next, action) = self.next(SpawnReply::Written(outcomes[0]));
                seq![action] + next.asked(writer_fd, outcomes.drop_first())
            },
            Spawn::Complete => Seq::empty(),
            _ => {
                let (next, action) = self.next(SpawnReply::<E>::Resumed(writer_fd));
                seq![action] + next.asked(writer_fd, outcomes)
            },
        }
    }

    /// What a write of the byte asks for, told as in
    /// [`Spawn::every_write_goes_to_the_remembered_descriptor`].
    proof fn writes_asked<E>(
        fd: RawFd,
        writer_fd: RawFd,
        outcomes: Seq<Result<usize, IoError<E>>>,
        first: int,
    )
        requires
            0 <= first < outcomes.len(),
            !(outcomes[first] matches Err(e) && e.kind == ErrorKind::WouldBlock),
            forall|i: int|
                0 <= i < first ==> (#[trigger] outcomes[i] matches Err(e) && e.kind
                    == ErrorKind::WouldBlock),
        ensures
            ({
                let asked = Spawn::<T>::Writing(fd).asked(writer_fd, outcomes);
                &&& asked.len() == 2 * first + 1
                &&& forall|i: int|
                    0 <= i < asked.len() ==> #[trigger] asked[i] == (if i == 2 * first {
                        SpawnAction::<T, E>::Return(
                            match outcomes[first] {
                                Ok(count) => Ok(count),
                                Err(e) => Err(e.error),
                            },
                        )
                    } else if i % 2 == 0 {
                        SpawnAction::<T, E>::Yield(YieldValue::Fd(fd))
                    } else {
                        SpawnAction::<T, E>::Write(fd, 0x30)
                    })
            }),
        decreases first,
    {
        let rest = outcomes.drop_first();
        let asked = Spawn::<T>::Writing(fd).asked(writer_fd, outcomes);
        let (next, action) = Spawn::<T>::Writing(fd).next(SpawnReply::Written(outcomes[0]));
        assert(asked == seq![action] + next.asked(writer_fd, rest));
        if first == 0 {
            assert(next.asked(writer_fd, rest) =~= Seq::empty());
        } else {
            assert(outcomes[0] matches Err(e) && e.kind == ErrorKind::WouldBlock);
            assert forall|i: int| 0 <= i < first - 1 implies (#[trigger] rest[i] matches Err(e)
                && e.kind == ErrorKind::WouldBlock) by {
                assert(rest[i] == outcomes[i + 1]);
            }
            Self::writes_asked(fd, writer_fd, rest, first - 1);
            let tail = Spawn::<T>::Writing(fd).asked(writer_fd, rest);
            reveal_with_fuel(Spawn::<_>::asked, 2);
            assert(next.asked(writer_fd, rest) == seq![SpawnAction::<T, E>::Write(fd, 0x30)]
                + tail);
            assert forall|i: int| 0 <= i < asked.len() implies #[trigger] asked[i] == (if i == 2
                * first {
                SpawnAction::<T, E>::Return(
                    match outcomes[first] {
                        Ok(count) => Ok(count),
                        Err(e) => Err(e.error),
                    },
                )
            } else if i % 2 == 0 {
                SpawnAction::<T, E>::Yield(YieldValue::Fd(fd))
            } else {
                SpawnAction::<T, E>::Write(fd, 0x30)
            }) by {
                if i >= 2 {
                    assert(asked[i] == tail[i - 2]);
                }
            }
        }
    }

    /// Starting a task asks for the task to be handed over, and then, for each attempt
    /// up to the first that does not block, for one write of the byte `0` to the
    /// descriptor given with the resumption after that. Between two attempts the task
    /// waits for the same descriptor, and the last attempt's result is returned.
    pub proof fn every_write_goes_to_the_remembered_descriptor<E>(
        task: T,
        writer_fd: RawFd,
        outcomes: Seq<Result<usize, IoError<E>>>,
        first: int,
    )
        requires
            0 <= first < outcomes.len(),
            !(outcomes[first] matches Err(e) && e.kind == ErrorKind::WouldBlock),
            forall|i: int|
                0 <= i < first ==> (#[trigger] outcomes[i] matches Err(e) && e.kind
                    == ErrorKind::WouldBlock),
        ensures
            ({
                let asked = Spawn::Start(task).asked(writer_fd, outcomes);
                &&& asked.len() == 2 * first + 3
                &&& forall|i: int|
                    0 <= i < asked.len() ==> #[trigger] asked[i] == (if i == 0 {
                        SpawnAction::<T, E>::Yield(YieldValue::Task(task))
                    } else if i % 2 == 1 {
                        SpawnAction::<T, E>::Write(writer_fd, 0x30)
                    } else if i < 2 * first + 2 {
                        SpawnAction::<T, E>::Yield(YieldValue::Fd(writer_fd))
                    } else {
                        SpawnAction::<T, E>::Return(
                            match outcomes[first] {
                                Ok(count) => Ok(count),
                                Err(e) => Err(e.error),
                            },
                        )
                    })
            }),
    {
        Self::writes_asked(writer_fd, writer_fd, outcomes, first);
        let asked = Spawn::Start(task).asked(writer_fd, outcomes);
        let tail = Spawn::<T>::Writing(writer_fd).asked(writer_fd, outcomes);
        reveal_with_fuel(Spawn::<_>::asked, 3);
        assert(asked =~= seq![
            SpawnAction::<T, E>::Yield(YieldValue::Task(task)),
            SpawnAction::<T, E>::Write(writer_fd, 0x30),
        ] + tail);
        assert forall|i: int| 2 <= i < asked.len() implies #[trigger] asked[i] == tail[i - 2] by {
        }
    }

    /// A task that starts another first hands it to the event loop, and then
    /// goes through the states of a write to the pipe that wakes the event loop.
    pub proof fn spawn_yields_task_then_writes<E>(
        task: T,
        writer_fd: RawFd,
        outcomes: Seq<Result<usize, IoError<E>>>,
    )
        ensures
            Spawn::Start(task).states(writer_fd, outcomes) == seq![
                GeneratorState::<YieldValue<T>, Result<usize, E>>::Yielded(YieldValue::Task(task)),
            ] + call_states::<T, usize, E>(writer_fd, outcomes),
    {
        reveal_with_fuel(Spawn::<_>::states, 3);
        Self::write_states(writer_fd, outcomes, writer_fd);
    }
}

} // verus!
