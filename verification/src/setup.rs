//! Making an event loop.
use crate::epoll::{registration, EpollCreate, EpollCtl, EpollEvent};
use crate::event_loop::EventLoop;
use crate::model::{LoopState, Phase};
use crate::pipe::{remembered, Pipe, PipeCall, PipeReturn, PipeWriter, ReadPipe};
use vstd::prelude::*;

verus! {

/// The course of making an event loop: a pipe is made and its writing end is
/// remembered, then an `epoll` set is made, and then the pipe's reading end is
/// registered with it. Nothing else happens if there is no pipe.
pub enum Setup<T> {
    /// The pipe is being made.
    Pipe,
    /// The set is being made. The event loop is to be woken by this end.
    Polling(ReadPipe),
    /// The pipe is being registered with the set of this event loop.
    Registering(EventLoop<T>),
    /// The event loop was made, or cannot be.
    Complete,
}

/// What has to be done to make an event loop.
pub enum SetupAction<T, E> {
    /// Make a pipe.
    CreatePipe(PipeCall),
    /// Make an `epoll` set. A set that cannot be made is not told from others.
    CreateSet(EpollCreate),
    /// Register a descriptor. Whether that succeeds is of no interest.
    Register(EpollCtl),
    /// Nothing more: here is the event loop, or the reason why there is none.
    Return(Result<EventLoop<T>, E>),
}

/// What came of such an action.
#[derive(Debug, PartialEq, Eq)]
pub enum SetupReply<E> {
    /// The call of `pipe2` left this behind.
    PipeCreated(PipeReturn<E>),
    /// The call of `epoll_create1` returned this.
    SetCreated(i32),
    /// The descriptor was handed to `epoll_ctl`.
    Registered,
}

impl<T> Setup<T> {
    /// The replies that fit the last action.
    pub open spec fn accepts<E>(self, reply: SetupReply<E>) -> bool {
        match self {
            Setup::Pipe => reply is PipeCreated,
            Setup::Polling(_) => reply is SetCreated,
            Setup::Registering(_) => reply is Registered,
            Setup::Complete => false,
        }
    }

    /// A reply is expected exactly where the action that it answers was given, whatever
    /// came of it.
    pub proof fn replies_fit_their_actions<E>(self, reply: SetupReply<E>)
        ensures
            self is Pipe ==> (self.accepts(reply) <==> reply is PipeCreated),
            self is Polling ==> (self.accepts(reply) <==> reply is SetCreated),
            self is Registering ==> (self.accepts(reply) <==> reply is Registered),
            self is Complete ==> !self.accepts(reply),
    {
    }

    /// Takes what came of the last action and gives the next one. `writer` is where
    /// the descriptor that wakes the event loop is remembered.
    pub fn step<E>(self, reply: SetupReply<E>, writer: &mut PipeWriter) -> (next: (
        Self,
        SetupAction<T, E>,
    ))
        requires
            self.accepts(reply),
        ensures
            final(writer).fd() == (match reply {
                SetupReply::PipeCreated(made) => remembered(old(writer).fd(), made),
                _ => old(writer).fd(),
            }),
            reply matches SetupReply::PipeCreated(made) ==> final(writer).fd() == (if made.result
                == 0 {
                made.fds@[1]
            } else {
                old(writer).fd()
            }),
            match (self, reply) {
                (Setup::Pipe, SetupReply::PipeCreated(made)) => {
                    if made.result == 0 {
                        &&& next.0 matches Setup::Polling(read_pipe)
                        &&& read_pipe.as_raw_fd() == made.fds@[0]
                        &&& next.1 == SetupAction::<T, E>::CreateSet(EpollCreate { flags: 0 })
                    } else {
                        next == (
                            Setup::<T>::Complete,
                            SetupAction::<T, E>::Return(Err(made.os_error)),
                        )
                    }
                },
                (Setup::Polling(read_pipe), SetupReply::SetCreated(fd_set)) => {
                    &&& next.0 matches Setup::Registering(event_loop)
                    &&& event_loop.wf()
                    &&& event_loop@ == LoopState::<T>::initial(fd_set, read_pipe.as_raw_fd())
                    &&& event_loop.reported() == Seq::<EpollEvent>::empty()
                    &&& event_loop@.fd_set == fd_set
                    &&& event_loop@.read_fd == read_pipe.as_raw_fd()
                    &&& event_loop@.tasks.len() == 0
                    &&& event_loop@.parking is None
                    &&& event_loop@.starting.len() == 0
                    &&& event_loop@.resumed is None
                    &&& !event_loop@.waited
                    &&& event_loop@.pending.len() == 0
                    &&& event_loop@.phase == Phase::Idle
                    &&& next.1 matches SetupAction::Register(ctl)
                    &&& ctl.epfd == fd_set
                    &&& ctl.op == 1
                    &&& ctl.fd == read_pipe.as_raw_fd()
                    &&& ctl.event.events == 1
                    &&& ctl.event.data == read_pipe.as_raw_fd() as u64
                    &&& next.1 == SetupAction::<T, E>::Register(
                        registration(fd_set, read_pipe.as_raw_fd()),
                    )
                },
                (Setup::Registering(event_loop), _) => next == (
                    Setup::<T>::Complete,
                    SetupAction::<T, E>::Return(Ok(event_loop)),
                ),
                (_, _) => false,
            },
    {
        match (self, reply) {
            (Setup::Pipe, SetupReply::PipeCreated(made)) => match Pipe::new(made) {
                Ok((read_pipe, write_pipe)) => {
                    writer.set(write_pipe);
                    (Setup::Polling(read_pipe), SetupAction::CreateSet(EpollCreate { flags: 0 }))
                },
                Err(error) => (Setup::Complete, SetupAction::Return(Err(error))),
            },
            (Setup::Polling(read_pipe), SetupReply::SetCreated(fd_set)) => {
                let (event_loop, ctl) = EventLoop::on(read_pipe, fd_set);
                (Setup::Registering(event_loop), SetupAction::Register(ctl))
            },
            (Setup::Registering(event_loop), _) => (
                Setup::Complete,
                SetupAction::Return(Ok(event_loop)),
            ),
            _ => vstd::pervasive::unreached(),
        }
    }
}

} // verus!
