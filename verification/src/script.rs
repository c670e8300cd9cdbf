//! What a run does from beginning to end, told for tasks whose behaviour is known.
//!
//! A [`Script`] lists what a task will do. For scripts the effect of a run can
//! be told directly, call by call ([`World`]), and the event loop, which goes
//! one action at a time, is proved to come to the same end.
use crate::epoll::{fd_of, registration, slot_of, wait_for, EpollCtl, RawFd, FD_COUNT};
use crate::generator::YieldValue;
use crate::int_map::{cleared, stored, value_at};
use crate::model::{Action, LoopState, Phase, Reply, WaitReturn};
use vstd::prelude::*;

verus! {

/// What a task will do.
#[derive(Debug, PartialEq, Eq)]
pub enum Script {
    /// Wait for a descriptor, then go on.
    Fd(RawFd, Box<Script>),
    /// Start a task, then go on.
    Task(Box<Script>, Box<Script>),
    /// Come to an end.
    Complete,
}

/// What the main task will do.
#[derive(Debug, PartialEq, Eq)]
pub enum Program<R> {
    /// Wait for a descriptor, then go on.
    Fd(RawFd, Box<Program<R>>),
    /// Start a task, then go on.
    Task(Script, Box<Program<R>>),
    /// Come to an end with a result.
    Return(R),
}

/// What a run works on: the parked tasks, and the calls of `epoll_ctl` so far.
#[verifier::ext_equal]
pub struct World {
    pub fd_set: i32,
    pub read_fd: RawFd,
    pub tasks: Seq<Option<Script>>,
    pub calls: Seq<EpollCtl>,
}

impl Script {
    /// Whether each descriptor that the task is parked under when it is started,
    /// and those that it starts before, can be the number of a slot.
    pub open spec fn startable(self) -> bool
        decreases self,
    {
        match self {
            Script::Fd(fd, _) => fd >= 0,
            Script::Task(new, rest) => new.startable() && rest.startable(),
            Script::Complete => true,
        }
    }

    /// What comes of resuming the task.
    pub open spec fn resume<R, E>(self) -> Reply<Script, R, E> {
        match self {
            Script::Fd(fd, rest) => Reply::Yielded(*rest, YieldValue::Fd(fd)),
            Script::Task(new, rest) => Reply::Yielded(*rest, YieldValue::Task(*new)),
            Script::Complete => Reply::TaskComplete,
        }
    }
}

impl World {
    /// Registers a descriptor.
    pub open spec fn add_fd(self, fd: RawFd) -> World {
        World { calls: self.calls.push(registration(self.fd_set, fd)), ..self }
    }

    /// Starts a task: runs it up to the first descriptor that it waits for and
    /// parks it there. Whenever the task starts another one, that one is started
    /// before the task goes on.
    pub open spec fn add_task(self, task: Script) -> World
        decreases task,
    {
        match task {
            Script::Fd(fd, rest) => self.add_fd(fd).park(fd as usize, *rest),
            Script::Task(new, rest) => self.add_task(*new).add_task(*rest),
            Script::Complete => self,
        }
    }

    /// Handles one reported event.
    ///
    /// The task parked in the event's slot is resumed once. Unless that ends it,
    /// it is parked in the same slot again, after the descriptor that it waits
    /// for was registered, or the task that it starts was started. An event
    /// without a task has an effect only if it comes from the event loop's own
    /// descriptor, which is then registered once more.
    pub open spec fn handle(self, data: u64) -> World {
        let slot = slot_of(data);
        let taken = World { tasks: cleared(self.tasks, slot), ..self };
        match value_at(self.tasks, slot) {
            Some(Script::Fd(fd, rest)) => taken.add_fd(fd).park(slot, *rest),
            Some(Script::Task(new, rest)) => taken.add_task(*new).park(slot, *rest),
            Some(Script::Complete) => taken,
            None => if fd_of(slot) == self.read_fd {
                self.add_fd(self.read_fd)
            } else {
                self
            },
        }
    }

    /// Parks a task.
    pub open spec fn park(self, slot: usize, task: Script) -> World {
        World { tasks: stored(self.tasks, slot, task), ..self }
    }

    /// Handles the reported events, first to last.
    pub open spec fn handle_all(self, events: Seq<u64>) -> World
        decreases events.len(),
    {
        if events.len() == 0 {
            self
        } else {
            self.handle(events[0]).handle_all(events.drop_first())
        }
    }

    /// Runs the main task, if the waits come back as given. Each time that it
    /// suspends itself, events are waited for and handled before it goes on. The
    /// run ends with the main task's result or with the first wait that fails;
    /// there is no result if a wait does not come back.
    pub open spec fn run<R, E>(self, main: Program<R>, waits: Seq<WaitReturn<E>>) -> (
        World,
        Option<Result<R, E>>,
    )
        decreases main, 0int,
    {
        match main {
            Program::Fd(fd, rest) => self.add_fd(fd).wait_and_run(*rest, waits),
            Program::Task(task, rest) => self.add_task(task).wait_and_run(*rest, waits),
            Program::Return(result) => (self, Some(Ok(result))),
        }
    }

    /// Waits for events, handles them, and goes on with the main task.
    pub open spec fn wait_and_run<R, E>(self, main: Program<R>, waits: Seq<WaitReturn<E>>) -> (
        World,
        Option<Result<R, E>>,
    )
        decreases main, 1int,
    {
        if waits.len() == 0 {
            (self, None)
        } else if waits[0].result < 0 {
            (self, Some(Err(waits[0].os_error)))
        } else {
            self.handle_all(waits[0].tokens()).run(main, waits.drop_first())
        }
    }

    /// Whether every task that the event leads to the start of is startable.
    pub open spec fn can_handle(self, data: u64) -> bool {
        value_at(self.tasks, slot_of(data)) matches Some(Script::Task(new, _)) ==> new.startable()
    }

    /// Whether every task that the events lead to the start of is startable.
    pub open spec fn can_handle_all(self, events: Seq<u64>) -> bool
        decreases events.len(),
    {
        events.len() == 0 || {
            &&& self.can_handle(events[0])
            &&& self.handle(events[0]).can_handle_all(events.drop_first())
        }
    }

    /// Whether every task that the run starts is startable, and no wait reports
    /// more events than there is room for.
    pub open spec fn can_run<R, E>(self, main: Program<R>, waits: Seq<WaitReturn<E>>) -> bool
        decreases main, 0int,
    {
        match main {
            Program::Fd(fd, rest) => self.add_fd(fd).can_wait_and_run(*rest, waits),
            Program::Task(task, rest) => {
                task.startable() && self.add_task(task).can_wait_and_run(*rest, waits)
            },
            Program::Return(_) => true,
        }
    }

    /// The same for a run that goes on with a wait.
    pub open spec fn can_wait_and_run<R, E>(
        self,
        main: Program<R>,
        waits: Seq<WaitReturn<E>>,
    ) -> bool
        decreases main, 1int,
    {
        waits.len() > 0 ==> {
            &&& waits[0].result <= FD_COUNT
            &&& waits[0].result >= 0 ==> {
                &&& self.can_handle_all(waits[0].tokens())
                &&& self.handle_all(waits[0].tokens()).can_run(main, waits.drop_first())
            }
        }
    }
}

/// What a run in a given state works on.
pub open spec fn world_of(state: LoopState<Script>, calls: Seq<EpollCtl>) -> World {
    World { fd_set: state.fd_set, read_fd: state.read_fd, tasks: state.tasks, calls }
}

/// An event loop in the middle of a run, with the main task, the waits to come
/// and the calls of `epoll_ctl` so far.
#[verifier::ext_equal]
pub struct Machine<R, E> {
    pub state: LoopState<Script>,
    pub action: Action<Script, R, E>,
    pub main: Program<R>,
    pub waits: Seq<WaitReturn<E>>,
    pub calls: Seq<EpollCtl>,
}

impl<R, E> Machine<R, E> {
    /// What the run works on.
    pub open spec fn world(self) -> World {
        world_of(self.state, self.calls)
    }

    /// The same run with the event loop elsewhere and more calls made.
    pub open spec fn at(
        self,
        next: (LoopState<Script>, Action<Script, R, E>),
        calls: Seq<EpollCtl>,
    ) -> Self {
        Machine { state: next.0, action: next.1, calls, ..self }
    }

    /// What comes of the action that the event loop wants done, if anything does.
    pub open spec fn reply(self) -> Option<Reply<Script, R, E>> {
        match self.action {
            Action::ResumeMain => Some(
                match self.main {
                    Program::Fd(fd, _) => Reply::MainYielded(YieldValue::Fd(fd)),
                    Program::Task(task, _) => Reply::MainYielded(YieldValue::Task(task)),
                    Program::Return(result) => Reply::MainComplete(result),
                },
            ),
            Action::Resume(task) => Some(task.resume()),
            Action::Register(_) => Some(Reply::Registered),
            Action::Wait(_) => if self.waits.len() > 0 {
                Some(Reply::Waited(self.waits[0]))
            } else {
                None
            },
            Action::Return(_) => None,
        }
    }

    /// Does what the event loop wants done, and lets it go on from there. Nothing
    /// happens if nothing comes of the action, or if the reply does not fit.
    pub open spec fn step(self) -> Self {
        match self.reply() {
            Some(reply) => if self.state.accepts(reply) {
                let (state, action) = self.state.next(reply);
                Machine {
                    state,
                    action,
                    main: match (self.action, self.main) {
                        (Action::ResumeMain, Program::Fd(_, rest)) => *rest,
                        (Action::ResumeMain, Program::Task(_, rest)) => *rest,
                        _ => self.main,
                    },
                    waits: if self.action is Wait {
                        self.waits.drop_first()
                    } else {
                        self.waits
                    },
                    calls: match self.action {
                        Action::Register(ctl) => self.calls.push(ctl),
                        _ => self.calls,
                    },
                }
            } else {
                self
            },
            None => self,
        }
    }

    /// Whether the run, begun in the given state, has come to the given end.
    pub open spec fn ends_as(
        self,
        begin: LoopState<Script>,
        end: (World, Option<Result<R, E>>),
    ) -> bool {
        let (world, result) = end;
        &&& self.calls == world.calls
        &&& match result {
            Some(returned) => {
                &&& self.action == Action::<Script, R, E>::Return(returned)
                &&& self.state == begin.with_tasks(world.tasks).in_phase(Phase::Idle)
            },
            None => {
                &&& self.action == Action::<Script, R, E>::Wait(wait_for(begin.fd_set))
                &&& self.state == begin.with_tasks(world.tasks).in_phase(Phase::Waiting)
                &&& self.waits.len() == 0
            },
        }
    }

    /// Goes on for a number of steps.
    pub open spec fn steps(self, n: nat) -> Self
        decreases n,
    {
        if n == 0 {
            self
        } else {
            self.step().steps((n - 1) as nat)
        }
    }
}

} // verus!
