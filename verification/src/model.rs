//! The event loop as a state machine: it names an action, is told what came of
//! it, and names the next one.
use crate::epoll::{registration, slot_of, fd_of, wait_for, EpollCtl, EpollEvent, EpollWait, RawFd};
use crate::epoll::FD_COUNT;
use crate::generator::YieldValue;
use crate::int_map::{cleared, stored, value_at};
use vstd::prelude::*;

verus! {

/// What the event loop wants done next.
#[derive(Debug, PartialEq, Eq)]
pub enum Action<T, R, E> {
    /// Resume the main task.
    ResumeMain,
    /// Resume a task, which is handed out for it.
    Resume(T),
    /// Register a descriptor. Whether that succeeds is of no interest.
    Register(EpollCtl),
    /// Wait for events.
    Wait(EpollWait),
    /// Nothing more: the run is over, with this result.
    Return(Result<R, E>),
}

/// What came of an action.
#[derive(Debug, PartialEq, Eq)]
pub enum Reply<T, R, E> {
    /// The main task suspended itself.
    MainYielded(YieldValue<T>),
    /// The main task came to its end.
    MainComplete(R),
    /// The task that was to be resumed suspended itself. Here it is back.
    Yielded(T, YieldValue<T>),
    /// The task that was to be resumed came to its end.
    TaskComplete,
    /// The descriptor was handed to `epoll_ctl`.
    Registered,
    /// The wait is over.
    Waited(WaitReturn<E>),
}

/// What a call of `epoll_wait` left behind.
#[derive(Debug, PartialEq, Eq)]
pub struct WaitReturn<E> {
    /// The value returned: how many events there are, or a negative number.
    pub result: i32,
    /// The buffer for events, filled from its start.
    pub events: [EpollEvent; FD_COUNT],
    /// The error of the call, if it failed.
    pub os_error: E,
}

/// Which reply the event loop waits for.
#[derive(Clone, Copy, Debug, PartialEq, Eq, Structural)]
pub enum Phase {
    /// No run is under way.
    Idle,
    /// The main task is being resumed.
    Main,
    /// A new task is being resumed, up to the first descriptor it waits for.
    Starting,
    /// A descriptor is being registered.
    Registering,
    /// Events are being waited for.
    Waiting,
    /// The task that was parked in this slot is being resumed.
    Woken { slot: usize },
}

/// The state of the event loop.
pub struct LoopState<T> {
    /// The `epoll` set.
    pub fd_set: i32,
    /// The descriptor by which the event loop itself is woken.
    pub read_fd: RawFd,
    /// The slots for parked tasks. An event wakes the task in its slot.
    pub tasks: Seq<Option<T>>,
    /// The task that is parked once its descriptor is registered, with its slot.
    pub parking: Option<(usize, T)>,
    /// The new tasks that have to be resumed once the task they are starting has
    /// been started, innermost last.
    pub starting: Seq<T>,
    /// The task that was woken and is starting another, with its slot.
    pub resumed: Option<(usize, T)>,
    /// Whether events have come in since the main task was resumed.
    pub waited: bool,
    /// The data words of the events that have not been looked at yet.
    pub pending: Seq<u64>,
    pub phase: Phase,
}

impl<E> WaitReturn<E> {
    /// The data words of the reported events.
    pub open spec fn tokens(self) -> Seq<u64> {
        Seq::new(self.result as nat, |i: int| self.events@[i].data)
    }
}

impl<T> LoopState<T> {
    /// The state of an event loop that has not been run.
    pub open spec fn initial(fd_set: i32, read_fd: RawFd) -> Self {
        LoopState {
            fd_set,
            read_fd,
            tasks: Seq::empty(),
            parking: None,
            starting: Seq::empty(),
            resumed: None,
            waited: false,
            pending: Seq::empty(),
            phase: Phase::Idle,
        }
    }

    /// The state once the run under way was given up. The parked tasks stay.
    pub open spec fn abandoned(self) -> Self {
        LoopState { tasks: self.tasks, ..LoopState::initial(self.fd_set, self.read_fd) }
    }

    /// What holds of every state, whatever its phase.
    pub open spec fn consistent(self) -> bool {
        &&& self.tasks.len() <= usize::MAX
        &&& !self.waited ==> self.resumed is None && self.pending.len() == 0
        &&& self.resumed matches Some(woken) ==> woken.0 < usize::MAX
        &&& self.parking matches Some(registered) ==> registered.0 < usize::MAX
    }

    /// What holds of every state.
    pub open spec fn valid(self) -> bool {
        &&& self.consistent()
        &&& self.phase != Phase::Registering ==> self.parking is None
        &&& match self.phase {
            Phase::Idle | Phase::Main | Phase::Waiting => {
                !self.waited && self.starting.len() == 0
            },
            Phase::Woken { slot } => {
                &&& self.waited
                &&& self.starting.len() == 0
                &&& self.resumed is None
                &&& slot < usize::MAX
                &&& value_at(self.tasks, slot) is None
            },
            Phase::Starting | Phase::Registering => true,
        }
    }

    /// The same state in another phase.
    pub open spec fn in_phase(self, phase: Phase) -> Self {
        LoopState { phase, ..self }
    }

    /// The same state with other parked tasks.
    pub open spec fn with_tasks(self, tasks: Seq<Option<T>>) -> Self {
        LoopState { tasks, ..self }
    }

    /// The replies that fit the last action.
    ///
    /// A new task is parked under its descriptor, which has to be a number to
    /// count slots by; a wait reports no more events than its buffer holds.
    pub open spec fn accepts<R, E>(self, reply: Reply<T, R, E>) -> bool {
        match reply {
            Reply::MainYielded(_) | Reply::MainComplete(_) => self.phase == Phase::Main,
            Reply::Yielded(_, value) => match self.phase {
                Phase::Starting => value matches YieldValue::Fd(fd) ==> fd >= 0,
                Phase::Woken { .. } => true,
                _ => false,
            },
            Reply::TaskComplete => self.phase == Phase::Starting || self.phase is Woken,
            Reply::Registered => self.phase == Phase::Registering,
            Reply::Waited(wait) => self.phase == Phase::Waiting && wait.result <= FD_COUNT,
        }
    }

    /// Registers a descriptor.
    pub open spec fn add_fd<R, E>(self, fd: RawFd) -> (Self, Action<T, R, E>) {
        (
            self.in_phase(Phase::Registering),
            Action::Register(registration(self.fd_set, fd)),
        )
    }

    /// Starts a task.
    pub open spec fn add_task<R, E>(self, task: T) -> (Self, Action<T, R, E>) {
        (self.in_phase(Phase::Starting), Action::Resume(task))
    }

    /// Parks a task.
    pub open spec fn park(self, slot: usize, task: T) -> Self {
        self.with_tasks(stored(self.tasks, slot, task))
    }

    /// Leaves the reported events behind and turns to the main task.
    pub open spec fn turn_of_main(self) -> Self {
        LoopState { phase: Phase::Main, waited: false, pending: Seq::empty(), ..self }
    }

    /// Looks at the reported events in turn, up to the first that calls for an
    /// action: one that wakes a task, or one of the event loop's own descriptor.
    /// After the last event it is the main task's turn.
    pub open spec fn dispatch<R, E>(self) -> (Self, Action<T, R, E>)
        decreases self.pending.len(),
    {
        if self.pending.len() == 0 {
            (self.turn_of_main(), Action::ResumeMain)
        } else {
            let slot = slot_of(self.pending[0]);
            let rest = LoopState { pending: self.pending.drop_first(), ..self };
            match value_at(self.tasks, slot) {
                Some(task) => (
                    rest.with_tasks(cleared(self.tasks, slot)).in_phase(Phase::Woken { slot }),
                    Action::Resume(task),
                ),
                None => if fd_of(slot) == self.read_fd {
                    rest.add_fd(self.read_fd)
                } else {
                    rest.dispatch()
                },
            }
        }
    }

    /// Parks the task that was woken and has started another, if there is one.
    pub open spec fn park_resumed(self) -> Self {
        match self.resumed {
            Some((slot, task)) => LoopState { resumed: None, ..self }.park(slot, task),
            None => self,
        }
    }

    /// Parks the task whose descriptor was registered, if there is one.
    pub open spec fn park_registered(self) -> Self {
        match self.parking {
            Some((slot, task)) => LoopState { parking: None, ..self }.park(slot, task),
            None => self,
        }
    }

    /// Goes on once an action is finished with: to the innermost task that was
    /// interrupted to start another, else to the wait that follows each turn of
    /// the main task, else to the events that the wait reported.
    pub open spec fn advance<R, E>(self) -> (Self, Action<T, R, E>) {
        if self.starting.len() > 0 {
            LoopState { starting: self.starting.drop_last(), ..self }.add_task(self.starting.last())
        } else {
            let parked = self.park_resumed();
            if parked.waited {
                parked.dispatch()
            } else {
                (parked.in_phase(Phase::Waiting), Action::Wait(wait_for(self.fd_set)))
            }
        }
    }

    /// The state and the action that follow a reply.
    pub open spec fn next<R, E>(self, reply: Reply<T, R, E>) -> (Self, Action<T, R, E>) {
        match reply {
            Reply::MainYielded(YieldValue::Fd(fd)) => self.add_fd(fd),
            Reply::MainYielded(YieldValue::Task(task)) => self.add_task(task),
            Reply::MainComplete(result) => {
                (self.in_phase(Phase::Idle), Action::Return(Ok(result)))
            },
            Reply::Yielded(task, YieldValue::Fd(fd)) => match self.phase {
                Phase::Woken { slot } => {
                    LoopState { parking: Some((slot, task)), ..self }.add_fd(fd)
                },
                _ => LoopState { parking: Some((fd as usize, task)), ..self }.add_fd(fd),
            },
            Reply::Yielded(task, YieldValue::Task(new)) => match self.phase {
                Phase::Woken { slot } => {
                    LoopState { resumed: Some((slot, task)), ..self }.add_task(new)
                },
                _ => LoopState { starting: self.starting.push(task), ..self }.add_task(new),
            },
            Reply::TaskComplete => self.advance(),
            Reply::Registered => self.park_registered().advance(),
            Reply::Waited(wait) => {
                if wait.result < 0 {
                    (self.in_phase(Phase::Idle), Action::Return(Err(wait.os_error)))
                } else {
                    LoopState { waited: true, pending: wait.tokens(), ..self }.dispatch()
                }
            },
        }
    }
}

} // verus!
