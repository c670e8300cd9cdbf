//! The event loop.
use crate::epoll::{register, registration, wait_for};
use crate::epoll::{EpollCtl, EpollEvent, EpollWait, RawFd, FD_COUNT, NO_TIMEOUT, O_NONBLOCK};
use crate::generator::YieldValue;
use crate::int_map::IntMap;
use crate::model::{Action, LoopState, Phase, Reply, WaitReturn};
use crate::pipe::{Pipe, PipeCall, PipeWriter, ReadPipe, WritePipe};
use crate::setup::{Setup, SetupAction};
use crate::steps::every_call_names_the_own_set;
use vstd::prelude::*;

verus! {

/// An event loop that runs a main task and the tasks started in its course.
///
/// The event loop decides what happens next and leaves the doing to its
/// caller: [`EventLoop::run`] gives the first action of a run, and
/// [`EventLoop::step`] takes what came of an action and gives the next.
pub struct EventLoop<T> {
    events: [EpollEvent; FD_COUNT],
    event_count: usize,
    fd_set: i32,
    read_pipe: ReadPipe,
    tasks: IntMap<T>,
    parking: Option<(usize, T)>,
    starting: Vec<T>,
    resumed: Option<(usize, T)>,
    waited: bool,
    next_event: usize,
    phase: Phase,
}

impl<T> View for EventLoop<T> {
    type V = LoopState<T>;

    closed spec fn view(&self) -> LoopState<T> {
        LoopState {
            fd_set: self.fd_set,
            read_fd: self.read_pipe.as_raw_fd(),
            tasks: self.tasks@,
            parking: self.parking,
            starting: self.starting@,
            resumed: self.resumed,
            waited: self.waited,
            pending: if self.waited {
                Seq::new(
                    (self.event_count - self.next_event) as nat,
                    |i: int| self.events@[self.next_event + i].data,
                )
            } else {
                Seq::empty()
            },
            phase: self.phase,
        }
    }
}

impl<T> EventLoop<T> {
    /// What holds of every event loop.
    pub closed spec fn wf(&self) -> bool {
        &&& self@.valid()
        &&& self.buffer_wf()
    }

    /// What holds of the events, whatever the phase.
    closed spec fn buffer_wf(&self) -> bool {
        &&& self.event_count <= FD_COUNT
        &&& self.waited ==> self.next_event <= self.event_count
    }

    /// The events that the last successful wait reported.
    pub closed spec fn reported(&self) -> Seq<EpollEvent> {
        self.events@.take(self.event_count as int)
    }

    /// The state of every event loop is a valid one, and no event loop ever holds
    /// more events than one wait can report.
    pub proof fn state_is_valid(&self)
        requires
            self.wf(),
        ensures
            self@.valid(),
            self.reported().len() <= FD_COUNT,
    {
    }

    /// Starts to make an event loop. The first action is to make the pipe that
    /// wakes it.
    pub fn new<E>() -> (begun: (Setup<T>, SetupAction<T, E>))
        ensures
            begun.0 == Setup::<T>::Pipe,
            begun.1 == SetupAction::<T, E>::CreatePipe(PipeCall { flags: O_NONBLOCK }),
            begun.1 == SetupAction::<T, E>::CreatePipe(PipeCall { flags: 2048 }),
    {
        (Setup::Pipe, SetupAction::CreatePipe(Pipe::pipe_call()))
    }

    /// An event loop on the set `fd_set`, woken by the given end of a pipe, and the
    /// call that registers that end.
    pub(crate) fn on(read_pipe: ReadPipe, fd_set: i32) -> (created: (Self, EpollCtl))
        ensures
            created.0.wf(),
            created.0@ == LoopState::<T>::initial(fd_set, read_pipe.as_raw_fd()),
            created.0.reported() == Seq::<EpollEvent>::empty(),
            created.1 == registration(fd_set, read_pipe.as_raw_fd()),
            created.0@.fd_set == fd_set,
            created.0@.read_fd == read_pipe.as_raw_fd(),
            created.0@.tasks.len() == 0,
            created.0@.parking is None,
            created.0@.starting.len() == 0,
            created.0@.resumed is None,
            !created.0@.waited,
            created.0@.pending.len() == 0,
            created.0@.phase == Phase::Idle,
            created.1.epfd == fd_set,
            created.1.op == 1,
            created.1.fd == read_pipe.as_raw_fd(),
            created.1.event.events == 1,
            created.1.event.data == read_pipe.as_raw_fd() as u64,
    {
        let event_loop = Self {
            events: [EpollEvent { events: 0, data: 0 }; FD_COUNT],
            event_count: 0,
            fd_set,
            read_pipe,
            tasks: IntMap::new(),
            parking: None,
            starting: Vec::new(),
            resumed: None,
            waited: false,
            next_event: 0,
            phase: Phase::Idle,
        };
        let ctl = event_loop.add_fd(event_loop.read_pipe.as_raw_fd());
        (event_loop, ctl)
    }

    /// The call that adds `fd` to the descriptors whose events are waited for.
    pub fn add_fd(&self, fd: RawFd) -> (ctl: EpollCtl)
        ensures
            ctl == registration(self@.fd_set, fd),
            ctl.epfd == self@.fd_set,
            ctl.op == 1,
            ctl.fd == fd,
            ctl.event.events == 1,
            ctl.event.data == fd as u64,
    {
        register(self.fd_set, fd)
    }

    /// The call that waits for events.
    pub fn wait_call(&self) -> (wait: EpollWait)
        ensures
            wait == wait_for(self@.fd_set),
            wait.epfd == self@.fd_set,
            wait.maxevents == 64,
            wait.timeout == -1,
    {
        EpollWait { epfd: self.fd_set, maxevents: FD_COUNT as i32, timeout: NO_TIMEOUT }
    }

    /// Takes what the call that waits for events left behind. A run that waits for
    /// something else was broken off, and is given up.
    pub fn wait<E>(&mut self, wait: WaitReturn<E>) -> (waited: Result<(), E>)
        requires
            old(self).wf(),
            wait.result <= FD_COUNT,
        ensures
            final(self).wf(),
            final(self)@ == (if old(self)@.phase == Phase::Waiting {
                old(self)@
            } else {
                old(self)@.abandoned()
            }),
            old(self)@.phase != Phase::Waiting ==> final(self)@ == (LoopState {
                fd_set: old(self)@.fd_set,
                read_fd: old(self)@.read_fd,
                tasks: old(self)@.tasks,
                parking: None,
                starting: Seq::empty(),
                resumed: None,
                waited: false,
                pending: Seq::empty(),
                phase: Phase::Idle,
            }),
            waited == (if wait.result < 0 {
                Err(wait.os_error)
            } else {
                Ok(())
            }),
            final(self).reported() == (if wait.result < 0 {
                old(self).reported()
            } else {
                wait.events@.take(wait.result as int)
            }),
    {
        if self.phase != Phase::Waiting {
            self.abandon();
        }
        if wait.result < 0 {
            Err(wait.os_error)
        } else {
            self.events = wait.events;
            self.event_count = wait.result as usize;
            Ok(())
        }
    }

    /// The end of the pipe that wakes the event loop made last.
    pub fn write_pipe(writer: &PipeWriter) -> (pipe: WritePipe)
        ensures
            pipe.as_raw_fd() == writer.fd(),
    {
        WritePipe::new(writer.fd())
    }

    /// Starts a run. The first action is to resume the main task. A run that was
    /// broken off is given up; the tasks that are parked stay.
    pub fn run<R, E>(&mut self) -> (action: Action<T, R, E>)
        requires
            old(self).wf(),
        ensures
            final(self).wf(),
            final(self)@ == old(self)@.abandoned().in_phase(Phase::Main),
            final(self)@ == (LoopState {
                fd_set: old(self)@.fd_set,
                read_fd: old(self)@.read_fd,
                tasks: old(self)@.tasks,
                parking: None,
                starting: Seq::empty(),
                resumed: None,
                waited: false,
                pending: Seq::empty(),
                phase: Phase::Main,
            }),
            final(self).reported() == old(self).reported(),
            action == Action::<T, R, E>::ResumeMain,
    {
        self.abandon();
        self.phase = Phase::Main;
        Action::ResumeMain
    }

    /// Gives up the run under way.
    fn abandon(&mut self)
        requires
            old(self).wf(),
        ensures
            final(self).wf(),
            final(self)@ == old(self)@.abandoned(),
            final(self).reported() == old(self).reported(),
    {
        self.parking = None;
        self.starting.clear();
        self.resumed = None;
        self.waited = false;
        self.phase = Phase::Idle;
    }

    /// Which reply the event loop waits for.
    pub fn phase(&self) -> (phase: Phase)
        ensures
            phase == self@.phase,
    {
        self.phase
    }

    /// Whether a reply fits the last action.
    pub fn accepts<R, E>(&self, reply: &Reply<T, R, E>) -> (fits: bool)
        ensures
            fits == self@.accepts(*reply),
    {
        match reply {
            Reply::MainYielded(_) | Reply::MainComplete(_) => self.phase == Phase::Main,
            Reply::Yielded(_, value) => match self.phase {
                Phase::Starting => match value {
                    YieldValue::Fd(fd) => *fd >= 0,
                    YieldValue::Task(_) => true,
                },
                Phase::Woken { .. } => true,
                _ => false,
            },
            Reply::TaskComplete => match self.phase {
                Phase::Starting | Phase::Woken { .. } => true,
                _ => false,
            },
            Reply::Registered => self.phase == Phase::Registering,
            Reply::Waited(wait) => self.phase == Phase::Waiting && wait.result <= FD_COUNT as i32,
        }
    }

    /// Takes what came of the last action and gives the next one.
    pub fn step<R, E>(&mut self, reply: Reply<T, R, E>) -> (action: Action<T, R, E>)
        requires
            old(self).wf(),
            old(self)@.accepts(reply),
        ensures
            final(self).wf(),
            (final(self)@, action) == old(self)@.next(reply),
            final(self)@.fd_set == old(self)@.fd_set,
            final(self)@.read_fd == old(self)@.read_fd,
            action matches Action::Register(ctl) ==> {
                &&& ctl.epfd == old(self)@.fd_set
                &&& ctl.op == 1
                &&& ctl.event.events == 1
                &&& ctl.event.data == ctl.fd as u64
            },
            action matches Action::Wait(wait) ==> {
                &&& wait.epfd == old(self)@.fd_set
                &&& wait.maxevents == 64
                &&& wait.timeout == -1
            },
            final(self).reported() == (match reply {
                Reply::Waited(wait) if wait.result >= 0 => wait.events@.take(wait.result as int),
                _ => old(self).reported(),
            }),
    {
        proof {
            every_call_names_the_own_set(self@, reply);
        }
        match reply {
            Reply::MainYielded(YieldValue::Fd(fd)) => {
                self.phase = Phase::Registering;
                Action::Register(self.add_fd(fd))
            },
            Reply::MainYielded(YieldValue::Task(task)) => self.add_task(task),
            Reply::MainComplete(result) => {
                self.phase = Phase::Idle;
                Action::Return(Ok(result))
            },
            Reply::Yielded(task, YieldValue::Fd(fd)) => {
                let slot: usize = match self.phase {
                    Phase::Woken { slot } => slot,
                    _ => fd as usize,
                };
                self.parking = Some((slot, task));
                self.phase = Phase::Registering;
                Action::Register(self.add_fd(fd))
            },
            Reply::Yielded(task, YieldValue::Task(new)) => {
                match self.phase {
                    Phase::Woken { slot } => {
                        self.resumed = Some((slot, task));
                    },
                    _ => {
                        self.starting.push(task);
                    },
                }
                self.add_task(new)
            },
            Reply::TaskComplete => self.advance(),
            Reply::Registered => {
                match self.parking.take() {
                    Some((slot, task)) => self.tasks.insert(slot, task),
                    None => {},
                }
                self.advance()
            },
            Reply::Waited(wait) => match self.wait(wait) {
                Err(error) => {
                    self.phase = Phase::Idle;
                    Action::Return(Err(error))
                },
                Ok(()) => {
                    self.waited = true;
                    self.next_event = 0;
                    assert(self@.pending =~= wait.tokens()) by {
                        assert(self.reported().len() == wait.result);
                        assert forall|i: int| 0 <= i < wait.result implies self.events@[i]
                            == #[trigger] wait.events@[i] by {
                            assert(self.reported()[i] == wait.events@[i]);
                        }
                    }
                    self.dispatch()
                },
            },
        }
    }

    /// Starts a task.
    fn add_task<R, E>(&mut self, task: T) -> (action: Action<T, R, E>)
        requires
            old(self)@.consistent(),
            old(self).buffer_wf(),
            old(self)@.parking is None,
        ensures
            final(self).wf(),
            (final(self)@, action) == old(self)@.add_task::<R, E>(task),
            final(self).reported() == old(self).reported(),
    {
        self.phase = Phase::Starting;
        Action::Resume(task)
    }

    /// Goes on once an action is finished with.
    fn advance<R, E>(&mut self) -> (action: Action<T, R, E>)
        requires
            old(self)@.consistent(),
            old(self).buffer_wf(),
            old(self)@.parking is None,
        ensures
            final(self).wf(),
            (final(self)@, action) == old(self)@.advance::<R, E>(),
            final(self).reported() == old(self).reported(),
    {
        match self.starting.pop() {
            Some(task) => self.add_task(task),
            None => {
                match self.resumed.take() {
                    Some((slot, task)) => self.tasks.insert(slot, task),
                    None => {},
                }
                if self.waited {
                    self.dispatch()
                } else {
                    self.phase = Phase::Waiting;
                    Action::Wait(self.wait_call())
                }
            },
        }
    }

    /// Looks at the reported events, up to the first that calls for an action.
    fn dispatch<R, E>(&mut self) -> (action: Action<T, R, E>)
        requires
            old(self)@.consistent(),
            old(self).buffer_wf(),
            old(self)@.waited,
            old(self)@.parking is None,
            old(self)@.starting.len() == 0,
            old(self)@.resumed is None,
        ensures
            final(self).wf(),
            (final(self)@, action) == old(self)@.dispatch::<R, E>(),
            final(self).reported() == old(self).reported(),
    {
        while self.next_event < self.event_count
            invariant
                self@.consistent(),
                self.buffer_wf(),
                self@.waited,
                self@.parking is None,
                self@.starting.len() == 0,
                self@.resumed is None,
                self@.dispatch::<R, E>() == old(self)@.dispatch::<R, E>(),
                self.reported() == old(self).reported(),
            decreases self.event_count - self.next_event,
        {
            let ghost before = self@;
            let slot = self.events[self.next_event].data as usize;
            self.next_event = self.next_event + 1;
            assert(self@.pending =~= before.pending.drop_first());
            match self.tasks.take(slot) {
                Some(task) => {
                    self.phase = Phase::Woken { slot };
                    return Action::Resume(task);
                },
                None => {
                    assert(self.tasks@ =~= before.tasks);
                    if slot as RawFd == self.read_pipe.as_raw_fd() {
                        self.phase = Phase::Registering;
                        return Action::Register(self.add_fd(self.read_pipe.as_raw_fd()));
                    }
                },
            }
        }
        assert(self@.pending =~= Seq::empty());
        self.waited = false;
        self.phase = Phase::Main;
        Action::ResumeMain
    }
}

} // verus!
