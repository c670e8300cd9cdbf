//! What each reply leads to, told field by field in the plainest terms.
//!
//! Together these laws fix every step: what a reply does to the state, and which
//! action comes next with what in it.
use crate::epoll::{token_is_widened_descriptor, RawFd};
use crate::generator::YieldValue;
use crate::int_map::{stored, value_at};
use crate::model::{Action, LoopState, Phase, Reply, WaitReturn};
use vstd::prelude::*;

verus! {

/// A reply is expected exactly where the action that it answers was given. A new
/// task may only wait for a descriptor that is not negative, and at most 64 events
/// can be reported at once.
pub proof fn replies_fit_their_actions<T, R, E>(state: LoopState<T>, reply: Reply<T, R, E>)
    ensures
        reply is MainYielded || reply is MainComplete ==> (state.accepts(reply) <==> state.phase
            == Phase::Main),
        reply is TaskComplete ==> (state.accepts(reply) <==> state.phase == Phase::Starting
            || state.phase is Woken),
        reply is Registered ==> (state.accepts(reply) <==> state.phase == Phase::Registering),
        reply matches Reply::Waited(wait) ==> (state.accepts(reply) <==> state.phase
            == Phase::Waiting && wait.result <= 64),
        reply matches Reply::Yielded(_, YieldValue::Task(_)) ==> (state.accepts(reply)
            <==> state.phase == Phase::Starting || state.phase is Woken),
        reply matches Reply::Yielded(_, YieldValue::Fd(fd)) ==> (state.accepts(reply)
            <==> state.phase is Woken || (state.phase == Phase::Starting && fd >= 0)),
{
}

/// The main task that waits for a descriptor has it registered with the event loop's
/// own set, to be told when it is readable. Nothing else changes.
pub proof fn main_task_waits_for_descriptor<T, R, E>(state: LoopState<T>, fd: RawFd)
    ensures
        ({
            let (next, action) = state.next(Reply::<T, R, E>::MainYielded(YieldValue::Fd(fd)));
            &&& next == LoopState { phase: Phase::Registering, ..state }
            &&& action matches Action::Register(ctl)
            &&& ctl.epfd == state.fd_set
            &&& ctl.op == 1
            &&& ctl.fd == fd
            &&& ctl.event.events == 1
            &&& ctl.event.data == fd as u64
        }),
{
    token_is_widened_descriptor(fd);
}

/// A task that the main task starts is the next to be resumed.
pub proof fn main_task_starts_task<T, R, E>(state: LoopState<T>, task: T)
    ensures
        state.next(Reply::<T, R, E>::MainYielded(YieldValue::Task(task))) == (
            (LoopState { phase: Phase::Starting, ..state }),
            Action::<T, R, E>::Resume(task),
        ),
{
}

/// The main task's result is the result of the run.
pub proof fn main_task_ends_run<T, R, E>(state: LoopState<T>, result: R)
    ensures
        state.next(Reply::<T, R, E>::MainComplete(result)) == (
            (LoopState { phase: Phase::Idle, ..state }),
            Action::<T, R, E>::Return(Ok(result)),
        ),
{
}

/// A task that waits for a descriptor has it registered with the event loop's own
/// set, to be told when it is readable, and is set aside meanwhile: a new task for
/// the slot with the descriptor's number, a woken one for the slot that it was in.
pub proof fn task_waits_for_descriptor<T, R, E>(state: LoopState<T>, task: T, fd: RawFd)
    requires
        state.phase is Woken || (state.phase == Phase::Starting && fd >= 0),
    ensures
        ({
            let (next, action) = state.next(Reply::<T, R, E>::Yielded(task, YieldValue::Fd(fd)));
            &&& next.parking matches Some((slot, parking))
            &&& parking == task
            &&& state.phase == Phase::Starting ==> slot == fd
            &&& state.phase is Woken ==> slot == state.phase->slot
            &&& next == LoopState {
                phase: Phase::Registering,
                parking: Some((slot, task)),
                ..state
            }
            &&& action matches Action::Register(ctl)
            &&& ctl.epfd == state.fd_set
            &&& ctl.op == 1
            &&& ctl.fd == fd
            &&& ctl.event.events == 1
            &&& ctl.event.data == fd as u64
        }),
{
    token_is_widened_descriptor(fd);
}

/// A task that another one starts is the next to be resumed. A new task that starts
/// another goes on top of those that are being started; a woken one is kept for the
/// slot that it was in.
pub proof fn task_starts_task<T, R, E>(state: LoopState<T>, task: T, new: T)
    requires
        state.phase == Phase::Starting || state.phase is Woken,
    ensures
        ({
            let (next, action) = state.next(
                Reply::<T, R, E>::Yielded(task, YieldValue::Task(new)),
            );
            &&& action == Action::<T, R, E>::Resume(new)
            &&& state.phase == Phase::Starting ==> next == LoopState {
                starting: state.starting.push(task),
                ..state
            }
            &&& state.phase matches Phase::Woken { slot } ==> next == LoopState {
                phase: Phase::Starting,
                resumed: Some((slot, task)),
                ..state
            }
        }),
{
}

/// Once its descriptor is registered, a task is put in its slot, with as many empty
/// slots before it as it takes, and things go on as if it had been there all along.
pub proof fn registered_task_is_parked<T, R, E>(
    state: LoopState<T>,
    slot: usize,
    task: T,
    slots: Seq<Option<T>>,
)
    requires
        state.parking == Some((slot, task)),
        slots.len() == (if slot < state.tasks.len() {
            state.tasks.len() as int
        } else {
            slot + 1
        }),
        slots[slot as int] == Some(task),
        forall|i: int|
            0 <= i < slots.len() && i != slot ==> #[trigger] slots[i] == (if i
                < state.tasks.len() {
                state.tasks[i]
            } else {
                None
            }),
    ensures
        state.next(Reply::<T, R, E>::Registered) == (LoopState {
            tasks: slots,
            parking: None,
            ..state
        }).next(Reply::<T, R, E>::Registered),
{
    assert(stored(state.tasks, slot, task) =~= slots);
}

/// The end of a task and a registration that no task waits for lead to the same.
pub proof fn ended_task_leaves_nothing_behind<T, R, E>(state: LoopState<T>)
    requires
        state.parking is None,
    ensures
        state.next(Reply::<T, R, E>::TaskComplete) == state.next(Reply::<T, R, E>::Registered),
{
}

/// The innermost task that was interrupted to start another is resumed once that one
/// has been started.
pub proof fn interrupted_task_goes_on<T, R, E>(state: LoopState<T>, outer: Seq<T>, task: T)
    requires
        state.parking is None,
        state.starting == outer.push(task),
    ensures
        state.next(Reply::<T, R, E>::Registered) == (
            (LoopState { phase: Phase::Starting, starting: outer, ..state }),
            Action::<T, R, E>::Resume(task),
        ),
{
    assert(outer.push(task).drop_last() =~= outer);
}

/// A woken task that has started another is put back in its slot once no task is
/// being started any more, and things go on as if it had been there all along.
pub proof fn woken_task_is_put_back<T, R, E>(
    state: LoopState<T>,
    slot: usize,
    task: T,
    slots: Seq<Option<T>>,
)
    requires
        state.parking is None,
        state.starting.len() == 0,
        state.resumed == Some((slot, task)),
        slots.len() == (if slot < state.tasks.len() {
            state.tasks.len() as int
        } else {
            slot + 1
        }),
        slots[slot as int] == Some(task),
        forall|i: int|
            0 <= i < slots.len() && i != slot ==> #[trigger] slots[i] == (if i
                < state.tasks.len() {
                state.tasks[i]
            } else {
                None
            }),
    ensures
        state.next(Reply::<T, R, E>::Registered) == (LoopState {
            tasks: slots,
            resumed: None,
            ..state
        }).next(Reply::<T, R, E>::Registered),
{
    assert(stored(state.tasks, slot, task) =~= slots);
}

/// After each turn of the main task, once no task is being started any more, events
/// of the event loop's own set are waited for, up to 64 of them, for as long as it
/// takes.
pub proof fn turn_of_main_ends_with_wait<T, R, E>(state: LoopState<T>)
    requires
        state.parking is None,
        state.starting.len() == 0,
        state.resumed is None,
        !state.waited,
    ensures
        ({
            let (next, action) = state.next(Reply::<T, R, E>::Registered);
            &&& next == LoopState { phase: Phase::Waiting, ..state }
            &&& action matches Action::Wait(wait)
            &&& wait.epfd == state.fd_set
            &&& wait.maxevents == 64
            &&& wait.timeout == -1
        }),
{
}

/// A wait that failed ends the run with its error.
pub proof fn failed_wait_ends_run<T, R, E>(state: LoopState<T>, wait: WaitReturn<E>)
    requires
        wait.result < 0,
    ensures
        state.next(Reply::<T, R, E>::Waited(wait)) == (
            (LoopState { phase: Phase::Idle, ..state }),
            Action::<T, R, E>::Return(Err(wait.os_error)),
        ),
{
}

/// After a wait that reports a number of events, the words to be handled are those of
/// that many events of the buffer, one by one from its start.
pub proof fn every_reported_event_is_to_be_handled<T, R, E>(
    state: LoopState<T>,
    wait: WaitReturn<E>,
    words: Seq<u64>,
)
    requires
        0 <= wait.result <= 64,
        state.parking is None,
        state.starting.len() == 0,
        state.resumed is None,
        words.len() == wait.result,
        forall|i: int| 0 <= i < wait.result ==> #[trigger] words[i] == wait.events@[i].data,
    ensures
        state.next(Reply::<T, R, E>::Waited(wait)) == (LoopState {
            waited: true,
            pending: words,
            ..state
        }).next(Reply::<T, R, E>::Registered),
{
    assert(wait.tokens() =~= words);
}

/// An event whose slot holds a task has that task resumed, alone, and its slot
/// emptied. The events after it stay to be handled.
pub proof fn first_event_wakes_its_task<T, R, E>(
    state: LoopState<T>,
    word: u64,
    rest: Seq<u64>,
    task: T,
)
    requires
        state.waited,
        state.parking is None,
        state.starting.len() == 0,
        state.resumed is None,
        state.pending == seq![word] + rest,
        (word as usize) < state.tasks.len(),
        state.tasks[(word as usize) as int] == Some(task),
    ensures
        state.next(Reply::<T, R, E>::Registered) == (
            (LoopState {
                phase: Phase::Woken { slot: word as usize },
                pending: rest,
                tasks: state.tasks.update((word as usize) as int, None),
                ..state
            }),
            Action::<T, R, E>::Resume(task),
        ),
{
    assert(state.pending.drop_first() =~= rest);
    assert(state.pending[0] == word);
    assert(value_at(state.tasks, word as usize) == Some(task));
}

/// An event of the event loop's own descriptor, under which no task is parked, has the
/// descriptor registered once more. The events after it stay to be handled.
pub proof fn first_event_is_the_loops_own<T, R, E>(
    state: LoopState<T>,
    word: u64,
    rest: Seq<u64>,
)
    requires
        state.waited,
        state.parking is None,
        state.starting.len() == 0,
        state.resumed is None,
        state.pending == seq![word] + rest,
        (word as usize) >= state.tasks.len() || state.tasks[(word as usize) as int] is None,
        (word as usize) as i32 == state.read_fd,
    ensures
        ({
            let (next, action) = state.next(Reply::<T, R, E>::Registered);
            &&& next == LoopState { phase: Phase::Registering, pending: rest, ..state }
            &&& action matches Action::Register(ctl)
            &&& ctl.epfd == state.fd_set
            &&& ctl.op == 1
            &&& ctl.fd == state.read_fd
            &&& ctl.event.events == 1
            &&& ctl.event.data == state.read_fd as u64
        }),
{
    token_is_widened_descriptor(state.read_fd);
    assert(state.pending.drop_first() =~= rest);
    assert(state.pending[0] == word);
}

/// An event that is neither leads straight to the events after it.
pub proof fn first_event_is_of_no_interest<T, R, E>(
    state: LoopState<T>,
    word: u64,
    rest: Seq<u64>,
)
    requires
        state.waited,
        state.parking is None,
        state.starting.len() == 0,
        state.resumed is None,
        state.pending == seq![word] + rest,
        (word as usize) >= state.tasks.len() || state.tasks[(word as usize) as int] is None,
        (word as usize) as i32 != state.read_fd,
    ensures
        state.next(Reply::<T, R, E>::Registered) == (LoopState { pending: rest, ..state }).next(
            Reply::<T, R, E>::Registered,
        ),
{
    assert(state.pending.drop_first() =~= rest);
    assert(state.pending[0] == word);
}

/// Once all events are handled, it is the main task's turn.
pub proof fn no_events_are_left<T, R, E>(state: LoopState<T>)
    requires
        state.waited,
        state.parking is None,
        state.starting.len() == 0,
        state.resumed is None,
        state.pending.len() == 0,
    ensures
        state.next(Reply::<T, R, E>::Registered) == (
            (LoopState { phase: Phase::Main, waited: false, ..state }),
            Action::<T, R, E>::ResumeMain,
        ),
{
    assert(state.pending =~= Seq::empty());
}

/// Looking at events gives the calls named in [`every_call_names_the_own_set`].
proof fn dispatch_names_the_own_set<T, R, E>(state: LoopState<T>)
    ensures
        ({
            let (next, action) = state.dispatch::<R, E>();
            &&& next.fd_set == state.fd_set
            &&& next.read_fd == state.read_fd
            &&& !(action is Wait)
            &&& action matches Action::Register(ctl) ==> {
                &&& ctl.epfd == state.fd_set
                &&& ctl.op == 1
                &&& ctl.fd == state.read_fd
                &&& ctl.event.events == 1
                &&& ctl.event.data == ctl.fd as u64
            }
        }),
    decreases state.pending.len(),
{
    token_is_widened_descriptor(state.read_fd);
    if state.pending.len() > 0 {
        let rest = LoopState { pending: state.pending.drop_first(), ..state };
        dispatch_names_the_own_set::<T, R, E>(rest);
    }
}

/// Whatever happens, an event loop stays with its set and its own descriptor. Every
/// registration that it asks for is with that set, to be told when the descriptor is
/// readable, under the descriptor's own number; the descriptor is the one that a task
/// has just asked for, else the event loop's own. Every wait that it asks for is on
/// that set, for up to 64 events, without a limit of time.
pub proof fn every_call_names_the_own_set<T, R, E>(state: LoopState<T>, reply: Reply<T, R, E>)
    ensures
        ({
            let (next, action) = state.next(reply);
            &&& next.fd_set == state.fd_set
            &&& next.read_fd == state.read_fd
            &&& action matches Action::Register(ctl) ==> {
                &&& ctl.epfd == state.fd_set
                &&& ctl.op == 1
                &&& ctl.fd == (match reply {
                    Reply::MainYielded(YieldValue::Fd(fd)) => fd,
                    Reply::Yielded(_, YieldValue::Fd(fd)) => fd,
                    _ => state.read_fd,
                })
                &&& ctl.event.events == 1
                &&& ctl.event.data == ctl.fd as u64
            }
            &&& action matches Action::Wait(wait) ==> {
                &&& wait.epfd == state.fd_set
                &&& wait.maxevents == 64
                &&& wait.timeout == -1
            }
        }),
{
    match reply {
        Reply::MainYielded(YieldValue::Fd(fd)) => token_is_widened_descriptor(fd),
        Reply::Yielded(_, YieldValue::Fd(fd)) => token_is_widened_descriptor(fd),
        Reply::Waited(wait) => dispatch_names_the_own_set::<T, R, E>(
            LoopState { waited: true, pending: wait.tokens(), ..state },
        ),
        Reply::TaskComplete => dispatch_names_the_own_set::<T, R, E>(state.park_resumed()),
        _ => dispatch_names_the_own_set::<T, R, E>(state.park_registered().park_resumed()),
    }
}

/// A new event loop works on the set and the descriptor that it was made with. It is
/// idle, and has no task anywhere.
pub proof fn new_loop_works_on_its_set<T>(fd_set: i32, read_fd: RawFd)
    ensures
        ({
            let state = LoopState::<T>::initial(fd_set, read_fd);
            &&& state.fd_set == fd_set
            &&& state.read_fd == read_fd
            &&& state.tasks.len() == 0
            &&& state.parking is None
            &&& state.starting.len() == 0
            &&& state.resumed is None
            &&& !state.waited
            &&& state.pending.len() == 0
            &&& state.phase == Phase::Idle
        }),
{
}

/// A run that is given up leaves the set, the event loop's own descriptor and the
/// parked tasks, and nothing else.
pub proof fn parked_tasks_outlast_a_run<T>(state: LoopState<T>)
    ensures
        state.abandoned().fd_set == state.fd_set,
        state.abandoned().read_fd == state.read_fd,
        state.abandoned().tasks == state.tasks,
        state.abandoned().parking is None,
        state.abandoned().starting.len() == 0,
        state.abandoned().resumed is None,
        !state.abandoned().waited,
        state.abandoned().pending.len() == 0,
        state.abandoned().phase == Phase::Idle,
{
}

/// All calls of a run name the set that the event loop had at its start.
pub proof fn all_calls_of_a_run_name_its_set<T, R, E>(
    states: Seq<LoopState<T>>,
    replies: Seq<Reply<T, R, E>>,
    actions: Seq<Action<T, R, E>>,
    i: int,
)
    requires
        states.len() == replies.len() + 1,
        actions.len() == replies.len(),
        forall|j: int|
            0 <= j < replies.len() ==> (#[trigger] states[j]).next(replies[j]) == (
                states[j + 1],
                actions[j],
            ),
        0 <= i < replies.len(),
    ensures
        actions[i] matches Action::Register(ctl) ==> ctl.epfd == states[0].fd_set,
        actions[i] matches Action::Wait(wait) ==> wait.epfd == states[0].fd_set,
        states[i + 1].fd_set == states[0].fd_set,
        states[i + 1].read_fd == states[0].read_fd,
    decreases i,
{
    every_call_names_the_own_set(states[i], replies[i]);
    assert(states[i].next(replies[i]) == (states[i + 1], actions[i]));
    if i > 0 {
        all_calls_of_a_run_name_its_set(states, replies, actions, i - 1);
    }
}

} // verus!
