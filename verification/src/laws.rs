//! What holds of every run of the event loop.
use crate::epoll::{fd_of, slot_of, token, wait_for, RawFd, FD_COUNT};
use crate::epoll::{token_identifies_descriptor, token_leads_to_slot};
use crate::generator::YieldValue;
use crate::int_map::{cleared, stored, value_at};
use crate::model::{Action, LoopState, Phase, Reply};
use crate::script::{world_of, Machine, Program, Script, World};
use vstd::prelude::*;

verus! {

/// Steps add up.
proof fn steps_add_up<R, E>(machine: Machine<R, E>, m: nat, n: nat)
    ensures
        machine.steps(m).steps(n) == machine.steps(m + n),
    decreases m,
{
    if m > 0 {
        steps_add_up(machine.step(), (m - 1) as nat, n);
    }
}

/// Where the event loop goes on does not depend on what it has just done.
proof fn dispatch_ignores_phase<T, R, E>(state: LoopState<T>, phase: Phase)
    ensures
        state.in_phase(phase).dispatch::<R, E>() == state.dispatch::<R, E>(),
    decreases state.pending.len(),
{
    if state.pending.len() > 0 {
        let rest = LoopState { pending: state.pending.drop_first(), ..state };
        dispatch_ignores_phase::<T, R, E>(rest, phase);
    }
}

/// Where the event loop goes on does not depend on what it has just done.
proof fn advance_ignores_phase<T, R, E>(state: LoopState<T>, phase: Phase)
    ensures
        state.in_phase(phase).advance::<R, E>() == state.advance::<R, E>(),
{
    dispatch_ignores_phase::<T, R, E>(state.park_resumed(), phase);
}

/// Starting a task changes neither the `epoll` set nor the event loop's own
/// descriptor, and takes no more slots than can be numbered.
proof fn add_task_keeps_world(world: World, task: Script)
    ensures
        world.add_task(task).fd_set == world.fd_set,
        world.add_task(task).read_fd == world.read_fd,
        task.startable() && world.tasks.len() <= usize::MAX ==> world.add_task(task).tasks.len()
            <= usize::MAX,
    decreases task,
{
    match task {
        Script::Task(new, rest) => {
            add_task_keeps_world(world, *new);
            add_task_keeps_world(world.add_task(*new), *rest);
        },
        _ => {},
    }
}

/// Handling events changes neither the `epoll` set nor the event loop's own
/// descriptor, and takes no more slots than can be numbered.
proof fn handle_all_keeps_world(world: World, events: Seq<u64>)
    ensures
        world.handle_all(events).fd_set == world.fd_set,
        world.handle_all(events).read_fd == world.read_fd,
        world.can_handle_all(events) && world.tasks.len() <= usize::MAX ==> world.handle_all(
            events,
        ).tasks.len() <= usize::MAX,
    decreases events.len(),
{
    if events.len() > 0 {
        let slot = slot_of(events[0]);
        match value_at(world.tasks, slot) {
            Some(Script::Task(new, _)) => {
                let taken = World { tasks: cleared(world.tasks, slot), ..world };
                add_task_keeps_world(taken, *new);
            },
            _ => {},
        }
        handle_all_keeps_world(world.handle(events[0]), events.drop_first());
    }
}

/// Starting a task, one action at a time, comes to the same as running it, and
/// the tasks that it starts, up to their first descriptors, innermost first.
/// Then the event loop goes on where it had stopped to start the task.
pub proof fn task_is_started_depth_first<R, E>(machine: Machine<R, E>, task: Script) -> (n: nat)
    requires
        machine.state.phase == Phase::Starting,
        machine.state.parking is None,
        machine.action == Action::<Script, R, E>::Resume(task),
        task.startable(),
    ensures
        machine.steps(n) == machine.at(
            machine.state.with_tasks(machine.world().add_task(task).tasks).advance(),
            machine.world().add_task(task).calls,
        ),
    decreases task,
{
    let world = machine.world().add_task(task);
    let next = machine.step();
    match task {
        Script::Complete => {
            assert(machine.state.with_tasks(world.tasks) == machine.state);
            assert(machine.steps(1) == next) by {
                reveal_with_fuel(Machine::<_, _>::steps, 2);
            }
            1
        },
        Script::Fd(fd, rest) => {
            advance_ignores_phase::<Script, R, E>(
                machine.state.with_tasks(world.tasks),
                Phase::Registering,
            );
            assert(machine.steps(2) == next.step()) by {
                reveal_with_fuel(Machine::<_, _>::steps, 3);
            }
            2
        },
        Script::Task(new, rest) => {
            let first = task_is_started_depth_first(next, *new);
            let started = next.steps(first);
            assert(next.state.starting.drop_last() =~= machine.state.starting);
            add_task_keeps_world(machine.world(), *new);
            assert(started.world() == machine.world().add_task(*new));
            let second = task_is_started_depth_first(started, *rest);
            steps_add_up(next, first, second);
            1 + first + second
        },
    }
}

/// Handling the reported events, one action at a time, comes to the same as
/// handling each event as a whole, first to last. Then it is the main task's
/// turn.
pub proof fn events_are_handled_in_order<R, E>(
    machine: Machine<R, E>,
    state: LoopState<Script>,
) -> (n: nat)
    requires
        state.waited,
        state.starting.len() == 0,
        state.resumed is None,
        state.parking is None,
        (machine.state, machine.action) == state.dispatch::<R, E>(),
        world_of(state, machine.calls).can_handle_all(state.pending),
    ensures
        machine.steps(n) == machine.at(
            (
                state.with_tasks(
                    world_of(state, machine.calls).handle_all(state.pending).tasks,
                ).turn_of_main(),
                Action::ResumeMain,
            ),
            world_of(state, machine.calls).handle_all(state.pending).calls,
        ),
    decreases state.pending.len(),
{
    let world = world_of(state, machine.calls);
    if state.pending.len() == 0 {
        assert(state.pending =~= Seq::empty());
        0
    } else {
        let data = state.pending[0];
        let slot = slot_of(data);
        let rest = LoopState { pending: state.pending.drop_first(), ..state };
        let handled = world.handle(data);
        let next = machine.step();
        let after = rest.with_tasks(handled.tasks);
        assert(handled.can_handle_all(after.pending));
        let taken = World { tasks: cleared(world.tasks, slot), ..world };
        match value_at(state.tasks, slot) {
            Some(Script::Complete) => {
                dispatch_ignores_phase::<Script, R, E>(after, Phase::Woken { slot });
                assert(world_of(after, next.calls) == handled);
                let n = events_are_handled_in_order(next, after);
                1 + n
            },
            Some(Script::Fd(fd, task)) => {
                let registered = next.step();
                dispatch_ignores_phase::<Script, R, E>(after, Phase::Registering);
                assert(world_of(after, registered.calls) == handled);
                let n = events_are_handled_in_order(registered, after);
                reveal_with_fuel(Machine::<_, _>::steps, 3);
                2 + n
            },
            Some(Script::Task(new, task)) => {
                let first = task_is_started_depth_first(next, *new);
                let started = next.steps(first);
                add_task_keeps_world(taken, *new);
                dispatch_ignores_phase::<Script, R, E>(after, Phase::Starting);
                assert(next.world() == taken);
                assert(world_of(after, started.calls) == handled);
                let second = events_are_handled_in_order(started, after);
                steps_add_up(next, first, second);
                1 + first + second
            },
            None => if fd_of(slot) == state.read_fd {
                dispatch_ignores_phase::<Script, R, E>(after, Phase::Registering);
                assert(world_of(after, next.calls) == handled);
                let n = events_are_handled_in_order(next, after);
                1 + n
            } else {
                assert(world_of(after, machine.calls) == handled);
                events_are_handled_in_order(machine, after)
            },
        }
    }
}

/// Waiting for events and handling them leads back to the main task.
proof fn round_leads_back_to_main<R, E>(machine: Machine<R, E>) -> (n: nat)
    requires
        machine.state.valid(),
        machine.state.phase == Phase::Waiting,
        machine.action is Wait,
        machine.waits.len() > 0,
        0 <= machine.waits[0].result <= FD_COUNT,
        machine.world().can_handle_all(machine.waits[0].tokens()),
    ensures
        machine.steps(n) == (Machine {
            waits: machine.waits.drop_first(),
            ..machine.at(
                (
                    machine.state.with_tasks(
                        machine.world().handle_all(machine.waits[0].tokens()).tasks,
                    ).in_phase(Phase::Main),
                    Action::ResumeMain,
                ),
                machine.world().handle_all(machine.waits[0].tokens()).calls,
            )
        }),
{
    let next = machine.step();
    let state = LoopState { waited: true, pending: machine.waits[0].tokens(), ..machine.state };
    assert(world_of(state, next.calls) == machine.world());
    let n = events_are_handled_in_order(next, state);
    assert(machine.state.pending =~= Seq::empty());
    1 + n
}

/// A run that waits for events, one action at a time, comes to the same end as
/// the run told as a whole.
proof fn wait_comes_to_the_same_end<R, E>(machine: Machine<R, E>) -> (n: nat)
    requires
        machine.state.valid(),
        machine.state.phase == Phase::Waiting,
        machine.action == Action::<Script, R, E>::Wait(wait_for(machine.state.fd_set)),
        machine.world().can_wait_and_run(machine.main, machine.waits),
    ensures
        machine.steps(n).ends_as(
            machine.state,
            machine.world().wait_and_run(machine.main, machine.waits),
        ),
    decreases machine.main, 1int,
{
    if machine.waits.len() == 0 {
        assert(machine.state.with_tasks(machine.state.tasks).in_phase(Phase::Waiting)
            == machine.state);
        0
    } else if machine.waits[0].result < 0 {
        assert(machine.state.with_tasks(machine.state.tasks) == machine.state);
        reveal_with_fuel(Machine::<_, _>::steps, 2);
        1
    } else {
        let events = machine.waits[0].tokens();
        let first = round_leads_back_to_main(machine);
        let main = machine.steps(first);
        handle_all_keeps_world(machine.world(), events);
        assert(main.world() == machine.world().handle_all(events));
        assert(main.state.valid());
        let second = run_comes_to_the_same_end(main);
        steps_add_up(machine, first, second);
        first + second
    }
}

/// A run, one action at a time, comes to the same end as the run told as a
/// whole: it makes the same calls in the same order, leaves the same tasks parked
/// in the same slots, and returns the same result, unless a wait does not come
/// back.
pub proof fn run_comes_to_the_same_end<R, E>(machine: Machine<R, E>) -> (n: nat)
    requires
        machine.state.valid(),
        machine.state.phase == Phase::Main,
        machine.action == Action::<Script, R, E>::ResumeMain,
        machine.world().can_run(machine.main, machine.waits),
    ensures
        machine.steps(n).ends_as(
            machine.state,
            machine.world().run(machine.main, machine.waits),
        ),
    decreases machine.main, 0int,
{
    let next = machine.step();
    match machine.main {
        Program::Return(result) => {
            assert(machine.state.with_tasks(machine.state.tasks) == machine.state);
            reveal_with_fuel(Machine::<_, _>::steps, 2);
            1
        },
        Program::Fd(fd, rest) => {
            let waiting = next.step();
            assert(machine.steps(2) == waiting) by {
                reveal_with_fuel(Machine::<_, _>::steps, 3);
            }
            assert(waiting.world() == machine.world().add_fd(fd));
            let n = wait_comes_to_the_same_end(waiting);
            steps_add_up(machine, 2, n);
            2 + n
        },
        Program::Task(task, rest) => {
            let first = task_is_started_depth_first(next, task);
            add_task_keeps_world(machine.world(), task);
            let waiting = next.steps(first);
            assert(waiting.world() == machine.world().add_task(task));
            let n = wait_comes_to_the_same_end(waiting);
            steps_add_up(machine, 1 + first, n);
            1 + first + n
        },
    }
}

/// Whether an event loop in the given phase waits for a reply to the given action.
pub open spec fn awaits<T, R, E>(phase: Phase, action: Action<T, R, E>) -> bool {
    match action {
        Action::ResumeMain => phase == Phase::Main,
        Action::Resume(_) => phase == Phase::Starting || phase is Woken,
        Action::Register(_) => phase == Phase::Registering,
        Action::Wait(_) => phase == Phase::Waiting,
        Action::Return(_) => phase == Phase::Idle,
    }
}

/// Looking at the reported events leads to a valid state and does not end the run.
proof fn dispatch_keeps_valid<T, R, E>(state: LoopState<T>)
    requires
        state.consistent(),
        state.waited,
        state.starting.len() == 0,
        state.resumed is None,
        state.parking is None,
    ensures
        state.dispatch::<R, E>().0.valid(),
        awaits(state.dispatch::<R, E>().0.phase, state.dispatch::<R, E>().1),
        !(state.dispatch::<R, E>().1 is Return),
    decreases state.pending.len(),
{
    if state.pending.len() > 0 {
        let rest = LoopState { pending: state.pending.drop_first(), ..state };
        dispatch_keeps_valid::<T, R, E>(rest);
    }
}

/// When a run returns, and with what.
pub open spec fn returns_as_due<T, R, E>(reply: Reply<T, R, E>, action: Action<T, R, E>) -> bool {
    match reply {
        Reply::MainComplete(result) => action == Action::<T, R, E>::Return(Ok(result)),
        Reply::Waited(wait) if wait.result < 0 => {
            action == Action::<T, R, E>::Return(Err(wait.os_error))
        },
        _ => !(action is Return),
    }
}

/// Every step leads to a valid state with an action that fits it, and ends the run
/// only when that is due.
proof fn every_step_is_sound<T, R, E>(state: LoopState<T>, reply: Reply<T, R, E>)
    requires
        state.valid(),
        state.accepts(reply),
    ensures
        state.next(reply).0.valid(),
        awaits(state.next(reply).0.phase, state.next(reply).1),
        returns_as_due(reply, state.next(reply).1),
{
    match reply {
        Reply::Waited(wait) => if wait.result >= 0 {
            dispatch_keeps_valid::<T, R, E>(
                LoopState { waited: true, pending: wait.tokens(), ..state },
            );
        },
        _ => if state.waited && state.starting.len() == 0 {
            dispatch_keeps_valid::<T, R, E>(state.park_registered().park_resumed());
        },
    }
}

/// Every state that the event loop gets into is valid, and is one that waits for a
/// reply to the action given with it.
pub proof fn states_stay_valid<T, R, E>(state: LoopState<T>, reply: Reply<T, R, E>)
    requires
        state.valid(),
        state.accepts(reply),
    ensures
        state.next(reply).0.valid(),
        awaits(state.next(reply).0.phase, state.next(reply).1),
{
    every_step_is_sound(state, reply);
}

/// A run returns when the main task has come to its end, with its result, or when
/// a wait has failed, with its error, and at no other time.
pub proof fn run_returns_at_end_or_on_failed_wait<T, R, E>(
    state: LoopState<T>,
    reply: Reply<T, R, E>,
)
    requires
        state.valid(),
        state.accepts(reply),
    ensures
        returns_as_due(reply, state.next(reply).1),
{
    every_step_is_sound(state, reply);
}

/// Once it has suspended itself, the main task is not resumed before a wait has
/// succeeded, every event that the wait reported was looked at, and every task
/// that was to be started or woken has been.
pub proof fn main_task_waits_for_events<T, R, E>(state: LoopState<T>, reply: Reply<T, R, E>)
    requires
        state.valid(),
        state.accepts(reply),
        state.next(reply).1 is ResumeMain,
    ensures
        state.waited || reply is Waited,
        state.next(reply).0.pending.len() == 0,
        state.next(reply).0.starting.len() == 0,
        state.next(reply).0.resumed is None,
{
    states_stay_valid(state, reply);
}

/// A new task that waits for a descriptor has the descriptor registered, and is then
/// parked in the slot that the events of the descriptor lead to.
pub proof fn started_task_is_parked_where_its_events_lead<T, R, E>(
    state: LoopState<T>,
    task: T,
    fd: RawFd,
)
    requires
        state.phase == Phase::Starting,
        fd >= 0,
    ensures
        ({
            let (next, action) = state.next(Reply::<T, R, E>::Yielded(task, YieldValue::Fd(fd)));
            &&& action matches Action::Register(ctl)
            &&& ctl.fd == fd
            &&& next.tasks == state.tasks
            &&& next.park_registered().tasks == stored(state.tasks, slot_of(ctl.event.data), task)
            &&& next.next(Reply::<T, R, E>::Registered) == next.park_registered().advance::<R, E>()
        }),
{
    token_leads_to_slot(fd);
}

/// A task that was woken and waits for a descriptor has the descriptor registered, and
/// is then parked in the slot that it was woken in, whatever the descriptor is.
pub proof fn woken_task_is_parked_where_it_was<T, R, E>(
    state: LoopState<T>,
    slot: usize,
    task: T,
    fd: RawFd,
)
    requires
        state.phase == (Phase::Woken { slot }),
    ensures
        ({
            let (next, action) = state.next(Reply::<T, R, E>::Yielded(task, YieldValue::Fd(fd)));
            &&& action matches Action::Register(ctl)
            &&& ctl.fd == fd
            &&& next.tasks == state.tasks
            &&& next.park_registered().tasks == stored(state.tasks, slot, task)
            &&& next.next(Reply::<T, R, E>::Registered) == next.park_registered().advance::<R, E>()
        }),
{
}

/// Whether an event calls for nothing to be done: no task is parked in its slot,
/// and it does not come from the event loop's own descriptor.
pub open spec fn is_idle<T>(state: LoopState<T>, data: u64) -> bool {
    &&& value_at(state.tasks, slot_of(data)) is None
    &&& fd_of(slot_of(data)) != state.read_fd
}

/// Events that call for nothing to be done are passed over.
proof fn idle_events_are_passed_over<T, R, E>(state: LoopState<T>, k: int)
    requires
        0 <= k <= state.pending.len(),
        forall|i: int| 0 <= i < k ==> is_idle(state, #[trigger] state.pending[i]),
    ensures
        state.dispatch::<R, E>() == (LoopState {
            pending: state.pending.skip(k),
            ..state
        }).dispatch::<R, E>(),
    decreases k,
{
    if k == 0 {
        assert(state.pending.skip(0) =~= state.pending);
    } else {
        let rest = LoopState { pending: state.pending.drop_first(), ..state };
        assert(is_idle(state, state.pending[0]));
        assert forall|i: int| 0 <= i < k - 1 implies is_idle(rest, #[trigger] rest.pending[i]) by {
            assert(is_idle(state, state.pending[i + 1]));
        }
        idle_events_are_passed_over::<T, R, E>(rest, k - 1);
        assert(rest.pending.skip(k - 1) =~= state.pending.skip(k));
    }
}

/// An event of a descriptor wakes the task that is parked under the descriptor, if
/// the events before it call for nothing to be done. The task is handed out and is
/// parked no longer.
pub proof fn event_wakes_parked_task<T, R, E>(state: LoopState<T>, k: int, fd: RawFd)
    requires
        0 <= k < state.pending.len(),
        forall|i: int| 0 <= i < k ==> is_idle(state, #[trigger] state.pending[i]),
        fd >= 0,
        state.pending[k] == token(fd),
        value_at(state.tasks, fd as usize) is Some,
    ensures
        state.dispatch::<R, E>() == (
            (LoopState { pending: state.pending.skip(k + 1), ..state }).with_tasks(
                cleared(state.tasks, fd as usize),
            ).in_phase(Phase::Woken { slot: fd as usize }),
            Action::<T, R, E>::Resume(value_at(state.tasks, fd as usize)->Some_0),
        ),
{
    idle_events_are_passed_over::<T, R, E>(state, k);
    token_leads_to_slot(fd);
    assert(state.pending.skip(k).drop_first() =~= state.pending.skip(k + 1));
}

/// An event of the event loop's own descriptor has the descriptor registered once
/// more, if no task is parked under it and the events before it call for nothing
/// to be done.
pub proof fn own_event_is_registered_again<T, R, E>(state: LoopState<T>, k: int)
    requires
        0 <= k < state.pending.len(),
        forall|i: int| 0 <= i < k ==> is_idle(state, #[trigger] state.pending[i]),
        state.pending[k] == token(state.read_fd),
        value_at(state.tasks, slot_of(token(state.read_fd))) is None,
    ensures
        state.dispatch::<R, E>() == (LoopState {
            pending: state.pending.skip(k + 1),
            ..state
        }).add_fd::<R, E>(state.read_fd),
{
    idle_events_are_passed_over::<T, R, E>(state, k);
    token_identifies_descriptor(state.read_fd);
    assert(state.pending.skip(k).drop_first() =~= state.pending.skip(k + 1));
}

/// Events that all call for nothing to be done lead straight back to the main task.
pub proof fn idle_events_lead_to_main_task<T, R, E>(state: LoopState<T>)
    requires
        forall|i: int|
            0 <= i < state.pending.len() ==> is_idle(state, #[trigger] state.pending[i]),
    ensures
        state.dispatch::<R, E>() == (state.turn_of_main(), Action::<T, R, E>::ResumeMain),
{
    idle_events_are_passed_over::<T, R, E>(state, state.pending.len() as int);
}

} // verus!
