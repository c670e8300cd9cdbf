//! Where each task is: no task is lost on the way, and none turns up twice.
use crate::epoll::{fd_of, slot_of};
use crate::generator::YieldValue;
use crate::int_map::{cleared, stored, value_at};
use crate::model::{Action, LoopState, Phase, Reply};
use vstd::prelude::*;

verus! {

/// One if `yes`, else none.
pub open spec fn one_if(yes: bool) -> nat {
    if yes {
        1
    } else {
        0
    }
}

/// In how many slots a task is parked.
pub open spec fn parked<T>(tasks: Seq<Option<T>>, task: T) -> nat
    decreases tasks.len(),
{
    if tasks.len() == 0 {
        0
    } else {
        parked(tasks.drop_last(), task) + one_if(tasks.last() == Some(task))
    }
}

/// How many times the event loop holds a task.
pub open spec fn held<T>(state: LoopState<T>, task: T) -> nat {
    parked(state.tasks, task) + state.starting.to_multiset().count(task) + one_if(
        state.resumed matches Some(woken) && woken.1 == task,
    ) + one_if(state.parking matches Some(registered) && registered.1 == task)
}

/// How many times a reply brings a task to the event loop.
pub open spec fn brought<T, R, E>(reply: Reply<T, R, E>, task: T) -> nat {
    match reply {
        Reply::MainYielded(YieldValue::Task(new)) => one_if(new == task),
        Reply::Yielded(back, YieldValue::Fd(_)) => one_if(back == task),
        Reply::Yielded(back, YieldValue::Task(new)) => one_if(back == task) + one_if(new == task),
        _ => 0,
    }
}

/// How many times an action hands a task out.
pub open spec fn handed_out<T, R, E>(action: Action<T, R, E>, task: T) -> nat {
    one_if(action matches Action::Resume(out) && out == task)
}

/// The tasks whose slots are given to others upon a reply: first to the task whose
/// descriptor was registered, then to the one that was woken and has started another.
pub open spec fn displaced<T, R, E>(state: LoopState<T>, reply: Reply<T, R, E>) -> (
    Option<T>,
    Option<T>,
) {
    let registered = state.park_registered();
    (
        match (reply, state.parking) {
            (Reply::Registered, Some((slot, _))) => value_at(state.tasks, slot),
            _ => None,
        },
        match (reply, state.resumed) {
            (Reply::TaskComplete, Some((slot, _))) if state.starting.len() == 0 => {
                value_at(state.tasks, slot)
            },
            (Reply::Registered, Some((slot, _))) if state.starting.len() == 0 => {
                value_at(registered.tasks, slot)
            },
            _ => None,
        },
    )
}

/// How many of the tasks whose slots are given to others are the given one.
pub open spec fn displaced_count<T, R, E>(
    state: LoopState<T>,
    reply: Reply<T, R, E>,
    task: T,
) -> nat {
    one_if(displaced(state, reply).0 == Some(task)) + one_if(
        displaced(state, reply).1 == Some(task),
    )
}

/// Changing one slot exchanges the task in it, and no other.
proof fn update_exchanges_one<T>(tasks: Seq<Option<T>>, i: int, new: Option<T>, task: T)
    requires
        0 <= i < tasks.len(),
    ensures
        parked(tasks.update(i, new), task) + one_if(tasks[i] == Some(task)) == parked(tasks, task)
            + one_if(new == Some(task)),
    decreases tasks.len(),
{
    let last = tasks.len() - 1;
    if i == last {
        assert(tasks.update(i, new).drop_last() =~= tasks.drop_last());
    } else {
        update_exchanges_one(tasks.drop_last(), i, new, task);
        assert(tasks.update(i, new).drop_last() =~= tasks.drop_last().update(i, new));
    }
}

/// Clearing a slot takes away the task in it, and no other.
proof fn clearing_takes_one<T>(tasks: Seq<Option<T>>, slot: usize, task: T)
    ensures
        parked(tasks, task) == parked(cleared(tasks, slot), task) + one_if(
            value_at(tasks, slot) == Some(task),
        ),
{
    if slot < tasks.len() {
        update_exchanges_one(tasks, slot as int, None, task);
    }
}

/// Parking a task adds it, and takes away the task that was in the slot.
proof fn storing_adds_one<T>(tasks: Seq<Option<T>>, slot: usize, new: T, task: T)
    ensures
        parked(stored(tasks, slot, new), task) + one_if(value_at(tasks, slot) == Some(task))
            == parked(tasks, task) + one_if(new == task),
    decreases slot - tasks.len(),
{
    if slot < tasks.len() {
        update_exchanges_one(tasks, slot as int, Some(new), task);
        assert(stored(tasks, slot, new) =~= tasks.update(slot as int, Some(new)));
    } else if slot == tasks.len() {
        assert(stored(tasks, slot, new).drop_last() =~= tasks);
    } else {
        let longer = tasks.push(None);
        assert(longer.drop_last() =~= tasks);
        storing_adds_one(longer, slot, new, task);
        assert(stored(longer, slot, new) =~= stored(tasks, slot, new));
    }
}

/// A task that is woken is taken from its slot, and the others stay.
proof fn dispatch_loses_nothing<T, R, E>(state: LoopState<T>, task: T)
    ensures
        held(state.dispatch::<R, E>().0, task) + handed_out(state.dispatch::<R, E>().1, task)
            == held(state, task),
    decreases state.pending.len(),
{
    if state.pending.len() > 0 {
        let rest = LoopState { pending: state.pending.drop_first(), ..state };
        clearing_takes_one(state.tasks, slot_of(state.pending[0]), task);
        dispatch_loses_nothing::<T, R, E>(rest, task);
    }
}

/// Where the event loop goes on, no task is lost but one whose slot is given to the
/// task that was woken and has started another.
proof fn advance_loses_nothing<T, R, E>(state: LoopState<T>, task: T)
    ensures
        held(state.advance::<R, E>().0, task) + handed_out(state.advance::<R, E>().1, task)
            + one_if(
            state.starting.len() == 0 && (state.resumed matches Some(woken) && value_at(
                state.tasks,
                woken.0,
            ) == Some(task)),
        ) == held(state, task),
{
    broadcast use vstd::seq_lib::group_to_multiset_ensures;

    if state.starting.len() > 0 {
        let above = state.starting.drop_last();
        assert(above.push(state.starting.last()) =~= state.starting);
    } else {
        if let Some((slot, woken)) = state.resumed {
            storing_adds_one(state.tasks, slot, woken, task);
        }
        dispatch_loses_nothing::<T, R, E>(state.park_resumed(), task);
    }
}

/// The tasks that are brought to the event loop are held by it until they are
/// handed out. The only exception is a task whose slot is given to another one.
pub proof fn no_task_is_lost<T, R, E>(state: LoopState<T>, reply: Reply<T, R, E>, task: T)
    requires
        state.valid(),
        state.accepts(reply),
    ensures
        held(state.next(reply).0, task) + handed_out(state.next(reply).1, task) + displaced_count(
            state,
            reply,
            task,
        ) == held(state, task) + brought(reply, task),
{
    broadcast use vstd::seq_lib::group_to_multiset_ensures;

    match reply {
        Reply::TaskComplete => advance_loses_nothing::<T, R, E>(state, task),
        Reply::Registered => {
            if let Some((slot, registered)) = state.parking {
                storing_adds_one(state.tasks, slot, registered, task);
            }
            advance_loses_nothing::<T, R, E>(state.park_registered(), task);
        },
        Reply::Waited(wait) => {
            dispatch_loses_nothing::<T, R, E>(
                LoopState { waited: true, pending: wait.tokens(), ..state },
                task,
            );
        },
        _ => {},
    }
}

/// A parked task stays parked until it is woken or its slot is given to another
/// task.
pub proof fn parked_task_stays_parked<T, R, E>(
    state: LoopState<T>,
    reply: Reply<T, R, E>,
    slot: usize,
)
    requires
        state.valid(),
        state.accepts(reply),
        value_at(state.tasks, slot) is Some,
        state.next(reply).0.phase != (Phase::Woken { slot }),
        !(state.parking matches Some(registered) && registered.0 == slot),
        !((reply is TaskComplete || reply is Registered) && state.starting.len() == 0 && (
        state.resumed matches Some(woken) && woken.0 == slot)),
    ensures
        value_at(state.next(reply).0.tasks, slot) == value_at(state.tasks, slot),
{
    match reply {
        Reply::TaskComplete | Reply::Registered => {
            if state.starting.len() == 0 {
                dispatch_keeps_parked::<T, R, E>(state.park_registered().park_resumed(), slot);
            }
        },
        Reply::Waited(wait) => if wait.result >= 0 {
            dispatch_keeps_parked::<T, R, E>(
                LoopState { waited: true, pending: wait.tokens(), ..state },
                slot,
            );
        },
        _ => {},
    }
}

/// Looking at events leaves the tasks that are not woken parked.
pub(crate) proof fn dispatch_keeps_parked<T, R, E>(state: LoopState<T>, slot: usize)
    requires
        value_at(state.tasks, slot) is Some,
        state.dispatch::<R, E>().0.phase != (Phase::Woken { slot }),
    ensures
        value_at(state.dispatch::<R, E>().0.tasks, slot) == value_at(state.tasks, slot),
    decreases state.pending.len(),
{
    if state.pending.len() > 0 {
        let rest = LoopState { pending: state.pending.drop_first(), ..state };
        let first = slot_of(state.pending[0]);
        if value_at(state.tasks, first) is None && fd_of(first) != state.read_fd {
            dispatch_keeps_parked::<T, R, E>(rest, slot);
        }
    }
}

} // verus!
