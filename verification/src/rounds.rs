//! What becomes of the events that a wait reports, up to the main task's next turn.
use crate::custody::dispatch_keeps_parked;
use crate::int_map::value_at;
use crate::laws::states_stay_valid;
use crate::model::{Action, LoopState, Phase, Reply, WaitReturn};
use vstd::prelude::*;

verus! {

/// Looking at events goes through them one by one, as told in
/// [`reported_events_are_taken_one_by_one`].
proof fn dispatch_takes_events_in_order<T, R, E>(state: LoopState<T>)
    ensures
        ({
            let (next, action) = state.dispatch::<R, E>();
            let looked = state.pending.len() - next.pending.len();
            &&& 0 <= looked <= state.pending.len()
            &&& next.pending == state.pending.skip(looked)
            &&& next.starting == state.starting
            &&& next.resumed == state.resumed
            &&& next.parking == state.parking
            &&& forall|i: int|
                0 <= i < looked && (i < looked - 1 || action is ResumeMain) ==> value_at(
                    state.tasks,
                    (#[trigger] state.pending[i]) as usize,
                ) is None && (state.pending[i] as usize) as i32 != state.read_fd
            &&& match action {
                Action::Resume(task) => {
                    &&& looked > 0
                    &&& next.phase == (Phase::Woken {
                        slot: state.pending[looked - 1] as usize,
                    })
                    &&& (state.pending[looked - 1] as usize) < state.tasks.len()
                    &&& state.tasks[(state.pending[looked - 1] as usize) as int] == Some(task)
                    &&& next.tasks == state.tasks.update(
                        (state.pending[looked - 1] as usize) as int,
                        None,
                    )
                    &&& next.waited == state.waited
                },
                Action::Register(ctl) => {
                    &&& looked > 0
                    &&& value_at(state.tasks, state.pending[looked - 1] as usize) is None
                    &&& (state.pending[looked - 1] as usize) as i32 == state.read_fd
                    &&& ctl.fd == state.read_fd
                    &&& next.phase == Phase::Registering
                    &&& next.tasks == state.tasks
                    &&& next.waited == state.waited
                },
                Action::ResumeMain => {
                    &&& looked == state.pending.len()
                    &&& next.phase == Phase::Main
                    &&& next.tasks == state.tasks
                    &&& !next.waited
                },
                _ => false,
            }
        }),
    decreases state.pending.len(),
{
    let (next, action) = state.dispatch::<R, E>();
    if state.pending.len() == 0 {
        assert(next.pending =~= state.pending.skip(0));
    } else {
        let slot = state.pending[0] as usize;
        let rest = LoopState { pending: state.pending.drop_first(), ..state };
        dispatch_takes_events_in_order::<T, R, E>(rest);
        assert(rest.pending =~= state.pending.skip(1));
        let looked = state.pending.len() - next.pending.len();
        if value_at(state.tasks, slot) is None && slot as i32 != state.read_fd {
            assert(next.pending =~= state.pending.skip(looked));
            assert forall|i: int|
                0 <= i < looked && (i < looked - 1 || action is ResumeMain) implies value_at(
                state.tasks,
                (#[trigger] state.pending[i]) as usize,
            ) is None && (state.pending[i] as usize) as i32 != state.read_fd by {
                if i > 0 {
                    assert(rest.pending[i - 1] == state.pending[i]);
                }
            }
        }
    }
}

/// The events that a wait reports are taken from the buffer one by one. Those that
/// neither have a task in their slot nor come from the event loop's own descriptor are
/// passed over; the first other one is acted on; those after it stay, as they are in
/// the buffer.
pub proof fn reported_events_are_taken_one_by_one<T, R, E>(
    state: LoopState<T>,
    wait: WaitReturn<E>,
)
    requires
        0 <= wait.result <= 64,
    ensures
        ({
            let (next, action) = state.next(Reply::<T, R, E>::Waited(wait));
            let looked = wait.result - next.pending.len();
            &&& 0 <= looked <= wait.result
            &&& forall|i: int|
                0 <= i < next.pending.len() ==> #[trigger] next.pending[i] == wait.events@[looked
                    + i].data
            &&& forall|i: int|
                0 <= i < looked && (i < looked - 1 || action is ResumeMain) ==> {
                    let slot = (#[trigger] wait.events@[i]).data as usize;
                    &&& slot >= state.tasks.len() || state.tasks[slot as int] is None
                    &&& slot as i32 != state.read_fd
                }
            &&& match action {
                Action::Resume(task) => {
                    let slot = wait.events@[looked - 1].data as usize;
                    &&& looked > 0
                    &&& next.phase == (Phase::Woken { slot })
                    &&& slot < state.tasks.len()
                    &&& state.tasks[slot as int] == Some(task)
                    &&& next.tasks == state.tasks.update(slot as int, None)
                },
                Action::Register(ctl) => {
                    let slot = wait.events@[looked - 1].data as usize;
                    &&& looked > 0
                    &&& slot >= state.tasks.len() || state.tasks[slot as int] is None
                    &&& slot as i32 == state.read_fd
                    &&& ctl.fd == state.read_fd
                    &&& next.tasks == state.tasks
                },
                Action::ResumeMain => looked == wait.result && next.tasks == state.tasks,
                _ => false,
            }
        }),
{
    let (next, action) = state.next(Reply::<T, R, E>::Waited(wait));
    let begun = LoopState { waited: true, pending: wait.tokens(), ..state };
    dispatch_takes_events_in_order::<T, R, E>(begun);
    let looked = wait.result - next.pending.len();
    assert forall|i: int|
        0 <= i < looked && (i < looked - 1 || action is ResumeMain) implies {
        let slot = (#[trigger] wait.events@[i]).data as usize;
        &&& slot >= state.tasks.len() || state.tasks[slot as int] is None
        &&& slot as i32 != state.read_fd
    } by {
        assert(begun.pending[i] == wait.events@[i].data);
    }
}

/// A slot with a task in it stays filled until its task is woken.
proof fn slot_stays_filled<T, R, E>(state: LoopState<T>, reply: Reply<T, R, E>, slot: usize)
    requires
        value_at(state.tasks, slot) is Some,
        state.next(reply).0.phase != (Phase::Woken { slot }),
        !(reply is Waited),
        state.valid(),
        state.accepts(reply),
    ensures
        value_at(state.next(reply).0.tasks, slot) is Some,
{
    match reply {
        Reply::TaskComplete | Reply::Registered => {
            if state.starting.len() == 0 {
                dispatch_keeps_parked::<T, R, E>(state.park_registered().park_resumed(), slot);
            }
        },
        _ => {},
    }
}

/// Whether the event loop goes through the given states, by the given replies and
/// actions.
pub open spec fn goes_through<T, R, E>(
    states: Seq<LoopState<T>>,
    replies: Seq<Reply<T, R, E>>,
    actions: Seq<Action<T, R, E>>,
) -> bool {
    &&& states.len() == replies.len() + 1
    &&& actions.len() == replies.len()
    &&& forall|i: int|
        0 <= i < replies.len() ==> {
            &&& (#[trigger] states[i]).accepts(replies[i])
            &&& states[i + 1] == states[i].next(replies[i]).0
            &&& actions[i] == states[i].next(replies[i]).1
        }
}

/// The rest of a round, from where an event is still to be handled.
proof fn event_is_handled_from<T, R, E>(
    states: Seq<LoopState<T>>,
    replies: Seq<Reply<T, R, E>>,
    actions: Seq<Action<T, R, E>>,
    words: Seq<u64>,
    looked: int,
    event: int,
    i: int,
) -> (at: int)
    requires
        goes_through(states, replies, actions),
        0 < i < replies.len(),
        actions[replies.len() - 1] is ResumeMain,
        states[i].valid(),
        states[i].waited,
        0 <= looked <= event < words.len(),
        states[i].pending == words.skip(looked),
        value_at(states[i].tasks, words[event] as usize) is Some,
    ensures
        i <= at < replies.len(),
        actions[at] is Resume,
        states[at + 1].phase == (Phase::Woken { slot: words[event] as usize }),
    decreases replies.len() - i,
{
    let state = states[i];
    let reply = replies[i];
    let slot = words[event] as usize;
    let next = states[i + 1];
    assert(state.accepts(reply));
    states_stay_valid(state, reply);
    let parked = state.park_registered().park_resumed();
    let ended = (reply is TaskComplete || reply is Registered) && state.starting.len() == 0;
    dispatch_takes_events_in_order::<T, R, E>(parked);
    if next.phase == (Phase::Woken { slot }) {
        i
    } else {
        slot_stays_filled(state, reply, slot);
        let now = if ended {
            looked + (parked.pending.len() - next.pending.len())
        } else {
            looked
        };
        assert(next.pending =~= words.skip(now));
        if ended && now > event {
            assert(parked.pending[event - looked] == words[event]);
            assert(value_at(parked.tasks, slot) is Some);
            assert(false);
        }
        assert(!(actions[i] is ResumeMain));
        event_is_handled_from(states, replies, actions, words, now, event, i + 1)
    }
}

/// Between a wait and the main task's next turn, the slot of every event that the wait
/// reported has its task resumed, if there was one in it when the wait came back.
pub proof fn every_reported_event_wakes_its_slot<T, R, E>(
    states: Seq<LoopState<T>>,
    replies: Seq<Reply<T, R, E>>,
    actions: Seq<Action<T, R, E>>,
    wait: WaitReturn<E>,
    event: int,
) -> (at: int)
    requires
        goes_through(states, replies, actions),
        states[0].valid(),
        replies.len() > 0,
        replies[0] == Reply::<T, R, E>::Waited(wait),
        actions[replies.len() - 1] is ResumeMain,
        0 <= event < wait.result,
        (wait.events@[event].data as usize) < states[0].tasks.len(),
        states[0].tasks[(wait.events@[event].data as usize) as int] is Some,
    ensures
        0 <= at < replies.len(),
        actions[at] is Resume,
        states[at + 1].phase == (Phase::Woken { slot: wait.events@[event].data as usize }),
{
    let words = wait.tokens();
    let slot = words[event] as usize;
    assert(states[0].accepts(replies[0]));
    states_stay_valid(states[0], replies[0]);
    let begun = LoopState { waited: true, pending: words, ..states[0] };
    dispatch_takes_events_in_order::<T, R, E>(begun);
    let looked = words.len() - states[1].pending.len();
    if states[1].phase == (Phase::Woken { slot }) {
        0
    } else {
        if looked > event {
            assert(begun.pending[event] == words[event]);
            assert(false);
        }
        dispatch_keeps_parked::<T, R, E>(begun, slot);
        event_is_handled_from(states, replies, actions, words, looked, event, 1)
    }
}

} // verus!
