use evloop::epoll::{EpollCreate, EpollCtl, EpollEvent, EpollWait, FD_COUNT};
use evloop::model::Phase;
use evloop::pipe::{PipeCall, PipeReturn};
use evloop::script::{Program, Script};
use evloop::{Action, EventLoop, GeneratorState, PipeWriter, RawFd, Reply, Setup, SetupAction};
use evloop::{SetupReply, WaitReturn, WritePipe, YieldValue};
use std::cell::RefCell;
use std::collections::VecDeque;
use std::rc::Rc;

const READ_FD: RawFd = 3;

fn new_loop<T>() -> EventLoop<T> {
    let mut writer = PipeWriter::new();
    let (setup, _) = EventLoop::new::<&str>();
    let made = PipeReturn { result: 0, fds: [READ_FD, 4], os_error: "unused" };
    let (setup, _) = setup.step(SetupReply::PipeCreated(made), &mut writer);
    let (setup, _) = setup.step::<&str>(SetupReply::SetCreated(9), &mut writer);
    match setup.step::<&str>(SetupReply::Registered, &mut writer) {
        (_, SetupAction::Return(Ok(event_loop))) => event_loop,
        _ => panic!("no event loop"),
    }
}

fn events(fds: &[u64]) -> WaitReturn<&'static str> {
    let mut events = [EpollEvent { events: 0, data: 0 }; FD_COUNT];
    for (event, fd) in events.iter_mut().zip(fds) {
        *event = EpollEvent { events: 1, data: *fd };
    }
    WaitReturn { result: fds.len() as i32, events, os_error: "unused" }
}

fn failed_wait(error: &'static str) -> WaitReturn<&'static str> {
    WaitReturn { result: -1, os_error: error, ..events(&[]) }
}

/// What a run of scripts came to: the descriptors registered, in order, and the
/// result, or nothing if a wait did not come back.
fn run_script(
    event_loop: &mut EventLoop<Script>,
    mut main: Program<u32>,
    waits: Vec<WaitReturn<&'static str>>,
) -> (Vec<RawFd>, Option<Result<u32, &'static str>>) {
    let mut waits: VecDeque<_> = waits.into();
    let mut registered = vec![];
    let mut action = event_loop.run();
    loop {
        let reply = match action {
            Action::ResumeMain => match main {
                Program::Fd(fd, rest) => {
                    main = *rest;
                    Reply::MainYielded(YieldValue::Fd(fd))
                }
                Program::Task(task, rest) => {
                    main = *rest;
                    Reply::MainYielded(YieldValue::Task(task))
                }
                Program::Return(result) => {
                    main = Program::Return(result);
                    Reply::MainComplete(result)
                }
            },
            Action::Resume(Script::Fd(fd, rest)) => Reply::Yielded(*rest, YieldValue::Fd(fd)),
            Action::Resume(Script::Task(new, rest)) => {
                Reply::Yielded(*rest, YieldValue::Task(*new))
            }
            Action::Resume(Script::Complete) => Reply::TaskComplete,
            Action::Register(ctl) => {
                assert_eq!((ctl.epfd, ctl.op, ctl.event.events), (9, 1, 1));
                assert_eq!(ctl.event.data, ctl.fd as u64);
                registered.push(ctl.fd);
                Reply::Registered
            }
            Action::Wait(wait) => {
                assert_eq!(wait, EpollWait { epfd: 9, maxevents: 64, timeout: -1 });
                match waits.pop_front() {
                    Some(wait) => Reply::Waited(wait),
                    None => return (registered, None),
                }
            }
            Action::Return(result) => {
                assert_eq!(event_loop.phase(), Phase::Idle);
                return (registered, Some(result));
            }
        };
        assert!(event_loop.accepts(&reply));
        action = event_loop.step(reply);
    }
}

fn fd(fd: RawFd, rest: Script) -> Script {
    Script::Fd(fd, Box::new(rest))
}

fn task(new: Script, rest: Script) -> Script {
    Script::Task(Box::new(new), Box::new(rest))
}

fn main_fd(fd: RawFd, rest: Program<u32>) -> Program<u32> {
    Program::Fd(fd, Box::new(rest))
}

fn main_task(new: Script, rest: Program<u32>) -> Program<u32> {
    Program::Task(new, Box::new(rest))
}

#[test]
fn new_event_loop_registers_its_pipe() {
    let mut writer = PipeWriter::new();
    let (setup, action): (Setup<u8>, _) = EventLoop::new::<&str>();
    assert!(matches!(action, SetupAction::CreatePipe(PipeCall { flags: 2048 })));
    let made = PipeReturn { result: 0, fds: [3, 4], os_error: "unused" };
    let (setup, action) = setup.step(SetupReply::PipeCreated(made), &mut writer);
    assert!(matches!(action, SetupAction::CreateSet(EpollCreate { flags: 0 })));
    assert_eq!(EventLoop::<u8>::write_pipe(&writer), WritePipe::new(4));
    let (setup, action) = setup.step::<&str>(SetupReply::SetCreated(9), &mut writer);
    let event = EpollEvent { events: 1, data: 3 };
    let expected = EpollCtl { epfd: 9, op: 1, fd: 3, event };
    assert!(matches!(action, SetupAction::Register(ctl) if ctl == expected));
    let (setup, action) = setup.step::<&str>(SetupReply::Registered, &mut writer);
    assert!(matches!(setup, Setup::Complete));
    match action {
        SetupAction::Return(Ok(event_loop)) => {
            assert_eq!(event_loop.phase(), Phase::Idle);
            assert_eq!(event_loop.add_fd(3), expected);
        }
        _ => panic!("no event loop"),
    }
    assert_eq!(writer.fd(), 4);
}

#[test]
fn failed_pipe_leaves_everything_alone() {
    let mut writer = PipeWriter::new();
    assert_eq!(EventLoop::<u8>::write_pipe(&writer).as_raw_fd(), -1);
    writer.set(WritePipe::new(12));
    let (setup, _): (Setup<u8>, _) = EventLoop::new::<&str>();
    let made = PipeReturn { result: -1, fds: [0, 0], os_error: "too many files" };
    let (setup, action) = setup.step(SetupReply::PipeCreated(made), &mut writer);
    assert!(matches!(action, SetupAction::Return(Err("too many files"))));
    assert!(matches!(setup, Setup::Complete));
    assert_eq!(EventLoop::<u8>::write_pipe(&writer).as_raw_fd(), 12);
}

#[test]
fn last_pipe_is_remembered() {
    let mut writer = PipeWriter::new();
    for (result, fds) in [(0, [3, 4]), (0, [5, 6]), (-1, [0, 0])] {
        let (setup, _): (Setup<u8>, _) = EventLoop::new::<&str>();
        let made = PipeReturn { result, fds, os_error: "failed" };
        let _ = setup.step(SetupReply::PipeCreated(made), &mut writer);
    }
    assert_eq!(writer.fd(), 6);
}

#[test]
fn run_that_was_broken_off_is_given_up() {
    let mut event_loop: EventLoop<Script> = new_loop();
    let main = main_task(fd(8, fd(20, Script::Complete)), Program::Return(1));
    assert_eq!(run_script(&mut event_loop, main, vec![]), (vec![8], None));
    assert_eq!(event_loop.phase(), Phase::Waiting);
    let action: Action<Script, u32, &str> = event_loop.run();
    assert_eq!(action, Action::ResumeMain);
    let broken: Reply<Script, u32, &str> =
        Reply::MainYielded(YieldValue::Task(fd(9, Script::Complete)));
    event_loop.step(broken);
    assert_eq!(event_loop.phase(), Phase::Starting);
    assert_eq!(event_loop.wait(events(&[])), Ok(()));
    assert_eq!(event_loop.phase(), Phase::Idle);
    let main = main_fd(5, Program::Return(2));
    let ended = run_script(&mut event_loop, main, vec![events(&[8, 9])]);
    assert_eq!(ended, (vec![5, 20], Some(Ok(2))));
}

/// A task that tells when it is dropped.
struct Dropped(&'static str, Rc<RefCell<Vec<&'static str>>>);

impl Drop for Dropped {
    fn drop(&mut self) {
        self.1.borrow_mut().push(self.0);
    }
}

#[test]
fn task_is_parked_after_its_descriptor_is_registered() {
    let log = Rc::new(RefCell::new(vec![]));
    let mut event_loop: EventLoop<Dropped> = new_loop();
    for name in ["first", "second"] {
        let _: Action<Dropped, u8, &str> = event_loop.run();
        let new = Dropped(name, log.clone());
        let reply: Reply<Dropped, u8, &str> = Reply::MainYielded(YieldValue::Task(new));
        let task = match event_loop.step(reply) {
            Action::Resume(task) => task,
            _ => panic!("no task"),
        };
        let reply: Reply<Dropped, u8, &str> = Reply::Yielded(task, YieldValue::Fd(8));
        assert!(matches!(event_loop.step(reply), Action::Register(_)));
        log.borrow_mut().push("registered");
        let _: Action<Dropped, u8, &str> = event_loop.step(Reply::Registered);
    }
    assert_eq!(*log.borrow(), vec!["registered", "registered", "first"]);
}

#[test]
fn main_task_that_never_waits_returns_at_once() {
    assert_eq!(run_script(&mut new_loop(), Program::Return(7), vec![]), (vec![], Some(Ok(7))));
}

#[test]
fn main_task_waits_once_for_each_suspension() {
    let main = main_fd(5, main_fd(6, Program::Return(7)));
    let waits = vec![events(&[5]), events(&[6])];
    assert_eq!(run_script(&mut new_loop(), main, waits), (vec![5, 6], Some(Ok(7))));
    let main = main_fd(5, main_fd(6, Program::Return(7)));
    assert_eq!(run_script(&mut new_loop(), main, vec![events(&[5])]), (vec![5, 6], None));
}

#[test]
fn main_task_may_wait_for_an_invalid_descriptor() {
    let main = main_fd(-1, Program::Return(7));
    assert_eq!(run_script(&mut new_loop(), main, vec![events(&[])]), (vec![-1], Some(Ok(7))));
}

#[test]
fn failed_wait_ends_the_run() {
    let main = main_fd(5, Program::Return(7));
    assert_eq!(
        run_script(&mut new_loop(), main, vec![failed_wait("interrupted")]),
        (vec![5], Some(Err("interrupted")))
    );
}

#[test]
fn tasks_stay_parked_after_a_failed_run() {
    let mut event_loop = new_loop();
    let main = main_task(fd(8, fd(9, Script::Complete)), Program::Return(1));
    let ended = run_script(&mut event_loop, main, vec![failed_wait("interrupted")]);
    assert_eq!(ended, (vec![8], Some(Err("interrupted"))));
    let main = main_fd(5, Program::Return(2));
    let ended = run_script(&mut event_loop, main, vec![events(&[8])]);
    assert_eq!(ended, (vec![5, 9], Some(Ok(2))));
}

#[test]
fn task_is_started_depth_first() {
    let inner = task(fd(10, Script::Complete), fd(11, Script::Complete));
    let outer = task(inner, task(Script::Complete, fd(12, Script::Complete)));
    let main = main_task(outer, Program::Return(7));
    let ended = run_script(&mut new_loop(), main, vec![events(&[])]);
    assert_eq!(ended, (vec![10, 11, 12], Some(Ok(7))));
}

#[test]
fn event_wakes_parked_task() {
    let main = main_task(fd(8, fd(20, fd(21, Script::Complete))), main_fd(5, Program::Return(7)));
    let ended = run_script(&mut new_loop(), main, vec![events(&[8]), events(&[])]);
    assert_eq!(ended, (vec![8, 20, 5], Some(Ok(7))));
}

#[test]
fn woken_task_is_parked_in_the_slot_that_woke_it() {
    let script = fd(8, fd(20, fd(21, Script::Complete)));
    let main = main_task(script, main_fd(5, main_fd(6, Program::Return(7))));
    let waits = vec![events(&[8]), events(&[20]), events(&[8])];
    let ended = run_script(&mut new_loop(), main, waits);
    assert_eq!(ended, (vec![8, 20, 5, 6, 21], Some(Ok(7))));
}

#[test]
fn woken_task_may_start_another() {
    let script = fd(8, task(fd(30, Script::Complete), fd(31, Script::Complete)));
    let main = main_task(script, main_fd(5, Program::Return(7)));
    let waits = vec![events(&[8]), events(&[30, 8, 30])];
    let ended = run_script(&mut new_loop(), main, waits);
    assert_eq!(ended, (vec![8, 30, 5, 31], Some(Ok(7))));
}

#[test]
fn events_are_handled_in_order() {
    let main = main_task(
        task(fd(8, fd(18, Script::Complete)), fd(9, fd(19, Script::Complete))),
        Program::Return(7),
    );
    let ended = run_script(&mut new_loop(), main, vec![events(&[9, 40, 8])]);
    assert_eq!(ended, (vec![8, 9, 19, 18], Some(Ok(7))));
}

#[test]
fn own_event_is_registered_again() {
    let main = main_fd(5, Program::Return(7));
    let ended = run_script(&mut new_loop(), main, vec![events(&[3, 40, 3])]);
    assert_eq!(ended, (vec![5, 3, 3], Some(Ok(7))));
}

#[test]
fn idle_events_lead_to_main_task() {
    let main = main_task(fd(8, Script::Complete), main_fd(5, Program::Return(7)));
    let waits = vec![events(&[40, 41]), events(&[u64::MAX])];
    let ended = run_script(&mut new_loop(), main, waits);
    assert_eq!(ended, (vec![8, 5], Some(Ok(7))));
}

#[test]
fn later_task_takes_over_the_slot() {
    let main = main_task(
        task(fd(8, fd(50, Script::Complete)), fd(8, fd(51, Script::Complete))),
        main_fd(5, Program::Return(7)),
    );
    let ended = run_script(&mut new_loop(), main, vec![events(&[8]), events(&[])]);
    assert_eq!(ended, (vec![8, 8, 51, 5], Some(Ok(7))));
}

#[test]
fn woken_task_takes_its_slot_back_from_the_one_it_started() {
    let script = fd(8, task(fd(8, fd(60, Script::Complete)), fd(61, Script::Complete)));
    let main = main_task(script, main_fd(5, Program::Return(7)));
    let ended = run_script(&mut new_loop(), main, vec![events(&[8]), events(&[8])]);
    assert_eq!(ended, (vec![8, 8, 5, 61], Some(Ok(7))));
}

#[test]
fn full_buffer_of_events_is_handled() {
    let main = main_fd(5, Program::Return(7));
    let fds = vec![3u64; FD_COUNT];
    let (registered, result) = run_script(&mut new_loop(), main, vec![events(&fds)]);
    assert_eq!(registered.len(), 1 + FD_COUNT);
    assert_eq!(result, Some(Ok(7)));
}

#[test]
fn replies_that_do_not_fit_are_told() {
    let mut event_loop: EventLoop<u8> = new_loop();
    let registered: Reply<u8, u8, &str> = Reply::Registered;
    assert!(!event_loop.accepts(&registered));
    let _: Action<u8, u8, &str> = event_loop.run();
    assert!(!event_loop.accepts(&registered));
    let yielded: Reply<u8, u8, &str> = Reply::MainYielded(YieldValue::Task(1));
    assert!(event_loop.accepts(&yielded));
    assert_eq!(event_loop.step(yielded), Action::Resume(1));
    let negative: Reply<u8, u8, &str> = Reply::Yielded(1, YieldValue::Fd(-1));
    assert!(!event_loop.accepts(&negative));
    let parked: Reply<u8, u8, &str> = Reply::Yielded(1, YieldValue::Fd(0));
    assert!(event_loop.accepts(&parked));
    event_loop.step(parked);
    let _: Action<u8, u8, &str> = event_loop.step(registered);
    assert_eq!(event_loop.phase(), Phase::Waiting);
    let too_many: Reply<u8, u8, &str> =
        Reply::Waited(WaitReturn { result: FD_COUNT as i32 + 1, ..events(&[]) });
    assert!(!event_loop.accepts(&too_many));
    let complete: Reply<u8, u8, &str> = Reply::MainComplete(1);
    assert!(!event_loop.accepts(&complete));
    let done: Reply<u8, u8, &str> = Reply::TaskComplete;
    assert!(!event_loop.accepts(&done));
}

#[test]
fn wait_reports_its_failure() {
    let mut event_loop: EventLoop<u8> = new_loop();
    assert_eq!(event_loop.wait_call(), EpollWait { epfd: 9, maxevents: 64, timeout: -1 });
    assert_eq!(event_loop.wait(failed_wait("interrupted")), Err("interrupted"));
    assert_eq!(event_loop.wait(events(&[5, 6])), Ok(()));
    let action: Action<u8, u8, &str> = event_loop.run();
    assert_eq!(action, Action::ResumeMain);
}

/// A task made of a closure.
struct Task(Box<dyn FnMut() -> GeneratorState<YieldValue<Task>, ()>>);

#[test]
fn server_greets_each_client() {
    let sent: Rc<RefCell<Vec<(RawFd, String)>>> = Rc::new(RefCell::new(vec![]));
    let mut event_loop: EventLoop<Task> = new_loop();
    let mut clients = vec![];
    let mut incoming: VecDeque<RawFd> = VecDeque::new();
    let mut wakeups: VecDeque<WaitReturn<&str>> =
        vec![events(&[5]), events(&[21]), events(&[5]), events(&[3, 22])].into();
    let mut arrivals: VecDeque<Vec<RawFd>> = vec![vec![21], vec![], vec![22], vec![]].into();
    let mut action = event_loop.run();
    let accepted = loop {
        let reply = match action {
            Action::ResumeMain if clients.len() == 2 => Reply::MainComplete(clients.clone()),
            Action::ResumeMain => match incoming.pop_front() {
                None => Reply::MainYielded(YieldValue::Fd(5)),
                Some(client) => {
                    let i = clients.len();
                    clients.push(client);
                    let sent = sent.clone();
                    let mut blocked = true;
                    let greet = move || {
                        if blocked {
                            blocked = false;
                            GeneratorState::Yielded(YieldValue::Fd(client))
                        } else {
                            sent.borrow_mut().push((client, format!("hello {}", i)));
                            GeneratorState::Complete(())
                        }
                    };
                    Reply::MainYielded(YieldValue::Task(Task(Box::new(greet))))
                }
            },
            Action::Resume(mut task) => match (task.0)() {
                GeneratorState::Yielded(value) => Reply::Yielded(task, value),
                GeneratorState::Complete(()) => Reply::TaskComplete,
            },
            Action::Register(_) => Reply::Registered,
            Action::Wait(_) => {
                incoming.extend(arrivals.pop_front().unwrap());
                Reply::Waited(wakeups.pop_front().unwrap())
            }
            Action::Return(result) => break result,
        };
        assert!(event_loop.accepts(&reply));
        action = event_loop.step(reply);
    };
    assert_eq!(accepted, Ok(vec![21, 22]));
    assert_eq!(*sent.borrow(), vec![(21, "hello 0".to_string()), (22, "hello 1".to_string())]);
}
