use evloop::generator::{ErrorKind, IoError};
use evloop::spawn::{SpawnAction, SpawnReply, WAKE_BYTE};
use evloop::{Spawn, YieldValue};

type Action = SpawnAction<&'static str, &'static str>;

#[test]
fn spawn_yields_task_then_writes() {
    assert_eq!(WAKE_BYTE, b'0');
    let spawn = Spawn::new("task");
    let (spawn, action): (_, Action) = spawn.step(SpawnReply::Resumed(-1));
    assert_eq!(action, SpawnAction::Yield(YieldValue::Task("task")));
    let (spawn, action): (_, Action) = spawn.step(SpawnReply::Resumed(4));
    assert_eq!(action, SpawnAction::Write(4, b'0'));
    let (spawn, action): (_, Action) = spawn.step(SpawnReply::Written(Ok(1)));
    assert_eq!(action, SpawnAction::Return(Ok(1)));
    assert_eq!(spawn, Spawn::Complete);
}

#[test]
fn spawn_waits_while_the_pipe_is_full() {
    let (spawn, _): (_, Action) = Spawn::new("task").step(SpawnReply::Resumed(4));
    let (spawn, _): (_, Action) = spawn.step(SpawnReply::Resumed(4));
    let full = Err(IoError { kind: ErrorKind::WouldBlock, error: "full" });
    let (spawn, action): (_, Action) = spawn.step(SpawnReply::Written(full));
    assert_eq!(action, SpawnAction::Yield(YieldValue::Fd(4)));
    let (spawn, action): (_, Action) = spawn.step(SpawnReply::Resumed(12));
    assert_eq!(action, SpawnAction::Write(4, b'0'));
    let (_, action): (_, Action) = spawn.step(SpawnReply::Written(Ok(1)));
    assert_eq!(action, SpawnAction::Return(Ok(1)));
}

#[test]
fn spawn_reports_a_failed_write() {
    let (spawn, _): (_, Action) = Spawn::new("task").step(SpawnReply::Resumed(-1));
    let (spawn, action): (_, Action) = spawn.step(SpawnReply::Resumed(-1));
    assert_eq!(action, SpawnAction::Write(-1, b'0'));
    let bad = Err(IoError { kind: ErrorKind::Other, error: "bad descriptor" });
    let (_, action): (_, Action) = spawn.step(SpawnReply::Written(bad));
    assert_eq!(action, SpawnAction::Return(Err("bad descriptor")));
}
