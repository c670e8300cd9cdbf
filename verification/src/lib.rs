//! An event loop for tasks that suspend themselves on file descriptors.
//!
//! Every decision of the event loop is taken here; the calls of the operating
//! system are left to the caller. [`EventLoop::step`] is told what came of one
//! action and names the next, [`NonBlockingCall::resume`] decides whether an
//! operation is tried again, and [`Setup::step`] and [`Spawn::step`] lead through
//! the making of an event loop and the start of a task from within another.
pub mod custody;
pub mod epoll;
pub mod event_loop;
pub mod generator;
pub mod int_map;
pub mod laws;
pub mod model;
pub mod pipe;
pub mod rounds;
pub mod script;
pub mod setup;
pub mod spawn;
pub mod steps;
pub mod tcp;

pub use crate::epoll::RawFd;
pub use crate::event_loop::EventLoop;
pub use crate::generator::{GeneratorState, NonBlockingCall, YieldValue};
pub use crate::int_map::IntMap;
pub use crate::model::{Action, Reply, WaitReturn};
pub use crate::pipe::{Pipe, PipeWriter, ReadPipe, WritePipe};
pub use crate::setup::{Setup, SetupAction, SetupReply};
pub use crate::spawn::Spawn;
pub use crate::tcp::{TcpListener, TcpStream};
