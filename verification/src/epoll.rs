//! The requests that the event loop makes of `epoll`, as plain records.
use vstd::prelude::*;

verus! {

/// A file descriptor number.
pub type RawFd = i32;

/// How many events one wait can report.
pub const FD_COUNT: usize = 64;

/// The `epoll_ctl` operation that adds a descriptor.
pub const EPOLL_CTL_ADD: i32 = 1;

/// The event mask of a descriptor that has become readable.
pub const EPOLLIN: u32 = 0x1;

/// The flag of a pipe whose ends do not block.
pub const O_NONBLOCK: i32 = 2048;

/// The timeout of a wait that lasts until an event comes.
pub const NO_TIMEOUT: i32 = -1;

/// An event mask, with the data word that `epoll` hands back with each event.
#[derive(Clone, Copy, Debug, PartialEq, Eq, Structural)]
pub struct EpollEvent {
    pub events: u32,
    pub data: u64,
}

/// A call of `epoll_create1`.
#[derive(Clone, Copy, Debug, PartialEq, Eq, Structural)]
pub struct EpollCreate {
    pub flags: i32,
}

/// A call of `epoll_ctl`.
#[derive(Clone, Copy, Debug, PartialEq, Eq, Structural)]
pub struct EpollCtl {
    pub epfd: i32,
    pub op: i32,
    pub fd: RawFd,
    pub event: EpollEvent,
}

/// A call of `epoll_wait`.
#[derive(Clone, Copy, Debug, PartialEq, Eq, Structural)]
pub struct EpollWait {
    pub epfd: i32,
    pub maxevents: i32,
    pub timeout: i32,
}

/// The data word under which `fd` is registered: its value, taken modulo 2^64.
pub open spec fn token(fd: RawFd) -> u64 {
    if fd >= 0 {
        fd as u64
    } else {
        (fd + 0x1_0000_0000_0000_0000) as u64
    }
}

/// The slot that a data word stands for: as many of its low bits as a `usize` has.
pub open spec fn slot_of(data: u64) -> usize {
    data as usize
}

/// The descriptor that a slot stands for: its low 32 bits, read as a signed number.
pub open spec fn fd_of(slot: usize) -> RawFd {
    slot as RawFd
}

/// The call that adds `fd` to the set `epfd`, to be told when it is readable.
pub open spec fn registration(epfd: i32, fd: RawFd) -> EpollCtl {
    EpollCtl {
        epfd,
        op: EPOLL_CTL_ADD,
        fd,
        event: EpollEvent { events: EPOLLIN, data: token(fd) },
    }
}

/// The call that waits for events of the set `epfd`, for as long as it takes.
pub open spec fn wait_for(epfd: i32) -> EpollWait {
    EpollWait { epfd, maxevents: FD_COUNT as i32, timeout: NO_TIMEOUT }
}

/// A data word is its descriptor, widened with its sign.
pub proof fn token_is_widened_descriptor(fd: RawFd)
    ensures
        token(fd) == fd as u64,
{
    let data = fd as u64;
    assert(fd < 0 ==> data == fd + 0x1_0000_0000_0000_0000) by (bit_vector)
        requires
            data == fd as u64,
    ;
}

/// Every registration adds the descriptor itself to the set itself, to be told when it
/// is readable, under a data word that is the descriptor's number unless that is
/// negative.
pub proof fn registration_asks_for_readability(epfd: i32, fd: RawFd)
    ensures
        registration(epfd, fd).epfd == epfd,
        registration(epfd, fd).op == 1,
        registration(epfd, fd).fd == fd,
        registration(epfd, fd).event.events == 1,
        registration(epfd, fd).event.data == fd as u64,
        fd >= 0 ==> registration(epfd, fd).event.data == fd,
{
    token_is_widened_descriptor(fd);
}

/// Every wait is on the set itself, with room for 64 events, without a limit of time.
pub proof fn wait_has_room_and_no_limit(epfd: i32)
    ensures
        wait_for(epfd).epfd == epfd,
        wait_for(epfd).maxevents == 64,
        wait_for(epfd).timeout == -1,
{
}

/// A data word leads to the slot with its number, as far as slots are numbered, and a
/// slot stands for the descriptor with its number, as far as there are descriptors.
pub proof fn words_and_slots_keep_their_numbers(data: u64, slot: usize)
    ensures
        data <= usize::MAX ==> slot_of(data) == data,
        slot <= i32::MAX ==> fd_of(slot) == slot,
        slot_of(data) == data as usize,
        fd_of(slot) == slot as i32,
{
}

/// Makes the call that adds `fd` to the set `epfd`.
pub fn register(epfd: i32, fd: RawFd) -> (ctl: EpollCtl)
    ensures
        ctl == registration(epfd, fd),
        ctl.epfd == epfd,
        ctl.op == 1,
        ctl.fd == fd,
        ctl.event.events == 1,
        ctl.event.data == fd as u64,
{
    proof {
        token_is_widened_descriptor(fd);
    }
    let event = EpollEvent { events: EPOLLIN, data: fd as u64 };
    EpollCtl { epfd, op: EPOLL_CTL_ADD, fd, event }
}

/// Every descriptor can be told from the data word of its events.
pub proof fn token_identifies_descriptor(fd: RawFd)
    ensures
        fd_of(slot_of(token(fd))) == fd,
{
    token_is_widened_descriptor(fd);
    assert(((fd as u64) as usize) as i32 == fd) by (bit_vector);
}

/// The events of a descriptor lead to the slot with the descriptor's number.
pub proof fn token_leads_to_slot(fd: RawFd)
    requires
        fd >= 0,
    ensures
        slot_of(token(fd)) == fd as usize,
        slot_of(token(fd)) == fd,
{
}

/// Different descriptors are registered under different data words.
pub proof fn tokens_are_distinct(first: RawFd, second: RawFd)
    requires
        first != second,
    ensures
        token(first) != token(second),
        slot_of(token(first)) != slot_of(token(second)),
{
    token_identifies_descriptor(first);
    token_identifies_descriptor(second);
}

} // verus!
