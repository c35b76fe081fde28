//! Decisions of the syscall tracer: which traced calls become events.
use vstd::prelude::*;
use crate::events::{Event, EventKind};

verus! {

/// Whether `nr` is the number of `write` in the host's syscall table.
pub uninterp spec fn names_write(nr: int) -> bool;

/// Relies on `syscalls::Sysno::new`: looks `nr` up in the host's syscall
/// table, `None` where no call has that number; the entry found depends on
/// the number alone.
#[verifier::external_body]
fn is_write_syscall(nr: usize) -> (r: bool)
    ensures
        r == names_write(nr as int),
{
    matches!(syscalls::Sysno::new(nr), Some(syscalls::Sysno::write))
}

/// The event for a finished call with syscall number `nr` on first argument
/// `fd` that returned `length`: write() calls to stdout (1) and stderr (2)
/// are reported, every other call is not.
pub fn syscall_event(nr: usize, fd: u64, length: usize) -> (r: Option<Event>)
    ensures
        names_write(nr as int) && fd == 1 ==> r == Some(Event { kind: EventKind::StdoutWrite { length }, timestamp: None }),
        names_write(nr as int) && fd == 2 ==> r == Some(Event { kind: EventKind::StderrWrite { length }, timestamp: None }),
        !names_write(nr as int) || (fd != 1 && fd != 2) ==> r is None,
{
    write_event(is_write_syscall(nr), fd, length)
}

/// The event for a finished call that returned `length` on first argument
/// `fd`, where `is_write` tells whether the call was write(): reported for
/// stdout (1) and stderr (2) only.
pub fn write_event(is_write: bool, fd: u64, length: usize) -> (r: Option<Event>)
    ensures
        is_write && fd == 1 ==> r == Some(Event { kind: EventKind::StdoutWrite { length }, timestamp: None }),
        is_write && fd == 2 ==> r == Some(Event { kind: EventKind::StderrWrite { length }, timestamp: None }),
        !is_write || (fd != 1 && fd != 2) ==> r is None,
{
    if !is_write {
        None
    } else if fd == 1 {
        Some(Event::new(EventKind::StdoutWrite { length }))
    } else if fd == 2 {
        Some(Event::new(EventKind::StderrWrite { length }))
    } else {
        None
    }
}

} // verus!
