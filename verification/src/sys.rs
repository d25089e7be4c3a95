//! What the library takes from outside crates and from the standard library
//! beyond what the verifier knows of them.
//!
//! Everything in this file is believed, not proved.

use std::sync::atomic::AtomicBool;
use std::sync::atomic::AtomicU64;
use vstd::prelude::*;

use nix::errno::Errno;
use nix::sched::CpuSet;

verus! {

/// `nix::errno::Errno`: the error numbers of Linux, one variant each.
#[verifier::external_type_specification]
pub struct ExErrno(nix::errno::Errno);

/// `nix::sched::CpuSet`: a set of CPU numbers, wrapped around `cpu_set_t`.
#[verifier::external_type_specification]
#[verifier::external_body]
pub struct ExCpuSet(nix::sched::CpuSet);

/// `tracing::Level`: how severe a log record is.
#[verifier::external_type_specification]
#[verifier::external_body]
pub struct ExLevel(tracing::Level);

/// `std::time::Instant`: an opaque point in time.
#[verifier::external_type_specification]
#[verifier::external_body]
pub struct ExInstant(std::time::Instant);

/// How many CPU numbers a `CpuSet` has room for: the bits of Linux's `cpu_set_t`.
pub const CPU_SET_CAPACITY: usize = 1024;

/// The CPU numbers that a `CpuSet` holds.
pub uninterp spec fn cpu_numbers(set: CpuSet) -> Set<usize>;

/// `nix::sched::CpuSet::new` makes the empty set.
pub assume_specification[ nix::sched::CpuSet::new ]() -> (set: CpuSet)
    ensures
        cpu_numbers(set) == Set::<usize>::empty(),
;

/// `nix::sched::CpuSet::set` adds `field` where it is below the capacity, and
/// otherwise fails with `EINVAL` and leaves the set as it was.
pub assume_specification[ nix::sched::CpuSet::set ](
    set: &mut CpuSet,
    field: usize,
) -> (result: nix::Result<()>)
    ensures
        result is Ok <==> field < CPU_SET_CAPACITY,
        result is Ok ==> cpu_numbers(*final(set)) == cpu_numbers(*old(set)).insert(field),
        result matches Err(errno) ==> errno == Errno::EINVAL && *final(set) == *old(set),
;

/// `reply` is one that the kernel gives to a request to run the thread `pid` on `cpus`
/// alone. There can be several, since the reply depends on the machine, on its threads and
/// on the caller's privileges: it is not said which one is given when.
pub uninterp spec fn affinity_answer(pid: i32, cpus: Set<usize>, reply: Result<(), Errno>) -> bool;

/// `nix::sched::sched_setaffinity` asks the kernel to run the thread `pid` on the CPUs of
/// `cpus` alone, and returns what it replied to this request. Nothing is claimed of the
/// reply itself.
#[verifier::external_body]
pub(crate) fn sched_setaffinity(pid: i32, cpus: &CpuSet) -> (reply: Result<(), Errno>)
    ensures
        affinity_answer(pid, cpu_numbers(*cpus), reply),
{
    nix::sched::sched_setaffinity(nix::unistd::Pid::from_raw(pid), cpus)
}

/// `count` is what the system says when it is asked how many CPUs are online. There can be
/// several, since it depends on the machine and on the time.
pub uninterp spec fn online_answer(count: Result<Option<i64>, Errno>) -> bool;

/// `nix::unistd::sysconf` asked for the number of CPUs that are online. Nothing is claimed
/// of the number itself.
#[verifier::external_body]
pub(crate) fn online_cpus() -> (count: Result<Option<i64>, Errno>)
    ensures
        online_answer(count),
{
    nix::unistd::sysconf(nix::unistd::SysconfVar::_NPROCESSORS_ONLN).map(|n| n.map(|n| n as i64))
}

/// The two clocks that a calibration reads.
#[derive(Debug, Clone, Copy, PartialEq, Eq, Structural)]
pub enum Clock {
    /// `CLOCK_REALTIME`.
    Realtime,
    /// `CLOCK_MONOTONIC`.
    Monotonic,
}

/// `readings` are the first that some reader made: one call each, in this order, with none
/// between them. Each is the clock that was read and what it showed: seconds and
/// nanoseconds, or an error. What a clock shows depends on the time, so there are many.
pub uninterp spec fn read_in_turn(readings: Seq<(Clock, Result<(i64, i64), Errno>)>) -> bool;

/// Reads clocks, and keeps a record for proofs of what they showed.
pub struct ClockReader {
    log: Ghost<Seq<(Clock, Result<(i64, i64), Errno>)>>,
}

impl View for ClockReader {
    type V = Seq<(Clock, Result<(i64, i64), Errno>)>;

    /// The readings that the reader made, in order.
    closed spec fn view(&self) -> Seq<(Clock, Result<(i64, i64), Errno>)> {
        self.log@
    }
}

impl ClockReader {
    /// A reader that has not read a clock yet.
    pub fn new() -> (reader: ClockReader)
        ensures
            reader@ == Seq::<(Clock, Result<(i64, i64), Errno>)>::empty(),
    {
        ClockReader { log: Ghost(Seq::empty()) }
    }

    /// `nix::time::clock_gettime`: the seconds and nanoseconds that `clock` shows. The call
    /// is one more reading of this reader. Nothing is claimed of the numbers themselves.
    #[verifier::external_body]
    pub(crate) fn read(&mut self, clock: Clock) -> (reading: Result<(i64, i64), Errno>)
        ensures
            final(self)@ == old(self)@.push((clock, reading)),
            read_in_turn(final(self)@),
    {
        nix::time::clock_gettime(match clock {
            Clock::Realtime => nix::time::ClockId::CLOCK_REALTIME,
            Clock::Monotonic => nix::time::ClockId::CLOCK_MONOTONIC,
        }).map(|t| (t.tv_sec() as i64, t.tv_nsec() as i64))
    }
}

/// `libc::SCHED_OTHER`, which is 0 on Linux.
#[verifier::external_body]
pub(crate) fn sched_other() -> (policy: i32)
    ensures
        policy == 0,
{
    libc::SCHED_OTHER
}

/// `libc::SCHED_FIFO`, which is 1 on Linux.
#[verifier::external_body]
pub(crate) fn sched_fifo() -> (policy: i32)
    ensures
        policy == 1,
{
    libc::SCHED_FIFO
}

/// `libc::SCHED_RR`, which is 2 on Linux.
#[verifier::external_body]
pub(crate) fn sched_rr() -> (policy: i32)
    ensures
        policy == 2,
{
    libc::SCHED_RR
}

/// What `tracing::Level::as_str` returns of a level.
pub uninterp spec fn level_text(level: tracing::Level) -> Seq<char>;

/// `tracing::Level::as_str`: the name of the level, in capitals.
#[verifier::external_body]
pub(crate) fn level_as_str(level: &tracing::Level) -> (text: &'static str)
    ensures
        text@ == level_text(*level),
{
    level.as_str()
}

/// `tracing::Level::ERROR`, whose name is `ERROR`.
#[verifier::external_body]
pub(crate) fn level_error() -> (level: tracing::Level)
    ensures
        level_text(level) == "ERROR"@,
{
    tracing::Level::ERROR
}

/// `tracing::Level::WARN`, whose name is `WARN`.
#[verifier::external_body]
pub(crate) fn level_warn() -> (level: tracing::Level)
    ensures
        level_text(level) == "WARN"@,
{
    tracing::Level::WARN
}

/// `tracing::Level::INFO`, whose name is `INFO`.
#[verifier::external_body]
pub(crate) fn level_info() -> (level: tracing::Level)
    ensures
        level_text(level) == "INFO"@,
{
    tracing::Level::INFO
}

/// `tracing::Level::DEBUG`, whose name is `DEBUG`.
#[verifier::external_body]
pub(crate) fn level_debug() -> (level: tracing::Level)
    ensures
        level_text(level) == "DEBUG"@,
{
    tracing::Level::DEBUG
}

/// `tracing::Level::TRACE`, whose name is `TRACE`.
#[verifier::external_body]
pub(crate) fn level_trace() -> (level: tracing::Level)
    ensures
        level_text(level) == "TRACE"@,
{
    tracing::Level::TRACE
}

/// The number that an `AtomicU64` was made with, whatever is stored in it later.
pub uninterp spec fn first_u64(cell: AtomicU64) -> u64;

/// `AtomicU64::new` makes a cell that starts with `value`.
#[verifier::external_body]
pub(crate) fn new_atomic_u64(value: u64) -> (cell: AtomicU64)
    ensures
        first_u64(cell) == value,
{
    AtomicU64::new(value)
}

/// The flag that an `AtomicBool` was made with, whatever is stored in it later.
pub uninterp spec fn first_bool(cell: AtomicBool) -> bool;

/// `AtomicBool::new` makes a cell that starts with `value`.
#[verifier::external_body]
pub(crate) fn new_atomic_bool(value: bool) -> (cell: AtomicBool)
    ensures
        first_bool(cell) == value,
{
    AtomicBool::new(value)
}

} // verus!
