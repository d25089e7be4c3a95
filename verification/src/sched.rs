//! Linux scheduling parameters, process discovery and pidfds.
//!
//! What a system call is asked and what its reply means is decided here. The calls
//! that only `unsafe` code can make, and the reads of `/proc`, are made by the caller,
//! who hands over what came back.

use vstd::prelude::*;
use vstd::std_specs::convert::TryFromSpec;

use nix::errno::Errno;
use nix::sched::CpuSet;

use crate::error::TimpaniError;
use crate::error::TimpaniResult;
use crate::sys::affinity_answer;
use crate::sys::cpu_numbers;
use crate::sys::online_answer;
use crate::sys::online_cpus;
use crate::sys::sched_fifo;
use crate::sys::sched_other;
use crate::sys::sched_rr;
use crate::sys::sched_setaffinity;
use crate::sys::CPU_SET_CAPACITY;

verus! {

/// A Linux scheduling policy.
#[derive(Debug, Clone, Copy, PartialEq, Eq, Structural)]
pub enum SchedPolicy {
    /// `SCHED_OTHER`.
    Normal,
    /// `SCHED_FIFO`.
    Fifo,
    /// `SCHED_RR`.
    Rr,
}

/// The policy that Linux gives the number `v`, or `InvalidArgs` where it is none of
/// the three.
pub open spec fn policy_of(v: int) -> TimpaniResult<SchedPolicy> {
    if v == 0 {
        Ok(SchedPolicy::Normal)
    } else if v == 1 {
        Ok(SchedPolicy::Fifo)
    } else if v == 2 {
        Ok(SchedPolicy::Rr)
    } else {
        Err(TimpaniError::InvalidArgs)
    }
}

impl vstd::std_specs::convert::TryFromSpecImpl<i32> for SchedPolicy {
    open spec fn obeys_try_from_spec() -> bool {
        true
    }

    open spec fn try_from_spec(v: i32) -> TimpaniResult<SchedPolicy> {
        policy_of(v as int)
    }
}

impl TryFrom<i32> for SchedPolicy {
    type Error = TimpaniError;

    fn try_from(v: i32) -> (result: TimpaniResult<SchedPolicy>) {
        match v {
            0 => Ok(SchedPolicy::Normal),
            1 => Ok(SchedPolicy::Fifo),
            2 => Ok(SchedPolicy::Rr),
            _ => Err(TimpaniError::InvalidArgs),
        }
    }
}

impl SchedPolicy {
    /// The number that Linux gives the policy.
    pub open spec fn number(self) -> int {
        match self {
            SchedPolicy::Normal => 0,
            SchedPolicy::Fifo => 1,
            SchedPolicy::Rr => 2,
        }
    }

    /// The number that Linux gives the policy.
    pub fn to_libc(self) -> (number: i32)
        ensures
            number == self.number(),
    {
        match self {
            SchedPolicy::Normal => sched_other(),
            SchedPolicy::Fifo => sched_fifo(),
            SchedPolicy::Rr => sched_rr(),
        }
    }
}

/// What an error number of a scheduling call means: a lack of privilege, or `Io`.
pub open spec fn nix_error(e: Errno) -> TimpaniError {
    if e == Errno::EPERM || e == Errno::EACCES {
        TimpaniError::Permission
    } else {
        TimpaniError::Io
    }
}

/// What an error number of a scheduling call means.
pub fn map_nix_err(e: Errno) -> (error: TimpaniError)
    ensures
        error == nix_error(e),
{
    match e {
        Errno::EPERM | Errno::EACCES => TimpaniError::Permission,
        _ => TimpaniError::Io,
    }
}

// CPU affinity

/// The CPU that a request for `cpu` comes to on a machine with `online` CPUs: CPU 0
/// where there is no such CPU.
pub open spec fn effective_cpu(cpu: u32, online: int) -> u32 {
    if cpu >= online {
        0
    } else {
        cpu
    }
}

/// The CPUs that the bits of `cpumask` stand for.
pub open spec fn mask_cpus(cpumask: u64) -> Set<usize> {
    Set::new(|i: usize| i < 64 && cpumask & (1u64 << i) != 0)
}

/// What a reply of the kernel to a request for an affinity comes to.
pub open spec fn affinity_reply(reply: Result<(), Errno>) -> TimpaniResult<()> {
    match reply {
        Ok(()) => Ok(()),
        Err(errno) => Err(nix_error(errno)),
    }
}

/// The CPUs to ask for to pin a thread to `cpu`, on a machine that counts `online`
/// CPUs: `cpu` alone, or CPU 0 where there is no such CPU. `Io` is returned where the
/// count is not known, and `InvalidArgs` where the CPU does not fit a `CpuSet`.
pub fn cpus_for_cpu(cpu: u32, online: Result<Option<i64>, Errno>) -> (result: TimpaniResult<CpuSet>)
    ensures
        match online {
            Ok(Some(count)) if count >= 0 => {
                if effective_cpu(cpu, count as int) < CPU_SET_CAPACITY {
                    result is Ok && cpu_numbers(result->Ok_0) == set![
                        effective_cpu(cpu, count as int) as usize,
                    ]
                } else {
                    result == Err::<CpuSet, TimpaniError>(TimpaniError::InvalidArgs)
                }
            },
            _ => result == Err::<CpuSet, TimpaniError>(TimpaniError::Io),
        },
{
    let count: i64 = match online {
        Ok(Some(count)) => count,
        _ => {
            return Err(TimpaniError::Io);
        },
    };
    if count < 0 {
        return Err(TimpaniError::Io);
    }
    let effective: u32 = if cpu as i64 >= count {
        0
    } else {
        cpu
    };
    let mut cpus = CpuSet::new();
    match cpus.set(effective as usize) {
        Ok(()) => Ok(cpus),
        Err(_) => Err(TimpaniError::InvalidArgs),
    }
}

/// The set of the CPUs that the bits of `cpumask` stand for.
pub fn cpus_for_mask(cpumask: u64) -> (cpus: CpuSet)
    ensures
        cpu_numbers(cpus) == mask_cpus(cpumask),
{
    let mut cpus = CpuSet::new();
    let mut i: usize = 0;
    while i < 64
        invariant
            i <= 64,
            cpu_numbers(cpus) == mask_cpus(cpumask).intersect(Set::new(|k: usize| k < i)),
        decreases 64 - i,
    {
        let ghost below = cpu_numbers(cpus);
        if cpumask & (1u64 << i) != 0 {
            let _ = cpus.set(i);
            assert(cpu_numbers(cpus) =~= mask_cpus(cpumask).intersect(
                Set::new(|k: usize| k < i + 1),
            ));
        } else {
            assert(below =~= mask_cpus(cpumask).intersect(Set::new(|k: usize| k < i + 1)));
        }
        i = i + 1;
    }
    assert(cpu_numbers(cpus) =~= mask_cpus(cpumask));
    cpus
}

/// What the kernel's reply to a request for an affinity means.
pub fn affinity_outcome(reply: Result<(), Errno>) -> (result: TimpaniResult<()>)
    ensures
        result == affinity_reply(reply),
{
    match reply {
        Ok(()) => Ok(()),
        Err(errno) => Err(map_nix_err(errno)),
    }
}

/// `result` is what pinning the thread `pid` to `cpu` comes to where `online` CPUs were
/// counted: the kernel is asked to run the thread on the one CPU that the request comes to,
/// and its reply decides. Where the CPUs could not be counted the result is `Io`, and where
/// the CPU does not fit a `CpuSet` it is `InvalidArgs`.
pub open spec fn pinned_with(
    pid: i32,
    cpu: u32,
    online: Result<Option<i64>, Errno>,
    result: TimpaniResult<()>,
) -> bool {
    match online {
        Ok(Some(count)) if count >= 0 => {
            if effective_cpu(cpu, count as int) < CPU_SET_CAPACITY {
                confined_to(pid, set![effective_cpu(cpu, count as int) as usize], result)
            } else {
                result == Err::<(), TimpaniError>(TimpaniError::InvalidArgs)
            }
        },
        _ => result == Err::<(), TimpaniError>(TimpaniError::Io),
    }
}

/// `result` is what a reply of the kernel to a request to run the thread `pid` on `cpus`
/// alone comes to.
pub open spec fn confined_to(pid: i32, cpus: Set<usize>, result: TimpaniResult<()>) -> bool {
    exists|reply: Result<(), Errno>| #[trigger]
        affinity_answer(pid, cpus, reply) && result == affinity_reply(reply)
}

/// Pins the thread `pid` to one CPU, or to CPU 0 where there is no CPU `cpu`.
///
/// The count of CPUs and the kernel's reply are the machine's: [`cpus_for_cpu`] says for
/// each count what is asked of the kernel, and [`affinity_outcome`] what each reply means.
/// The contract says that the kernel is asked this and that its reply decides. It does not
/// say that the kernel is asked nothing else, nor what the affinity is in the end.
pub fn set_affinity(pid: i32, cpu: u32) -> (result: TimpaniResult<()>)
    ensures
        exists|online: Result<Option<i64>, Errno>| #[trigger]
            online_answer(online) && pinned_with(pid, cpu, online, result),
{
    let online = online_cpus();
    let result = match cpus_for_cpu(cpu, online) {
        Ok(cpus) => affinity_outcome(sched_setaffinity(pid, &cpus)),
        Err(error) => Err(error),
    };
    assert(pinned_with(pid, cpu, online, result));
    result
}

/// Lets the thread `pid` run on the CPUs of a bitmask alone: bit N stands for CPU N.
/// The mask 0 is rejected with `InvalidArgs`, and no other mask is.
///
/// The kernel's reply is the machine's: [`cpus_for_mask`] says what is asked of the
/// kernel, and [`affinity_outcome`] what each reply means. The contract says that the kernel
/// is asked this and that its reply decides. It does not say that the kernel is asked nothing
/// else, nor what the affinity is in the end.
pub fn set_affinity_cpumask(pid: i32, cpumask: u64) -> (result: TimpaniResult<()>)
    ensures
        cpumask == 0 <==> result == Err::<(), TimpaniError>(TimpaniError::InvalidArgs),
        cpumask != 0 ==> confined_to(pid, mask_cpus(cpumask), result),
{
    if cpumask == 0 {
        return Err(TimpaniError::InvalidArgs);
    }
    let cpus = cpus_for_mask(cpumask);
    affinity_outcome(sched_setaffinity(pid, &cpus))
}

/// What setting the affinity of several threads comes to, where `updated` says of each
/// whether it was updated: a failure where there are threads and none was.
pub open spec fn all_threads_result(updated: Seq<bool>) -> TimpaniResult<()> {
    if updated.len() > 0 && !updated.contains(true) {
        Err(TimpaniError::Permission)
    } else {
        Ok(())
    }
}

/// What setting the affinity of several threads comes to, where `success` of them were
/// updated and `failed` were not.
pub fn all_threads_outcome(success: usize, failed: usize) -> (result: TimpaniResult<()>)
    ensures
        success == 0 && failed > 0 ==> result == Err::<(), TimpaniError>(TimpaniError::Permission),
        success > 0 || failed == 0 ==> result == Ok::<(), TimpaniError>(()),
{
    if success == 0 && failed > 0 {
        Err(TimpaniError::Permission)
    } else {
        Ok(())
    }
}

/// `updated` says whether the kernel let a thread run on `cpus` alone when it was asked. A
/// thread that could not be read is not updated.
pub open spec fn thread_came_to(thread: Option<i32>, cpus: Set<usize>, updated: bool) -> bool {
    match thread {
        Some(tid) => exists|result: TimpaniResult<()>| #[trigger]
            confined_to(tid, cpus, result) && updated == (result is Ok),
        None => !updated,
    }
}

/// `updated` says of each of `threads` whether it was updated.
pub open spec fn can_come_of(
    threads: Seq<Option<i32>>,
    cpus: Set<usize>,
    updated: Seq<bool>,
) -> bool {
    &&& updated.len() == threads.len()
    &&& forall|i: int|
        0 <= i < threads.len() ==> thread_came_to(threads[i], cpus, #[trigger] updated[i])
}

/// Sets the affinity of all threads of a process, as [`set_affinity_cpumask`] does of
/// one, and succeeds if at least one was updated or there are none.
///
/// `threads` are the thread ids that were found, with `None` for one that could not be
/// read, or `None` where they could not be listed at all. Of each thread the contract says
/// what that of [`set_affinity_cpumask`] says of one, and leaves unsaid what that does.
pub fn set_affinity_cpumask_all_threads(
    threads: Option<&Vec<Option<i32>>>,
    cpumask: u64,
) -> (result: TimpaniResult<()>)
    ensures
        cpumask == 0 <==> result == Err::<(), TimpaniError>(TimpaniError::InvalidArgs),
        cpumask != 0 && threads is None ==> result == Err::<(), TimpaniError>(TimpaniError::Io),
        cpumask != 0 && threads is Some ==> exists|updated: Seq<bool>| #[trigger]
            can_come_of(threads->Some_0@, mask_cpus(cpumask), updated) && result
                == all_threads_result(updated),
{
    if cpumask == 0 {
        return Err(TimpaniError::InvalidArgs);
    }
    let tids = match threads {
        Some(tids) => tids,
        None => {
            return Err(TimpaniError::Io);
        },
    };
    let mut success: usize = 0;
    let mut failed: usize = 0;
    let ghost mut updated: Seq<bool> = Seq::empty();
    for i in 0..tids.len()
        invariant
            updated.len() == i,
            success + failed == i,
            success > 0 <==> updated.contains(true),
            cpumask != 0,
            forall|j: int|
                0 <= j < i ==> thread_came_to(
                    tids@[j],
                    mask_cpus(cpumask),
                    #[trigger] updated[j],
                ),
    {
        let ghost before = updated;
        let moved: bool = match tids[i] {
            Some(tid) => {
                let result = set_affinity_cpumask(tid, cpumask);
                assert(confined_to(tid, mask_cpus(cpumask), result));
                result.is_ok()
            },
            None => false,
        };
        if moved {
            success = success + 1;
        } else {
            failed = failed + 1;
        }
        assert(thread_came_to(tids@[i as int], mask_cpus(cpumask), moved));
        proof {
            updated = before.push(moved);
            if moved {
                assert(updated[i as int] == true);
            }
            if before.contains(true) {
                let k = choose|k: int| 0 <= k < before.len() && before[k] == true;
                assert(updated[k] == true);
            }
            if updated.contains(true) && !moved {
                let k = choose|k: int| 0 <= k < updated.len() && updated[k] == true;
                assert(before[k] == true);
            }
        }
    }
    assert(can_come_of(tids@, mask_cpus(cpumask), updated));
    all_threads_outcome(success, failed)
}

// Scheduling attributes

/// The highest real-time priority.
pub const MAX_PRIORITY: u32 = 99;

/// The arguments of a `sched_setscheduler` call.
#[derive(Debug, Clone, Copy, PartialEq, Eq, Structural)]
pub struct SchedRequest {
    pub pid: i32,
    /// The number that Linux gives the policy.
    pub policy: i32,
    pub priority: i32,
}

/// What setting a policy and a priority asks of the kernel: `InvalidArgs` where the
/// priority is above 99.
pub open spec fn sched_request(pid: i32, priority: u32, policy: SchedPolicy) -> TimpaniResult<
    SchedRequest,
> {
    if priority > MAX_PRIORITY {
        Err(TimpaniError::InvalidArgs)
    } else {
        Ok(
            SchedRequest { pid, policy: policy.number() as i32, priority: priority as i32 },
        )
    }
}

/// What to ask of the kernel to set the policy and the priority of the thread `pid`.
/// A priority above 99 is rejected with `InvalidArgs`.
pub fn set_schedattr(pid: i32, priority: u32, policy: SchedPolicy) -> (result: TimpaniResult<
    SchedRequest,
>)
    ensures
        result == sched_request(pid, priority, policy),
{
    if priority > MAX_PRIORITY {
        return Err(TimpaniError::InvalidArgs);
    }
    Ok(SchedRequest { pid, policy: policy.to_libc(), priority: priority as i32 })
}

/// What `sched_setscheduler` returned means, with `errno` the error number after the call.
pub open spec fn sched_reply(ret: i32, errno: Errno) -> TimpaniResult<()> {
    if ret < 0 {
        Err(nix_error(errno))
    } else {
        Ok(())
    }
}

/// What `sched_setscheduler` returned means, with `errno` the error number after the call.
pub fn schedattr_outcome(ret: i32, errno: Errno) -> (result: TimpaniResult<()>)
    ensures
        result == sched_reply(ret, errno),
{
    if ret < 0 {
        Err(map_nix_err(errno))
    } else {
        Ok(())
    }
}

// Process and thread discovery

/// A thread as `/proc` lists it. The name is missing where it could not be read.
#[derive(Debug)]
pub struct ThreadEntry {
    pub tid: i32,
    pub comm: Option<String>,
}

/// The threads of one process, in the order of `/proc`, with `None` for one that could
/// not be read.
pub type ThreadList = Vec<Option<ThreadEntry>>;

/// Thread `j` of process `i` can be read and is called `name`.
pub open spec fn is_named(
    processes: Seq<Option<ThreadList>>,
    i: int,
    j: int,
    name: Seq<char>,
) -> bool {
    &&& 0 <= i < processes.len()
    &&& processes[i] is Some
    &&& 0 <= j < processes[i]->Some_0@.len()
    &&& processes[i]->Some_0@[j] is Some
    &&& processes[i]->Some_0@[j]->Some_0.comm is Some
    &&& processes[i]->Some_0@[j]->Some_0.comm->Some_0@ == name
}

/// The id of thread `j` of process `i`.
pub open spec fn tid_at(processes: Seq<Option<ThreadList>>, i: int, j: int) -> i32 {
    processes[i]->Some_0@[j]->Some_0.tid
}

/// Thread `j` of process `i` is the first that is called `name`.
pub open spec fn is_first_named(
    processes: Seq<Option<ThreadList>>,
    i: int,
    j: int,
    name: Seq<char>,
) -> bool {
    &&& is_named(processes, i, j, name)
    &&& forall|a: int, b: int| #[trigger]
        is_named(processes, a, b, name) ==> i < a || (i == a && j <= b)
}

/// `tid` is the id of the first thread that is called `name`.
pub open spec fn leads_by_name(
    processes: Seq<Option<ThreadList>>,
    name: Seq<char>,
    tid: i32,
) -> bool {
    exists|i: int, j: int| #[trigger]
        is_first_named(processes, i, j, name) && tid == tid_at(processes, i, j)
}

/// Finds the first thread that is called `name` in what a scan of `/proc` found, and
/// returns its id. `Io` is returned where there is none, or where `/proc` could not be
/// read.
///
/// `processes` are the processes in the order of `/proc`. One whose threads could not be
/// listed is `None`: it is passed over, as is a thread that could not be read.
pub fn get_pid_by_name(name: &str, processes: Option<&Vec<Option<ThreadList>>>) -> (result:
    TimpaniResult<i32>)
    ensures
        match result {
            Ok(tid) => processes is Some && leads_by_name(processes->Some_0@, name@, tid),
            Err(error) => error == TimpaniError::Io && (processes is Some ==> forall|
                i: int,
                j: int,
            |
                !#[trigger] is_named(processes->Some_0@, i, j, name@)),
        },
{
    let list = match processes {
        Some(list) => list,
        None => {
            return Err(TimpaniError::Io);
        },
    };
    let wanted: String = name.to_owned();
    for i in 0..list.len()
        invariant
            processes == Some(list),
            wanted@ == name@,
            forall|a: int, b: int| a < i ==> !#[trigger] is_named(list@, a, b, name@),
    {
        if let Some(threads) = &list[i] {
            for j in 0..threads.len()
                invariant
                    processes == Some(list),
                    wanted@ == name@,
                    i < list@.len(),
                    list@[i as int] == Some(*threads),
                    forall|a: int, b: int|
                        a < i || (a == i && b < j) ==> !#[trigger] is_named(
                            list@,
                            a,
                            b,
                            name@,
                        ),
            {
                if let Some(thread) = &threads[j] {
                    if let Some(comm) = &thread.comm {
                        if *comm == wanted {
                            assert(is_first_named(list@, i as int, j as int, name@));
                            return Ok(thread.tid);
                        }
                    }
                }
            }
        }
    }
    Err(TimpaniError::Io)
}

/// A process as `/proc/<pid>/status` describes it.
#[derive(Debug)]
pub struct StatusEntry {
    pub pid: i32,
    pub name: String,
    /// The ids of the process in the PID namespaces that it is in, outermost first.
    /// Kernels that do not report them leave it out.
    pub nspid: Option<Vec<i32>>,
}

/// Process `i` can be read, is called `name` and has the id `nspid` in one of its
/// namespaces.
pub open spec fn has_nspid(
    processes: Seq<Option<StatusEntry>>,
    i: int,
    name: Seq<char>,
    nspid: i32,
) -> bool {
    &&& 0 <= i < processes.len()
    &&& processes[i] is Some
    &&& processes[i]->Some_0.name@ == name
    &&& processes[i]->Some_0.nspid is Some
    &&& processes[i]->Some_0.nspid->Some_0@.contains(nspid)
}

/// `pid` is the id of the first process that is called `name` and has the id `nspid` in
/// one of its namespaces.
pub open spec fn leads_by_nspid(
    processes: Seq<Option<StatusEntry>>,
    name: Seq<char>,
    nspid: i32,
    pid: i32,
) -> bool {
    exists|i: int|
        {
            &&& #[trigger] has_nspid(processes, i, name, nspid)
            &&& pid == processes[i]->Some_0.pid
            &&& forall|a: int| #[trigger] has_nspid(processes, a, name, nspid) ==> i <= a
        }
}

/// Whether a list of numbers holds `wanted`.
fn holds(numbers: &Vec<i32>, wanted: i32) -> (held: bool)
    ensures
        held == numbers@.contains(wanted),
{
    for i in 0..numbers.len()
        invariant
            forall|j: int| 0 <= j < i ==> numbers@[j] != wanted,
    {
        if numbers[i] == wanted {
            return true;
        }
    }
    false
}

/// Finds the first process that is called `name` and has the id `nspid` in one of its
/// PID namespaces, in what a scan of `/proc` found, and returns its id. `Io` is returned
/// where there is none, or where `/proc` could not be read.
///
/// `processes` are the processes in the order of `/proc`. One whose status could not be
/// read is `None`: it is passed over, as is one that does not report namespaces.
pub fn get_pid_by_nspid(
    name: &str,
    nspid: i32,
    processes: Option<&Vec<Option<StatusEntry>>>,
) -> (result: TimpaniResult<i32>)
    ensures
        match result {
            Ok(pid) => processes is Some && leads_by_nspid(
                processes->Some_0@,
                name@,
                nspid,
                pid,
            ),
            Err(error) => error == TimpaniError::Io && (processes is Some ==> forall|i: int|
                !#[trigger] has_nspid(processes->Some_0@, i, name@, nspid)),
        },
{
    let list = match processes {
        Some(list) => list,
        None => {
            return Err(TimpaniError::Io);
        },
    };
    let wanted: String = name.to_owned();
    for i in 0..list.len()
        invariant
            processes == Some(list),
            wanted@ == name@,
            forall|a: int| a < i ==> !#[trigger] has_nspid(list@, a, name@, nspid),
    {
        if let Some(process) = &list[i] {
            if process.name == wanted {
                if let Some(ids) = &process.nspid {
                    if holds(ids, nspid) {
                        assert(has_nspid(list@, i as int, name@, nspid));
                        return Ok(process.pid);
                    }
                }
            }
        }
    }
    Err(TimpaniError::Io)
}

/// What reading a process's name comes to: the name, or `Io` where it could not be read.
pub fn get_process_name_by_pid(comm: Option<String>) -> (result: TimpaniResult<String>)
    ensures
        match comm {
            Some(name) => result == Ok::<String, TimpaniError>(name),
            None => result == Err::<String, TimpaniError>(TimpaniError::Io),
        },
{
    match comm {
        Some(name) => Ok(name),
        None => Err(TimpaniError::Io),
    }
}

// Pidfds

/// What `pidfd_open` returned means, with `errno` the error number after the call.
pub open spec fn pidfd_open_reply(ret: i64, errno: Errno) -> TimpaniResult<i32> {
    if ret >= 0 {
        Ok(ret as i32)
    } else if errno == Errno::ESRCH {
        Err(TimpaniError::InvalidArgs)
    } else if errno == Errno::EPERM || errno == Errno::EACCES {
        Err(TimpaniError::Permission)
    } else {
        Err(TimpaniError::Io)
    }
}

/// What `pidfd_open` returned means, with `errno` the error number after the call: the
/// descriptor, `InvalidArgs` where there is no such process, or another error.
pub fn create_pidfd(ret: i64, errno: Errno) -> (result: TimpaniResult<i32>)
    ensures
        result == pidfd_open_reply(ret, errno),
{
    if ret < 0 {
        return Err(
            match errno {
                Errno::ESRCH => TimpaniError::InvalidArgs,
                Errno::EPERM | Errno::EACCES => TimpaniError::Permission,
                _ => TimpaniError::Io,
            },
        );
    }
    Ok(ret as i32)
}

/// What `pidfd_send_signal` returned means, with `errno` the error number after the call.
pub open spec fn pidfd_signal_reply(ret: i64, errno: Errno) -> TimpaniResult<()> {
    if ret >= 0 {
        Ok(())
    } else if errno == Errno::EPERM || errno == Errno::EACCES {
        Err(TimpaniError::Permission)
    } else if errno == Errno::ESRCH {
        Err(TimpaniError::Signal)
    } else {
        Err(TimpaniError::Io)
    }
}

/// What `pidfd_send_signal` returned means, with `errno` the error number after the call:
/// success, `Signal` where the process is gone, or another error.
pub fn send_signal_pidfd(ret: i64, errno: Errno) -> (result: TimpaniResult<()>)
    ensures
        result == pidfd_signal_reply(ret, errno),
{
    if ret < 0 {
        return Err(
            match errno {
                Errno::EPERM | Errno::EACCES => TimpaniError::Permission,
                Errno::ESRCH => TimpaniError::Signal,
                _ => TimpaniError::Io,
            },
        );
    }
    Ok(())
}

/// Whether a process is alive, by what a null signal to it came to: it went through, or the
/// caller may not signal the process.
pub open spec fn alive_reply(ret: i64, errno: Errno) -> bool {
    ret == 0 || (ret < 0 && errno == Errno::EPERM)
}

/// Whether a process is alive, by what `pidfd_send_signal` returned when it was sent the
/// null signal, with `errno` the error number after the call. A process that the caller may
/// not signal is alive too.
pub fn is_process_alive(ret: i64, errno: Errno) -> (alive: bool)
    ensures
        alive == alive_reply(ret, errno),
{
    if ret < 0 {
        match errno {
            Errno::EPERM => true,
            _ => false,
        }
    } else {
        ret == 0
    }
}

// Laws

/// The number of a policy leads back to the policy.
pub proof fn law_policy_number_leads_back(policy: SchedPolicy)
    ensures
        policy_of(policy.number()) == Ok::<SchedPolicy, TimpaniError>(policy),
{
}

/// A number that stands for a policy is that policy's number.
pub proof fn law_policy_keeps_its_number(v: int)
    requires
        policy_of(v) is Ok,
    ensures
        policy_of(v)->Ok_0.number() == v,
{
}

/// A number whose bits below `k` are all clear is a multiple of 2^k.
proof fn lemma_low_bits_clear(cpumask: u64, k: u64)
    requires
        k < 64,
        forall|i: usize| i < k ==> cpumask & (1u64 << i) == 0,
    ensures
        cpumask == (cpumask >> k) << k,
    decreases k,
{
    if k == 0 {
        assert(cpumask == (cpumask >> 0u64) << 0u64) by (bit_vector);
    } else {
        let j = (k - 1) as u64;
        lemma_low_bits_clear(cpumask, j);
        assert(cpumask & (1u64 << (j as usize)) == 0);
        assert(cpumask == (cpumask >> k) << k) by (bit_vector)
            requires
                0 < k < 64,
                j == k - 1,
                cpumask == (cpumask >> j) << j,
                cpumask & (1u64 << j) == 0,
        ;
    }
}

/// A mask that is not 0 asks for at least one CPU, and all that it asks for fit a
/// `CpuSet`.
pub proof fn law_mask_asks_for_a_cpu(cpumask: u64)
    requires
        cpumask != 0,
    ensures
        exists|i: usize| #[trigger] mask_cpus(cpumask).contains(i),
        forall|i: usize| #[trigger]
            mask_cpus(cpumask).contains(i) ==> i < CPU_SET_CAPACITY,
{
    if forall|i: usize| !#[trigger] mask_cpus(cpumask).contains(i) {
        assert forall|i: usize| i < 64 implies cpumask & (1u64 << i) == 0 by {
            assert(!mask_cpus(cpumask).contains(i));
        }
        lemma_low_bits_clear(cpumask, 63);
        assert(cpumask & (1u64 << 63usize) == 0);
        assert(cpumask == 0) by (bit_vector)
            requires
                cpumask == (cpumask >> 63u64) << 63u64,
                cpumask & (1u64 << 63usize) == 0,
        ;
    }
}

/// The mask with one bit asks for the CPU that pinning to this CPU asks for, where the
/// machine has it.
pub proof fn law_single_bit_is_single_cpu(cpu: u32, online: int)
    requires
        cpu < 64,
        cpu < online,
    ensures
        mask_cpus(1u64 << cpu) == set![effective_cpu(cpu, online) as usize],
{
    assert forall|i: usize| mask_cpus(1u64 << cpu).contains(i) <==> i == cpu by {
        assert(i < 64 && cpu < 64 ==> ((1u64 << cpu) & (1u64 << i) != 0 <==> i == cpu as usize))
            by (bit_vector);
    }
    assert(mask_cpus(1u64 << cpu) =~= set![effective_cpu(cpu, online) as usize]);
}

/// Every CPU that a request comes to on a machine with CPUs is one of the machine's.
pub proof fn law_effective_cpu_exists(cpu: u32, online: int)
    requires
        online > 0,
    ensures
        0 <= effective_cpu(cpu, online) < online,
{
}

/// Linux numbers the policies 0 (normal), 1 (first in, first out) and 2 (round robin), and
/// no other number stands for one.
pub proof fn law_policies_have_the_numbers_of_linux(v: i32)
    ensures
        SchedPolicy::Normal.number() == 0,
        SchedPolicy::Fifo.number() == 1,
        SchedPolicy::Rr.number() == 2,
        policy_of(0) == Ok::<SchedPolicy, TimpaniError>(SchedPolicy::Normal),
        policy_of(1) == Ok::<SchedPolicy, TimpaniError>(SchedPolicy::Fifo),
        policy_of(2) == Ok::<SchedPolicy, TimpaniError>(SchedPolicy::Rr),
        !(0 <= v <= 2) ==> policy_of(v as int) == Err::<SchedPolicy, TimpaniError>(
            TimpaniError::InvalidArgs,
        ),
        <SchedPolicy as TryFromSpec<i32>>::try_from_spec(v) == policy_of(v as int),
{
}

/// A scheduling call that failed for lack of privilege is reported as that, and any other
/// failure as `Io`; one that did not fail is a success, whatever the error number says.
pub proof fn law_replies_of_scheduling_calls(errno: Errno, ret: i32)
    ensures
        nix_error(errno) == TimpaniError::Permission <==> errno == Errno::EPERM || errno
            == Errno::EACCES,
        nix_error(errno) == TimpaniError::Permission || nix_error(errno) == TimpaniError::Io,
        affinity_reply(Ok(())) == Ok::<(), TimpaniError>(()),
        affinity_reply(Err(errno)) == Err::<(), TimpaniError>(nix_error(errno)),
        ret >= 0 ==> sched_reply(ret, errno) == Ok::<(), TimpaniError>(()),
        ret < 0 ==> sched_reply(ret, errno) == Err::<(), TimpaniError>(nix_error(errno)),
{
}

/// Opening a pidfd gives the descriptor that the kernel returned. A process that is not there
/// is an invalid argument, a lack of privilege is reported as that, and any other failure as
/// `Io`.
pub proof fn law_replies_of_opening_a_pidfd(ret: i64, errno: Errno)
    ensures
        0 <= ret <= i32::MAX ==> pidfd_open_reply(ret, errno) is Ok && pidfd_open_reply(
            ret,
            errno,
        )->Ok_0 == ret,
        pidfd_open_reply(ret, errno) is Err <==> ret < 0,
        ret < 0 ==> {
            let error = pidfd_open_reply(ret, errno)->Err_0;
            &&& error == TimpaniError::InvalidArgs <==> errno == Errno::ESRCH
            &&& error == TimpaniError::Permission <==> errno == Errno::EPERM || errno
                == Errno::EACCES
            &&& error == TimpaniError::Io <==> errno != Errno::ESRCH && errno != Errno::EPERM
                && errno != Errno::EACCES
        },
{
}

/// Signalling a pidfd fails exactly where the call did. A process that is gone is reported as
/// `Signal`, a lack of privilege as that, and any other failure as `Io`.
pub proof fn law_replies_of_signalling_a_pidfd(ret: i64, errno: Errno)
    ensures
        pidfd_signal_reply(ret, errno) is Err <==> ret < 0,
        ret < 0 ==> {
            let error = pidfd_signal_reply(ret, errno)->Err_0;
            &&& error == TimpaniError::Signal <==> errno == Errno::ESRCH
            &&& error == TimpaniError::Permission <==> errno == Errno::EPERM || errno
                == Errno::EACCES
            &&& error == TimpaniError::Io <==> errno != Errno::ESRCH && errno != Errno::EPERM
                && errno != Errno::EACCES
        },
{
}

/// A priority up to 99 is asked for as it is, for the thread and under the policy that were
/// named; a higher one is refused.
pub proof fn law_priority_is_asked_for_as_it_is(pid: i32, priority: u32, policy: SchedPolicy)
    ensures
        priority > 99 ==> sched_request(pid, priority, policy) == Err::<SchedRequest, TimpaniError>(
            TimpaniError::InvalidArgs,
        ),
        priority <= 99 ==> {
            let result = sched_request(pid, priority, policy);
            &&& result is Ok
            &&& result->Ok_0.pid == pid
            &&& result->Ok_0.priority == priority
            &&& result->Ok_0.policy == 0 <==> policy == SchedPolicy::Normal
            &&& result->Ok_0.policy == 1 <==> policy == SchedPolicy::Fifo
            &&& result->Ok_0.policy == 2 <==> policy == SchedPolicy::Rr
        },
{
}

/// A CPU that the machine has is the one that a request for it comes to, and CPU 0 stands
/// for all that it does not have.
pub proof fn law_existing_cpu_is_kept(cpu: u32, online: int)
    ensures
        cpu < online ==> effective_cpu(cpu, online) == cpu,
        cpu >= online ==> effective_cpu(cpu, online) == 0,
{
}

/// A mask asks for CPU `i` exactly where its bit `i` is 1, and two masks together ask for
/// what either of them asks for.
pub proof fn law_each_bit_is_its_cpu(cpumask: u64, other: u64, i: usize)
    ensures
        mask_cpus(cpumask).contains(i) <==> i < 64 && (cpumask >> i) % 2 == 1,
        mask_cpus(cpumask | other) == mask_cpus(cpumask).union(mask_cpus(other)),
        mask_cpus(0) == Set::<usize>::empty(),
{
    assert(i < 64 ==> (cpumask & (1u64 << i) != 0 <==> (cpumask >> i) % 2 == 1)) by (bit_vector);
    assert forall|k: usize| mask_cpus(cpumask | other).contains(k) <==> mask_cpus(cpumask).contains(
        k,
    ) || mask_cpus(other).contains(k) by {
        assert(k < 64 ==> ((cpumask | other) & (1u64 << k) != 0 <==> cpumask & (1u64 << k) != 0
            || other & (1u64 << k) != 0)) by (bit_vector);
    }
    assert(mask_cpus(cpumask | other) =~= mask_cpus(cpumask).union(mask_cpus(other)));
    assert forall|k: usize| !mask_cpus(0).contains(k) by {
        assert(k < 64 ==> 0u64 & (1u64 << k) == 0) by (bit_vector);
    }
    assert(mask_cpus(0) =~= Set::<usize>::empty());
}

/// Confining a thread succeeds only where the kernel said so to a request for this thread and
/// these CPUs, fails only where it refused such a request, and tells a lack of privilege from
/// other refusals.
pub proof fn law_kernel_decides_a_confinement(pid: i32, cpus: Set<usize>, result: TimpaniResult<()>)
    requires
        confined_to(pid, cpus, result),
    ensures
        result is Ok ==> affinity_answer(pid, cpus, Ok(())),
        result is Err ==> exists|errno: Errno| #[trigger]
            affinity_answer(pid, cpus, Err(errno)) && (result->Err_0 == TimpaniError::Permission
                <==> errno == Errno::EPERM || errno == Errno::EACCES),
        result is Err ==> result->Err_0 == TimpaniError::Permission || result->Err_0
            == TimpaniError::Io,
{
    let reply = choose|reply: Result<(), Errno>| #[trigger]
        affinity_answer(pid, cpus, reply) && result == affinity_reply(reply);
    match reply {
        Ok(unit) => {
            assert(unit == ());
            assert(reply == Ok::<(), Errno>(()));
        },
        Err(errno) => {
            assert(affinity_answer(pid, cpus, Err(errno)));
        },
    }
}

/// Pinning a thread to a CPU that the machine has, and that fits a set of 1024, confines it
/// to this CPU alone. To a CPU that it does not have, it confines it to CPU 0 alone. Where the
/// CPUs could not be counted, the result is `Io`.
pub proof fn law_pinning_confines_to_one_cpu(
    pid: i32,
    cpu: u32,
    count: i64,
    errno: Errno,
    result: TimpaniResult<()>,
)
    ensures
        0 <= count && cpu < count && cpu < 1024 ==> (pinned_with(pid, cpu, Ok(Some(count)), result)
            <==> confined_to(pid, set![cpu as usize], result)),
        0 <= count && cpu < count && cpu >= 1024 ==> (pinned_with(pid, cpu, Ok(Some(count)), result)
            <==> result == Err::<(), TimpaniError>(TimpaniError::InvalidArgs)),
        0 <= count && cpu >= count ==> (pinned_with(pid, cpu, Ok(Some(count)), result)
            <==> confined_to(pid, set![0usize], result)),
        count < 0 ==> (pinned_with(pid, cpu, Ok(Some(count)), result) <==> result == Err::<
            (),
            TimpaniError,
        >(TimpaniError::Io)),
        pinned_with(pid, cpu, Ok(None), result) <==> result == Err::<(), TimpaniError>(
            TimpaniError::Io,
        ),
        pinned_with(pid, cpu, Err(errno), result) <==> result == Err::<(), TimpaniError>(
            TimpaniError::Io,
        ),
{
}

/// Setting the affinity of several threads succeeds where one was updated or there are none,
/// and is refused otherwise. A thread is updated only where it could be read and the kernel
/// confined this very thread.
pub proof fn law_one_updated_thread_is_enough(
    threads: Seq<Option<i32>>,
    cpus: Set<usize>,
    updated: Seq<bool>,
)
    requires
        can_come_of(threads, cpus, updated),
    ensures
        updated.len() == threads.len(),
        all_threads_result(updated) is Ok <==> threads.len() == 0 || exists|i: int|
            0 <= i < threads.len() && #[trigger] updated[i],
        all_threads_result(updated) is Err ==> all_threads_result(updated) == Err::<
            (),
            TimpaniError,
        >(TimpaniError::Permission),
        forall|i: int|
            0 <= i < threads.len() && #[trigger] updated[i] ==> threads[i] is Some && confined_to(
                threads[i]->Some_0,
                cpus,
                Ok(()),
            ),
        forall|i: int|
            0 <= i < threads.len() && !#[trigger] updated[i] && threads[i] is Some ==> (confined_to(
                threads[i]->Some_0,
                cpus,
                Err(TimpaniError::Permission),
            ) || confined_to(threads[i]->Some_0, cpus, Err(TimpaniError::Io))),
{
    assert forall|i: int| 0 <= i < threads.len() implies ({
        &&& #[trigger] updated[i] ==> threads[i] is Some && confined_to(
            threads[i]->Some_0,
            cpus,
            Ok(()),
        )
        &&& !updated[i] && threads[i] is Some ==> (confined_to(
            threads[i]->Some_0,
            cpus,
            Err(TimpaniError::Permission),
        ) || confined_to(threads[i]->Some_0, cpus, Err(TimpaniError::Io)))
    }) by {
        assert(thread_came_to(threads[i], cpus, updated[i]));
        if let Some(tid) = threads[i] {
            let result = choose|result: TimpaniResult<()>| #[trigger]
                confined_to(tid, cpus, result) && updated[i] == (result is Ok);
            law_kernel_decides_a_confinement(tid, cpus, result);
            if result is Ok {
                assert(result == Ok::<(), TimpaniError>(()));
            }
        }
    }
    if updated.contains(true) {
        let k = choose|k: int| 0 <= k < updated.len() && updated[k] == true;
        assert(updated[k]);
    }
    if exists|i: int| 0 <= i < threads.len() && #[trigger] updated[i] {
        let k = choose|i: int| 0 <= i < threads.len() && #[trigger] updated[i];
        assert(updated[k] == true);
    }
}

/// A thread counts as called by a name exactly where it is listed, could be read, and its
/// whole name is this one.
pub proof fn law_names_are_compared_as_a_whole(
    processes: Seq<Option<ThreadList>>,
    i: int,
    j: int,
    name: Seq<char>,
)
    ensures
        is_named(processes, i, j, name) <==> {
            &&& 0 <= i < processes.len()
            &&& processes[i] matches Some(threads)
            &&& 0 <= j < threads@.len()
            &&& threads@[j] matches Some(thread)
            &&& thread.comm matches Some(comm)
            &&& comm@ == name
        },
{
}

/// Where thread `j` of process `i` is called by the name and no thread listed before it is,
/// its id is the one that is found, and no other is.
pub proof fn law_first_thread_of_the_name_is_found(
    processes: Seq<Option<ThreadList>>,
    i: int,
    j: int,
    name: Seq<char>,
    tid: i32,
)
    requires
        is_named(processes, i, j, name),
        forall|a: int, b: int|
            0 <= a < i || (a == i && 0 <= b < j) ==> !#[trigger] is_named(processes, a, b, name),
    ensures
        leads_by_name(processes, name, tid) <==> tid == processes[i]->Some_0@[j]->Some_0.tid,
{
    assert(is_first_named(processes, i, j, name));
    if leads_by_name(processes, name, tid) {
        let (a, b) = choose|a: int, b: int| #[trigger]
            is_first_named(processes, a, b, name) && tid == tid_at(processes, a, b);
        assert(a == i && b == j);
    }
    if tid == processes[i]->Some_0@[j]->Some_0.tid {
        assert(tid == tid_at(processes, i, j));
    }
}

/// A process is found by a namespace id exactly where it is listed, could be read, its whole
/// name is the one looked for, and the id is one of those that it reports.
pub proof fn law_namespace_ids_are_looked_through(
    processes: Seq<Option<StatusEntry>>,
    i: int,
    name: Seq<char>,
    nspid: i32,
)
    ensures
        has_nspid(processes, i, name, nspid) <==> {
            &&& 0 <= i < processes.len()
            &&& processes[i] matches Some(process)
            &&& process.name@ == name
            &&& process.nspid matches Some(ids)
            &&& exists|k: int| 0 <= k < ids@.len() && #[trigger] ids@[k] == nspid
        },
{
}

/// Where process `i` has the name and the namespace id and no process listed before it does,
/// its id is the one that is found, and no other is.
pub proof fn law_first_process_of_the_namespace_id_is_found(
    processes: Seq<Option<StatusEntry>>,
    i: int,
    name: Seq<char>,
    nspid: i32,
    pid: i32,
)
    requires
        has_nspid(processes, i, name, nspid),
        forall|a: int| 0 <= a < i ==> !#[trigger] has_nspid(processes, a, name, nspid),
    ensures
        leads_by_nspid(processes, name, nspid, pid) <==> pid == processes[i]->Some_0.pid,
{
}

/// A process that a null signal reaches is alive, and so is one that may not be signalled. One
/// that a signal finds gone is not, and no other failure shows a process to be alive.
pub proof fn law_a_process_that_is_gone_is_not_alive(ret: i64, errno: Errno)
    ensures
        alive_reply(0, errno),
        ret < 0 ==> (alive_reply(ret, errno) <==> errno == Errno::EPERM),
        ret > 0 ==> !alive_reply(ret, errno),
        pidfd_signal_reply(ret, errno) == Err::<(), TimpaniError>(TimpaniError::Signal)
            ==> !alive_reply(ret, errno),
        alive_reply(ret, errno) ==> pidfd_signal_reply(ret, errno) is Ok || pidfd_signal_reply(
            ret,
            errno,
        ) == Err::<(), TimpaniError>(TimpaniError::Permission),
{
}

} // verus!
