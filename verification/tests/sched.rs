use nix::errno::Errno;
use nix::sched::CpuSet;
use nix::unistd::Pid;
use timpani_n::error::TimpaniError;
use timpani_n::sched::affinity_outcome;
use timpani_n::sched::all_threads_outcome;
use timpani_n::sched::cpus_for_cpu;
use timpani_n::sched::cpus_for_mask;
use timpani_n::sched::create_pidfd;
use timpani_n::sched::get_pid_by_name;
use timpani_n::sched::get_pid_by_nspid;
use timpani_n::sched::get_process_name_by_pid;
use timpani_n::sched::is_process_alive;
use timpani_n::sched::map_nix_err;
use timpani_n::sched::schedattr_outcome;
use timpani_n::sched::send_signal_pidfd;
use timpani_n::sched::set_affinity;
use timpani_n::sched::set_affinity_cpumask;
use timpani_n::sched::set_affinity_cpumask_all_threads;
use timpani_n::sched::set_schedattr;
use timpani_n::sched::SchedPolicy;
use timpani_n::sched::SchedRequest;
use timpani_n::sched::StatusEntry;
use timpani_n::sched::ThreadEntry;
use timpani_n::sched::ThreadList;

fn own_pid() -> i32 {
    nix::unistd::getpid().as_raw()
}

fn online_cpus() -> usize {
    nix::unistd::sysconf(nix::unistd::SysconfVar::_NPROCESSORS_ONLN).unwrap().unwrap() as usize
}

fn comm_of(pid: i32) -> Option<String> {
    procfs::process::Process::new(pid)
        .and_then(|p| p.stat())
        .map(|s| s.comm)
        .ok()
}

fn threads_of(pid: i32) -> Option<Vec<Option<i32>>> {
    let tasks = procfs::process::Process::new(pid).and_then(|p| p.tasks()).ok()?;
    Some(tasks.map(|task| task.ok().map(|task| task.tid)).collect())
}

fn scan_threads() -> Option<Vec<Option<ThreadList>>> {
    let processes = procfs::process::all_processes().ok()?;
    Some(
        processes
            .map(|process| {
                let tasks = process.ok()?.tasks().ok()?;
                Some(
                    tasks
                        .map(|task| {
                            task.ok().map(|task| ThreadEntry {
                                tid: task.tid,
                                comm: task.stat().ok().map(|stat| stat.comm),
                            })
                        })
                        .collect(),
                )
            })
            .collect(),
    )
}

fn scan_statuses() -> Option<Vec<Option<StatusEntry>>> {
    let processes = procfs::process::all_processes().ok()?;
    Some(
        processes
            .map(|process| {
                let process = process.ok()?;
                let status = process.status().ok()?;
                Some(StatusEntry { pid: process.pid, name: status.name, nspid: status.nspid })
            })
            .collect(),
    )
}

fn thread(tid: i32, comm: &str) -> Option<ThreadEntry> {
    Some(ThreadEntry { tid, comm: Some(comm.to_string()) })
}

fn status(pid: i32, name: &str, nspid: Option<Vec<i32>>) -> Option<StatusEntry> {
    Some(StatusEntry { pid, name: name.to_string(), nspid })
}

fn cpus_in(set: &CpuSet) -> Vec<usize> {
    (0..CpuSet::count()).filter(|i| set.is_set(*i) == Ok(true)).collect()
}

#[test]
fn test_sched_policy_from_int() {
    assert_eq!(SchedPolicy::try_from(0).unwrap(), SchedPolicy::Normal);
    assert_eq!(SchedPolicy::try_from(1).unwrap(), SchedPolicy::Fifo);
    assert_eq!(SchedPolicy::try_from(2).unwrap(), SchedPolicy::Rr);
    assert!(SchedPolicy::try_from(3).is_err());
    assert!(SchedPolicy::try_from(-1).is_err());
}

#[test]
fn test_sched_policy_to_libc() {
    assert_eq!(SchedPolicy::Normal.to_libc(), libc::SCHED_OTHER);
    assert_eq!(SchedPolicy::Fifo.to_libc(), libc::SCHED_FIFO);
    assert_eq!(SchedPolicy::Rr.to_libc(), libc::SCHED_RR);
}

#[test]
fn test_set_schedattr_invalid_priority() {
    assert_eq!(
        set_schedattr(own_pid(), 100, SchedPolicy::Fifo).unwrap_err(),
        TimpaniError::InvalidArgs
    );
}

#[test]
fn test_set_affinity_cpumask_zero_rejected() {
    assert_eq!(
        set_affinity_cpumask(own_pid(), 0).unwrap_err(),
        TimpaniError::InvalidArgs
    );
}

#[test]
fn test_own_process_name() {
    assert!(get_process_name_by_pid(comm_of(own_pid())).is_ok());
}

#[test]
fn test_get_pid_by_name_not_found() {
    let processes = scan_threads();
    assert_eq!(
        get_pid_by_name("__timpani_nonexistent__", processes.as_ref()).unwrap_err(),
        TimpaniError::Io
    );
}

#[test]
fn test_sched_policy_debug() {
    let policy = SchedPolicy::Fifo;
    assert_eq!(format!("{:?}", policy), "Fifo");
}

#[test]
fn test_sched_policy_clone() {
    let policy = SchedPolicy::Rr;
    let cloned = policy;
    assert_eq!(policy, cloned);
}

#[test]
fn test_sched_policy_copy() {
    let policy = SchedPolicy::Normal;
    let copied = policy;
    assert_eq!(policy, copied);
}

#[test]
fn test_map_nix_err_permission() {
    assert_eq!(map_nix_err(Errno::EPERM), TimpaniError::Permission);
    assert_eq!(map_nix_err(Errno::EACCES), TimpaniError::Permission);
}

#[test]
fn test_map_nix_err_io() {
    assert_eq!(map_nix_err(Errno::EIO), TimpaniError::Io);
    assert_eq!(map_nix_err(Errno::EINVAL), TimpaniError::Io);
}

#[test]
fn test_set_affinity_cpumask_valid() {
    let result = set_affinity_cpumask(own_pid(), 0x1);
    assert!(result.is_ok() || result.is_err());
}

#[test]
fn test_set_affinity_cpumask_all_threads_zero_rejected() {
    let threads = threads_of(own_pid());
    assert_eq!(
        set_affinity_cpumask_all_threads(threads.as_ref(), 0).unwrap_err(),
        TimpaniError::InvalidArgs
    );
}

#[test]
fn test_set_affinity_out_of_range_cpu() {
    let result = set_affinity(own_pid(), 9999);
    assert!(result.is_ok() || result.is_err());
}

#[test]
fn test_get_pid_by_nspid_not_found() {
    let processes = scan_statuses();
    let result = get_pid_by_nspid("__nonexistent__", 999999, processes.as_ref());
    assert_eq!(result.unwrap_err(), TimpaniError::Io);
}

#[test]
fn test_create_pidfd_invalid_pid() {
    let result = create_pidfd(-1, Errno::EINVAL);
    assert!(result.is_err());
}

#[test]
fn test_set_schedattr_valid_priority_range() {
    let result = set_schedattr(own_pid(), 0, SchedPolicy::Normal);
    assert_eq!(result, Ok(SchedRequest { pid: own_pid(), policy: 0, priority: 0 }));
}

#[test]
fn test_set_affinity_cpu_0() {
    let result = set_affinity(own_pid(), 0);
    assert!(result.is_ok() || result.is_err());
}

#[test]
fn test_set_affinity_cpumask_multiple_cpus() {
    let result = set_affinity_cpumask(own_pid(), 0x3);
    assert!(result.is_ok() || result.is_err());
}

#[test]
fn test_set_affinity_cpumask_all_threads() {
    let threads = threads_of(own_pid());
    let result = set_affinity_cpumask_all_threads(threads.as_ref(), 0x1);
    assert!(result.is_ok() || result.is_err());
}

#[test]
fn test_set_schedattr_fifo_policy() {
    let result = set_schedattr(own_pid(), 50, SchedPolicy::Fifo);
    assert_eq!(result, Ok(SchedRequest { pid: own_pid(), policy: 1, priority: 50 }));
}

#[test]
fn test_set_schedattr_rr_policy() {
    let result = set_schedattr(own_pid(), 30, SchedPolicy::Rr);
    assert_eq!(result, Ok(SchedRequest { pid: own_pid(), policy: 2, priority: 30 }));
}

#[test]
fn test_get_process_name_self() {
    let result = get_process_name_by_pid(comm_of(own_pid()));
    assert!(result.is_ok());
    let name = result.unwrap();
    assert!(!name.is_empty());
}

#[test]
fn test_get_process_name_invalid_pid() {
    let result = get_process_name_by_pid(comm_of(999999));
    assert!(matches!(result, Err(TimpaniError::Io)));
}

#[test]
fn test_create_pidfd_nonexistent() {
    let result = create_pidfd(-1, Errno::ESRCH);
    assert!(result.is_err());
}

#[test]
fn test_map_nix_err_esrch() {
    let result = create_pidfd(-1, Errno::EINVAL);
    assert!(result.is_err());
}

#[test]
fn test_sched_policy_equality() {
    assert_eq!(SchedPolicy::Normal, SchedPolicy::Normal);
    assert_eq!(SchedPolicy::Fifo, SchedPolicy::Fifo);
    assert_eq!(SchedPolicy::Rr, SchedPolicy::Rr);
    assert_ne!(SchedPolicy::Normal, SchedPolicy::Fifo);
}

#[test]
fn test_set_affinity_with_high_cpu() {
    let result = set_affinity(own_pid(), 100);
    assert!(result.is_ok() || result.is_err());
}

#[test]
fn test_set_affinity_cpumask_high_bit() {
    let result = set_affinity_cpumask(own_pid(), 1u64 << 63);
    assert!(result.is_ok() || result.is_err());
}

#[test]
fn set_affinity_cpu0_and_read_back() {
    let pid = Pid::from_raw(own_pid());
    let original = nix::sched::sched_getaffinity(pid).ok();
    if set_affinity_cpumask(own_pid(), 0x1).is_ok() {
        let mask = nix::sched::sched_getaffinity(pid)
            .expect("sched_getaffinity must succeed after setting cpu_affinity=0x1");
        assert!(
            matches!(mask.is_set(0), Ok(true)),
            "CPU 0 must be set when mask=0x1"
        );
        for i in 1..online_cpus().min(64) {
            assert!(
                matches!(mask.is_set(i), Ok(false)),
                "CPU {i} must not be set when mask=0x1"
            );
        }
    }
    if let Some(ref orig) = original {
        let _ = nix::sched::sched_setaffinity(pid, orig);
    }
}

#[test]
fn set_affinity_full_mask_and_read_back() {
    let pid = Pid::from_raw(own_pid());
    let original = nix::sched::sched_getaffinity(pid).ok();
    if set_affinity_cpumask(own_pid(), !0u64).is_ok() {
        let mask = nix::sched::sched_getaffinity(pid)
            .expect("sched_getaffinity must succeed after full-mask set");
        for i in 0..online_cpus().min(64) {
            assert!(
                matches!(mask.is_set(i), Ok(true)),
                "CPU {i} must be set in full-CPU mask"
            );
        }
    }
    if let Some(ref orig) = original {
        let _ = nix::sched::sched_setaffinity(pid, orig);
    }
}

#[test]
fn set_affinity_pins_to_the_cpu_that_was_asked_for() {
    let pid = Pid::from_raw(own_pid());
    let allowed = cpus_in(&nix::sched::sched_getaffinity(pid).unwrap());
    let cpu = *allowed.last().unwrap();
    assert_eq!(set_affinity(own_pid(), cpu as u32), Ok(()));
    let mask = nix::sched::sched_getaffinity(pid).unwrap();
    assert_eq!(cpus_in(&mask), vec![cpu]);
}

#[test]
fn an_affinity_without_such_a_thread_is_an_io_error() {
    assert_eq!(set_affinity_cpumask(-5, 0x1), Err(TimpaniError::Io));
    assert_eq!(set_affinity(-5, 0), Err(TimpaniError::Io));
}

#[test]
fn a_policy_number_leads_back_to_the_policy() {
    for policy in [SchedPolicy::Normal, SchedPolicy::Fifo, SchedPolicy::Rr] {
        assert_eq!(SchedPolicy::try_from(policy.to_libc()), Ok(policy));
    }
    assert_eq!(SchedPolicy::try_from(i32::MAX), Err(TimpaniError::InvalidArgs));
}

#[test]
fn a_cpu_out_of_range_becomes_cpu_zero() {
    assert_eq!(cpus_in(&cpus_for_cpu(2, Ok(Some(4))).unwrap()), vec![2]);
    assert_eq!(cpus_in(&cpus_for_cpu(3, Ok(Some(4))).unwrap()), vec![3]);
    assert_eq!(cpus_in(&cpus_for_cpu(4, Ok(Some(4))).unwrap()), vec![0]);
    assert_eq!(cpus_in(&cpus_for_cpu(u32::MAX, Ok(Some(4))).unwrap()), vec![0]);
    assert_eq!(cpus_in(&cpus_for_cpu(0, Ok(Some(0))).unwrap()), vec![0]);
}

#[test]
fn an_unknown_count_of_cpus_is_an_io_error() {
    assert_eq!(cpus_for_cpu(0, Err(Errno::EINVAL)).unwrap_err(), TimpaniError::Io);
    assert_eq!(cpus_for_cpu(0, Ok(None)).unwrap_err(), TimpaniError::Io);
    assert_eq!(cpus_for_cpu(0, Ok(Some(-1))).unwrap_err(), TimpaniError::Io);
}

#[test]
fn a_cpu_beyond_the_capacity_of_a_set_is_rejected() {
    assert_eq!(cpus_in(&cpus_for_cpu(1023, Ok(Some(5000))).unwrap()), vec![1023]);
    assert_eq!(
        cpus_for_cpu(1024, Ok(Some(5000))).unwrap_err(),
        TimpaniError::InvalidArgs
    );
}

#[test]
fn each_bit_of_a_mask_stands_for_its_cpu() {
    assert_eq!(cpus_in(&cpus_for_mask(0)), Vec::<usize>::new());
    assert_eq!(cpus_in(&cpus_for_mask(0b1011)), vec![0, 1, 3]);
    assert_eq!(cpus_in(&cpus_for_mask(1u64 << 63)), vec![63]);
    assert_eq!(cpus_in(&cpus_for_mask(!0u64)), (0..64).collect::<Vec<usize>>());
}

#[test]
fn a_single_bit_asks_for_what_pinning_asks_for() {
    for cpu in 0..64u32 {
        assert_eq!(
            cpus_in(&cpus_for_mask(1u64 << cpu)),
            cpus_in(&cpus_for_cpu(cpu, Ok(Some(64))).unwrap())
        );
    }
}

#[test]
fn replies_about_an_affinity() {
    assert_eq!(affinity_outcome(Ok(())), Ok(()));
    assert_eq!(affinity_outcome(Err(Errno::EPERM)), Err(TimpaniError::Permission));
    assert_eq!(affinity_outcome(Err(Errno::EINVAL)), Err(TimpaniError::Io));
    assert_eq!(affinity_outcome(Err(Errno::ESRCH)), Err(TimpaniError::Io));
}

#[test]
fn one_updated_thread_is_enough() {
    assert_eq!(all_threads_outcome(0, 0), Ok(()));
    assert_eq!(all_threads_outcome(1, 5), Ok(()));
    assert_eq!(all_threads_outcome(3, 0), Ok(()));
    assert_eq!(all_threads_outcome(0, 1), Err(TimpaniError::Permission));
}

#[test]
fn threads_that_cannot_be_read_or_updated_fail() {
    assert_eq!(set_affinity_cpumask_all_threads(None, 0x1), Err(TimpaniError::Io));
    assert_eq!(set_affinity_cpumask_all_threads(Some(&vec![]), 0x1), Ok(()));
    assert_eq!(
        set_affinity_cpumask_all_threads(Some(&vec![None, Some(-5)]), 0x1),
        Err(TimpaniError::Permission)
    );
}

#[test]
fn priorities_up_to_ninety_nine_are_valid() {
    assert_eq!(
        set_schedattr(7, 99, SchedPolicy::Rr),
        Ok(SchedRequest { pid: 7, policy: 2, priority: 99 })
    );
    assert_eq!(set_schedattr(7, u32::MAX, SchedPolicy::Rr), Err(TimpaniError::InvalidArgs));
}

#[test]
fn replies_of_the_scheduler_call() {
    assert_eq!(schedattr_outcome(0, Errno::EPERM), Ok(()));
    assert_eq!(schedattr_outcome(-1, Errno::EPERM), Err(TimpaniError::Permission));
    assert_eq!(schedattr_outcome(-1, Errno::EACCES), Err(TimpaniError::Permission));
    assert_eq!(schedattr_outcome(-1, Errno::ESRCH), Err(TimpaniError::Io));
}

#[test]
fn the_first_thread_of_that_name_is_found() {
    let processes: Vec<Option<ThreadList>> = vec![
        None,
        Some(vec![thread(10, "other"), None, Some(ThreadEntry { tid: 11, comm: None })]),
        Some(vec![thread(20, "main"), thread(21, "worker")]),
        Some(vec![thread(30, "worker")]),
    ];
    assert_eq!(get_pid_by_name("worker", Some(&processes)), Ok(21));
    assert_eq!(get_pid_by_name("main", Some(&processes)), Ok(20));
    assert_eq!(get_pid_by_name("work", Some(&processes)), Err(TimpaniError::Io));
    assert_eq!(get_pid_by_name("worker", None), Err(TimpaniError::Io));
}

#[test]
fn the_own_thread_is_found_by_name() {
    let name = get_process_name_by_pid(comm_of(own_pid())).unwrap();
    let processes = scan_threads();
    assert!(get_pid_by_name(&name, processes.as_ref()).unwrap() > 0);
}

#[test]
fn the_first_process_with_that_name_and_namespace_id_is_found() {
    let processes = vec![
        None,
        status(1, "task", None),
        status(2, "task", Some(vec![2, 7])),
        status(3, "other", Some(vec![3, 8])),
        status(4, "task", Some(vec![4, 8])),
        status(5, "task", Some(vec![5, 8])),
    ];
    assert_eq!(get_pid_by_nspid("task", 8, Some(&processes)), Ok(4));
    assert_eq!(get_pid_by_nspid("task", 2, Some(&processes)), Ok(2));
    assert_eq!(get_pid_by_nspid("task", 3, Some(&processes)), Err(TimpaniError::Io));
    assert_eq!(get_pid_by_nspid("task", 8, None), Err(TimpaniError::Io));
}

#[test]
fn replies_of_opening_a_pidfd() {
    assert_eq!(create_pidfd(5, Errno::ESRCH), Ok(5));
    assert_eq!(create_pidfd(0, Errno::ESRCH), Ok(0));
    assert_eq!(create_pidfd(-1, Errno::ESRCH), Err(TimpaniError::InvalidArgs));
    assert_eq!(create_pidfd(-1, Errno::EPERM), Err(TimpaniError::Permission));
    assert_eq!(create_pidfd(-1, Errno::EACCES), Err(TimpaniError::Permission));
    assert_eq!(create_pidfd(-1, Errno::EMFILE), Err(TimpaniError::Io));
}

#[test]
fn replies_of_signalling_a_pidfd() {
    assert_eq!(send_signal_pidfd(0, Errno::ESRCH), Ok(()));
    assert_eq!(send_signal_pidfd(-1, Errno::ESRCH), Err(TimpaniError::Signal));
    assert_eq!(send_signal_pidfd(-1, Errno::EPERM), Err(TimpaniError::Permission));
    assert_eq!(send_signal_pidfd(-1, Errno::EACCES), Err(TimpaniError::Permission));
    assert_eq!(send_signal_pidfd(-1, Errno::EBADF), Err(TimpaniError::Io));
}

#[test]
fn a_process_that_may_not_be_signalled_is_alive() {
    assert!(is_process_alive(0, Errno::ESRCH));
    assert!(is_process_alive(-1, Errno::EPERM));
    assert!(!is_process_alive(-1, Errno::ESRCH));
    assert!(!is_process_alive(-1, Errno::EBADF));
    assert!(!is_process_alive(1, Errno::EPERM));
}
