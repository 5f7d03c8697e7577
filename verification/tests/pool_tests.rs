use hello::pool::ConstructionError;
use hello::pool::Dispatch;
use hello::pool::Pool;
use hello::pool::SubmitError;

/// Drives the pool like its workers would: round-robin over all workers,
/// "executing" each handed job by calling `run` on it, until every worker
/// has terminated. Panics if a worker never terminates.
fn drain<F: FnMut(u64)>(p: &mut Pool<u64>, workers: usize, mut run: F) {
    let mut done = vec![false; workers];
    let mut rounds = 0u32;
    while !p.all_terminated() {
        rounds += 1;
        assert!(rounds < 1_000_000, "pool failed to terminate");
        for w in 0..workers {
            if done[w] {
                continue;
            }
            match p.worker_fetch(w) {
                Dispatch::Job(j) => {
                    run(j);
                    p.worker_finish(w, false);
                }
                Dispatch::NoneReady => {}
                Dispatch::Finished => {
                    done[w] = true;
                }
            }
        }
    }
}

#[test]
fn zero_workers_is_a_construction_error() {
    let r = Pool::<u64>::new(0);
    assert!(matches!(r, Err(ConstructionError::ZeroWorkers)));
}

#[test]
fn new_starts_exactly_n_workers() {
    let n = 4;
    let mut p = Pool::<u64>::new(n).unwrap();
    p.begin_shutdown();
    // Exactly n workers must each observe the closed queue before the pool
    // counts as terminated.
    for w in 0..n {
        assert!(!p.all_terminated());
        assert!(matches!(p.worker_fetch(w), Dispatch::Finished));
    }
    assert!(p.all_terminated());
}

#[test]
fn stress_every_job_runs_exactly_once() {
    let jobs: u64 = 10_000;
    let workers = 4;
    let mut p = Pool::<u64>::new(workers).unwrap();
    for j in 0..jobs {
        assert!(p.submit(j).is_ok());
    }
    p.begin_shutdown();
    let mut counter: u64 = 0;
    let mut seen = vec![false; jobs as usize];
    drain(&mut p, workers, |j| {
        assert!(!seen[j as usize], "job executed twice");
        seen[j as usize] = true;
        counter += 1;
    });
    assert_eq!(counter, jobs);
    assert!(seen.iter().all(|s| *s));
}

#[test]
fn fault_does_not_stop_later_jobs() {
    let workers = 2;
    let mut p = Pool::<u64>::new(workers).unwrap();
    // One faulting job, then a hundred ordinary ones.
    assert!(p.submit(u64::MAX).is_ok());
    for j in 0..100 {
        assert!(p.submit(j).is_ok());
    }
    p.begin_shutdown();
    let mut completed: u64 = 0;
    let mut done = vec![false; workers];
    let mut rounds = 0u32;
    while !p.all_terminated() {
        rounds += 1;
        assert!(rounds < 1_000_000, "pool failed to terminate");
        for w in 0..workers {
            if done[w] {
                continue;
            }
            match p.worker_fetch(w) {
                Dispatch::Job(j) => {
                    let faulted = j == u64::MAX;
                    if !faulted {
                        completed += 1;
                    }
                    p.worker_finish(w, faulted);
                }
                Dispatch::NoneReady => {}
                Dispatch::Finished => {
                    done[w] = true;
                }
            }
        }
    }
    assert_eq!(completed, 100);
}

#[test]
fn submit_after_shutdown_is_refused_and_never_runs() {
    let workers = 2;
    let mut p = Pool::<u64>::new(workers).unwrap();
    assert!(p.submit(1).is_ok());
    p.begin_shutdown();
    assert!(matches!(p.submit(2), Err(SubmitError::Closed)));
    let mut executed = Vec::new();
    drain(&mut p, workers, |j| executed.push(j));
    assert_eq!(executed, vec![1]);
}

#[test]
fn shutdown_drains_jobs_queued_before_close() {
    let workers = 3;
    let mut p = Pool::<u64>::new(workers).unwrap();
    for j in 0..10 {
        assert!(p.submit(j).is_ok());
    }
    // Close while every job is still queued: none may be discarded.
    p.begin_shutdown();
    let mut executed = Vec::new();
    drain(&mut p, workers, |j| executed.push(j));
    executed.sort();
    assert_eq!(executed, (0..10).collect::<Vec<u64>>());
}

#[test]
fn double_shutdown_is_harmless() {
    let workers = 2;
    let mut p = Pool::<u64>::new(workers).unwrap();
    assert!(p.submit(7).is_ok());
    p.begin_shutdown();
    p.begin_shutdown();
    assert!(matches!(p.submit(8), Err(SubmitError::Closed)));
    let mut executed = Vec::new();
    drain(&mut p, workers, |j| executed.push(j));
    assert_eq!(executed, vec![7]);
    // A further shutdown after full termination changes nothing either.
    p.begin_shutdown();
    assert!(p.all_terminated());
}

#[test]
fn interleaved_submitters_lose_and_duplicate_nothing() {
    // Two producers take turns submitting, interleaved with worker steps, as
    // an arbitrary schedule of concurrent callers would.
    let workers = 2;
    let mut p = Pool::<u64>::new(workers).unwrap();
    let mut executed = Vec::new();
    for round in 0..50u64 {
        assert!(p.submit(2 * round).is_ok());
        assert!(p.submit(2 * round + 1).is_ok());
        if let Dispatch::Job(j) = p.worker_fetch((round % 2) as usize) {
            executed.push(j);
            p.worker_finish((round % 2) as usize, false);
        }
    }
    p.begin_shutdown();
    drain(&mut p, workers, |j| executed.push(j));
    executed.sort();
    assert_eq!(executed, (0..100).collect::<Vec<u64>>());
}

#[test]
fn idle_worker_waits_while_queue_open() {
    let mut p = Pool::<u64>::new(1).unwrap();
    // Empty and open: the worker is told to keep waiting, not to stop.
    assert!(matches!(p.worker_fetch(0), Dispatch::NoneReady));
    assert!(p.submit(3).is_ok());
    match p.worker_fetch(0) {
        Dispatch::Job(j) => {
            assert_eq!(j, 3);
            p.worker_finish(0, false);
        }
        _ => panic!("queued job not handed out"),
    }
}

#[test]
fn single_worker_receives_in_submission_order() {
    let mut p = Pool::<u64>::new(1).unwrap();
    for j in [5, 6, 7] {
        assert!(p.submit(j).is_ok());
    }
    p.begin_shutdown();
    let mut executed = Vec::new();
    drain(&mut p, 1, |j| executed.push(j));
    assert_eq!(executed, vec![5, 6, 7]);
}
