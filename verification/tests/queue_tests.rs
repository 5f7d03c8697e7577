use hello::queue::JobQueue;
use hello::queue::Received;
use hello::queue::SendError;

#[test]
fn fifo_order_is_kept() {
    let mut q: JobQueue<u32> = JobQueue::new();
    q.send(1).unwrap();
    q.send(2).unwrap();
    q.send(3).unwrap();
    for expected in [1, 2, 3] {
        match q.try_receive() {
            Received::Job(j) => assert_eq!(j, expected),
            _ => panic!("expected a job"),
        }
    }
}

#[test]
fn empty_open_queue_says_pending() {
    let mut q: JobQueue<u32> = JobQueue::new();
    assert!(matches!(q.try_receive(), Received::Pending));
}

#[test]
fn send_after_close_is_refused() {
    let mut q: JobQueue<u32> = JobQueue::new();
    q.close();
    assert_eq!(q.send(9), Err(SendError::Closed));
    assert!(matches!(q.try_receive(), Received::Closed));
}

#[test]
fn close_keeps_queued_jobs_receivable() {
    let mut q: JobQueue<u32> = JobQueue::new();
    q.send(4).unwrap();
    q.send(5).unwrap();
    q.close();
    assert!(matches!(q.try_receive(), Received::Job(4)));
    assert!(matches!(q.try_receive(), Received::Job(5)));
    assert!(matches!(q.try_receive(), Received::Closed));
    assert!(matches!(q.try_receive(), Received::Closed));
}

#[test]
fn close_twice_changes_nothing() {
    let mut q: JobQueue<u32> = JobQueue::new();
    q.send(8).unwrap();
    q.close();
    q.close();
    assert!(matches!(q.try_receive(), Received::Job(8)));
    assert!(matches!(q.try_receive(), Received::Closed));
}
