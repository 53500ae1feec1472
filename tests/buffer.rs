use reclog::buffer::{BufferPool, BufferQueue, QueueRead};
use reclog::child::{classify_wait, ChildRecord, WaitState};

fn filled(pool: &BufferPool, text: &str) -> reclog::buffer::Buffer {
    let mut b = pool.alloc_buffer();
    b.push_str(text);
    b
}

fn item_text(r: QueueRead) -> String {
    match r {
        QueueRead::Item(b) => b.to_string(),
        QueueRead::End => panic!("queue ended"),
        QueueRead::Empty => panic!("queue empty"),
    }
}

#[test]
fn full_queue_keeps_its_length() {
    let pool = BufferPool::new();
    let mut q = BufferQueue::new(2);
    q.write(filled(&pool, "1"));
    q.write(filled(&pool, "2"));
    q.write(filled(&pool, "3"));
    assert_eq!(item_text(q.read()), "2");
    assert_eq!(item_text(q.read()), "3");
    assert!(matches!(q.read(), QueueRead::Empty));
}

#[test]
fn slow_reader_sees_newest_lines_in_order() {
    let pool = BufferPool::new();
    let mut q = BufferQueue::new(3);
    for i in 0..10 {
        q.write(filled(&pool, &format!("line {}\n", i)));
    }
    let mut seen = Vec::new();
    while let QueueRead::Item(b) = q.read() {
        seen.push(b.to_string());
    }
    assert_eq!(seen, vec!["line 7\n", "line 8\n", "line 9\n"]);
}

#[test]
fn queue_under_capacity_keeps_everything() {
    let pool = BufferPool::new();
    let mut q = BufferQueue::new(10);
    q.write(filled(&pool, "a\n"));
    q.write(filled(&pool, "b\n"));
    assert_eq!(item_text(q.read()), "a\n");
    assert_eq!(item_text(q.read()), "b\n");
    assert!(matches!(q.read(), QueueRead::Empty));
    assert!(!q.is_closed());
}

#[test]
fn closed_queue_drains_then_ends_and_discards_writes() {
    let pool = BufferPool::new();
    let mut q = BufferQueue::new(1);
    q.write(filled(&pool, "kept\n"));
    q.close();
    assert!(q.is_closed());
    q.write(filled(&pool, "discarded\n"));
    assert_eq!(item_text(q.read()), "kept\n");
    assert!(matches!(q.read(), QueueRead::End));
    assert!(matches!(q.read(), QueueRead::End));
}

#[test]
fn returned_buffer_comes_back_empty() {
    let pool = BufferPool::new();
    {
        let _b = filled(&pool, "some text");
    }
    let b = pool.alloc_buffer();
    assert_eq!(b.as_str(), "");
    let fresh = pool.alloc_buffer();
    assert_eq!(fresh.as_str(), "");
}

#[test]
fn child_record_latches_final_status() {
    let mut r = ChildRecord::new();
    assert!(!r.may_kill());
    r.set_pid(42);
    assert_eq!(r.pid(), Some(42));
    assert!(r.may_kill());
    r.record(WaitState::Stopped);
    assert_eq!(r.latched(), None);
    assert_eq!(r.status(), Some(WaitState::Stopped));
    r.record(WaitState::Exited(0));
    assert_eq!(r.latched(), Some(WaitState::Exited(0)));
    assert_eq!(r.status(), Some(WaitState::Exited(0)));
    assert!(!r.may_kill());
}

#[test]
fn wait_outcomes_are_classified() {
    assert_eq!(classify_wait(Some(0), None, false, false), Some(WaitState::Exited(0)));
    assert_eq!(classify_wait(None, Some(9), false, false), Some(WaitState::Signaled(9)));
    assert_eq!(classify_wait(None, None, true, false), Some(WaitState::Stopped));
    assert_eq!(classify_wait(None, None, false, true), Some(WaitState::Continued));
    assert_eq!(classify_wait(None, None, false, false), None);
}
