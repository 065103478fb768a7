use vulkan_base::submit::{DeferredSubmit, DeferredSubmits, DEFERRED_SUBMIT_CAPACITY};

#[test]
fn new_queue_is_empty() {
    let mut queue = DeferredSubmits::new();
    assert_eq!(queue.len(), 0);
    assert!(!queue.is_full());
    assert_eq!(queue.take(), None);
    assert!(queue.drain().is_empty());
}

#[test]
fn entries_come_out_in_the_order_queued() {
    let mut queue = DeferredSubmits::new();
    queue.deferred_submit(11);
    queue.deferred_submit(22);
    queue.deferred_submit(33);
    assert_eq!(queue.len(), 3);
    assert_eq!(queue.take(), Some(DeferredSubmit { cmd: 11 }));
    queue.deferred_submit(44);
    assert_eq!(
        queue.drain(),
        vec![
            DeferredSubmit { cmd: 22 },
            DeferredSubmit { cmd: 33 },
            DeferredSubmit { cmd: 44 }
        ]
    );
    assert_eq!(queue.len(), 0);
    assert_eq!(queue.take(), None);
}

#[test]
fn full_queue_refuses_and_keeps_what_waits() {
    let mut queue = DeferredSubmits::new();
    for cmd in 0..DEFERRED_SUBMIT_CAPACITY as u64 {
        assert!(queue.try_deferred_submit(100 + cmd));
    }
    assert!(queue.is_full());
    assert_eq!(queue.len(), 16);
    assert!(!queue.try_deferred_submit(999));
    assert_eq!(queue.len(), 16);
    assert_eq!(queue.take(), Some(DeferredSubmit { cmd: 100 }));
    assert!(queue.try_deferred_submit(999));
    let rest = queue.drain();
    assert_eq!(rest.len(), 16);
    assert_eq!(rest[0], DeferredSubmit { cmd: 101 });
    assert_eq!(rest[15], DeferredSubmit { cmd: 999 });
}
