use pollable_pipeline::pollable_iterator::{PassThrough, PollableIterator, PollableTransformer};
use pollable_pipeline::pollable_queue::PollableQueue;
use pollable_pipeline::verbose_logging::VerboseLoggingBackend;

#[test]
fn test_queue_from_vec() {
    let mut q = PollableQueue::from_vec(vec![5u64, 6, 7]);
    assert!(!q.closed());
    assert_eq!(q.next(), Some(5));
    assert_eq!(q.next(), Some(6));
    assert_eq!(q.next(), Some(7));
    assert_eq!(q.next(), None);
}

#[test]
fn test_queue_default_is_empty_and_open() {
    let mut q: PollableQueue<u64> = PollableQueue::default();
    assert!(!q.closed());
    assert!(!q.is_done());
    assert_eq!(q.next(), None);
}

#[test]
fn test_pass_through_transform_iter() {
    let mut stage = PollableQueue::new().transform_using(PassThrough::<u64>::new());
    let outs = stage.transform_iter(vec![4, 5, 6]);
    assert_eq!(outs, vec![4, 5, 6]);
    assert!(!stage.is_done());
    stage.close();
    assert_eq!(stage.next(), None);
    assert!(stage.is_done());
}

#[test]
fn test_pass_through_interleaved_feed_and_poll() {
    let mut stage = PollableQueue::new().transform_using(PassThrough::<u64>::new());
    stage.feed(1);
    assert_eq!(stage.next(), Some(1));
    assert_eq!(stage.next(), None);
    assert!(!stage.is_done());
    stage.feed(2);
    stage.feed(3);
    assert_eq!(stage.next(), Some(2));
    stage.close();
    assert_eq!(stage.next(), Some(3));
    assert_eq!(stage.next(), None);
    assert!(stage.is_done());
}

#[test]
fn test_logging_backend_variants_are_distinct() {
    let backends = [
        VerboseLoggingBackend::Noop,
        VerboseLoggingBackend::Println,
        VerboseLoggingBackend::EPrintln,
    ];
    for (i, a) in backends.iter().enumerate() {
        for (j, b) in backends.iter().enumerate() {
            assert_eq!(i == j, a == b);
        }
    }
}
