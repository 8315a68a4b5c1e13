use pollable_pipeline::extractor::Extractor;
use pollable_pipeline::pollable_iterator::{PollableIterator, PollableTransformer, Transform};
use pollable_pipeline::pollable_queue::PollableQueue;

fn make_upper_extractor() -> Transform<PollableQueue<String>, Extractor> {
    PollableQueue::new().transform_using(Extractor::new())
}

fn drain_into(stage: &mut Transform<PollableQueue<String>, Extractor>, caps: &mut Vec<String>) {
    while let Some(w) = stage.next() {
        caps.push(w);
    }
}

#[test]
fn test_extractor() {
    let mut extractor = Extractor::new();
    extractor.process('H');
    assert!(extractor.pop().is_none());
    extractor.process('I');
    extractor.finalize();
    assert_eq!(extractor.pop(), Some(String::from("HI")))
}

#[test]
fn test_upper_extractor() {
    let n = 7;
    let rest: Vec<String> = (0..n).map(|i| format!("{i}")).collect();
    let mut extractor = make_upper_extractor();
    let mut caps: Vec<String> = vec![];
    extractor.extend(vec![
        String::from("  Fo"),
        String::from("oBA"),
        String::from("R; HEL"),
        String::from("L"),
        String::from("O  Wurld WORLD"),
        String::from("  !!"),
    ]);
    drain_into(&mut extractor, &mut caps);
    extractor.extend(rest);
    drain_into(&mut extractor, &mut caps);
    extractor.close();
    drain_into(&mut extractor, &mut caps);
    assert_eq!(caps, vec![String::from("HELLO"), String::from("WORLD")]);
}

#[test]
fn test_end() {
    let mut extractor = make_upper_extractor();
    extractor.feed(String::from("HI"));
    extractor.close();
    let mut result: Vec<String> = vec![];
    drain_into(&mut extractor, &mut result);
    assert_eq!(result, [String::from("HI")]);
}

#[test]
fn test_transform_iter() {
    let mut extractor = make_upper_extractor();
    let mut caps: Vec<String> = vec![];
    caps.extend(extractor.transform_iter(vec![
        String::from("  Fo"),
        String::from("oBA"),
        String::from("R; HEL"),
    ]));
    assert!(caps.is_empty());
    caps.extend(extractor.transform_iter(vec![
        String::from("L"),
        String::from("O  Wurld WORLD"),
    ]));
    assert_eq!(caps, vec![String::from("HELLO")]);
    extractor.feed(String::from(" !!"));
    extractor.close();
    drain_into(&mut extractor, &mut caps);
    assert_eq!(caps, vec![String::from("HELLO"), String::from("WORLD")]);
}

#[test]
fn test_queue_is_fifo() {
    let mut q: PollableQueue<u64> = PollableQueue::new();
    q.push(10);
    q.push(20);
    q.push(30);
    assert_eq!(q.next(), Some(10));
    assert_eq!(q.next(), Some(20));
    q.push(40);
    assert_eq!(q.next(), Some(30));
    assert_eq!(q.next(), Some(40));
    assert_eq!(q.next(), None);
    assert!(!q.is_done());
    q.close();
    assert!(q.is_done());
}

#[test]
fn test_queue_close_keeps_buffer() {
    let mut q: PollableQueue<u64> = PollableQueue::new();
    q.push(1);
    q.push(2);
    q.close();
    assert!(q.closed());
    assert!(!q.is_done());
    assert_eq!(q.next(), Some(1));
    assert_eq!(q.next(), Some(2));
    assert!(q.is_done());
    assert_eq!(q.next(), None);
    assert!(q.is_done());
}

#[test]
fn test_queue_try_push_after_close() {
    let mut q: PollableQueue<u64> = PollableQueue::new();
    assert!(q.try_push(7));
    q.close();
    assert!(!q.try_push(8));
    assert!(!q.try_push(9));
    assert_eq!(q.next(), Some(7));
    assert_eq!(q.next(), None);
    assert!(q.is_done());
}
