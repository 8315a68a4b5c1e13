use pollable_pipeline::extractor::Extractor;
use pollable_pipeline::pollable_iterator::{
    PassThrough, PollableIterator, PollableTransformer, Transform,
};
use pollable_pipeline::pollable_queue::PollableQueue;

fn upper_stage() -> Transform<PollableQueue<String>, Extractor> {
    PollableQueue::new().transform_using(Extractor::new())
}

#[test]
fn test_upper_words_spec_chunks() {
    let mut stage = upper_stage();
    stage.feed(String::from("  FooBA"));
    stage.feed(String::from("R; HEL"));
    stage.feed(String::from("L"));
    stage.feed(String::from("O  Wurld WORLD"));
    stage.feed(String::from("  !!"));
    stage.close();
    let mut caps: Vec<String> = vec![];
    while let Some(w) = stage.next() {
        caps.push(w);
    }
    assert_eq!(caps, vec![String::from("HELLO"), String::from("WORLD")]);
}

#[test]
fn test_empty_closed_stage() {
    let mut q: PollableQueue<String> = PollableQueue::new();
    q.close();
    let mut stage = q.transform_using(Extractor::new());
    assert!(stage.next().is_none());
    assert!(stage.is_done());
}

#[test]
fn test_done_is_permanent() {
    let mut stage = upper_stage();
    stage.feed(String::from("HI"));
    stage.close();
    assert_eq!(stage.next(), Some(String::from("HI")));
    assert_eq!(stage.next(), None);
    assert!(stage.is_done());
    for _ in 0..3 {
        assert_eq!(stage.next(), None);
        assert!(stage.is_done());
    }
}

#[test]
fn test_feed_after_close_rejected() {
    let mut stage = upper_stage();
    stage.feed(String::from("AB"));
    stage.close();
    assert!(!stage.try_feed(String::from("CD")));
    assert!(!stage.try_feed(String::from("EF")));
    let mut caps: Vec<String> = vec![];
    while let Some(w) = stage.next() {
        caps.push(w);
    }
    assert_eq!(caps, vec![String::from("AB")]);
}

#[test]
fn test_close_is_idempotent() {
    let mut once = upper_stage();
    let mut twice = upper_stage();
    for chunk in ["GOOD bad ", "DAY"] {
        once.feed(String::from(chunk));
        twice.feed(String::from(chunk));
    }
    once.close();
    twice.close();
    twice.close();
    let mut from_once: Vec<String> = vec![];
    while let Some(w) = once.next() {
        from_once.push(w);
    }
    let mut from_twice: Vec<String> = vec![];
    while let Some(w) = twice.next() {
        from_twice.push(w);
    }
    assert_eq!(from_once, vec![String::from("GOOD"), String::from("DAY")]);
    assert_eq!(from_once, from_twice);
    assert_eq!(once.is_done(), twice.is_done());
}

#[test]
fn test_finalize_drains_buffered_words() {
    let mut stage = upper_stage();
    stage.feed(String::from("AB CD EF"));
    stage.close();
    assert_eq!(stage.next(), Some(String::from("AB")));
    assert!(!stage.is_done());
    assert_eq!(stage.next(), Some(String::from("CD")));
    assert!(!stage.is_done());
    assert_eq!(stage.next(), Some(String::from("EF")));
    assert!(!stage.is_done());
    assert_eq!(stage.next(), None);
    assert!(stage.is_done());
}

#[test]
fn test_flush_continues_across_close() {
    let mut stage = upper_stage();
    stage.feed(String::from("AB CD EF"));
    assert_eq!(stage.next(), Some(String::from("AB")));
    stage.close();
    assert_eq!(stage.next(), Some(String::from("CD")));
    assert_eq!(stage.next(), Some(String::from("EF")));
    assert_eq!(stage.next(), None);
    assert!(stage.is_done());
}

#[test]
fn test_pass_through_keeps_order() {
    let mut stage = PollableQueue::new().transform_using(PassThrough::<u64>::new());
    stage.feed(1);
    stage.feed(2);
    stage.feed(3);
    stage.close();
    assert_eq!(stage.next(), Some(1));
    assert_eq!(stage.next(), Some(2));
    assert_eq!(stage.next(), Some(3));
    assert_eq!(stage.next(), None);
    assert!(stage.is_done());
}

#[test]
fn test_poll_before_close_is_not_done() {
    let mut stage = upper_stage();
    stage.feed(String::from("lower only"));
    assert_eq!(stage.next(), None);
    assert!(!stage.is_done());
    stage.feed(String::from(" UP "));
    assert_eq!(stage.next(), Some(String::from("UP")));
    assert_eq!(stage.next(), None);
    assert!(!stage.is_done());
}

#[test]
fn test_lowercase_discards_partial_word() {
    let mut stage = upper_stage();
    stage.feed(String::from("ABc D"));
    stage.close();
    assert_eq!(stage.next(), Some(String::from("D")));
    assert_eq!(stage.next(), None);
    assert!(stage.is_done());
}
