use pylogrust::entry::{default_tag_string, format_entry, make_entry, LogEntry};
use pylogrust::pipeline::{LogCore, Sink, DEFAULT_QUEUE_CAPACITY};
use pylogrust::queue::{BoundedQueue, ConsumerStep};

struct Recorder {
    seen: Vec<(String, String, String, u64)>,
    fail_every_other: bool,
}

impl Recorder {
    fn new() -> Self {
        Recorder { seen: Vec::new(), fail_every_other: false }
    }
}

impl Sink for Recorder {
    fn write(&mut self, entry: &LogEntry) -> bool {
        self.seen.push((
            entry.function_name.clone(),
            entry.error_message.clone(),
            entry.traceback.clone(),
            entry.sequence_id,
        ));
        !(self.fail_every_other && self.seen.len() % 2 == 0)
    }
}

fn entry(name: &str, seq: u64) -> LogEntry {
    make_entry(name.to_string(), "msg".to_string(), String::new(), 0, seq)
}

#[test]
fn make_entry_keeps_every_field() {
    let e = make_entry(String::new(), "a b".to_string(), "x\ny".to_string(), 42, 7);
    assert_eq!(e.function_name, "");
    assert_eq!(e.error_message, "a b");
    assert_eq!(e.traceback, "x\ny");
    assert_eq!(e.timestamp, 42);
    assert_eq!(e.sequence_id, 7);
}

#[test]
fn console_block_for_sample_entry() {
    let e = make_entry(
        "foo".to_string(),
        "ValueError: bad".to_string(),
        "line1\nline2".to_string(),
        0,
        0,
    );
    let text = format_entry(&default_tag_string(), &e);
    assert_eq!(
        text,
        "\n[PyLogRust Debug] foo\n -> Reason: ValueError: bad\n -> Traceback:\nline1\nline2"
    );
    let a = text.find("line1").unwrap();
    let b = text.find("line2").unwrap();
    assert!(a < b);
}

#[test]
fn console_block_with_empty_fields() {
    let e = make_entry(String::new(), String::new(), String::new(), 0, 0);
    assert_eq!(format_entry("t", &e), "\n[t] \n -> Reason: \n -> Traceback:\n");
}

#[test]
fn default_tag_text() {
    assert_eq!(default_tag_string(), "PyLogRust Debug");
}

#[test]
fn queue_is_fifo_and_bounded() {
    let mut q = BoundedQueue::new(2);
    assert!(q.try_enqueue(entry("a", 0)));
    assert!(q.try_enqueue(entry("b", 1)));
    assert!(!q.try_enqueue(entry("c", 2)));
    assert_eq!(q.len(), 2);
    assert_eq!(q.capacity(), 2);
    match q.next_step() {
        ConsumerStep::Deliver(e) => assert_eq!(e.function_name, "a"),
        _ => panic!("expected an entry"),
    }
    match q.next_step() {
        ConsumerStep::Deliver(e) => assert_eq!(e.function_name, "b"),
        _ => panic!("expected an entry"),
    }
    assert!(matches!(q.next_step(), ConsumerStep::Wait));
}

#[test]
fn closed_queue_rejects_and_finishes_after_remaining() {
    let mut q = BoundedQueue::new(4);
    assert!(q.try_enqueue(entry("a", 0)));
    q.close();
    q.close();
    assert!(q.is_closed());
    assert!(!q.try_enqueue(entry("b", 1)));
    assert!(matches!(q.next_step(), ConsumerStep::Deliver(_)));
    assert!(matches!(q.next_step(), ConsumerStep::Finished));
    assert!(matches!(q.next_step(), ConsumerStep::Finished));
}

#[test]
fn zero_capacity_queue_takes_nothing() {
    let mut q = BoundedQueue::new(0);
    assert!(!q.try_enqueue(entry("a", 0)));
    assert_eq!(q.len(), 0);
}

#[test]
fn sequence_ids_follow_enqueue_order() {
    let mut core = LogCore::new(DEFAULT_QUEUE_CAPACITY);
    for i in 0..3 {
        assert!(core.submit(format!("f{}", i), "m".to_string(), "t".to_string(), 5));
    }
    let mut sink = Recorder::new();
    assert_eq!(core.drain_into(&mut sink), 3);
    let ids: Vec<u64> = sink.seen.iter().map(|s| s.3).collect();
    assert_eq!(ids, vec![0, 1, 2]);
}

#[test]
fn single_producer_order_and_fields_kept() {
    let mut core = LogCore::new(16);
    let inputs = vec![
        ("alpha", "E1", "a\nb"),
        ("beta", "", ""),
        ("gamma", "E3: x", "one\ntwo\nthree"),
    ];
    for (f, m, t) in &inputs {
        assert!(core.submit(f.to_string(), m.to_string(), t.to_string(), 0));
    }
    let mut sink = Recorder::new();
    core.drain_into(&mut sink);
    assert_eq!(sink.seen.len(), 3);
    for (got, want) in sink.seen.iter().zip(inputs.iter()) {
        assert_eq!(got.0, want.0);
        assert_eq!(got.1, want.1);
        assert_eq!(got.2, want.2);
    }
}

#[test]
fn submit_returns_when_queue_is_full() {
    let mut core = LogCore::new(4);
    core.start();
    for i in 0..1000u64 {
        core.submit("f".to_string(), "m".to_string(), "t".to_string(), i);
    }
    assert_eq!(core.queued(), 4);
    assert_eq!(core.dropped(), 996);
}

#[test]
fn capacity_one_two_submits_drop_at_most_one() {
    let mut core = LogCore::new(1);
    let before = core.dropped();
    assert!(core.submit("a".to_string(), "m".to_string(), "t".to_string(), 0));
    assert!(!core.submit("b".to_string(), "m".to_string(), "t".to_string(), 0));
    assert!(core.dropped() - before <= 1);
    assert_eq!(core.dropped(), 1);
}

#[test]
fn draining_shutdown_delivers_everything() {
    let mut core = LogCore::new(64);
    assert!(core.start());
    for i in 0..10 {
        assert!(core.submit(format!("f{}", i), "m".to_string(), String::new(), 0));
    }
    assert!(core.shutdown(true));
    let mut sink = Recorder::new();
    assert_eq!(core.drain_into(&mut sink), 10);
    assert_eq!(sink.seen.len(), 10);
    assert_eq!(sink.seen[9].0, "f9");
    assert!(matches!(core.next_step(), ConsumerStep::Finished));
    assert_eq!(core.processed(), 10);
}

#[test]
fn non_draining_shutdown_does_not_wait() {
    let mut core = LogCore::new(8);
    core.start();
    core.submit("f".to_string(), "m".to_string(), "t".to_string(), 0);
    assert!(!core.shutdown(false));
    assert!(core.is_closed());
}

#[test]
fn shutdown_is_idempotent() {
    let mut core = LogCore::new(8);
    core.start();
    assert!(core.shutdown(true));
    assert!(!core.shutdown(true));
    assert!(!core.shutdown(false));
    assert!(!core.submit("f".to_string(), "m".to_string(), "t".to_string(), 0));
    assert_eq!(core.dropped(), 1);
}

#[test]
fn shutdown_before_start_does_not_wait() {
    let mut core = LogCore::new(8);
    assert!(!core.shutdown(true));
}

#[test]
fn start_is_idempotent() {
    let mut core = LogCore::new(8);
    assert!(!core.is_started());
    assert!(core.start());
    assert!(!core.start());
    assert!(core.is_started());
}

#[test]
fn sink_failures_are_counted_and_consumer_goes_on() {
    let mut core = LogCore::new(8);
    for _ in 0..4 {
        core.submit("f".to_string(), "m".to_string(), "t".to_string(), 0);
    }
    let mut sink = Recorder::new();
    sink.fail_every_other = true;
    assert_eq!(core.drain_into(&mut sink), 4);
    assert_eq!(core.sink_failures(), 2);
    assert_eq!(core.processed(), 4);
}

#[test]
fn eight_producers_no_drops_with_large_queue() {
    let mut core = LogCore::new(10_000);
    core.start();
    for i in 0..100 {
        for p in 0..8 {
            assert!(core.submit(format!("p{}", p), format!("e{}", i), String::new(), 0));
        }
    }
    assert!(core.shutdown(true));
    let mut sink = Recorder::new();
    assert_eq!(core.drain_into(&mut sink), 800);
    assert_eq!(core.processed(), 800);
    assert_eq!(core.dropped(), 0);
    for p in 0..8 {
        let mine: Vec<&String> = sink
            .seen
            .iter()
            .filter(|s| s.0 == format!("p{}", p))
            .map(|s| &s.1)
            .collect();
        let want: Vec<String> = (0..100).map(|i| format!("e{}", i)).collect();
        assert_eq!(mine.len(), 100);
        for (a, b) in mine.iter().zip(want.iter()) {
            assert_eq!(*a, b);
        }
    }
}

#[test]
fn wait_step_on_open_empty_core() {
    let mut core = LogCore::new(8);
    assert!(matches!(core.next_step(), ConsumerStep::Wait));
    core.record_write(true);
    assert_eq!(core.processed(), 1);
    assert_eq!(core.sink_failures(), 0);
}
