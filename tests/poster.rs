use loadgen::listener::{Listener, PollOutcome};
use loadgen::poster::Poster;
use loadgen::text::{append_endpoint, poll_endpoint, stream_name};

#[test]
fn poster_body_renders_version_and_stamp() {
    let mut p = Poster::new("doc-3".to_string());
    p.version = 42;
    let body = p.append_body(1700000000123);
    assert_eq!(body.stream, "doc-3");
    assert_eq!(body.id, "42");
    assert_eq!(body.message.id, "42");
    assert_eq!(body.message.timestamp, "1700000000123");
}

#[test]
fn poster_counts_every_attempt() {
    let mut p = Poster::new("doc-0".to_string());
    let mut ids: Vec<String> = Vec::new();
    for k in 0..25u64 {
        assert_eq!(p.version, k);
        ids.push(p.append_body(k).id);
        p.advance();
    }
    assert_eq!(p.version, 25);
    let mut sorted = ids.clone();
    sorted.sort();
    sorted.dedup();
    assert_eq!(sorted.len(), 25);
}

#[test]
fn endpoints_and_stream_names() {
    assert_eq!(poll_endpoint("http://h:1"), "http://h:1/messages");
    assert_eq!(append_endpoint("http://h:1"), "http://h:1/message");
    assert_eq!(stream_name(0), "doc-0");
    assert_eq!(stream_name(907), "doc-907");
}

#[test]
fn echoed_messages_drive_listener() {
    let latency: u64 = 10;
    let mut p = Poster::new(stream_name(0));
    let mut l = Listener::new(0, stream_name(0));
    let mut clock: u64 = 1_000;
    for _ in 0..3 {
        let body = p.append_body(clock);
        p.advance();
        let received = vec![clock + latency];
        let r = l.apply(&PollOutcome::Received(vec![body.message]), &received);
        assert!(r.is_ok());
        assert_eq!(l.cursor, (p.version - 1).to_string());
        clock += 100;
    }
    assert_eq!(l.cursor, "2");
    assert_eq!(l.num_loops, 4);
    // (0+10)/1 = 10, (10+10)/2 = 10, (10+10)/3 = 6
    assert_eq!(l.avg_delay, 6);
}
