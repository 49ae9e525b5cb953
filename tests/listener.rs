use loadgen::listener::{
    fold_delay, message_delay, parse_timestamps, Listener, MalformedTimestamp, Message, PollOutcome,
    Report,
};

fn msg(id: &str, timestamp: &str) -> Message {
    Message { id: id.to_string(), timestamp: timestamp.to_string() }
}

#[test]
fn new_listener_starts_at_sentinel() {
    let l = Listener::new(3, "doc-1".to_string());
    assert_eq!(l.index, 3);
    assert_eq!(l.stream, "doc-1");
    assert_eq!(l.cursor, "0");
    assert_eq!(l.avg_delay, 0);
    assert_eq!(l.num_loops, 1);
}

#[test]
fn poll_request_carries_stream_and_cursor() {
    let mut l = Listener::new(0, "doc-4".to_string());
    l.cursor = "17".to_string();
    let req = l.poll_request("http://localhost:3000");
    assert_eq!(req.endpoint, "http://localhost:3000/messages");
    assert_eq!(req.stream, "doc-4");
    assert_eq!(req.version, "17");
}

#[test]
fn fold_single_message_at_first_poll() {
    assert_eq!(fold_delay(0, 50, 1), 50);
}

#[test]
fn fold_second_message_same_poll_uses_same_divisor() {
    let after_first = fold_delay(0, 50, 1);
    assert_eq!(fold_delay(after_first, 150, 1), 200);
}

#[test]
fn fold_divides_by_poll_number() {
    assert_eq!(fold_delay(10, 20, 3), 10);
    assert_eq!(fold_delay(7, 0, 2), 3);
}

#[test]
fn fold_saturates_instead_of_overflowing() {
    assert_eq!(fold_delay(u64::MAX, u64::MAX, 1), u64::MAX);
    assert_eq!(fold_delay(u64::MAX, u64::MAX, 2), u64::MAX);
}

#[test]
fn delay_is_difference_or_zero() {
    assert_eq!(message_delay(1050, 1000), 50);
    assert_eq!(message_delay(1000, 1050), 0);
}

#[test]
fn two_messages_in_one_poll_fold_in_order() {
    let mut l = Listener::new(0, "doc-0".to_string());
    let msgs = vec![msg("1", "1000"), msg("2", "1000")];
    let received = vec![1050, 1150];
    let r = l.record_messages(&msgs, &received);
    assert_eq!(r, Ok(None));
    assert_eq!(l.avg_delay, 200);
    assert_eq!(l.cursor, "2");
    assert_eq!(l.num_loops, 2);
}

#[test]
fn nonempty_poll_moves_cursor_to_last_id() {
    let mut l = Listener::new(0, "doc-0".to_string());
    let msgs = vec![msg("5", "10"), msg("9", "10"), msg("7", "10")];
    l.record_messages(&msgs, &vec![10, 10, 10]).unwrap();
    assert_eq!(l.cursor, "7");
}

#[test]
fn empty_poll_keeps_cursor_and_estimate() {
    let mut l = Listener::new(0, "doc-0".to_string());
    l.cursor = "4".to_string();
    l.avg_delay = 33;
    let r = l.record_messages(&vec![], &vec![]);
    assert_eq!(r, Ok(None));
    assert_eq!(l.cursor, "4");
    assert_eq!(l.avg_delay, 33);
    assert_eq!(l.num_loops, 2);
}

#[test]
fn transport_failure_is_noop_but_counts() {
    let mut l = Listener::new(0, "doc-0".to_string());
    l.cursor = "12".to_string();
    l.avg_delay = 40;
    let r = l.apply(&PollOutcome::TransportFailure, &vec![]);
    assert_eq!(r, Ok(None));
    assert_eq!(l.cursor, "12");
    assert_eq!(l.avg_delay, 40);
    assert_eq!(l.num_loops, 2);
}

#[test]
fn decode_failure_is_noop_but_counts() {
    let mut l = Listener::new(0, "doc-0".to_string());
    l.cursor = "12".to_string();
    l.avg_delay = 40;
    l.num_loops = 5;
    let r = l.apply(&PollOutcome::DecodeFailure, &vec![]);
    assert_eq!(r, Ok(None));
    assert_eq!(l.cursor, "12");
    assert_eq!(l.avg_delay, 40);
    assert_eq!(l.num_loops, 6);
}

#[test]
fn report_due_on_tenth_poll_not_eleventh() {
    let mut l = Listener::new(2, "doc-0".to_string());
    l.num_loops = 9;
    l.avg_delay = 8;
    assert_eq!(l.record_failure(), None);
    assert_eq!(l.num_loops, 10);
    let r = l.apply(&PollOutcome::Received(vec![msg("3", "100")]), &vec![120]);
    assert_eq!(r, Ok(Some(Report { index: 2, polls: 10, avg_delay: 2 })));
    assert_eq!(l.num_loops, 11);
    assert_eq!(l.record_failure(), None);
}

#[test]
fn report_also_due_after_failed_poll() {
    let mut l = Listener::new(1, "doc-0".to_string());
    l.num_loops = 20;
    l.avg_delay = 5;
    let r = l.apply(&PollOutcome::TransportFailure, &vec![]);
    assert_eq!(r, Ok(Some(Report { index: 1, polls: 20, avg_delay: 5 })));
}

#[test]
fn report_text_matches_console_line() {
    let r = Report { index: 4, polls: 30, avg_delay: 125 };
    assert_eq!(r.text(), "Average delay for listener 4 after 30 polls: 125");
}

#[test]
fn malformed_timestamp_leaves_listener_unchanged() {
    let mut l = Listener::new(0, "doc-0".to_string());
    l.avg_delay = 9;
    let msgs = vec![msg("1", "100"), msg("2", "soon"), msg("3", "-5")];
    let r = l.record_messages(&msgs, &vec![200, 200, 200]);
    assert_eq!(r, Err(MalformedTimestamp { position: 1 }));
    assert_eq!(l.cursor, "0");
    assert_eq!(l.avg_delay, 9);
    assert_eq!(l.num_loops, 1);
}

#[test]
fn parse_timestamps_reads_each() {
    let msgs = vec![msg("a", "0"), msg("b", "+42"), msg("c", "18446744073709551615")];
    assert_eq!(parse_timestamps(&msgs), Ok(vec![0, 42, u64::MAX]));
}

#[test]
fn parse_timestamps_rejects_overflow_and_empty() {
    assert_eq!(
        parse_timestamps(&vec![msg("a", "18446744073709551616")]),
        Err(MalformedTimestamp { position: 0 })
    );
    assert_eq!(
        parse_timestamps(&vec![msg("a", "1"), msg("b", "")]),
        Err(MalformedTimestamp { position: 1 })
    );
}
