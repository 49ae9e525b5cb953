use loadgen::clock::{millis_since_epoch, now};
use loadgen::config::{count_or_default, default_base_url, Config};

#[test]
fn defaults_when_missing() {
    let c = Config::from_values(None, None, None, None);
    assert_eq!(c.base_url, "http://localhost:3000");
    assert_eq!(c.num_docs, 10);
    assert_eq!(c.num_listeners, 100);
    assert_eq!(c.num_posters, 100);
    assert_eq!(default_base_url(), "http://localhost:3000");
}

#[test]
fn each_setting_falls_back_on_its_own() {
    let c = Config::from_values(
        Some("http://example:8080".to_string()),
        Some("1".to_string()),
        Some("many".to_string()),
        Some("-3".to_string()),
    );
    assert_eq!(c.base_url, "http://example:8080");
    assert_eq!(c.num_docs, 1);
    assert_eq!(c.num_listeners, 100);
    assert_eq!(c.num_posters, 100);
}

#[test]
fn count_parsing_edges() {
    assert_eq!(count_or_default(Some("0".to_string()), 7), 0);
    assert_eq!(count_or_default(Some("".to_string()), 7), 7);
    assert_eq!(count_or_default(Some(" 5".to_string()), 7), 7);
    assert_eq!(count_or_default(Some("+5".to_string()), 7), 5);
    assert_eq!(count_or_default(Some("18446744073709551616".to_string()), 7), 7);
    assert_eq!(count_or_default(None, 7), 7);
}

#[test]
fn streams_drawn_among_documents() {
    let c = Config::from_values(None, Some("3".to_string()), Some("4".to_string()), Some("2".to_string()));
    for _ in 0..50 {
        let s = c.assign_stream().unwrap();
        assert!(s == "doc-0" || s == "doc-1" || s == "doc-2");
    }
    let ls = c.listeners().unwrap();
    assert_eq!(ls.len(), 4);
    for (i, l) in ls.iter().enumerate() {
        assert_eq!(l.index, i as u64);
        assert_eq!(l.cursor, "0");
        assert_eq!(l.num_loops, 1);
    }
    let ps = c.posters().unwrap();
    assert_eq!(ps.len(), 2);
    assert!(ps.iter().all(|p| p.version == 0));
}

#[test]
fn single_document_run() {
    let c = Config::from_values(None, Some("1".to_string()), Some("1".to_string()), Some("1".to_string()));
    assert_eq!(c.listeners().unwrap()[0].stream, "doc-0");
    assert_eq!(c.posters().unwrap()[0].stream, "doc-0");
}

#[test]
fn no_documents_gives_no_workers() {
    let c = Config::from_values(None, Some("0".to_string()), Some("2".to_string()), Some("0".to_string()));
    assert!(c.assign_stream().is_none());
    assert!(c.listeners().is_none());
    assert_eq!(c.posters().unwrap().len(), 0);
}

#[test]
fn millis_from_seconds_and_nanos() {
    assert_eq!(millis_since_epoch(1, 999_999_999), Some(1999));
    assert_eq!(millis_since_epoch(0, 0), Some(0));
    assert_eq!(millis_since_epoch(u64::MAX, 0), None);
    assert_eq!(millis_since_epoch(u64::MAX / 1000, 0), Some(u64::MAX / 1000 * 1000));
}

#[test]
fn clock_reads_after_epoch() {
    let t = now().unwrap();
    assert!(t > 1_500_000_000_000);
}
