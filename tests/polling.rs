use feed_watch::config::{PollConfig, SortMode, DEFAULT_INTERVAL_SECS};
use feed_watch::entry::Entry;
use feed_watch::fetch::{fetch_result, FetchError, PayloadError, Response};
use feed_watch::poll::{Poller, TickAction, Termination};
use feed_watch::text::decimal_text;
use feed_watch::timestamp::{check_created_secs, TimestampError, MAX_TIMESTAMP};

fn entry(id: &str) -> Entry {
    Entry::new(id.to_string(), Some(format!("title {}", id)), 1_700_000_000, &format!("/r/rust/comments/{}/", id))
}

fn reported_ids(action: TickAction) -> Vec<String> {
    match action {
        TickAction::Report(es) => es.into_iter().map(|e| e.identity).collect(),
        TickAction::Stop => panic!("expected a report"),
    }
}

fn args(items: &[&str]) -> Vec<String> {
    items.iter().map(|s| s.to_string()).collect()
}

#[test]
fn two_ticks_report_only_new_entries() {
    let mut p = Poller::new();
    let first = p.tick(Ok(vec![entry("a"), entry("b")]));
    assert_eq!(reported_ids(first), vec!["a", "b"]);
    let second = p.tick(Ok(vec![entry("a"), entry("b"), entry("c")]));
    assert_eq!(reported_ids(second), vec!["c"]);
    assert!(p.is_running());
    assert_eq!(p.seen_count(), 3);
}

#[test]
fn seen_identity_not_reported_in_later_ticks() {
    let mut p = Poller::new();
    assert_eq!(reported_ids(p.tick(Ok(vec![entry("x")]))), vec!["x"]);
    for _ in 0..3 {
        assert!(reported_ids(p.tick(Ok(vec![entry("x")]))).is_empty());
        assert!(p.has_seen(&"x".to_string()));
    }
    assert_eq!(p.seen_count(), 1);
}

#[test]
fn duplicate_within_one_snapshot_reported_once() {
    let mut p = Poller::new();
    let ids = reported_ids(p.tick(Ok(vec![entry("a"), entry("b"), entry("a"), entry("c")])));
    assert_eq!(ids, vec!["a", "b", "c"]);
    assert!(!p.has_seen(&"d".to_string()));
}

#[test]
fn empty_feed_stops_the_loop() {
    let mut p = Poller::new();
    let fetched = fetch_result(Response::Success(Ok(vec![])));
    assert!(fetched.is_ok());
    assert!(matches!(p.tick(fetched), TickAction::Stop));
    assert!(!p.is_running());
    assert!(matches!(p.termination(), Some(Termination::EmptyFeed)));
}

#[test]
fn fetch_error_stops_the_loop_and_keeps_seen() {
    let mut p = Poller::new();
    reported_ids(p.tick(Ok(vec![entry("a")])));
    let fetched = fetch_result(Response::Transport(Some("connection refused".to_string())));
    assert!(matches!(p.tick(fetched), TickAction::Stop));
    match p.termination() {
        Some(Termination::Fetch(e)) => assert_eq!(e.message(), "Network error: connection refused"),
        other => panic!("unexpected {:?}", other),
    }
    assert_eq!(p.seen_count(), 1);
}

#[test]
fn rate_limited_status_names_code_and_reason() {
    let r = fetch_result(Response::Status(429, Some("rate limited".to_string())));
    let e = r.unwrap_err();
    assert!(matches!(e, FetchError::Http(429, _)));
    let m = e.message();
    assert!(m.contains("429"));
    assert!(m.contains("rate limited"));
    assert_eq!(m, "HTTP Error 429 - rate limited");
}

#[test]
fn status_without_reason_uses_fallback() {
    let e = fetch_result(Response::Status(500, None)).unwrap_err();
    match &e {
        FetchError::Http(code, reason) => {
            assert_eq!(*code, 500);
            assert_eq!(reason, "Unknown reason");
        }
        other => panic!("unexpected {:?}", other),
    }
    assert_eq!(e.message(), "HTTP Error 500 - Unknown reason");
}

#[test]
fn error_messages_for_each_variant() {
    assert_eq!(FetchError::Network(None).message(), "Unknown network error occurred.");
    assert_eq!(FetchError::Malformed(PayloadError::Syntax).message(), "Syntax error in JSON");
    assert_eq!(
        FetchError::Malformed(PayloadError::Shape).message(),
        "JSON structure does not match expected type"
    );
    assert_eq!(
        FetchError::Malformed(PayloadError::Other("eof".to_string())).message(),
        "Unknown JSON error: eof"
    );
    let malformed = fetch_result(Response::Success(Err(PayloadError::Syntax))).unwrap_err();
    assert!(matches!(malformed, FetchError::Malformed(PayloadError::Syntax)));
}

#[test]
fn negative_creation_time_fails_for_that_entry_only() {
    let bad = Entry::new("n".to_string(), Some("neg".to_string()), -5, "/p/n/");
    assert_eq!(bad.created_datetime(), Err(TimestampError::Negative));
    assert_eq!(TimestampError::Negative.message(), "Invalid timestamp: before the Unix epoch");
    let mut p = Poller::new();
    let action = p.tick(Ok(vec![bad, entry("ok")]));
    match action {
        TickAction::Report(es) => {
            assert_eq!(es.len(), 2);
            assert_eq!(es[0].title, "neg");
            assert_eq!(es[0].target_url, "https://www.reddit.com/p/n/");
            assert!(es[0].created_datetime().is_err());
            assert_eq!(es[1].created_datetime(), Ok(1_700_000_000));
        }
        TickAction::Stop => panic!("expected a report"),
    }
    assert!(p.is_running());
    assert_eq!(reported_ids(p.tick(Ok(vec![entry("next")]))), vec!["next"]);
}

#[test]
fn creation_time_range_edges() {
    assert_eq!(check_created_secs(0), Ok(0));
    assert_eq!(check_created_secs(MAX_TIMESTAMP), Ok(MAX_TIMESTAMP));
    assert_eq!(check_created_secs(MAX_TIMESTAMP + 1), Err(TimestampError::OutOfRange));
    assert_eq!(check_created_secs(i64::MAX), Err(TimestampError::OutOfRange));
    assert_eq!(check_created_secs(i64::MIN), Err(TimestampError::Negative));
}

#[test]
fn bogus_sort_falls_back_to_hot() {
    let c = PollConfig::parse_arguments(&args(&["prog", "rust", "bogus"]));
    assert_eq!(c.sort, SortMode::Hot);
    assert_eq!(c.rejected_sort.as_deref(), Some("bogus"));
    let url = c.request_url();
    assert!(url.contains("/hot/"));
    assert_eq!(url, "https://www.reddit.com/r/rust/hot/.json");
}

#[test]
fn defaults_without_arguments() {
    let c = PollConfig::parse_arguments(&args(&["prog"]));
    assert_eq!(c.target, "rust");
    assert_eq!(c.sort, SortMode::Hot);
    assert_eq!(c.interval_secs, DEFAULT_INTERVAL_SECS);
    assert_eq!(c.interval_secs, 60);
    assert!(c.rejected_sort.is_none());
}

#[test]
fn all_arguments_given() {
    let c = PollConfig::parse_arguments(&args(&["prog", "programming", "controversial", "15"]));
    assert_eq!(c.target, "programming");
    assert_eq!(c.sort, SortMode::Controversial);
    assert_eq!(c.interval_secs, 15);
    assert_eq!(c.request_url(), "https://www.reddit.com/r/programming/controversial/.json");
    for (name, mode) in [("new", SortMode::New), ("top", SortMode::Top), ("rising", SortMode::Rising)] {
        let c = PollConfig::parse_arguments(&args(&["prog", "x", name, "0"]));
        assert_eq!(c.sort, mode);
        assert_eq!(c.interval_secs, 0);
        assert_eq!(c.sort.as_str(), name);
    }
}

#[test]
fn interval_that_is_not_a_number_uses_default() {
    for bad in ["abc", "", "-5", "+", "18446744073709551616", " 5"] {
        let c = PollConfig::parse_arguments(&args(&["prog", "rust", "new", bad]));
        assert_eq!(c.interval_secs, 60, "input {:?}", bad);
    }
    let c = PollConfig::parse_arguments(&args(&["prog", "rust", "new", "+7"]));
    assert_eq!(c.interval_secs, 7);
    let c = PollConfig::parse_arguments(&args(&["prog", "rust", "new", "18446744073709551615"]));
    assert_eq!(c.interval_secs, u64::MAX);
}

#[test]
fn entry_defaults_and_url() {
    let e = Entry::new("id1".to_string(), None, 3, "/r/rust/comments/id1/t/");
    assert_eq!(e.title, "(untitled)");
    assert_eq!(e.target_url, "https://www.reddit.com/r/rust/comments/id1/t/");
    assert_eq!(e.identity, "id1");
    assert_eq!(e.created_secs, 3);
}

#[test]
fn decimal_rendering() {
    assert_eq!(decimal_text(0), "0");
    assert_eq!(decimal_text(7), "7");
    assert_eq!(decimal_text(10), "10");
    assert_eq!(decimal_text(65535), "65535");
    assert_eq!(decimal_text(u64::MAX), "18446744073709551615");
}
