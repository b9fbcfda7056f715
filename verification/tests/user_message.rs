use zeroclaw::agent::user_message::{enrich_user_message, format_now};

#[test]
fn enrich_without_context() {
    let out = enrich_user_message("2026-04-17 10:00:00 CEST", "hello", "");
    assert_eq!(out, "[2026-04-17 10:00:00 CEST] hello");
}

#[test]
fn enrich_with_context() {
    let out = enrich_user_message("2026-04-17 10:00:00 CEST", "hello", "## Memory\nfoo\n\n");
    assert_eq!(out, "## Memory\nfoo\n\n[2026-04-17 10:00:00 CEST] hello");
}

#[test]
fn format_now_matches_shape() {
    let s = format_now();
    // Shape: `YYYY-MM-DD HH:MM:SS <tz>`
    assert!(s.starts_with('2'), "year should start with 2, got: {s}");
    assert!(s.len() >= 19, "timestamp too short: {s:?}");
}

#[test]
fn format_now_has_fields_and_separators_in_place() {
    let s: Vec<char> = format_now().chars().collect();
    for (at, c) in [(4, '-'), (7, '-'), (10, ' '), (13, ':'), (16, ':'), (19, ' ')] {
        assert_eq!(s[at], c);
    }
    for at in [0, 1, 2, 3, 5, 6, 8, 9, 11, 12, 14, 15, 17, 18] {
        assert!(s[at].is_ascii_digit());
    }
}

#[test]
fn raw_message_ends_the_enriched_one() {
    let out = enrich_user_message("now", "what [time] is it?", "context: ");
    assert!(out.ends_with("] what [time] is it?"));
    assert_eq!(
        out,
        format!("context: {}", enrich_user_message("now", "what [time] is it?", ""))
    );
}

#[test]
fn empty_message_is_still_stamped() {
    assert_eq!(enrich_user_message("now", "", ""), "[now] ");
    assert_eq!(enrich_user_message("", "", ""), "[] ");
}

#[test]
fn format_now_is_within_the_ranges_of_its_fields() {
    let s = format_now();
    let field = |at: usize| s[at..at + 2].parse::<u32>().unwrap();
    assert!((1..=12).contains(&field(5)));
    assert!((1..=31).contains(&field(8)));
    assert!(field(11) <= 23);
    assert!(field(14) <= 59);
    assert!(field(17) <= 60);
    let zone = &s[20..];
    assert!(zone.len() == 6 || zone.len() == 9);
    assert!(zone.starts_with('+') || zone.starts_with('-'));
    assert!(field(21) <= 23);
    assert_eq!(&zone[3..4], ":");
    assert!(field(24) <= 59);
}
