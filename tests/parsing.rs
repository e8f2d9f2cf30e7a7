use fm_skin_builder::classify::{classify, Level};
use fm_skin_builder::drain::{join, line_events, tag_line};
use fm_skin_builder::events::{Event, StreamKind};
use fm_skin_builder::progress::{extract, parse_u64};

#[test]
fn error_word_in_any_case_is_error() {
    assert_eq!(classify("ERROR: boom"), Level::Error);
    assert_eq!(classify("an error happened"), Level::Error);
    assert_eq!(classify("ErRoR"), Level::Error);
}

#[test]
fn error_wins_over_warning() {
    assert_eq!(classify("WARNING and ERROR"), Level::Error);
}

#[test]
fn stderr_tag_and_glyph_are_errors() {
    assert_eq!(classify("[STDERR] something"), Level::Error);
    assert_eq!(classify("[stderr] something"), Level::Error);
    assert_eq!(classify("\u{274c} step failed"), Level::Error);
}

#[test]
fn warn_words_are_warnings() {
    assert_eq!(classify("WARN low disk"), Level::Warning);
    assert_eq!(classify("Warning: deprecated"), Level::Warning);
    assert_eq!(classify("a warning"), Level::Warning);
}

#[test]
fn plain_lines_are_info() {
    assert_eq!(classify("all good"), Level::Info);
    assert_eq!(classify(""), Level::Info);
    assert_eq!(classify("ERRO R"), Level::Info);
}

#[test]
fn extract_of_pattern_with_marker() {
    let p = extract("5 of 10 things === frobnicating").unwrap();
    assert_eq!(p.current, 5);
    assert_eq!(p.total, 10);
    assert_eq!(p.status, "5 of 10 things");
}

#[test]
fn extract_without_numbers_is_none() {
    assert!(extract("no numbers here").is_none());
}

#[test]
fn extract_without_of_is_none() {
    assert!(extract("12 a 7").is_none());
}

#[test]
fn extract_skips_bad_triples() {
    let p = extract("  x of 3 then 2 of 4  ").unwrap();
    assert_eq!((p.current, p.total), (2, 4));
    assert_eq!(p.status, "x of 3 then 2 of 4");
}

#[test]
fn extract_rejects_numbers_too_large() {
    assert!(extract("1 of 99999999999999999999").is_none());
    let p = extract("1 of 18446744073709551615").unwrap();
    assert_eq!(p.total, u64::MAX);
}

#[test]
fn extract_bundle_marker() {
    let p = extract("=== Processing bundle: ui_panels.bundle === 3 of 4").unwrap();
    assert_eq!((p.current, p.total), (0, 0));
    assert_eq!(p.status, "Processing: ui_panels.bundle");
}

#[test]
fn extract_bundle_without_close_falls_back() {
    let p = extract("=== Processing bundle: x 3 of 4").unwrap();
    assert_eq!((p.current, p.total), (3, 4));
}

#[test]
fn parse_u64_values() {
    assert_eq!(parse_u64(&"123".chars().collect()), Some(123));
    assert_eq!(parse_u64(&"".chars().collect()), None);
    assert_eq!(parse_u64(&"+1".chars().collect()), None);
    assert_eq!(parse_u64(&"18446744073709551616".chars().collect()), None);
}

#[test]
fn stderr_lines_are_tagged_and_errors() {
    assert_eq!(tag_line("hello", StreamKind::Stderr), "[STDERR] hello");
    assert_eq!(tag_line("hello", StreamKind::Stdout), "hello");
    let evs = line_events("hello", StreamKind::Stderr);
    assert_eq!(evs.len(), 1);
    match &evs[0] {
        Event::Log(l) => {
            assert_eq!(l.message, "[STDERR] hello");
            assert_eq!(l.level, Level::Error);
        }
        _ => panic!("expected a log event"),
    }
}

#[test]
fn progress_line_gives_progress_then_log() {
    let evs = line_events("2 of 8 files === copying", StreamKind::Stdout);
    assert_eq!(evs.len(), 2);
    match &evs[0] {
        Event::Progress(p) => {
            assert_eq!((p.current, p.total), (2, 8));
            assert_eq!(p.status, "2 of 8 files");
        }
        _ => panic!("expected a progress event"),
    }
    match &evs[1] {
        Event::Log(l) => {
            assert_eq!(l.message, "2 of 8 files === copying");
            assert_eq!(l.level, Level::Info);
        }
        _ => panic!("expected a log event"),
    }
}

#[test]
fn zero_total_gives_no_progress_event() {
    assert_eq!(line_events("0 of 0 done", StreamKind::Stdout).len(), 1);
    assert_eq!(line_events("=== Processing bundle: a ===", StreamKind::Stdout).len(), 1);
}

#[test]
fn join_puts_newlines_between() {
    assert_eq!(join(&vec![]), "");
    assert_eq!(join(&vec!["a".to_string()]), "a");
    assert_eq!(join(&vec!["a".to_string(), "b".to_string(), "".to_string()]), "a\nb\n");
}
