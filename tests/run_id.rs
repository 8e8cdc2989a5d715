use doc_previewer::errors::PreviewerError;
use doc_previewer::run_id::{extract_run_id_from_detail_url, parse_u64_chars};
use doc_previewer::text::decimal_string;

fn pattern_message(r: Result<u64, PreviewerError>) -> String {
    match r {
        Err(PreviewerError::PatternNotFound(m)) => m,
        other => panic!("expected a pattern error, got {:?}", other),
    }
}

#[test]
fn run_id_from_well_formed_url() {
    let url = "https://github.com/pandas-dev/pandas/actions/runs/7405123456/job/20154782";
    assert_eq!(extract_run_id_from_detail_url(url).unwrap(), 7405123456);
}

#[test]
fn run_id_from_short_url() {
    assert_eq!(extract_run_id_from_detail_url("https://x/actions/runs/555/job/9").unwrap(), 555);
}

#[test]
fn run_id_uses_first_marker() {
    let url = "https://x/actions/runs/12/y/actions/runs/34/";
    assert_eq!(extract_run_id_from_detail_url(url).unwrap(), 12);
}

#[test]
fn run_id_missing_marker() {
    let url = "https://github.com/pandas-dev/pandas/pull/123";
    assert_eq!(pattern_message(extract_run_id_from_detail_url(url)), format!("Run id not found in: {}", url));
}

#[test]
fn run_id_without_trailing_slash() {
    let url = "https://x/actions/runs/555";
    assert_eq!(pattern_message(extract_run_id_from_detail_url(url)), format!("Run id not found in: {}", url));
}

#[test]
fn run_id_not_numeric() {
    let url = "https://x/actions/runs/abc/job/1";
    assert_eq!(pattern_message(extract_run_id_from_detail_url(url)), format!("Run id not found in: {}", url));
}

#[test]
fn run_id_empty_segment() {
    assert!(extract_run_id_from_detail_url("https://x/actions/runs//job").is_err());
}

#[test]
fn run_id_negative_segment() {
    assert!(extract_run_id_from_detail_url("https://x/actions/runs/-5/job").is_err());
}

#[test]
fn run_id_largest_and_overflow() {
    assert_eq!(
        extract_run_id_from_detail_url("/actions/runs/18446744073709551615/").unwrap(),
        u64::MAX
    );
    assert!(extract_run_id_from_detail_url("/actions/runs/18446744073709551616/").is_err());
}

#[test]
fn run_id_with_plus_sign() {
    assert_eq!(extract_run_id_from_detail_url("/actions/runs/+42/").unwrap(), 42);
    assert!(extract_run_id_from_detail_url("/actions/runs/+/").is_err());
}

#[test]
fn parse_digits() {
    let chars: Vec<char> = "0099".chars().collect();
    assert_eq!(parse_u64_chars(&chars), Some(99));
    let chars: Vec<char> = "9a".chars().collect();
    assert_eq!(parse_u64_chars(&chars), None);
    assert_eq!(parse_u64_chars(&Vec::new()), None);
}

#[test]
fn decimal_text() {
    assert_eq!(decimal_string(0), "0");
    assert_eq!(decimal_string(7), "7");
    assert_eq!(decimal_string(10), "10");
    assert_eq!(decimal_string(12345), "12345");
    assert_eq!(decimal_string(u64::MAX), "18446744073709551615");
}
