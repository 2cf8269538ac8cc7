use phrase_explorer::commit::{Commit, Signature};
use phrase_explorer::parser::CommandArgs;
use phrase_explorer::search::{preview_line, scan_patch_lines, search_open, PhraseHit};
use phrase_explorer::text::{contains_phrase, decimal_string, lossy_text, trimmed_first_line};
use phrase_explorer::time::{fixed_time, utc_time_text, DateTimeValue, GitTime};

const MIN_TS: i64 = -8_334_601_228_800;
const MAX_TS: i64 = 8_210_266_876_799;

#[test]
fn contains_phrase_cases() {
    assert!(contains_phrase("reqwest::Response x", "reqwest::Response"));
    assert!(contains_phrase("abc", ""));
    assert!(contains_phrase("", ""));
    assert!(!contains_phrase("", "a"));
    assert!(!contains_phrase("ab", "abc"));
    assert!(contains_phrase("aaab", "aab"));
    assert!(contains_phrase("héllo wörld", "wö"));
    assert!(!contains_phrase("abcabd", "abe"));
}

#[test]
fn trimmed_first_line_cases() {
    assert_eq!(trimmed_first_line("  Fix bug\r\n\nDetails"), "Fix bug");
    assert_eq!(trimmed_first_line("single"), "single");
    assert_eq!(trimmed_first_line(" \n\t "), "");
    assert_eq!(trimmed_first_line("\u{3000}title\u{3000}"), "title");
    assert_eq!(trimmed_first_line("a\rb\nc"), "a\rb");
}

#[test]
fn lossy_and_decimal() {
    assert_eq!(lossy_text(b"plain"), "plain");
    assert_eq!(lossy_text(&[0x66, 0x80, 0x6f]), "f\u{FFFD}o");
    assert_eq!(decimal_string(0), "0");
    assert_eq!(decimal_string(105), "105");
    assert_eq!(decimal_string(usize::MAX), usize::MAX.to_string());
}

#[test]
fn fixed_time_offsets() {
    let ok = fixed_time(GitTime { seconds: 0, offset_minutes: 60 }).unwrap();
    assert_eq!(ok, DateTimeValue { timestamp: 0, offset_seconds: 3600 });
    assert!(fixed_time(GitTime { seconds: 0, offset_minutes: 1439 }).is_some());
    assert!(fixed_time(GitTime { seconds: 0, offset_minutes: 1440 }).is_none());
    assert!(fixed_time(GitTime { seconds: 0, offset_minutes: -1440 }).is_none());
    assert!(fixed_time(GitTime { seconds: 0, offset_minutes: i32::MAX }).is_none());
}

#[test]
fn fixed_time_timestamp_range() {
    assert!(fixed_time(GitTime { seconds: MIN_TS, offset_minutes: 0 }).is_some());
    assert!(fixed_time(GitTime { seconds: MIN_TS - 1, offset_minutes: 0 }).is_none());
    assert!(fixed_time(GitTime { seconds: MAX_TS, offset_minutes: 0 }).is_some());
    assert!(fixed_time(GitTime { seconds: MAX_TS + 1, offset_minutes: 0 }).is_none());
    assert!(utc_time_text(MIN_TS).is_some());
    assert!(utc_time_text(MIN_TS - 1).is_none());
    assert!(utc_time_text(MAX_TS).is_some());
    assert!(utc_time_text(MAX_TS + 1).is_none());
}

#[test]
fn time_texts() {
    assert_eq!(utc_time_text(0).unwrap(), "1970-01-01 00:00:00 UTC");
    let v = DateTimeValue { timestamp: 1431648000, offset_seconds: 3600 };
    assert_eq!(v.to_display_string(), "2015-05-15 01:00:00 +01:00");
    assert_eq!(v.to_utc(), DateTimeValue { timestamp: 1431648000, offset_seconds: 0 });
    assert_eq!(v.to_local(-7200), DateTimeValue { timestamp: 1431648000, offset_seconds: -7200 });
}

fn sig(name: &[u8], email: &[u8], seconds: i64, offset_minutes: i32) -> Signature {
    Signature::new(name.to_vec(), email.to_vec(), GitTime { seconds, offset_minutes })
}

#[test]
fn signature_accessors_and_text() {
    let s = sig(b"Ann", b"ann@x.org", 0, 120);
    assert_eq!(s.name(), Some("Ann"));
    assert_eq!(s.email(), Some("ann@x.org"));
    assert_eq!(s.when(), (0, 120));
    assert_eq!(s.time(), Some(DateTimeValue { timestamp: 0, offset_seconds: 7200 }));
    assert_eq!(s.time_utc(), Some(DateTimeValue { timestamp: 0, offset_seconds: 0 }));
    assert_eq!(s.to_display_string(), "[1970-01-01 02:00:00 +02:00]Ann <ann@x.org>");
    let bad = sig(&[0x41, 0xff], b"e", 0, 5000);
    assert_eq!(bad.name(), None);
    assert_eq!(bad.name_bytes(), &[0x41, 0xff]);
    assert_eq!(bad.name_lossy(), "A\u{FFFD}");
    assert_eq!(bad.email_lossy(), "e");
    assert_eq!(bad.email_bytes(), b"e");
    assert!(bad.time().is_none());
    assert!(bad.time_local(0).is_none());
    assert_eq!(s.time_local(-3600), Some(DateTimeValue { timestamp: 0, offset_seconds: -3600 }));
    assert_eq!(bad.to_display_string(), "[invalid time]A\u{FFFD} <e>");
}

#[test]
fn commit_accessors_and_text() {
    let c = Commit::new(
        "abc123".to_string(),
        b"\n  Fix the parser\n\nLonger text\n".to_vec(),
        sig(b"Ann", b"ann@x.org", 10, 0),
        sig(b"Bob", b"bob@x.org", 20, 0),
    );
    assert_eq!(c.sha(), "abc123");
    assert_eq!(c.message(), Some("\n  Fix the parser\n\nLonger text\n"));
    assert_eq!(c.message_lossy(), "\n  Fix the parser\n\nLonger text\n");
    assert_eq!(c.message_bytes(), b"\n  Fix the parser\n\nLonger text\n");
    assert_eq!(c.author().name(), Some("Ann"));
    assert_eq!(c.committer().name(), Some("Bob"));
    assert_eq!(c.when(), (20, 0));
    assert_eq!(c.time_utc(), Some(DateTimeValue { timestamp: 20, offset_seconds: 0 }));
    assert_eq!(c.time_local(60), Some(DateTimeValue { timestamp: 20, offset_seconds: 60 }));
    assert_eq!(c.when(), c.committer().when());
    assert_eq!(c.to_display_string(), "[1970-01-01 00:00:20 +00:00]Ann Fix the parser");
    let invalid = Commit::new(
        "d".to_string(),
        vec![0xc3],
        sig(b"Ann", b"a", 0, 0),
        sig(b"Ann", b"a", i64::MAX, 0),
    );
    assert_eq!(invalid.message(), None);
    assert_eq!(invalid.message_lossy(), "\u{FFFD}");
    assert!(invalid.time().is_none());
    assert_eq!(invalid.to_display_string(), "[invalid time]Ann \u{FFFD}");
}

#[test]
fn scan_finds_last_matching_line() {
    let lines = vec![
        b"let r: reqwest::Response = a;\n".to_vec(),
        b"nothing here\n".to_vec(),
        vec![0xff, b'r'],
        b"reqwest::Response again\n".to_vec(),
    ];
    let scan = scan_patch_lines(&lines, "reqwest::Response");
    assert!(scan.has_changes);
    assert_eq!(scan.matches, 2);
    assert_eq!(scan.found_phrase, "reqwest::Response again\n");
    let none = scan_patch_lines(&lines, "absent");
    assert!(!none.has_changes);
    assert_eq!(none.matches, 0);
    assert_eq!(none.found_phrase, "");
}

#[test]
fn search_stops_at_max_count() {
    assert!(!search_open(5, 5));
    assert!(!search_open(6, 5));
    assert!(search_open(4, 5));
    assert!(!search_open(0, 0));
}

#[test]
fn preview_cuts_long_lines() {
    let short = "a".repeat(200);
    assert_eq!(preview_line(&short), short);
    let long = "b".repeat(250);
    assert_eq!(preview_line(&long), format!("{}...", "b".repeat(200)));
    let mixed = format!("{}é{}", "c".repeat(198), "d".repeat(10));
    assert_eq!(preview_line(&mixed), format!("{}é...", "c".repeat(198)));
}

#[test]
fn hit_report_block() {
    let hit = PhraseHit {
        oid: "deadbeef".to_string(),
        summary: Some("Add helper".to_string()),
        line_contents: "+reqwest::Response\n".to_string(),
        seconds: 0,
    };
    assert_eq!(
        hit.report(),
        "COMMIT ID: deadbeef | COMMIT TIME: 1970-01-01 00:00:00 UTC\nCOMMIT MESSAGE: Add helper\nCOMMIT LINE CONTENTS:\n+reqwest::Response\n\n-----------------------------------------------------\n\n"
    );
    let hit2 = PhraseHit { oid: "x".to_string(), summary: None, line_contents: "l".to_string(), seconds: i64::MIN };
    assert_eq!(
        hit2.report(),
        "COMMIT MESSAGE: \nCOMMIT LINE CONTENTS:\nl\n-----------------------------------------------------\n\n"
    );
}

#[test]
fn banner_lists_settings() {
    let args = CommandArgs {
        repo_path: "/r".to_string(),
        file_path: "f.txt".to_string(),
        phrase: "p".to_string(),
        max_count: 5,
        verbose: true,
    };
    let rule = "*******************************************************";
    assert_eq!(
        args.banner(),
        format!(
            "\n{rule}\nrepo_path:            /r\nfile_path:            f.txt\nphrase:               p\nmax_count:            5\nverbose:              true\n{rule}\n\n"
        )
    );
}
