use bystep_launcher::crash::{crash_diagnostic, crash_excerpt, latest_report, log_tail, split_lines, LOG_TAIL_LINES};

#[test]
fn newest_text_report_wins() {
    let files = vec![
        (5u128, "crash-1.txt".to_string()),
        (9, "notes.log".to_string()),
        (7, "crash-2.txt".to_string()),
        (7, "crash-3.txt".to_string()),
        (8, ".txt".to_string()),
    ];
    assert_eq!(latest_report(&files), Some(2));
    assert_eq!(latest_report(&vec![(1, "a.log".to_string())]), None);
}

#[test]
fn long_report_is_cut() {
    let short = vec![b'x'; 5000];
    assert_eq!(crash_excerpt(&short), short);
    let long = vec![b'y'; 5001];
    let cut = crash_excerpt(&long);
    let mut expected = vec![b'y'; 5000];
    expected.extend_from_slice("...\n[Лог обрезан]".as_bytes());
    assert_eq!(cut, expected);
}

#[test]
fn lines_like_str_lines() {
    for text in ["", "a", "a\n", "a\r\nb", "a\n\nb\n", "x\r", "\n", "a\rb\r\n"] {
        let ours: Vec<Vec<u8>> = split_lines(text.as_bytes());
        let std_lines: Vec<Vec<u8>> = text.lines().map(|l| l.as_bytes().to_vec()).collect();
        assert_eq!(ours, std_lines, "text {:?}", text);
    }
}

#[test]
fn log_tail_keeps_last_lines() {
    let log: String = (1..=150).map(|i| format!("line {}\r\n", i)).collect();
    let tail = log_tail(log.as_bytes(), LOG_TAIL_LINES);
    let expected: Vec<String> = (51..=150).map(|i| format!("line {}", i)).collect();
    assert_eq!(String::from_utf8(tail).unwrap(), expected.join("\n"));
    assert_eq!(log_tail(b"one\ntwo", 5), b"one\ntwo".to_vec());
    assert!(log_tail(b"", 5).is_empty());
}

#[test]
fn report_preferred_over_log() {
    let report = b"report".to_vec();
    let log = b"a\nb".to_vec();
    assert_eq!(crash_diagnostic(Some(&report), Some(&log)), Some(b"report".to_vec()));
    assert_eq!(crash_diagnostic(None, Some(&log)), Some(b"a\nb".to_vec()));
    assert_eq!(crash_diagnostic(None, None), None);
}
