use loghours::dates::Date;
use loghours::entries::{counts_for, entry_from_line, is_white_space, split_words, EntryError};

#[test]
fn white_space_is_what_the_standard_library_calls_so() {
    for code in 0..=0x10ffff_u32 {
        if let Some(c) = char::from_u32(code) {
            assert_eq!(is_white_space(c), c.is_whitespace());
        }
    }
}

#[test]
fn words_are_parted_by_white_space() {
    for line in [
        "",
        " ",
        "acme",
        "acme 2025-09-15 3.25",
        "  acme\t2025-09-15   3.25  ",
        "\u{a0}caf\u{e9}\u{2003}2025-09-15\u{3000}1.5\n",
        "a b c d e",
        "\n\n",
        "x ",
        " x",
    ] {
        let expected: Vec<String> = line.split_whitespace().map(|word| word.to_string()).collect();
        assert_eq!(split_words(line), expected);
    }
    assert_eq!(split_words(" a  bc "), vec!["a".to_string(), "bc".to_string()]);
}

#[test]
fn log_lines_are_read() {
    let entry = entry_from_line("acme 2025-09-15 3.25".to_string(), "%Y-%m-%d").ok().unwrap().unwrap();
    assert_eq!(entry.job, "acme");
    assert_eq!(entry.date, Date { year: 2025, month: 9, day: 15 });
    assert_eq!(entry.hours, "3.25");
    let entry =
        entry_from_line("  -\t2024-02-29   0.50 extra\n".to_string(), "%Y-%m-%d").ok().unwrap().unwrap();
    assert_eq!(entry.job, "-");
    assert_eq!(entry.date, Date { year: 2024, month: 2, day: 29 });
    assert_eq!(entry.hours, "0.50");
}

#[test]
fn blank_lines_are_no_entries() {
    assert!(entry_from_line("".to_string(), "%Y-%m-%d").ok().unwrap().is_none());
    assert!(entry_from_line("  \t \n".to_string(), "%Y-%m-%d").ok().unwrap().is_none());
}

#[test]
fn broken_lines_are_errors() {
    assert!(matches!(
        entry_from_line("acme".to_string(), "%Y-%m-%d"),
        Err(EntryError::Incomplete)
    ));
    assert!(matches!(
        entry_from_line("acme 2025-09-15".to_string(), "%Y-%m-%d"),
        Err(EntryError::Incomplete)
    ));
    assert!(matches!(
        entry_from_line("acme 2025-02-30 1.0".to_string(), "%Y-%m-%d"),
        Err(EntryError::Date(_))
    ));
    assert!(matches!(
        entry_from_line("acme yesterday 1.0".to_string(), "%Y-%m-%d"),
        Err(EntryError::Date(_))
    ));
}

#[test]
fn lines_count_for_the_job_asked_for() {
    assert!(counts_for(&None, &"acme".to_string()));
    assert!(counts_for(&Some("acme".to_string()), &"acme".to_string()));
    assert!(!counts_for(&Some("acme".to_string()), &"Acme".to_string()));
    assert!(!counts_for(&Some("acme".to_string()), &"".to_string()));
}
