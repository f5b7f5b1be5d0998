use loghours::dates::{heading, parse_dates, within_date_range, Date, DateError, Heading};
use loghours::db::{entries_query, Config, ConfigError, Entry};
use loghours::numeral::{capitalize, convert, parse_config, write_in, ConvertError, Numeral};

fn date(year: i32, month: u32, day: u32) -> Date {
    Date { year, month, day }
}

#[test]
fn database_path_is_kept() {
    let mut config = Config::new();
    assert!(config.get_path().is_none());
    config.set_path("/var/lib/hours.db".to_string());
    assert_eq!(config.get_path(), Some("/var/lib/hours.db".to_string()));
    assert_eq!(config.path, Some("/var/lib/hours.db".to_string()));
    config.set_path("other.db".to_string());
    assert_eq!(config.get_path(), Some("other.db".to_string()));
}

#[test]
fn database_settings_are_read_from_toml() {
    let config = Config::parse("path = \"/var/lib/hours.db\"\nother = 3\n").ok().unwrap();
    assert_eq!(config.get_path(), Some("/var/lib/hours.db".to_string()));
    let config = Config::parse("path = 7\n").ok().unwrap();
    assert_eq!(config.get_path(), None);
    assert!(matches!(Config::parse("other = 3\n"), Err(ConfigError::NoPath)));
    assert!(matches!(Config::parse(""), Err(ConfigError::NoPath)));
    assert!(matches!(Config::parse("path = = 3"), Err(ConfigError::Parse(_))));
    assert!(matches!(Config::parse("path"), Err(ConfigError::Parse(_))));
}

#[test]
fn database_settings_from_an_entry() {
    let config = Config::from_entry(Entry::Text("a.db".to_string())).ok().unwrap();
    assert_eq!(config.path, Some("a.db".to_string()));
    let config = Config::from_entry(Entry::Other).ok().unwrap();
    assert_eq!(config.path, None);
    let error = Config::from_entry(Entry::Missing).err().unwrap();
    assert_eq!(error.message(), "No db path configured");
    let error = Config::parse("[[[").err().unwrap();
    assert_eq!(error.message(), "Failed to parse config");
}

#[test]
fn queries_for_each_time_frame() {
    assert_eq!(
        entries_query(false, false, false),
        "SELECT id, job, date, hours FROM entry ORDER BY date"
    );
    assert_eq!(
        entries_query(false, false, true),
        "SELECT id, job, date, hours FROM entry WHERE job LIKE @job ORDER BY date"
    );
    assert_eq!(
        entries_query(true, false, false),
        "SELECT id, job, date, hours FROM entry WHERE date >= @sdate ORDER BY date"
    );
    assert_eq!(
        entries_query(true, false, true),
        "SELECT id, job, date, hours FROM entry WHERE date >= @sdate AND job LIKE @job ORDER BY date"
    );
    assert_eq!(
        entries_query(false, true, false),
        "SELECT id, job, date, hours FROM entry WHERE date < @edate ORDER BY date"
    );
    assert_eq!(
        entries_query(false, true, true),
        "SELECT id, job, date, hours FROM entry WHERE date < @edate AND job LIKE @job ORDER BY date"
    );
    assert_eq!(
        entries_query(true, true, false),
        "SELECT id, job, date, hours FROM entry WHERE date >= @sdate AND date < @edate ORDER BY date"
    );
    assert_eq!(
        entries_query(true, true, true),
        "SELECT id, job, date, hours FROM entry WHERE date >= @sdate AND date < @edate AND job LIKE @job ORDER BY date"
    );
}

#[test]
fn dates_are_read_with_the_format() {
    let (start, end) = parse_dates(
        Some("2025-09-15".to_string()),
        Some("2025-10-01".to_string()),
        "%Y-%m-%d",
    )
    .ok()
    .unwrap();
    assert_eq!(start, Some(date(2025, 9, 15)));
    assert_eq!(end, Some(date(2025, 10, 1)));
    let (start, end) = parse_dates(None, Some("15/09/2025".to_string()), "%d/%m/%Y").ok().unwrap();
    assert_eq!(start, None);
    assert_eq!(end, Some(date(2025, 9, 15)));
    let (start, end) = parse_dates(None, None, "%Y-%m-%d").ok().unwrap();
    assert_eq!((start, end), (None, None));
}

#[test]
fn bad_dates_name_their_end() {
    let error = parse_dates(Some("2025-13-01".to_string()), None, "%Y-%m-%d").err().unwrap();
    assert!(matches!(error, DateError::Start(_)));
    assert_eq!(error.message(), "Failed to parse start date");
    let error = parse_dates(
        Some("2025-01-01".to_string()),
        Some("soon".to_string()),
        "%Y-%m-%d",
    )
    .err()
    .unwrap();
    assert!(matches!(error, DateError::End(_)));
    assert_eq!(error.message(), "Failed to parse end date");
    let error = parse_dates(Some("x".to_string()), Some("y".to_string()), "%Y-%m-%d").err().unwrap();
    assert!(matches!(error, DateError::Start(_)));
    let error = parse_dates(Some("2025-02-30".to_string()), None, "%Y-%m-%d").err().unwrap();
    assert!(matches!(error, DateError::Start(_)));
}

#[test]
fn days_are_compared_by_year_month_and_day() {
    assert!(date(2024, 12, 31).is_before(&date(2025, 1, 1)));
    assert!(date(2025, 1, 31).is_before(&date(2025, 2, 1)));
    assert!(date(2025, 2, 1).is_before(&date(2025, 2, 2)));
    assert!(!date(2025, 2, 2).is_before(&date(2025, 2, 2)));
    assert!(!date(2025, 2, 3).is_before(&date(2025, 2, 2)));
    assert!(!date(2025, 1, 1).is_before(&date(2024, 12, 31)));
    assert!(date(-1, 5, 5).is_before(&date(0, 1, 1)));
}

#[test]
fn date_range_includes_start_and_excludes_end() {
    let day = date(2025, 9, 15);
    assert!(within_date_range(day, None, None));
    assert!(within_date_range(day, Some(day), None));
    assert!(!within_date_range(date(2025, 9, 14), Some(day), None));
    assert!(within_date_range(day, None, Some(date(2025, 9, 16))));
    assert!(!within_date_range(day, None, Some(day)));
    assert!(within_date_range(day, Some(date(2025, 1, 1)), Some(date(2026, 1, 1))));
    assert!(!within_date_range(date(2026, 1, 1), Some(date(2025, 1, 1)), Some(date(2026, 1, 1))));
    assert!(!within_date_range(date(2024, 12, 31), Some(date(2025, 1, 1)), Some(date(2026, 1, 1))));
    assert!(!within_date_range(day, Some(date(2025, 10, 1)), Some(date(2025, 9, 1))));
}

#[test]
fn headings_spell_out_what_differs() {
    assert_eq!(heading(Some(date(2025, 9, 15)), Some(date(2025, 9, 30))), Heading::SameMonth);
    assert_eq!(heading(Some(date(2025, 9, 15)), Some(date(2025, 10, 15))), Heading::SameYear);
    assert_eq!(heading(Some(date(2024, 9, 15)), Some(date(2025, 9, 15))), Heading::Full);
    assert_eq!(heading(Some(date(2025, 9, 15)), None), Heading::Since);
    assert_eq!(heading(None, Some(date(2025, 9, 15))), Heading::Before);
    assert_eq!(heading(None, None), Heading::AllTime);
}

#[test]
fn numeral_names() {
    assert_eq!(Numeral::new("bin"), Numeral::Binary);
    assert_eq!(Numeral::new("binary"), Numeral::Binary);
    assert_eq!(Numeral::new("oct"), Numeral::Octal);
    assert_eq!(Numeral::new("octal"), Numeral::Octal);
    assert_eq!(Numeral::new(""), Numeral::Decimal);
    assert_eq!(Numeral::new("dec"), Numeral::Decimal);
    assert_eq!(Numeral::new("decimal"), Numeral::Decimal);
    assert_eq!(Numeral::new("hex"), Numeral::Hexadecimal);
    assert_eq!(Numeral::new("hexadecimal"), Numeral::Hexadecimal);
    assert_eq!(Numeral::new("Hex"), Numeral::Invalid);
    assert_eq!(Numeral::new("roman"), Numeral::Invalid);
}

#[test]
fn numeral_info() {
    let binary = Numeral::Binary.info().unwrap();
    assert_eq!((binary.name, binary.base), ("binary", 2));
    let octal = Numeral::Octal.info().unwrap();
    assert_eq!((octal.name, octal.base), ("octal", 8));
    let decimal = Numeral::Decimal.info().unwrap();
    assert_eq!((decimal.name, decimal.base), ("decimal", 10));
    let hex = Numeral::Hexadecimal.info().unwrap();
    assert_eq!((hex.name, hex.base), ("hexadecimal", 16));
    assert_eq!(Numeral::Invalid.info().unwrap_err(), "Invalid numeral type");
}

#[test]
fn capitalize_raises_the_first_character() {
    assert_eq!(capitalize("binary"), "Binary");
    assert_eq!(capitalize("Octal"), "Octal");
    assert_eq!(capitalize("x"), "X");
    assert_eq!(capitalize(""), "");
    assert_eq!(capitalize("\u{df}a"), "SSa");
    assert_eq!(capitalize("\u{e9}t\u{e9}"), "\u{c9}t\u{e9}");
}

#[test]
fn command_line_of_the_converter() {
    let only_name = vec!["numconv".to_string()];
    assert_eq!(parse_config(&only_name).err(), Some("Argument(s) required"));
    let number = vec!["numconv".to_string(), "42".to_string()];
    let config = parse_config(&number).ok().unwrap();
    assert_eq!(config.number, "42");
    assert_eq!(config.number_type, "decimal");
    let both = vec!["numconv".to_string(), "ff".to_string(), "hex".to_string(), "more".to_string()];
    let config = parse_config(&both).ok().unwrap();
    assert_eq!(config.number, "ff");
    assert_eq!(config.number_type, "hex");
}

fn check_written(value: i128) {
    assert_eq!(write_in(value, Numeral::Binary), Some(format!("{:b}", value)));
    assert_eq!(write_in(value, Numeral::Octal), Some(format!("{:#o}", value)));
    assert_eq!(write_in(value, Numeral::Decimal), Some(format!("{}", value)));
    assert_eq!(write_in(value, Numeral::Hexadecimal), Some(format!("{:#x}", value)));
    assert_eq!(write_in(value, Numeral::Invalid), None);
}

#[test]
fn numbers_are_written_as_the_formatter_writes_them() {
    for value in [0, 1, 2, 7, 8, 9, 10, 15, 16, 42, 255, 256, 1000, 65535, 1 << 64, i128::MAX] {
        check_written(value);
        check_written(-value);
    }
    check_written(i128::MIN);
    check_written(i128::MIN + 1);
}

#[test]
fn forty_two_in_every_numeral() {
    assert_eq!(write_in(42, Numeral::Binary), Some("101010".to_string()));
    assert_eq!(write_in(42, Numeral::Octal), Some("0o52".to_string()));
    assert_eq!(write_in(42, Numeral::Decimal), Some("42".to_string()));
    assert_eq!(write_in(42, Numeral::Hexadecimal), Some("0x2a".to_string()));
    assert_eq!(write_in(-42, Numeral::Decimal), Some("-42".to_string()));
    assert_eq!(
        write_in(-1, Numeral::Hexadecimal),
        Some("0xffffffffffffffffffffffffffffffff".to_string())
    );
}

#[test]
fn conversion_reads_then_writes() {
    assert_eq!(convert("ff", Numeral::Hexadecimal, Numeral::Decimal).ok(), Some("255".to_string()));
    assert_eq!(convert("255", Numeral::Decimal, Numeral::Binary).ok(), Some("11111111".to_string()));
    assert_eq!(convert("-17", Numeral::Octal, Numeral::Decimal).ok(), Some("-15".to_string()));
    assert_eq!(convert("+101", Numeral::Binary, Numeral::Octal).ok(), Some("0o5".to_string()));
    assert_eq!(convert("7", Numeral::Decimal, Numeral::Decimal).ok(), Some("7".to_string()));
}

#[test]
fn conversion_errors() {
    assert!(matches!(
        convert("12", Numeral::Invalid, Numeral::Decimal),
        Err(ConvertError::InvalidNumeral)
    ));
    assert!(matches!(
        convert("zz", Numeral::Invalid, Numeral::Invalid),
        Err(ConvertError::InvalidNumeral)
    ));
    assert!(matches!(
        convert("12", Numeral::Decimal, Numeral::Invalid),
        Err(ConvertError::InvalidNumeral)
    ));
    assert!(matches!(
        convert("12", Numeral::Binary, Numeral::Decimal),
        Err(ConvertError::InvalidValue(_))
    ));
    assert!(matches!(
        convert("", Numeral::Decimal, Numeral::Decimal),
        Err(ConvertError::InvalidValue(_))
    ));
    assert!(matches!(
        convert("0x10", Numeral::Hexadecimal, Numeral::Invalid),
        Err(ConvertError::InvalidValue(_))
    ));
}
