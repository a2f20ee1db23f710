use chrono::{Local, NaiveDateTime};
use rstracer::ps::{
    local_offset_seconds, local_timestamp, parse_naive_utc, parse_unix_ctime, split_process_row,
    CTIME_FORMAT,
};

#[test]
fn process_row_cut_into_fields() {
    let row = "1234 5678 1001 Sat Dec 14 18:39:49 2024 10.5 1.2 S /bin/bash -c  'echo hi'";
    let fields = split_process_row(row).unwrap();
    assert_eq!(fields.pid, 1234);
    assert_eq!(fields.ppid, 5678);
    assert_eq!(fields.uid, 1001);
    assert_eq!(fields.start, "Sat Dec 14 18:39:49 2024");
    assert_eq!(fields.pcpu, "10.5");
    assert_eq!(fields.pmem, "1.2");
    assert_eq!(fields.status, "S");
    assert_eq!(fields.command, "/bin/bash -c 'echo hi'");
}

#[test]
fn process_row_without_command() {
    let fields = split_process_row("  1 0 0 Mon Jan  6 08:00:00 2025 0.0 0.1 Ss").unwrap();
    assert_eq!(fields.start, "Mon Jan 6 08:00:00 2025");
    assert_eq!(fields.status, "Ss");
    assert_eq!(fields.command, "");
}

#[test]
fn process_row_refused() {
    assert!(split_process_row("").is_none());
    assert!(split_process_row("1 2 3 Sat Dec 14 18:39:49 2024 1.0 2.0").is_none());
    assert!(split_process_row("x 2 3 Sat Dec 14 18:39:49 2024 1.0 2.0 S cmd").is_none());
    assert!(split_process_row("1 2 -3 Sat Dec 14 18:39:49 2024 1.0 2.0 S cmd").is_none());
    assert!(split_process_row("1 4294967296 3 Sat Dec 14 18:39:49 2024 1.0 2.0 S cmd").is_none());
}

#[test]
fn test_parse_unix_ctime() {
    let date_chunks = ["Sat", "Dec", "14", "18:39:49", "2024"];

    let expected_timestamp =
        NaiveDateTime::parse_from_str("Sat Dec 14 18:39:49 2024", "%a %b %d %H:%M:%S %Y")
            .unwrap()
            .and_local_timezone(Local)
            .unwrap()
            .timestamp();

    let parsed_timestamp = parse_unix_ctime(&date_chunks.join(" ")).unwrap();

    assert_eq!(parsed_timestamp, expected_timestamp);
}

#[test]
fn start_time_read_as_utc_and_refused() {
    assert_eq!(parse_naive_utc("Sat Dec 14 18:39:49 2024", CTIME_FORMAT), Some(1734201589));
    assert_eq!(parse_naive_utc("Thu Jan 01 00:00:00 1970", CTIME_FORMAT), Some(0));
    assert_eq!(parse_naive_utc("Sam Déc 14 18:39:49 2024", CTIME_FORMAT), None);
    assert_eq!(parse_unix_ctime("yesterday"), None);
    let local = parse_unix_ctime("Sat Dec 14 18:39:49 2024").unwrap();
    assert!((local - 1734201589).abs() < 86400);
    assert_eq!(local_timestamp(100, 3600), Some(-3500));
    assert_eq!(local_timestamp(i64::MIN, 1), None);
    let offset = local_offset_seconds(1734201589).unwrap();
    assert!(-86400 < offset && offset < 86400);
}
