use rstracer::journal::{journal_pattern, read_journal_line, JournalLine};

#[test]
fn journal_line_read() {
    let pattern = journal_pattern().unwrap();
    let line = "1734127260.194694 lpt01 sudo[48119]: pam_unix(sudo:session): session opened for user root(uid=0) by (uid=1000)";
    match read_journal_line(&pattern, line) {
        JournalLine::Read(f) => {
            assert_eq!(f.timestamp, "1734127260.194694");
            assert_eq!(f.hostname, "lpt01");
            assert_eq!(f.command, "sudo");
            assert_eq!(f.pid, 48119);
            assert_eq!(
                f.message,
                "pam_unix(sudo:session): session opened for user root(uid=0) by (uid=1000)"
            );
            let timestamp: f64 = f.timestamp.parse().unwrap();
            assert_eq!(timestamp, 1734127260.194694);
        }
        other => panic!("unexpected {:?}", other),
    }
}

#[test]
fn journal_line_unmatched_or_bad_pid() {
    let pattern = journal_pattern().unwrap();
    assert!(matches!(read_journal_line(&pattern, "-- Boot 1 --"), JournalLine::Unmatched));
    assert!(matches!(
        read_journal_line(&pattern, "1.5 host cmd[99999999999]: hello"),
        JournalLine::BadPid
    ));
}
