use ftp_suite::command::parse_command;
use ftp_suite::session::SessionEvent;
use ftp_suite::transfers::Direction;

#[test]
fn user_and_pass_lines() {
    assert!(matches!(parse_command("USER alice", 0), SessionEvent::User(u) if u == "alice"));
    assert!(matches!(parse_command("pass s3cr3t", 0), SessionEvent::Pass(p) if p == "s3cr3t"));
    assert!(matches!(parse_command("USER ünï", 0), SessionEvent::User(u) if u == "ünï"));
}

#[test]
fn transfer_lines() {
    match parse_command("STOR /x.txt", 42) {
        SessionEvent::Transfer { direction, path, declared_bytes, started_at } => {
            assert_eq!(declared_bytes, None);
            assert_eq!(direction, Direction::Upload);
            assert_eq!(path, "/x.txt");
            assert_eq!(started_at, 42);
        }
        _ => panic!("expected a transfer"),
    }
    match parse_command("Retr /a b", 7) {
        SessionEvent::Transfer { direction, path, declared_bytes, started_at } => {
            assert_eq!(declared_bytes, None);
            assert_eq!(direction, Direction::Download);
            assert_eq!(path, "/a b");
            assert_eq!(started_at, 7);
        }
        _ => panic!("expected a transfer"),
    }
}

#[test]
fn bare_and_tls_lines() {
    assert!(matches!(parse_command("AUTH TLS", 0), SessionEvent::RequestTls));
    assert!(matches!(parse_command("auth tls", 0), SessionEvent::RequestTls));
    assert!(matches!(parse_command("AUTH SSL", 0), SessionEvent::Malformed));
    assert!(matches!(parse_command("QUIT", 0), SessionEvent::Quit));
    assert!(matches!(parse_command("abor", 0), SessionEvent::Cancel));
}

#[test]
fn malformed_lines() {
    assert!(matches!(parse_command("", 0), SessionEvent::Malformed));
    assert!(matches!(parse_command("USER", 0), SessionEvent::Malformed));
    assert!(matches!(parse_command("USER ", 0), SessionEvent::Malformed));
    assert!(matches!(parse_command("USERalice", 0), SessionEvent::Malformed));
    assert!(matches!(parse_command("QUIT now", 0), SessionEvent::Malformed));
    assert!(matches!(parse_command("NOOP", 0), SessionEvent::Malformed));
}
