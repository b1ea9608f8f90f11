use rshim::io_setup::{console_socket_path, create_io, has_no_io, IoScheme, Stdio};
use rshim::errors::Code;

fn stdio(stdin: &str, stdout: &str, stderr: &str, terminal: bool) -> Stdio {
    Stdio {
        stdin: stdin.to_string(),
        stdout: stdout.to_string(),
        stderr: stderr.to_string(),
        terminal,
    }
}

#[test]
fn null_wiring() {
    let s = stdio("", "", "", false);
    assert!(has_no_io(&s));
    let pio = create_io("c1", 0, 0, &s).expect("null io");
    assert_eq!(pio.scheme, IoScheme::Null);
    assert!(!pio.copy);
    assert!(pio.uri.is_none());
}

#[test]
fn fifo_scheme_and_bare_path_store_the_same_paths() {
    let bare = stdio("/t/in", "/t/out", "/t/err", false);
    let uri = stdio("fifo:///t/in", "fifo:///t/out", "fifo:///t/err", false);
    let a = create_io("c1", 0, 0, &bare).expect("bare");
    let b = create_io("c1", 0, 0, &uri).expect("uri");
    assert_eq!(a.scheme, IoScheme::Fifo);
    assert_eq!(b.scheme, IoScheme::Fifo);
    assert!(a.copy && b.copy);
    assert_eq!(a.stdio_path.stdin, "/t/in");
    assert_eq!(a.stdio_path.stdout, "/t/out");
    assert_eq!(a.stdio_path.stderr, "/t/err");
    assert_eq!(b.stdio_path.stdin, a.stdio_path.stdin);
    assert_eq!(b.stdio_path.stdout, a.stdio_path.stdout);
    assert_eq!(b.stdio_path.stderr, a.stdio_path.stderr);
    assert_eq!(a.uri, Some("fifo:///t/out".to_string()));
    assert_eq!(b.uri, Some("fifo:///t/out".to_string()));
}

#[test]
fn binary_scheme_copies_nothing() {
    let s = stdio("", "binary:///usr/bin/logger", "", false);
    let pio = create_io("c1", 0, 0, &s).expect("binary io");
    assert_eq!(pio.scheme, IoScheme::Binary);
    assert!(!pio.copy);
    assert_eq!(pio.uri, Some("binary:///usr/bin/logger".to_string()));
    assert_eq!(pio.stdio_path.stdout, "");
}

#[test]
fn unknown_scheme_is_invalid_argument() {
    let s = stdio("", "http:///nope", "", false);
    let err = create_io("c1", 0, 0, &s).expect_err("unknown scheme");
    assert_eq!(err.code, Code::InvalidArgument);
    assert_eq!(err.message, "unknown scheme");
}

#[test]
fn fifo_scheme_requires_parsable_streams() {
    // stderr without a scheme cannot be parsed in the explicit-scheme path
    let s = stdio("", "fifo:///t/out", "/t/err", false);
    let err = create_io("c1", 0, 0, &s).expect_err("bad stderr uri");
    assert_ne!(err.code, Code::InvalidArgument);
}

#[test]
fn console_socket_paths() {
    assert_eq!(console_socket_path("/tmp", "c1"), "/tmp/c1.console");
    // an id with an extension has it replaced, as path extension handling does
    assert_eq!(console_socket_path("/tmp", "job.v2"), "/tmp/job.console");
}

#[test]
fn uri_authority_is_not_part_of_the_path() {
    // the path component starts at the first slash after the authority
    let s = stdio("", "fifo://host/p", "fifo://host/q", false);
    let pio = create_io("c1", 0, 0, &s).expect("fifo with authority");
    assert_eq!(pio.stdio_path.stdout, "/p");
    assert_eq!(pio.stdio_path.stderr, "/q");
}
