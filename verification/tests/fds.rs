use enclave_runner::abi::{FD_STDERR, FD_STDIN, FD_STDOUT};
use enclave_runner::enclave::EnclaveState;
use enclave_runner::error::ErrorKind;
use enclave_runner::fd::{AsyncFileDesc, FdTable};

type Table = FdTable<&'static str, u16>;

fn table() -> Table {
    FdTable::new("stdin", "stdout", "stderr")
}

#[test]
fn standard_streams_are_installed() {
    let t = table();
    assert_eq!(t.last_fd(), 2);
    assert_eq!(t.lookup_fd(FD_STDIN).unwrap().as_stream(), Ok(&"stdin"));
    assert_eq!(t.lookup_fd(FD_STDOUT).unwrap().as_stream(), Ok(&"stdout"));
    assert_eq!(t.lookup_fd(FD_STDERR).unwrap().as_stream(), Ok(&"stderr"));
    assert!(matches!(t.lookup_fd(3), Err(ErrorKind::BrokenPipe)));
}

#[test]
fn allocation_begins_at_three_and_counts_up() {
    let mut t = table();
    assert_eq!(t.alloc_fd(AsyncFileDesc::listener(80)), 3);
    assert_eq!(t.alloc_fd(AsyncFileDesc::stream("a")), 4);
    assert_eq!(t.alloc_fd(AsyncFileDesc::stream("b")), 5);
    assert_eq!(t.last_fd(), 5);
}

#[test]
fn lookup_returns_what_was_allocated_until_it_is_closed() {
    let mut t = table();
    let l = t.alloc_fd(AsyncFileDesc::listener(80));
    let s = t.alloc_fd(AsyncFileDesc::stream("conn"));
    assert_eq!(t.lookup_fd(l).unwrap().as_listener(), Ok(&80));
    assert_eq!(t.lookup_fd(s).unwrap().as_stream(), Ok(&"conn"));
    t.close(l);
    assert!(matches!(t.lookup_fd(l), Err(ErrorKind::BrokenPipe)));
    assert_eq!(t.lookup_fd(s).unwrap().as_stream(), Ok(&"conn"));
    let other = t.alloc_fd(AsyncFileDesc::stream("other"));
    assert_eq!(other, 5);
    assert_eq!(t.lookup_fd(s).unwrap().as_stream(), Ok(&"conn"));
    t.close(s);
    assert!(matches!(t.lookup_fd(s), Err(ErrorKind::BrokenPipe)));
}

#[test]
fn closed_descriptor_is_never_handed_out_again() {
    let mut t = table();
    let a = t.alloc_fd(AsyncFileDesc::stream("a"));
    t.close(a);
    let b = t.alloc_fd(AsyncFileDesc::stream("b"));
    assert_ne!(a, b);
    assert_eq!(b, 4);
    assert!(matches!(t.lookup_fd(a), Err(ErrorKind::BrokenPipe)));
}

#[test]
fn closing_what_is_not_open_changes_nothing() {
    let mut t = table();
    t.close(17);
    assert_eq!(t.last_fd(), 2);
    assert_eq!(t.lookup_fd(1).unwrap().as_stream(), Ok(&"stdout"));
    assert_eq!(t.alloc_fd(AsyncFileDesc::stream("a")), 3);
}

#[test]
fn standard_streams_can_be_closed() {
    let mut t = table();
    t.close(FD_STDIN);
    assert!(matches!(t.lookup_fd(FD_STDIN), Err(ErrorKind::BrokenPipe)));
    assert_eq!(t.alloc_fd(AsyncFileDesc::stream("a")), 3);
}

#[test]
fn descriptor_of_the_wrong_kind_is_invalid_input() {
    let s: AsyncFileDesc<&str, u16> = AsyncFileDesc::stream("s");
    let l: AsyncFileDesc<&str, u16> = AsyncFileDesc::listener(1);
    assert_eq!(s.as_stream(), Ok(&"s"));
    assert_eq!(s.as_listener(), Err(ErrorKind::InvalidInput));
    assert_eq!(l.as_listener(), Ok(&1));
    assert_eq!(l.as_stream(), Err(ErrorKind::InvalidInput));
}

#[test]
fn enclave_descriptors_follow_the_table() {
    let mut e: EnclaveState<u8, &'static str, u16> =
        EnclaveState::library(Vec::new(), "in", "out", "err", false);
    assert_eq!(e.last_fd(), 2);
    assert_eq!(e.stream(1), Ok(&"out"));
    assert_eq!(e.listener(1), Err(ErrorKind::InvalidInput));
    assert_eq!(e.stream(9), Err(ErrorKind::BrokenPipe));
    assert_eq!(e.listener(9), Err(ErrorKind::BrokenPipe));
    let l = e.alloc_fd(AsyncFileDesc::listener(443));
    assert_eq!(l, 3);
    assert_eq!(e.listener(l), Ok(&443));
    assert_eq!(e.stream(l), Err(ErrorKind::InvalidInput));
    assert!(matches!(e.lookup_fd(l), Ok(AsyncFileDesc::Listener(443))));
    e.close(l);
    assert_eq!(e.listener(l), Err(ErrorKind::BrokenPipe));
    assert!(matches!(e.lookup_fd(l), Err(ErrorKind::BrokenPipe)));
    assert_eq!(e.alloc_fd(AsyncFileDesc::stream("s")), 4);
}
